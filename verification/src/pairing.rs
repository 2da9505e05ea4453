//! Whether the record of how a program was built and the record of its IDL name one source.
use vstd::prelude::*;
use crate::address::Address;
use crate::metadata::IdlVerificationMetadata;
use crate::text::text_equal;

verus! {

/// How a program on chain was built, as its signer recorded it.
#[derive(Debug, Clone)]
pub struct OtterBuildParams {
    pub address: Address,
    pub signer: Address,
    pub version: String,
    pub git_url: String,
    pub commit: String,
    pub args: Vec<String>,
    pub deployed_slot: u64,
    pub bump: u8,
}

/// In what the record of a program's build and that of its IDL agree.
#[derive(Debug, Clone, PartialEq, Eq, Structural)]
pub struct IdlExecutableVerificationMatch {
    pub repo_url_matches: bool,
    pub commit_matches: bool,
}

impl IdlExecutableVerificationMatch {
    /// Tells whether the two records agree in everything.
    pub fn success(&self) -> (success: bool)
        ensures
            success == (self.repo_url_matches && self.commit_matches),
    {
        self.repo_url_matches && self.commit_matches
    }
}

/// In what two records disagree.
#[derive(Debug, Clone, Copy, PartialEq, Eq, Structural)]
pub enum PairFault {
    WrongProgram,
    WrongSigner,
    RepoUrlDiffers,
    CommitDiffers,
}

/// What keeps a build record from being that of `program` signed by `authority`.
pub open spec fn identity_fault(
    build_params: OtterBuildParams,
    program: Address,
    authority: Address,
) -> Option<PairFault> {
    if build_params.address != program {
        Some(PairFault::WrongProgram)
    } else if build_params.signer != authority {
        Some(PairFault::WrongSigner)
    } else {
        None
    }
}

/// What keeps a build record from going with the record of an IDL.
pub open spec fn pair_fault(
    build_params: OtterBuildParams,
    program: Address,
    authority: Address,
    idl_metadata: IdlVerificationMetadata,
) -> Option<PairFault> {
    if identity_fault(build_params, program, authority) is Some {
        identity_fault(build_params, program, authority)
    } else if build_params.git_url@ != idl_metadata.repo_url@ {
        Some(PairFault::RepoUrlDiffers)
    } else if build_params.commit@ != idl_metadata.commit@ {
        Some(PairFault::CommitDiffers)
    } else {
        None
    }
}

/// In what the record of a build and that of an IDL agree.
pub open spec fn agreement(
    build_params: OtterBuildParams,
    idl_metadata: IdlVerificationMetadata,
) -> IdlExecutableVerificationMatch {
    IdlExecutableVerificationMatch {
        repo_url_matches: build_params.git_url@ == idl_metadata.repo_url@,
        commit_matches: build_params.commit@ == idl_metadata.commit@,
    }
}

/// What a user is told of the comparison of two records.
pub open spec fn pair_line(pair: IdlExecutableVerificationMatch) -> Seq<char> {
    if pair.repo_url_matches && pair.commit_matches {
        "IDL Verification matches Program Verification repo and commit: success ✅"@
    } else {
        "IDL Verification matches Program Verification repo and commit: failed ❌"@
    }
}

/// Compares the repository and the commit of two records.
pub fn compare_executable_verification_pair(
    build_params: &OtterBuildParams,
    idl_metadata: &IdlVerificationMetadata,
) -> (pair: IdlExecutableVerificationMatch)
    ensures
        pair.repo_url_matches == (build_params.git_url@ == idl_metadata.repo_url@),
        pair.commit_matches == (build_params.commit@ == idl_metadata.commit@),
        pair == agreement(*build_params, *idl_metadata),
{
    IdlExecutableVerificationMatch {
        repo_url_matches: text_equal(&build_params.git_url, &idl_metadata.repo_url),
        commit_matches: text_equal(&build_params.commit, &idl_metadata.commit),
    }
}

/// What a user is told of the comparison of two records.
pub fn executable_verification_pair_line(pair: &IdlExecutableVerificationMatch) -> (line: String)
    ensures
        line@ == if pair.repo_url_matches && pair.commit_matches {
            "IDL Verification matches Program Verification repo and commit: success ✅"@
        } else {
            "IDL Verification matches Program Verification repo and commit: failed ❌"@
        },
        line@ == pair_line(*pair),
{
    if pair.success() {
        "IDL Verification matches Program Verification repo and commit: success ✅".to_owned()
    } else {
        "IDL Verification matches Program Verification repo and commit: failed ❌".to_owned()
    }
}

/// Checks that a build record is that of `program_id`, signed by `metadata_authority`.
pub fn validate_executable_verification_identity(
    build_params: &OtterBuildParams,
    program_id: &Address,
    metadata_authority: &Address,
) -> (checked: Result<(), PairFault>)
    ensures
        match checked {
            Ok(()) => identity_fault(*build_params, *program_id, *metadata_authority) is None,
            Err(fault) => identity_fault(*build_params, *program_id, *metadata_authority) == Some(
                fault,
            ),
        },
{
    if build_params.address != *program_id {
        return Err(PairFault::WrongProgram);
    }
    if build_params.signer != *metadata_authority {
        return Err(PairFault::WrongSigner);
    }
    Ok(())
}

/// Checks that a build record is that of `program_id`, signed by `metadata_authority`, and
/// names the repository and the commit of the IDL's record.
pub fn validate_executable_verification_pair(
    build_params: &OtterBuildParams,
    program_id: &Address,
    metadata_authority: &Address,
    idl_metadata: &IdlVerificationMetadata,
) -> (checked: Result<(), PairFault>)
    ensures
        match checked {
            Ok(()) => pair_fault(*build_params, *program_id, *metadata_authority, *idl_metadata)
                is None,
            Err(fault) => pair_fault(
                *build_params,
                *program_id,
                *metadata_authority,
                *idl_metadata,
            ) == Some(fault),
        },
{
    validate_executable_verification_identity(build_params, program_id, metadata_authority)?;
    let pair = compare_executable_verification_pair(build_params, idl_metadata);
    if !pair.repo_url_matches {
        return Err(PairFault::RepoUrlDiffers);
    }
    if !pair.commit_matches {
        return Err(PairFault::CommitDiffers);
    }
    Ok(())
}

/// Two records go together exactly where the program and the signer are the wanted ones and the
/// comparison of repository and commit is a success.
pub proof fn law_pair_is_identity_and_match(
    build_params: OtterBuildParams,
    program: Address,
    authority: Address,
    idl_metadata: IdlVerificationMetadata,
    pair: IdlExecutableVerificationMatch,
)
    requires
        pair.repo_url_matches == (build_params.git_url@ == idl_metadata.repo_url@),
        pair.commit_matches == (build_params.commit@ == idl_metadata.commit@),
    ensures
        pair_fault(build_params, program, authority, idl_metadata) is None <==> {
            &&& identity_fault(build_params, program, authority) is None
            &&& pair.repo_url_matches
            &&& pair.commit_matches
        },
{
}

/// Two records agree in the repository exactly where the two URLs are the same text, and in the
/// commit exactly where the two commits are; nothing else in the records matters, and a text
/// that differs in its length or in one character is another.
pub proof fn law_agreement_is_sameness_of_text(
    build_params: OtterBuildParams,
    idl_metadata: IdlVerificationMetadata,
    at: int,
)
    ensures
        ({
            let pair = agreement(build_params, idl_metadata);
            let url = (build_params.git_url@, idl_metadata.repo_url@);
            let commit = (build_params.commit@, idl_metadata.commit@);
            &&& url.0 == url.1 ==> pair.repo_url_matches
            &&& url.0.len() != url.1.len() ==> !pair.repo_url_matches
            &&& 0 <= at < url.0.len() && url.0[at] != url.1[at] ==> !pair.repo_url_matches
            &&& commit.0 == commit.1 ==> pair.commit_matches
            &&& commit.0.len() != commit.1.len() ==> !pair.commit_matches
            &&& 0 <= at < commit.0.len() && commit.0[at] != commit.1[at] ==> !pair.commit_matches
        }),
{
}

/// A build record goes with the record of an IDL wherever it names the wanted program and
/// signer and the same repository and commit, whatever its version, arguments, slot and bump
/// are. Otherwise the first difference in that order is told.
pub proof fn law_first_difference_of_pair_is_told(
    build_params: OtterBuildParams,
    program: Address,
    authority: Address,
    idl_metadata: IdlVerificationMetadata,
)
    ensures
        ({
            let fault = pair_fault(build_params, program, authority, idl_metadata);
            let identity = identity_fault(build_params, program, authority);
            let same_program = build_params.address == program;
            let same_signer = build_params.signer == authority;
            let same_url = build_params.git_url@ == idl_metadata.repo_url@;
            let same_commit = build_params.commit@ == idl_metadata.commit@;
            &&& !same_program <==> identity == Some(PairFault::WrongProgram)
            &&& same_program && !same_signer <==> identity == Some(PairFault::WrongSigner)
            &&& same_program && same_signer <==> identity is None
            &&& identity is Some ==> fault == identity
            &&& identity is None && !same_url <==> fault == Some(PairFault::RepoUrlDiffers)
            &&& identity is None && same_url && !same_commit <==> fault == Some(
                PairFault::CommitDiffers,
            )
            &&& identity is None && same_url && same_commit <==> fault is None
        }),
{
}

/// A user is told of a success exactly where both the repository and the commit match.
pub proof fn law_line_tells_success(pair: IdlExecutableVerificationMatch)
    ensures
        pair.repo_url_matches && pair.commit_matches ==> pair_line(pair)
            == "IDL Verification matches Program Verification repo and commit: success ✅"@,
        !pair.repo_url_matches || !pair.commit_matches ==> pair_line(pair)
            == "IDL Verification matches Program Verification repo and commit: failed ❌"@,
{
}

} // verus!
