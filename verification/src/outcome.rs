//! Comparing the IDL that a repository holds with the one on chain.
use vstd::prelude::*;
use vstd::string::StringExecFns;
use crate::address::{address_to_text, Address};
use crate::bytes::bytes_equal;
use crate::metadata::{IdlVerificationMetadata, MetadataFault};
use crate::path::resolve_repo_path;
use crate::target::MetadataTarget;

verus! {

/// What the sha256 crate writes the digest of these bytes as: in hexadecimal.
pub uninterp spec fn sha256_hex(data: Seq<u8>) -> Seq<char>;

/// Calls `sha256::digest`. The text is a function of the bytes; what it is, is left unsaid.
#[verifier::external_body]
fn sha256_digest(data: &[u8]) -> (text: String)
    ensures
        text@ == sha256_hex(data@),
{
    sha256::digest(data)
}

/// The hash of an IDL: of all its bytes, exactly as they are.
pub fn idl_hash_from_bytes(bytes: &[u8]) -> (hash: String)
    ensures
        hash@ == sha256_hex(bytes@),
{
    sha256_digest(bytes)
}

/// An IDL as a repository holds it.
#[derive(Debug, Clone)]
pub struct ReproducedIdl {
    pub path: String,
    pub bytes: Vec<u8>,
    pub sha256: String,
}

/// What a comparison came to.
#[derive(Debug, Clone)]
pub struct IdlVerificationOutcome {
    pub idl_account: Address,
    pub idl_verification_account: Address,
    pub authority: Address,
    pub canonical: bool,
    pub reproduced_path: String,
    pub reproduced_hash: String,
    pub on_chain_hash: String,
    pub success: bool,
}

/// `outcome` is what comes of comparing the content of `idl_account` with what a repository
/// reproduces.
pub open spec fn compared(
    outcome: IdlVerificationOutcome,
    idl_account: Address,
    on_chain: Seq<u8>,
    target: MetadataTarget,
    reproduced: ReproducedIdl,
    verification_account: Address,
) -> bool {
    &&& outcome.idl_account == idl_account
    &&& outcome.idl_verification_account == verification_account
    &&& outcome.authority == target.authority
    &&& outcome.canonical == target.canonical
    &&& outcome.reproduced_path == reproduced.path
    &&& outcome.reproduced_hash == reproduced.sha256
    &&& outcome.on_chain_hash@ == sha256_hex(on_chain)
    &&& outcome.success <==> reproduced.bytes@ == on_chain
}

/// `reproduced` is the IDL with these bytes from the file at `path`.
pub open spec fn reproduced_from(reproduced: ReproducedIdl, path: Seq<char>, bytes: Seq<u8>) -> bool {
    &&& reproduced.path@ == path
    &&& reproduced.bytes@ == bytes
    &&& reproduced.sha256@ == sha256_hex(bytes)
}

/// The path of the file from which `metadata` says that the IDL can be reproduced.
pub open spec fn reproduction_path(root: Seq<char>, metadata: IdlVerificationMetadata) -> Result<
    Seq<char>,
    MetadataFault,
> {
    match metadata.fault() {
        Some(fault) => Err(fault),
        None => Ok(crate::path::joined(root, metadata.path@)),
    }
}

/// The file from which `metadata` says that the IDL can be reproduced.
pub fn reproduced_idl_path(repo_root: &str, metadata: &IdlVerificationMetadata) -> (path: Result<
    String,
    MetadataFault,
>)
    ensures
        match path {
            Ok(p) => metadata.fault() is None && p@ == crate::path::joined(
                repo_root@,
                metadata.path@,
            ),
            Err(fault) => metadata.fault() == Some(fault),
        },
        match path {
            Ok(p) => reproduction_path(repo_root@, *metadata) == Ok::<_, MetadataFault>(p@),
            Err(fault) => reproduction_path(repo_root@, *metadata) == Err::<Seq<char>, _>(fault),
        },
{
    metadata.validate()?;
    match resolve_repo_path(repo_root, &metadata.path) {
        Ok(path) => Ok(path),
        Err(fault) => Err(MetadataFault::Path(fault)),
    }
}

/// The IDL that was read from `path`.
pub fn reproduce_idl(path: String, bytes: Vec<u8>) -> (reproduced: ReproducedIdl)
    ensures
        reproduced.path == path,
        reproduced.bytes == bytes,
        reproduced.sha256@ == sha256_hex(bytes@),
        reproduced_from(reproduced, path@, bytes@),
{
    let sha256 = idl_hash_from_bytes(&bytes);
    ReproducedIdl { path, bytes, sha256 }
}

/// Compares what a repository reproduces with the content of the account on chain, byte by
/// byte.
pub fn verify_idl_against_on_chain(
    idl_account: &Address,
    on_chain_bytes: &[u8],
    target: &MetadataTarget,
    reproduced: ReproducedIdl,
    verification_account: &Address,
) -> (outcome: IdlVerificationOutcome)
    ensures
        outcome.idl_account == idl_account,
        outcome.idl_verification_account == verification_account,
        outcome.authority == target.authority,
        outcome.canonical == target.canonical,
        outcome.reproduced_path == reproduced.path,
        outcome.reproduced_hash == reproduced.sha256,
        outcome.on_chain_hash@ == sha256_hex(on_chain_bytes@),
        outcome.success <==> reproduced.bytes@ == on_chain_bytes@,
        compared(
            outcome,
            *idl_account,
            on_chain_bytes@,
            *target,
            reproduced,
            *verification_account,
        ),
{
    let on_chain_hash = idl_hash_from_bytes(on_chain_bytes);
    let success = bytes_equal(&reproduced.bytes, on_chain_bytes);
    IdlVerificationOutcome {
        idl_account: *idl_account,
        idl_verification_account: *verification_account,
        authority: target.authority,
        canonical: target.canonical,
        reproduced_path: reproduced.path,
        reproduced_hash: reproduced.sha256,
        on_chain_hash,
        success,
    }
}

/// What a user is told of a comparison, line by line.
pub open spec fn outcome_lines(outcome: IdlVerificationOutcome) -> Seq<Seq<char>> {
    seq![
        "Verified IDL Path: "@ + outcome.reproduced_path@,
        "IDL Metadata Account: "@ + crate::codec::base58_text(outcome.idl_account@),
        "IDL Verification Metadata Account: "@ + crate::codec::base58_text(
            outcome.idl_verification_account@,
        ),
        "IDL Metadata Authority: "@ + crate::codec::base58_text(outcome.authority@),
        "IDL Hash from repo: "@ + outcome.reproduced_hash@,
        "On-chain IDL Hash: "@ + outcome.on_chain_hash@,
        if outcome.success {
            "IDL Verification: success ✅"@
        } else {
            "IDL Verification: failed ❌"@
        },
    ]
}

/// The form of an address in base 58.
fn write_address(address: &Address) -> (text: String)
    ensures
        text@ == crate::codec::base58_text(address@),
{
    let text = address_to_text(address);
    proof {
        crate::codec::law_content_has_one_base58(address@, text@, text@);
    }
    text
}

/// What a user is told of a comparison, line by line. Addresses are told in base 58.
pub fn idl_verification_outcome_lines(outcome: &IdlVerificationOutcome) -> (lines: Vec<String>)
    ensures
        lines.deep_view() == outcome_lines(*outcome),
{
    let mut lines: Vec<String> = Vec::new();
    lines.push("Verified IDL Path: ".to_owned().concat(&outcome.reproduced_path));
    lines.push("IDL Metadata Account: ".to_owned().concat(&write_address(&outcome.idl_account)));
    lines.push(
        "IDL Verification Metadata Account: ".to_owned().concat(
            &write_address(&outcome.idl_verification_account),
        ),
    );
    lines.push("IDL Metadata Authority: ".to_owned().concat(&write_address(&outcome.authority)));
    lines.push("IDL Hash from repo: ".to_owned().concat(&outcome.reproduced_hash));
    lines.push("On-chain IDL Hash: ".to_owned().concat(&outcome.on_chain_hash));
    lines.push(
        if outcome.success {
            "IDL Verification: success ✅".to_owned()
        } else {
            "IDL Verification: failed ❌".to_owned()
        },
    );
    assert(lines.deep_view() =~= outcome_lines(*outcome));
    lines
}

/// Where a comparison succeeds, the two hashes that it reports are the same.
pub proof fn law_success_means_equal_hashes(
    reproduced: ReproducedIdl,
    on_chain: Seq<u8>,
    outcome: IdlVerificationOutcome,
)
    requires
        reproduced.sha256@ == sha256_hex(reproduced.bytes@),
        outcome.reproduced_hash == reproduced.sha256,
        outcome.on_chain_hash@ == sha256_hex(on_chain),
        outcome.success <==> reproduced.bytes@ == on_chain,
    ensures
        outcome.success ==> outcome.reproduced_hash@ == outcome.on_chain_hash@,
        outcome.reproduced_hash@ != outcome.on_chain_hash@ ==> !outcome.success,
{
}

/// A comparison succeeds for content of any length and kind that is the same byte for byte, and
/// fails where it differs in its length or in a single byte, whoever the target is.
pub proof fn law_comparison_tells_equal_content(
    outcome: IdlVerificationOutcome,
    idl_account: Address,
    on_chain: Seq<u8>,
    target: MetadataTarget,
    reproduced: ReproducedIdl,
    path: Seq<char>,
    bytes: Seq<u8>,
    verification_account: Address,
)
    requires
        reproduced_from(reproduced, path, bytes),
        compared(outcome, idl_account, on_chain, target, reproduced, verification_account),
    ensures
        bytes == on_chain ==> outcome.success,
        bytes.len() != on_chain.len() ==> !outcome.success,
        forall|i: int|
            0 <= i < bytes.len() && bytes.len() == on_chain.len() && #[trigger] bytes[i]
                != on_chain[i] ==> !outcome.success,
        outcome.reproduced_hash@ == sha256_hex(bytes),
        outcome.on_chain_hash@ == sha256_hex(on_chain),
        outcome.success ==> outcome.reproduced_hash@ == outcome.on_chain_hash@,
        outcome.reproduced_path@ == path,
        outcome.idl_account == idl_account,
        outcome.idl_verification_account == verification_account,
        outcome.authority == target.authority,
        outcome.canonical == target.canonical,
{
}

/// The file of a sound record is the one at its path below the root of the repository, and a
/// record that is not valid names no file.
pub proof fn law_reproduction_path_is_below_root(root: Seq<char>, metadata: IdlVerificationMetadata)
    ensures
        reproduction_path(root, metadata) is Ok <==> metadata.fault() is None,
        reproduction_path(root, metadata) is Err ==> reproduction_path(root, metadata) == Err::<
            Seq<char>,
            _,
        >(metadata.fault()->0),
        metadata.fault() is None && root.len() > 0 && root.last() != '/' ==> reproduction_path(
            root,
            metadata,
        ) == Ok::<_, MetadataFault>(root + seq!['/'] + metadata.path@),
        metadata.fault() is None && root.len() > 0 && root.last() == '/' ==> reproduction_path(
            root,
            metadata,
        ) == Ok::<_, MetadataFault>(root + metadata.path@),
{
    crate::path::law_joined_by_one_separator(root, metadata.path@);
    if root.len() > 0 && root.last() == '/' {
        crate::path::law_joined_by_one_separator(root.drop_last(), metadata.path@);
        assert(root.drop_last().push('/') =~= root);
        assert(root.drop_last() + seq!['/'] + metadata.path@ =~= root + metadata.path@);
    }
}

/// A user is told seven lines: the path, the two accounts and the authority in base 58, the two
/// hashes in full, and whether the comparison was a success.
pub proof fn law_lines_tell_whole_outcome(outcome: IdlVerificationOutcome)
    ensures
        ({
            let lines = outcome_lines(outcome);
            &&& lines.len() == 7
            &&& lines[0] == "Verified IDL Path: "@ + outcome.reproduced_path@
            &&& forall|text: Seq<char>| #[trigger]
                crate::codec::is_base58(text, outcome.idl_account@) ==> lines[1]
                    == "IDL Metadata Account: "@ + text
            &&& forall|text: Seq<char>| #[trigger]
                crate::codec::is_base58(text, outcome.idl_verification_account@) ==> lines[2]
                    == "IDL Verification Metadata Account: "@ + text
            &&& forall|text: Seq<char>| #[trigger]
                crate::codec::is_base58(text, outcome.authority@) ==> lines[3]
                    == "IDL Metadata Authority: "@ + text
            &&& lines[4] == "IDL Hash from repo: "@ + outcome.reproduced_hash@
            &&& lines[5] == "On-chain IDL Hash: "@ + outcome.on_chain_hash@
            &&& outcome.success ==> lines[6] == "IDL Verification: success ✅"@
            &&& !outcome.success ==> lines[6] == "IDL Verification: failed ❌"@
        }),
{
    let lines = outcome_lines(outcome);
    assert forall|text: Seq<char>| #[trigger]
        crate::codec::is_base58(text, outcome.idl_account@) implies lines[1]
        == "IDL Metadata Account: "@ + text by {
        crate::codec::law_content_has_one_base58(outcome.idl_account@, text, text);
    }
    assert forall|text: Seq<char>| #[trigger]
        crate::codec::is_base58(text, outcome.idl_verification_account@) implies lines[2]
        == "IDL Verification Metadata Account: "@ + text by {
        crate::codec::law_content_has_one_base58(outcome.idl_verification_account@, text, text);
    }
    assert forall|text: Seq<char>| #[trigger]
        crate::codec::is_base58(text, outcome.authority@) implies lines[3]
        == "IDL Metadata Authority: "@ + text by {
        crate::codec::law_content_has_one_base58(outcome.authority@, text, text);
    }
}

} // verus!
