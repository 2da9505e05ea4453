//! Accounts of the program-metadata program, and whether one is the account that was asked for.
use vstd::prelude::*;
use crate::address::Address;
use crate::bytes::bytes_equal;
use crate::target::{seed_from_str, MetadataTarget, TargetFault};

verus! {

/// How the content is written as bytes.
#[derive(Debug, Clone, Copy, PartialEq, Eq, Structural)]
pub enum Encoding {
    /// As they are.
    Raw,
    Utf8,
    Base58,
    Base64,
}

/// How the bytes are compressed.
#[derive(Debug, Clone, Copy, PartialEq, Eq, Structural)]
pub enum Compression {
    Uncompressed,
    Gzip,
    Zlib,
}

/// What the content is.
#[derive(Debug, Clone, Copy, PartialEq, Eq, Structural)]
pub enum Format {
    Unspecified,
    Json,
    Yaml,
    Toml,
}

/// Where the content is.
#[derive(Debug, Clone, Copy, PartialEq, Eq, Structural)]
pub enum DataSource {
    /// In the account itself.
    Direct,
    /// Behind the URL that the account holds.
    Url,
    /// In another account, which this one points to.
    External,
}

/// A metadata account, decoded.
#[derive(Debug, Clone)]
pub struct Metadata {
    pub program: Address,
    /// Zero where the account belongs to the program's own authority.
    pub authority: Address,
    pub mutable: bool,
    pub canonical: bool,
    pub seed: [u8; 16],
    pub encoding: Encoding,
    pub compression: Compression,
    pub format: Format,
    pub data_source: DataSource,
    pub data_length: u32,
    pub data: Vec<u8>,
}

impl Metadata {
    /// The authority that takes part in the address of this account: none where it is canonical.
    pub open spec fn seed_authority(&self) -> Option<&Address> {
        if self.canonical {
            None
        } else {
            Some(&self.authority)
        }
    }
}

/// A metadata account with its address.
#[derive(Debug, Clone)]
pub struct FetchedMetadataAccount {
    pub address: Address,
    pub metadata: Metadata,
}

/// Why an account is not the one that was asked for.
#[derive(Debug, Clone, Copy, PartialEq, Eq, Structural)]
pub enum AccountFault {
    NotOwned,
    Undecodable,
    WrongProgram,
    WrongSeed,
    WrongCanonicalFlag,
    /// A canonical account stores an authority.
    UnexpectedAuthority,
    WrongAuthority,
}

/// The account that is asked for, and where it is to be fetched.
#[derive(Debug, Clone)]
pub struct MetadataQuery {
    pub program_id: Address,
    pub target: MetadataTarget,
    pub seed: [u8; 16],
    pub metadata_program: Address,
    pub address: Address,
}

/// What keeps an account from being the one that `query` asks for. `decoded` is `None` where
/// the account's data is no metadata.
pub open spec fn account_fault(
    query: MetadataQuery,
    owner: Address,
    decoded: Option<Metadata>,
) -> Option<AccountFault> {
    if owner != query.metadata_program {
        Some(AccountFault::NotOwned)
    } else if decoded is None {
        Some(AccountFault::Undecodable)
    } else if decoded->0.program != query.program_id {
        Some(AccountFault::WrongProgram)
    } else if decoded->0.seed@ != query.seed@ {
        Some(AccountFault::WrongSeed)
    } else if decoded->0.canonical != query.target.canonical {
        Some(AccountFault::WrongCanonicalFlag)
    } else if query.target.canonical && decoded->0.authority != crate::address::zero_address() {
        Some(AccountFault::UnexpectedAuthority)
    } else if !query.target.canonical && decoded->0.authority != query.target.authority {
        Some(AccountFault::WrongAuthority)
    } else {
        None
    }
}

/// `asked` is what comes of asking for the account of `target` that `seed` names.
pub open spec fn asks_for(
    asked: Result<MetadataQuery, TargetFault>,
    program_id: Address,
    target: MetadataTarget,
    seed: Seq<char>,
    metadata_program: Address,
) -> bool {
    let address = crate::target::pda(
        program_id,
        target.seed_authority(),
        seed,
        metadata_program,
    );
    match asked {
        Ok(query) => {
            &&& crate::target::seed_fits(seed)
            &&& query.program_id == program_id
            &&& query.target == target
            &&& query.seed@ == crate::target::padded_seed(seed)
            &&& query.metadata_program == metadata_program
            &&& address == Some(query.address@)
        },
        Err(TargetFault::SeedTooLong) => !crate::target::seed_fits(seed),
        Err(fault) => {
            &&& fault == TargetFault::NoProgramAddress
            &&& crate::target::seed_fits(seed)
            &&& address is None
        },
    }
}

/// `matched` is what comes of holding a fetched account against `query`.
pub open spec fn matches_query(
    matched: Result<FetchedMetadataAccount, AccountFault>,
    query: MetadataQuery,
    owner: Address,
    decoded: Option<Metadata>,
) -> bool {
    match matched {
        Ok(account) => {
            &&& account_fault(query, owner, decoded) is None
            &&& account.address == query.address
            &&& Some(account.metadata) == decoded
        },
        Err(fault) => account_fault(query, owner, decoded) == Some(fault),
    }
}

/// Asks for the account of `target` that `seed_name` names.
pub fn query_metadata_account(
    program_id: &Address,
    target: &MetadataTarget,
    seed_name: &str,
    metadata_program: &Address,
) -> (asked: Result<MetadataQuery, TargetFault>)
    ensures
        match asked {
            Ok(query) => {
                &&& query.program_id == program_id
                &&& query.target == target
                &&& query.metadata_program == metadata_program
                &&& crate::target::seed_fits(seed_name@)
                &&& query.seed@ == crate::target::padded_seed(seed_name@)
                &&& crate::target::pda(
                    *program_id,
                    target.seed_authority(),
                    seed_name@,
                    *metadata_program,
                ) == Some(query.address@)
            },
            Err(TargetFault::SeedTooLong) => !crate::target::seed_fits(seed_name@),
            Err(fault) => {
                &&& fault == TargetFault::NoProgramAddress
                &&& crate::target::seed_fits(seed_name@)
                &&& crate::target::pda(
                    *program_id,
                    target.seed_authority(),
                    seed_name@,
                    *metadata_program,
                ) is None
            },
        },
        asks_for(asked, *program_id, *target, seed_name@, *metadata_program),
{
    let seed = seed_from_str(seed_name)?;
    let address = target.try_pda_for_seed(program_id, seed_name, metadata_program)?;
    Ok(
        MetadataQuery {
            program_id: *program_id,
            target: *target,
            seed,
            metadata_program: *metadata_program,
            address,
        },
    )
}

impl MetadataQuery {
    /// Takes the owner of the fetched account and what its data decodes to, and hands the
    /// account on where it is the one asked for.
    pub fn match_account(&self, owner: &Address, decoded: Option<Metadata>) -> (matched: Result<
        FetchedMetadataAccount,
        AccountFault,
    >)
        ensures
            match matched {
                Ok(account) => {
                    &&& account_fault(*self, *owner, decoded) is None
                    &&& account.address == self.address
                    &&& Some(account.metadata) == decoded
                },
                Err(fault) => account_fault(*self, *owner, decoded) == Some(fault),
            },
            matches_query(matched, *self, *owner, decoded),
    {
        if *owner != self.metadata_program {
            return Err(AccountFault::NotOwned);
        }
        let metadata = match decoded {
            Some(metadata) => metadata,
            None => return Err(AccountFault::Undecodable),
        };
        if metadata.program != self.program_id {
            return Err(AccountFault::WrongProgram);
        }
        if !bytes_equal(&metadata.seed, &self.seed) {
            return Err(AccountFault::WrongSeed);
        }
        if metadata.canonical != self.target.canonical {
            return Err(AccountFault::WrongCanonicalFlag);
        }
        if self.target.canonical {
            let zero = Address { bytes: [0u8; 32] };
            proof {
                assert(zero@ =~= crate::address::zero_address()@);
                crate::address::law_address_is_its_bytes(zero, crate::address::zero_address());
            }
            if metadata.authority != zero {
                return Err(AccountFault::UnexpectedAuthority);
            }
        } else if metadata.authority != self.target.authority {
            return Err(AccountFault::WrongAuthority);
        }
        Ok(FetchedMetadataAccount { address: self.address, metadata })
    }
}

/// An account that answers a query stores the very fields from which its address is derived.
pub proof fn law_matched_account_lies_at_its_address(
    query: MetadataQuery,
    owner: Address,
    metadata: Metadata,
    seed_name: Seq<char>,
)
    requires
        crate::target::pda(
            query.program_id,
            query.target.seed_authority(),
            seed_name,
            query.metadata_program,
        ) == Some(query.address@),
        account_fault(query, owner, Some(metadata)) is None,
    ensures
        crate::target::pda(metadata.program, metadata.seed_authority(), seed_name, owner)
            == Some(query.address@),
{
}

/// An account answers no two queries that differ in the program, the seed or the kind of
/// target, nor in the authority where that is not the program's own.
pub proof fn law_account_answers_one_query(
    left: MetadataQuery,
    right: MetadataQuery,
    owner: Address,
    metadata: Metadata,
)
    requires
        account_fault(left, owner, Some(metadata)) is None,
        account_fault(right, owner, Some(metadata)) is None,
    ensures
        left.metadata_program == right.metadata_program,
        left.program_id == right.program_id,
        left.seed@ == right.seed@,
        left.target.canonical == right.target.canonical,
        !left.target.canonical ==> left.target.authority == right.target.authority,
{
}

/// An account of the asked owner, program, seed and canonical flag, with no authority where it
/// is canonical and the target's where it is not, is accepted whatever else it holds: whether it
/// can be changed, how its content is written and where that is do not matter.
pub proof fn law_account_with_asked_fields_is_accepted(
    query: MetadataQuery,
    owner: Address,
    metadata: Metadata,
)
    requires
        owner == query.metadata_program,
        metadata.program == query.program_id,
        metadata.seed@ == query.seed@,
        metadata.canonical == query.target.canonical,
        metadata.canonical ==> (forall|i: int|
            0 <= i < 32 ==> #[trigger] metadata.authority@[i] == 0),
        !metadata.canonical ==> metadata.authority == query.target.authority,
    ensures
        account_fault(query, owner, Some(metadata)) is None,
{
    crate::address::law_zero_address_is_zeros(metadata.authority);
}

/// An account that is accepted is decoded and has the asked owner, program, seed and canonical
/// flag, no authority where it is canonical, and the target's where it is not.
pub proof fn law_accepted_account_has_asked_fields(
    query: MetadataQuery,
    owner: Address,
    decoded: Option<Metadata>,
)
    requires
        account_fault(query, owner, decoded) is None,
    ensures
        owner == query.metadata_program,
        decoded matches Some(metadata) && {
            &&& metadata.program == query.program_id
            &&& metadata.seed@ == query.seed@
            &&& metadata.canonical == query.target.canonical
            &&& metadata.canonical ==> (forall|i: int|
                0 <= i < 32 ==> #[trigger] metadata.authority@[i] == 0)
            &&& !metadata.canonical ==> metadata.authority == query.target.authority
        },
{
    crate::address::law_zero_address_is_zeros(decoded->0.authority);
}

/// What is wrong with an account is told in order: its owner, that it is no metadata, its
/// program, its seed, its canonical flag, its authority.
pub proof fn law_first_fault_of_account_is_told(
    query: MetadataQuery,
    owner: Address,
    metadata: Metadata,
)
    ensures
        owner != query.metadata_program ==> account_fault(query, owner, Some(metadata)) == Some(
            AccountFault::NotOwned,
        ) && account_fault(query, owner, None) == Some(AccountFault::NotOwned),
        owner == query.metadata_program ==> {
            let fault = account_fault(query, owner, Some(metadata));
            let same_program = metadata.program == query.program_id;
            let same_seed = metadata.seed@ == query.seed@;
            let same_flag = metadata.canonical == query.target.canonical;
            &&& account_fault(query, owner, None) == Some(AccountFault::Undecodable)
            &&& fault == Some(AccountFault::WrongProgram) <==> !same_program
            &&& fault == Some(AccountFault::WrongSeed) <==> same_program && !same_seed
            &&& fault == Some(AccountFault::WrongCanonicalFlag) <==> same_program && same_seed
                && !same_flag
            &&& fault == Some(AccountFault::UnexpectedAuthority) ==> metadata.canonical
            &&& fault == Some(AccountFault::WrongAuthority) ==> !metadata.canonical
            &&& fault != Some(AccountFault::NotOwned)
            &&& fault != Some(AccountFault::Undecodable)
        },
{
}

/// An account can be asked for wherever the seed takes at most sixteen bytes and the metadata
/// program derives an address from the program, the target's authority unless it is canonical,
/// and the seed filled up with zeros: at that address it is to be fetched.
pub proof fn law_account_is_asked_for_at_derived_address(
    asked: Result<MetadataQuery, TargetFault>,
    program: Address,
    target: MetadataTarget,
    seed: Seq<char>,
    metadata_program: Address,
)
    requires
        asks_for(asked, program, target, seed, metadata_program),
    ensures
        ({
            let text = vstd::utf8::encode_utf8(seed);
            let name = text + Seq::new((16 - text.len()) as nat, |i: int| 0u8);
            let seeds = if target.canonical {
                seq![program@, name]
            } else {
                seq![program@, target.authority@, name]
            };
            let found = crate::address::found_program_address(seeds, metadata_program@);
            &&& text.len() > 16 <==> asked == Err::<MetadataQuery, _>(TargetFault::SeedTooLong)
            &&& text.len() <= 16 ==> match found {
                Some(pair) => {
                    &&& asked matches Ok(query)
                    &&& query.address@ == pair.0
                    &&& query.seed@ == name
                    &&& query.program_id == program
                    &&& query.target == target
                    &&& query.metadata_program == metadata_program
                },
                None => asked == Err::<MetadataQuery, _>(TargetFault::NoProgramAddress),
            }
        }),
{
    crate::target::law_padded_seed_is_text_and_zeros(seed);
    crate::target::law_account_address_is_derived_from_seeds(
        target,
        program,
        seed,
        metadata_program,
    );
}

/// An account with the asked fields is handed on with the address that was asked and its
/// metadata unchanged, whatever else that holds, and an account that is handed on has them.
pub proof fn law_matching_account_is_handed_on(
    matched: Result<FetchedMetadataAccount, AccountFault>,
    query: MetadataQuery,
    owner: Address,
    metadata: Metadata,
)
    requires
        matches_query(matched, query, owner, Some(metadata)),
    ensures
        matched is Ok <==> {
            &&& owner == query.metadata_program
            &&& metadata.program == query.program_id
            &&& metadata.seed@ == query.seed@
            &&& metadata.canonical == query.target.canonical
            &&& metadata.canonical ==> (forall|i: int|
                0 <= i < 32 ==> #[trigger] metadata.authority@[i] == 0)
            &&& !metadata.canonical ==> metadata.authority == query.target.authority
        },
        matched matches Ok(account) ==> account.address == query.address && account.metadata
            == metadata,
{
    crate::address::law_zero_address_is_zeros(metadata.authority);
}

} // verus!
