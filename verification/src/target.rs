//! Which metadata account of a program is meant, and where it lies.
use vstd::prelude::*;
use crate::address::{try_find_program_address, Address};
use crate::authority::ProgramAuthority;

verus! {

/// The seed of the account that holds a program's IDL.
pub const IDL_SEED: &'static str = "idl";

/// The seed of the account that says how a program's IDL is reproduced.
pub const IDL_VERIFICATION_SEED: &'static str = "idl-verification";

/// Why a metadata account cannot be told.
#[derive(Debug, Clone, Copy, PartialEq, Eq, Structural)]
pub enum TargetFault {
    /// The seed takes more than sixteen bytes.
    SeedTooLong,
    /// No bump takes the account's address off the curve.
    NoProgramAddress,
    /// The program has no upgrade authority, and none was given.
    NoUpgradeAuthority,
}

/// The seed takes at most sixteen bytes.
pub open spec fn seed_fits(seed: Seq<char>) -> bool {
    vstd::utf8::encode_utf8(seed).len() <= 16
}

/// The sixteen bytes that stand for a seed: its text, then zeros.
pub open spec fn padded_seed(seed: Seq<char>) -> Seq<u8> {
    let text = vstd::utf8::encode_utf8(seed);
    Seq::new(16, |i: int| if i < text.len() { text[i] } else { 0 })
}

/// The sixteen bytes that stand for `seed`.
pub fn seed_from_str(seed: &str) -> (fixed: Result<[u8; 16], TargetFault>)
    ensures
        match fixed {
            Ok(bytes) => seed_fits(seed@) && bytes@ == padded_seed(seed@),
            Err(fault) => !seed_fits(seed@) && fault == TargetFault::SeedTooLong,
        },
{
    let text = seed.as_bytes();
    if text.len() > 16 {
        return Err(TargetFault::SeedTooLong);
    }
    let mut fixed: [u8; 16] = [0u8; 16];
    for i in 0..text.len()
        invariant
            text@ == vstd::utf8::encode_utf8(seed@),
            text@.len() <= 16,
            forall|j: int| 0 <= j < 16 ==> fixed@[j] == if j < i { text@[j] } else { 0 },
    {
        fixed[i] = text[i];
    }
    assert(fixed@ =~= padded_seed(seed@));
    Ok(fixed)
}

/// The seeds of a program's metadata account: the program, the authority where the account is
/// not the canonical one, and the name.
pub open spec fn pda_seeds(program: Address, authority: Option<&Address>, seed: Seq<char>) -> Seq<
    Seq<u8>,
> {
    match authority {
        Some(authority) => seq![program@, authority@, padded_seed(seed)],
        None => seq![program@, padded_seed(seed)],
    }
}

/// The address of a program's metadata account, where it has one.
pub open spec fn pda(
    program: Address,
    authority: Option<&Address>,
    seed: Seq<char>,
    metadata_program: Address,
) -> Option<Seq<u8>> {
    match crate::address::found_program_address(
        pda_seeds(program, authority, seed),
        metadata_program@,
    ) {
        Some(found) => Some(found.0),
        None => None,
    }
}

/// The address of a program's metadata account, or why it has none.
fn find_pda(
    program_id: &Address,
    authority: Option<&Address>,
    seed: &str,
    metadata_program: &Address,
) -> (found: Result<Address, TargetFault>)
    ensures
        match found {
            Ok(address) => seed_fits(seed@) && pda(*program_id, authority, seed@, *metadata_program)
                == Some(address@),
            Err(TargetFault::SeedTooLong) => !seed_fits(seed@),
            Err(fault) => {
                &&& fault == TargetFault::NoProgramAddress
                &&& seed_fits(seed@)
                &&& pda(*program_id, authority, seed@, *metadata_program) is None
            },
        },
{
    let fixed = seed_from_str(seed)?;
    let found = match authority {
        Some(authority) => {
            let seeds: [&[u8]; 3] = [&program_id.bytes, &authority.bytes, &fixed];
            assert(crate::address::seed_bytes(seeds@) =~= pda_seeds(
                *program_id,
                Some(authority),
                seed@,
            ));
            try_find_program_address(&seeds, metadata_program)
        },
        None => {
            let seeds: [&[u8]; 2] = [&program_id.bytes, &fixed];
            assert(crate::address::seed_bytes(seeds@) =~= pda_seeds(*program_id, None, seed@));
            try_find_program_address(&seeds, metadata_program)
        },
    };
    match found {
        Some(pair) => Ok(pair.0),
        None => Err(TargetFault::NoProgramAddress),
    }
}

/// The address of the metadata account that `seed` names for a program: the canonical one, or
/// the one that belongs to `authority`. `metadata_program` is the program that keeps it.
pub fn metadata_pda(
    program_id: &Address,
    authority: Option<&Address>,
    seed: &str,
    metadata_program: &Address,
) -> (address: Address)
    requires
        seed_fits(seed@),
        pda(*program_id, authority, seed@, *metadata_program) is Some,
    ensures
        pda(*program_id, authority, seed@, *metadata_program) == Some(address@),
{
    find_pda(program_id, authority, seed, metadata_program).unwrap()
}

/// The metadata accounts of one authority over a program.
#[derive(Debug, Clone, Copy, PartialEq, Eq)]
pub struct MetadataTarget {
    pub authority: Address,
    pub canonical: bool,
    pub program_data: Option<Address>,
}

impl MetadataTarget {
    /// The authority that takes part in the addresses of this target's accounts: none in those
    /// of canonical ones.
    pub open spec fn seed_authority(&self) -> Option<&Address> {
        if self.canonical {
            None
        } else {
            Some(&self.authority)
        }
    }

    /// The address of the account of this target that `seed` names.
    pub fn pda_for_seed(
        &self,
        program_id: &Address,
        seed: &str,
        metadata_program: &Address,
    ) -> (address: Address)
        requires
            seed_fits(seed@),
            pda(*program_id, self.seed_authority(), seed@, *metadata_program) is Some,
        ensures
            pda(*program_id, self.seed_authority(), seed@, *metadata_program) == Some(address@),
    {
        metadata_pda(
            program_id,
            if self.canonical { None } else { Some(&self.authority) },
            seed,
            metadata_program,
        )
    }

    /// The address of the account of this target that `seed` names, or why there is none.
    pub fn try_pda_for_seed(
        &self,
        program_id: &Address,
        seed: &str,
        metadata_program: &Address,
    ) -> (found: Result<Address, TargetFault>)
        ensures
            match found {
                Ok(address) => seed_fits(seed@) && pda(
                    *program_id,
                    self.seed_authority(),
                    seed@,
                    *metadata_program,
                ) == Some(address@),
                Err(TargetFault::SeedTooLong) => !seed_fits(seed@),
                Err(fault) => {
                    &&& fault == TargetFault::NoProgramAddress
                    &&& seed_fits(seed@)
                    &&& pda(*program_id, self.seed_authority(), seed@, *metadata_program) is None
                },
            },
    {
        let authority = if self.canonical { None } else { Some(&self.authority) };
        match find_pda(program_id, authority, seed, metadata_program) {
            Ok(_) => Ok(self.pda_for_seed(program_id, seed, metadata_program)),
            Err(fault) => Err(fault),
        }
    }
}

/// The target that a program's authority and the one that was asked for lead to: the canonical
/// one for the program's current authority, which is meant where none was asked for, and one
/// of its own for any other.
pub open spec fn selected_target(
    program_authority: ProgramAuthority,
    authority: Option<Address>,
) -> Result<MetadataTarget, TargetFault> {
    match (authority, program_authority.upgrade_authority) {
        (None, None) => Err(TargetFault::NoUpgradeAuthority),
        (None, Some(current)) => Ok(
            MetadataTarget {
                authority: current,
                canonical: true,
                program_data: program_authority.program_data,
            },
        ),
        (Some(asked), current) => if current == Some(asked) {
            Ok(
                MetadataTarget {
                    authority: asked,
                    canonical: true,
                    program_data: program_authority.program_data,
                },
            )
        } else {
            Ok(MetadataTarget { authority: asked, canonical: false, program_data: None })
        },
    }
}

/// Selects the target that a program's authority and the one that was asked for lead to.
pub fn select_metadata_target(
    program_authority: &ProgramAuthority,
    authority: Option<Address>,
) -> (selected: Result<MetadataTarget, TargetFault>)
    ensures
        selected == selected_target(*program_authority, authority),
{
    match authority {
        Some(authority) => {
            if Some(authority) == program_authority.upgrade_authority {
                Ok(
                    MetadataTarget {
                        authority,
                        canonical: true,
                        program_data: program_authority.program_data,
                    },
                )
            } else {
                Ok(MetadataTarget { authority, canonical: false, program_data: None })
            }
        },
        None => match program_authority.upgrade_authority {
            Some(authority) => Ok(
                MetadataTarget {
                    authority,
                    canonical: true,
                    program_data: program_authority.program_data,
                },
            ),
            None => Err(TargetFault::NoUpgradeAuthority),
        },
    }
}

/// A target is the canonical one exactly where its authority is the program's current one, and
/// only the canonical one knows the ProgramData account.
pub proof fn law_canonical_is_current_authority(
    program_authority: ProgramAuthority,
    authority: Option<Address>,
    target: MetadataTarget,
)
    requires
        selected_target(program_authority, authority) == Ok::<_, TargetFault>(target),
    ensures
        target.canonical <==> program_authority.upgrade_authority == Some(target.authority),
        target.canonical ==> target.program_data == program_authority.program_data,
        !target.canonical ==> target.program_data is None,
        authority is Some ==> target.authority == authority->0,
{
}

/// To ask for no authority is to ask for the program's current one.
pub proof fn law_no_authority_means_current(program_authority: ProgramAuthority)
    requires
        program_authority.upgrade_authority is Some,
    ensures
        selected_target(program_authority, None) == selected_target(
            program_authority,
            program_authority.upgrade_authority,
        ),
{
}

/// UTF-8 text holds a zero byte only where it holds the zero character.
proof fn lemma_no_zero_byte(text: Seq<char>)
    requires
        forall|i: int| 0 <= i < text.len() ==> text[i] != '\0',
    ensures
        forall|i: int|
            0 <= i < vstd::utf8::encode_utf8(text).len() ==> vstd::utf8::encode_utf8(text)[i] != 0,
    decreases text.len(),
{
    if text.len() > 0 {
        let rest = text.drop_first();
        assert forall|i: int| 0 <= i < rest.len() implies rest[i] != '\0' by {
            assert(rest[i] == text[i + 1]);
        }
        lemma_no_zero_byte(rest);
        let code = text[0] as u32;
        vstd::utf8::char_is_scalar(text[0]);
        vstd::utf8::char_u32_cast(text[0], code);
        assert(code != 0);
        assert(vstd::utf8::has_width_1_encoding(code) ==> vstd::utf8::leading_byte_width_1(code)
            != 0) by (bit_vector)
            requires
                code != 0,
        ;
        assert(vstd::utf8::leading_byte_width_2(code) != 0) by (bit_vector);
        assert(vstd::utf8::leading_byte_width_3(code) != 0) by (bit_vector);
        assert(vstd::utf8::leading_byte_width_4(code) != 0) by (bit_vector);
        assert(vstd::utf8::last_continuation_byte(code) != 0) by (bit_vector);
        assert(vstd::utf8::second_last_continuation_byte(code) != 0) by (bit_vector);
        assert(vstd::utf8::third_last_continuation_byte(code) != 0) by (bit_vector);
        let first = vstd::utf8::encode_scalar(code);
        assert(forall|i: int| 0 <= i < first.len() ==> first[i] != 0);
        let after = vstd::utf8::encode_utf8(rest);
        let all = vstd::utf8::encode_utf8(text);
        assert(all == first + after);
        assert forall|i: int| 0 <= i < all.len() implies all[i] != 0 by {
            if i >= first.len() {
                assert(all[i] == after[i - first.len()]);
            }
        }
    }
}

/// Two seeds that fit and hold no zero character stand for the same sixteen bytes only where
/// they are the same.
pub proof fn law_padded_seed_identifies_seed(left: Seq<char>, right: Seq<char>)
    requires
        seed_fits(left),
        seed_fits(right),
        forall|i: int| 0 <= i < left.len() ==> left[i] != '\0',
        forall|i: int| 0 <= i < right.len() ==> right[i] != '\0',
        padded_seed(left) == padded_seed(right),
    ensures
        left == right,
{
    let a = vstd::utf8::encode_utf8(left);
    let b = vstd::utf8::encode_utf8(right);
    lemma_no_zero_byte(left);
    lemma_no_zero_byte(right);
    let p = padded_seed(left);
    let q = padded_seed(right);
    if a.len() < b.len() {
        assert(p[a.len() as int] == 0);
        assert(q[a.len() as int] == b[a.len() as int]);
    }
    if b.len() < a.len() {
        assert(q[b.len() as int] == 0);
        assert(p[b.len() as int] == a[b.len() as int]);
    }
    assert forall|i: int| 0 <= i < a.len() implies a[i] == b[i] by {
        assert(p[i] == a[i]);
        assert(q[i] == b[i]);
    }
    assert(a =~= b);
    vstd::utf8::encode_utf8_decode_utf8(left);
    vstd::utf8::encode_utf8_decode_utf8(right);
}

/// The seeds of metadata accounts tell programs, authorities and names apart, and canonical
/// accounts from all others.
pub proof fn law_pda_seeds_identify_account(
    program: Address,
    authority: Option<&Address>,
    seed: Seq<char>,
    other_program: Address,
    other_authority: Option<&Address>,
    other_seed: Seq<char>,
)
    requires
        pda_seeds(program, authority, seed) == pda_seeds(
            other_program,
            other_authority,
            other_seed,
        ),
    ensures
        program == other_program,
        authority == other_authority,
        padded_seed(seed) == padded_seed(other_seed),
{
    let left = pda_seeds(program, authority, seed);
    let right = pda_seeds(other_program, other_authority, other_seed);
    assert(left.len() == right.len());
    assert(left[0] == right[0]);
    assert(left[1] == right[1]);
    assert(left.last() == right.last());
    crate::address::law_address_is_its_bytes(program, other_program);
    if authority is Some {
        crate::address::law_address_is_its_bytes(*authority->0, *other_authority->0);
    }
}

/// All canonical accounts of a program with one name are one account, whoever the authority is.
pub proof fn law_canonical_account_is_unique(
    left: MetadataTarget,
    right: MetadataTarget,
    program: Address,
    seed: Seq<char>,
    metadata_program: Address,
)
    requires
        left.canonical,
        right.canonical,
    ensures
        pda(program, left.seed_authority(), seed, metadata_program) == pda(
            program,
            right.seed_authority(),
            seed,
            metadata_program,
        ),
{
}

/// A target is selected in all cases but one: the authority that was asked for, or else the
/// current one, is that of the target, and only where neither is there is there no target.
pub proof fn law_selection_fails_only_without_authority(
    program_authority: ProgramAuthority,
    authority: Option<Address>,
)
    ensures
        authority is None && program_authority.upgrade_authority is None <==> selected_target(
            program_authority,
            authority,
        ) == Err::<MetadataTarget, _>(TargetFault::NoUpgradeAuthority),
        authority is Some ==> selected_target(program_authority, authority) is Ok,
        program_authority.upgrade_authority is Some ==> selected_target(
            program_authority,
            authority,
        ) is Ok,
        selected_target(program_authority, authority) matches Ok(target) ==> {
            &&& authority is Some ==> target.authority == authority->0
            &&& authority is None ==> Some(target.authority) == program_authority.upgrade_authority
            &&& target.canonical == (program_authority.upgrade_authority == Some(target.authority))
            &&& target.program_data == if target.canonical {
                program_authority.program_data
            } else {
                None
            }
        },
{
}

/// A seed fits up to sixteen bytes, and then its bytes come first and zeros fill the rest.
pub proof fn law_padded_seed_is_text_and_zeros(seed: Seq<char>)
    ensures
        seed_fits(seed) <==> vstd::utf8::encode_utf8(seed).len() <= 16,
        padded_seed(seed).len() == 16,
        seed_fits(seed) ==> padded_seed(seed) == vstd::utf8::encode_utf8(seed) + Seq::new(
            (16 - vstd::utf8::encode_utf8(seed).len()) as nat,
            |i: int| 0u8,
        ),
{
    if seed_fits(seed) {
        assert(padded_seed(seed) =~= vstd::utf8::encode_utf8(seed) + Seq::new(
            (16 - vstd::utf8::encode_utf8(seed).len()) as nat,
            |i: int| 0u8,
        ));
    }
}

/// Where a target's account lies: the metadata program derives the address from the program,
/// the target's authority unless it is canonical, and the seed, in this order. There is an
/// address exactly where that program derives one.
pub proof fn law_account_address_is_derived_from_seeds(
    target: MetadataTarget,
    program: Address,
    seed: Seq<char>,
    metadata_program: Address,
)
    ensures
        ({
            let seeds = if target.canonical {
                seq![program@, padded_seed(seed)]
            } else {
                seq![program@, target.authority@, padded_seed(seed)]
            };
            let found = crate::address::found_program_address(seeds, metadata_program@);
            let address = pda(program, target.seed_authority(), seed, metadata_program);
            &&& address is Some <==> found is Some
            &&& found matches Some(pair) ==> address == Some(pair.0)
        }),
{
}

} // verus!
