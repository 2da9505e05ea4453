//! Who may upgrade a program.
//!
//! The answer lies in one account, or in two where the upgradeable loader owns the program.
//! Accounts are fetched elsewhere: [`get_program_authority`] looks at the program account and
//! either answers or names the account to fetch next, and [`program_data_authority`] looks at
//! that one.
use vstd::prelude::*;
use solana_loader_v3_interface::state::UpgradeableLoaderState;
use crate::address::{
    deprecated_loader_id, loader_id, try_find_program_address, upgradeable_loader_id, Address,
};
use crate::bytes::copy_range;

verus! {

/// How many bytes the state of a program account takes.
pub const PROGRAM_STATE_LENGTH: usize = 36;

/// How many bytes the state at the head of a ProgramData account takes.
pub const PROGRAM_DATA_STATE_LENGTH: usize = 45;

/// An account as it stands on chain.
#[derive(Debug, Clone)]
pub struct Account {
    pub lamports: u64,
    pub owner: Address,
    pub executable: bool,
    pub data: Vec<u8>,
}

/// What an account of the upgradeable loader holds.
#[derive(Debug, Clone, Copy)]
pub enum LoaderState {
    Uninitialized,
    Buffer { authority_address: Option<Address> },
    Program { programdata_address: Address },
    ProgramData { slot: u64, upgrade_authority_address: Option<Address> },
}

/// The optional address at `at`: a byte that is one where an address follows and zero where
/// none does. `None` where the bytes are neither.
pub open spec fn optional_address_at(data: Seq<u8>, at: int) -> Option<Option<Address>> {
    if at < data.len() && data[at] == 0 {
        Some(None)
    } else if at + 33 <= data.len() && data[at] == 1 {
        Some(Some(crate::address::address_at(data, at + 1)))
    } else {
        None
    }
}

/// The loader state that `data` starts with: a four-byte tag, then the fields of the variant
/// in order. `None` where it starts with no such state.
pub open spec fn loader_state(data: Seq<u8>) -> Option<LoaderState> {
    if data.len() < 4 {
        None
    } else if crate::bytes::le_u32(data, 0) == 0 {
        Some(LoaderState::Uninitialized)
    } else if crate::bytes::le_u32(data, 0) == 1 {
        match optional_address_at(data, 4) {
            Some(authority_address) => Some(LoaderState::Buffer { authority_address }),
            None => None,
        }
    } else if crate::bytes::le_u32(data, 0) == 2 && data.len() >= 36 {
        Some(LoaderState::Program { programdata_address: crate::address::address_at(data, 4) })
    } else if crate::bytes::le_u32(data, 0) == 3 && data.len() >= 12 {
        match optional_address_at(data, 12) {
            Some(upgrade_authority_address) => Some(
                LoaderState::ProgramData {
                    slot: crate::bytes::le_u64(data, 4) as u64,
                    upgrade_authority_address,
                },
            ),
            None => None,
        }
    } else {
        None
    }
}

/// What bincode reports of bytes that hold no value of the wanted type.
#[verifier::external_type_specification]
#[verifier::external_body]
pub struct ExBincodeErrorKind(bincode::ErrorKind);

/// Calls `bincode::deserialize` for an `UpgradeableLoaderState` of the loader interface crate.
/// Bincode's default configuration writes a variant as its index in four bytes, integers with
/// their least significant byte first, an option as a byte and the value, and ignores what
/// follows the value: the state read is [`loader_state`] of the bytes.
#[verifier::external_body]
fn decode_loader_state(data: &[u8]) -> (state: Result<LoaderState, bincode::Error>)
    ensures
        state is Ok <==> loader_state(data@) is Some,
        state matches Ok(s) ==> loader_state(data@) == Some(s),
{
    let address = |key: solana_address::Address| Address { bytes: key.to_bytes() };
    Ok(match bincode::deserialize(data)? {
        UpgradeableLoaderState::Uninitialized => LoaderState::Uninitialized,
        UpgradeableLoaderState::Buffer { authority_address } =>
            LoaderState::Buffer { authority_address: authority_address.map(address) },
        UpgradeableLoaderState::Program { programdata_address } =>
            LoaderState::Program { programdata_address: address(programdata_address) },
        UpgradeableLoaderState::ProgramData { slot, upgrade_authority_address } =>
            LoaderState::ProgramData {
                slot,
                upgrade_authority_address: upgrade_authority_address.map(address),
            },
    })
}

/// The current authority over a program, and its ProgramData account where it has one.
#[derive(Debug, Clone, Copy)]
pub struct ProgramAuthority {
    pub upgrade_authority: Option<Address>,
    pub program_data: Option<Address>,
}

/// What a program account leads to.
#[derive(Debug, Clone, Copy)]
pub enum AuthorityStep {
    /// The authority is known.
    Known(ProgramAuthority),
    /// The authority is in the ProgramData account at this address.
    InProgramData(Address),
}

/// Why the authority over a program cannot be told.
#[derive(Debug)]
pub enum AuthorityError {
    NotExecutable,
    ProgramTooSmall,
    ProgramUndecodable(bincode::Error),
    ProgramStateInvalid,
    /// No bump takes the ProgramData address off the curve.
    NoProgramDataAddress,
    ProgramDataMismatch,
    ProgramDataTooSmall,
    ProgramDataUndecodable(bincode::Error),
    ProgramDataStateInvalid,
    UnsupportedLoader,
}

/// The kinds of [`AuthorityError`].
pub enum AuthorityFault {
    NotExecutable,
    ProgramTooSmall,
    ProgramUndecodable,
    ProgramStateInvalid,
    NoProgramDataAddress,
    ProgramDataMismatch,
    ProgramDataTooSmall,
    ProgramDataUndecodable,
    ProgramDataStateInvalid,
    UnsupportedLoader,
}

impl AuthorityError {
    /// The kind of this error.
    pub open spec fn fault(self) -> AuthorityFault {
        match self {
            AuthorityError::NotExecutable => AuthorityFault::NotExecutable,
            AuthorityError::ProgramTooSmall => AuthorityFault::ProgramTooSmall,
            AuthorityError::ProgramUndecodable(_) => AuthorityFault::ProgramUndecodable,
            AuthorityError::ProgramStateInvalid => AuthorityFault::ProgramStateInvalid,
            AuthorityError::NoProgramDataAddress => AuthorityFault::NoProgramDataAddress,
            AuthorityError::ProgramDataMismatch => AuthorityFault::ProgramDataMismatch,
            AuthorityError::ProgramDataTooSmall => AuthorityFault::ProgramDataTooSmall,
            AuthorityError::ProgramDataUndecodable(_) => AuthorityFault::ProgramDataUndecodable,
            AuthorityError::ProgramDataStateInvalid => AuthorityFault::ProgramDataStateInvalid,
            AuthorityError::UnsupportedLoader => AuthorityFault::UnsupportedLoader,
        }
    }
}

/// The address that the upgradeable loader derives for the ProgramData account of `program`.
pub open spec fn derived_program_data(program: Address) -> Option<Seq<u8>> {
    match crate::address::found_program_address(
        seq![program@],
        crate::address::upgradeable_loader(),
    ) {
        Some(found) => Some(found.0),
        None => None,
    }
}

/// Where the account of `program` leads: its owner tells the loader, and the upgradeable
/// loader keeps there the address of the ProgramData account, which must be the derived one.
pub open spec fn program_account_verdict(program: Address, account: Account) -> Result<
    AuthorityStep,
    AuthorityFault,
> {
    if !account.executable {
        Err(AuthorityFault::NotExecutable)
    } else if account.owner@ == crate::address::upgradeable_loader() {
        if account.data@.len() < PROGRAM_STATE_LENGTH {
            Err(AuthorityFault::ProgramTooSmall)
        } else {
            match loader_state(account.data@.subrange(0, PROGRAM_STATE_LENGTH as int)) {
                None => Err(AuthorityFault::ProgramUndecodable),
                Some(LoaderState::Program { programdata_address }) => match derived_program_data(
                    program,
                ) {
                    None => Err(AuthorityFault::NoProgramDataAddress),
                    Some(derived) => if programdata_address@ == derived {
                        Ok(AuthorityStep::InProgramData(programdata_address))
                    } else {
                        Err(AuthorityFault::ProgramDataMismatch)
                    },
                },
                Some(_) => Err(AuthorityFault::ProgramStateInvalid),
            }
        }
    } else if account.owner@ == crate::address::loader() || account.owner@
        == crate::address::deprecated_loader() {
        Ok(
            AuthorityStep::Known(
                ProgramAuthority { upgrade_authority: Some(program), program_data: None },
            ),
        )
    } else {
        Err(AuthorityFault::UnsupportedLoader)
    }
}

/// The authority that the ProgramData account at `address` names, if any.
pub open spec fn program_data_verdict(address: Address, data: Seq<u8>) -> Result<
    ProgramAuthority,
    AuthorityFault,
> {
    if data.len() < PROGRAM_DATA_STATE_LENGTH {
        Err(AuthorityFault::ProgramDataTooSmall)
    } else {
        match loader_state(data.subrange(0, PROGRAM_DATA_STATE_LENGTH as int)) {
            None => Err(AuthorityFault::ProgramDataUndecodable),
            Some(LoaderState::ProgramData { upgrade_authority_address, .. }) => Ok(
                ProgramAuthority {
                    upgrade_authority: upgrade_authority_address,
                    program_data: Some(address),
                },
            ),
            Some(_) => Err(AuthorityFault::ProgramDataStateInvalid),
        }
    }
}

/// Calls `solana_loader_v3_interface::get_program_data_address`: the address that the
/// upgradeable loader derives from the program's address as the only seed. It panics where no
/// bump takes that address off the curve.
#[verifier::external_body]
fn get_program_data_address(program: &Address) -> (address: Address)
    requires
        derived_program_data(*program) is Some,
    ensures
        derived_program_data(*program) == Some(address@),
{
    let program_id = solana_address::Address::new_from_array(program.bytes);
    Address {
        bytes: solana_loader_v3_interface::get_program_data_address(&program_id).to_bytes(),
    }
}

/// Takes the account of `program_id` and tells the authority over the program, or the
/// ProgramData account that holds it.
pub fn get_program_authority(program_id: &Address, program_account: &Account) -> (step: Result<
    AuthorityStep,
    AuthorityError,
>)
    ensures
        match step {
            Ok(s) => program_account_verdict(*program_id, *program_account) == Ok::<_, AuthorityFault>(s),
            Err(e) => program_account_verdict(*program_id, *program_account) == Err::<AuthorityStep, _>(e.fault()),
        },
{
    if !program_account.executable {
        return Err(AuthorityError::NotExecutable);
    }
    let loader = upgradeable_loader_id();
    let second_loader = loader_id();
    let first_loader = deprecated_loader_id();
    proof {
        crate::address::law_address_is_its_bytes(program_account.owner, loader);
        crate::address::law_address_is_its_bytes(program_account.owner, second_loader);
        crate::address::law_address_is_its_bytes(program_account.owner, first_loader);
    }
    if program_account.owner == loader {
        if program_account.data.len() < PROGRAM_STATE_LENGTH {
            return Err(AuthorityError::ProgramTooSmall);
        }
        let state = copy_range(&program_account.data, 0, PROGRAM_STATE_LENGTH);
        let programdata_address = match decode_loader_state(&state) {
            Ok(LoaderState::Program { programdata_address }) => programdata_address,
            Ok(_) => return Err(AuthorityError::ProgramStateInvalid),
            Err(error) => return Err(AuthorityError::ProgramUndecodable(error)),
        };
        let seeds: [&[u8]; 1] = [&program_id.bytes];
        assert(crate::address::seed_bytes(seeds@) =~= seq![program_id@]);
        if try_find_program_address(&seeds, &loader).is_none() {
            return Err(AuthorityError::NoProgramDataAddress);
        }
        let derived = get_program_data_address(program_id);
        proof {
            crate::address::law_address_is_its_bytes(programdata_address, derived);
        }
        if programdata_address == derived {
            Ok(AuthorityStep::InProgramData(programdata_address))
        } else {
            Err(AuthorityError::ProgramDataMismatch)
        }
    } else if program_account.owner == second_loader || program_account.owner == first_loader {
        Ok(
            AuthorityStep::Known(
                ProgramAuthority { upgrade_authority: Some(*program_id), program_data: None },
            ),
        )
    } else {
        Err(AuthorityError::UnsupportedLoader)
    }
}

/// Takes the data of the ProgramData account at `address` and tells the authority it names.
pub fn program_data_authority(address: &Address, data: &[u8]) -> (authority: Result<
    ProgramAuthority,
    AuthorityError,
>)
    ensures
        match authority {
            Ok(a) => program_data_verdict(*address, data@) == Ok::<_, AuthorityFault>(a),
            Err(e) => program_data_verdict(*address, data@) == Err::<ProgramAuthority, _>(e.fault()),
        },
{
    if data.len() < PROGRAM_DATA_STATE_LENGTH {
        return Err(AuthorityError::ProgramDataTooSmall);
    }
    let state = copy_range(data, 0, PROGRAM_DATA_STATE_LENGTH);
    match decode_loader_state(&state) {
        Ok(LoaderState::ProgramData { slot: _, upgrade_authority_address }) => Ok(
            ProgramAuthority {
                upgrade_authority: upgrade_authority_address,
                program_data: Some(*address),
            },
        ),
        Ok(_) => Err(AuthorityError::ProgramDataStateInvalid),
        Err(error) => Err(AuthorityError::ProgramDataUndecodable(error)),
    }
}

/// A program of the upgradeable loader is asked about in the ProgramData account that the
/// loader derives for it, and in no other; any answer names that account.
pub proof fn law_upgradeable_authority_is_in_derived_account(
    program: Address,
    account: Account,
    address: Address,
    data: Seq<u8>,
)
    requires
        program_account_verdict(program, account) == Ok::<_, AuthorityFault>(
            AuthorityStep::InProgramData(address),
        ),
    ensures
        account.executable,
        account.owner@ == crate::address::upgradeable_loader(),
        derived_program_data(program) == Some(address@),
        program_data_verdict(address, data) matches Ok(authority) ==> authority.program_data
            == Some(address),
{
}

/// A program that cannot be upgraded is its own authority, and has no ProgramData account.
pub proof fn law_fixed_program_is_its_own_authority(
    program: Address,
    account: Account,
    authority: ProgramAuthority,
)
    requires
        program_account_verdict(program, account) == Ok::<_, AuthorityFault>(
            AuthorityStep::Known(authority),
        ),
    ensures
        account.executable,
        account.owner@ == crate::address::loader() || account.owner@
            == crate::address::deprecated_loader(),
        authority.upgrade_authority == Some(program),
        authority.program_data is None,
{
}

/// What the loader wrote to a ProgramData account is what is read: the bytes of a tag of three,
/// a slot, and an authority or none, give that authority, whatever follows them.
pub proof fn law_program_data_reads_back(
    address: Address,
    slot: u64,
    authority: Option<Address>,
    rest: Seq<u8>,
)
    requires
        authority is None ==> rest.len() >= 32,
    ensures
        ({
            let state = seq![3u8, 0, 0, 0] + crate::bytes::le_u64_bytes(slot);
            let data = match authority {
                Some(a) => state + seq![1u8] + a@ + rest,
                None => state + seq![0u8] + rest,
            };
            program_data_verdict(address, data) == Ok::<_, AuthorityFault>(
                ProgramAuthority { upgrade_authority: authority, program_data: Some(address) },
            )
        }),
{
    let state = seq![3u8, 0, 0, 0] + crate::bytes::le_u64_bytes(slot);
    let data = match authority {
        Some(a) => state + seq![1u8] + a@ + rest,
        None => state + seq![0u8] + rest,
    };
    let head = data.subrange(0, PROGRAM_DATA_STATE_LENGTH as int);
    crate::bytes::law_le_u64_reads_back(slot);
    assert(crate::bytes::le_u32(head, 0) == 3);
    if authority is Some {
        crate::address::law_address_at_is_subrange(head, 13);
        assert(head.subrange(13, 45) =~= authority->0@);
        crate::address::law_address_is_its_bytes(
            crate::address::address_at(head, 13),
            authority->0,
        );
    }
}

/// What the loader wrote to a program account is what is read: the bytes of a tag of two and
/// the address of the ProgramData account lead to that account, whatever follows them, where it
/// is the one that the loader derives from the program. Any other address is a mismatch.
pub proof fn law_program_account_reads_back(
    program: Address,
    account: Account,
    address: Address,
    rest: Seq<u8>,
    derived: (Seq<u8>, u8),
)
    requires
        account.executable,
        account.owner@ == crate::address::upgradeable_loader(),
        account.data@ == seq![2u8, 0, 0, 0] + address@ + rest,
        crate::address::found_program_address(
            seq![program@],
            crate::address::upgradeable_loader(),
        ) == Some(derived),
    ensures
        address@ == derived.0 ==> program_account_verdict(program, account) == Ok::<
            _,
            AuthorityFault,
        >(AuthorityStep::InProgramData(address)),
        address@ != derived.0 ==> program_account_verdict(program, account) == Err::<
            AuthorityStep,
            _,
        >(AuthorityFault::ProgramDataMismatch),
{
    let head = account.data@.subrange(0, PROGRAM_STATE_LENGTH as int);
    assert(crate::bytes::le_u32(head, 0) == 2);
    crate::address::law_address_at_is_subrange(head, 4);
    assert(head.subrange(4, 36) =~= address@);
    crate::address::law_address_is_its_bytes(crate::address::address_at(head, 4), address);
}

/// An account that is not executable is no program, whoever owns it and whatever it holds.
pub proof fn law_program_must_be_executable(program: Address, account: Account)
    requires
        !account.executable,
    ensures
        program_account_verdict(program, account) == Err::<AuthorityStep, _>(
            AuthorityFault::NotExecutable,
        ),
{
}

/// A program of one of the first two loaders is its own authority whatever its account holds,
/// and a program of a loader other than the three is not supported.
pub proof fn law_owner_tells_loader(program: Address, account: Account)
    requires
        account.executable,
        account.owner@ != crate::address::upgradeable_loader(),
    ensures
        account.owner@ == crate::address::loader() || account.owner@
            == crate::address::deprecated_loader() ==> program_account_verdict(program, account)
            == Ok::<_, AuthorityFault>(
            AuthorityStep::Known(
                ProgramAuthority { upgrade_authority: Some(program), program_data: None },
            ),
        ),
        account.owner@ != crate::address::loader() && account.owner@
            != crate::address::deprecated_loader() ==> program_account_verdict(program, account)
            == Err::<AuthorityStep, _>(AuthorityFault::UnsupportedLoader),
{
}

/// A program account of the upgradeable loader is too small exactly where it holds fewer than
/// 36 bytes. In a larger one the tag, its first four bytes, tells the rest: a tag of zero is a
/// state of another kind, and so is a tag of one or three where its option is one; any other
/// tag but two is no state.
pub proof fn law_program_account_is_told_by_length_and_tag(program: Address, account: Account)
    requires
        account.executable,
        account.owner@ == crate::address::upgradeable_loader(),
    ensures
        account.data@.len() < 36 <==> program_account_verdict(program, account) == Err::<
            AuthorityStep,
            _,
        >(AuthorityFault::ProgramTooSmall),
        account.data@.len() >= 36 ==> {
            let tag = crate::bytes::le_u32(account.data@, 0);
            let verdict = program_account_verdict(program, account);
            let invalid = Err::<AuthorityStep, _>(AuthorityFault::ProgramStateInvalid);
            let undecodable = Err::<AuthorityStep, _>(AuthorityFault::ProgramUndecodable);
            &&& tag == 0 ==> verdict == invalid
            &&& tag == 1 && account.data@[4] == 0 ==> verdict == invalid
            &&& tag == 1 && account.data@[4] != 0 ==> verdict == undecodable
            &&& tag == 2 ==> verdict != invalid && verdict != undecodable
            &&& tag == 3 && account.data@[12] == 0 ==> verdict == invalid
            &&& tag == 3 && account.data@[12] != 0 ==> verdict == undecodable
            &&& tag > 3 ==> verdict == undecodable
        },
{
    if account.data@.len() >= 36 {
        let head = account.data@.subrange(0, PROGRAM_STATE_LENGTH as int);
        assert(crate::bytes::le_u32(head, 0) == crate::bytes::le_u32(account.data@, 0));
        assert(head[4] == account.data@[4]);
        assert(head[12] == account.data@[12]);
    }
}

/// A ProgramData account is too small exactly where it holds fewer than 45 bytes. In a larger
/// one the tag tells the rest: only a tag of three names an authority or none, by a byte of one
/// or zero after the slot.
pub proof fn law_program_data_is_told_by_length_and_tag(address: Address, data: Seq<u8>)
    ensures
        data.len() < 45 <==> program_data_verdict(address, data) == Err::<ProgramAuthority, _>(
            AuthorityFault::ProgramDataTooSmall,
        ),
        data.len() >= 45 ==> {
            let tag = crate::bytes::le_u32(data, 0);
            let verdict = program_data_verdict(address, data);
            let invalid = Err::<ProgramAuthority, _>(AuthorityFault::ProgramDataStateInvalid);
            let undecodable = Err::<ProgramAuthority, _>(AuthorityFault::ProgramDataUndecodable);
            &&& tag == 0 || tag == 2 ==> verdict == invalid
            &&& tag == 1 && data[4] <= 1 ==> verdict == invalid
            &&& tag == 1 && data[4] > 1 ==> verdict == undecodable
            &&& tag == 3 && data[12] > 1 ==> verdict == undecodable
            &&& tag == 3 && data[12] <= 1 ==> {
                &&& verdict matches Ok(authority)
                &&& authority.program_data == Some(address)
                &&& data[12] == 0 ==> authority.upgrade_authority is None
                &&& data[12] == 1 ==> authority.upgrade_authority is Some
                    && authority.upgrade_authority->0@ == data.subrange(13, 45)
            }
            &&& tag > 3 ==> verdict == undecodable
        },
{
    if data.len() >= 45 {
        let head = data.subrange(0, PROGRAM_DATA_STATE_LENGTH as int);
        assert(crate::bytes::le_u32(head, 0) == crate::bytes::le_u32(data, 0));
        assert(head[4] == data[4]);
        assert(head[12] == data[12]);
        crate::address::law_address_at_is_subrange(head, 13);
        assert(head.subrange(13, 45) =~= data.subrange(13, 45));
    }
}

} // verus!
