use idl_verification::account::{
    query_metadata_account, AccountFault, Compression, DataSource, Encoding, Format, Metadata,
    MetadataQuery,
};
use idl_verification::address::{read_address, Address};
use idl_verification::authority::{
    get_program_authority, program_data_authority, Account, AuthorityError, AuthorityStep,
    ProgramAuthority, PROGRAM_DATA_STATE_LENGTH, PROGRAM_STATE_LENGTH,
};
use idl_verification::target::{
    metadata_pda, seed_from_str, select_metadata_target, MetadataTarget, TargetFault, IDL_SEED,
    IDL_VERIFICATION_SEED,
};
use solana_loader_v3_interface::state::UpgradeableLoaderState;
use std::str::FromStr;

fn address(text: &str) -> Address {
    Address { bytes: solana_address::Address::from_str(text).unwrap().to_bytes() }
}

fn outside(address: &Address) -> solana_address::Address {
    solana_address::Address::new_from_array(address.bytes)
}

fn inside(address: solana_address::Address) -> Address {
    Address { bytes: address.to_bytes() }
}

fn filled(byte: u8) -> Address {
    Address { bytes: [byte; 32] }
}

#[test]
fn derives_canonical_and_non_canonical_metadata_pdas() {
    let metadata_program = filled(9);
    let program = address("11111111111111111111111111111111");
    let authority = address("Sysvar1111111111111111111111111111111111111");
    let canonical = metadata_pda(&program, None, IDL_SEED, &metadata_program);
    let non_canonical = metadata_pda(&program, Some(&authority), IDL_SEED, &metadata_program);
    assert_ne!(canonical, non_canonical);
}

#[test]
fn metadata_addresses_are_derived_from_program_authority_and_seed() {
    let metadata_program = filled(9);
    let program = filled(1);
    let authority = filled(2);
    let seed = b"idl\0\0\0\0\0\0\0\0\0\0\0\0\0";
    let canonical = solana_address::Address::find_program_address(
        &[&program.bytes, seed],
        &outside(&metadata_program),
    );
    let own = solana_address::Address::find_program_address(
        &[&program.bytes, &authority.bytes, seed],
        &outside(&metadata_program),
    );
    assert_eq!(metadata_pda(&program, None, "idl", &metadata_program), inside(canonical.0));
    assert_eq!(metadata_pda(&program, Some(&authority), "idl", &metadata_program), inside(own.0));

    let mut target = MetadataTarget { authority, canonical: true, program_data: None };
    assert_eq!(target.pda_for_seed(&program, "idl", &metadata_program), inside(canonical.0));
    target.canonical = false;
    assert_eq!(target.try_pda_for_seed(&program, "idl", &metadata_program), Ok(inside(own.0)));
    assert_eq!(
        target.try_pda_for_seed(&program, "seventeen letters", &metadata_program),
        Err(TargetFault::SeedTooLong)
    );
}

#[test]
fn canonical_address_does_not_depend_on_authority() {
    let left = MetadataTarget { authority: filled(1), canonical: true, program_data: None };
    let right = MetadataTarget { authority: filled(2), canonical: true, program_data: None };
    let of = |target: &MetadataTarget| target.pda_for_seed(&filled(3), IDL_SEED, &filled(9));
    assert_eq!(of(&left), of(&right));
}

#[test]
fn seeds_are_padded_to_sixteen_bytes() {
    assert_eq!(seed_from_str("idl"), Ok(*b"idl\0\0\0\0\0\0\0\0\0\0\0\0\0"));
    assert_eq!(seed_from_str(""), Ok([0; 16]));
    assert_eq!(seed_from_str(IDL_VERIFICATION_SEED), Ok(*b"idl-verification"));
    assert_eq!(seed_from_str("idl-verification!"), Err(TargetFault::SeedTooLong));
    assert_eq!(seed_from_str("\u{e9}\u{e9}\u{e9}\u{e9}\u{e9}\u{e9}\u{e9}\u{e9}").unwrap()[14], 0xc3);
    assert!(seed_from_str("\u{e9}\u{e9}\u{e9}\u{e9}\u{e9}\u{e9}\u{e9}\u{e9}a").is_err());
    assert_ne!(seed_from_str(IDL_SEED), seed_from_str(IDL_VERIFICATION_SEED));
}

#[test]
fn target_follows_the_current_authority() {
    let known = ProgramAuthority {
        upgrade_authority: Some(filled(1)),
        program_data: Some(filled(5)),
    };
    let canonical = MetadataTarget {
        authority: filled(1),
        canonical: true,
        program_data: Some(filled(5)),
    };
    assert_eq!(select_metadata_target(&known, None), Ok(canonical));
    assert_eq!(select_metadata_target(&known, Some(filled(1))), Ok(canonical));
    let other = MetadataTarget { authority: filled(2), canonical: false, program_data: None };
    assert_eq!(select_metadata_target(&known, Some(filled(2))), Ok(other));

    let frozen = ProgramAuthority { upgrade_authority: None, program_data: Some(filled(5)) };
    assert_eq!(select_metadata_target(&frozen, None), Err(TargetFault::NoUpgradeAuthority));
    assert_eq!(select_metadata_target(&frozen, Some(filled(2))), Ok(other));
}

fn program_account(owner: Address, data: Vec<u8>) -> Account {
    Account { lamports: 1, owner, executable: true, data }
}

fn encoded(state: &UpgradeableLoaderState) -> Vec<u8> {
    bincode::serialize(state).unwrap()
}

#[test]
fn state_lengths_are_those_of_the_loader() {
    assert_eq!(PROGRAM_STATE_LENGTH, UpgradeableLoaderState::size_of_program());
    assert_eq!(
        PROGRAM_DATA_STATE_LENGTH,
        UpgradeableLoaderState::size_of_programdata_metadata()
    );
}

#[test]
fn upgradeable_program_leads_to_program_data() {
    let program = filled(7);
    let loader = inside(solana_sdk_ids::bpf_loader_upgradeable::id());
    let derived = solana_loader_v3_interface::get_program_data_address(&outside(&program));
    let mut data = encoded(&UpgradeableLoaderState::Program { programdata_address: derived });
    data.extend_from_slice(&[1, 2, 3]);
    let step = get_program_authority(&program, &program_account(loader, data)).unwrap();
    assert!(matches!(step, AuthorityStep::InProgramData(a) if a == inside(derived)));
}

#[test]
fn fixed_programs_are_their_own_authority() {
    let program = filled(7);
    for loader in [solana_sdk_ids::bpf_loader::id(), solana_sdk_ids::bpf_loader_deprecated::id()] {
        let account = program_account(inside(loader), vec![]);
        match get_program_authority(&program, &account).unwrap() {
            AuthorityStep::Known(authority) => {
                assert_eq!(authority.upgrade_authority, Some(program));
                assert_eq!(authority.program_data, None);
            }
            AuthorityStep::InProgramData(_) => panic!("no ProgramData account"),
        }
    }
}

#[test]
fn each_program_account_error_has_its_input() {
    let program = filled(7);
    let loader = inside(solana_sdk_ids::bpf_loader_upgradeable::id());
    let derived = solana_loader_v3_interface::get_program_data_address(&outside(&program));
    let good = encoded(&UpgradeableLoaderState::Program { programdata_address: derived });

    let mut account = program_account(loader, good.clone());
    account.executable = false;
    assert!(matches!(
        get_program_authority(&program, &account),
        Err(AuthorityError::NotExecutable)
    ));
    assert!(matches!(
        get_program_authority(&program, &program_account(loader, good[..35].to_vec())),
        Err(AuthorityError::ProgramTooSmall)
    ));
    assert!(matches!(
        get_program_authority(&program, &program_account(loader, vec![4; 36])),
        Err(AuthorityError::ProgramUndecodable(_))
    ));
    let mut buffer = encoded(&UpgradeableLoaderState::Buffer { authority_address: None });
    buffer.resize(36, 0);
    assert!(matches!(
        get_program_authority(&program, &program_account(loader, buffer)),
        Err(AuthorityError::ProgramStateInvalid)
    ));
    assert!(matches!(
        get_program_authority(&program, &program_account(loader, vec![0; 36])),
        Err(AuthorityError::ProgramStateInvalid)
    ));
    assert!(matches!(
        get_program_authority(&filled(8), &program_account(loader, good)),
        Err(AuthorityError::ProgramDataMismatch)
    ));
    assert!(matches!(
        get_program_authority(&program, &program_account(filled(3), vec![])),
        Err(AuthorityError::UnsupportedLoader)
    ));
}

#[test]
fn program_data_names_the_authority() {
    let at = filled(6);
    for authority in [None, Some(filled(4))] {
        let mut data = encoded(&UpgradeableLoaderState::ProgramData {
            slot: 0x0102_0304_0506_0708,
            upgrade_authority_address: authority.map(|a| outside(&a)),
        });
        let least = data.clone();
        data.resize(45 + 10, 0xff);
        let read = program_data_authority(&at, &data).unwrap();
        assert_eq!(read.upgrade_authority, authority);
        assert_eq!(read.program_data, Some(at));
        if authority.is_some() {
            assert_eq!(least.len(), PROGRAM_DATA_STATE_LENGTH);
            let read = program_data_authority(&at, &least).unwrap();
            assert_eq!(read.upgrade_authority, authority);
        }
    }
}

#[test]
fn each_program_data_error_has_its_input() {
    let at = filled(6);
    assert!(matches!(
        program_data_authority(&at, &[3; 44]),
        Err(AuthorityError::ProgramDataTooSmall)
    ));
    let mut bad_option = vec![3, 0, 0, 0, 0, 0, 0, 0, 0, 0, 0, 0, 2];
    bad_option.resize(45, 0);
    assert!(matches!(
        program_data_authority(&at, &bad_option),
        Err(AuthorityError::ProgramDataUndecodable(_))
    ));
    assert!(matches!(
        program_data_authority(&at, &[0; 45]),
        Err(AuthorityError::ProgramDataStateInvalid)
    ));
    let mut program = encoded(&UpgradeableLoaderState::Program {
        programdata_address: outside(&filled(1)),
    });
    program.resize(45, 0);
    assert!(matches!(
        program_data_authority(&at, &program),
        Err(AuthorityError::ProgramDataStateInvalid)
    ));
    let mut buffer = encoded(&UpgradeableLoaderState::Buffer {
        authority_address: Some(outside(&filled(1))),
    });
    buffer.resize(45, 0);
    assert!(matches!(
        program_data_authority(&at, &buffer),
        Err(AuthorityError::ProgramDataStateInvalid)
    ));
}

#[test]
fn addresses_are_read_where_they_lie() {
    let mut data = vec![0; 3];
    data.extend(1..=32u8);
    data.push(99);
    let read = read_address(&data, 3);
    assert_eq!(read.bytes[0], 1);
    assert_eq!(read.bytes[31], 32);
    assert!(read != filled(1));
}

fn metadata(canonical: bool, authority: Address) -> Metadata {
    Metadata {
        program: filled(1),
        authority,
        mutable: true,
        canonical,
        seed: *b"idl\0\0\0\0\0\0\0\0\0\0\0\0\0",
        encoding: Encoding::Utf8,
        compression: Compression::Uncompressed,
        format: Format::Json,
        data_source: DataSource::Direct,
        data_length: 0,
        data: vec![0; 5],
    }
}

fn query(canonical: bool) -> MetadataQuery {
    let target = MetadataTarget { authority: filled(2), canonical, program_data: None };
    query_metadata_account(&filled(1), &target, "idl", &filled(9)).unwrap()
}

#[test]
fn query_names_the_account_to_fetch() {
    let target = MetadataTarget { authority: filled(2), canonical: true, program_data: None };
    assert_eq!(query(true).address, target.pda_for_seed(&filled(1), "idl", &filled(9)));
    assert!(matches!(
        query_metadata_account(&filled(1), &target, "much too long a seed", &filled(9)),
        Err(TargetFault::SeedTooLong)
    ));
}

#[test]
fn matching_accounts_are_handed_on() {
    let asked = query(true);
    let found = asked.match_account(&filled(9), Some(metadata(true, filled(0)))).unwrap();
    assert_eq!(found.address, asked.address);
    assert_eq!(found.metadata.program, filled(1));
    let asked = query(false);
    let found = asked.match_account(&filled(9), Some(metadata(false, filled(2)))).unwrap();
    assert_eq!(found.address, asked.address);
    assert_eq!(found.metadata.authority, filled(2));
}

#[test]
fn each_account_fault_has_its_input() {
    let asked = query(true);
    let fault = |owner: u8, decoded: Option<Metadata>| {
        asked.match_account(&filled(owner), decoded).unwrap_err()
    };
    let good = metadata(true, filled(0));
    assert_eq!(fault(8, Some(good.clone())), AccountFault::NotOwned);
    assert_eq!(fault(9, None), AccountFault::Undecodable);
    let mut other = good.clone();
    other.program = filled(3);
    assert_eq!(fault(9, Some(other)), AccountFault::WrongProgram);
    let mut other = good.clone();
    other.seed[3] = b'2';
    assert_eq!(fault(9, Some(other)), AccountFault::WrongSeed);
    assert_eq!(fault(9, Some(metadata(false, filled(0)))), AccountFault::WrongCanonicalFlag);
    assert_eq!(fault(9, Some(metadata(true, filled(2)))), AccountFault::UnexpectedAuthority);
    let asked = query(false);
    assert_eq!(
        asked.match_account(&filled(9), Some(metadata(false, filled(3)))).unwrap_err(),
        AccountFault::WrongAuthority
    );
}
