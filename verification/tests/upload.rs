use idl_verification::account::{Compression, DataSource, Encoding, Format, Metadata};
use idl_verification::address::Address;
use idl_verification::content::{resolve_metadata_content_bytes, ContentStep};
use idl_verification::instruction::{
    compression_to_u8, data_source_to_u8, encoding_to_u8, format_to_u8, initialize_instruction,
    set_data_instruction, AccountMeta, Instruction,
};
use idl_verification::metadata::{IdlVerificationMetadata, MetadataFault};
use idl_verification::target::{MetadataTarget, TargetFault};
use idl_verification::upload::{
    upload_idl_verification_metadata, ExistingAccount, UploadAction, UploadEvent, UploadFault,
    UploadRequest, UploadState, METADATA_HEADER_LENGTH,
};

fn filled(byte: u8) -> Address {
    Address { bytes: [byte; 32] }
}

fn outside(address: Address) -> solana_address::Address {
    solana_address::Address::new_from_array(address.bytes)
}

fn request(skip_prompt: bool, compute_unit_price: u64) -> UploadRequest {
    UploadRequest {
        program_id: filled(1),
        target: MetadataTarget {
            authority: filled(2),
            canonical: true,
            program_data: Some(filled(3)),
        },
        metadata: IdlVerificationMetadata::new(
            "https://example.com".to_string(),
            "abc".to_string(),
            "idl.json".to_string(),
        )
        .unwrap(),
        skip_prompt,
        compute_unit_price,
        metadata_program: filled(9),
    }
}

fn place(request: &UploadRequest) -> Address {
    request.target.pda_for_seed(&request.program_id, "idl-verification", &request.metadata_program)
}

fn stored(data: &[u8]) -> Metadata {
    let mut kept = vec![0; 5];
    kept.extend_from_slice(data);
    Metadata {
        program: filled(1),
        authority: filled(0),
        mutable: true,
        canonical: true,
        seed: *b"idl-verification",
        encoding: Encoding::Utf8,
        compression: Compression::Uncompressed,
        format: Format::Json,
        data_source: DataSource::Direct,
        data_length: data.len() as u32,
        data: kept,
    }
}

fn run(
    request: &UploadRequest,
    events: Vec<UploadEvent>,
) -> Result<(UploadState, UploadAction), UploadFault> {
    let mut state = UploadState::Start;
    let mut action = UploadAction::Ask;
    for event in events {
        let next = upload_idl_verification_metadata(request, state, event)?;
        state = next.0;
        action = next.1;
    }
    Ok((state, action))
}

fn same(made: &Instruction, expected: &solana_instruction::Instruction) -> bool {
    outside(made.program_id) == expected.program_id
        && made.data == expected.data
        && made.accounts.len() == expected.accounts.len()
        && made.accounts.iter().zip(&expected.accounts).all(|(a, b)| {
            outside(a.pubkey) == b.pubkey
                && a.is_signer == b.is_signer
                && a.is_writable == b.is_writable
        })
}

fn metas(accounts: &[AccountMeta]) -> Vec<(Address, bool, bool)> {
    accounts.iter().map(|a| (a.pubkey, a.is_signer, a.is_writable)).collect()
}

#[test]
fn tags_are_those_of_the_program() {
    let encodings = [Encoding::Raw, Encoding::Utf8, Encoding::Base58, Encoding::Base64];
    assert_eq!(encodings.map(encoding_to_u8), [0, 1, 2, 3]);
    let compressions = [Compression::Uncompressed, Compression::Gzip, Compression::Zlib];
    assert_eq!(compressions.map(compression_to_u8), [0, 1, 2]);
    let formats = [Format::Unspecified, Format::Json, Format::Yaml, Format::Toml];
    assert_eq!(formats.map(format_to_u8), [0, 1, 2, 3]);
    let sources = [DataSource::Direct, DataSource::Url, DataSource::External];
    assert_eq!(sources.map(data_source_to_u8), [0, 1, 2]);
}

#[test]
fn initialize_carries_seed_header_and_content() {
    let made = initialize_instruction(
        filled(1),
        filled(2),
        filled(3),
        Some(filled(4)),
        "idl",
        b"{}",
        filled(9),
    )
    .unwrap();
    assert_eq!(made.program_id, filled(9));
    assert_eq!(made.data, b"\x01idl\0\0\0\0\0\0\0\0\0\0\0\0\0\x01\x00\x01\x00{}");
    assert_eq!(
        metas(&made.accounts),
        vec![
            (filled(1), false, true),
            (filled(2), true, false),
            (filled(3), false, false),
            (filled(4), false, false),
            (filled(0), false, false),
        ]
    );
    let made =
        initialize_instruction(filled(1), filled(2), filled(3), None, "idl", b"", filled(9))
            .unwrap();
    assert_eq!(made.accounts[3].pubkey, filled(9));
    assert!(matches!(
        initialize_instruction(
            filled(1),
            filled(2),
            filled(3),
            None,
            "a seed of more than sixteen",
            b"",
            filled(9)
        ),
        Err(TargetFault::SeedTooLong)
    ));
}

#[test]
fn set_data_carries_header_and_content() {
    let made =
        set_data_instruction(filled(1), filled(2), filled(3), Some(filled(4)), b"{}", filled(9));
    assert_eq!(made.program_id, filled(9));
    assert_eq!(made.data, b"\x03\x01\x00\x01\x00{}");
    assert_eq!(
        metas(&made.accounts),
        vec![
            (filled(1), false, true),
            (filled(2), true, false),
            (filled(9), false, false),
            (filled(3), false, false),
            (filled(4), false, false),
        ]
    );
    let made = set_data_instruction(filled(1), filled(2), filled(3), None, b"{}", filled(9));
    assert_eq!(made.accounts[3].pubkey, filled(9));
    assert_eq!(made.accounts[4].pubkey, filled(9));
}

#[test]
fn system_program_is_that_of_the_interface() {
    let made =
        initialize_instruction(filled(1), filled(2), filled(3), None, "idl", b"", filled(9))
            .unwrap();
    assert_eq!(outside(made.accounts[4].pubkey), solana_system_interface::program::ID);
}

#[test]
fn upload_asks_before_it_loads_the_key() {
    let (state, action) = run(&request(false, 0), vec![UploadEvent::Begin]).unwrap();
    assert!(matches!(state, UploadState::AwaitingAnswer));
    assert!(matches!(action, UploadAction::Ask));
    let (state, action) =
        run(&request(false, 0), vec![UploadEvent::Begin, UploadEvent::Answer(true)]).unwrap();
    assert!(matches!(state, UploadState::AwaitingSigner));
    assert!(matches!(action, UploadAction::LoadSigner));
    let (state, action) = run(&request(true, 0), vec![UploadEvent::Begin]).unwrap();
    assert!(matches!(state, UploadState::AwaitingSigner));
    assert!(matches!(action, UploadAction::LoadSigner));
}

#[test]
fn declined_upload_stops_with_the_address() {
    let request = request(false, 0);
    let events = vec![UploadEvent::Begin, UploadEvent::Answer(false)];
    let (state, action) = run(&request, events).unwrap();
    assert!(matches!(state, UploadState::Finished));
    assert!(matches!(action, UploadAction::Stop(address) if address == place(&request)));
    let events =
        vec![UploadEvent::Begin, UploadEvent::Answer(false), UploadEvent::Signer(filled(2))];
    assert!(matches!(run(&request, events), Err(UploadFault::OutOfTurn)));
}

#[test]
fn upload_needs_the_authority_to_sign() {
    let events = vec![UploadEvent::Begin, UploadEvent::Signer(filled(5))];
    assert!(matches!(run(&request(true, 0), events), Err(UploadFault::WrongSigner)));
}

#[test]
fn invalid_record_is_not_uploaded() {
    let mut request = request(true, 0);
    request.metadata.version = 2;
    assert!(matches!(
        run(&request, vec![UploadEvent::Begin]),
        Err(UploadFault::Metadata(MetadataFault::UnsupportedVersion))
    ));
}

#[test]
fn events_out_of_turn_are_refused() {
    assert!(matches!(
        run(&request(true, 0), vec![UploadEvent::Rent(1)]),
        Err(UploadFault::OutOfTurn)
    ));
    assert!(matches!(
        run(&request(true, 0), vec![UploadEvent::Begin, UploadEvent::Begin]),
        Err(UploadFault::OutOfTurn)
    ));
}

#[test]
fn missing_account_is_paid_for_and_created() {
    let request = request(true, 1234);
    let address = place(&request);
    let text = request.metadata.to_pretty_json_bytes().unwrap();
    let events = vec![UploadEvent::Begin, UploadEvent::Signer(filled(2))];
    let (_, action) = run(&request, events.clone()).unwrap();
    assert!(matches!(action, UploadAction::FetchAccount(at) if at == address));

    let mut events = events;
    events.push(UploadEvent::Fetched(None));
    let (_, action) = run(&request, events.clone()).unwrap();
    assert!(matches!(
        action,
        UploadAction::FetchRent(length) if length == METADATA_HEADER_LENGTH + text.len()
    ));

    events.push(UploadEvent::Rent(5_000_000));
    match run(&request, events).unwrap() {
        (UploadState::Finished, UploadAction::Send { address: at, creates, instructions }) => {
            assert_eq!(at, address);
            assert!(creates);
            assert_eq!(instructions.len(), 3);
            assert!(same(
                &instructions[0],
                &solana_compute_budget_interface::ComputeBudgetInstruction::set_compute_unit_price(
                    1234
                )
            ));
            assert!(same(
                &instructions[1],
                &solana_system_interface::instruction::transfer(
                    &outside(filled(2)),
                    &outside(address),
                    5_000_000
                )
            ));
            assert_eq!(instructions[1].data, [2, 0, 0, 0, 0x40, 0x4b, 0x4c, 0, 0, 0, 0, 0]);
            assert_eq!(instructions[2].data[..17], *b"\x01idl-verification");
            assert_eq!(instructions[2].data[21..], text);
        }
        other => panic!("{other:?}"),
    }
}

fn update(
    request: &UploadRequest,
    lamports: u64,
    owner: Address,
    mutable: Option<bool>,
    rent: u64,
) -> Result<(UploadState, UploadAction), UploadFault> {
    run(
        request,
        vec![
            UploadEvent::Begin,
            UploadEvent::Signer(filled(2)),
            UploadEvent::Fetched(Some(ExistingAccount { lamports, owner, mutable })),
            UploadEvent::Rent(rent),
        ],
    )
}

#[test]
fn existing_account_is_topped_up_and_updated() {
    let request = request(true, 0);
    let address = place(&request);
    let text = request.metadata.to_pretty_json_bytes().unwrap();
    match update(&request, 100, filled(9), Some(true), 250).unwrap().1 {
        UploadAction::Send { address: at, creates, instructions } => {
            assert_eq!(at, address);
            assert!(!creates);
            assert_eq!(instructions.len(), 2);
            assert!(same(
                &instructions[0],
                &solana_system_interface::instruction::transfer(
                    &outside(filled(2)),
                    &outside(address),
                    150
                )
            ));
            assert_eq!(instructions[1].data[..5], [3, 1, 0, 1, 0]);
            assert_eq!(instructions[1].data[5..], text);
        }
        other => panic!("{other:?}"),
    }
    match update(&request, 250, filled(9), Some(true), 250).unwrap().1 {
        UploadAction::Send { instructions, .. } => assert_eq!(instructions.len(), 1),
        other => panic!("{other:?}"),
    }
}

#[test]
fn each_existing_account_fault_has_its_input() {
    let request = request(true, 0);
    assert!(matches!(
        update(&request, 1, filled(8), Some(true), 1),
        Err(UploadFault::NotOwned)
    ));
    assert!(matches!(
        update(&request, 1, filled(9), None, 1),
        Err(UploadFault::Undecodable)
    ));
    assert!(matches!(
        update(&request, 1, filled(9), Some(false), 1),
        Err(UploadFault::Immutable)
    ));
}

#[test]
fn uploaded_record_reads_back() {
    let request = request(true, 0);
    let text = request.metadata.to_pretty_json_bytes().unwrap();
    assert!(matches!(
        resolve_metadata_content_bytes(&stored(&text)),
        Ok(ContentStep::Done(content)) if content == text
    ));
}
