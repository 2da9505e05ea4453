//! The instructions that an upload is made of.
use vstd::prelude::*;
use crate::account::{Compression, DataSource, Encoding, Format};
use crate::address::{system_program_id, Address};
use crate::bytes::append_bytes;
use crate::target::{seed_from_str, TargetFault};

verus! {

/// An account that an instruction touches.
#[derive(Debug, Clone, Copy)]
pub struct AccountMeta {
    pub pubkey: Address,
    pub is_signer: bool,
    pub is_writable: bool,
}

/// A call of a program on chain.
#[derive(Debug, Clone)]
pub struct Instruction {
    pub program_id: Address,
    pub accounts: Vec<AccountMeta>,
    pub data: Vec<u8>,
}

/// An [`Instruction`] with its parts as sequences.
pub struct InstructionView {
    pub program_id: Address,
    pub accounts: Seq<AccountMeta>,
    pub data: Seq<u8>,
}

impl View for Instruction {
    type V = InstructionView;

    open spec fn view(&self) -> InstructionView {
        InstructionView {
            program_id: self.program_id,
            accounts: self.accounts@,
            data: self.data@,
        }
    }
}

/// An account that the instruction may change.
pub open spec fn writable(pubkey: Address, is_signer: bool) -> AccountMeta {
    AccountMeta { pubkey, is_signer, is_writable: true }
}

/// An account that the instruction only reads.
pub open spec fn readonly(pubkey: Address, is_signer: bool) -> AccountMeta {
    AccountMeta { pubkey, is_signer, is_writable: false }
}

impl AccountMeta {
    /// An account that the instruction may change.
    pub fn new(pubkey: Address, is_signer: bool) -> (meta: Self)
        ensures
            meta == writable(pubkey, is_signer),
    {
        AccountMeta { pubkey, is_signer, is_writable: true }
    }

    /// An account that the instruction only reads.
    pub fn new_readonly(pubkey: Address, is_signer: bool) -> (meta: Self)
        ensures
            meta == readonly(pubkey, is_signer),
    {
        AccountMeta { pubkey, is_signer, is_writable: false }
    }
}

/// The byte that stands for an encoding.
pub open spec fn encoding_tag(value: Encoding) -> u8 {
    match value {
        Encoding::Raw => 0,
        Encoding::Utf8 => 1,
        Encoding::Base58 => 2,
        Encoding::Base64 => 3,
    }
}

/// The byte that stands for a compression.
pub open spec fn compression_tag(value: Compression) -> u8 {
    match value {
        Compression::Uncompressed => 0,
        Compression::Gzip => 1,
        Compression::Zlib => 2,
    }
}

/// The byte that stands for a format.
pub open spec fn format_tag(value: Format) -> u8 {
    match value {
        Format::Unspecified => 0,
        Format::Json => 1,
        Format::Yaml => 2,
        Format::Toml => 3,
    }
}

/// The byte that stands for a data source.
pub open spec fn data_source_tag(value: DataSource) -> u8 {
    match value {
        DataSource::Direct => 0,
        DataSource::Url => 1,
        DataSource::External => 2,
    }
}

/// The byte that stands for an encoding.
pub fn encoding_to_u8(value: Encoding) -> (tag: u8)
    ensures
        tag == encoding_tag(value),
{
    match value {
        Encoding::Raw => 0,
        Encoding::Utf8 => 1,
        Encoding::Base58 => 2,
        Encoding::Base64 => 3,
    }
}

/// The byte that stands for a compression.
pub fn compression_to_u8(value: Compression) -> (tag: u8)
    ensures
        tag == compression_tag(value),
{
    match value {
        Compression::Uncompressed => 0,
        Compression::Gzip => 1,
        Compression::Zlib => 2,
    }
}

/// The byte that stands for a format.
pub fn format_to_u8(value: Format) -> (tag: u8)
    ensures
        tag == format_tag(value),
{
    match value {
        Format::Unspecified => 0,
        Format::Json => 1,
        Format::Yaml => 2,
        Format::Toml => 3,
    }
}

/// The byte that stands for a data source.
pub fn data_source_to_u8(value: DataSource) -> (tag: u8)
    ensures
        tag == data_source_tag(value),
{
    match value {
        DataSource::Direct => 0,
        DataSource::Url => 1,
        DataSource::External => 2,
    }
}

/// The four bytes that describe JSON text kept as it is in the account itself.
pub open spec fn json_header() -> Seq<u8> {
    seq![
        encoding_tag(Encoding::Utf8),
        compression_tag(Compression::Uncompressed),
        format_tag(Format::Json),
        data_source_tag(DataSource::Direct),
    ]
}

/// The program's ProgramData account, or the metadata program's address in its place.
pub open spec fn program_data_or(program_data: Option<Address>, metadata_program: Address) -> Address {
    match program_data {
        Some(address) => address,
        None => metadata_program,
    }
}

/// The call that creates a metadata account which holds the JSON text `data`.
pub open spec fn initialize(
    metadata: Address,
    authority: Address,
    program: Address,
    program_data: Option<Address>,
    seed: Seq<char>,
    data: Seq<u8>,
    metadata_program: Address,
) -> InstructionView {
    InstructionView {
        program_id: metadata_program,
        accounts: seq![
            writable(metadata, false),
            readonly(authority, true),
            readonly(program, false),
            readonly(program_data_or(program_data, metadata_program), false),
            readonly(crate::address::zero_address(), false),
        ],
        data: seq![1u8] + crate::target::padded_seed(seed) + json_header() + data,
    }
}

/// The call that makes the JSON text `data` the content of a metadata account.
pub open spec fn set_data(
    metadata: Address,
    authority: Address,
    program: Address,
    program_data: Option<Address>,
    data: Seq<u8>,
    metadata_program: Address,
) -> InstructionView {
    InstructionView {
        program_id: metadata_program,
        accounts: seq![
            writable(metadata, false),
            readonly(authority, true),
            readonly(metadata_program, false),
            readonly(if program_data is Some { program } else { metadata_program }, false),
            readonly(program_data_or(program_data, metadata_program), false),
        ],
        data: seq![3u8] + json_header() + data,
    }
}

/// The call that moves `lamports` from one account to another.
pub open spec fn transfer(from: Address, to: Address, lamports: u64) -> InstructionView {
    InstructionView {
        program_id: crate::address::zero_address(),
        accounts: seq![writable(from, true), writable(to, false)],
        data: seq![2u8, 0, 0, 0] + crate::bytes::le_u64_bytes(lamports),
    }
}

/// The address of the compute budget program, `ComputeBudget111111111111111111111111111111`.
pub open spec fn compute_budget() -> Seq<u8> {
    seq![
        3u8, 6, 70, 111, 229, 33, 23, 50, 255, 236, 173, 186, 114, 195, 155, 231,
        188, 140, 229, 187, 197, 247, 18, 107, 44, 67, 155, 58, 64, 0, 0, 0,
    ]
}

/// The call that sets what a transaction pays for each compute unit.
pub open spec fn set_compute_unit_price(micro_lamports: u64) -> InstructionView {
    InstructionView {
        program_id: crate::address::address_at(compute_budget(), 0),
        accounts: Seq::empty(),
        data: seq![3u8] + crate::bytes::le_u64_bytes(micro_lamports),
    }
}

/// Calls `solana_system_interface::instruction::transfer`: a call of the system program, with
/// the third of its instructions, on the paying account, which signs, and the paid one.
#[verifier::external_body]
pub(crate) fn transfer_instruction(from: &Address, to: &Address, lamports: u64) -> (made:
    Instruction)
    ensures
        made@ == transfer(*from, *to, lamports),
{
    let made = solana_system_interface::instruction::transfer(
        &solana_address::Address::new_from_array(from.bytes),
        &solana_address::Address::new_from_array(to.bytes),
        lamports,
    );
    let account = |meta: solana_instruction::AccountMeta| AccountMeta {
        pubkey: Address { bytes: meta.pubkey.to_bytes() },
        is_signer: meta.is_signer,
        is_writable: meta.is_writable,
    };
    let accounts = made.accounts.into_iter().map(account).collect();
    Instruction { program_id: Address { bytes: made.program_id.to_bytes() }, accounts, data: made.data }
}

/// Calls `ComputeBudgetInstruction::set_compute_unit_price` of the compute budget interface
/// crate: a call of the compute budget program with the tag 3 and the price, on no account.
#[verifier::external_body]
pub(crate) fn compute_unit_price_instruction(micro_lamports: u64) -> (made: Instruction)
    ensures
        made@ == set_compute_unit_price(micro_lamports),
{
    let made = solana_compute_budget_interface::ComputeBudgetInstruction::set_compute_unit_price(
        micro_lamports,
    );
    let account = |meta: solana_instruction::AccountMeta| AccountMeta {
        pubkey: Address { bytes: meta.pubkey.to_bytes() },
        is_signer: meta.is_signer,
        is_writable: meta.is_writable,
    };
    let accounts = made.accounts.into_iter().map(account).collect();
    Instruction { program_id: Address { bytes: made.program_id.to_bytes() }, accounts, data: made.data }
}

/// Appends the four bytes that describe JSON text kept as it is in the account itself.
fn append_json_header(data: &mut Vec<u8>)
    ensures
        final(data)@ == old(data)@ + json_header(),
{
    data.push(encoding_to_u8(Encoding::Utf8));
    data.push(compression_to_u8(Compression::Uncompressed));
    data.push(format_to_u8(Format::Json));
    data.push(data_source_to_u8(DataSource::Direct));
    assert(data@ =~= old(data)@ + json_header());
}

/// The call that creates a metadata account which holds the JSON text `data`.
pub fn initialize_instruction(
    metadata: Address,
    authority: Address,
    program: Address,
    program_data: Option<Address>,
    seed: &str,
    data: &[u8],
    metadata_program: Address,
) -> (made: Result<Instruction, TargetFault>)
    ensures
        match made {
            Ok(instruction) => crate::target::seed_fits(seed@) && instruction@ == initialize(
                metadata,
                authority,
                program,
                program_data,
                seed@,
                data@,
                metadata_program,
            ),
            Err(fault) => !crate::target::seed_fits(seed@) && fault == TargetFault::SeedTooLong,
        },
{
    let fixed = seed_from_str(seed)?;
    let mut instruction_data: Vec<u8> = vec![1u8];
    append_bytes(&mut instruction_data, &fixed);
    append_json_header(&mut instruction_data);
    append_bytes(&mut instruction_data, data);
    let accounts = vec![
        AccountMeta::new(metadata, false),
        AccountMeta::new_readonly(authority, true),
        AccountMeta::new_readonly(program, false),
        AccountMeta::new_readonly(program_data.unwrap_or(metadata_program), false),
        AccountMeta::new_readonly(system_program_id(), false),
    ];
    let made = Instruction { program_id: metadata_program, accounts, data: instruction_data };
    proof {
        let stated = initialize(
            metadata,
            authority,
            program,
            program_data,
            seed@,
            data@,
            metadata_program,
        );
        assert(made@.accounts =~= stated.accounts);
        assert(made@.data =~= stated.data);
    }
    Ok(made)
}

/// The call that makes the JSON text `data` the content of a metadata account.
pub fn set_data_instruction(
    metadata: Address,
    authority: Address,
    program: Address,
    program_data: Option<Address>,
    data: &[u8],
    metadata_program: Address,
) -> (made: Instruction)
    ensures
        made@ == set_data(metadata, authority, program, program_data, data@, metadata_program),
{
    let mut instruction_data: Vec<u8> = vec![3u8];
    append_json_header(&mut instruction_data);
    append_bytes(&mut instruction_data, data);
    let program_or_none = if program_data.is_some() { program } else { metadata_program };
    let accounts = vec![
        AccountMeta::new(metadata, false),
        AccountMeta::new_readonly(authority, true),
        AccountMeta::new_readonly(metadata_program, false),
        AccountMeta::new_readonly(program_or_none, false),
        AccountMeta::new_readonly(program_data.unwrap_or(metadata_program), false),
    ];
    let made = Instruction { program_id: metadata_program, accounts, data: instruction_data };
    proof {
        let stated = set_data(metadata, authority, program, program_data, data@, metadata_program);
        assert(made@.accounts =~= stated.accounts);
        assert(made@.data =~= stated.data);
    }
    made
}

/// Different encodings, compressions, formats and data sources have different bytes.
pub proof fn law_tags_are_distinct(
    encodings: (Encoding, Encoding),
    compressions: (Compression, Compression),
    formats: (Format, Format),
    data_sources: (DataSource, DataSource),
)
    ensures
        encoding_tag(encodings.0) == encoding_tag(encodings.1) ==> encodings.0 == encodings.1,
        compression_tag(compressions.0) == compression_tag(compressions.1) ==> compressions.0
            == compressions.1,
        format_tag(formats.0) == format_tag(formats.1) ==> formats.0 == formats.1,
        data_source_tag(data_sources.0) == data_source_tag(data_sources.1) ==> data_sources.0
            == data_sources.1,
{
}

/// The call that creates an account carries the seed and the content unchanged.
pub proof fn law_initialize_carries_content(
    metadata: Address,
    authority: Address,
    program: Address,
    program_data: Option<Address>,
    seed: Seq<char>,
    data: Seq<u8>,
    metadata_program: Address,
)
    ensures
        ({
            let carried = initialize(
                metadata,
                authority,
                program,
                program_data,
                seed,
                data,
                metadata_program,
            ).data;
            &&& carried.len() == 21 + data.len()
            &&& carried[0] == 1
            &&& carried.subrange(1, 17) == crate::target::padded_seed(seed)
            &&& carried.subrange(17, 21) == json_header()
            &&& carried.skip(21) == data
        }),
{
    let carried = initialize(
        metadata,
        authority,
        program,
        program_data,
        seed,
        data,
        metadata_program,
    ).data;
    assert(carried.subrange(1, 17) =~= crate::target::padded_seed(seed));
    assert(carried.subrange(17, 21) =~= json_header());
    assert(carried.skip(21) =~= data);
}

/// The call that updates an account carries the content unchanged.
pub proof fn law_set_data_carries_content(
    metadata: Address,
    authority: Address,
    program: Address,
    program_data: Option<Address>,
    data: Seq<u8>,
    metadata_program: Address,
)
    ensures
        ({
            let carried = set_data(
                metadata,
                authority,
                program,
                program_data,
                data,
                metadata_program,
            ).data;
            &&& carried.len() == 5 + data.len()
            &&& carried[0] == 3
            &&& carried.subrange(1, 5) == json_header()
            &&& carried.skip(5) == data
        }),
{
    let carried = set_data(metadata, authority, program, program_data, data, metadata_program).data;
    assert(carried.subrange(1, 5) =~= json_header());
    assert(carried.skip(5) =~= data);
}

/// The number of lamports that a transfer moves can be read from it.
pub proof fn law_transfer_carries_amount(from: Address, to: Address, lamports: u64)
    ensures
        crate::bytes::le_u64(transfer(from, to, lamports).data, 4) == lamports,
{
    let amount = crate::bytes::le_u64_bytes(lamports);
    let data = transfer(from, to, lamports).data;
    crate::bytes::law_le_u64_reads_back(lamports);
    assert(crate::bytes::le_u32(data, 4) == crate::bytes::le_u32(amount, 0));
    assert(crate::bytes::le_u32(data, 8) == crate::bytes::le_u32(amount, 4));
}

/// The call that creates an account goes to the metadata program and touches five accounts: it
/// changes the metadata account alone and has the authority alone sign. Where the program has no
/// ProgramData account the metadata program stands in its place, and the system program comes
/// last.
pub proof fn law_initialize_changes_only_metadata_account(
    metadata: Address,
    authority: Address,
    program: Address,
    program_data: Option<Address>,
    seed: Seq<char>,
    data: Seq<u8>,
    metadata_program: Address,
)
    ensures
        ({
            let call = initialize(
                metadata,
                authority,
                program,
                program_data,
                seed,
                data,
                metadata_program,
            );
            let accounts = call.accounts;
            &&& call.program_id == metadata_program
            &&& accounts.len() == 5
            &&& forall|i: int|
                0 <= i < 5 ==> (#[trigger] accounts[i]).is_writable == (i == 0)
                    && accounts[i].is_signer == (i == 1)
            &&& accounts[0].pubkey == metadata
            &&& accounts[1].pubkey == authority
            &&& accounts[2].pubkey == program
            &&& program_data is Some ==> accounts[3].pubkey == program_data->0
            &&& program_data is None ==> accounts[3].pubkey == metadata_program
            &&& forall|i: int| 0 <= i < 32 ==> #[trigger] accounts[4].pubkey@[i] == 0
        }),
{
    crate::address::law_zero_address_is_zeros(crate::address::zero_address());
}

/// The call that updates an account goes to the metadata program and touches five accounts: it
/// changes the metadata account alone and has the authority alone sign. The program and its
/// ProgramData account are named together or not at all, and the metadata program stands
/// wherever there is nothing to name.
pub proof fn law_set_data_changes_only_metadata_account(
    metadata: Address,
    authority: Address,
    program: Address,
    program_data: Option<Address>,
    data: Seq<u8>,
    metadata_program: Address,
)
    ensures
        ({
            let call = set_data(metadata, authority, program, program_data, data, metadata_program);
            let accounts = call.accounts;
            &&& call.program_id == metadata_program
            &&& accounts.len() == 5
            &&& forall|i: int|
                0 <= i < 5 ==> (#[trigger] accounts[i]).is_writable == (i == 0)
                    && accounts[i].is_signer == (i == 1)
            &&& accounts[0].pubkey == metadata
            &&& accounts[1].pubkey == authority
            &&& accounts[2].pubkey == metadata_program
            &&& program_data is Some ==> accounts[3].pubkey == program && accounts[4].pubkey
                == program_data->0
            &&& program_data is None ==> accounts[3].pubkey == metadata_program
                && accounts[4].pubkey == metadata_program
        }),
{
}

/// The bytes that describe an upload's content say UTF-8, no compression, JSON, and the account
/// itself, and no other encoding, compression, format or source is described by them.
pub proof fn law_json_header_describes_plain_json(
    encoding: Encoding,
    compression: Compression,
    format: Format,
    data_source: DataSource,
)
    ensures
        json_header() == seq![1u8, 0, 1, 0],
        seq![
            encoding_tag(encoding),
            compression_tag(compression),
            format_tag(format),
            data_source_tag(data_source),
        ] == json_header() ==> {
            &&& encoding == Encoding::Utf8
            &&& compression == Compression::Uncompressed
            &&& format == Format::Json
            &&& data_source == DataSource::Direct
        },
{
    let tags = seq![
        encoding_tag(encoding),
        compression_tag(compression),
        format_tag(format),
        data_source_tag(data_source),
    ];
    let header = json_header();
    assert(header =~= seq![1u8, 0, 1, 0]);
    if tags == header {
        assert(tags[0] == header[0] && tags[1] == header[1]);
        assert(tags[2] == header[2] && tags[3] == header[3]);
    }
}

/// A transfer goes to the system program, takes from the first account, which signs, and gives
/// to the second, for any amount.
pub proof fn law_transfer_moves_between_accounts(from: Address, to: Address, lamports: u64)
    ensures
        ({
            let call = transfer(from, to, lamports);
            &&& forall|i: int| 0 <= i < 32 ==> #[trigger] call.program_id@[i] == 0
            &&& call.accounts.len() == 2
            &&& call.accounts[0].pubkey == from && call.accounts[0].is_signer
            &&& call.accounts[1].pubkey == to && !call.accounts[1].is_signer
            &&& call.accounts[0].is_writable && call.accounts[1].is_writable
            &&& call.data.len() == 12
            &&& crate::bytes::le_u32(call.data, 0) == 2
            &&& crate::bytes::le_u64(call.data, 4) == lamports
        }),
{
    crate::address::law_zero_address_is_zeros(crate::address::zero_address());
    crate::bytes::law_le_u64_reads_back(lamports);
    law_transfer_carries_amount(from, to, lamports);
}

/// The price of a compute unit can be read from the call that sets it, which touches no account.
pub proof fn law_compute_unit_price_carries_price(micro_lamports: u64)
    ensures
        ({
            let call = set_compute_unit_price(micro_lamports);
            &&& call.program_id@ == compute_budget()
            &&& call.accounts.len() == 0
            &&& call.data.len() == 9
            &&& call.data[0] == 3
            &&& crate::bytes::le_u64(call.data, 1) == micro_lamports
        }),
{
    let price = crate::bytes::le_u64_bytes(micro_lamports);
    let data = set_compute_unit_price(micro_lamports).data;
    crate::bytes::law_le_u64_reads_back(micro_lamports);
    assert(crate::bytes::le_u32(data, 1) == crate::bytes::le_u32(price, 0));
    assert(crate::bytes::le_u32(data, 5) == crate::bytes::le_u32(price, 4));
    crate::address::law_address_at_is_subrange(compute_budget(), 0);
    assert(compute_budget().subrange(0, 32) =~= compute_budget());
}

} // verus!
