//! Uploading the record that says how an IDL is reproduced.
//!
//! An upload asks the user, loads a key, fetches an account and the rent, and sends a
//! transaction. None of that happens here: [`upload_idl_verification_metadata`] takes where the
//! upload stands and what has just happened, and says what is to be done next.
use vstd::prelude::*;
use crate::account::Metadata;
use crate::address::Address;
use crate::instruction::{
    compute_unit_price_instruction, initialize_instruction, set_data_instruction,
    transfer_instruction, Instruction, InstructionView,
};
use crate::metadata::{IdlVerificationMetadata, MetadataFault};
use crate::target::{MetadataTarget, TargetFault, IDL_VERIFICATION_SEED};

verus! {

/// How many bytes a metadata account takes beside its content.
pub const METADATA_HEADER_LENGTH: usize = 96;

/// What is to be uploaded.
#[derive(Debug, Clone)]
pub struct UploadRequest {
    pub program_id: Address,
    pub target: MetadataTarget,
    pub metadata: IdlVerificationMetadata,
    /// Upload without asking the user.
    pub skip_prompt: bool,
    /// What each compute unit pays, in millionths of a lamport; nothing is set where it is zero.
    pub compute_unit_price: u64,
    /// The program that keeps metadata accounts.
    pub metadata_program: Address,
}

/// The account that an upload finds in its place.
#[derive(Debug, Clone)]
pub struct ExistingAccount {
    pub lamports: u64,
    pub owner: Address,
    /// Whether the metadata may be changed; `None` where the account's data is no metadata.
    pub mutable: Option<bool>,
}

/// Where an upload stands.
#[derive(Debug, Clone)]
pub enum UploadState {
    Start,
    AwaitingAnswer,
    AwaitingSigner,
    AwaitingAccount { signer: Address, address: Address, data: Vec<u8> },
    /// `balance` is what the account in place holds, `None` where there is none.
    AwaitingRent { signer: Address, address: Address, data: Vec<u8>, balance: Option<u64> },
    Finished,
}

/// What has happened.
#[derive(Debug, Clone)]
pub enum UploadEvent {
    Begin,
    /// The user agreed, or did not.
    Answer(bool),
    /// The key that signs was loaded.
    Signer(Address),
    /// The account was fetched; `None` where there is none.
    Fetched(Option<ExistingAccount>),
    /// This is what an account must hold to be free of rent.
    Rent(u64),
}

/// What is to be done next.
#[derive(Debug, Clone)]
pub enum UploadAction {
    /// Ask the user whether to upload.
    Ask,
    /// Load the key that signs.
    LoadSigner,
    /// Fetch the account at this address.
    FetchAccount(Address),
    /// Find out what an account of so many bytes must hold to be free of rent.
    FetchRent(usize),
    /// Send these instructions, which create the account at the address or update it.
    Send { address: Address, creates: bool, instructions: Vec<Instruction> },
    /// Send nothing. The account would be at this address.
    Stop(Address),
}

/// Why an upload fails.
#[derive(Debug, Clone, Copy, PartialEq, Eq, Structural)]
pub enum UploadFault {
    Metadata(MetadataFault),
    /// No bump takes the account's address off the curve.
    NoProgramAddress,
    /// The signer is not the authority of the target.
    WrongSigner,
    NotOwned,
    Undecodable,
    Immutable,
    /// The event is not the one that the upload waits for.
    OutOfTurn,
}

/// An [`UploadState`] with its bytes as sequences.
pub enum UploadStateView {
    Start,
    AwaitingAnswer,
    AwaitingSigner,
    AwaitingAccount { signer: Address, address: Address, data: Seq<u8> },
    AwaitingRent { signer: Address, address: Address, data: Seq<u8>, balance: Option<u64> },
    Finished,
}

impl View for UploadState {
    type V = UploadStateView;

    open spec fn view(&self) -> UploadStateView {
        match *self {
            UploadState::Start => UploadStateView::Start,
            UploadState::AwaitingAnswer => UploadStateView::AwaitingAnswer,
            UploadState::AwaitingSigner => UploadStateView::AwaitingSigner,
            UploadState::AwaitingAccount { signer, address, data } => {
                UploadStateView::AwaitingAccount { signer, address, data: data@ }
            },
            UploadState::AwaitingRent { signer, address, data, balance } => {
                UploadStateView::AwaitingRent { signer, address, data: data@, balance }
            },
            UploadState::Finished => UploadStateView::Finished,
        }
    }
}

/// An [`UploadAction`] with its instructions as sequences.
pub enum UploadActionView {
    Ask,
    LoadSigner,
    FetchAccount(Address),
    FetchRent(int),
    Send { address: Address, creates: bool, instructions: Seq<InstructionView> },
    Stop(Address),
}

impl View for UploadAction {
    type V = UploadActionView;

    open spec fn view(&self) -> UploadActionView {
        match *self {
            UploadAction::Ask => UploadActionView::Ask,
            UploadAction::LoadSigner => UploadActionView::LoadSigner,
            UploadAction::FetchAccount(address) => UploadActionView::FetchAccount(address),
            UploadAction::FetchRent(length) => UploadActionView::FetchRent(length as int),
            UploadAction::Send { address, creates, instructions } => UploadActionView::Send {
                address,
                creates,
                instructions: instructions@.map_values(|i: Instruction| i@),
            },
            UploadAction::Stop(address) => UploadActionView::Stop(address),
        }
    }
}

/// The address of the account that an upload writes.
pub open spec fn upload_address(request: UploadRequest) -> Option<Address> {
    match crate::target::pda(
        request.program_id,
        request.target.seed_authority(),
        IDL_VERIFICATION_SEED@,
        request.metadata_program,
    ) {
        Some(bytes) => Some(crate::address::address_at(bytes, 0)),
        None => None,
    }
}

/// What keeps an existing account from being written.
pub open spec fn existing_fault(request: UploadRequest, existing: ExistingAccount) -> Option<
    UploadFault,
> {
    if existing.owner != request.metadata_program {
        Some(UploadFault::NotOwned)
    } else if existing.mutable is None {
        Some(UploadFault::Undecodable)
    } else if !existing.mutable->0 {
        Some(UploadFault::Immutable)
    } else {
        None
    }
}

/// The instructions that write `data` to the account at `address`, which holds `balance` if it
/// is there and must hold `required`: the price of compute units where one is set, then what
/// the account lacks, then the content.
pub open spec fn upload_instructions(
    request: UploadRequest,
    signer: Address,
    address: Address,
    data: Seq<u8>,
    balance: Option<u64>,
    required: u64,
) -> Seq<InstructionView> {
    let price = if request.compute_unit_price > 0 {
        seq![crate::instruction::set_compute_unit_price(request.compute_unit_price)]
    } else {
        Seq::empty()
    };
    match balance {
        None => price + seq![
            crate::instruction::transfer(signer, address, required),
            crate::instruction::initialize(
                address,
                signer,
                request.program_id,
                request.target.program_data,
                IDL_VERIFICATION_SEED@,
                data,
                request.metadata_program,
            ),
        ],
        Some(lamports) => {
            let lacking = if lamports < required {
                seq![crate::instruction::transfer(signer, address, (required - lamports) as u64)]
            } else {
                Seq::empty()
            };
            price + lacking + seq![
                crate::instruction::set_data(
                    address,
                    signer,
                    request.program_id,
                    request.target.program_data,
                    data,
                    request.metadata_program,
                ),
            ]
        },
    }
}

/// Where an upload stands after an event, and what is to be done.
pub open spec fn upload_step(
    request: UploadRequest,
    state: UploadStateView,
    event: UploadEvent,
) -> Result<(UploadStateView, UploadActionView), UploadFault> {
    match (state, event) {
        (UploadStateView::Start, UploadEvent::Begin) => match request.metadata.fault() {
            Some(fault) => Err(UploadFault::Metadata(fault)),
            None => if request.skip_prompt {
                Ok((UploadStateView::AwaitingSigner, UploadActionView::LoadSigner))
            } else {
                Ok((UploadStateView::AwaitingAnswer, UploadActionView::Ask))
            },
        },
        (UploadStateView::AwaitingAnswer, UploadEvent::Answer(yes)) => if yes {
            Ok((UploadStateView::AwaitingSigner, UploadActionView::LoadSigner))
        } else {
            match upload_address(request) {
                Some(address) => Ok((UploadStateView::Finished, UploadActionView::Stop(address))),
                None => Err(UploadFault::NoProgramAddress),
            }
        },
        (UploadStateView::AwaitingSigner, UploadEvent::Signer(signer)) => if signer
            != request.target.authority {
            Err(UploadFault::WrongSigner)
        } else {
            match (upload_address(request), request.metadata.fault()) {
                (None, _) => Err(UploadFault::NoProgramAddress),
                (_, Some(fault)) => Err(UploadFault::Metadata(fault)),
                (Some(address), None) => Ok(
                    (
                        UploadStateView::AwaitingAccount {
                            signer,
                            address,
                            data: request.metadata.json(),
                        },
                        UploadActionView::FetchAccount(address),
                    ),
                ),
            }
        },
        (
            UploadStateView::AwaitingAccount { signer, address, data },
            UploadEvent::Fetched(found),
        ) => match found {
            None => Ok(
                (
                    UploadStateView::AwaitingRent { signer, address, data, balance: None },
                    UploadActionView::FetchRent(METADATA_HEADER_LENGTH + data.len()),
                ),
            ),
            Some(existing) => match existing_fault(request, existing) {
                Some(fault) => Err(fault),
                None => Ok(
                    (
                        UploadStateView::AwaitingRent {
                            signer,
                            address,
                            data,
                            balance: Some(existing.lamports),
                        },
                        UploadActionView::FetchRent(METADATA_HEADER_LENGTH + data.len()),
                    ),
                ),
            },
        },
        (
            UploadStateView::AwaitingRent { signer, address, data, balance },
            UploadEvent::Rent(required),
        ) => Ok(
            (
                UploadStateView::Finished,
                UploadActionView::Send {
                    address,
                    creates: balance is None,
                    instructions: upload_instructions(
                        request,
                        signer,
                        address,
                        data,
                        balance,
                        required,
                    ),
                },
            ),
        ),
        _ => Err(UploadFault::OutOfTurn),
    }
}

/// The seed of the uploaded account fits.
proof fn lemma_upload_seed_fits()
    ensures
        crate::target::seed_fits(IDL_VERIFICATION_SEED@),
{
    reveal_strlit("idl-verification");
    vstd::utf8::is_ascii_chars_encode_utf8(IDL_VERIFICATION_SEED@);
}

/// The address of the account that an upload writes.
fn find_upload_address(request: &UploadRequest) -> (found: Result<Address, UploadFault>)
    ensures
        match found {
            Ok(address) => upload_address(*request) == Some(address),
            Err(fault) => upload_address(*request) is None && fault
                == UploadFault::NoProgramAddress,
        },
{
    proof {
        lemma_upload_seed_fits();
    }
    match request.target.try_pda_for_seed(
        &request.program_id,
        IDL_VERIFICATION_SEED,
        &request.metadata_program,
    ) {
        Ok(address) => {
            proof {
                crate::address::law_address_at_is_subrange(address@, 0);
                assert(address@.subrange(0, 32) =~= address@);
                crate::address::law_address_is_its_bytes(
                    address,
                    crate::address::address_at(address@, 0),
                );
            }
            Ok(address)
        },
        Err(_) => Err(UploadFault::NoProgramAddress),
    }
}

/// Checks that an existing account may be written.
fn check_existing(request: &UploadRequest, existing: &ExistingAccount) -> (checked: Result<
    (),
    UploadFault,
>)
    ensures
        match checked {
            Ok(()) => existing_fault(*request, *existing) is None,
            Err(fault) => existing_fault(*request, *existing) == Some(fault),
        },
{
    if existing.owner != request.metadata_program {
        return Err(UploadFault::NotOwned);
    }
    match existing.mutable {
        None => Err(UploadFault::Undecodable),
        Some(mutable) => if mutable {
            Ok(())
        } else {
            Err(UploadFault::Immutable)
        },
    }
}

/// The instructions that write `data` to the account at `address`.
fn plan_upload(
    request: &UploadRequest,
    signer: Address,
    address: Address,
    data: &[u8],
    balance: Option<u64>,
    required: u64,
) -> (instructions: Vec<Instruction>)
    ensures
        instructions@.map_values(|i: Instruction| i@) == upload_instructions(
            *request,
            signer,
            address,
            data@,
            balance,
            required,
        ),
{
    let mut instructions: Vec<Instruction> = Vec::new();
    if request.compute_unit_price > 0 {
        instructions.push(compute_unit_price_instruction(request.compute_unit_price));
    }
    match balance {
        Some(lamports) => {
            if lamports < required {
                instructions.push(transfer_instruction(&signer, &address, required - lamports));
            }
            instructions.push(
                set_data_instruction(
                    address,
                    signer,
                    request.program_id,
                    request.target.program_data,
                    data,
                    request.metadata_program,
                ),
            );
        },
        None => {
            instructions.push(transfer_instruction(&signer, &address, required));
            proof {
                lemma_upload_seed_fits();
            }
            instructions.push(
                initialize_instruction(
                    address,
                    signer,
                    request.program_id,
                    request.target.program_data,
                    IDL_VERIFICATION_SEED,
                    data,
                    request.metadata_program,
                ).unwrap(),
            );
        },
    }
    assert(instructions@.map_values(|i: Instruction| i@) =~= upload_instructions(
        *request,
        signer,
        address,
        data@,
        balance,
        required,
    ));
    instructions
}

/// Takes where an upload stands and what has happened, and says where it stands now and what
/// is to be done next.
pub fn upload_idl_verification_metadata(
    request: &UploadRequest,
    state: UploadState,
    event: UploadEvent,
) -> (next: Result<(UploadState, UploadAction), UploadFault>)
    requires
        state matches UploadState::AwaitingAccount { data, .. } ==> data@.len()
            + METADATA_HEADER_LENGTH <= usize::MAX,
    ensures
        match next {
            Ok(pair) => upload_step(*request, state@, event) == Ok::<_, UploadFault>(
                (pair.0@, pair.1@),
            ),
            Err(fault) => upload_step(*request, state@, event) == Err::<
                (UploadStateView, UploadActionView),
                _,
            >(fault),
        },
{
    match (state, event) {
        (UploadState::Start, UploadEvent::Begin) => match request.metadata.validate() {
            Err(fault) => Err(UploadFault::Metadata(fault)),
            Ok(()) => if request.skip_prompt {
                Ok((UploadState::AwaitingSigner, UploadAction::LoadSigner))
            } else {
                Ok((UploadState::AwaitingAnswer, UploadAction::Ask))
            },
        },
        (UploadState::AwaitingAnswer, UploadEvent::Answer(yes)) => if yes {
            Ok((UploadState::AwaitingSigner, UploadAction::LoadSigner))
        } else {
            let address = find_upload_address(request)?;
            Ok((UploadState::Finished, UploadAction::Stop(address)))
        },
        (UploadState::AwaitingSigner, UploadEvent::Signer(signer)) => {
            if signer != request.target.authority {
                return Err(UploadFault::WrongSigner);
            }
            let address = find_upload_address(request)?;
            let data = match request.metadata.to_pretty_json_bytes() {
                Ok(text) => text,
                Err(fault) => return Err(UploadFault::Metadata(fault)),
            };
            Ok(
                (
                    UploadState::AwaitingAccount { signer, address, data },
                    UploadAction::FetchAccount(address),
                ),
            )
        },
        (
            UploadState::AwaitingAccount { signer, address, data },
            UploadEvent::Fetched(found),
        ) => {
            let length = METADATA_HEADER_LENGTH + data.len();
            let balance = match &found {
                None => None,
                Some(existing) => {
                    check_existing(request, existing)?;
                    Some(existing.lamports)
                },
            };
            Ok(
                (
                    UploadState::AwaitingRent { signer, address, data, balance },
                    UploadAction::FetchRent(length),
                ),
            )
        },
        (
            UploadState::AwaitingRent { signer, address, data, balance },
            UploadEvent::Rent(required),
        ) => {
            let instructions = plan_upload(request, signer, address, &data, balance, required);
            Ok(
                (
                    UploadState::Finished,
                    UploadAction::Send { address, creates: balance.is_none(), instructions },
                ),
            )
        },
        _ => Err(UploadFault::OutOfTurn),
    }
}

/// Where an upload stands after all of `events`, and what the last of them asked to be done.
pub open spec fn upload_run(request: UploadRequest, events: Seq<UploadEvent>) -> Result<
    (UploadStateView, Option<UploadActionView>),
    UploadFault,
>
    decreases events.len(),
{
    if events.len() == 0 {
        Ok((UploadStateView::Start, None))
    } else {
        match upload_run(request, events.drop_last()) {
            Err(fault) => Err(fault),
            Ok(before) => match upload_step(request, before.0, events.last()) {
                Err(fault) => Err(fault),
                Ok(after) => Ok((after.0, Some(after.1))),
            },
        }
    }
}

/// Among `events` an account was fetched that may be written and holds `lamports`.
pub open spec fn writable_account_fetched(
    request: UploadRequest,
    events: Seq<UploadEvent>,
    lamports: u64,
) -> bool {
    exists|i: int, existing: ExistingAccount|
        {
            &&& 0 <= i < events.len()
            &&& #[trigger] events[i] == UploadEvent::Fetched(Some(existing))
            &&& #[trigger] existing_fault(request, existing) is None
            &&& existing.lamports == lamports
        }
}

/// What holds wherever an upload stands: from the key on, the signer, the address and the text
/// are those of the request.
proof fn lemma_upload_state(request: UploadRequest, events: Seq<UploadEvent>)
    requires
        upload_run(request, events) is Ok,
    ensures
        match upload_run(request, events)->Ok_0.0 {
            UploadStateView::AwaitingAccount { signer, address, data } => {
                &&& request.metadata.fault() is None
                &&& signer == request.target.authority
                &&& upload_address(request) == Some(address)
                &&& request.metadata.json() == data
            },
            UploadStateView::AwaitingRent { signer, address, data, balance } => {
                &&& request.metadata.fault() is None
                &&& signer == request.target.authority
                &&& upload_address(request) == Some(address)
                &&& request.metadata.json() == data
                &&& balance is Some ==> writable_account_fetched(request, events, balance->0)
            },
            _ => true,
        },
    decreases events.len(),
{
    if events.len() > 0 {
        lemma_upload_state(request, events.drop_last());
        match (upload_run(request, events.drop_last())->Ok_0.0, events.last()) {
            (
                UploadStateView::AwaitingAccount { .. },
                UploadEvent::Fetched(Some(existing)),
            ) => {
                assert(events[events.len() - 1] == UploadEvent::Fetched(Some(existing)));
                assert(existing_fault(request, existing) is None);
            },
            _ => {},
        }
    }
}

/// An upload sends only a valid record, as its JSON text, to the account that the request
/// leads to, on behalf of the target's authority. It updates an account only where one was
/// fetched that may be written.
pub proof fn law_upload_sends_checked_record(
    request: UploadRequest,
    events: Seq<UploadEvent>,
    state: UploadStateView,
    address: Address,
    creates: bool,
    instructions: Seq<InstructionView>,
)
    requires
        upload_run(request, events) == Ok::<_, UploadFault>(
            (state, Some(UploadActionView::Send { address, creates, instructions })),
        ),
    ensures
        state == UploadStateView::Finished,
        request.metadata.fault() is None,
        upload_address(request) == Some(address),
        creates ==> instructions.last() == crate::instruction::initialize(
            address,
            request.target.authority,
            request.program_id,
            request.target.program_data,
            IDL_VERIFICATION_SEED@,
            request.metadata.json(),
            request.metadata_program,
        ),
        !creates ==> instructions.last() == crate::instruction::set_data(
            address,
            request.target.authority,
            request.program_id,
            request.target.program_data,
            request.metadata.json(),
            request.metadata_program,
        ),
        !creates ==> exists|lamports: u64| writable_account_fetched(request, events, lamports),
{
    let before = events.drop_last();
    lemma_upload_state(request, before);
    match upload_run(request, before)->Ok_0.0 {
        UploadStateView::AwaitingRent { signer, address, data, balance } => {
            if balance is Some {
                let (i, existing) = choose|i: int, existing: ExistingAccount|
                    {
                        &&& 0 <= i < before.len()
                        &&& #[trigger] before[i] == UploadEvent::Fetched(Some(existing))
                        &&& #[trigger] existing_fault(request, existing) is None
                        &&& existing.lamports == balance->0
                    };
                assert(events[i] == UploadEvent::Fetched(Some(existing)));
                assert(writable_account_fetched(request, events, balance->0));
            }
        },
        _ => {},
    }
}

/// An upload of a valid record that the user agrees to, or is not asked about, is sent: the
/// authority's key, an account that is missing or may be written, and the rent are all it takes.
pub proof fn law_agreed_upload_is_sent(
    request: UploadRequest,
    address: Address,
    found: Option<ExistingAccount>,
    required: u64,
)
    requires
        request.metadata.fault() is None,
        upload_address(request) == Some(address),
        found is Some ==> existing_fault(request, found->0) is None,
    ensures
        ({
            let signer = request.target.authority;
            let asked = if request.skip_prompt {
                Seq::empty()
            } else {
                seq![UploadEvent::Answer(true)]
            };
            let events = seq![UploadEvent::Begin] + asked + seq![
                UploadEvent::Signer(signer),
                UploadEvent::Fetched(found),
                UploadEvent::Rent(required),
            ];
            let balance = match found {
                Some(existing) => Some(existing.lamports),
                None => None,
            };
            upload_run(request, events) == Ok::<_, UploadFault>(
                (
                    UploadStateView::Finished,
                    Some(
                        UploadActionView::Send {
                            address,
                            creates: found is None,
                            instructions: upload_instructions(
                                request,
                                signer,
                                address,
                                request.metadata.json(),
                                balance,
                                required,
                            ),
                        },
                    ),
                ),
            )
        }),
{
    let signer = request.target.authority;
    let asked = if request.skip_prompt {
        Seq::empty()
    } else {
        seq![UploadEvent::Answer(true)]
    };
    let begun = seq![UploadEvent::Begin];
    let agreed = begun + asked;
    let signed = agreed.push(UploadEvent::Signer(signer));
    let fetched = signed.push(UploadEvent::Fetched(found));
    let paid = fetched.push(UploadEvent::Rent(required));
    assert(paid =~= begun + asked + seq![
        UploadEvent::Signer(signer),
        UploadEvent::Fetched(found),
        UploadEvent::Rent(required),
    ]);
    assert(begun.drop_last() =~= Seq::empty());
    assert(upload_run(request, begun.drop_last()) is Ok);
    assert(upload_run(request, begun) is Ok);
    if request.skip_prompt {
        assert(agreed =~= begun);
    } else {
        assert(agreed.drop_last() =~= begun);
        assert(agreed.last() == UploadEvent::Answer(true));
    }
    assert(upload_run(request, agreed)->Ok_0.0 == UploadStateView::AwaitingSigner);
    assert(signed.drop_last() =~= agreed);
    assert(upload_run(request, signed)->Ok_0.0 == UploadStateView::AwaitingAccount {
        signer,
        address,
        data: request.metadata.json(),
    });
    assert(fetched.drop_last() =~= signed);
    assert(upload_run(request, fetched)->Ok_0.0 is AwaitingRent);
    assert(paid.drop_last() =~= fetched);
}

/// Nothing happens in an upload that is finished.
pub proof fn law_finished_upload_stays_finished(request: UploadRequest, event: UploadEvent)
    ensures
        upload_step(request, UploadStateView::Finished, event) == Err::<
            (UploadStateView, UploadActionView),
            _,
        >(UploadFault::OutOfTurn),
{
}

/// Once the user declines, nothing is sent: the upload stops there and takes no more events.
pub proof fn law_declined_upload_sends_nothing(
    request: UploadRequest,
    events: Seq<UploadEvent>,
    at: int,
)
    requires
        0 <= at < events.len(),
        events[at] == UploadEvent::Answer(false),
    ensures
        match upload_run(request, events) {
            Ok(end) => {
                &&& at == events.len() - 1
                &&& end.0 == UploadStateView::Finished
                &&& upload_address(request) matches Some(address) && end.1 == Some(
                    UploadActionView::Stop(address),
                )
            },
            Err(_) => true,
        },
    decreases events.len(),
{
    if at < events.len() - 1 {
        law_declined_upload_sends_nothing(request, events.drop_last(), at);
    }
}

/// An update tops the account up to exactly what it must hold, and moves nothing where it holds
/// enough.
pub proof fn law_update_tops_up_to_required(
    request: UploadRequest,
    signer: Address,
    address: Address,
    data: Seq<u8>,
    lamports: u64,
    required: u64,
)
    ensures
        ({
            let instructions = upload_instructions(
                request,
                signer,
                address,
                data,
                Some(lamports),
                required,
            );
            let at = if request.compute_unit_price > 0 { 1int } else { 0int };
            &&& lamports < required ==> {
                &&& instructions.len() == at + 2
                &&& exists|moved: u64|
                    {
                        &&& lamports + moved == required
                        &&& instructions[at] == #[trigger] crate::instruction::transfer(
                            signer,
                            address,
                            moved,
                        )
                    }
            }
            &&& lamports >= required ==> instructions.len() == at + 1
        }),
{
    if lamports < required {
        let moved = (required - lamports) as u64;
        let instructions = upload_instructions(
            request,
            signer,
            address,
            data,
            Some(lamports),
            required,
        );
        let at = if request.compute_unit_price > 0 { 1int } else { 0int };
        assert(instructions[at] == crate::instruction::transfer(signer, address, moved));
    }
}

/// What an upload writes is what is read: an account that keeps the four descriptive bytes and
/// the content that the upload's instructions carry has the record's JSON text as its content,
/// with nothing to be fetched elsewhere.
pub proof fn law_uploaded_record_reads_back(
    request: UploadRequest,
    stored: Metadata,
    padding: Seq<u8>,
    rest: Seq<u8>,
)
    requires
        seq![
            crate::instruction::encoding_tag(stored.encoding),
            crate::instruction::compression_tag(stored.compression),
            crate::instruction::format_tag(stored.format),
            crate::instruction::data_source_tag(stored.data_source),
        ] == crate::instruction::json_header(),
        padding.len() == crate::content::METADATA_HEADER_PADDING,
        stored.data_length == request.metadata.json().len(),
        stored.data@ == padding + request.metadata.json() + rest,
    ensures
        crate::content::content_step(stored) == Ok::<_, crate::content::ContentFault>(
            crate::content::ContentStepView::Done(request.metadata.json()),
        ),
{
    let tags = seq![
        crate::instruction::encoding_tag(stored.encoding),
        crate::instruction::compression_tag(stored.compression),
        crate::instruction::format_tag(stored.format),
        crate::instruction::data_source_tag(stored.data_source),
    ];
    let header = crate::instruction::json_header();
    assert(tags[0] == header[0]);
    assert(tags[1] == header[1]);
    assert(tags[3] == header[3]);
    crate::content::law_direct_content_reads_back(
        stored,
        padding,
        request.metadata.json(),
        rest,
    );
}

/// An existing account may be written exactly where the metadata program owns it and it holds
/// metadata that may be changed, whatever its balance is. Otherwise the first reason in this
/// order is told.
pub proof fn law_existing_account_is_told_by_owner_and_mutability(
    request: UploadRequest,
    existing: ExistingAccount,
)
    ensures
        ({
            let fault = existing_fault(request, existing);
            let owned = existing.owner == request.metadata_program;
            &&& fault is None <==> owned && existing.mutable == Some(true)
            &&& fault == Some(UploadFault::NotOwned) <==> !owned
            &&& fault == Some(UploadFault::Undecodable) <==> owned && existing.mutable is None
            &&& fault == Some(UploadFault::Immutable) <==> owned && existing.mutable == Some(false)
        }),
{
}

/// The sixteen bytes of the seed of the uploaded account.
proof fn lemma_upload_seed_bytes()
    ensures
        crate::target::padded_seed(IDL_VERIFICATION_SEED@) == seq![
            105u8, 100, 108, 45, 118, 101, 114, 105, 102, 105, 99, 97, 116, 105, 111, 110,
        ],
{
    reveal_strlit("idl-verification");
    vstd::utf8::is_ascii_chars_encode_utf8(IDL_VERIFICATION_SEED@);
    assert(crate::target::padded_seed(IDL_VERIFICATION_SEED@) =~= seq![
        105u8, 100, 108, 45, 118, 101, 114, 105, 102, 105, 99, 97, 116, 105, 111, 110,
    ]);
}

/// An upload writes to the address that the metadata program derives from the program, the
/// target's authority unless it is canonical, and the sixteen bytes of `idl-verification`. It
/// has an address wherever that program derives one.
pub proof fn law_upload_address_is_derived(request: UploadRequest, address: Address)
    ensures
        ({
            let seed = seq![
                105u8, 100, 108, 45, 118, 101, 114, 105, 102, 105, 99, 97, 116, 105, 111, 110,
            ];
            let seeds = if request.target.canonical {
                seq![request.program_id@, seed]
            } else {
                seq![request.program_id@, request.target.authority@, seed]
            };
            let found = crate::address::found_program_address(seeds, request.metadata_program@);
            &&& found is None <==> upload_address(request) is None
            &&& found matches Some(pair) ==> (pair.0 == address@ ==> upload_address(request)
                == Some(address))
        }),
{
    lemma_upload_seed_bytes();
    crate::target::law_account_address_is_derived_from_seeds(
        request.target,
        request.program_id,
        IDL_VERIFICATION_SEED@,
        request.metadata_program,
    );
    crate::address::law_address_at_is_subrange(address@, 0);
    assert(address@.subrange(0, 32) =~= address@);
    crate::address::law_address_is_its_bytes(address, crate::address::address_at(address@, 0));
}

/// All that can have happened in an upload that has not failed. There is one order: it begins,
/// the user agrees unless there is no need to ask, the authority's key is loaded, the account is
/// fetched, and the rent. In between stands what each event asked to be done.
#[verifier::spinoff_prover]
#[verifier::rlimit(30)]
pub proof fn law_upload_has_one_order(request: UploadRequest, events: Seq<UploadEvent>)
    requires
        upload_run(request, events) is Ok,
    ensures
        ({
            let state = upload_run(request, events)->Ok_0.0;
            let action = upload_run(request, events)->Ok_0.1;
            let agreed = if request.skip_prompt {
                seq![UploadEvent::Begin]
            } else {
                seq![UploadEvent::Begin, UploadEvent::Answer(true)]
            };
            let signed = agreed.push(UploadEvent::Signer(request.target.authority));
            let at = signed.len() as int;
            &&& events.len() > 0 ==> request.metadata.fault() is None
            &&& match state {
                UploadStateView::Start => events.len() == 0 && action is None,
                UploadStateView::AwaitingAnswer => {
                    &&& !request.skip_prompt
                    &&& events == seq![UploadEvent::Begin]
                    &&& action == Some(UploadActionView::Ask)
                },
                UploadStateView::AwaitingSigner => {
                    &&& events == agreed
                    &&& action == Some(UploadActionView::LoadSigner)
                },
                UploadStateView::AwaitingAccount { signer, address, data } => {
                    &&& events == signed
                    &&& signer == request.target.authority
                    &&& upload_address(request) == Some(address)
                    &&& data == request.metadata.json()
                    &&& action == Some(UploadActionView::FetchAccount(address))
                },
                UploadStateView::AwaitingRent { signer, address, data, balance } => {
                    &&& events.len() == at + 1
                    &&& events.subrange(0, at) == signed
                    &&& signer == request.target.authority
                    &&& upload_address(request) == Some(address)
                    &&& data == request.metadata.json()
                    &&& events[at] matches UploadEvent::Fetched(found) && {
                        &&& found is None <==> balance is None
                        &&& found matches Some(existing) ==> {
                            &&& existing.owner == request.metadata_program
                            &&& existing.mutable == Some(true)
                            &&& balance == Some(existing.lamports)
                        }
                    }
                    &&& action == Some(UploadActionView::FetchRent(96 + data.len() as int))
                },
                UploadStateView::Finished => {
                    ||| {
                        &&& !request.skip_prompt
                        &&& events == seq![UploadEvent::Begin, UploadEvent::Answer(false)]
                        &&& upload_address(request) is Some
                        &&& action == Some(UploadActionView::Stop(upload_address(request)->0))
                    }
                    ||| {
                        &&& events.len() == at + 2
                        &&& events.subrange(0, at) == signed
                        &&& events[at] is Fetched
                        &&& events[at + 1] is Rent
                        &&& action is Some
                        &&& action->0 is Send
                    }
                },
            }
        }),
    decreases events.len(),
{
    if events.len() > 0 {
        let before = events.drop_last();
        law_upload_has_one_order(request, before);
        let agreed = if request.skip_prompt {
            seq![UploadEvent::Begin]
        } else {
            seq![UploadEvent::Begin, UploadEvent::Answer(true)]
        };
        let signed = agreed.push(UploadEvent::Signer(request.target.authority));
        let at = signed.len() as int;
        assert(events =~= before.push(events.last()));
        match upload_run(request, before)->Ok_0.0 {
            UploadStateView::Start => {
                assert(events =~= seq![UploadEvent::Begin]);
            },
            UploadStateView::AwaitingAnswer => {
                assert(events =~= seq![UploadEvent::Begin, events.last()]);
            },
            UploadStateView::AwaitingSigner => {
                assert(events =~= agreed.push(events.last()));
            },
            UploadStateView::AwaitingAccount { .. } => {
                assert(events.subrange(0, at) =~= signed);
                assert(events[at] == events.last());
            },
            UploadStateView::AwaitingRent { .. } => {
                assert(events.subrange(0, at) =~= before.subrange(0, at));
                assert(events[at] == before[at]);
                assert(events[at + 1] == events.last());
            },
            UploadStateView::Finished => {},
        }
    }
}

/// Whenever an upload asks for rent, whether an account was found in place or not, it asks for
/// the whole of the account: the 96 bytes of its header and all bytes of the record's JSON text.
pub proof fn law_rent_is_asked_for_whole_account(
    request: UploadRequest,
    events: Seq<UploadEvent>,
    state: UploadStateView,
    length: int,
)
    requires
        upload_run(request, events) == Ok::<_, UploadFault>(
            (state, Some(UploadActionView::FetchRent(length))),
        ),
    ensures
        length == 96 + request.metadata.json().len(),
        length == METADATA_HEADER_LENGTH + request.metadata.json().len(),
{
    law_upload_has_one_order(request, events);
}

/// What is sent are the instructions for the account that was fetched and the rent.
proof fn lemma_sent_instructions(
    request: UploadRequest,
    events: Seq<UploadEvent>,
    state: UploadStateView,
    address: Address,
    creates: bool,
    instructions: Seq<InstructionView>,
)
    requires
        upload_run(request, events) == Ok::<_, UploadFault>(
            (state, Some(UploadActionView::Send { address, creates, instructions })),
        ),
    ensures
        upload_address(request) == Some(address),
        events.len() >= 2,
        events.last() is Rent,
        events[events.len() - 2] is Fetched,
        creates <==> events[events.len() - 2] == UploadEvent::Fetched(None),
        events[events.len() - 2]->Fetched_0 matches Some(existing) ==> existing.owner
            == request.metadata_program && existing.mutable == Some(true),
        instructions == upload_instructions(
            request,
            request.target.authority,
            address,
            request.metadata.json(),
            match events[events.len() - 2]->Fetched_0 {
                Some(existing) => Some(existing.lamports),
                None => None,
            },
            events.last()->Rent_0,
        ),
{
    let before = events.drop_last();
    law_upload_has_one_order(request, before);
    law_upload_has_one_order(request, events);
    assert(before[events.len() - 2] == events[events.len() - 2]);
}

/// What an upload sends funds the account. The price of compute units comes first where one is
/// set. An account that is created is given the whole rent; one that is updated, which the
/// metadata program must own and which must be open to change, is given what it lacks of the
/// rent, and nothing where it lacks none. The authority pays, and one more call follows.
#[verifier::spinoff_prover]
#[verifier::rlimit(30)]
pub proof fn law_sent_transaction_funds_account(
    request: UploadRequest,
    events: Seq<UploadEvent>,
    state: UploadStateView,
    address: Address,
    creates: bool,
    instructions: Seq<InstructionView>,
)
    requires
        upload_run(request, events) == Ok::<_, UploadFault>(
            (state, Some(UploadActionView::Send { address, creates, instructions })),
        ),
    ensures
        upload_address(request) == Some(address),
        events.len() >= 2,
        events.last() is Rent,
        events[events.len() - 2] is Fetched,
        creates <==> events[events.len() - 2] == UploadEvent::Fetched(None),
        events[events.len() - 2]->Fetched_0 matches Some(existing) ==> existing.owner
            == request.metadata_program && existing.mutable == Some(true),
        ({
            let required = events.last()->Rent_0;
            let held = match events[events.len() - 2]->Fetched_0 {
                Some(existing) => existing.lamports as int,
                None => 0,
            };
            let price = if request.compute_unit_price > 0 {
                1int
            } else {
                0int
            };
            let funds = if creates || held < required {
                1int
            } else {
                0int
            };
            let funding = instructions[price];
            &&& instructions.len() == price + funds + 1
            &&& price == 1 ==> {
                &&& instructions[0].program_id@ == crate::instruction::compute_budget()
                &&& instructions[0].accounts.len() == 0
                &&& instructions[0].data.len() == 9
                &&& instructions[0].data[0] == 3
                &&& crate::bytes::le_u64(instructions[0].data, 1) == request.compute_unit_price
            }
            &&& funds == 1 ==> {
                &&& forall|i: int| 0 <= i < 32 ==> #[trigger] funding.program_id@[i] == 0
                &&& funding.data.len() == 12
                &&& crate::bytes::le_u32(funding.data, 0) == 2
                &&& held + crate::bytes::le_u64(funding.data, 4) == required
                &&& funding.accounts.len() == 2
                &&& funding.accounts[0].pubkey == request.target.authority
                &&& funding.accounts[0].is_signer
                &&& funding.accounts[1].pubkey == address
            }
        }),
{
    lemma_sent_instructions(request, events, state, address, creates, instructions);
    let required = events.last()->Rent_0;
    let held = match events[events.len() - 2]->Fetched_0 {
        Some(existing) => existing.lamports as int,
        None => 0,
    };
    let authority = request.target.authority;
    let price = if request.compute_unit_price > 0 {
        1int
    } else {
        0int
    };
    crate::instruction::law_compute_unit_price_carries_price(request.compute_unit_price);
    if creates || held < required {
        let moved = (required - held) as u64;
        assert(instructions[price] == crate::instruction::transfer(authority, address, moved));
        crate::instruction::law_transfer_moves_between_accounts(authority, address, moved);
    }
}

/// What an upload sends ends with the call that writes the record. It goes to the metadata
/// program, changes the account, has the authority sign, describes the content as plain JSON
/// text, and carries the whole text; where it creates the account it carries the seed too.
#[verifier::spinoff_prover]
#[verifier::rlimit(30)]
pub proof fn law_sent_transaction_writes_record(
    request: UploadRequest,
    events: Seq<UploadEvent>,
    state: UploadStateView,
    address: Address,
    creates: bool,
    instructions: Seq<InstructionView>,
)
    requires
        upload_run(request, events) == Ok::<_, UploadFault>(
            (state, Some(UploadActionView::Send { address, creates, instructions })),
        ),
    ensures
        ({
            let writing = instructions.last();
            let program_data = request.target.program_data;
            &&& writing.program_id == request.metadata_program
            &&& writing.accounts.len() == 5
            &&& writing.accounts[0].pubkey == address && writing.accounts[0].is_writable
            &&& writing.accounts[1].pubkey == request.target.authority
            &&& writing.accounts[1].is_signer
            &&& creates ==> {
                &&& writing.data.len() == 21 + request.metadata.json().len()
                &&& writing.data[0] == 1
                &&& writing.data.subrange(1, 17) == seq![
                    105u8, 100, 108, 45, 118, 101, 114, 105, 102, 105, 99, 97, 116, 105, 111, 110,
                ]
                &&& writing.data.subrange(17, 21) == seq![1u8, 0, 1, 0]
                &&& writing.data.skip(21) == request.metadata.json()
                &&& writing.accounts[2].pubkey == request.program_id
                &&& program_data is Some ==> writing.accounts[3].pubkey == program_data->0
                &&& program_data is None ==> writing.accounts[3].pubkey == request.metadata_program
            }
            &&& !creates ==> {
                &&& writing.data.len() == 5 + request.metadata.json().len()
                &&& writing.data[0] == 3
                &&& writing.data.subrange(1, 5) == seq![1u8, 0, 1, 0]
                &&& writing.data.skip(5) == request.metadata.json()
                &&& writing.accounts[2].pubkey == request.metadata_program
                &&& program_data is Some ==> writing.accounts[3].pubkey == request.program_id
                    && writing.accounts[4].pubkey == program_data->0
                &&& program_data is None ==> writing.accounts[3].pubkey == request.metadata_program
                    && writing.accounts[4].pubkey == request.metadata_program
            }
        }),
{
    lemma_sent_instructions(request, events, state, address, creates, instructions);
    lemma_upload_seed_bytes();
    crate::instruction::law_json_header_describes_plain_json(
        crate::account::Encoding::Utf8,
        crate::account::Compression::Uncompressed,
        crate::account::Format::Json,
        crate::account::DataSource::Direct,
    );
    let json = request.metadata.json();
    let program_data = request.target.program_data;
    let authority = request.target.authority;
    let program = request.program_id;
    let metadata_program = request.metadata_program;
    if creates {
        crate::instruction::law_initialize_carries_content(
            address,
            authority,
            program,
            program_data,
            IDL_VERIFICATION_SEED@,
            json,
            metadata_program,
        );
        crate::instruction::law_initialize_changes_only_metadata_account(
            address,
            authority,
            program,
            program_data,
            IDL_VERIFICATION_SEED@,
            json,
            metadata_program,
        );
    } else {
        crate::instruction::law_set_data_carries_content(
            address,
            authority,
            program,
            program_data,
            json,
            metadata_program,
        );
        crate::instruction::law_set_data_changes_only_metadata_account(
            address,
            authority,
            program,
            program_data,
            json,
            metadata_program,
        );
    }
}

/// An upload of a valid record gets as far as what happens lets it: it asks unless there is no
/// need, loads the key once that is settled, fetches the account for the authority's key,
/// fetches the rent where no account is in place or the metadata program owns one that may be
/// changed, and then sends, whatever the rent, the balance and the length of the record are.
#[verifier::spinoff_prover]
#[verifier::rlimit(30)]
pub proof fn law_upload_goes_on_while_all_is_well(
    request: UploadRequest,
    address: Address,
    found: Option<ExistingAccount>,
    required: u64,
)
    requires
        request.metadata.fault() is None,
        upload_address(request) == Some(address),
        found matches Some(existing) ==> existing.owner == request.metadata_program
            && existing.mutable == Some(true),
    ensures
        ({
            let begun = seq![UploadEvent::Begin];
            let agreed = if request.skip_prompt {
                begun
            } else {
                begun.push(UploadEvent::Answer(true))
            };
            let signed = agreed.push(UploadEvent::Signer(request.target.authority));
            let fetched = signed.push(UploadEvent::Fetched(found));
            let paid = fetched.push(UploadEvent::Rent(required));
            &&& !request.skip_prompt ==> upload_run(request, begun) == Ok::<_, UploadFault>(
                (UploadStateView::AwaitingAnswer, Some(UploadActionView::Ask)),
            )
            &&& upload_run(request, agreed) == Ok::<_, UploadFault>(
                (UploadStateView::AwaitingSigner, Some(UploadActionView::LoadSigner)),
            )
            &&& upload_run(request, signed) matches Ok(end) && end.1 == Some(
                UploadActionView::FetchAccount(address),
            )
            &&& upload_run(request, fetched) matches Ok(end) && end.1 == Some(
                UploadActionView::FetchRent(96 + request.metadata.json().len() as int),
            )
            &&& upload_run(request, paid) matches Ok(end) && end.1 is Some && end.1->0 is Send
                && end.1->0->Send_address == address && end.1->0->creates == (found is None)
            &&& !request.skip_prompt ==> upload_run(
                request,
                begun.push(UploadEvent::Answer(false)),
            ) == Ok::<_, UploadFault>(
                (UploadStateView::Finished, Some(UploadActionView::Stop(address))),
            )
        }),
{
    let begun = seq![UploadEvent::Begin];
    let agreed = if request.skip_prompt {
        begun
    } else {
        begun.push(UploadEvent::Answer(true))
    };
    let signed = agreed.push(UploadEvent::Signer(request.target.authority));
    let fetched = signed.push(UploadEvent::Fetched(found));
    let paid = fetched.push(UploadEvent::Rent(required));
    assert(begun.drop_last() =~= Seq::empty());
    assert(upload_run(request, begun.drop_last()) is Ok);
    assert(upload_run(request, begun) is Ok);
    if !request.skip_prompt {
        assert(agreed.drop_last() =~= begun);
        assert(agreed.last() == UploadEvent::Answer(true));
        let declined = begun.push(UploadEvent::Answer(false));
        assert(declined.drop_last() =~= begun);
        assert(declined.last() == UploadEvent::Answer(false));
    }
    assert(upload_run(request, agreed) is Ok);
    assert(signed.drop_last() =~= agreed);
    assert(upload_run(request, signed) is Ok);
    assert(fetched.drop_last() =~= signed);
    assert(upload_run(request, fetched) is Ok);
    assert(paid.drop_last() =~= fetched);
    assert(upload_run(request, paid) is Ok);
}

/// What stops an upload, wherever it stands: a record that is not valid when it begins, a key
/// that is not the authority's, an account without an address, an account in place that the metadata program does not own, that
/// is no metadata, or that may not be changed.
pub proof fn law_upload_stops_at_first_fault(
    request: UploadRequest,
    signer: Address,
    address: Address,
    data: Seq<u8>,
    existing: ExistingAccount,
)
    ensures
        ({
            let refused = |fault: UploadFault|
                Err::<(UploadStateView, UploadActionView), UploadFault>(fault);
            let fetched = upload_step(
                request,
                UploadStateView::AwaitingAccount { signer, address, data },
                UploadEvent::Fetched(Some(existing)),
            );
            &&& request.metadata.fault() matches Some(fault) ==> upload_step(
                request,
                UploadStateView::Start,
                UploadEvent::Begin,
            ) == refused(UploadFault::Metadata(fault))
            &&& signer != request.target.authority ==> upload_step(
                request,
                UploadStateView::AwaitingSigner,
                UploadEvent::Signer(signer),
            ) == refused(UploadFault::WrongSigner)
            &&& upload_address(request) is None ==> {
                &&& upload_step(
                    request,
                    UploadStateView::AwaitingSigner,
                    UploadEvent::Signer(request.target.authority),
                ) == refused(UploadFault::NoProgramAddress)
                &&& upload_step(
                    request,
                    UploadStateView::AwaitingAnswer,
                    UploadEvent::Answer(false),
                ) == refused(UploadFault::NoProgramAddress)
            }
            &&& existing.owner != request.metadata_program ==> fetched == refused(
                UploadFault::NotOwned,
            )
            &&& existing.owner == request.metadata_program && existing.mutable is None ==> fetched
                == refused(UploadFault::Undecodable)
            &&& existing.owner == request.metadata_program && existing.mutable == Some(false)
                ==> fetched == refused(UploadFault::Immutable)
        }),
{
}

/// An upload takes the event that answers what it asked to be done, and no other.
pub proof fn law_upload_takes_awaited_event_only(
    request: UploadRequest,
    state: UploadStateView,
    event: UploadEvent,
)
    ensures
        upload_step(request, state, event) == Err::<(UploadStateView, UploadActionView), _>(
            UploadFault::OutOfTurn,
        ) <==> !(match state {
            UploadStateView::Start => event is Begin,
            UploadStateView::AwaitingAnswer => event is Answer,
            UploadStateView::AwaitingSigner => event is Signer,
            UploadStateView::AwaitingAccount { .. } => event is Fetched,
            UploadStateView::AwaitingRent { .. } => event is Rent,
            UploadStateView::Finished => false,
        }),
{
}

} // verus!
