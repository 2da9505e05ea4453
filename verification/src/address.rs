//! Account addresses and the addresses that programs derive from seeds.
use vstd::prelude::*;
use crate::bytes::bytes_equal;

verus! {

/// The address of an account: a public key or a program derived address.
#[derive(Debug, Clone, Copy, Eq)]
pub struct Address {
    pub bytes: [u8; 32],
}

impl View for Address {
    type V = Seq<u8>;

    open spec fn view(&self) -> Seq<u8> {
        self.bytes@
    }
}

impl PartialEq for Address {
    fn eq(&self, other: &Self) -> (same: bool) {
        let same = bytes_equal(&self.bytes, &other.bytes);
        assert(self.bytes@ == other.bytes@ ==> self.bytes =~= other.bytes);
        same
    }
}

impl vstd::std_specs::cmp::PartialEqSpecImpl for Address {
    open spec fn obeys_eq_spec() -> bool {
        true
    }

    open spec fn eq_spec(&self, other: &Self) -> bool {
        *self == *other
    }
}

/// Two addresses with the same bytes are the same address.
pub proof fn law_address_is_its_bytes(left: Address, right: Address)
    ensures
        left@ == right@ <==> left == right,
{
    assert(left@ == right@ ==> left.bytes =~= right.bytes);
}

/// The address of which every byte is zero.
pub open spec fn zero_address() -> Address {
    address_at(Seq::new(32, |i: int| 0u8), 0)
}

/// The address that fills the 32 bytes of `data` from `at` on.
pub open spec fn address_at(data: Seq<u8>, at: int) -> Address {
    Address {
        bytes: [
            data[at], data[at + 1], data[at + 2], data[at + 3],
            data[at + 4], data[at + 5], data[at + 6], data[at + 7],
            data[at + 8], data[at + 9], data[at + 10], data[at + 11],
            data[at + 12], data[at + 13], data[at + 14], data[at + 15],
            data[at + 16], data[at + 17], data[at + 18], data[at + 19],
            data[at + 20], data[at + 21], data[at + 22], data[at + 23],
            data[at + 24], data[at + 25], data[at + 26], data[at + 27],
            data[at + 28], data[at + 29], data[at + 30], data[at + 31],
        ],
    }
}

/// The bytes of the address at `at` are those of `data` from `at` on.
pub proof fn law_address_at_is_subrange(data: Seq<u8>, at: int)
    requires
        0 <= at,
        at + 32 <= data.len(),
    ensures
        address_at(data, at)@ == data.subrange(at, at + 32),
{
    assert(address_at(data, at)@ =~= data.subrange(at, at + 32));
}

/// Reads the address that fills the 32 bytes from `at` on.
pub fn read_address(data: &[u8], at: usize) -> (address: Address)
    requires
        at + 32 <= data@.len(),
    ensures
        address == address_at(data@, at as int),
{
    let mut bytes: [u8; 32] = [0u8; 32];
    for i in 0..32usize
        invariant
            at + 32 <= data.len(),
            forall|j: int| 0 <= j < i ==> bytes@[j] == data@[at + j],
    {
        bytes[i] = data[at + i];
    }
    proof {
        law_address_at_is_subrange(data@, at as int);
        assert(bytes@ =~= data@.subrange(at as int, at + 32));
        law_address_is_its_bytes(Address { bytes }, address_at(data@, at as int));
    }
    Address { bytes }
}

/// What `Address::try_find_program_address` of the Solana address crate returns: the address
/// that a program derives from seeds, with the bump that takes it off the curve.
pub uninterp spec fn found_program_address(seeds: Seq<Seq<u8>>, program: Seq<u8>) -> Option<(Seq<u8>, u8)>;

/// The bytes of each seed.
pub open spec fn seed_bytes(seeds: Seq<&[u8]>) -> Seq<Seq<u8>> {
    seeds.map_values(|seed: &[u8]| seed@)
}

/// Calls `solana_address::Address::try_find_program_address`. The result is a function of the
/// seeds and of the program's address; how it is computed is left unsaid.
#[verifier::external_body]
pub(crate) fn try_find_program_address(seeds: &[&[u8]], program: &Address) -> (found: Option<(Address, u8)>)
    ensures
        found is Some <==> found_program_address(seed_bytes(seeds@), program@) is Some,
        found matches Some(pair) ==> found_program_address(seed_bytes(seeds@), program@) == Some(
            (pair.0@, pair.1),
        ),
{
    let program_id = solana_address::Address::new_from_array(program.bytes);
    solana_address::Address::try_find_program_address(seeds, &program_id)
        .map(|pair| (Address { bytes: pair.0.to_bytes() }, pair.1))
}

/// The address of the upgradeable loader, `BPFLoaderUpgradeab1e11111111111111111111111`.
pub open spec fn upgradeable_loader() -> Seq<u8> {
    seq![
        2u8, 168, 246, 145, 78, 136, 161, 176, 226, 16, 21, 62, 247, 99, 174, 43,
        0, 194, 185, 61, 22, 193, 36, 210, 192, 83, 122, 16, 4, 128, 0, 0,
    ]
}

/// The address of the second loader, `BPFLoader2111111111111111111111111111111111`.
pub open spec fn loader() -> Seq<u8> {
    seq![
        2u8, 168, 246, 145, 78, 136, 161, 110, 57, 90, 225, 40, 148, 143, 250, 105,
        86, 147, 55, 104, 24, 221, 71, 67, 82, 33, 243, 198, 0, 0, 0, 0,
    ]
}

/// The address of the first loader, `BPFLoader1111111111111111111111111111111111`.
pub open spec fn deprecated_loader() -> Seq<u8> {
    seq![
        2u8, 168, 246, 145, 78, 136, 161, 107, 189, 35, 149, 133, 95, 100, 4, 217,
        180, 244, 86, 183, 130, 27, 176, 20, 87, 73, 66, 140, 0, 0, 0, 0,
    ]
}

/// Calls `solana_sdk_ids::bpf_loader_upgradeable::id`, a constant.
#[verifier::external_body]
pub(crate) fn upgradeable_loader_id() -> (id: Address)
    ensures
        id@ == upgradeable_loader(),
{
    Address { bytes: solana_sdk_ids::bpf_loader_upgradeable::id().to_bytes() }
}

/// Calls `solana_sdk_ids::bpf_loader::id`, a constant.
#[verifier::external_body]
pub(crate) fn loader_id() -> (id: Address)
    ensures
        id@ == loader(),
{
    Address { bytes: solana_sdk_ids::bpf_loader::id().to_bytes() }
}

/// Calls `solana_sdk_ids::bpf_loader_deprecated::id`, a constant.
#[verifier::external_body]
pub(crate) fn deprecated_loader_id() -> (id: Address)
    ensures
        id@ == deprecated_loader(),
{
    Address { bytes: solana_sdk_ids::bpf_loader_deprecated::id().to_bytes() }
}

/// Calls `solana_system_interface::program::id`, a constant of which every byte is zero.
#[verifier::external_body]
pub(crate) fn system_program_id() -> (id: Address)
    ensures
        id == zero_address(),
{
    Address { bytes: solana_system_interface::program::id().to_bytes() }
}

/// Calls `to_string` on a `solana_address::Address`. The text is the base 58 form of the bytes.
#[verifier::external_body]
pub(crate) fn address_to_text(address: &Address) -> (text: String)
    ensures
        crate::codec::is_base58(text@, address@),
{
    solana_address::Address::new_from_array(address.bytes).to_string()
}

/// The zero address is 32 zero bytes.
pub proof fn law_zero_address_is_zeros(address: Address)
    ensures
        address == zero_address() <==> (forall|i: int| 0 <= i < 32 ==> #[trigger] address@[i] == 0),
{
    let zero = zero_address();
    law_address_at_is_subrange(Seq::new(32, |i: int| 0u8), 0);
    assert(forall|i: int| 0 <= i < 32 ==> #[trigger] zero@[i] == 0);
    if forall|i: int| 0 <= i < 32 ==> #[trigger] address@[i] == 0 {
        assert(address@ =~= zero@);
    }
    law_address_is_its_bytes(address, zero);
}

} // verus!
