//! The records of the registry and their stored layout: a tag for the kind of
//! record, then the fields in order. Integers are little-endian, a string and a
//! list carry their length as a 32-bit prefix.

use crate::address::Address;
use crate::category::{map_entries, Category, CategoryMap};
use vstd::bytes::{
    spec_u32_from_le_bytes, spec_u32_to_le_bytes, spec_u64_from_le_bytes, spec_u64_to_le_bytes,
};
use vstd::prelude::*;
use vstd::string::StringSliceAdditionalSpecFns;
use vstd::utf8::encode_utf8;

verus! {

/// The kind of record that a slot holds: the first byte of its data.
#[derive(Clone, Copy, Debug, PartialEq, Eq)]
pub enum AccountType {
    Uninitialized,
    Network,
    Reporter,
    Case,
}

impl AccountType {
    pub open spec fn tag(self) -> u8 {
        match self {
            AccountType::Uninitialized => 0,
            AccountType::Network => 1,
            AccountType::Reporter => 2,
            AccountType::Case => 3,
        }
    }

    pub fn tag_byte(&self) -> (tag: u8)
        ensures
            tag == self.tag(),
    {
        match self {
            AccountType::Uninitialized => 0,
            AccountType::Network => 1,
            AccountType::Reporter => 2,
            AccountType::Case => 3,
        }
    }
}

/// The standing of a reporter in its network.
#[derive(Clone, Copy, Debug, PartialEq, Eq)]
pub enum Standing {
    Inactive,
    Active,
    Revoked,
}

impl Standing {
    /// Only an active reporter may report.
    pub open spec fn permits_reporting(self) -> bool {
        self is Active
    }

    pub open spec fn at(byte: u8) -> Option<Standing> {
        if byte == 0 {
            Some(Standing::Inactive)
        } else if byte == 1 {
            Some(Standing::Active)
        } else if byte == 2 {
            Some(Standing::Revoked)
        } else {
            None
        }
    }

    pub fn from_byte(byte: u8) -> (standing: Option<Standing>)
        ensures
            standing == Standing::at(byte),
    {
        match byte {
            0 => Some(Standing::Inactive),
            1 => Some(Standing::Active),
            2 => Some(Standing::Revoked),
            _ => None,
        }
    }

    pub fn may_report(&self) -> (permitted: bool)
        ensures
            permitted == self.permits_reporting(),
    {
        match self {
            Standing::Active => true,
            _ => false,
        }
    }
}

/// The length of a stored network record.
pub const NETWORK_LEN: usize = 41;

/// The length of a stored reporter record.
pub const REPORTER_LEN: usize = 34;

/// The registry under which reporters and cases stand.
#[derive(Clone, Copy, Debug, PartialEq, Eq)]
pub struct Network {
    /// Who governs the network.
    pub authority: Address,
    /// The id that the next case gets.
    pub next_case_id: u64,
}

pub struct NetworkView {
    pub authority: Seq<u8>,
    pub next_case_id: u64,
}

impl View for Network {
    type V = NetworkView;

    open spec fn view(&self) -> NetworkView {
        NetworkView { authority: self.authority@, next_case_id: self.next_case_id }
    }
}

/// The stored bytes of a network: tag, authority, counter.
pub open spec fn network_layout(network: NetworkView) -> Seq<u8> {
    seq![AccountType::Network.tag()] + network.authority + spec_u64_to_le_bytes(
        network.next_case_id,
    )
}

/// The network that `data` holds, if it is the layout of one.
pub open spec fn network_record(data: Seq<u8>) -> Option<NetworkView> {
    if data.len() == NETWORK_LEN && data[0] == AccountType::Network.tag() {
        Some(
            NetworkView {
                authority: data.subrange(1, 33),
                next_case_id: spec_u64_from_le_bytes(data.subrange(33, 41)),
            },
        )
    } else {
        None
    }
}

/// A reporter: a caller's role in one network.
#[derive(Clone, Copy, Debug, PartialEq, Eq)]
pub struct Reporter {
    /// The identity that owns the role.
    pub key: Address,
    pub standing: Standing,
}

pub struct ReporterView {
    pub key: Seq<u8>,
    pub standing: Standing,
}

impl View for Reporter {
    type V = ReporterView;

    open spec fn view(&self) -> ReporterView {
        ReporterView { key: self.key@, standing: self.standing }
    }
}

/// The reporter that `data` holds, if it is the layout of one: tag, key,
/// standing.
pub open spec fn reporter_record(data: Seq<u8>) -> Option<ReporterView> {
    if data.len() == REPORTER_LEN && data[0] == AccountType::Reporter.tag() && Standing::at(
        data[33],
    ) is Some {
        Some(ReporterView { key: data.subrange(1, 33), standing: Standing::at(data[33])->0 })
    } else {
        None
    }
}

/// A case: what a reporter asserts of the entity that the name stands for.
#[derive(Clone, Debug, PartialEq, Eq)]
pub struct Case {
    pub name: String,
    /// The identity of the reporter that filed the case.
    pub reporter_key: Address,
    pub categories: CategoryMap,
}

pub struct CaseView {
    pub name: Seq<char>,
    pub reporter_key: Seq<u8>,
    pub categories: Map<Category, bool>,
}

impl View for Case {
    type V = CaseView;

    open spec fn view(&self) -> CaseView {
        CaseView {
            name: self.name@,
            reporter_key: self.reporter_key@,
            categories: self.categories@,
        }
    }
}

/// The stored bytes of a list of map entries: for each entry its key, then 1
/// for `true` or 0 for `false`.
pub open spec fn entries_layout(entries: Seq<(u8, bool)>) -> Seq<u8> {
    Seq::new(
        2 * entries.len(),
        |i: int|
            if i % 2 == 0 {
                entries[i / 2].0
            } else if entries[i / 2].1 {
                1u8
            } else {
                0u8
            },
    )
}

/// Whether a length can be written as a 32-bit prefix.
pub open spec fn fits_length_prefix(len: nat) -> bool {
    len <= u32::MAX
}

/// The stored bytes of a record of kind `tag` with a name, a key and a list of
/// map entries, where both lengths fit their 32-bit prefix.
pub open spec fn named_record_layout(
    tag: u8,
    name: Seq<u8>,
    key: Seq<u8>,
    entries: Seq<(u8, bool)>,
) -> Seq<u8> {
    seq![tag] + spec_u32_to_le_bytes(name.len() as u32) + name + key + spec_u32_to_le_bytes(
        entries.len() as u32,
    ) + entries_layout(entries)
}

/// The stored bytes of a case, or `None` where the name is too long for its
/// length prefix.
pub open spec fn case_layout(case: CaseView) -> Option<Seq<u8>> {
    if fits_length_prefix(encode_utf8(case.name).len()) {
        Some(
            named_record_layout(
                AccountType::Case.tag(),
                encode_utf8(case.name),
                case.reporter_key,
                map_entries(case.categories),
            ),
        )
    } else {
        None
    }
}

/// Calls `borsh::to_vec` on the tuple of a tag, a key and a counter. Borsh
/// writes the fields of a tuple in order, a byte and a byte array as they are
/// and an integer little-endian; writing into a vector does not fail.
#[verifier::external_body]
fn borsh_tag_key_counter(tag: u8, key: &[u8; 32], counter: u64) -> (bytes: Option<Vec<u8>>)
    ensures
        bytes is Some,
        bytes->0@ == seq![tag] + key@ + spec_u64_to_le_bytes(counter),
{
    borsh::to_vec(&(tag, *key, counter)).ok()
}

/// Calls `borsh::from_slice` for the tuple of a tag, a key and a counter. It
/// succeeds on exactly 41 bytes, which it reads in order.
#[verifier::external_body]
fn borsh_read_tag_key_counter(data: &[u8]) -> (fields: Option<(u8, [u8; 32], u64)>)
    ensures
        match fields {
            Some((tag, key, counter)) => {
                &&& data@.len() == 41
                &&& tag == data@[0]
                &&& key@ == data@.subrange(1, 33)
                &&& counter == spec_u64_from_le_bytes(data@.subrange(33, 41))
            },
            None => data@.len() != 41,
        },
{
    borsh::from_slice::<(u8, [u8; 32], u64)>(data).ok()
}

/// Calls `borsh::from_slice` for the tuple of a tag, a key and one more byte.
/// It succeeds on exactly 34 bytes, which it reads in order.
#[verifier::external_body]
fn borsh_read_tag_key_byte(data: &[u8]) -> (fields: Option<(u8, [u8; 32], u8)>)
    ensures
        match fields {
            Some((tag, key, byte)) => {
                &&& data@.len() == 34
                &&& tag == data@[0]
                &&& key@ == data@.subrange(1, 33)
                &&& byte == data@[33]
            },
            None => data@.len() != 34,
        },
{
    borsh::from_slice::<(u8, [u8; 32], u8)>(data).ok()
}

/// Calls `borsh::to_vec` on the tuple of a tag, a name, a key and a list of
/// map entries. Borsh writes the fields in order: the name as its UTF-8 bytes
/// and the list as its entries, each behind its length as a little-endian
/// 32-bit integer; an entry is its key and then 1 or 0 for its flag. It fails
/// where a length does not fit 32 bits.
#[verifier::external_body]
fn borsh_named_record(tag: u8, name: &str, key: &[u8; 32], entries: &Vec<(u8, bool)>) -> (bytes:
    Option<Vec<u8>>)
    ensures
        (bytes is Some) == (fits_length_prefix(name.spec_bytes().len()) && fits_length_prefix(
            entries@.len(),
        )),
        bytes matches Some(b) ==> b@ == named_record_layout(
            tag,
            name.spec_bytes(),
            key@,
            entries@,
        ),
{
    borsh::to_vec(&(tag, name, *key, entries)).ok()
}

/// The network after it has issued its counter as an id: the counter one
/// higher, the rest as it was. A network whose counter is at its last value
/// has no id to issue.
pub open spec fn next_network(network: NetworkView) -> Option<NetworkView> {
    if network.next_case_id < u64::MAX {
        Some(
            NetworkView {
                authority: network.authority,
                next_case_id: (network.next_case_id + 1) as u64,
            },
        )
    } else {
        None
    }
}

/// Issues the next case id: the id is the network's counter, and the network
/// that comes back has the counter one higher. The counter must have room
/// left.
pub fn allocate_next(network: Network) -> (issued: (u64, Network))
    requires
        network.next_case_id < u64::MAX,
    ensures
        issued.0 == network.next_case_id,
        issued.1.next_case_id == network.next_case_id + 1,
        issued.1.authority == network.authority,
        Some(issued.1@) == next_network(network@),
{
    let issued_id = network.next_case_id;
    (issued_id, Network { authority: network.authority, next_case_id: issued_id + 1 })
}

/// A stored network reads back as it was written.
pub proof fn lemma_network_round_trip(network: NetworkView)
    requires
        network.authority.len() == 32,
    ensures
        network_layout(network).len() == NETWORK_LEN,
        network_record(network_layout(network)) == Some(network),
{
    vstd::bytes::lemma_auto_spec_u64_to_from_le_bytes();
    let data = network_layout(network);
    assert(data.subrange(1, 33) =~= network.authority);
    assert(data.subrange(33, 41) =~= spec_u64_to_le_bytes(network.next_case_id));
}

/// A stored case is 81 bytes longer than its name: the tag, the two length
/// prefixes, the reporter's key and two bytes for each category.
pub proof fn lemma_case_layout_len(case: CaseView)
    requires
        case.reporter_key.len() == 32,
    ensures
        case_layout(case) matches Some(data) ==> data.len() == 81 + encode_utf8(case.name).len(),
{
    vstd::bytes::lemma_auto_spec_u32_to_from_le_bytes();
}

/// The length of the name that the stored bytes of a case give in their first
/// length prefix.
pub open spec fn stored_name_len(data: Seq<u8>) -> int {
    spec_u32_from_le_bytes(data.subrange(1, 5)) as int
}

/// The key of the entry at place `i` in the stored bytes of a case.
pub open spec fn stored_entry_key(data: Seq<u8>, i: int) -> u8 {
    data[41 + stored_name_len(data) + 2 * i]
}

/// The presence map that the stored bytes of a case hold. The entries stand
/// behind the tag, the name with its prefix, the key and their own prefix;
/// the flag of a category is the second byte of the entry at its ordinal.
pub open spec fn stored_categories(data: Seq<u8>) -> Map<Category, bool> {
    Map::total(|c: Category| data[41 + stored_name_len(data) + 2 * c.index() + 1] == 1)
}

/// The stored bytes of a case hold one entry for each of the 20 categories,
/// keyed by its ordinal, and the flags read back as the map of the case.
pub proof fn lemma_case_layout_categories(case: CaseView)
    requires
        case.reporter_key.len() == 32,
        case_layout(case) is Some,
    ensures
        ({
            let data = case_layout(case).unwrap();
            let entries = 41 + encode_utf8(case.name).len();
            &&& data.len() == entries + 40
            &&& data.subrange(entries - 4, entries as int) == spec_u32_to_le_bytes(20)
            &&& forall|i: int| 0 <= i < 20 ==> #[trigger] stored_entry_key(data, i) == i
            &&& stored_categories(data) == Map::total(|c: Category| case.categories[c])
        }),
{
    vstd::bytes::lemma_auto_spec_u32_to_from_le_bytes();
    let data = case_layout(case).unwrap();
    let name = encode_utf8(case.name);
    let entries = 41 + name.len();
    let pairs = map_entries(case.categories);
    assert(data.subrange(1, 5) =~= spec_u32_to_le_bytes(name.len() as u32));
    assert(stored_name_len(data) == name.len());
    assert(data.subrange(entries - 4, entries as int) =~= spec_u32_to_le_bytes(20));
    assert forall|i: int| 0 <= i < 20 implies #[trigger] stored_entry_key(data, i) == i by {
        assert(data[entries + 2 * i] == entries_layout(pairs)[2 * i]);
    }
    assert forall|c: Category| #[trigger]
        stored_categories(data)[c] == case.categories[c] by {
        Category::lemma_ordinals(c.index());
        let i = c.index();
        assert(data[entries + (2 * i + 1)] == entries_layout(pairs)[2 * i + 1]);
        assert(pairs[i].1 == case.categories[c]);
    }
    assert(stored_categories(data) =~= Map::total(|c: Category| case.categories[c]));
}

impl Network {
    /// The stored bytes of the network.
    pub fn encode(&self) -> (bytes: Vec<u8>)
        ensures
            bytes@ == network_layout(self@),
    {
        let tag = AccountType::Network.tag_byte();
        borsh_tag_key_counter(tag, &self.authority.bytes, self.next_case_id).unwrap()
    }

    /// Reads a network from the data of a slot.
    pub fn decode(data: &[u8]) -> (network: Option<Network>)
        ensures
            network_record(data@) == match network {
                Some(n) => Some(n@),
                None => None,
            },
    {
        match borsh_read_tag_key_counter(data) {
            Some((tag, key, counter)) => {
                if tag == AccountType::Network.tag_byte() {
                    Some(Network { authority: Address { bytes: key }, next_case_id: counter })
                } else {
                    None
                }
            },
            None => None,
        }
    }
}

impl Reporter {
    /// Reads a reporter from the data of a slot.
    pub fn decode(data: &[u8]) -> (reporter: Option<Reporter>)
        ensures
            reporter_record(data@) == match reporter {
                Some(r) => Some(r@),
                None => None,
            },
    {
        match borsh_read_tag_key_byte(data) {
            Some((tag, key, byte)) => {
                if tag != AccountType::Reporter.tag_byte() {
                    return None;
                }
                match Standing::from_byte(byte) {
                    Some(standing) => Some(Reporter { key: Address { bytes: key }, standing }),
                    None => None,
                }
            },
            None => None,
        }
    }
}

impl Case {
    /// The stored bytes of the case, or `None` where it has no encoding.
    pub fn encode(&self) -> (bytes: Option<Vec<u8>>)
        ensures
            case_layout(self@) == match bytes {
                Some(b) => Some(b@),
                None => None,
            },
    {
        let entries = self.categories.entries();
        borsh_named_record(
            AccountType::Case.tag_byte(),
            self.name.as_str(),
            &self.reporter_key.bytes,
            &entries,
        )
    }
}

} // verus!
