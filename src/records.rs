use vstd::prelude::*;

verus! {

/// A 32-byte account address (a public key or a program-derived address).
#[derive(Clone, Copy, Debug)]
pub struct Address {
    pub bytes: [u8; 32],
}

impl View for Address {
    type V = Seq<u8>;

    open spec fn view(&self) -> Seq<u8> {
        self.bytes@
    }
}

impl Address {
    /// Whether two addresses hold the same bytes.
    pub fn same_as(&self, other: &Address) -> (r: bool)
        ensures
            r == (self@ == other@),
    {
        let mut i: usize = 0;
        while i < 32
            invariant
                i <= 32,
                self@.len() == 32,
                other@.len() == 32,
                forall|j: int| 0 <= j < i ==> self@[j] == other@[j],
            decreases 32 - i,
        {
            if self.bytes[i] != other.bytes[i] {
                return false;
            }
            i = i + 1;
        }
        assert(self@ =~= other@);
        true
    }
}

/// Bytes reserved for a record's name.
pub const NAME_CAPACITY: usize = 32;

/// Bytes reserved for a metadata URI.
pub const URI_CAPACITY: usize = 64;

/// Bytes of the type tag that starts every stored record.
pub const DISCRIMINATOR_LEN: usize = 8;

/// Bytes of the length prefix stored before each string.
pub const STRING_PREFIX_LEN: usize = 4;

/// Length in bytes of the UTF-8 encoding of a string.
pub open spec fn byte_len(s: Seq<char>) -> int {
    vstd::utf8::encode_utf8(s).len() as int
}

/// Length in bytes of a string, as stored.
pub fn str_byte_len(s: &String) -> (r: usize)
    ensures
        r as int == byte_len(s@),
{
    s.as_str().as_bytes().len()
}

/// The singleton registry: who owns the program and how many templates and
/// events exist.
#[derive(Clone, Copy, Debug)]
pub struct ProgramState {
    pub authority: Address,
    pub template_count: u64,
    pub event_count: u64,
}

impl ProgramState {
    pub const LEN: usize = 8 + 32 + 8 + 8;
}

/// An issuance template from which NFTs are minted.
#[derive(Clone, Debug)]
pub struct Template {
    pub name: String,
    pub base_balance: u64,
    pub price: u64,
    pub discount: u8,
    pub is_vip: bool,
    pub metadata_uri: String,
    pub active: bool,
    pub authority: Address,
}

impl Template {
    pub const LEN: usize = 8 + 4 + 32 + 8 + 8 + 1 + 1 + 4 + 64 + 1 + 32;

    /// Record invariant: a non-empty name that fits its reserved space, a
    /// URI that fits its reserved space, a discount of at most 100 percent.
    pub open spec fn wf(&self) -> bool {
        &&& 0 < self.name@.len()
        &&& byte_len(self.name@) <= NAME_CAPACITY
        &&& byte_len(self.metadata_uri@) <= URI_CAPACITY
        &&& self.discount <= 100
    }
}

/// A redeemable event with capacity bookkeeping.
#[derive(Clone, Debug)]
pub struct Event {
    pub name: String,
    pub price: u64,
    pub capacity: u32,
    pub sold_count: u32,
    pub active: bool,
    pub event_type: u8,
    pub authority: Address,
}

impl Event {
    pub const LEN: usize = 8 + 4 + 32 + 8 + 4 + 4 + 1 + 1 + 32;

    /// Record invariant: a non-empty name that fits its reserved space, a
    /// positive capacity that the sold count never exceeds.
    pub open spec fn wf(&self) -> bool {
        &&& 0 < self.name@.len()
        &&& byte_len(self.name@) <= NAME_CAPACITY
        &&& 0 < self.capacity
        &&& self.sold_count <= self.capacity
    }
}

/// The spendable balance tied to one token holding.
#[derive(Clone, Copy, Debug)]
pub struct Balance {
    pub amount: u64,
    pub owner: Address,
    pub token_account: Address,
}

impl Balance {
    pub const LEN: usize = 8 + 8 + 32 + 32;
}

/// The kinds of record the program stores.
#[derive(Clone, Copy, Debug, PartialEq, Eq, Structural)]
pub enum RecordKind {
    ProgramState,
    Template,
    Event,
    Balance,
}

/// Exact storage size of a record: its type tag plus the fixed width of
/// each field in order, strings counted as their length prefix plus their
/// reserved capacity.
pub open spec fn spec_record_size(kind: RecordKind) -> int {
    match kind {
        RecordKind::ProgramState => DISCRIMINATOR_LEN + 32 + 8 + 8,
        RecordKind::Template => DISCRIMINATOR_LEN + STRING_PREFIX_LEN + NAME_CAPACITY + 8 + 8 + 1 + 1
            + STRING_PREFIX_LEN + URI_CAPACITY + 1 + 32,
        RecordKind::Event => DISCRIMINATOR_LEN + STRING_PREFIX_LEN + NAME_CAPACITY + 8 + 4 + 4 + 1 + 1
            + 32,
        RecordKind::Balance => DISCRIMINATOR_LEN + 8 + 32 + 32,
    }
}

/// The number of bytes to reserve for a record of the given kind.
pub fn record_size(kind: RecordKind) -> (r: usize)
    ensures
        r as int == spec_record_size(kind),
{
    match kind {
        RecordKind::ProgramState => ProgramState::LEN,
        RecordKind::Template => Template::LEN,
        RecordKind::Event => Event::LEN,
        RecordKind::Balance => Balance::LEN,
    }
}

} // verus!
