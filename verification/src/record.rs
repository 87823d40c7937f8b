//! The stored-value record: a field's raw byte payload together with
//! tamper-evident creation/modification timestamps.

use vstd::prelude::*;

verus! {

/// A wall-clock instant with sub-second precision and no leap-second
/// ambiguity: whole seconds on the TAI64 scale plus a nanosecond remainder.
#[derive(Debug, Eq, PartialEq, Structural, Clone, Copy)]
pub struct Timestamp {
    /// Whole seconds, on the TAI64 scale.
    pub secs: u64,
    /// Nanoseconds within the second; always below one billion.
    pub nanos: u32,
}

impl Timestamp {
    /// A well-formed instant keeps its nanosecond part within one second.
    pub open spec fn wf(self) -> bool {
        self.nanos < 1_000_000_000
    }

    /// One instant is no later than another: seconds first, then the
    /// nanosecond remainder.
    pub open spec fn le_spec(self, other: Timestamp) -> bool {
        self.secs < other.secs || (self.secs == other.secs && self.nanos <= other.nanos)
    }

    /// One instant is strictly earlier than another.
    pub open spec fn lt_spec(self, other: Timestamp) -> bool {
        self.secs < other.secs || (self.secs == other.secs && self.nanos < other.nanos)
    }

    /// Compares two instants: no later than, seconds first.
    pub fn le(&self, other: &Timestamp) -> (r: bool)
        ensures
            r == self.le_spec(*other),
    {
        self.secs < other.secs || (self.secs == other.secs && self.nanos <= other.nanos)
    }
}

/// Relies on `tai64::Tai64N::now`: the current wall-clock time as a TAI64N
/// label, whose nanosecond part is by that type's invariant below one
/// billion. Nothing more is promised of a clock reading.
#[verifier::external_body]
fn now_timestamp() -> (r: Timestamp)
    ensures
        r.wf(),
{
    let t = tai64::Tai64N::now();
    Timestamp { secs: (t.0).0, nanos: t.1 }
}

/// The mathematical model of a stored record: its payload bytes and its two
/// provenance timestamps.
pub struct RecordModel {
    /// The raw byte payload.
    pub data: Seq<u8>,
    /// When the record was first constructed; set once, never changed.
    pub created: Timestamp,
    /// When the record was last mutated; equals `created` at construction.
    pub modified: Timestamp,
}

impl RecordModel {
    /// A well-formed record carries well-formed timestamps.
    pub open spec fn wf(self) -> bool {
        self.created.wf() && self.modified.wf()
    }
}

/// What updating a record does to its model: the payload is replaced, the
/// modification time becomes the given instant, and the creation time is
/// untouched.
pub open spec fn update_model(m: RecordModel, value: Seq<u8>, t: Timestamp) -> RecordModel {
    RecordModel { data: value, created: m.created, modified: t }
}

/// Copies a borrowed byte slice into an owned buffer, so that a record owns
/// its payload independently of the caller's buffer.
fn copy_bytes(value: &[u8]) -> (r: Vec<u8>)
    ensures
        r@ == value@,
{
    let mut out: Vec<u8> = Vec::new();
    let mut i: usize = 0;
    while i < value.len()
        invariant
            i <= value.len(),
            out@ == value@.subrange(0, i as int),
        decreases value.len() - i,
    {
        out.push(value[i]);
        assert(out@ =~= value@.subrange(0, i + 1 as int));
        i = i + 1;
    }
    proof {
        assert(out@ =~= value@);
    }
    out
}

/// Contains the structure of a value represented by a key.
///
/// The record owns its own copy of the payload, independent of the caller's
/// buffer, and is not internally synchronized: the owning storage layer must
/// serialize concurrent writers to the same field key.
#[derive(Debug, PartialEq, Eq, Clone)]
pub struct FieldData {
    data: Vec<u8>,
    created: Timestamp,
    modified: Timestamp,
}

impl View for FieldData {
    type V = RecordModel;

    closed spec fn view(&self) -> RecordModel {
        RecordModel { data: self.data@, created: self.created, modified: self.modified }
    }
}

impl FieldData {
    /// Initializes a new `FieldData` struct: the current wall-clock time is
    /// captured once and stored as both `created` and `modified`.
    pub fn new(value: &[u8]) -> (r: FieldData)
        ensures
            r@.data == value@,
            r@.created == r@.modified,
            r@.wf(),
    {
        let current_time = now_timestamp();
        FieldData::new_at(value, current_time)
    }

    /// Initializes a new `FieldData` struct whose single captured instant is
    /// handed in, so that creation can be replayed deterministically.
    pub fn new_at(value: &[u8], current_time: Timestamp) -> (r: FieldData)
        ensures
            r@ == (RecordModel { data: value@, created: current_time, modified: current_time }),
    {
        FieldData { data: copy_bytes(value), created: current_time, modified: current_time }
    }

    /// Updates a `FieldData` by replacing its payload and stamping the
    /// current wall-clock time on `modified`; `created` is untouched.
    pub fn update(&mut self, value: &[u8]) -> (r: &FieldData)
        ensures
            final(self)@.data == value@,
            final(self)@.created == old(self)@.created,
            final(self)@.modified.wf(),
            *r == *final(self),
    {
        let current_time = now_timestamp();
        self.update_at(value, current_time)
    }

    /// Updates a `FieldData` with an instant handed in by the caller, so
    /// that the effect of a mutation can be replayed deterministically.
    ///
    /// Under a forward-moving clock — the given instant strictly later than
    /// the record's last modification, which was no earlier than its
    /// creation — `modified` moves strictly forward and never precedes
    /// `created`.
    pub fn update_at(&mut self, value: &[u8], current_time: Timestamp) -> (r: &FieldData)
        ensures
            final(self)@ == update_model(old(self)@, value@, current_time),
            *r == *final(self),
            (old(self)@.created.le_spec(old(self)@.modified)
                && old(self)@.modified.lt_spec(current_time)) ==> (old(self)@.modified.lt_spec(
                final(self)@.modified,
            ) && final(self)@.created.le_spec(final(self)@.modified)),
    {
        self.data = copy_bytes(value);
        self.modified = current_time;

        self
    }

    /// Reconstructs a record from its stored parts, as a reader of the
    /// persisted form does.
    pub fn from_parts(value: &[u8], created: Timestamp, modified: Timestamp) -> (r: FieldData)
        ensures
            r@ == (RecordModel { data: value@, created: created, modified: modified }),
    {
        FieldData { data: copy_bytes(value), created, modified }
    }

    /// The raw byte payload.
    pub fn data(&self) -> (r: &Vec<u8>)
        ensures
            r@ == self@.data,
    {
        &self.data
    }

    /// When the record was first constructed.
    pub fn created(&self) -> (r: Timestamp)
        ensures
            r == self@.created,
    {
        self.created
    }

    /// When the record was last mutated.
    pub fn modified(&self) -> (r: Timestamp)
        ensures
            r == self@.modified,
    {
        self.modified
    }
}

/// Law: under a forward-moving clock — the new instant strictly later than
/// the record's last modification, which itself was no earlier than its
/// creation — an update leaves `created` untouched, replaces the payload,
/// and moves `modified` strictly forward, never before `created`.
pub proof fn lemma_update_provenance(pre: RecordModel, value: Seq<u8>, t: Timestamp)
    requires
        pre.created.le_spec(pre.modified),
        pre.modified.lt_spec(t),
    ensures
        update_model(pre, value, t).created == pre.created,
        update_model(pre, value, t).data == value,
        pre.modified.lt_spec(update_model(pre, value, t).modified),
        update_model(pre, value, t).created.le_spec(update_model(pre, value, t).modified),
{
}

} // verus!
