//! Attribute channel pairs on the client: the bound attribute set, the lookup
//! of an attribute's channels by identifier, and the flush of stale
//! notifications before first use.
use vstd::prelude::*;
use vstd::string::StringExecFns;
use crate::descriptor::{distinct, ApplicationDescriptor};
use crate::discovery::{DiscoveryEngine, Phase};

verus! {

/// Seconds a flush read waits for data before the flush ends.
pub const FLUSH_TIMEOUT_SECS: u64 = 1;

/// Size of the buffer a flush read discards into.
pub const FLUSH_BUFFER_LEN: usize = 1024;

/// Lower-case hexadecimal digit of `0 <= n < 16`.
pub open spec fn hex_digit(n: int) -> char {
    if n < 10 {
        crate::text::digit_char(n)
    } else if n == 10 {
        'a'
    } else if n == 11 {
        'b'
    } else if n == 12 {
        'c'
    } else if n == 13 {
        'd'
    } else if n == 14 {
        'e'
    } else {
        'f'
    }
}

/// The `k`-th hexadecimal digit of a 128-bit value, most significant first.
pub open spec fn nibble(v: u128, k: int) -> int {
    ((v >> ((124 - 4 * k) as u128)) & 0xfu128) as int
}

/// Number of hyphens before position `p` of the hyphenated form.
pub open spec fn hyphens_before(p: int) -> int {
    if p < 8 { 0 } else if p < 13 { 1 } else if p < 18 { 2 } else if p < 23 { 3 } else { 4 }
}

/// Hyphenated lower-case form of an identifier: 8-4-4-4-12 hexadecimal
/// digits, most significant first.
pub open spec fn hyphenated(v: u128) -> Seq<char> {
    Seq::new(
        36,
        |p: int|
            if p == 8 || p == 13 || p == 18 || p == 23 {
                '-'
            } else {
                hex_digit(nibble(v, p - hyphens_before(p)))
            },
    )
}

/// Relies on `uuid::Uuid::from_u128` (the value's bytes, big-endian) and the
/// `Display` of `uuid::Uuid` (its hyphenated lower-case form).
#[verifier::external_body]
fn uuid_text(id: u128) -> (r: String)
    ensures
        r@ == hyphenated(id),
{
    uuid::Uuid::from_u128(id).to_string()
}

/// An attribute identifier that the bound set does not hold.
#[derive(Clone, Copy, Debug, PartialEq, Eq, Structural)]
pub struct AttributeNotFound {
    pub uuid: u128,
}

impl AttributeNotFound {
    /// `Characteristic '<identifier>' not found.`
    pub fn message(&self) -> (r: String)
        ensures
            r@ == "Characteristic '"@ + hyphenated(self.uuid) + "' not found."@,
    {
        let mut r = String::from_str("Characteristic '");
        let id = uuid_text(self.uuid);
        r.append(id.as_str());
        r.append("' not found.");
        r
    }
}

/// The attributes bound to a matched service: each declared identifier with
/// the index of the exposed attribute bound to it. The identifiers are
/// exactly the descriptor's, no more, no fewer.
pub struct ChannelSet {
    attribute_ids: Vec<u128>,
    slots: Vec<usize>,
}

impl ChannelSet {
    pub closed spec fn ids(&self) -> Seq<u128> {
        self.attribute_ids@
    }

    pub closed spec fn slot_seq(&self) -> Seq<usize> {
        self.slots@
    }

    pub open spec fn wf(&self) -> bool {
        distinct(self.ids()) && self.slot_seq().len() == self.ids().len()
    }

    /// The bound set of an engine that bound a device; none before.
    pub fn from_engine(engine: &DiscoveryEngine) -> (r: Option<ChannelSet>)
        requires
            engine.wf(),
        ensures
            r is Some <==> engine@.phase == Phase::Bound,
            r matches Some(c) ==> c.wf() && c.ids() == engine@.attribute_ids && c.slot_seq()
                == engine@.slots,
    {
        if engine.phase() != Phase::Bound {
            return None;
        }
        proof {
            engine.lemma_bound_slots();
        }
        let d: &ApplicationDescriptor = engine.descriptor();
        Some(ChannelSet { attribute_ids: d.characteristics_uuids().clone(), slots: engine.bound_slots().clone() })
    }

    pub fn attribute_ids(&self) -> (r: &Vec<u128>)
        ensures
            r@ == self.ids(),
    {
        &self.attribute_ids
    }

    /// Index of the exposed attribute bound to `uuid`; fails, naming the
    /// identifier, when the set does not hold it.
    pub fn lookup(&self, uuid: u128) -> (r: Result<usize, AttributeNotFound>)
        requires
            self.wf(),
        ensures
            r matches Ok(slot) ==> exists|i: int|
                0 <= i < self.ids().len() && self.ids()[i] == uuid && self.slot_seq()[i] == slot,
            r is Err <==> !self.ids().contains(uuid),
            r matches Err(e) ==> e.uuid == uuid,
    {
        match crate::descriptor::position(&self.attribute_ids, uuid) {
            Some(i) => Ok(self.slots[i]),
            None => Err(AttributeNotFound { uuid }),
        }
    }
}

/// Outcome of one read of the notify source during a flush.
#[derive(Clone, Copy, Debug, PartialEq, Eq, Structural)]
pub enum FlushRead {
    /// `len` bytes arrived and were discarded.
    Data { len: usize },
    /// No data arrived within [`FLUSH_TIMEOUT_SECS`].
    TimedOut,
    /// The read failed.
    Failed,
}

/// Whether the flush reads again: only after data arrived. A read that times
/// out (nothing pending), fails or finds the stream ended finishes it, so a
/// flush of a source with nothing pending ends after one timeout window.
pub fn flush_continues(outcome: FlushRead) -> (r: bool)
    ensures
        r <==> (outcome matches FlushRead::Data { len } && len > 0),
        outcome == FlushRead::TimedOut ==> !r,
{
    match outcome {
        FlushRead::Data { len } => len > 0,
        FlushRead::TimedOut => false,
        FlushRead::Failed => false,
    }
}

} // verus!
