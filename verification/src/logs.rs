//! The log decoder: typed views of emitted event records.
//!
//! A log record carries the emitting address, up to four 32-byte topic words
//! — topic 0 conventionally the hashed event signature — and opaque data
//! bytes. Topics are decoded positionally; the data segment is decoded as a
//! sequence of 32-byte ABI words in declared field order.

use vstd::prelude::*;
use crate::bytes::{be_nat, copy_range, Address, Word};

verus! {

/// The declared type of one decoded field.
#[derive(Clone, Copy, PartialEq, Eq, Structural, Debug)]
pub enum FieldType {
    Address,
    Uint256,
}

/// A decoded field value.
pub enum DecodedValue {
    Address(Address),
    Uint(Word),
}

/// Mathematical model of a decoded field value.
pub enum ValueView {
    Address(Seq<u8>),
    Uint(nat),
}

impl View for DecodedValue {
    type V = ValueView;

    open spec fn view(&self) -> ValueView {
        match self {
            DecodedValue::Address(a) => ValueView::Address(a@),
            DecodedValue::Uint(w) => ValueView::Uint(be_nat(w@)),
        }
    }
}

/// The value denoted by one 32-byte word read as the given type: an address
/// is its low 20 bytes, an unsigned integer its big-endian value.
pub open spec fn decode_word_spec(bytes: Seq<u8>, t: FieldType) -> ValueView {
    match t {
        FieldType::Address => ValueView::Address(bytes.subrange(12, 32)),
        FieldType::Uint256 => ValueView::Uint(be_nat(bytes)),
    }
}

/// Mathematical model of one emitted event record.
#[verifier::ext_equal]
pub struct LogView {
    pub address: Seq<u8>,
    pub topics: Seq<Seq<u8>>,
    pub data: Seq<u8>,
}

/// One emitted event record.
pub struct LogRecord {
    /// The emitting contract.
    pub address: Address,
    /// The indexed topic words, in order.
    pub topics: Vec<Word>,
    /// The opaque data segment.
    pub data: Vec<u8>,
}

impl View for LogRecord {
    type V = LogView;

    open spec fn view(&self) -> LogView {
        LogView {
            address: self.address@,
            topics: self.topics@.map_values(|t: Word| t@),
            data: self.data@,
        }
    }
}

impl LogRecord {
    pub open spec fn wf(&self) -> bool {
        self.address.wf() && forall|i: int|
            0 <= i < self.topics@.len() ==> (#[trigger] self.topics@[i]).wf()
    }
}

/// The models of a sequence of log records, in emission order.
pub open spec fn log_views(s: Seq<LogRecord>) -> Seq<LogView> {
    s.map_values(|l: LogRecord| l@)
}

/// A log whose observed shape disagrees with the expected one.
#[derive(Clone, Copy, PartialEq, Eq, Structural, Debug)]
pub enum DecodeError {
    /// Topic count or data length differs from the declared shape.
    LogShapeMismatch,
}

/// Decodes one topic word as the given type.
pub fn decode_topic(topic: &Word, t: FieldType) -> (r: DecodedValue)
    requires
        topic.wf(),
    ensures
        r@ == decode_word_spec(topic@, t),
{
    match t {
        FieldType::Address => {
            let bytes = copy_range(&topic.bytes, 12, 20);
            DecodedValue::Address(Address { bytes })
        },
        FieldType::Uint256 => DecodedValue::Uint(topic.duplicate()),
    }
}

/// Decodes a log record against its expected shape: the topic count must
/// match, and the data segment must hold exactly one 32-byte word per
/// declared field. On success, the data fields are returned in declared
/// order.
pub fn decode(log: &LogRecord, expected_topics: usize, field_types: &Vec<FieldType>) -> (r: Result<
    Vec<DecodedValue>,
    DecodeError,
>)
    requires
        log.wf(),
        field_types@.len() * 32 <= usize::MAX,
    ensures
        r is Ok <==> (log.topics@.len() == expected_topics && log.data@.len() == field_types@.len()
            * 32),
        r is Ok ==> r.unwrap()@.len() == field_types@.len() && forall|i: int|
            0 <= i < field_types@.len() ==> (#[trigger] r.unwrap()@[i])@ == decode_word_spec(
                log.data@.subrange(32 * i, 32 * i + 32),
                field_types@[i],
            ),
{
    if log.topics.len() != expected_topics {
        return Err(DecodeError::LogShapeMismatch);
    }
    let n = field_types.len();
    if log.data.len() != n * 32 {
        return Err(DecodeError::LogShapeMismatch);
    }
    let mut out: Vec<DecodedValue> = Vec::new();
    let mut i: usize = 0;
    while i < n
        invariant
            log.wf(),
            n == field_types@.len(),
            n * 32 <= usize::MAX,
            log.data@.len() == n * 32,
            i <= n,
            out@.len() == i,
            forall|k: int|
                0 <= k < i ==> (#[trigger] out@[k])@ == decode_word_spec(
                    log.data@.subrange(32 * k, 32 * k + 32),
                    field_types@[k],
                ),
        decreases n - i,
    {
        let chunk = copy_range(&log.data, i * 32, 32);
        let v = match field_types[i] {
            FieldType::Address => DecodedValue::Address(
                Address { bytes: copy_range(&chunk, 12, 20) },
            ),
            FieldType::Uint256 => DecodedValue::Uint(Word { bytes: chunk }),
        };
        proof {
            assert(v@ == decode_word_spec(
                log.data@.subrange(32 * (i as int), 32 * (i as int) + 32),
                field_types@[i as int],
            ));
        }
        out.push(v);
        i = i + 1;
    }
    Ok(out)
}

} // verus!
