//! Samples, and how one is decoded from an entry of the payload.

use crate::error::MalformedSampleError;
use crate::timestamp::{in_range, Timestamp};
use crate::value::{is_nan_bits, Value};
use vstd::prelude::*;

verus! {

/// A number of the payload, in the two ways a reader can take it.
#[derive(Clone, Copy, Debug, PartialEq, Eq, Structural)]
pub struct RawNumber {
    /// The number as a signed integer, where the payload wrote an integer that fits
    /// into 64 bits.
    pub integer: Option<i64>,
    /// The bit pattern of the number read as a double.
    pub bits: u64,
}

/// One element of an array of the payload, as far as decoding reads it.
#[derive(Clone, Copy, Debug, PartialEq, Eq, Structural)]
pub enum RawValue {
    /// `null`.
    Null,
    /// A number.
    Number(RawNumber),
    /// Anything else: a boolean, a string, an array, an object.
    Other,
}

/// One entry of a series of the payload, as far as decoding reads it.
#[derive(Debug, PartialEq, Eq)]
pub enum RawEntry {
    /// An array, with its elements.
    Array(Vec<RawValue>),
    /// Anything else.
    Other,
}

/// A reading of a series: when it was taken, and its value where there is one.
#[derive(Clone, Copy, Debug, PartialEq, Eq)]
pub struct Sample {
    pub timestamp: Timestamp,
    pub value: Option<Value>,
}

/// A reading that has a value.
#[derive(Clone, Copy, Debug, PartialEq, Eq)]
pub struct ValuedSample {
    pub timestamp: Timestamp,
    pub value: Value,
}

/// The timestamp that an element stands for, if it stands for one: the element is
/// a number with an integer reading, and there is a timestamp at that many
/// milliseconds.
pub open spec fn decoded_timestamp(first: RawValue) -> Option<Timestamp> {
    match first {
        RawValue::Number(n) => match n.integer {
            Some(i) => if in_range(i as int) {
                Some(Timestamp::at_millis(i))
            } else {
                None
            },
            None => None,
        },
        _ => None,
    }
}

/// The value that an element stands for: `Some(None)` for `null`, an absent value;
/// `Some(Some(v))` for a number, in its double reading; `None` for a NaN and for
/// anything else.
pub open spec fn decoded_value(second: RawValue) -> Option<Option<Value>> {
    match second {
        RawValue::Null => Some(None),
        RawValue::Number(n) => if is_nan_bits(n.bits) {
            None
        } else {
            Some(Some(Value::with_bits(n.bits)))
        },
        RawValue::Other => None,
    }
}

/// What an entry of the payload decodes to: what its array decodes to, if it is
/// one.
pub open spec fn decoded(entry: RawEntry) -> Result<Sample, MalformedSampleError> {
    match entry {
        RawEntry::Array(elements) => decoded_array(elements@),
        RawEntry::Other => Err(MalformedSampleError::NotAnArray),
    }
}

/// What an array of the payload decodes to. The length is judged first, then the
/// timestamp, then the value.
pub open spec fn decoded_array(raw: Seq<RawValue>) -> Result<Sample, MalformedSampleError> {
    if raw.len() != 2 {
        Err(MalformedSampleError::WrongLength)
    } else if decoded_timestamp(raw[0]) is None {
        Err(MalformedSampleError::BadTimestamp)
    } else if decoded_value(raw[1]) is None {
        Err(MalformedSampleError::BadValue)
    } else {
        Ok(Sample { timestamp: decoded_timestamp(raw[0])->0, value: decoded_value(raw[1])->0 })
    }
}

impl Sample {
    /// Decodes an entry of the payload, `[timestampMillis, valueOrNull]`.
    pub fn decode(entry: &RawEntry) -> (r: Result<Sample, MalformedSampleError>)
        ensures
            r == decoded(*entry),
    {
        match entry {
            RawEntry::Array(elements) => Sample::decode_array(elements.as_slice()),
            RawEntry::Other => Err(MalformedSampleError::NotAnArray),
        }
    }

    /// Decodes the elements of an array, `timestampMillis, valueOrNull`.
    pub fn decode_array(raw: &[RawValue]) -> (r: Result<Sample, MalformedSampleError>)
        ensures
            r == decoded_array(raw@),
    {
        if raw.len() != 2 {
            return Err(MalformedSampleError::WrongLength);
        }
        let timestamp = match raw[0] {
            RawValue::Number(n) => match n.integer {
                Some(i) => Timestamp::from_millis(i),
                None => None,
            },
            _ => None,
        };
        let timestamp = match timestamp {
            Some(t) => t,
            None => {
                return Err(MalformedSampleError::BadTimestamp);
            },
        };
        let value = match raw[1] {
            RawValue::Null => None,
            RawValue::Number(n) => match Value::from_bits(n.bits) {
                Some(v) => Some(v),
                None => {
                    return Err(MalformedSampleError::BadValue);
                },
            },
            RawValue::Other => {
                return Err(MalformedSampleError::BadValue);
            },
        };
        Ok(Sample { timestamp, value })
    }

    /// When the reading was taken.
    pub fn timestamp(&self) -> (r: Timestamp)
        ensures
            r == self.timestamp,
    {
        self.timestamp
    }

    /// The value of the reading, where there is one.
    pub fn value(&self) -> (r: Option<Value>)
        ensures
            r == self.value,
    {
        self.value
    }

    /// The reading with its value, where there is one.
    pub fn valued(&self) -> (r: Option<ValuedSample>)
        ensures
            r == self.spec_valued(),
    {
        match self.value {
            Some(value) => Some(ValuedSample { timestamp: self.timestamp, value }),
            None => None,
        }
    }

    /// The reading with its value, where there is one.
    pub open spec fn spec_valued(self) -> Option<ValuedSample> {
        match self.value {
            Some(value) => Some(ValuedSample { timestamp: self.timestamp, value }),
            None => None,
        }
    }
}

/// Decoding reads the first element as an integer and the second as a double, and
/// nothing else: arrays whose first elements agree in their integer reading and
/// whose second elements agree in their double reading decode alike. So `1450` and
/// `1450.0` are the same value.
pub proof fn lemma_decode_by_readings(a: Seq<RawValue>, b: Seq<RawValue>)
    requires
        a.len() == 2,
        b.len() == 2,
        a[0] matches RawValue::Number(m) && b[0] matches RawValue::Number(n) && m.integer
            == n.integer,
        a[1] matches RawValue::Number(m) && b[1] matches RawValue::Number(n) && m.bits == n.bits,
    ensures
        decoded_array(a) == decoded_array(b),
{
}

} // verus!
