//! The errors: an entry of the payload that is no sample, a series without a
//! value, and a drawing that could not be written out. Each of them ends the run.

use crate::dataset::SeriesName;
use vstd::prelude::*;

verus! {

/// Why an entry of the payload is no sample.
#[derive(Clone, Copy, Debug, PartialEq, Eq, Structural)]
pub enum MalformedSampleError {
    /// The entry is not an array.
    NotAnArray,
    /// The array does not have exactly two elements.
    WrongLength,
    /// The first element is not an integer count of milliseconds that is a
    /// timestamp.
    BadTimestamp,
    /// The second element is neither `null` nor a number, or is a NaN.
    BadValue,
}

/// An entry of a series that is no sample: its place and what is wrong with it.
#[derive(Clone, Copy, Debug, PartialEq, Eq, Structural)]
pub struct MalformedAt {
    pub index: usize,
    pub cause: MalformedSampleError,
}

/// An entry of the payload that is no sample: its series, its place in the series
/// and what is wrong with it.
#[derive(Clone, Copy, Debug, PartialEq, Eq, Structural)]
pub struct DecodeError {
    pub series: SeriesName,
    pub at: MalformedAt,
}

/// A series has no sample with a value, so it has no extent.
#[derive(Clone, Copy, Debug, PartialEq, Eq, Structural)]
pub struct EmptySeriesError;

/// Why there is no chart.
#[derive(Clone, Copy, Debug, PartialEq, Eq, Structural)]
pub enum ChartError {
    /// An entry of the payload is no sample.
    MalformedSample(DecodeError),
    /// The series of a panel has no sample with a value, so the panel has no
    /// extent.
    EmptySeries(SeriesName),
    /// The finished drawing could not be written out.
    RenderFlush,
}

impl ChartError {
    /// The status with which a run that ends in this error exits.
    pub open spec fn spec_exit_status(self) -> u8 {
        match self {
            ChartError::MalformedSample(_) => 2,
            ChartError::EmptySeries(_) => 3,
            ChartError::RenderFlush => 4,
        }
    }

    /// The status with which a run that ends in this error exits: never zero, and
    /// one to each kind of error.
    pub fn exit_status(&self) -> (r: u8)
        ensures
            r == self.spec_exit_status(),
            r != 0,
    {
        match self {
            ChartError::MalformedSample(_) => 2,
            ChartError::EmptySeries(_) => 3,
            ChartError::RenderFlush => 4,
        }
    }

    /// What the diagnostic message says.
    pub open spec fn spec_message(self) -> Seq<char> {
        match self {
            ChartError::MalformedSample(_) => "malformed sample in the payload"@,
            ChartError::EmptySeries(_) => "a series has no sample with a value"@,
            ChartError::RenderFlush => "the chart could not be written out"@,
        }
    }

    /// The diagnostic message.
    pub fn message(&self) -> (r: String)
        ensures
            r@ == self.spec_message(),
    {
        match self {
            ChartError::MalformedSample(_) => "malformed sample in the payload".to_owned(),
            ChartError::EmptySeries(_) => "a series has no sample with a value".to_owned(),
            ChartError::RenderFlush => "the chart could not be written out".to_owned(),
        }
    }
}

} // verus!
