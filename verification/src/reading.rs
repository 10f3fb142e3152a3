//! What a decoder reports of one channel of an opened file.
//!
//! A sample has the type `S`, which this crate only moves: it never looks
//! into a sample, so the caller picks the numeric type.

use vstd::prelude::*;
use crate::error::CommandError;

verus! {

/// The decoder's answer to "give me the values of this channel".
#[derive(Debug, PartialEq)]
pub enum ValueReading<S> {
    /// The file has no channel of that name.
    Absent,
    /// The channel exists, but its representation has no numeric form.
    Unconvertible,
    /// The channel's values as numeric samples.
    Samples(Vec<S>),
}

/// The decoder's answer to "give me the master (time) data of this channel".
#[derive(Debug, PartialEq)]
pub enum MasterReading<S> {
    /// The channel has no master data.
    Absent,
    /// The master data is tagged as something other than real-valued.
    NotReal,
    /// The master data, tagged as real-valued.
    Real(Vec<S>),
}

/// The values of one channel together with its time axis. The two are
/// returned as the decoder gave them; their lengths are not compared.
#[derive(Debug, PartialEq)]
pub struct ChannelSeries<S> {
    pub values: Vec<S>,
    pub time: Vec<S>,
}

impl<S> ValueReading<S> {
    /// The samples that a reading yields, or the error that it stands for.
    pub open spec fn accepted(self) -> Result<Vec<S>, CommandError> {
        match self {
            ValueReading::Absent => Err(CommandError::ChannelMissing),
            ValueReading::Unconvertible => Err(CommandError::ConversionFailure),
            ValueReading::Samples(values) => Ok(values),
        }
    }

    /// Hands out the samples of a reading, or says why there are none.
    pub fn accept(self) -> (r: Result<Vec<S>, CommandError>)
        ensures
            r == self.accepted(),
    {
        match self {
            ValueReading::Absent => Err(CommandError::ChannelMissing),
            ValueReading::Unconvertible => Err(CommandError::ConversionFailure),
            ValueReading::Samples(values) => Ok(values),
        }
    }
}

impl<S> MasterReading<S> {
    /// The time axis that a reading yields, or the error that it stands for.
    /// Master data of any representation but the real-valued one is an
    /// error: it is never coerced.
    pub open spec fn accepted(self) -> Result<Vec<S>, CommandError> {
        match self {
            MasterReading::Absent => Err(CommandError::ChannelMissing),
            MasterReading::NotReal => Err(CommandError::InvalidTimeRepresentation),
            MasterReading::Real(time) => Ok(time),
        }
    }

    /// Hands out the time axis of a reading, or says why there is none.
    pub fn accept(self) -> (r: Result<Vec<S>, CommandError>)
        ensures
            r == self.accepted(),
    {
        match self {
            MasterReading::Absent => Err(CommandError::ChannelMissing),
            MasterReading::NotReal => Err(CommandError::InvalidTimeRepresentation),
            MasterReading::Real(time) => Ok(time),
        }
    }
}

/// The answer to a read of one channel, given both readings. A fault of the
/// values comes before any fault of the master; values and time are
/// returned together or not at all.
pub open spec fn series_of<S>(
    values: ValueReading<S>,
    master: MasterReading<S>,
) -> Result<ChannelSeries<S>, CommandError> {
    match values.accepted() {
        Err(e) => Err(e),
        Ok(v) => match master.accepted() {
            Err(e) => Err(e),
            Ok(t) => Ok(ChannelSeries { values: v, time: t }),
        },
    }
}

/// Puts the two readings of one channel together.
pub fn assemble_series<S>(
    values: ValueReading<S>,
    master: MasterReading<S>,
) -> (r: Result<ChannelSeries<S>, CommandError>)
    ensures
        r == series_of(values, master),
{
    match values.accept() {
        Err(e) => Err(e),
        Ok(v) => match master.accept() {
            Err(e) => Err(e),
            Ok(t) => Ok(ChannelSeries { values: v, time: t }),
        },
    }
}

} // verus!
