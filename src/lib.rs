use vstd::prelude::*;

pub mod config;
pub mod polling;
pub mod rest;
pub mod storage;

verus! {

/// One timestamped reading of a scalar metric, tagged with the identifier
/// of its source.
///
/// The reading is a 32-bit float that this library only carries: it is held
/// as its IEEE-754 bit pattern (`f32::to_bits` / `f32::from_bits`).
#[derive(Debug, Clone)]
pub struct Sample {
    pub identifier: String,
    /// Milliseconds since the Unix epoch.
    pub timestamp: u64,
    /// Bit pattern of the `f32` reading.
    pub value: u32,
}

/// The mathematical content of a [`Sample`].
pub ghost struct SampleModel {
    pub identifier: Seq<char>,
    pub timestamp: u64,
    pub value: u32,
}

impl View for Sample {
    type V = SampleModel;

    open spec fn view(&self) -> SampleModel {
        SampleModel { identifier: self.identifier@, timestamp: self.timestamp, value: self.value }
    }
}

/// The models of a sequence of samples, position by position.
pub open spec fn models(s: Seq<Sample>) -> Seq<SampleModel> {
    s.map_values(|x: Sample| x@)
}

impl Sample {
    pub fn new(identifier: String, timestamp: u64, value: u32) -> (r: Sample)
        ensures
            r.identifier == identifier,
            r.timestamp == timestamp,
            r.value == value,
    {
        Sample { identifier, timestamp, value }
    }

    /// An independent copy of this sample.
    pub fn duplicate(&self) -> (r: Sample)
        ensures
            r == *self,
    {
        Sample { identifier: self.identifier.clone(), timestamp: self.timestamp, value: self.value }
    }
}

} // verus!
