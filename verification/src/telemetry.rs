//! Telemetry staging: the raw-code buffer that the processing loop
//! keeps current. Storing raw codes keeps the hot path free of unit
//! conversion; codes are turned into SI units only when a report is
//! assembled, outside this library.

use vstd::prelude::*;
use crate::dac::DacCode;

verus! {

/// One raw input sample as the converter delivered it.
#[derive(Clone, Copy, PartialEq, Eq, Structural, Debug)]
pub struct AdcSample(pub u16);

/// The latest raw codes seen during processing: one input sample and
/// one output code per channel, and the two digital input states.
#[derive(Clone, Copy, Debug)]
pub struct TelemetryBuffer {
    /// The latest input sample on each input channel.
    pub adcs: [AdcSample; 2],
    /// The latest output code on each output channel.
    pub dacs: [DacCode; 2],
    /// The latest digital input states during processing.
    pub digital_inputs: [bool; 2],
}

impl Default for TelemetryBuffer {
    /// All codes zero and both digital inputs low.
    fn default() -> (r: Self)
        ensures
            r.adcs[0].0 == 0,
            r.adcs[1].0 == 0,
            r.dacs[0].0 == 0,
            r.dacs[1].0 == 0,
            !r.digital_inputs[0],
            !r.digital_inputs[1],
    {
        TelemetryBuffer {
            adcs: [AdcSample(0), AdcSample(0)],
            dacs: [DacCode(0), DacCode(0)],
            digital_inputs: [false, false],
        }
    }
}

} // verus!
