//! Sensor-level error taxonomy and the engine-produced calibration artifact.

use vstd::prelude::*;

verus! {

/// Errors returned by sensor and detector operations.
///
/// Every failure is reported to the caller as a typed result; nothing is
/// retried internally.
#[derive(Clone, Copy, Debug, PartialEq, Eq, Structural)]
pub enum SensorError {
    /// A caller-supplied buffer is shorter than the engine-declared minimum.
    BufferTooSmall,
    /// The engine reported failure from a calibration routine.
    CalibrationFailed,
    /// The engine reported failure from a prepare routine, or the supplied
    /// calibration artifact was malformed or stale.
    PrepareFailed,
    /// The ready-interrupt edge did not occur within the wait bound.
    Timeout,
    /// The underlying transport device failed; fatal to the in-progress
    /// engine operation.
    TransportError,
}

/// Errors returned when decoding a processed frame.
#[derive(Clone, Copy, Debug, PartialEq, Eq, Structural)]
pub enum ProcessDataError {
    /// The engine reported decode failure for the frame.
    ProcessingFailed,
}

/// An engine-produced byte blob holding sensor-specific correction data.
///
/// The artifact must be supplied, unmodified, to every subsequent prepare,
/// measurement and detector-calibration call until it is invalidated by an
/// engine-reported needs-recalibration signal.
pub struct CalibrationArtifact {
    data: Vec<u8>,
    stale: bool,
}

impl CalibrationArtifact {
    /// The bytes the engine produced.
    pub closed spec fn spec_data(self) -> Seq<u8> {
        self.data@
    }

    /// Whether the artifact has been invalidated.
    pub closed spec fn spec_stale(self) -> bool {
        self.stale
    }

    /// A well-formed artifact is non-empty and has not been invalidated.
    pub open spec fn wf(self) -> bool {
        self.spec_data().len() > 0 && !self.spec_stale()
    }

    /// Wraps the bytes the engine handed back at the end of a successful
    /// sensor calibration.
    pub fn new(data: Vec<u8>) -> (r: CalibrationArtifact)
        ensures
            r.spec_data() == data@,
            !r.spec_stale(),
    {
        CalibrationArtifact { data, stale: false }
    }

    /// Number of bytes in the artifact.
    pub fn len(&self) -> (r: usize)
        ensures
            r == self.spec_data().len(),
    {
        self.data.len()
    }

    /// True when the artifact can still back prepare and measurement calls.
    pub fn is_well_formed(&self) -> (r: bool)
        ensures
            r == self.wf(),
    {
        self.data.len() > 0 && !self.stale
    }

    /// Marks the artifact stale after an engine-reported needs-recalibration
    /// signal; a stale artifact is rejected by every later prepare call.
    pub fn invalidate(&mut self)
        ensures
            final(self).spec_data() == old(self).spec_data(),
            final(self).spec_stale(),
    {
        self.stale = true;
    }
}

} // verus!
