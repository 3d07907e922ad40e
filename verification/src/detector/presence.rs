//! Presence detection: binds a presence configuration to a `Ready` radar
//! handle and runs sized, reusable measurement cycles.

pub mod config;
pub mod results;

use vstd::prelude::*;
use crate::detector::presence::config::PresenceConfig;
use crate::detector::presence::results::{PresenceMetadata, PresenceResult};
use crate::radar::{MeasureOutcome, Radar, Ready};
use crate::sensor::{CalibrationArtifact, ProcessDataError, SensorError};

verus! {

/// A presence detector bound to one `Ready` radar handle.
///
/// The handle is owned for the detector's lifetime, so no other detector can
/// drive the same sensor concurrently. The measurement buffer size is the
/// engine-declared minimum for the bound configuration; the configuration is
/// engine-side immutable once bound, so the size holds for the detector's
/// whole lifetime and a changed configuration calls for a new detector.
pub struct PresenceDetector {
    /// The radar handle this detector exclusively drives.
    pub radar: Radar<Ready>,
    /// The configuration the detector was bound with.
    pub config: PresenceConfig,
    /// The engine-reported metadata for the bound configuration.
    pub metadata: PresenceMetadata,
    /// The engine-declared minimum measurement buffer length.
    pub buffer_size: usize,
    /// Whether the detector has been calibrated and prepared for frames.
    pub prepared: bool,
}

impl PresenceDetector {
    /// Binds the default configuration to `radar`. `metadata` and
    /// `buffer_size` are what the engine reported when it created the
    /// detector context for that configuration.
    pub fn new(radar: Radar<Ready>, metadata: PresenceMetadata, buffer_size: usize) -> (r:
        PresenceDetector)
        ensures
            r.config == PresenceConfig::spec_default(),
            r.metadata == metadata,
            r.buffer_size == buffer_size,
            !r.prepared,
            r.radar == radar,
    {
        let config = PresenceConfig::default();
        PresenceDetector { radar, config, metadata, buffer_size, prepared: false }
    }

    /// Binds the provided configuration to `radar`. `metadata` and
    /// `buffer_size` are what the engine reported when it created the
    /// detector context for `config`.
    pub fn with_config(
        radar: Radar<Ready>,
        config: PresenceConfig,
        metadata: PresenceMetadata,
        buffer_size: usize,
    ) -> (r: PresenceDetector)
        ensures
            r.config == config,
            r.metadata == metadata,
            r.buffer_size == buffer_size,
            !r.prepared,
            r.radar == radar,
    {
        PresenceDetector { radar, config, metadata, buffer_size, prepared: false }
    }

    /// The engine-reported metadata for the bound configuration.
    pub fn presence_metadata(&self) -> (r: &PresenceMetadata)
        ensures
            r == self.metadata,
    {
        &self.metadata
    }

    /// The minimum measurement buffer length for the bound configuration.
    ///
    /// A pure query: it depends on the detector value alone, so repeated
    /// calls without an intervening configuration change agree.
    pub fn get_buffer_size(&self) -> (r: usize)
        ensures
            r == self.buffer_size,
    {
        self.buffer_size
    }

    /// The buffer-size query is stable: on detectors whose bound
    /// configuration has not changed (equal detector values), it returns the
    /// same length.
    pub proof fn lemma_buffer_size_query_stable(a: PresenceDetector, b: PresenceDetector)
        requires
            a == b,
        ensures
            a.buffer_size == b.buffer_size,
    {
    }

    /// Calibrates the sensor and prepares the detector for measurement.
    ///
    /// The sensor-level calibration run has been driven to completion by the
    /// caller and produced `calibration`; `prepare_ok` is the engine's report
    /// from its prepare routine. A buffer shorter than the engine-declared
    /// minimum fails with `BufferTooSmall` before any engine work, a
    /// malformed or stale artifact fails with `CalibrationFailed`, and an
    /// engine-reported prepare failure fails with `PrepareFailed`; in every
    /// failure the detector is unchanged.
    pub fn calibrate_and_prepare(
        &mut self,
        buffer: &Vec<u8>,
        calibration: &CalibrationArtifact,
        prepare_ok: bool,
    ) -> (r: Result<(), SensorError>)
        ensures
            buffer@.len() < old(self).buffer_size ==> {
                &&& r == Err::<(), SensorError>(SensorError::BufferTooSmall)
                &&& *final(self) == *old(self)
            },
            buffer@.len() >= old(self).buffer_size && !calibration.wf() ==> {
                &&& r == Err::<(), SensorError>(SensorError::CalibrationFailed)
                &&& *final(self) == *old(self)
            },
            buffer@.len() >= old(self).buffer_size && calibration.wf() && !prepare_ok ==> {
                &&& r == Err::<(), SensorError>(SensorError::PrepareFailed)
                &&& *final(self) == *old(self)
            },
            buffer@.len() >= old(self).buffer_size && calibration.wf() && prepare_ok ==> {
                &&& r == Ok::<(), SensorError>(())
                &&& *final(self) == (PresenceDetector { prepared: true, ..*old(self) })
            },
    {
        if buffer.len() < self.buffer_size {
            return Err(SensorError::BufferTooSmall);
        }
        if !calibration.is_well_formed() {
            return Err(SensorError::CalibrationFailed);
        }
        if !prepare_ok {
            return Err(SensorError::PrepareFailed);
        }
        self.prepared = true;
        Ok(())
    }

    /// Performs one measurement frame, delegating to the radar handle; see
    /// [`Radar::measure`] for the exact buffer contract.
    pub fn measure(
        &mut self,
        buffer: &mut Vec<u8>,
        frame: &Vec<u8>,
        outcome: MeasureOutcome,
    ) -> (r: Result<(), SensorError>)
        requires
            frame@.len() == old(self).radar.spec_frame_size(),
        ensures
            *final(self) == *old(self),
            old(buffer)@.len() < old(self).radar.spec_frame_size() ==> {
                &&& r == Err::<(), SensorError>(SensorError::BufferTooSmall)
                &&& final(buffer)@ == old(buffer)@
            },
            old(buffer)@.len() >= old(self).radar.spec_frame_size() && outcome
                == MeasureOutcome::TimedOut ==> {
                &&& r == Err::<(), SensorError>(SensorError::Timeout)
                &&& final(buffer)@ == old(buffer)@
            },
            old(buffer)@.len() >= old(self).radar.spec_frame_size() && outcome
                == MeasureOutcome::FrameReady ==> {
                &&& r == Ok::<(), SensorError>(())
                &&& final(buffer)@ == frame@ + old(buffer)@.skip(frame@.len() as int)
            },
    {
        self.radar.measure(buffer, frame, outcome)
    }

    /// Decodes the engine-filled result record of the just-measured frame.
    ///
    /// `buffer` is the record the engine filled from the frame. A record of
    /// the wrong length, or one whose status byte reports failure, fails with
    /// `ProcessingFailed`; otherwise the decoded presence view is returned.
    /// See [`PresenceResult::spec_decode`] for the exact field layout.
    pub fn process_data(&mut self, buffer: &Vec<u8>) -> (r: Result<
        PresenceResult,
        ProcessDataError,
    >)
        ensures
            *final(self) == *old(self),
            !PresenceResult::spec_record_wf(buffer@) ==> r == Err::<
                PresenceResult,
                ProcessDataError,
            >(ProcessDataError::ProcessingFailed),
            PresenceResult::spec_record_wf(buffer@) ==> r == Ok::<
                PresenceResult,
                ProcessDataError,
            >(PresenceResult::spec_decode(buffer@)),
    {
        PresenceResult::decode(buffer)
    }
}

} // verus!
