//! Distance detection: binds a distance configuration to a `Ready` radar
//! handle and runs the calibrate / prepare / measure / process cycle,
//! surfacing the engine's needs-recalibration signal.
//!
//! The detector cycle is `Constructed`, then (buffer sizes known) detector
//! calibration, then repeated prepare / measure / process rounds. Whenever a
//! processed frame reports `calibration_needed`, the next trustworthy round
//! starts with [`DistanceDetector::calibrate_detector`]; continuing without
//! it is not rejected — the engine silently degrades — but every result
//! produced that way carries [`ResultValidity::Unspecified`].

use vstd::prelude::*;
use crate::config::RadarProfile;
use crate::detector::le32_at;
use crate::detector::read_u32_le;
use crate::radar::{MeasureOutcome, Radar, Ready};
use crate::sensor::{CalibrationArtifact, ProcessDataError, SensorError};

verus! {

/// Configuration for radar distance detection. Lengths are in millimeters
/// and dimensionless engine quantities in integer milli-units.
#[derive(Clone, Copy, Debug, PartialEq, Eq, Structural)]
pub struct DistanceConfig {
    /// Identifier of the sensor the detector will drive.
    pub sensor_id: u32,
    /// Start of the measured interval, in millimeters.
    pub start_mm: u32,
    /// End of the measured interval, in millimeters.
    pub end_mm: u32,
    /// Measurement profile.
    pub profile: RadarProfile,
    /// Threshold sensitivity, in milli-units.
    pub threshold_sensitivity_milli: u32,
    /// Target signal quality, in milli-units.
    pub signal_quality_milli: u32,
}

impl DistanceConfig {
    /// The configuration a fresh distance detector starts from.
    pub open spec fn spec_default() -> DistanceConfig {
        DistanceConfig {
            sensor_id: 1,
            start_mm: 250,
            end_mm: 3000,
            profile: RadarProfile::Profile5,
            threshold_sensitivity_milli: 500,
            signal_quality_milli: 15000,
        }
    }

    /// Sets the sensor identifier.
    pub fn sensor_set(&mut self, sensor_id: u32)
        ensures
            *final(self) == (DistanceConfig { sensor_id, ..*old(self) }),
    {
        self.sensor_id = sensor_id;
    }

    /// Sets the measured interval, start and end in millimeters.
    pub fn set_interval(&mut self, start_mm: u32, end_mm: u32)
        requires
            start_mm <= end_mm,
        ensures
            *final(self) == (DistanceConfig { start_mm, end_mm, ..*old(self) }),
    {
        self.start_mm = start_mm;
        self.end_mm = end_mm;
    }

    /// Sets the measurement profile.
    pub fn profile_set(&mut self, profile: RadarProfile)
        ensures
            *final(self) == (DistanceConfig { profile, ..*old(self) }),
    {
        self.profile = profile;
    }

    /// Sets the threshold sensitivity, in milli-units.
    pub fn set_threshold_sensitivity(&mut self, sensitivity_milli: u32)
        ensures
            *final(self) == (DistanceConfig {
                threshold_sensitivity_milli: sensitivity_milli,
                ..*old(self)
            }),
    {
        self.threshold_sensitivity_milli = sensitivity_milli;
    }

    /// Sets the target signal quality, in milli-units.
    pub fn set_signal_quality(&mut self, signal_quality_milli: u32)
        ensures
            *final(self) == (DistanceConfig { signal_quality_milli, ..*old(self) }),
    {
        self.signal_quality_milli = signal_quality_milli;
    }
}

impl Default for DistanceConfig {
    /// The default configuration, [`DistanceConfig::spec_default`] exactly.
    fn default() -> (r: DistanceConfig)
        ensures
            r == DistanceConfig::spec_default(),
    {
        DistanceConfig {
            sensor_id: 1,
            start_mm: 250,
            end_mm: 3000,
            profile: RadarProfile::Profile5,
            threshold_sensitivity_milli: 500,
            signal_quality_milli: 15000,
        }
    }
}

/// The engine-produced dynamic calibration blob; it must accompany every
/// subsequent `process_data` call until the next detector calibration.
pub struct DynamicCalibrationResult {
    data: Vec<u8>,
}

impl DynamicCalibrationResult {
    /// The bytes the engine produced.
    pub closed spec fn spec_data(self) -> Seq<u8> {
        self.data@
    }

    /// Number of bytes in the blob.
    pub fn len(&self) -> (r: usize)
        ensures
            r == self.spec_data().len(),
    {
        self.data.len()
    }
}

/// Whether a decoded result was produced under a current detector
/// calibration.
#[derive(Clone, Copy, Debug, PartialEq, Eq, Structural)]
pub enum ResultValidity {
    /// Produced by a calibrated, prepared detector with no recalibration
    /// pending: the decoded fields mean what they say.
    Specified,
    /// Produced while detector calibration was missing, stale or pending:
    /// the decoded fields are of unspecified validity.
    Unspecified,
}

/// One detected distance peak.
#[derive(Clone, Copy, Debug, PartialEq, Eq, Structural)]
pub struct DistancePoint {
    /// Distance to the peak, in millimeters.
    pub distance_mm: u32,
    /// Strength of the peak, in milli-units.
    pub strength_milli: u32,
}

/// The decoded view over one engine-filled distance record.
pub struct DistanceResult {
    /// The detected peaks, nearest first, as the engine reported them.
    pub distances: Vec<DistancePoint>,
    /// The engine's signal that the detector must be recalibrated before
    /// further trustworthy results.
    pub calibration_needed: bool,
    /// Whether the detector's calibration was current when this result was
    /// produced.
    pub validity: ResultValidity,
}

impl DistanceResult {
    /// How many distance peaks the engine reported.
    pub fn num_distances(&self) -> (r: usize)
        ensures
            r == self.distances@.len(),
    {
        self.distances.len()
    }
}

/// Byte length of the fixed prefix of an engine-filled distance record.
pub const DISTANCE_RECORD_HEADER_LEN: usize = 4;

/// Byte length of one encoded distance peak.
pub const DISTANCE_PEAK_LEN: usize = 8;

/// A well-formed distance record: byte 0 is a zero status byte (non-zero is
/// the engine's decode-failure report), byte 2 counts the peaks, and exactly
/// that many 8-byte peak encodings follow the 4-byte header.
pub open spec fn spec_distance_record_wf(record: Seq<u8>) -> bool {
    &&& record.len() >= DISTANCE_RECORD_HEADER_LEN
    &&& record[0] == 0
    &&& record.len() == DISTANCE_RECORD_HEADER_LEN + DISTANCE_PEAK_LEN * record[2]
}

/// Whether a well-formed record signals that recalibration is needed: the
/// low bit of byte 1.
pub open spec fn spec_record_calibration_needed(record: Seq<u8>) -> bool {
    record[1] % 2 == 1
}

/// The peak encoded at position `i` of a well-formed record: a little-endian
/// distance in millimeters, then a little-endian strength in milli-units.
pub open spec fn spec_record_peak(record: Seq<u8>, i: int) -> DistancePoint {
    DistancePoint {
        distance_mm: le32_at(record, DISTANCE_RECORD_HEADER_LEN + DISTANCE_PEAK_LEN * i),
        strength_milli: le32_at(record, DISTANCE_RECORD_HEADER_LEN + DISTANCE_PEAK_LEN * i + 4),
    }
}

/// What the engine reported at the end of a detector calibration run.
pub enum EngineCalibration {
    /// Calibration succeeded and produced the dynamic calibration blob.
    Completed {
        /// The engine-produced dynamic calibration bytes.
        dynamic: Vec<u8>,
    },
    /// The engine reported calibration failure.
    Failed,
}

/// Where a distance detector stands in its calibrate / prepare / measure /
/// process cycle.
#[derive(Clone, Copy, Debug, PartialEq, Eq, Structural)]
pub struct CycleState {
    /// Whether the detector has been calibrated since construction or since
    /// the last needs-recalibration signal was acted on.
    pub calibrated: bool,
    /// Whether the detector is armed for the next frame.
    pub prepared: bool,
    /// Whether an engine-reported needs-recalibration signal is outstanding.
    pub calibration_pending: bool,
}

impl CycleState {
    /// The state of a freshly constructed detector.
    pub open spec fn initial() -> CycleState {
        CycleState { calibrated: false, prepared: false, calibration_pending: false }
    }

    /// The state after a successful detector calibration: any outstanding
    /// needs-recalibration signal is cleared, and a fresh prepare is owed.
    pub open spec fn after_calibrate(self) -> CycleState {
        CycleState { calibrated: true, prepared: false, calibration_pending: false }
    }

    /// The state after a successful prepare.
    pub open spec fn after_prepare(self) -> CycleState {
        CycleState { prepared: true, ..self }
    }

    /// The state after a successfully processed frame whose record signalled
    /// `needed`: the prepared frame is consumed, and the signal is latched.
    pub open spec fn after_process(self, needed: bool) -> CycleState {
        CycleState { prepared: false, calibration_pending: needed, ..self }
    }

    /// The validity that a result processed in this state carries.
    pub open spec fn result_validity(self) -> ResultValidity {
        if self.calibrated && self.prepared && !self.calibration_pending {
            ResultValidity::Specified
        } else {
            ResultValidity::Unspecified
        }
    }

    /// Once a processed frame has reported that recalibration is needed, any
    /// further frame processed without an intervening detector calibration
    /// carries unspecified validity — and is returned, not rejected.
    pub proof fn lemma_pending_recalibration_validity(s: CycleState)
        requires
            s.calibration_pending,
        ensures
            s.result_validity() == ResultValidity::Unspecified,
            s.after_prepare().result_validity() == ResultValidity::Unspecified,
    {
    }

    /// The round trip: after a successful detector calibration, a prepare
    /// and a processed frame whose record does not signal recalibration, the
    /// result's validity is `Specified` and no recalibration is required
    /// before the next round.
    pub proof fn lemma_round_trip(s: CycleState)
        ensures
            s.after_calibrate().after_prepare().result_validity() == ResultValidity::Specified,
            !s.after_calibrate().after_prepare().after_process(false).calibration_pending,
    {
    }
}

/// A distance detector bound to one `Ready` radar handle.
pub struct DistanceDetector {
    /// The radar handle this detector exclusively drives.
    pub radar: Radar<Ready>,
    /// The configuration the detector was bound with.
    pub config: DistanceConfig,
    /// The engine-declared minimum measurement buffer length.
    pub buffer_size: usize,
    /// The engine-declared minimum static calibration buffer length.
    pub static_result_size: usize,
    /// The engine-declared minimum distance result buffer length.
    pub distance_size: usize,
    /// Where the detector stands in its cycle.
    pub state: CycleState,
}

impl DistanceDetector {
    /// Binds `config` to `radar`. The three sizes are what the engine
    /// declared for that configuration when it created the detector context.
    pub fn with_config(
        radar: Radar<Ready>,
        config: DistanceConfig,
        buffer_size: usize,
        static_result_size: usize,
        distance_size: usize,
    ) -> (r: DistanceDetector)
        ensures
            r.radar == radar,
            r.config == config,
            r.buffer_size == buffer_size,
            r.static_result_size == static_result_size,
            r.distance_size == distance_size,
            r.state == CycleState::initial(),
    {
        DistanceDetector {
            radar,
            config,
            buffer_size,
            static_result_size,
            distance_size,
            state: CycleState { calibrated: false, prepared: false, calibration_pending: false },
        }
    }

    /// The minimum measurement buffer length for the bound configuration; a
    /// pure query, stable until the configuration is re-bound.
    pub fn get_buffer_size(&self) -> (r: usize)
        ensures
            r == self.buffer_size,
    {
        self.buffer_size
    }

    /// The minimum static calibration buffer length for the bound
    /// configuration; a pure query, stable until the configuration is
    /// re-bound.
    pub fn get_static_result_buffer_size(&self) -> (r: usize)
        ensures
            r == self.static_result_size,
    {
        self.static_result_size
    }

    /// The minimum distance result buffer length for the bound
    /// configuration; a pure query, stable until the configuration is
    /// re-bound.
    pub fn get_distance_buffer_size(&self) -> (r: usize)
        ensures
            r == self.distance_size,
    {
        self.distance_size
    }

    /// Runs detector-level calibration from the sensor-level artifact.
    ///
    /// `outcome` is what the engine reported at the end of the calibration
    /// run. Undersized buffers fail with `BufferTooSmall` before any engine
    /// work, a malformed or stale artifact and an engine-reported failure
    /// fail with `CalibrationFailed`; in every failure the detector is
    /// unchanged. Success hands back the dynamic calibration blob that every
    /// later `process_data` call must be given, clears any outstanding
    /// needs-recalibration signal, and requires a fresh prepare before the
    /// next frame.
    pub fn calibrate_detector(
        &mut self,
        sensor_calibration: &CalibrationArtifact,
        buffer: &Vec<u8>,
        static_result_buffer: &Vec<u8>,
        outcome: EngineCalibration,
    ) -> (r: Result<DynamicCalibrationResult, SensorError>)
        ensures
            buffer@.len() < old(self).buffer_size ==> {
                &&& r matches Err(e) && e == SensorError::BufferTooSmall
                &&& *final(self) == *old(self)
            },
            buffer@.len() >= old(self).buffer_size && static_result_buffer@.len() < old(
                self,
            ).static_result_size ==> {
                &&& r matches Err(e) && e == SensorError::BufferTooSmall
                &&& *final(self) == *old(self)
            },
            buffer@.len() >= old(self).buffer_size && static_result_buffer@.len() >= old(
                self,
            ).static_result_size && !sensor_calibration.wf() ==> {
                &&& r matches Err(e) && e == SensorError::CalibrationFailed
                &&& *final(self) == *old(self)
            },
            buffer@.len() >= old(self).buffer_size && static_result_buffer@.len() >= old(
                self,
            ).static_result_size && sensor_calibration.wf() ==> match outcome {
                EngineCalibration::Failed => {
                    &&& r matches Err(e) && e == SensorError::CalibrationFailed
                    &&& *final(self) == *old(self)
                },
                EngineCalibration::Completed { dynamic } => {
                    &&& r matches Ok(d) && d.spec_data() == dynamic@
                    &&& *final(self) == (DistanceDetector {
                        state: old(self).state.after_calibrate(),
                        ..*old(self)
                    })
                },
            },
    {
        if buffer.len() < self.buffer_size {
            return Err(SensorError::BufferTooSmall);
        }
        if static_result_buffer.len() < self.static_result_size {
            return Err(SensorError::BufferTooSmall);
        }
        if !sensor_calibration.is_well_formed() {
            return Err(SensorError::CalibrationFailed);
        }
        match outcome {
            EngineCalibration::Failed => Err(SensorError::CalibrationFailed),
            EngineCalibration::Completed { dynamic } => {
                self.state.calibrated = true;
                self.state.prepared = false;
                self.state.calibration_pending = false;
                Ok(DynamicCalibrationResult { data: dynamic })
            },
        }
    }

    /// Re-arms the detector for the next frame; called before every
    /// measurement.
    ///
    /// `prepare_ok` is the engine's report from its prepare routine. An
    /// undersized buffer fails with `BufferTooSmall` before any engine work,
    /// a malformed or stale artifact and an engine-reported failure fail
    /// with `PrepareFailed`; in every failure the detector is unchanged.
    /// Preparing while a needs-recalibration signal is outstanding is not
    /// rejected, but results produced that way carry
    /// [`ResultValidity::Unspecified`].
    pub fn prepare_detector(
        &mut self,
        sensor_calibration: &CalibrationArtifact,
        buffer: &Vec<u8>,
        prepare_ok: bool,
    ) -> (r: Result<(), SensorError>)
        ensures
            buffer@.len() < old(self).buffer_size ==> {
                &&& r == Err::<(), SensorError>(SensorError::BufferTooSmall)
                &&& *final(self) == *old(self)
            },
            buffer@.len() >= old(self).buffer_size && !sensor_calibration.wf() ==> {
                &&& r == Err::<(), SensorError>(SensorError::PrepareFailed)
                &&& *final(self) == *old(self)
            },
            buffer@.len() >= old(self).buffer_size && sensor_calibration.wf() && !prepare_ok
                ==> {
                &&& r == Err::<(), SensorError>(SensorError::PrepareFailed)
                &&& *final(self) == *old(self)
            },
            buffer@.len() >= old(self).buffer_size && sensor_calibration.wf() && prepare_ok
                ==> {
                &&& r == Ok::<(), SensorError>(())
                &&& *final(self) == (DistanceDetector {
                    state: old(self).state.after_prepare(),
                    ..*old(self)
                })
            },
    {
        if buffer.len() < self.buffer_size {
            return Err(SensorError::BufferTooSmall);
        }
        if !sensor_calibration.is_well_formed() {
            return Err(SensorError::PrepareFailed);
        }
        if !prepare_ok {
            return Err(SensorError::PrepareFailed);
        }
        self.state.prepared = true;
        Ok(())
    }

    /// Performs one measurement frame, delegating to the radar handle; see
    /// [`Radar::measure`] for the exact buffer contract.
    pub fn measure(
        &mut self,
        buffer: &mut Vec<u8>,
        frame: &Vec<u8>,
        outcome: MeasureOutcome,
    ) -> (r: Result<(), SensorError>)
        requires
            frame@.len() == old(self).radar.spec_frame_size(),
        ensures
            *final(self) == *old(self),
            old(buffer)@.len() < old(self).radar.spec_frame_size() ==> {
                &&& r == Err::<(), SensorError>(SensorError::BufferTooSmall)
                &&& final(buffer)@ == old(buffer)@
            },
            old(buffer)@.len() >= old(self).radar.spec_frame_size() && outcome
                == MeasureOutcome::TimedOut ==> {
                &&& r == Err::<(), SensorError>(SensorError::Timeout)
                &&& final(buffer)@ == old(buffer)@
            },
            old(buffer)@.len() >= old(self).radar.spec_frame_size() && outcome
                == MeasureOutcome::FrameReady ==> {
                &&& r == Ok::<(), SensorError>(())
                &&& final(buffer)@ == frame@ + old(buffer)@.skip(frame@.len() as int)
            },
    {
        self.radar.measure(buffer, frame, outcome)
    }

    /// Decodes the engine-filled distance record of the just-measured frame.
    ///
    /// `buffer` is the record the engine filled; `dynamic_result` is the
    /// blob the last detector calibration produced. A record that is not
    /// well-formed (see [`spec_distance_record_wf`]), or an empty dynamic
    /// calibration blob, fails with `ProcessingFailed` and leaves the
    /// detector unchanged. Success decodes every reported peak, carries the
    /// record's needs-recalibration signal, latches that signal in the
    /// detector, and consumes the prepared frame. The result's validity is
    /// `Specified` exactly when the detector was calibrated, prepared and
    /// free of an outstanding needs-recalibration signal.
    pub fn process_data(
        &mut self,
        buffer: &Vec<u8>,
        dynamic_result: &DynamicCalibrationResult,
    ) -> (r: Result<DistanceResult, ProcessDataError>)
        ensures
            !(spec_distance_record_wf(buffer@) && dynamic_result.spec_data().len() > 0) ==> {
                &&& r matches Err(e) && e == ProcessDataError::ProcessingFailed
                &&& *final(self) == *old(self)
            },
            spec_distance_record_wf(buffer@) && dynamic_result.spec_data().len() > 0 ==> {
                &&& r matches Ok(res) && {
                    &&& res.distances@.len() == buffer@[2]
                    &&& forall|i: int|
                        0 <= i < res.distances@.len() ==> res.distances@[i]
                            == spec_record_peak(buffer@, i)
                    &&& res.calibration_needed == spec_record_calibration_needed(buffer@)
                    &&& res.validity == old(self).state.result_validity()
                }
                &&& *final(self) == (DistanceDetector {
                    state: old(self).state.after_process(
                        spec_record_calibration_needed(buffer@),
                    ),
                    ..*old(self)
                })
            },
    {
        if dynamic_result.len() == 0 {
            return Err(ProcessDataError::ProcessingFailed);
        }
        if buffer.len() < DISTANCE_RECORD_HEADER_LEN {
            return Err(ProcessDataError::ProcessingFailed);
        }
        if buffer[0] != 0 {
            return Err(ProcessDataError::ProcessingFailed);
        }
        let count = buffer[2] as usize;
        if buffer.len() != DISTANCE_RECORD_HEADER_LEN + DISTANCE_PEAK_LEN * count {
            return Err(ProcessDataError::ProcessingFailed);
        }
        let mut distances: Vec<DistancePoint> = Vec::new();
        let mut i: usize = 0;
        while i < count
            invariant
                i <= count,
                count <= 255,
                buffer@.len() == DISTANCE_RECORD_HEADER_LEN + DISTANCE_PEAK_LEN * count,
                distances@.len() == i,
                forall|j: int|
                    0 <= j < i ==> distances@[j] == spec_record_peak(buffer@, j),
            decreases count - i,
        {
            let distance_mm = read_u32_le(
                buffer,
                DISTANCE_RECORD_HEADER_LEN + DISTANCE_PEAK_LEN * i,
            );
            let strength_milli = read_u32_le(
                buffer,
                DISTANCE_RECORD_HEADER_LEN + DISTANCE_PEAK_LEN * i + 4,
            );
            distances.push(DistancePoint { distance_mm, strength_milli });
            i = i + 1;
        }
        let needed = buffer[1] % 2 == 1;
        let validity = if self.state.calibrated && self.state.prepared
            && !self.state.calibration_pending {
            ResultValidity::Specified
        } else {
            ResultValidity::Unspecified
        };
        self.state.prepared = false;
        self.state.calibration_pending = needed;
        Ok(DistanceResult { distances, calibration_needed: needed, validity })
    }
}

} // verus!
