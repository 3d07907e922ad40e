//! Decoded views over the engine-filled presence records.
//!
//! Scores and distances are carried in integer milli-units (a score of 1.5 is
//! 1500) and millimeters, so every decoded field is an exact plain value.

use vstd::prelude::*;
use crate::detector::le32_at;
use crate::detector::read_u32_le;
use crate::sensor::ProcessDataError;

verus! {

/// Engine-reported metadata for a bound presence configuration.
#[derive(Clone, Copy, Debug, PartialEq, Eq, Structural)]
pub struct PresenceMetadata {
    /// Start of the measured range, in millimeters.
    pub start_mm: u32,
    /// Distance between measured points, in millimeters.
    pub step_length_mm: u32,
    /// Number of measured points.
    pub num_points: u32,
}

/// Byte length of the engine-filled presence result record.
pub const RECORD_LEN: usize = 14;

/// The decoded view over one engine-filled presence record.
#[derive(Clone, Copy, Debug, PartialEq, Eq, Structural)]
pub struct PresenceResult {
    /// Whether presence was detected in the frame.
    pub presence_detected: bool,
    /// Score of the fast, intra-frame motion path, in milli-units.
    pub intra_presence_score_milli: u32,
    /// Score of the slow, inter-frame motion path, in milli-units.
    pub inter_presence_score_milli: u32,
    /// Distance to the detected presence, in millimeters.
    pub presence_distance_mm: u32,
}

impl PresenceResult {
    /// A well-formed presence record has exactly [`RECORD_LEN`] bytes and a
    /// zero status byte; a non-zero status is the engine's decode-failure
    /// report.
    pub open spec fn spec_record_wf(record: Seq<u8>) -> bool {
        record.len() == RECORD_LEN && record[0] == 0
    }

    /// The exact layout of a well-formed record: byte 0 is the status, the
    /// low bit of byte 1 is the presence flag, and bytes 2, 6 and 10 start
    /// the little-endian intra score, inter score and distance fields.
    pub open spec fn spec_decode(record: Seq<u8>) -> PresenceResult
        recommends
            Self::spec_record_wf(record),
    {
        PresenceResult {
            presence_detected: record[1] % 2 == 1,
            intra_presence_score_milli: le32_at(record, 2),
            inter_presence_score_milli: le32_at(record, 6),
            presence_distance_mm: le32_at(record, 10),
        }
    }

    /// Decodes one engine-filled presence record.
    pub fn decode(record: &Vec<u8>) -> (r: Result<PresenceResult, ProcessDataError>)
        ensures
            !Self::spec_record_wf(record@) ==> r == Err::<PresenceResult, ProcessDataError>(
                ProcessDataError::ProcessingFailed,
            ),
            Self::spec_record_wf(record@) ==> r == Ok::<PresenceResult, ProcessDataError>(
                Self::spec_decode(record@),
            ),
    {
        if record.len() != RECORD_LEN {
            return Err(ProcessDataError::ProcessingFailed);
        }
        if record[0] != 0 {
            return Err(ProcessDataError::ProcessingFailed);
        }
        Ok(
            PresenceResult {
                presence_detected: record[1] % 2 == 1,
                intra_presence_score_milli: read_u32_le(record, 2),
                inter_presence_score_milli: read_u32_le(record, 6),
                presence_distance_mm: read_u32_le(record, 10),
            },
        )
    }
}

} // verus!
