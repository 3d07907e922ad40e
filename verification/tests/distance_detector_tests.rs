//! Tests for the distance detector: the calibrate / prepare / measure /
//! process round trip against a simulated engine, the needs-recalibration
//! signal, and distance-record decoding.

use a121_rs::detector::distance::{
    DistanceConfig, DistanceDetector, EngineCalibration, ResultValidity,
};
use a121_rs::radar::{MeasureOutcome, Radar, Ready, Uninitialized};
use a121_rs::sensor::{CalibrationArtifact, ProcessDataError, SensorError};

fn ready_radar(frame_size: usize) -> Radar<Ready> {
    let radar: Radar<Uninitialized> = Radar::new(1);
    let artifact = CalibrationArtifact::new(vec![1, 2, 3]);
    match radar.prepare_sensor(&artifact, frame_size) {
        Ok(r) => r,
        Err(_) => panic!("well-formed artifact must prepare the sensor"),
    }
}

fn detector_for(config: DistanceConfig) -> DistanceDetector {
    DistanceDetector::with_config(ready_radar(16), config, 128, 32, 16)
}

/// An engine-filled distance record with the given peaks, as the simulated
/// engine produces it.
fn distance_record(status: u8, calibration_needed: bool, peaks: &[(u32, u32)]) -> Vec<u8> {
    let mut record = vec![
        status,
        if calibration_needed { 1 } else { 0 },
        peaks.len() as u8,
        0,
    ];
    for (distance_mm, strength_milli) in peaks {
        record.extend_from_slice(&distance_mm.to_le_bytes());
        record.extend_from_slice(&strength_milli.to_le_bytes());
    }
    record
}

#[test]
fn buffer_size_queries_are_stable() {
    let detector = detector_for(DistanceConfig::default());
    assert_eq!(detector.get_buffer_size(), detector.get_buffer_size());
    assert_eq!(detector.get_buffer_size(), 128);
    assert_eq!(detector.get_static_result_buffer_size(), 32);
    assert_eq!(detector.get_distance_buffer_size(), 16);
}

#[test]
fn undersized_measurement_buffer_stops_calibration() {
    let mut detector = detector_for(DistanceConfig::default());
    let artifact = CalibrationArtifact::new(vec![1]);
    let buffer = vec![0u8; 127];
    let static_buffer = vec![0u8; 32];
    let r = detector.calibrate_detector(
        &artifact,
        &buffer,
        &static_buffer,
        EngineCalibration::Completed { dynamic: vec![1] },
    );
    assert!(matches!(r, Err(SensorError::BufferTooSmall)));
}

#[test]
fn undersized_static_buffer_stops_calibration() {
    let mut detector = detector_for(DistanceConfig::default());
    let artifact = CalibrationArtifact::new(vec![1]);
    let buffer = vec![0u8; 128];
    let static_buffer = vec![0u8; 31];
    let r = detector.calibrate_detector(
        &artifact,
        &buffer,
        &static_buffer,
        EngineCalibration::Completed { dynamic: vec![1] },
    );
    assert!(matches!(r, Err(SensorError::BufferTooSmall)));
}

#[test]
fn engine_calibration_failure_is_reported() {
    let mut detector = detector_for(DistanceConfig::default());
    let artifact = CalibrationArtifact::new(vec![1]);
    let buffer = vec![0u8; 128];
    let static_buffer = vec![0u8; 32];
    let r = detector.calibrate_detector(&artifact, &buffer, &static_buffer, EngineCalibration::Failed);
    assert!(matches!(r, Err(SensorError::CalibrationFailed)));
}

#[test]
fn undersized_buffer_stops_prepare() {
    let mut detector = detector_for(DistanceConfig::default());
    let artifact = CalibrationArtifact::new(vec![1]);
    let buffer = vec![0u8; 10];
    assert_eq!(
        detector.prepare_detector(&artifact, &buffer, true),
        Err(SensorError::BufferTooSmall)
    );
}

#[test]
fn round_trip_with_clean_engine_reports_no_recalibration() {
    // calibrate, prepare, measure and process against a simulated engine
    // that never asks for recalibration
    let mut config = DistanceConfig::default();
    config.set_interval(200, 3000);
    let mut detector = detector_for(config);
    let artifact = CalibrationArtifact::new(vec![1, 2]);
    let buffer = vec![0u8; 128];
    let static_buffer = vec![0u8; 32];

    let dynamic = detector
        .calibrate_detector(
            &artifact,
            &buffer,
            &static_buffer,
            EngineCalibration::Completed { dynamic: vec![7, 7] },
        )
        .unwrap_or_else(|_| panic!("calibration must succeed"));

    assert_eq!(detector.prepare_detector(&artifact, &buffer, true), Ok(()));

    let mut frame_buffer = vec![0u8; 16];
    let frame = vec![0xA5u8; 16];
    assert_eq!(
        detector.measure(&mut frame_buffer, &frame, MeasureOutcome::FrameReady),
        Ok(())
    );

    let record = distance_record(0, false, &[(1500, 900)]);
    let result = detector.process_data(&record, &dynamic).unwrap();
    assert!(!result.calibration_needed);
    assert_eq!(result.validity, ResultValidity::Specified);
    assert!(!detector.state.calibration_pending);

    // the next round needs no recalibration either: prepare and process again
    assert_eq!(detector.prepare_detector(&artifact, &buffer, true), Ok(()));
    let record = distance_record(0, false, &[]);
    let result = detector.process_data(&record, &dynamic).unwrap();
    assert_eq!(result.validity, ResultValidity::Specified);
    assert_eq!(result.num_distances(), 0);
}

#[test]
fn skipping_recalibration_degrades_validity_without_crash() {
    // once the engine signals calibration_needed, processing further frames
    // without an intervening detector calibration returns results of
    // unspecified validity instead of crashing
    let mut detector = detector_for(DistanceConfig::default());
    let artifact = CalibrationArtifact::new(vec![1]);
    let buffer = vec![0u8; 128];
    let static_buffer = vec![0u8; 32];
    let dynamic = detector
        .calibrate_detector(
            &artifact,
            &buffer,
            &static_buffer,
            EngineCalibration::Completed { dynamic: vec![7] },
        )
        .unwrap_or_else(|_| panic!("calibration must succeed"));
    assert_eq!(detector.prepare_detector(&artifact, &buffer, true), Ok(()));

    let record = distance_record(0, true, &[(500, 100)]);
    let result = detector.process_data(&record, &dynamic).unwrap();
    assert!(result.calibration_needed);
    assert!(detector.state.calibration_pending);

    // continue without calibrate_detector: no crash, but unspecified validity
    assert_eq!(detector.prepare_detector(&artifact, &buffer, true), Ok(()));
    let record = distance_record(0, false, &[(500, 100)]);
    let result = detector.process_data(&record, &dynamic).unwrap();
    assert_eq!(result.validity, ResultValidity::Unspecified);

    // recalibrating clears the signal and restores specified validity
    let dynamic = detector
        .calibrate_detector(
            &artifact,
            &buffer,
            &static_buffer,
            EngineCalibration::Completed { dynamic: vec![8] },
        )
        .unwrap_or_else(|_| panic!("calibration must succeed"));
    assert!(!detector.state.calibration_pending);
    assert_eq!(detector.prepare_detector(&artifact, &buffer, true), Ok(()));
    let record = distance_record(0, false, &[]);
    let result = detector.process_data(&record, &dynamic).unwrap();
    assert_eq!(result.validity, ResultValidity::Specified);
}

#[test]
fn distance_interval_scenario_reports_one_peak_in_range() {
    // a distance detector over 200 to 3000 millimeters; after successful
    // calibration, a frame with one synthetic peak yields exactly one
    // distance, inside the configured interval
    let mut config = DistanceConfig::default();
    config.set_interval(200, 3000);
    let mut detector = detector_for(config);
    let artifact = CalibrationArtifact::new(vec![1]);
    let buffer = vec![0u8; 128];
    let static_buffer = vec![0u8; 32];
    let dynamic = detector
        .calibrate_detector(
            &artifact,
            &buffer,
            &static_buffer,
            EngineCalibration::Completed { dynamic: vec![7] },
        )
        .unwrap_or_else(|_| panic!("calibration must succeed"));
    assert_eq!(detector.prepare_detector(&artifact, &buffer, true), Ok(()));

    let record = distance_record(0, false, &[(1500, 750)]);
    let result = detector.process_data(&record, &dynamic).unwrap();
    assert_eq!(result.num_distances(), 1);
    let peak = result.distances[0];
    assert!(detector.config.start_mm <= peak.distance_mm);
    assert!(peak.distance_mm <= detector.config.end_mm);
    assert_eq!(peak.strength_milli, 750);
}

#[test]
fn process_data_rejects_malformed_records() {
    let mut detector = detector_for(DistanceConfig::default());
    let artifact = CalibrationArtifact::new(vec![1]);
    let buffer = vec![0u8; 128];
    let static_buffer = vec![0u8; 32];
    let dynamic = detector
        .calibrate_detector(
            &artifact,
            &buffer,
            &static_buffer,
            EngineCalibration::Completed { dynamic: vec![7] },
        )
        .unwrap_or_else(|_| panic!("calibration must succeed"));

    // engine-reported failure status
    let record = distance_record(1, false, &[]);
    assert!(matches!(
        detector.process_data(&record, &dynamic),
        Err(ProcessDataError::ProcessingFailed)
    ));

    // truncated record: count promises one peak, bytes hold none
    let record = distance_record(0, false, &[(1, 1)])[..8].to_vec();
    assert!(matches!(
        detector.process_data(&record, &dynamic),
        Err(ProcessDataError::ProcessingFailed)
    ));
}

#[test]
fn process_data_decodes_multiple_peaks() {
    let mut detector = detector_for(DistanceConfig::default());
    let artifact = CalibrationArtifact::new(vec![1]);
    let buffer = vec![0u8; 128];
    let static_buffer = vec![0u8; 32];
    let dynamic = detector
        .calibrate_detector(
            &artifact,
            &buffer,
            &static_buffer,
            EngineCalibration::Completed { dynamic: vec![7] },
        )
        .unwrap_or_else(|_| panic!("calibration must succeed"));
    let record = distance_record(0, false, &[(250, 1000), (1200, 500), (2900, 125)]);
    let result = detector.process_data(&record, &dynamic).unwrap();
    assert_eq!(result.num_distances(), 3);
    assert_eq!(result.distances[0].distance_mm, 250);
    assert_eq!(result.distances[1].distance_mm, 1200);
    assert_eq!(result.distances[2].distance_mm, 2900);
    assert_eq!(result.distances[2].strength_milli, 125);
}
