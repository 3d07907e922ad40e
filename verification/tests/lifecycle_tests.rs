//! Tests for the radar handle lifecycle and the calibration protocol.
//!
//! The only way to obtain a handle that accepts measurements is to consume an
//! uninitialized handle through `prepare_sensor` with a well-formed artifact:
//! `measure` is defined on `Radar<Ready>` alone, so calling it on an
//! uninitialized handle is rejected by the compiler, not at run time.

use a121_rs::radar::{CalAction, CalEvent, CalPhase, MeasureOutcome, Radar, Ready, Uninitialized};
use a121_rs::sensor::{CalibrationArtifact, SensorError};

#[test]
fn lifecycle_reaches_ready_only_through_prepare() {
    let radar: Radar<Uninitialized> = Radar::new(1);
    assert_eq!(radar.sensor_id(), 1);
    let artifact = CalibrationArtifact::new(vec![1, 2, 3, 4]);
    let ready: Radar<Ready> = match radar.prepare_sensor(&artifact, 4) {
        Ok(r) => r,
        Err(_) => panic!("well-formed artifact must prepare the sensor"),
    };
    assert_eq!(ready.sensor_id(), 1);
    assert_eq!(ready.frame_size(), 4);
}

#[test]
fn prepare_sensor_rejects_empty_artifact() {
    let radar: Radar<Uninitialized> = Radar::new(2);
    let artifact = CalibrationArtifact::new(vec![]);
    match radar.prepare_sensor(&artifact, 4) {
        Ok(_) => panic!("empty artifact must be rejected"),
        Err((kept, e)) => {
            assert_eq!(e, SensorError::PrepareFailed);
            // the handle is handed back so calibration can be retried
            assert_eq!(kept.sensor_id(), 2);
        }
    }
}

#[test]
fn prepare_sensor_rejects_stale_artifact() {
    let radar: Radar<Uninitialized> = Radar::new(1);
    let mut artifact = CalibrationArtifact::new(vec![9, 9]);
    assert!(artifact.is_well_formed());
    artifact.invalidate();
    assert!(!artifact.is_well_formed());
    match radar.prepare_sensor(&artifact, 4) {
        Ok(_) => panic!("stale artifact must be rejected"),
        Err((_, e)) => assert_eq!(e, SensorError::PrepareFailed),
    }
}

#[test]
fn calibration_session_services_engine_rounds() {
    let radar: Radar<Uninitialized> = Radar::new(1);
    let mut session = radar.calibrate();
    assert_eq!(session.phase(), CalPhase::AwaitEdge);
    // two engine-determined exchange rounds, then completion
    assert_eq!(
        session.on_event(CalEvent::EdgeExchangeRequested),
        CalAction::ServiceExchange
    );
    assert_eq!(session.phase(), CalPhase::Exchange);
    assert_eq!(session.on_event(CalEvent::ExchangeServiced), CalAction::WaitForEdge);
    assert_eq!(
        session.on_event(CalEvent::EdgeExchangeRequested),
        CalAction::ServiceExchange
    );
    assert_eq!(session.on_event(CalEvent::ExchangeServiced), CalAction::WaitForEdge);
    assert_eq!(
        session.on_event(CalEvent::EdgeCompleted { engine_ok: true }),
        CalAction::Finish
    );
    assert_eq!(session.phase(), CalPhase::Complete);
    assert_eq!(session.exchanges_serviced(), 2);
}

#[test]
fn calibration_session_engine_failure_aborts() {
    let radar: Radar<Uninitialized> = Radar::new(1);
    let mut session = radar.calibrate();
    assert_eq!(
        session.on_event(CalEvent::EdgeCompleted { engine_ok: false }),
        CalAction::Abort(SensorError::CalibrationFailed)
    );
    assert_eq!(session.phase(), CalPhase::Failed);
}

#[test]
fn calibration_session_timeout_aborts() {
    let radar: Radar<Uninitialized> = Radar::new(1);
    let mut session = radar.calibrate();
    assert_eq!(
        session.on_event(CalEvent::TimedOut),
        CalAction::Abort(SensorError::Timeout)
    );
    assert_eq!(session.phase(), CalPhase::Failed);
}

#[test]
fn calibration_session_transport_failure_aborts() {
    let radar: Radar<Uninitialized> = Radar::new(1);
    let mut session = radar.calibrate();
    session.on_event(CalEvent::EdgeExchangeRequested);
    assert_eq!(
        session.on_event(CalEvent::ExchangeFailed),
        CalAction::Abort(SensorError::TransportError)
    );
    assert_eq!(session.phase(), CalPhase::Failed);
}

#[test]
fn calibration_session_terminal_phase_absorbs() {
    let radar: Radar<Uninitialized> = Radar::new(1);
    let mut session = radar.calibrate();
    session.on_event(CalEvent::EdgeCompleted { engine_ok: true });
    assert_eq!(session.phase(), CalPhase::Complete);
    assert_eq!(session.on_event(CalEvent::TimedOut), CalAction::Idle);
    assert_eq!(session.phase(), CalPhase::Complete);
}

fn ready_radar(frame_size: usize) -> Radar<Ready> {
    let radar: Radar<Uninitialized> = Radar::new(1);
    let artifact = CalibrationArtifact::new(vec![1, 2, 3]);
    match radar.prepare_sensor(&artifact, frame_size) {
        Ok(r) => r,
        Err(_) => panic!("well-formed artifact must prepare the sensor"),
    }
}

#[test]
fn measure_writes_frame_into_buffer_front() {
    let radar = ready_radar(4);
    let mut buffer = vec![0u8; 6];
    buffer[4] = 0xEE;
    buffer[5] = 0xFF;
    let frame = vec![10u8, 20, 30, 40];
    assert_eq!(radar.measure(&mut buffer, &frame, MeasureOutcome::FrameReady), Ok(()));
    assert_eq!(buffer, vec![10, 20, 30, 40, 0xEE, 0xFF]);
}

#[test]
fn measure_small_buffer_fails_before_anything_else() {
    let radar = ready_radar(4);
    let mut buffer = vec![7u8; 3];
    let frame = vec![10u8, 20, 30, 40];
    assert_eq!(
        radar.measure(&mut buffer, &frame, MeasureOutcome::FrameReady),
        Err(SensorError::BufferTooSmall)
    );
    assert_eq!(buffer, vec![7, 7, 7]);
}

#[test]
fn measure_timeout_leaves_buffer_untouched() {
    let radar = ready_radar(2);
    let mut buffer = vec![7u8; 2];
    let frame = vec![1u8, 2];
    assert_eq!(
        radar.measure(&mut buffer, &frame, MeasureOutcome::TimedOut),
        Err(SensorError::Timeout)
    );
    assert_eq!(buffer, vec![7, 7]);
}
