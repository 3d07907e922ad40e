//! The radar handle: one physical sensor behind a type-tagged lifecycle.
//!
//! A handle starts `Uninitialized` (hardware enabled, uncalibrated) and is
//! consumed by value into a `Ready` handle once a well-formed calibration
//! artifact has prepared the sensor. Measurement is only defined on
//! `Radar<Ready>`, so calling it earlier is unrepresentable rather than
//! runtime-checked.
//!
//! Sensor calibration is a two-phase protocol driven from outside: the task
//! awaits the ready-interrupt edge, asks the engine whether it wants a
//! transport exchange or is done, services the exchange if one was requested,
//! and repeats. [`CalibrationSession`] is the verified decision core of that
//! loop: it consumes the observed events and prescribes the next action.

use vstd::prelude::*;
use core::marker::PhantomData;
use crate::sensor::{CalibrationArtifact, SensorError};

verus! {

/// Lifecycle tag: just constructed, hardware enabled but uncalibrated.
pub struct Uninitialized;

/// Lifecycle tag: calibrated and prepared; accepts measurements.
pub struct Ready;

/// One physical radar sensor, tagged with its lifecycle state `S`.
#[verifier::reject_recursive_types(S)]
pub struct Radar<S> {
    sensor_id: u32,
    frame_size: usize,
    _state: PhantomData<S>,
}

/// Where the calibration protocol stands.
#[derive(Clone, Copy, Debug, PartialEq, Eq, Structural)]
pub enum CalPhase {
    /// Waiting for the next ready-interrupt edge.
    AwaitEdge,
    /// The engine requested a transport exchange that must be serviced now.
    Exchange,
    /// The engine reported successful completion; the artifact can be read.
    Complete,
    /// The protocol ended in failure.
    Failed,
}

/// What the driving task observed since the last decision.
#[derive(Clone, Copy, Debug, PartialEq, Eq, Structural)]
pub enum CalEvent {
    /// A ready-interrupt edge fired and the engine requests an exchange.
    EdgeExchangeRequested,
    /// A ready-interrupt edge fired and the engine reports completion.
    EdgeCompleted {
        /// The engine's own success report.
        engine_ok: bool,
    },
    /// The requested transport exchange was serviced.
    ExchangeServiced,
    /// The transport device failed during the requested exchange.
    ExchangeFailed,
    /// The wait for the ready-interrupt edge exceeded the wait bound.
    TimedOut,
}

/// What the driving task must do next.
#[derive(Clone, Copy, Debug, PartialEq, Eq, Structural)]
pub enum CalAction {
    /// Suspend until the next ready-interrupt edge.
    WaitForEdge,
    /// Service one transport exchange through the bridge.
    ServiceExchange,
    /// Calibration completed; collect the artifact from the engine.
    Finish,
    /// Calibration failed with the given error.
    Abort(SensorError),
    /// The session is already over; nothing to do.
    Idle,
}

/// The decision core of one sensor calibration run.
pub struct CalibrationSession {
    phase: CalPhase,
    exchanges: u64,
}

impl CalibrationSession {
    /// The protocol phase the session is in.
    pub closed spec fn spec_phase(self) -> CalPhase {
        self.phase
    }

    /// How many transport exchanges have been serviced in this run.
    pub closed spec fn spec_exchanges(self) -> u64 {
        self.exchanges
    }

    /// The phase that observing `event` in `phase` leads to.
    pub open spec fn spec_step(phase: CalPhase, event: CalEvent) -> CalPhase {
        match phase {
            CalPhase::AwaitEdge => match event {
                CalEvent::EdgeExchangeRequested => CalPhase::Exchange,
                CalEvent::EdgeCompleted { engine_ok } => if engine_ok {
                    CalPhase::Complete
                } else {
                    CalPhase::Failed
                },
                CalEvent::TimedOut => CalPhase::Failed,
                _ => CalPhase::AwaitEdge,
            },
            CalPhase::Exchange => match event {
                CalEvent::ExchangeServiced => CalPhase::AwaitEdge,
                CalEvent::ExchangeFailed => CalPhase::Failed,
                _ => CalPhase::Exchange,
            },
            CalPhase::Complete => CalPhase::Complete,
            CalPhase::Failed => CalPhase::Failed,
        }
    }

    /// The action prescribed on observing `event` in `phase`.
    pub open spec fn spec_action(phase: CalPhase, event: CalEvent) -> CalAction {
        match phase {
            CalPhase::AwaitEdge => match event {
                CalEvent::EdgeExchangeRequested => CalAction::ServiceExchange,
                CalEvent::EdgeCompleted { engine_ok } => if engine_ok {
                    CalAction::Finish
                } else {
                    CalAction::Abort(SensorError::CalibrationFailed)
                },
                CalEvent::TimedOut => CalAction::Abort(SensorError::Timeout),
                _ => CalAction::WaitForEdge,
            },
            CalPhase::Exchange => match event {
                CalEvent::ExchangeServiced => CalAction::WaitForEdge,
                CalEvent::ExchangeFailed => CalAction::Abort(SensorError::TransportError),
                _ => CalAction::ServiceExchange,
            },
            CalPhase::Complete => CalAction::Idle,
            CalPhase::Failed => CalAction::Idle,
        }
    }

    /// Consumes one observed event and prescribes the next action.
    ///
    /// The transition table: while awaiting an edge, an edge that carries an
    /// exchange request moves to servicing it; an edge that carries the
    /// engine's completion report finishes (or aborts with
    /// `CalibrationFailed`); exceeding the wait bound aborts with `Timeout`.
    /// While an exchange is due, servicing it resumes the wait and a
    /// transport failure aborts with `TransportError`. A finished session
    /// ignores further events. An event that does not belong to the current
    /// phase changes nothing and the pending action is prescribed again.
    pub fn on_event(&mut self, event: CalEvent) -> (action: CalAction)
        ensures
            final(self).spec_phase() == CalibrationSession::spec_step(old(self).spec_phase(), event),
            action == CalibrationSession::spec_action(old(self).spec_phase(), event),
            final(self).spec_exchanges() == if old(self).spec_phase() == CalPhase::Exchange
                && event == CalEvent::ExchangeServiced
                && old(self).spec_exchanges() < u64::MAX {
                (old(self).spec_exchanges() + 1) as u64
            } else {
                old(self).spec_exchanges()
            },
    {
        match self.phase {
            CalPhase::AwaitEdge => match event {
                CalEvent::EdgeExchangeRequested => {
                    self.phase = CalPhase::Exchange;
                    CalAction::ServiceExchange
                },
                CalEvent::EdgeCompleted { engine_ok } => {
                    if engine_ok {
                        self.phase = CalPhase::Complete;
                        CalAction::Finish
                    } else {
                        self.phase = CalPhase::Failed;
                        CalAction::Abort(SensorError::CalibrationFailed)
                    }
                },
                CalEvent::TimedOut => {
                    self.phase = CalPhase::Failed;
                    CalAction::Abort(SensorError::Timeout)
                },
                _ => CalAction::WaitForEdge,
            },
            CalPhase::Exchange => match event {
                CalEvent::ExchangeServiced => {
                    self.phase = CalPhase::AwaitEdge;
                    if self.exchanges < u64::MAX {
                        self.exchanges = self.exchanges + 1;
                    }
                    CalAction::WaitForEdge
                },
                CalEvent::ExchangeFailed => {
                    self.phase = CalPhase::Failed;
                    CalAction::Abort(SensorError::TransportError)
                },
                _ => CalAction::ServiceExchange,
            },
            CalPhase::Complete => CalAction::Idle,
            CalPhase::Failed => CalAction::Idle,
        }
    }

    /// Which phase the session is in, for the driving loop.
    pub fn phase(&self) -> (r: CalPhase)
        ensures
            r == self.spec_phase(),
    {
        self.phase
    }

    /// How many transport exchanges this run has serviced so far; the count
    /// is engine-determined and varies from run to run.
    pub fn exchanges_serviced(&self) -> (r: u64)
        ensures
            r == self.spec_exchanges(),
    {
        self.exchanges
    }

    /// An exchange is only ever prescribed in direct response to an edge that
    /// requested one: from the waiting phase, `ServiceExchange` is the action
    /// exactly on an `EdgeExchangeRequested` event.
    pub proof fn lemma_exchange_needs_edge(event: CalEvent)
        ensures
            (CalibrationSession::spec_action(CalPhase::AwaitEdge, event)
                == CalAction::ServiceExchange) <==> event == CalEvent::EdgeExchangeRequested,
    {
    }

    /// A session completes only on an awaited edge that carries the engine's
    /// own success report: no other phase and event lead into `Complete`.
    pub proof fn lemma_complete_needs_engine_report(phase: CalPhase, event: CalEvent)
        requires
            phase != CalPhase::Complete,
        ensures
            (CalibrationSession::spec_step(phase, event) == CalPhase::Complete) <==> (phase
                == CalPhase::AwaitEdge && event == (CalEvent::EdgeCompleted { engine_ok: true })),
    {
    }

    /// A session that finished, successfully or not, stays finished: no event
    /// moves it out of `Complete` or `Failed`.
    pub proof fn lemma_terminal_phases_absorb(phase: CalPhase, event: CalEvent)
        requires
            phase == CalPhase::Complete || phase == CalPhase::Failed,
        ensures
            CalibrationSession::spec_step(phase, event) == phase,
            CalibrationSession::spec_action(phase, event) == CalAction::Idle,
    {
    }
}

impl Radar<Uninitialized> {
    /// Returns the handle for the sensor with the given identifier, a small
    /// positive integer unique per bus. The enable line has been asserted and
    /// the settle delay waited by the hardware layer before this handle is
    /// built.
    pub fn new(sensor_id: u32) -> (r: Radar<Uninitialized>)
        requires
            sensor_id >= 1,
        ensures
            r.spec_sensor_id() == sensor_id,
    {
        Radar { sensor_id, frame_size: 0, _state: PhantomData }
    }

    /// Opens the decision core for one sensor calibration run; the driving
    /// task feeds it events and performs the actions it prescribes, then, on
    /// `Finish`, collects the artifact from the engine.
    pub fn calibrate(&self) -> (s: CalibrationSession)
        ensures
            s.spec_phase() == CalPhase::AwaitEdge,
            s.spec_exchanges() == 0,
    {
        CalibrationSession { phase: CalPhase::AwaitEdge, exchanges: 0 }
    }

    /// Consumes the calibration artifact to configure the sensor for
    /// measurement, turning this handle into a `Ready` one. `frame_size` is
    /// the engine-declared length of one raw measurement frame.
    ///
    /// A malformed or stale artifact fails with `PrepareFailed` and hands the
    /// unchanged `Uninitialized` handle back, so calibration can be retried.
    pub fn prepare_sensor(
        self,
        calibration: &CalibrationArtifact,
        frame_size: usize,
    ) -> (r: Result<Radar<Ready>, (Radar<Uninitialized>, SensorError)>)
        requires
            frame_size >= 1,
        ensures
            calibration.wf() ==> (r matches Ok(ready)
                && ready.spec_sensor_id() == self.spec_sensor_id()
                && ready.spec_frame_size() == frame_size),
            !calibration.wf() ==> (r matches Err((kept, e))
                && kept.spec_sensor_id() == self.spec_sensor_id()
                && e == SensorError::PrepareFailed),
    {
        if calibration.is_well_formed() {
            Ok(Radar { sensor_id: self.sensor_id, frame_size, _state: PhantomData })
        } else {
            Err((self, SensorError::PrepareFailed))
        }
    }
}

impl Radar<Ready> {
    /// The engine-declared length of one raw measurement frame.
    pub fn frame_size(&self) -> (r: usize)
        ensures
            r == self.spec_frame_size(),
    {
        self.frame_size
    }

    /// Triggers one measurement frame and writes its raw data into `buffer`.
    ///
    /// The driving task has awaited the ready-interrupt edge; `outcome` is
    /// what the wait observed, and `frame` holds the raw frame the engine
    /// delivered. A buffer shorter than the engine-declared frame size fails
    /// with `BufferTooSmall` before anything else is consulted, and an
    /// exceeded wait bound fails with `Timeout`; in both cases the buffer is
    /// untouched. On success the frame occupies the front of the buffer and
    /// the bytes past it keep their previous values.
    pub fn measure(
        &self,
        buffer: &mut Vec<u8>,
        frame: &Vec<u8>,
        outcome: MeasureOutcome,
    ) -> (r: Result<(), SensorError>)
        requires
            frame@.len() == self.spec_frame_size(),
        ensures
            old(buffer)@.len() < self.spec_frame_size() ==> {
                &&& r == Err::<(), SensorError>(SensorError::BufferTooSmall)
                &&& final(buffer)@ == old(buffer)@
            },
            old(buffer)@.len() >= self.spec_frame_size() && outcome == MeasureOutcome::TimedOut
                ==> {
                &&& r == Err::<(), SensorError>(SensorError::Timeout)
                &&& final(buffer)@ == old(buffer)@
            },
            old(buffer)@.len() >= self.spec_frame_size() && outcome == MeasureOutcome::FrameReady
                ==> {
                &&& r == Ok::<(), SensorError>(())
                &&& final(buffer)@ == frame@ + old(buffer)@.skip(frame@.len() as int)
            },
    {
        if buffer.len() < self.frame_size {
            return Err(SensorError::BufferTooSmall);
        }
        match outcome {
            MeasureOutcome::TimedOut => Err(SensorError::Timeout),
            MeasureOutcome::FrameReady => {
                let mut i: usize = 0;
                while i < frame.len()
                    invariant
                        i <= frame@.len(),
                        frame@.len() <= buffer@.len(),
                        buffer@.len() == old(buffer)@.len(),
                        forall|j: int| 0 <= j < i ==> buffer@[j] == frame@[j],
                        forall|j: int| i <= j < buffer@.len() ==> buffer@[j] == old(buffer)@[j],
                    decreases frame@.len() - i,
                {
                    buffer[i] = frame[i];
                    i = i + 1;
                }
                assert(buffer@ =~= frame@ + old(buffer)@.skip(frame@.len() as int));
                Ok(())
            },
        }
    }
}

impl<S> Radar<S> {
    /// The sensor identifier this handle addresses.
    pub closed spec fn spec_sensor_id(self) -> u32 {
        self.sensor_id
    }

    /// The engine-declared length of one raw measurement frame; meaningful
    /// once the handle is `Ready`.
    pub closed spec fn spec_frame_size(self) -> usize {
        self.frame_size
    }

    /// The sensor identifier this handle addresses.
    pub fn sensor_id(&self) -> (r: u32)
        ensures
            r == self.spec_sensor_id(),
    {
        self.sensor_id
    }
}

/// What the wait for the measurement-frame edge observed.
#[derive(Clone, Copy, Debug, PartialEq, Eq, Structural)]
pub enum MeasureOutcome {
    /// The edge fired and the engine delivered the frame.
    FrameReady,
    /// The wait exceeded the wait bound.
    TimedOut,
}

} // verus!
