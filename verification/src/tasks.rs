//! Scheduling decisions of the sensor tasks. A runner performs the bus
//! operation that a step names, reports its outcome as an event, and receives
//! the next step: what to publish, how long to wait, and what to do next.

use vstd::prelude::*;

use crate::domain::sensor_data::{RawCO2SensorData, RawHCOHSensorData};

verus! {

/// Pause between two measurement cycles, in milliseconds.
pub const MEASUREMENT_INTERVAL_MS: u64 = 1000;

/// Pause before retrying a failed SFA30 start, in milliseconds.
pub const SFA30_RETRY_DELAY_MS: u64 = 5000;

/// The bus operation a sensor task performs next.
#[derive(Debug, Clone, Copy, PartialEq, Eq, Structural)]
pub enum SensorCommand {
    /// Start periodic or continuous measurement.
    Start,
    /// Ask whether a fresh sample is available.
    CheckDataReady,
    /// Read one measurement.
    Measure,
    /// Stop the task for good.
    Halt,
}

/// One step of a sensor task: publish `publish` (if any), wait `wait_ms`
/// milliseconds, then perform `command`.
#[derive(Debug)]
pub struct TaskStep<S> {
    pub publish: Option<S>,
    pub wait_ms: u64,
    pub command: SensorCommand,
}

/// Outcome of an SCD40 operation.
#[derive(Debug)]
pub enum Scd40Event {
    Started,
    StartFailed,
    DataReady(bool),
    DataReadyFailed,
    Measured(RawCO2SensorData),
    MeasureFailed,
}

/// Outcome of an SFA30 operation.
#[derive(Debug)]
pub enum Sfa30Event {
    Started,
    StartFailed,
    Measured(RawHCOHSensorData),
    MeasureFailed,
}

/// The SCD40 task's reaction to an event: after a start it polls the
/// data-ready flag at once, or stops for good if the start failed; a positive
/// flag is followed at once by a read; a published measurement, a negative
/// flag or any failure is followed by the next poll one interval later.
pub open spec fn spec_scd40_step(event: Scd40Event) -> TaskStep<RawCO2SensorData> {
    match event {
        Scd40Event::Started => TaskStep {
            publish: None,
            wait_ms: 0,
            command: SensorCommand::CheckDataReady,
        },
        Scd40Event::StartFailed => TaskStep {
            publish: None,
            wait_ms: 0,
            command: SensorCommand::Halt,
        },
        Scd40Event::DataReady(true) => TaskStep {
            publish: None,
            wait_ms: 0,
            command: SensorCommand::Measure,
        },
        Scd40Event::Measured(reading) => TaskStep {
            publish: Some(reading),
            wait_ms: MEASUREMENT_INTERVAL_MS,
            command: SensorCommand::CheckDataReady,
        },
        _ => TaskStep {
            publish: None,
            wait_ms: MEASUREMENT_INTERVAL_MS,
            command: SensorCommand::CheckDataReady,
        },
    }
}

/// The SFA30 task's reaction to an event: a failed start is retried after the
/// retry delay, without end; once started it reads one measurement per
/// interval, publishing each one that was read successfully.
pub open spec fn spec_sfa30_step(event: Sfa30Event) -> TaskStep<RawHCOHSensorData> {
    match event {
        Sfa30Event::Started => TaskStep {
            publish: None,
            wait_ms: MEASUREMENT_INTERVAL_MS,
            command: SensorCommand::Measure,
        },
        Sfa30Event::StartFailed => TaskStep {
            publish: None,
            wait_ms: SFA30_RETRY_DELAY_MS,
            command: SensorCommand::Start,
        },
        Sfa30Event::Measured(reading) => TaskStep {
            publish: Some(reading),
            wait_ms: MEASUREMENT_INTERVAL_MS,
            command: SensorCommand::Measure,
        },
        Sfa30Event::MeasureFailed => TaskStep {
            publish: None,
            wait_ms: MEASUREMENT_INTERVAL_MS,
            command: SensorCommand::Measure,
        },
    }
}

/// Next step of the SCD40 task after `event`.
pub fn scd40_step(event: Scd40Event) -> (step: TaskStep<RawCO2SensorData>)
    ensures
        step == spec_scd40_step(event),
{
    match event {
        Scd40Event::Started => TaskStep {
            publish: None,
            wait_ms: 0,
            command: SensorCommand::CheckDataReady,
        },
        Scd40Event::StartFailed => TaskStep { publish: None, wait_ms: 0, command: SensorCommand::Halt },
        Scd40Event::DataReady(ready) => {
            if ready {
                TaskStep { publish: None, wait_ms: 0, command: SensorCommand::Measure }
            } else {
                TaskStep {
                    publish: None,
                    wait_ms: MEASUREMENT_INTERVAL_MS,
                    command: SensorCommand::CheckDataReady,
                }
            }
        },
        Scd40Event::DataReadyFailed => TaskStep {
            publish: None,
            wait_ms: MEASUREMENT_INTERVAL_MS,
            command: SensorCommand::CheckDataReady,
        },
        Scd40Event::Measured(reading) => TaskStep {
            publish: Some(reading),
            wait_ms: MEASUREMENT_INTERVAL_MS,
            command: SensorCommand::CheckDataReady,
        },
        Scd40Event::MeasureFailed => TaskStep {
            publish: None,
            wait_ms: MEASUREMENT_INTERVAL_MS,
            command: SensorCommand::CheckDataReady,
        },
    }
}

/// Next step of the SFA30 task after `event`.
pub fn sfa30_step(event: Sfa30Event) -> (step: TaskStep<RawHCOHSensorData>)
    ensures
        step == spec_sfa30_step(event),
{
    match event {
        Sfa30Event::Started => TaskStep {
            publish: None,
            wait_ms: MEASUREMENT_INTERVAL_MS,
            command: SensorCommand::Measure,
        },
        Sfa30Event::StartFailed => TaskStep {
            publish: None,
            wait_ms: SFA30_RETRY_DELAY_MS,
            command: SensorCommand::Start,
        },
        Sfa30Event::Measured(reading) => TaskStep {
            publish: Some(reading),
            wait_ms: MEASUREMENT_INTERVAL_MS,
            command: SensorCommand::Measure,
        },
        Sfa30Event::MeasureFailed => TaskStep {
            publish: None,
            wait_ms: MEASUREMENT_INTERVAL_MS,
            command: SensorCommand::Measure,
        },
    }
}

/// The SCD40 task stops only when starting the sensor failed.
pub proof fn lemma_scd40_halts_only_on_failed_start(event: Scd40Event)
    ensures
        spec_scd40_step(event).command == SensorCommand::Halt <==> event is StartFailed,
{
}

/// The SCD40 task reads a measurement only right after the sensor reported a
/// fresh sample, and publishes exactly the measurements it read.
pub proof fn lemma_scd40_measures_when_ready(event: Scd40Event)
    ensures
        spec_scd40_step(event).command == SensorCommand::Measure <==> event == Scd40Event::DataReady(
            true,
        ),
        spec_scd40_step(event).publish is Some <==> event is Measured,
        event matches Scd40Event::Measured(r) ==> spec_scd40_step(event).publish == Some(r),
{
}

/// The SCD40 task polls the data-ready flag at once only after a successful
/// start, and reads at once only after a positive flag; after every other
/// event (a negative flag, a failed poll, a measurement read or failed) it
/// waits one measurement interval and then polls again.
pub proof fn lemma_scd40_polls_once_per_interval(event: Scd40Event)
    ensures
        !(event is Started) && !(event is StartFailed) && event != Scd40Event::DataReady(true)
            ==> spec_scd40_step(event).wait_ms == MEASUREMENT_INTERVAL_MS
            && spec_scd40_step(event).command == SensorCommand::CheckDataReady,
        event is Started || event is StartFailed || event == Scd40Event::DataReady(true)
            ==> spec_scd40_step(event).wait_ms == 0,
        event is Started ==> spec_scd40_step(event).command == SensorCommand::CheckDataReady,
{
}

/// The SFA30 task never stops: a failed start is retried after the retry
/// delay, and once running it keeps measuring once per interval.
pub proof fn lemma_sfa30_never_halts(event: Sfa30Event)
    ensures
        spec_sfa30_step(event).command != SensorCommand::Halt,
        event is StartFailed ==> spec_sfa30_step(event).command == SensorCommand::Start
            && spec_sfa30_step(event).wait_ms == SFA30_RETRY_DELAY_MS,
        !(event is StartFailed) ==> spec_sfa30_step(event).command == SensorCommand::Measure
            && spec_sfa30_step(event).wait_ms == MEASUREMENT_INTERVAL_MS,
{
}

/// The SFA30 task publishes exactly the measurements it read.
pub proof fn lemma_sfa30_publishes_measurements(event: Sfa30Event)
    ensures
        spec_sfa30_step(event).publish is Some <==> event is Measured,
        event matches Sfa30Event::Measured(r) ==> spec_sfa30_step(event).publish == Some(r),
{
}

} // verus!
