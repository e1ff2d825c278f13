use pure_flow::domain::sensor_data::{RawCO2SensorData, RawHCOHSensorData};
use pure_flow::tasks::{
    scd40_step, sfa30_step, Scd40Event, SensorCommand, Sfa30Event, MEASUREMENT_INTERVAL_MS,
    SFA30_RETRY_DELAY_MS,
};

#[test]
fn scd40_polls_after_start_and_halts_on_failed_start() {
    let step = scd40_step(Scd40Event::Started);
    assert_eq!(step.command, SensorCommand::CheckDataReady);
    assert_eq!(step.wait_ms, 0);
    let step = scd40_step(Scd40Event::StartFailed);
    assert_eq!(step.command, SensorCommand::Halt);
    assert!(step.publish.is_none());
}

#[test]
fn scd40_reads_only_when_ready() {
    let step = scd40_step(Scd40Event::DataReady(true));
    assert_eq!(step.command, SensorCommand::Measure);
    assert_eq!(step.wait_ms, 0);
    let step = scd40_step(Scd40Event::DataReady(false));
    assert_eq!(step.command, SensorCommand::CheckDataReady);
    assert_eq!(step.wait_ms, MEASUREMENT_INTERVAL_MS);
    let step = scd40_step(Scd40Event::DataReadyFailed);
    assert_eq!(step.command, SensorCommand::CheckDataReady);
    assert_eq!(step.wait_ms, 1000);
}

#[test]
fn scd40_publishes_measurements() {
    let reading = RawCO2SensorData { co2_ppm: 500, temperature_raw: 27067, humidity_raw: 26214 };
    let step = scd40_step(Scd40Event::Measured(reading));
    assert_eq!(step.publish, Some(reading));
    assert_eq!(step.wait_ms, 1000);
    assert_eq!(step.command, SensorCommand::CheckDataReady);
    let step = scd40_step(Scd40Event::MeasureFailed);
    assert!(step.publish.is_none());
    assert_eq!(step.command, SensorCommand::CheckDataReady);
}

#[test]
fn sfa30_retries_start_every_five_seconds() {
    let step = sfa30_step(Sfa30Event::StartFailed);
    assert_eq!(step.command, SensorCommand::Start);
    assert_eq!(step.wait_ms, SFA30_RETRY_DELAY_MS);
    assert_eq!(step.wait_ms, 5000);
    let step = sfa30_step(Sfa30Event::Started);
    assert_eq!(step.command, SensorCommand::Measure);
    assert_eq!(step.wait_ms, 1000);
}

#[test]
fn sfa30_keeps_measuring() {
    let reading = RawHCOHSensorData { hcho_ppb: 55, humidity_raw: 5475, temperature_raw: 6526 };
    let step = sfa30_step(Sfa30Event::Measured(reading));
    assert_eq!(step.publish, Some(reading));
    assert_eq!(step.command, SensorCommand::Measure);
    assert_eq!(step.wait_ms, 1000);
    let step = sfa30_step(Sfa30Event::MeasureFailed);
    assert!(step.publish.is_none());
    assert_eq!(step.command, SensorCommand::Measure);
    assert_eq!(step.wait_ms, 1000);
}
