use iot_telemetry::agent::{FileDatasource, ReadStep};
use iot_telemetry::config::{Environment, Mqtt, Server};
use iot_telemetry::convenience::KtConvenience;
use iot_telemetry::domain::{Accelerometer, Agent, Gps, Timestamp};
use iot_telemetry::text::{push_decimal, push_signed_decimal};

#[test]
fn replay_rewinds_then_gives_up_on_empty_files() {
    let source = FileDatasource::new("acc.csv".to_string(), "gps.csv".to_string());
    let mut reading = source.start_reading();
    let a = Accelerometer::new(1, 2, 3);
    let g = Gps::try_new(4, 5).unwrap();
    let now = Timestamp::new(100, 0).unwrap();
    assert_eq!(reading.read(Some(a), Some(g), now), ReadStep::Record(Agent::new(a, g, now)));
    assert_eq!(reading.read(Some(a), None, now), ReadStep::Rewind);
    assert_eq!(reading.read(Some(a), Some(g), now), ReadStep::Record(Agent::new(a, g, now)));
    assert_eq!(reading.read(None, None, now), ReadStep::Rewind);
    assert_eq!(reading.read(None, Some(g), now), ReadStep::Exhausted);
    let stopped = reading.stop_reading();
    assert_eq!(stopped.accelerometer_filename(), "acc.csv");
    assert_eq!(stopped.gps_filename(), "gps.csv");
}

#[test]
fn broker_address_and_accessors() {
    let m = Mqtt::new(Server::new("localhost".to_string(), 1883), "agent".to_string());
    assert_eq!(m.broker_address(), "tcp://localhost:1883");
    assert_eq!(m.broker_host(), "localhost");
    assert_eq!(m.broker_port(), 1883);
    assert_eq!(m.topic(), "agent");
    let s = Server::new("10.0.0.1".to_string(), 0);
    assert_eq!((s.host(), s.port()), ("10.0.0.1".to_string(), 0));
    let m = Mqtt::new(s, "t".to_string());
    assert_eq!(m.broker_address(), "tcp://10.0.0.1:0");
}

#[test]
fn environment_names() {
    assert_eq!(Environment::parse("local"), Ok(Environment::Local));
    assert_eq!(Environment::parse("production"), Ok(Environment::Production));
    assert_eq!(Environment::parse("prod"), Err("Unknown environment: prod".to_string()));
    assert_eq!(Environment::parse(""), Err("Unknown environment: ".to_string()));
    assert_eq!(Environment::Local.as_str(), "local");
    assert_eq!(Environment::Production.as_str(), "production");
}

#[test]
fn scope_functions() {
    assert_eq!(5.take_if(|v| *v > 3), Some(5));
    assert_eq!(2.take_if(|v| *v > 3), None);
    assert_eq!(4.pipe(|v| v * 10), 40);
    assert_eq!("s".also(|_| {}), "s");
}

#[test]
fn decimal_rendering() {
    let mut s = String::from("n=");
    push_decimal(&mut s, 0);
    push_decimal(&mut s, 1234567890);
    assert_eq!(s, "n=01234567890");
    let mut s = String::new();
    push_signed_decimal(&mut s, i64::MIN);
    assert_eq!(s, "-9223372036854775808");
    let mut s = String::new();
    push_signed_decimal(&mut s, -7);
    assert_eq!(s, "-7");
}
