use frytg_sensory::indicator::IndicatorColor;
use frytg_sensory::payload::{build_request, encode_body, Reading};
use frytg_sensory::sensor_config::{format_mac_address, get_sensor_config, SensorConfig, SensorInfo};
use frytg_sensory::telemetry::{Action, Event, Phase, Sample, SensorError, Step, TelemetryLoop};

const MAC: [u8; 6] = [0xAA, 0xBB, 0xCC, 0xDD, 0xEE, 0xFF];

fn node(disabled: bool) -> TelemetryLoop {
    let info = SensorInfo { name: "node1".to_string(), is_led_disabled: disabled, interval_in_seconds: 60 };
    TelemetryLoop::new(&info, &MAC, 123456, "192.168.1.20".to_string())
}

fn sample() -> Sample {
    Sample { co2: 612, temperature: "21.4".to_string(), humidity: "45.2".to_string() }
}

fn feed(lp: &mut TelemetryLoop, e: Event) -> Step {
    assert!(lp.accepts(&e));
    lp.step(e)
}

fn reading() -> Reading {
    Reading {
        serial: 123456,
        mac: "AA:BB:CC:DD:EE:FF".to_string(),
        cycle: 1,
        co2: 612,
        temperature: "21.4".to_string(),
        humidity: "45.2".to_string(),
    }
}

const BODY: &str =
    "{\"serial\":123456,\"mac\":\"AA:BB:CC:DD:EE:FF\",\"cycle\":1,\"co2\":612,\"temperature\":21.4,\"humidity\":45.2}";

#[test]
fn body_has_fixed_field_order() {
    assert_eq!(encode_body(&reading()), BODY);
}

#[test]
fn request_frames_body() {
    let req = build_request(&"node1".to_string(), &"192.168.1.20".to_string(), &reading());
    let expected = format!(
        "POST /sensor/intake/node1 HTTP/1.1\r\nHost: 192.168.1.20\r\nContent-Type: application/json\r\nContent-Length: 98\r\n\r\n{}",
        BODY
    );
    assert_eq!(req, expected);
    assert_eq!(BODY.len(), 98);
}

#[test]
fn body_round_trips_through_json() {
    let r = Reading {
        serial: u64::MAX,
        mac: "01:0A:00:7F:80:09".to_string(),
        cycle: 1000,
        co2: 0,
        temperature: "-3.5".to_string(),
        humidity: "100.0".to_string(),
    };
    let v: serde_json::Value = serde_json::from_str(&encode_body(&r)).unwrap();
    assert_eq!(v["serial"].as_u64(), Some(u64::MAX));
    assert_eq!(v["mac"].as_str(), Some("01:0A:00:7F:80:09"));
    assert_eq!(v["cycle"].as_u64(), Some(1000));
    assert_eq!(v["co2"].as_u64(), Some(0));
    assert_eq!(v["temperature"].as_f64(), Some(-3.5));
    assert_eq!(v["humidity"].as_f64(), Some(100.0));
}

#[test]
fn first_cycle_posts_reading_for_resolved_profile() {
    let mut c = SensorConfig::new();
    c.insert(
        "AA:BB:CC:DD:EE:FF".to_string(),
        SensorInfo { name: "node1".to_string(), is_led_disabled: false, interval_in_seconds: 60 },
    );
    let info = get_sensor_config(&c, &MAC).unwrap();
    assert_eq!(info.name, "node1");
    assert!(!info.is_led_disabled);
    assert_eq!(info.interval_in_seconds, 60);
    let mut lp = TelemetryLoop::new(&info, &MAC, 123456, "192.168.1.20".to_string());
    assert_eq!(lp.mac, format_mac_address(&MAC));
    let s = feed(&mut lp, Event::Tick);
    assert_eq!(s.colors, vec![IndicatorColor::Green]);
    assert!(matches!(s.action, Action::ProbeSensor));
    assert_eq!(lp.cycle, 1);
    let s = feed(&mut lp, Event::Probed(Ok(true)));
    assert!(s.colors.is_empty());
    assert!(matches!(s.action, Action::FetchSample));
    let s = feed(&mut lp, Event::Fetched(Ok(sample())));
    assert_eq!(s.colors, vec![IndicatorColor::Blue]);
    assert!(matches!(s.action, Action::Connect));
    let s = feed(&mut lp, Event::Connected(true));
    match s.action {
        Action::Send(req) => {
            assert!(req.starts_with("POST /sensor/intake/node1 HTTP/1.1\r\n"));
            assert!(req.ends_with(&format!("\r\n\r\n{}", BODY)));
        }
        other => panic!("unexpected action {:?}", other),
    }
    let s = feed(&mut lp, Event::Written(true));
    assert!(matches!(s.action, Action::ReadResponse));
    let s = feed(&mut lp, Event::ResponseRead(true));
    assert_eq!(s.colors, vec![IndicatorColor::Off]);
    assert_eq!(s.delay_ms, 20000);
    assert!(matches!(s.action, Action::NextCycle));
    assert_eq!(lp.delivered, 1);
    assert!(matches!(lp.phase, Phase::Idle));
}

#[test]
fn ceiling_restarts_before_any_work() {
    let mut lp = node(false);
    lp.cycle = 1000;
    let s = feed(&mut lp, Event::Tick);
    assert!(matches!(s.action, Action::Restart));
    assert_eq!(s.colors, vec![IndicatorColor::Yellow]);
    assert_eq!(lp.cycle, 1000);
    assert!(matches!(lp.phase, Phase::Idle));
}

#[test]
fn cycle_below_ceiling_still_samples() {
    let mut lp = node(false);
    lp.cycle = 999;
    let s = feed(&mut lp, Event::Tick);
    assert!(matches!(s.action, Action::ProbeSensor));
    assert_eq!(lp.cycle, 1000);
}

#[test]
fn thousand_cycles_then_restart() {
    let mut lp = node(true);
    for _ in 0..1000 {
        let s = feed(&mut lp, Event::Tick);
        assert!(matches!(s.action, Action::ProbeSensor));
        feed(&mut lp, Event::Probed(Ok(false)));
    }
    let s = feed(&mut lp, Event::Tick);
    assert!(matches!(s.action, Action::Restart));
    assert!(s.colors.is_empty());
}

#[test]
fn sample_not_ready_shows_yellow_then_red() {
    let mut lp = node(false);
    feed(&mut lp, Event::Tick);
    let s = feed(&mut lp, Event::Probed(Ok(false)));
    assert_eq!(s.colors, vec![IndicatorColor::Yellow, IndicatorColor::Red]);
    assert_eq!(s.delay_ms, 5000);
    assert!(matches!(s.action, Action::NextCycle));
}

#[test]
fn probe_error_shows_red_then_yellow() {
    let mut lp = node(false);
    feed(&mut lp, Event::Tick);
    let s = feed(&mut lp, Event::Probed(Err(SensorError::BusError)));
    assert_eq!(s.colors, vec![IndicatorColor::Red, IndicatorColor::Yellow]);
    assert_eq!(s.delay_ms, 5000);
    assert!(matches!(s.action, Action::NextCycle));
}

#[test]
fn failed_connect_after_sample_stays_red() {
    let mut lp = node(false);
    feed(&mut lp, Event::Tick);
    feed(&mut lp, Event::Probed(Ok(true)));
    feed(&mut lp, Event::Fetched(Ok(sample())));
    let s = feed(&mut lp, Event::Connected(false));
    assert_eq!(s.colors.last(), Some(&IndicatorColor::Red));
    assert_eq!(s.delay_ms, 1000);
    assert!(matches!(s.action, Action::NextCycle));
    assert_eq!(lp.delivered, 0);
}

#[test]
fn checksum_failure_on_cycle_five_retries_at_once() {
    let mut lp = node(false);
    lp.cycle = 4;
    feed(&mut lp, Event::Tick);
    assert_eq!(lp.cycle, 5);
    feed(&mut lp, Event::Probed(Ok(true)));
    let s = feed(&mut lp, Event::Fetched(Err(SensorError::ChecksumMismatch)));
    assert_eq!(lp.cycle, 5);
    assert_eq!(s.colors.last(), Some(&IndicatorColor::Red));
    assert_eq!(s.delay_ms, 0);
    assert!(matches!(s.action, Action::NextCycle));
    assert!(matches!(lp.phase, Phase::Idle));
}

#[test]
fn every_sensor_error_abandons_without_pause() {
    for e in [
        SensorError::ChecksumMismatch,
        SensorError::BusError,
        SensorError::DeviceInternalError,
        SensorError::SelfTestFailure,
        SensorError::OperationNotPermitted,
    ] {
        let mut lp = node(false);
        feed(&mut lp, Event::Tick);
        feed(&mut lp, Event::Probed(Ok(true)));
        let s = feed(&mut lp, Event::Fetched(Err(e)));
        assert_eq!(s.colors, vec![IndicatorColor::Red]);
        assert_eq!(s.delay_ms, 0);
    }
}

#[test]
fn write_failure_abandons_silently() {
    let mut lp = node(false);
    feed(&mut lp, Event::Tick);
    feed(&mut lp, Event::Probed(Ok(true)));
    feed(&mut lp, Event::Fetched(Ok(sample())));
    feed(&mut lp, Event::Connected(true));
    let s = feed(&mut lp, Event::Written(false));
    assert!(s.colors.is_empty());
    assert_eq!(s.delay_ms, 0);
    assert!(matches!(s.action, Action::NextCycle));
    assert_eq!(lp.delivered, 0);
}

#[test]
fn read_failure_abandons_silently() {
    let mut lp = node(false);
    feed(&mut lp, Event::Tick);
    feed(&mut lp, Event::Probed(Ok(true)));
    feed(&mut lp, Event::Fetched(Ok(sample())));
    feed(&mut lp, Event::Connected(true));
    feed(&mut lp, Event::Written(true));
    let s = feed(&mut lp, Event::ResponseRead(false));
    assert!(s.colors.is_empty());
    assert_eq!(s.delay_ms, 0);
    assert_eq!(lp.delivered, 0);
}

#[test]
fn disabled_light_shows_nothing() {
    let mut lp = node(true);
    let s = feed(&mut lp, Event::Tick);
    assert!(s.colors.is_empty());
    let s = feed(&mut lp, Event::Probed(Ok(false)));
    assert!(s.colors.is_empty());
    assert_eq!(s.delay_ms, 5000);
}

#[test]
fn unexpected_event_is_not_accepted() {
    let lp = node(false);
    assert!(!lp.accepts(&Event::Connected(true)));
    assert!(lp.accepts(&Event::Tick));
}
