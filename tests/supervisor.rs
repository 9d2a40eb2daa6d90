use frytg_sensory::supervisor::{LinkAction, LinkEvent, LinkPhase};

fn feed(p: &mut LinkPhase, e: LinkEvent) -> LinkAction {
    assert!(p.accepts(e));
    p.supervise(e)
}

#[test]
fn associated_station_waits_then_backs_off() {
    let mut p = LinkPhase::CheckingAssociation;
    assert_eq!(feed(&mut p, LinkEvent::Association(true)), LinkAction::AwaitDisconnect);
    assert_eq!(feed(&mut p, LinkEvent::Disconnected), LinkAction::Sleep(5000));
    assert_eq!(feed(&mut p, LinkEvent::Waited), LinkAction::QueryRadio);
    assert_eq!(feed(&mut p, LinkEvent::Radio(true)), LinkAction::Connect);
    assert_eq!(feed(&mut p, LinkEvent::Attempt(true)), LinkAction::QueryAssociation);
    assert_eq!(p, LinkPhase::CheckingAssociation);
}

#[test]
fn stopped_radio_is_started_before_connecting() {
    let mut p = LinkPhase::CheckingAssociation;
    assert_eq!(feed(&mut p, LinkEvent::Association(false)), LinkAction::QueryRadio);
    assert_eq!(feed(&mut p, LinkEvent::Radio(false)), LinkAction::StartRadio);
    assert_eq!(feed(&mut p, LinkEvent::RadioStarted), LinkAction::Connect);
}

#[test]
fn failed_attempt_backs_off_and_retries() {
    let mut p = LinkPhase::Connecting;
    assert_eq!(feed(&mut p, LinkEvent::Attempt(false)), LinkAction::Sleep(5000));
    assert_eq!(feed(&mut p, LinkEvent::Waited), LinkAction::QueryAssociation);
    assert_eq!(p, LinkPhase::CheckingAssociation);
}

#[test]
fn out_of_order_link_event_is_refused() {
    assert!(!LinkPhase::Connecting.accepts(LinkEvent::Disconnected));
}
