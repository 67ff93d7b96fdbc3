use browser_sessions::pump::{keeps_pumping, Polled};

#[test]
fn pump_goes_on_after_an_event_only() {
    assert!(keeps_pumping(Polled::Event));
    assert!(!keeps_pumping(Polled::Fault));
    assert!(!keeps_pumping(Polled::Ended));
}
