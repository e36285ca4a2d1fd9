use dactyl_rs::channel::KeyChannel;
use dactyl_rs::event::{Coordinate, KeyEvent};
use dactyl_rs::keycodes::{Extra, KeyCode, MacosKeys};
use dactyl_rs::report::{press_report, release_report, Report};
use dactyl_rs::usb::{
    BusEvent, KeyReportPlan, OutResponse, ReportId, TransportState, Transmit, UsbHandler,
    UsbKeyboard, UsbRequestHandler, KEY_HOLD_MS,
};
use usbd_hid::descriptor::KeyboardUsage;

fn state(configured: bool, suspended: bool) -> TransportState {
    TransportState { configured, suspended }
}

fn report(modifier: u8, key: u8) -> Report {
    Report { modifier, reserved: 0, leds: 0, keycodes: [key, 0, 0, 0, 0, 0] }
}

fn at(row: usize, col: usize, keycode: KeyCode) -> KeyEvent {
    KeyEvent { coordinate: Coordinate { row, col }, keycode }
}

#[test]
fn handler_starts_unconfigured_and_awake() {
    let handler = UsbHandler::new();
    assert!(!handler.is_configured());
    assert!(!handler.is_suspended());
    assert_eq!(handler.state(), state(false, false));
}

#[test]
fn enable_then_configure() {
    let mut handler = UsbHandler::new();
    handler.enabled(true);
    assert_eq!(handler.state(), state(false, false));
    handler.configured(true);
    assert_eq!(handler.state(), state(true, false));
    handler.reset();
    assert_eq!(handler.state(), state(false, false));
}

#[test]
fn suspend_and_resume_keep_the_configuration() {
    let mut handler = UsbHandler::new();
    handler.enabled(true);
    handler.configured(true);
    handler.suspended(true);
    assert_eq!(handler.state(), state(true, true));
    assert!(handler.is_suspended());
    handler.suspended(false);
    assert_eq!(handler.state(), state(true, false));
    assert!(!handler.is_suspended());

    let mut unconfigured = UsbHandler::new();
    unconfigured.suspended(true);
    assert_eq!(unconfigured.state(), state(false, true));
    unconfigured.suspended(false);
    assert_eq!(unconfigured.state(), state(false, false));
}

#[test]
fn reset_and_address_clear_the_configuration_only() {
    let mut handler = UsbHandler::new();
    handler.configured(true);
    handler.suspended(true);
    handler.reset();
    assert_eq!(handler.state(), state(false, true));
    handler.configured(true);
    handler.addressed(5);
    assert_eq!(handler.state(), state(false, true));
    handler.configured(true);
    handler.configured(false);
    assert_eq!(handler.state(), state(false, true));
}

#[test]
fn enable_and_disable_clear_both_flags() {
    let mut handler = UsbHandler::new();
    handler.configured(true);
    handler.suspended(true);
    handler.enabled(false);
    assert_eq!(handler.state(), state(false, false));
    handler.configured(true);
    handler.suspended(true);
    handler.enabled(true);
    assert_eq!(handler.state(), state(false, false));
}

#[test]
fn bus_events_do_what_the_callbacks_do() {
    let events = [
        BusEvent::Enabled(true),
        BusEvent::Reset,
        BusEvent::Addressed(7),
        BusEvent::Configured(true),
        BusEvent::Suspended(true),
        BusEvent::Suspended(false),
        BusEvent::Reset,
        BusEvent::Addressed(9),
        BusEvent::Configured(true),
        BusEvent::Suspended(true),
        BusEvent::Enabled(false),
    ];
    let expected = [
        state(false, false),
        state(false, false),
        state(false, false),
        state(true, false),
        state(true, true),
        state(true, false),
        state(false, false),
        state(false, false),
        state(true, false),
        state(true, true),
        state(false, false),
    ];
    let mut by_event = UsbHandler::new();
    let mut by_call = UsbHandler::new();
    for (event, expected) in events.iter().zip(expected.iter()) {
        by_event.on_bus_event(*event);
        match *event {
            BusEvent::Enabled(enabled) => by_call.enabled(enabled),
            BusEvent::Reset => by_call.reset(),
            BusEvent::Addressed(addr) => by_call.addressed(addr),
            BusEvent::Configured(configured) => by_call.configured(configured),
            BusEvent::Suspended(suspended) => by_call.suspended(suspended),
        }
        assert_eq!(by_event.state(), *expected);
        assert_eq!(by_call.state(), *expected);
    }
}

#[test]
fn key_is_discarded_while_not_configured() {
    let mut keyboard = UsbKeyboard::new();
    let q = KeyCode::Base(KeyboardUsage::KeyboardQq);
    assert_eq!(keyboard.send_key_report(false, q), None);
    assert_eq!(keyboard.send_key_report(false, KeyCode::Extra(Extra::NA)), None);

    let mut channel = KeyChannel::new();
    assert!(channel.send(at(1, 1, q)));
    assert_eq!(keyboard.next_report(&mut channel, false), Transmit::Discard(at(1, 1, q)));
    assert!(channel.is_empty());
    assert_eq!(keyboard.next_report(&mut channel, false), Transmit::Idle);
}

#[test]
fn key_press_is_two_reports() {
    let mut keyboard = UsbKeyboard::new();
    let plan = keyboard.send_key_report(true, KeyCode::Base(KeyboardUsage::KeyboardQq));
    assert_eq!(
        plan,
        Some(KeyReportPlan { press: report(0, 0x14), hold_ms: 10, release: report(0, 0) })
    );
    let plan = plan.unwrap();
    assert_ne!(plan.press, plan.release);
    assert_eq!(KEY_HOLD_MS, 10);
}

#[test]
fn modifier_press_sets_a_bit_and_no_key_slot() {
    let mut keyboard = UsbKeyboard::new();
    let plan = keyboard.send_key_report(true, KeyCode::Base(KeyboardUsage::KeyboardLeftShift));
    assert_eq!(
        plan,
        Some(KeyReportPlan { press: report(0x02, 0), hold_ms: 10, release: report(0, 0) })
    );
    let plan = keyboard.send_key_report(true, KeyCode::Base(KeyboardUsage::KeyboardRightGUI));
    assert_eq!(
        plan,
        Some(KeyReportPlan { press: report(0x80, 0), hold_ms: 10, release: report(0, 0) })
    );
}

#[test]
fn platform_key_and_no_key_reports() {
    let mut keyboard = UsbKeyboard::new();
    let plan = keyboard.send_key_report(true, KeyCode::Macos(MacosKeys::Fn)).unwrap();
    assert_eq!(plan.press, report(0, 0xA4));
    assert_eq!(plan.release, report(0, 0));
    let plan = keyboard.send_key_report(true, KeyCode::Extra(Extra::NA)).unwrap();
    assert_eq!(plan.press, report(0, 0));
    assert_eq!(plan.release, report(0, 0));
}

#[test]
fn report_builders() {
    assert_eq!(press_report(KeyCode::Base(KeyboardUsage::KeyboardAa)), report(0, 0x04));
    assert_eq!(press_report(KeyCode::Base(KeyboardUsage::KeyboardLeftControl)), report(0x01, 0));
    assert_eq!(press_report(KeyCode::Base(KeyboardUsage::Reserved)), report(0, 0xE8));
    assert_eq!(release_report(), report(0, 0));
    let release = release_report();
    assert_eq!(release.modifier, 0);
    assert_eq!(release.reserved, 0);
    assert_eq!(release.leds, 0);
    assert_eq!(release.keycodes, [0u8; 6]);
}

#[test]
fn transmitter_drains_in_arrival_order() {
    let mut keyboard = UsbKeyboard::new();
    let mut channel = KeyChannel::new();
    let q = at(1, 1, KeyCode::Base(KeyboardUsage::KeyboardQq));
    let shift = at(4, 0, KeyCode::Base(KeyboardUsage::KeyboardLeftShift));
    let w = at(1, 2, KeyCode::Base(KeyboardUsage::KeyboardWw));
    assert!(channel.send(q));
    assert!(channel.send(shift));
    assert!(channel.send(w));
    let release = report(0, 0);
    assert_eq!(
        keyboard.next_report(&mut channel, true),
        Transmit::Send(q, KeyReportPlan { press: report(0, 0x14), hold_ms: 10, release })
    );
    assert_eq!(channel.len(), 2);
    assert_eq!(
        keyboard.next_report(&mut channel, true),
        Transmit::Send(shift, KeyReportPlan { press: report(0x02, 0), hold_ms: 10, release })
    );
    assert_eq!(keyboard.next_report(&mut channel, false), Transmit::Discard(w));
    assert_eq!(keyboard.next_report(&mut channel, true), Transmit::Idle);
    assert_eq!(channel.dropped(), 0);
}

#[test]
fn request_handler_answers() {
    let mut handler = UsbRequestHandler {};
    let mut buf = [0xAAu8; 8];
    assert_eq!(handler.get_report(ReportId::In(0), &mut buf), None);
    assert_eq!(handler.get_report(ReportId::Feature(3), &mut buf), None);
    assert_eq!(buf, [0xAAu8; 8]);
    assert_eq!(handler.set_report(ReportId::Out(0), &[1, 2, 3]), OutResponse::Accepted);
    assert_eq!(handler.set_report(ReportId::Feature(9), &[]), OutResponse::Accepted);
    handler.set_idle_ms(None, 500);
    handler.set_idle_ms(Some(ReportId::In(1)), 0);
    assert_eq!(handler.get_idle_ms(None), None);
    assert_eq!(handler.get_idle_ms(Some(ReportId::In(1))), None);
}
