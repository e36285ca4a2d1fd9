//! The host side: the lifecycle state machine that tracks what the bus has
//! told the device, the report transmitter that it gates, and the handler of
//! report-class control requests.

use crate::channel::{after_take, oldest, KeyChannel};
use crate::event::KeyEvent;
use crate::keycodes::KeyCode;
use crate::report::{press_report, release_report, Report};
use vstd::prelude::*;

verus! {

/// Which report a control request speaks of.
#[derive(Copy, Clone, Debug, PartialEq, Eq)]
pub enum ReportId {
    /// An IN report.
    In(u8),
    /// An OUT report.
    Out(u8),
    /// A feature report.
    Feature(u8),
}

/// The answer to a control OUT request.
#[derive(Copy, Clone, Debug, PartialEq, Eq)]
pub enum OutResponse {
    /// The request was accepted.
    Accepted,
    /// The request was rejected.
    Rejected,
}

/// Milliseconds between a press report and the release report that follows it.
pub const KEY_HOLD_MS: u64 = 10;

/// What the bus has told the device so far.
#[derive(Copy, Clone, Debug, PartialEq, Eq)]
pub struct TransportState {
    /// The host has accepted the device's configuration.
    pub configured: bool,
    /// The bus is in its power-save state.
    pub suspended: bool,
}

/// A notification from the bus.
#[derive(Copy, Clone, Debug, PartialEq, Eq)]
pub enum BusEvent {
    /// The device was enabled or disabled.
    Enabled(bool),
    /// The bus was reset.
    Reset,
    /// The host gave the device an address.
    Addressed(u8),
    /// The host configured or deconfigured the device.
    Configured(bool),
    /// The bus was suspended or resumed.
    Suspended(bool),
}

impl TransportState {
    /// The state before the bus has said anything.
    pub open spec fn initial() -> TransportState {
        TransportState { configured: false, suspended: false }
    }

    /// The state after one notification.
    pub open spec fn after(self, event: BusEvent) -> TransportState {
        match event {
            BusEvent::Enabled(_) => TransportState { configured: false, suspended: false },
            BusEvent::Reset => TransportState { configured: false, suspended: self.suspended },
            BusEvent::Addressed(_) => TransportState {
                configured: false,
                suspended: self.suspended,
            },
            BusEvent::Configured(configured) => TransportState {
                configured,
                suspended: self.suspended,
            },
            BusEvent::Suspended(suspended) => TransportState {
                configured: self.configured,
                suspended,
            },
        }
    }

    /// The state after a run of notifications, first to last.
    pub open spec fn after_all(self, events: Seq<BusEvent>) -> TransportState
        decreases events.len(),
    {
        if events.len() == 0 {
            self
        } else {
            self.after(events[0]).after_all(events.skip(1))
        }
    }
}

/// Enabling and then configuring the device leaves it configured and not
/// suspended, whatever it was before.
pub proof fn lemma_enable_then_configure(state: TransportState, enabled: bool)
    ensures
        state.after(BusEvent::Enabled(enabled)).after(BusEvent::Configured(true))
            == (TransportState { configured: true, suspended: false }),
        state.after_all(seq![BusEvent::Enabled(enabled), BusEvent::Configured(true)])
            == (TransportState { configured: true, suspended: false }),
{
    let events = seq![BusEvent::Enabled(enabled), BusEvent::Configured(true)];
    let rest = events.skip(1);
    let middle = state.after(events[0]);
    assert(middle.after_all(rest) == middle.after(rest[0]).after_all(rest.skip(1)));
}

/// A bus reset, a new address and a disabled device each leave the device
/// unconfigured.
pub proof fn lemma_reset_clears_configuration(state: TransportState, addr: u8, enabled: bool)
    ensures
        !state.after(BusEvent::Reset).configured,
        !state.after(BusEvent::Addressed(addr)).configured,
        !state.after(BusEvent::Enabled(enabled)).configured,
        !state.after(BusEvent::Configured(false)).configured,
        state.after(BusEvent::Reset).suspended == state.suspended,
        state.after(BusEvent::Addressed(addr)).suspended == state.suspended,
{
}

/// Suspending and resuming the bus leaves the configuration as it was: a
/// configured device is still configured after the resume.
pub proof fn lemma_suspend_resume_keeps_configuration(state: TransportState)
    ensures
        state.after(BusEvent::Suspended(true)).configured == state.configured,
        state.after(BusEvent::Suspended(true)).suspended,
        state.after(BusEvent::Suspended(true)).after(BusEvent::Suspended(false)).configured
            == state.configured,
        !state.after(BusEvent::Suspended(true)).after(BusEvent::Suspended(false)).suspended,
{
}

/// The lifecycle state machine: the one writer of the transport state.
pub struct UsbHandler {
    configured: bool,
    suspended: bool,
}

impl View for UsbHandler {
    type V = TransportState;

    closed spec fn view(&self) -> TransportState {
        TransportState { configured: self.configured, suspended: self.suspended }
    }
}

impl UsbHandler {
    /// A handler in the initial state: neither configured nor suspended.
    pub fn new() -> (handler: Self)
        ensures
            handler@ == TransportState::initial(),
    {
        Self { configured: false, suspended: false }
    }

    /// Whether the bus is suspended.
    pub fn is_suspended(&self) -> (suspended: bool)
        ensures
            suspended == self@.suspended,
    {
        self.suspended
    }

    /// Whether the host has configured the device.
    pub fn is_configured(&self) -> (configured: bool)
        ensures
            configured == self@.configured,
    {
        self.configured
    }

    /// Both flags at once.
    pub fn state(&self) -> (state: TransportState)
        ensures
            state == self@,
    {
        TransportState { configured: self.configured, suspended: self.suspended }
    }

    /// The device was enabled or disabled: it is neither configured nor
    /// suspended any more.
    pub fn enabled(&mut self, enabled: bool)
        ensures
            final(self)@ == old(self)@.after(BusEvent::Enabled(enabled)),
    {
        self.configured = false;
        self.suspended = false;
    }

    /// The bus was reset: the device is no longer configured.
    pub fn reset(&mut self)
        ensures
            final(self)@ == old(self)@.after(BusEvent::Reset),
    {
        self.configured = false;
    }

    /// The host gave the device an address: it is not configured yet.
    pub fn addressed(&mut self, addr: u8)
        ensures
            final(self)@ == old(self)@.after(BusEvent::Addressed(addr)),
    {
        self.configured = false;
    }

    /// The host configured or deconfigured the device.
    pub fn configured(&mut self, configured: bool)
        ensures
            final(self)@ == old(self)@.after(BusEvent::Configured(configured)),
    {
        self.configured = configured;
    }

    /// The bus was suspended or resumed. The configuration is kept.
    pub fn suspended(&mut self, suspended: bool)
        ensures
            final(self)@ == old(self)@.after(BusEvent::Suspended(suspended)),
    {
        self.suspended = suspended;
    }

    /// Takes one notification from the bus.
    pub fn on_bus_event(&mut self, event: BusEvent)
        ensures
            final(self)@ == old(self)@.after(event),
    {
        match event {
            BusEvent::Enabled(enabled) => self.enabled(enabled),
            BusEvent::Reset => self.reset(),
            BusEvent::Addressed(addr) => self.addressed(addr),
            BusEvent::Configured(configured) => self.configured(configured),
            BusEvent::Suspended(suspended) => self.suspended(suspended),
        }
    }
}

/// What the transmitter sends for one key: a press report, a pause, and a
/// release report.
#[derive(Copy, Clone, Debug, PartialEq, Eq)]
pub struct KeyReportPlan {
    /// The report written first.
    pub press: Report,
    /// Milliseconds to wait between the two writes.
    pub hold_ms: u64,
    /// The report written second.
    pub release: Report,
}

/// `plan` is what the transmitter sends for `keycode`: the key's press
/// report, the hold time, and the release report.
pub open spec fn is_key_plan(plan: KeyReportPlan, keycode: KeyCode) -> bool {
    &&& plan.press.is_press_of(keycode.usage_code())
    &&& plan.hold_ms == KEY_HOLD_MS
    &&& plan.release.is_release()
}

/// What the transmitter does next.
#[derive(Copy, Clone, Debug, PartialEq, Eq)]
pub enum Transmit {
    /// No event waits: there is nothing to do until one comes.
    Idle,
    /// The event was taken and discarded, because the host has not
    /// configured the device.
    Discard(KeyEvent),
    /// The event was taken; the plan says what to write for it.
    Send(KeyEvent, KeyReportPlan),
}

/// `step` is what the transmitter does when `next` is the oldest event that
/// waits.
pub open spec fn is_transmit_of(step: Transmit, next: Option<KeyEvent>, configured: bool) -> bool {
    match next {
        None => step is Idle,
        Some(event) => if configured {
            step matches Transmit::Send(sent, plan) && sent == event && is_key_plan(
                plan,
                event.keycode,
            )
        } else {
            step == Transmit::Discard(event)
        },
    }
}

/// The report transmitter.
pub struct UsbKeyboard {}

impl UsbKeyboard {
    /// A transmitter.
    pub fn new() -> Self {
        Self {}
    }

    /// What to write for a key that was pressed. While the host has not
    /// configured the device, nothing: the key is discarded. Otherwise two
    /// reports: the key's press report and, after the hold time, the
    /// all-zero release report. The press report of a key is never all-zero;
    /// that of "no key" is.
    pub fn send_key_report(&mut self, configured: bool, keycode: KeyCode) -> (plan: Option<
        KeyReportPlan,
    >)
        ensures
            plan is Some <==> configured,
            plan matches Some(p) ==> is_key_plan(p, keycode) && (p.press.is_release()
                <==> keycode is Extra),
    {
        if !configured {
            return None;
        }
        let report = press_report(keycode);
        let release_report = release_report();
        Some(KeyReportPlan { press: report, hold_ms: KEY_HOLD_MS, release: release_report })
    }

    /// One turn of the transmitter: takes the event that has waited longest
    /// out of the channel and says what to do with it. Events leave the
    /// channel in the order in which they came.
    pub fn next_report(&mut self, channel: &mut KeyChannel, configured: bool) -> (step: Transmit)
        ensures
            is_transmit_of(step, oldest(old(channel)@), configured),
            final(channel)@ == after_take(old(channel)@),
            final(channel).dropped_count() == old(channel).dropped_count(),
    {
        match channel.receive() {
            None => Transmit::Idle,
            Some(event) => match self.send_key_report(configured, event.keycode) {
                None => Transmit::Discard(event),
                Some(plan) => Transmit::Send(event, plan),
            },
        }
    }
}

/// The handler of report-class control requests.
pub struct UsbRequestHandler {}

impl UsbRequestHandler {
    /// A "get report" request: not supported, whatever the report, and the
    /// buffer is left as it was.
    pub fn get_report(&mut self, id: ReportId, buf: &mut [u8]) -> (size: Option<usize>)
        ensures
            size is None,
            final(buf)@ == old(buf)@,
    {
        None
    }

    /// A "set report" request: accepted, whatever it holds.
    pub fn set_report(&mut self, id: ReportId, data: &[u8]) -> (response: OutResponse)
        ensures
            response == OutResponse::Accepted,
    {
        OutResponse::Accepted
    }

    /// A "set idle" request: taken and ignored.
    pub fn set_idle_ms(&mut self, id: Option<ReportId>, dur: u32) {
    }

    /// A "get idle" request: not supported.
    pub fn get_idle_ms(&mut self, id: Option<ReportId>) -> (dur: Option<u32>)
        ensures
            dur is None,
    {
        None
    }
}

} // verus!
