//! The device watcher: finds the keyboard's layer-report interface among
//! the HID devices, turns its input reports into commands for the overlay
//! controller, and starts over after every failure.
//!
//! The watcher does no I/O. It answers each event with the next thing for
//! the caller to do: enumerate the devices, open one, read a report, or
//! wait before the next attempt.

use vstd::prelude::*;
use crate::config::LayerConfig;
use crate::window::{CustomEventLoopEvent, OverlayState};

verus! {

/// Usage page of the keyboard's layer-report interface.
pub const USAGE_PAGE: u16 = 0xFF60;

/// Usage id of the keyboard's layer-report interface.
pub const USAGE_ID: u16 = 0x61;

/// Length of an input report in bytes.
pub const REPORT_LEN: usize = 32;

/// First byte of a report that tells the active layer.
pub const LAYER_REPORT: u8 = 0x01;

/// How long the watcher waits after a failure, in milliseconds.
pub const BACKOFF_MS: u64 = 200;

/// What the watcher reads of an enumerated HID device: the usage that tells
/// which of a device's interfaces it is.
#[derive(Debug, Clone, Copy, PartialEq, Eq)]
pub struct DeviceUsage {
    /// The HID usage page.
    pub usage_page: u16,
    /// The HID usage id.
    pub usage_id: u16,
}

impl DeviceUsage {
    /// Whether this is the keyboard's layer-report interface.
    pub open spec fn is_target(self) -> bool {
        self.usage_page == USAGE_PAGE && self.usage_id == USAGE_ID
    }

    /// Whether this is the keyboard's layer-report interface.
    pub fn matches(&self) -> (found: bool)
        ensures
            found == self.is_target(),
    {
        self.usage_page == USAGE_PAGE && self.usage_id == USAGE_ID
    }
}

/// The index of the last layer-report interface among the devices, if
/// there is one.
pub open spec fn selected(devices: Seq<DeviceUsage>) -> Option<int>
    decreases devices.len(),
{
    if devices.len() == 0 {
        None
    } else if devices.last().is_target() {
        Some(devices.len() - 1)
    } else {
        selected(devices.drop_last())
    }
}

/// `selected` gives a layer-report interface that no other follows, and
/// `None` exactly if the devices hold none.
pub proof fn lemma_selected(devices: Seq<DeviceUsage>)
    ensures
        match selected(devices) {
            Some(i) => {
                &&& 0 <= i < devices.len()
                &&& devices[i].is_target()
                &&& forall|j: int| i < j < devices.len() ==> !devices[j].is_target()
            },
            None => forall|j: int| 0 <= j < devices.len() ==> !devices[j].is_target(),
        },
    decreases devices.len(),
{
    if devices.len() > 0 && !devices.last().is_target() {
        let front = devices.drop_last();
        lemma_selected(front);
        assert forall|j: int| 0 <= j < front.len() implies front[j] == devices[j] by {}
    }
}

/// Picks the device to open: the last layer-report interface in the
/// enumeration.
pub fn select_device(devices: &Vec<DeviceUsage>) -> (choice: Option<usize>)
    ensures
        match choice {
            Some(i) => selected(devices@) == Some(i as int),
            None => selected(devices@) is None,
        },
        match choice {
            Some(i) => {
                &&& i < devices.len()
                &&& devices[i as int].is_target()
                &&& forall|j: int| i < j < devices.len() ==> !devices[j].is_target()
            },
            None => forall|j: int| 0 <= j < devices.len() ==> !devices[j].is_target(),
        },
{
    let mut choice: Option<usize> = None;
    let mut i: usize = 0;
    while i < devices.len()
        invariant
            i <= devices.len(),
            match choice {
                Some(c) => selected(devices@.take(i as int)) == Some(c as int),
                None => selected(devices@.take(i as int)) is None,
            },
        decreases devices.len() - i,
    {
        assert(devices@.take(i + 1).drop_last() == devices@.take(i as int));
        if devices[i].matches() {
            choice = Some(i);
        }
        i += 1;
    }
    assert(devices@.take(i as int) == devices@);
    proof {
        lemma_selected(devices@);
    }
    choice
}

/// The command that shows a layer-table entry.
pub open spec fn command_of(entry: LayerConfig) -> CustomEventLoopEvent {
    match entry {
        LayerConfig::Color(r, g, b) => CustomEventLoopEvent::SetColor(r, g, b),
        LayerConfig::Hidden => CustomEventLoopEvent::SetHide,
    }
}

/// The command for a layer: that of its entry in the table, none for a layer
/// outside the table.
pub open spec fn layer_command(layers: Seq<LayerConfig>, layer: int) -> Option<
    CustomEventLoopEvent,
> {
    if 0 <= layer < layers.len() {
        Some(command_of(layers[layer]))
    } else {
        None
    }
}

/// The command that an input report leads to: for a layer report, the one
/// for the layer in its second byte; none for any other report.
pub open spec fn report_command(layers: Seq<LayerConfig>, report: Seq<u8>) -> Option<
    CustomEventLoopEvent,
> {
    if report.len() >= 2 && report[0] == LAYER_REPORT {
        layer_command(layers, report[1] as int)
    } else {
        None
    }
}

/// Looks a layer up in the table. A colour entry gives `SetColor` with that
/// colour, a hidden entry gives `SetHide`, a layer outside the table gives
/// nothing.
pub fn layer_to_ev(config: &Vec<LayerConfig>, layer: usize) -> (ev: Option<CustomEventLoopEvent>)
    ensures
        ev == layer_command(config@, layer as int),
        layer >= config.len() ==> ev is None,
        layer < config.len() ==> match config[layer as int] {
            LayerConfig::Color(r, g, b) => ev == Some(CustomEventLoopEvent::SetColor(r, g, b)),
            LayerConfig::Hidden => ev == Some(CustomEventLoopEvent::SetHide),
        },
{
    if layer < config.len() {
        match config[layer] {
            LayerConfig::Color(r, g, b) => Some(CustomEventLoopEvent::SetColor(r, g, b)),
            LayerConfig::Hidden => Some(CustomEventLoopEvent::SetHide),
        }
    } else {
        None
    }
}

/// Decodes an input report. Byte 0 is the report type and byte 1 the layer:
/// a layer report whose layer lies in the table gives the command of that
/// entry; a layer outside the table, or any other report type, gives
/// nothing.
pub fn decode_report(config: &Vec<LayerConfig>, report: &[u8; REPORT_LEN]) -> (ev: Option<
    CustomEventLoopEvent,
>)
    ensures
        ev == report_command(config@, report@),
        report@[0] == LAYER_REPORT && report@[1] < config.len() ==> match config[report@[1] as int] {
            LayerConfig::Color(r, g, b) => ev == Some(CustomEventLoopEvent::SetColor(r, g, b)),
            LayerConfig::Hidden => ev == Some(CustomEventLoopEvent::SetHide),
        },
        report@[0] == LAYER_REPORT && report@[1] >= config.len() ==> ev is None,
        report@[0] != LAYER_REPORT ==> ev is None,
{
    if report[0] == LAYER_REPORT {
        layer_to_ev(config, report[1] as usize)
    } else {
        None
    }
}

/// A layer report for a layer in the table brings a controller that has its
/// surface to what the table says of that layer: the entry's colour on
/// show, or the window hidden.
pub proof fn lemma_layer_report_shows_its_entry(
    state: OverlayState,
    layers: Seq<LayerConfig>,
    report: Seq<u8>,
)
    requires
        state.has_surface(),
        report.len() == REPORT_LEN,
        report[0] == LAYER_REPORT,
        report[1] < layers.len(),
    ensures
        report_command(layers, report) is Some,
        match layers[report[1] as int] {
            LayerConfig::Color(r, g, b) => state.apply(report_command(layers, report)->0).show
                == Some((r, g, b)),
            LayerConfig::Hidden => state.apply(report_command(layers, report)->0).is_hidden(),
        },
{
}

/// Why a connection to the device ended.
#[derive(Debug, Clone, Copy, PartialEq, Eq)]
pub enum HidError {
    /// The devices could not be enumerated.
    EnumerationFailed,
    /// No enumerated device is the layer-report interface.
    DeviceNotFound,
    /// The device could not be opened.
    DeviceOpenFailed,
    /// Reading an input report failed.
    DeviceReadFailed,
    /// An event arrived that answers nothing the watcher had asked for.
    UnexpectedEvent,
}

/// What the caller reports to the watcher.
#[derive(Debug, PartialEq, Eq)]
pub enum HidEvent {
    /// It is time for a connection attempt: the watcher has just been
    /// started, or the wait after a failure is over.
    Wake,
    /// The enumeration gave these devices, in this order.
    Enumerated(Vec<DeviceUsage>),
    /// The enumeration failed.
    EnumerationFailed,
    /// The chosen device is open.
    Opened,
    /// The chosen device could not be opened.
    OpenFailed,
    /// The device sent this input report.
    Report([u8; REPORT_LEN]),
    /// Reading from the device failed.
    ReadFailed,
}

/// What the caller does next within a connection.
#[derive(Debug, Clone, Copy, PartialEq, Eq)]
pub enum HidOperation {
    /// Enumerate the HID devices and report them.
    Enumerate,
    /// Open the device at this index of the enumeration for reading and
    /// writing.
    Open(usize),
    /// Publish the command, if there is one, then read the next input
    /// report.
    Read(Option<CustomEventLoopEvent>),
}

/// What the caller does next.
#[derive(Debug, Clone, Copy, PartialEq, Eq)]
pub enum HidAction {
    /// Go on with the connection.
    Perform(HidOperation),
    /// The connection has ended with `error`: close the device, wait
    /// `millis` milliseconds and report `Wake`.
    Backoff { error: HidError, millis: u64 },
}

/// Where the watcher stands within a connection attempt.
#[derive(Debug, Clone, Copy, PartialEq, Eq)]
pub enum HidPhase {
    /// No connection: before the first attempt, or after a failure.
    Idle,
    /// Waiting for the enumeration.
    Enumerating,
    /// Waiting for the device to open.
    Opening,
    /// The device is open; waiting for an input report.
    Connected,
}

/// One step of a connection: the phase after the event, and the next
/// operation or the error that ends the connection. An event that does not
/// answer what the phase waits for ends the connection too.
pub open spec fn session_step(phase: HidPhase, event: HidEvent, layers: Seq<LayerConfig>) -> (
    HidPhase,
    Result<HidOperation, HidError>,
) {
    match (phase, event) {
        (HidPhase::Idle, HidEvent::Wake) => (HidPhase::Enumerating, Ok(HidOperation::Enumerate)),
        (HidPhase::Enumerating, HidEvent::Enumerated(devices)) => match selected(devices@) {
            Some(i) => (HidPhase::Opening, Ok(HidOperation::Open(i as usize))),
            None => (HidPhase::Idle, Err(HidError::DeviceNotFound)),
        },
        (HidPhase::Enumerating, HidEvent::EnumerationFailed) => (
            HidPhase::Idle,
            Err(HidError::EnumerationFailed),
        ),
        (HidPhase::Opening, HidEvent::Opened) => (
            HidPhase::Connected,
            Ok(HidOperation::Read(layer_command(layers, 0))),
        ),
        (HidPhase::Opening, HidEvent::OpenFailed) => (
            HidPhase::Idle,
            Err(HidError::DeviceOpenFailed),
        ),
        (HidPhase::Connected, HidEvent::Report(report)) => (
            HidPhase::Connected,
            Ok(HidOperation::Read(report_command(layers, report@))),
        ),
        (HidPhase::Connected, HidEvent::ReadFailed) => (
            HidPhase::Idle,
            Err(HidError::DeviceReadFailed),
        ),
        _ => (HidPhase::Idle, Err(HidError::UnexpectedEvent)),
    }
}

/// One step of the watcher: a step of the connection, where every error
/// becomes a wait of `BACKOFF_MS` before the next attempt.
pub open spec fn watcher_step(phase: HidPhase, event: HidEvent, layers: Seq<LayerConfig>) -> (
    HidPhase,
    HidAction,
) {
    let (next, outcome) = session_step(phase, event, layers);
    (
        next,
        match outcome {
            Ok(operation) => HidAction::Perform(operation),
            Err(error) => HidAction::Backoff { error, millis: BACKOFF_MS },
        },
    )
}

/// The device watcher.
pub struct HidWatcher {
    phase: HidPhase,
}

impl View for HidWatcher {
    type V = HidPhase;

    closed spec fn view(&self) -> HidPhase {
        self.phase
    }
}

impl HidWatcher {
    /// A watcher without a connection. Its first event is `Wake`.
    pub fn new() -> (watcher: HidWatcher)
        ensures
            watcher@ == HidPhase::Idle,
    {
        HidWatcher { phase: HidPhase::Idle }
    }

    /// Where the watcher stands.
    pub fn phase(&self) -> (phase: HidPhase)
        ensures
            phase == self@,
    {
        self.phase
    }
}

/// Runs one step of a connection to the device. From `Idle`, `Wake` starts
/// an attempt with an enumeration. The enumerated devices lead to opening
/// the last layer-report interface among them, or to `DeviceNotFound`. Once
/// the device is open the command for layer 0 is published, and after that
/// the command of every input report that has one. A failed enumeration,
/// open or read ends the connection with its error and leaves the watcher
/// `Idle`.
pub fn handle_hid(watcher: &mut HidWatcher, event: HidEvent, config: &Vec<LayerConfig>) -> (outcome:
    Result<HidOperation, HidError>)
    ensures
        (final(watcher)@, outcome) == session_step(old(watcher)@, event, config@),
        outcome is Err <==> final(watcher)@ == HidPhase::Idle,
{
    let (next, outcome) = match (watcher.phase, event) {
        (HidPhase::Idle, HidEvent::Wake) => (HidPhase::Enumerating, Ok(HidOperation::Enumerate)),
        (HidPhase::Enumerating, HidEvent::Enumerated(devices)) => match select_device(&devices) {
            Some(i) => (HidPhase::Opening, Ok(HidOperation::Open(i))),
            None => (HidPhase::Idle, Err(HidError::DeviceNotFound)),
        },
        (HidPhase::Enumerating, HidEvent::EnumerationFailed) => (
            HidPhase::Idle,
            Err(HidError::EnumerationFailed),
        ),
        (HidPhase::Opening, HidEvent::Opened) => (
            HidPhase::Connected,
            Ok(HidOperation::Read(layer_to_ev(config, 0))),
        ),
        (HidPhase::Opening, HidEvent::OpenFailed) => (
            HidPhase::Idle,
            Err(HidError::DeviceOpenFailed),
        ),
        (HidPhase::Connected, HidEvent::Report(report)) => (
            HidPhase::Connected,
            Ok(HidOperation::Read(decode_report(config, &report))),
        ),
        (HidPhase::Connected, HidEvent::ReadFailed) => (
            HidPhase::Idle,
            Err(HidError::DeviceReadFailed),
        ),
        _ => (HidPhase::Idle, Err(HidError::UnexpectedEvent)),
    };
    watcher.phase = next;
    outcome
}

/// Runs one step of the watcher. It goes on with the connection as
/// `handle_hid` says; when the connection ends, for whatever reason, it
/// asks for a wait of `BACKOFF_MS` milliseconds, after which `Wake` starts
/// the next attempt. The watcher never gives up.
pub fn hid_task(watcher: &mut HidWatcher, event: HidEvent, config: &Vec<LayerConfig>) -> (action:
    HidAction)
    ensures
        (final(watcher)@, action) == watcher_step(old(watcher)@, event, config@),
        action is Backoff <==> final(watcher)@ == HidPhase::Idle,
        action is Backoff ==> action->millis == BACKOFF_MS,
{
    match handle_hid(watcher, event, config) {
        Ok(operation) => HidAction::Perform(operation),
        Err(error) => HidAction::Backoff { error, millis: BACKOFF_MS },
    }
}

/// The phase in which the watcher meets event `k` of a run that starts
/// without a connection.
pub open spec fn phase_at(events: Seq<HidEvent>, layers: Seq<LayerConfig>, k: nat) -> HidPhase
    decreases k,
{
    if k == 0 {
        HidPhase::Idle
    } else {
        watcher_step(phase_at(events, layers, (k - 1) as nat), events[k - 1], layers).0
    }
}

/// The watcher's answer to event `k` of a run that starts without a
/// connection.
pub open spec fn action_at(events: Seq<HidEvent>, layers: Seq<LayerConfig>, k: nat) -> HidAction {
    watcher_step(phase_at(events, layers, k), events[k as int], layers).1
}

/// How many of the first `n` answers start a connection attempt.
pub open spec fn attempts(events: Seq<HidEvent>, layers: Seq<LayerConfig>, n: nat) -> nat
    decreases n,
{
    if n == 0 {
        0
    } else {
        let before = attempts(events, layers, (n - 1) as nat);
        if action_at(events, layers, (n - 1) as nat) == HidAction::Perform(
            HidOperation::Enumerate,
        ) {
            before + 1
        } else {
            before
        }
    }
}

/// How many of the first `n` answers end a connection.
pub open spec fn failures(events: Seq<HidEvent>, layers: Seq<LayerConfig>, n: nat) -> nat
    decreases n,
{
    if n == 0 {
        0
    } else {
        let before = failures(events, layers, (n - 1) as nat);
        if action_at(events, layers, (n - 1) as nat) is Backoff {
            before + 1
        } else {
            before
        }
    }
}

/// Whether `Wake` is due as event `k` of a run that starts without a
/// connection: as the first event, and as the next event after each
/// `Backoff`.
pub open spec fn wake_due(events: Seq<HidEvent>, layers: Seq<LayerConfig>, k: nat) -> bool {
    k == 0 || action_at(events, layers, (k - 1) as nat) is Backoff
}

/// Whether the caller reports `Wake` exactly when it is due.
pub open spec fn wakes_when_due(events: Seq<HidEvent>, layers: Seq<LayerConfig>) -> bool {
    forall|k: nat|
        k < events.len() ==> (events[k as int] is Wake <==> #[trigger] wake_due(events, layers, k))
}

/// A failed read closes the connection and is answered with a wait of
/// `BACKOFF_MS`, whatever the layer table; the `Wake` after the wait starts
/// the next attempt with a new enumeration.
pub proof fn lemma_read_failure_retries(layers: Seq<LayerConfig>)
    ensures
        watcher_step(HidPhase::Connected, HidEvent::ReadFailed, layers) == (
            HidPhase::Idle,
            HidAction::Backoff { error: HidError::DeviceReadFailed, millis: BACKOFF_MS },
        ),
        watcher_step(HidPhase::Idle, HidEvent::Wake, layers) == (
            HidPhase::Enumerating,
            HidAction::Perform(HidOperation::Enumerate),
        ),
{
}

/// Whatever ends a connection, the watcher is left without one and asks for
/// a wait of `BACKOFF_MS`; while a connection goes on it asks for none.
pub proof fn lemma_every_failure_backs_off(
    phase: HidPhase,
    event: HidEvent,
    layers: Seq<LayerConfig>,
)
    ensures
        session_step(phase, event, layers).1 is Err <==> watcher_step(phase, event, layers).1
            is Backoff,
        watcher_step(phase, event, layers).1 is Backoff <==> watcher_step(phase, event, layers).0
            == HidPhase::Idle,
        watcher_step(phase, event, layers).1 is Backoff ==> watcher_step(
            phase,
            event,
            layers,
        ).1->millis == BACKOFF_MS,
{
}

/// At most one device is open at any time: the watcher asks to open a
/// device only after an enumeration, when none is open, and once a device
/// is open it stays the one until a `Backoff` has the caller close it.
pub proof fn lemma_one_device_at_a_time(
    phase: HidPhase,
    event: HidEvent,
    layers: Seq<LayerConfig>,
)
    ensures
        watcher_step(phase, event, layers).1 matches HidAction::Perform(HidOperation::Open(_))
            ==> phase == HidPhase::Enumerating && watcher_step(phase, event, layers).0
            == HidPhase::Opening,
        watcher_step(phase, event, layers).0 == HidPhase::Connected ==> phase == HidPhase::Opening
            || phase == HidPhase::Connected,
        phase == HidPhase::Connected ==> watcher_step(phase, event, layers).0
            == HidPhase::Connected || watcher_step(phase, event, layers).1 is Backoff,
{
}

/// A connection attempt starts with `Wake` while there is no connection,
/// and in no other way.
pub proof fn lemma_attempt_iff_wake_when_idle(
    phase: HidPhase,
    event: HidEvent,
    layers: Seq<LayerConfig>,
)
    ensures
        watcher_step(phase, event, layers).1 == HidAction::Perform(HidOperation::Enumerate) <==> (
        phase == HidPhase::Idle && event is Wake),
{
}

/// The watcher retries for ever: in a run that starts without a connection
/// and in which `Wake` is reported when it is due, the connection attempts
/// among the first `n` answers are one more than the failures before the
/// last of them. So after any number of failures in a row, each followed by
/// its `Wake`, there has been one attempt more than there were failures.
pub proof fn lemma_attempts_follow_failures(
    events: Seq<HidEvent>,
    layers: Seq<LayerConfig>,
    n: nat,
)
    requires
        wakes_when_due(events, layers),
        0 < n <= events.len(),
    ensures
        attempts(events, layers, n) == failures(events, layers, (n - 1) as nat) + 1,
    decreases n,
{
    let last = (n - 1) as nat;
    let phase = phase_at(events, layers, last);
    assert(events[last as int] is Wake <==> wake_due(events, layers, last));
    lemma_attempt_iff_wake_when_idle(phase, events[last as int], layers);
    if last > 0 {
        let before = (last - 1) as nat;
        lemma_attempts_follow_failures(events, layers, last);
        lemma_every_failure_backs_off(phase_at(events, layers, before), events[before as int], layers);
        assert(phase == watcher_step(
            phase_at(events, layers, before),
            events[before as int],
            layers,
        ).0);
        assert(wake_due(events, layers, last) <==> phase == HidPhase::Idle);
    } else {
        assert(attempts(events, layers, 0) == 0);
    }
}

} // verus!
