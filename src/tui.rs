use vstd::prelude::*;

use crate::device::{filter_devices, filtered, Device};
use crate::error::{DeviceError, ScanError};
use crate::protocol::battery::BatteryResponse;
use crate::text::{bool_text, decimal, push_bool, push_decimal};

verus! {

/// The screens of the terminal UI.
#[derive(Debug, Clone, Copy, PartialEq, Eq, Structural)]
pub enum Screen {
    Idle,
    Scanning,
    DeviceList,
    Connecting,
    Connected,
    Error,
    ConfirmReset,
}

/// A key press, as far as the UI tells keys apart.
#[derive(Debug, Clone, Copy, PartialEq, Eq, Structural)]
pub enum Key {
    Char(char),
    Esc,
    Up,
    Down,
    Enter,
    Other,
}

/// The kinds of background task; at most one of each runs at a time.
#[derive(Debug, Clone, Copy, PartialEq, Eq, Structural)]
pub enum TaskKind {
    Scan,
    Connect,
    Command,
    Battery,
}

/// The device controls offered on the connected screen.
#[derive(Debug, Clone, Copy, PartialEq, Eq, Structural)]
pub enum ControlCommand {
    Blink,
    Find,
    Reboot,
    Reset,
}

/// A background task to start.
#[derive(Debug, Clone)]
pub enum TaskRequest {
    Scan,
    Connect(Device),
    Battery(Device),
    Control(ControlCommand, Device),
}

/// What the runtime has to do after the state machine handled a key.
#[derive(Debug, Clone)]
pub enum Effect {
    Nothing,
    Spawn(TaskRequest),
    Abort(TaskKind),
}

/// What a finished background task hands back.
#[derive(Debug)]
pub enum TaskOutcome {
    /// The devices that a scan discovered, before any filtering.
    Scan(Result<Vec<Device>, ScanError>),
    Connect(Result<(), DeviceError>),
    Command(Result<(), DeviceError>),
    Battery(Result<BatteryResponse, DeviceError>),
    /// The task stopped without handing back a result.
    Crashed(TaskKind),
}

/// The state of the terminal UI. Each `*_task` flag tells whether a task of
/// that kind is outstanding.
pub struct App {
    pub current_screen: Screen,
    pub should_quit: bool,
    pub devices: Vec<Device>,
    pub selected_device: Option<usize>,
    pub status_message: String,
    pub error_message: Option<String>,
    pub connecting_device_name: Option<String>,
    pub connected_device: Option<Device>,
    pub is_operation_in_progress: bool,
    pub scan_task: bool,
    pub connection_task: bool,
    pub operation_task: bool,
    pub battery_task: bool,
    pub battery_level: Option<BatteryResponse>,
}

/// The abstract state of the UI.
pub struct AppView {
    pub screen: Screen,
    pub should_quit: bool,
    pub devices: Seq<Device>,
    pub selected: Option<usize>,
    pub status: Seq<char>,
    pub error: Option<Seq<char>>,
    pub connecting_name: Option<Seq<char>>,
    pub connected: Option<Device>,
    pub in_progress: bool,
    pub scan_task: bool,
    pub connection_task: bool,
    pub operation_task: bool,
    pub battery_task: bool,
    pub battery: Option<BatteryResponse>,
}

/// The characters of an optional string.
pub open spec fn opt_text(s: Option<String>) -> Option<Seq<char>> {
    match s {
        Some(t) => Some(t@),
        None => None,
    }
}

impl View for App {
    type V = AppView;

    open spec fn view(&self) -> AppView {
        AppView {
            screen: self.current_screen,
            should_quit: self.should_quit,
            devices: self.devices@,
            selected: self.selected_device,
            status: self.status_message@,
            error: opt_text(self.error_message),
            connecting_name: opt_text(self.connecting_device_name),
            connected: self.connected_device,
            in_progress: self.is_operation_in_progress,
            scan_task: self.scan_task,
            connection_task: self.connection_task,
            operation_task: self.operation_task,
            battery_task: self.battery_task,
            battery: self.battery_level,
        }
    }
}

impl AppView {
    /// The selection points into the list; the device list screen always
    /// shows a nonempty list with a selection; a scan runs only on the scanning
    /// screen, a connection only on the connecting screen, and a device command
    /// only while connected.
    pub open spec fn wf(self) -> bool {
        &&& (self.selected matches Some(i) ==> i < self.devices.len())
        &&& (self.screen == Screen::DeviceList ==> self.devices.len() > 0 && self.selected is Some)
        &&& (self.scan_task ==> self.screen == Screen::Scanning)
        &&& (self.connection_task ==> self.screen == Screen::Connecting)
        &&& (self.operation_task ==> self.screen == Screen::Connected || self.screen
            == Screen::ConfirmReset)
    }
}

/// The state in which the UI starts.
pub open spec fn initial_view() -> AppView {
    AppView {
        screen: Screen::Idle,
        should_quit: false,
        devices: Seq::empty(),
        selected: None,
        status: "Ready to scan"@,
        error: None,
        connecting_name: None,
        connected: None,
        in_progress: false,
        scan_task: false,
        connection_task: false,
        operation_task: false,
        battery_task: false,
        battery: None,
    }
}

/// Escape: cancel what is under way, or step back.
pub open spec fn escape_step(v: AppView) -> (AppView, Effect) {
    match v.screen {
        Screen::Scanning => (
            AppView { screen: Screen::Idle, scan_task: false, status: "Scanning cancelled"@, ..v },
            if v.scan_task {
                Effect::Abort(TaskKind::Scan)
            } else {
                Effect::Nothing
            },
        ),
        Screen::DeviceList => (
            AppView {
                screen: Screen::Idle,
                devices: Seq::empty(),
                selected: None,
                status: "Ready to scan"@,
                ..v
            },
            Effect::Nothing,
        ),
        Screen::Error => (AppView { screen: Screen::Idle, error: None, ..v }, Effect::Nothing),
        Screen::Connecting => (
            AppView {
                screen: Screen::Idle,
                connection_task: false,
                connecting_name: None,
                in_progress: false,
                status: "Connection cancelled"@,
                ..v
            },
            if v.connection_task {
                Effect::Abort(TaskKind::Connect)
            } else {
                Effect::Nothing
            },
        ),
        Screen::ConfirmReset => (AppView { screen: Screen::Connected, ..v }, Effect::Nothing),
        _ => (v, Effect::Nothing),
    }
}

/// `s`: start a scan from the idle or device list screen, unless one runs.
pub open spec fn scan_step(v: AppView) -> (AppView, Effect) {
    if (v.screen == Screen::Idle || v.screen == Screen::DeviceList) && !v.scan_task {
        (
            AppView {
                screen: Screen::Scanning,
                scan_task: true,
                devices: Seq::empty(),
                selected: None,
                status: "Scanning devices..."@,
                ..v
            },
            Effect::Spawn(TaskRequest::Scan),
        )
    } else {
        (v, Effect::Nothing)
    }
}

/// `b`: fetch the battery level of the connected device, unless a fetch runs.
pub open spec fn battery_step(v: AppView) -> (AppView, Effect) {
    if v.screen == Screen::Connected && v.connected is Some && !v.battery_task {
        (
            AppView { battery_task: true, status: "Fetching battery level..."@, ..v },
            Effect::Spawn(TaskRequest::Battery(v.connected->0)),
        )
    } else {
        (v, Effect::Nothing)
    }
}

/// A device control key on the connected screen; a reset asks for
/// confirmation first.
pub open spec fn control_step(v: AppView, command: ControlCommand) -> (AppView, Effect) {
    if command == ControlCommand::Reset && v.screen == Screen::Connected {
        (AppView { screen: Screen::ConfirmReset, ..v }, Effect::Nothing)
    } else if ((command == ControlCommand::Reset && v.screen == Screen::ConfirmReset) || (command
        != ControlCommand::Reset && v.screen == Screen::Connected)) && v.connected is Some
        && !v.operation_task {
        (
            AppView {
                screen: Screen::Connected,
                operation_task: true,
                status: "Sending command..."@,
                ..v
            },
            Effect::Spawn(TaskRequest::Control(command, v.connected->0)),
        )
    } else {
        (v, Effect::Nothing)
    }
}

/// Up: move the selection up the list, stopping at the top.
pub open spec fn up_step(v: AppView) -> AppView {
    if v.screen == Screen::DeviceList && v.devices.len() > 0 && v.selected is Some {
        let i = v.selected->0;
        AppView { selected: Some(if i > 0 { (i - 1) as usize } else { 0 }), ..v }
    } else {
        v
    }
}

/// Down: move the selection down the list, stopping at the bottom.
pub open spec fn down_step(v: AppView) -> AppView {
    if v.screen == Screen::DeviceList && v.devices.len() > 0 {
        match v.selected {
            Some(i) => if i + 1 < v.devices.len() {
                AppView { selected: Some((i + 1) as usize), ..v }
            } else {
                v
            },
            None => AppView { selected: Some(0), ..v },
        }
    } else {
        v
    }
}

/// Enter: connect to the selected device, unless a connection is under way.
pub open spec fn enter_step(v: AppView) -> (AppView, Effect) {
    if v.screen == Screen::DeviceList && !v.connection_task && v.selected is Some
        && v.selected->0 < v.devices.len() {
        let device = v.devices[v.selected->0 as int];
        (
            AppView {
                status: "Selected: "@ + device.spec_display_name(),
                screen: Screen::Connecting,
                in_progress: true,
                connecting_name: Some(device.spec_display_name()),
                connection_task: true,
                ..v
            },
            Effect::Spawn(TaskRequest::Connect(device)),
        )
    } else {
        (v, Effect::Nothing)
    }
}

/// What a key press does to the UI state, and what it asks of the runtime.
pub open spec fn key_step(v: AppView, key: Key) -> (AppView, Effect) {
    match key {
        Key::Char('q') => (AppView { should_quit: true, ..v }, Effect::Nothing),
        Key::Esc => escape_step(v),
        Key::Char('s') => scan_step(v),
        Key::Char('b') => battery_step(v),
        Key::Char('1') => control_step(v, ControlCommand::Blink),
        Key::Char('2') => control_step(v, ControlCommand::Find),
        Key::Char('3') => control_step(v, ControlCommand::Reboot),
        Key::Char('4') => control_step(v, ControlCommand::Reset),
        Key::Up => (up_step(v), Effect::Nothing),
        Key::Down => (down_step(v), Effect::Nothing),
        Key::Enter => enter_step(v),
        _ => (v, Effect::Nothing),
    }
}

/// Shows the error screen with `prefix` followed by `detail`.
pub open spec fn fail_with(v: AppView, prefix: Seq<char>, detail: Seq<char>) -> AppView {
    AppView { screen: Screen::Error, error: Some(prefix + detail), ..v }
}

/// The status line after a battery reading.
pub open spec fn battery_status(b: BatteryResponse) -> Seq<char> {
    "Battery: "@ + decimal(b.charge_pct as nat) + "% | Charging: "@ + bool_text(b.is_charging)
}

/// What a finished task does to the UI state. A result of a task that is not
/// outstanding (one that was cancelled) changes nothing.
pub open spec fn outcome_step(v: AppView, outcome: TaskOutcome) -> AppView {
    match outcome {
        TaskOutcome::Scan(result) => if !v.scan_task {
            v
        } else {
            let w = AppView { scan_task: false, ..v };
            match result {
                Ok(found) => match filtered(found@, true) {
                    Ok(kept) => AppView {
                        devices: kept,
                        screen: Screen::DeviceList,
                        selected: Some(0),
                        status: "Found "@ + decimal(kept.len()) + " devices"@,
                        ..w
                    },
                    Err(e) => fail_with(w, "Scan failed: "@, e.spec_message()),
                },
                Err(e) => fail_with(w, "Scan failed: "@, e.spec_message()),
            }
        },
        TaskOutcome::Connect(result) => if !v.connection_task {
            v
        } else {
            let w = AppView {
                connection_task: false,
                connecting_name: None,
                in_progress: false,
                ..v
            };
            match result {
                Ok(_) => match v.selected {
                    Some(i) => if i < v.devices.len() {
                        AppView {
                            connected: Some(v.devices[i as int]),
                            screen: Screen::Connected,
                            status: "Connected to "@ + v.devices[i as int].spec_display_name(),
                            ..w
                        }
                    } else {
                        w
                    },
                    None => w,
                },
                Err(e) => fail_with(w, "Connection failed: "@, e.spec_message()),
            }
        },
        TaskOutcome::Command(result) => if !v.operation_task {
            v
        } else {
            let w = AppView { operation_task: false, ..v };
            match result {
                Ok(_) => AppView { status: "Operation completed successfully"@, ..w },
                Err(e) => fail_with(w, "Operation failed: "@, e.spec_message()),
            }
        },
        TaskOutcome::Battery(result) => if !v.battery_task {
            v
        } else {
            let w = AppView { battery_task: false, ..v };
            match result {
                Ok(b) => AppView { status: battery_status(b), battery: Some(b), ..w },
                Err(e) => AppView { status: "Battery fetch failed: "@ + e.spec_message(), ..w },
            }
        },
        TaskOutcome::Crashed(kind) => match kind {
            TaskKind::Scan => if v.scan_task {
                fail_with(AppView { scan_task: false, ..v }, "Scan task panicked"@, Seq::empty())
            } else {
                v
            },
            TaskKind::Connect => if v.connection_task {
                fail_with(
                    AppView {
                        connection_task: false,
                        connecting_name: None,
                        in_progress: false,
                        ..v
                    },
                    "Connection task panicked"@,
                    Seq::empty(),
                )
            } else {
                v
            },
            TaskKind::Command => if v.operation_task {
                fail_with(
                    AppView { operation_task: false, ..v },
                    "Operation task panicked"@,
                    Seq::empty(),
                )
            } else {
                v
            },
            TaskKind::Battery => if v.battery_task {
                AppView { battery_task: false, status: "Battery fetch task panicked"@, ..v }
            } else {
                v
            },
        },
    }
}

/// The state after the outcomes are taken in order.
pub open spec fn outcomes_step(v: AppView, outcomes: Seq<TaskOutcome>) -> AppView
    decreases outcomes.len(),
{
    if outcomes.len() == 0 {
        v
    } else {
        outcomes_step(outcome_step(v, outcomes[0]), outcomes.drop_first())
    }
}

/// Stopping a scan drops its task and says so.
pub open spec fn stop_step(v: AppView) -> (AppView, Effect) {
    (
        AppView { scan_task: false, status: "Scanning stopped"@, ..v },
        if v.scan_task {
            Effect::Abort(TaskKind::Scan)
        } else {
            Effect::Nothing
        },
    )
}

impl App {
    pub fn new() -> (r: Self)
        ensures
            r@ == initial_view(),
    {
        App {
            current_screen: Screen::Idle,
            should_quit: false,
            devices: Vec::new(),
            selected_device: None,
            status_message: String::from_str("Ready to scan"),
            error_message: None,
            connecting_device_name: None,
            connected_device: None,
            is_operation_in_progress: false,
            scan_task: false,
            connection_task: false,
            operation_task: false,
            battery_task: false,
            battery_level: None,
        }
    }

    /// Handles one key press; the returned effect is the task to start or to
    /// abort, if any.
    pub fn handle_key_event(&mut self, key: Key) -> (r: Effect)
        ensures
            final(self)@ == key_step(old(self)@, key).0,
            r == key_step(old(self)@, key).1,
    {
        match key {
            Key::Char('q') => {
                self.should_quit = true;
                Effect::Nothing
            },
            Key::Esc => self.handle_escape(),
            Key::Char('s') => self.start_scanning(),
            Key::Char('b') => self.fetch_battery(),
            Key::Char('1') => self.handle_control(ControlCommand::Blink),
            Key::Char('2') => self.handle_control(ControlCommand::Find),
            Key::Char('3') => self.handle_control(ControlCommand::Reboot),
            Key::Char('4') => self.handle_control(ControlCommand::Reset),
            Key::Up => {
                self.handle_up();
                Effect::Nothing
            },
            Key::Down => {
                self.handle_down();
                Effect::Nothing
            },
            Key::Enter => self.handle_enter(),
            _ => Effect::Nothing,
        }
    }

    fn handle_escape(&mut self) -> (r: Effect)
        ensures
            final(self)@ == escape_step(old(self)@).0,
            r == escape_step(old(self)@).1,
    {
        match self.current_screen {
            Screen::Scanning => {
                let effect = self.stop_scanning();
                self.current_screen = Screen::Idle;
                self.status_message = String::from_str("Scanning cancelled");
                effect
            },
            Screen::DeviceList => {
                self.current_screen = Screen::Idle;
                self.devices = Vec::new();
                self.selected_device = None;
                self.status_message = String::from_str("Ready to scan");
                Effect::Nothing
            },
            Screen::Error => {
                self.current_screen = Screen::Idle;
                self.error_message = None;
                Effect::Nothing
            },
            Screen::Connecting => {
                let effect = self.cancel_connection();
                self.current_screen = Screen::Idle;
                effect
            },
            Screen::ConfirmReset => {
                self.current_screen = Screen::Connected;
                Effect::Nothing
            },
            _ => Effect::Nothing,
        }
    }

    fn cancel_connection(&mut self) -> (r: Effect)
        ensures
            final(self)@ == (AppView {
                connection_task: false,
                connecting_name: None,
                in_progress: false,
                status: "Connection cancelled"@,
                ..old(self)@
            }),
            r == (if old(self).connection_task {
                Effect::Abort(TaskKind::Connect)
            } else {
                Effect::Nothing
            }),
    {
        let effect = if self.connection_task {
            Effect::Abort(TaskKind::Connect)
        } else {
            Effect::Nothing
        };
        self.connection_task = false;
        self.connecting_device_name = None;
        self.is_operation_in_progress = false;
        self.status_message = String::from_str("Connection cancelled");
        effect
    }

    /// Starts a scan from the idle or device list screen, unless one runs.
    pub fn start_scanning(&mut self) -> (r: Effect)
        ensures
            final(self)@ == scan_step(old(self)@).0,
            r == scan_step(old(self)@).1,
    {
        if (self.current_screen == Screen::Idle || self.current_screen == Screen::DeviceList)
            && !self.scan_task {
            self.current_screen = Screen::Scanning;
            self.scan_task = true;
            self.devices = Vec::new();
            self.selected_device = None;
            self.status_message = String::from_str("Scanning devices...");
            Effect::Spawn(TaskRequest::Scan)
        } else {
            Effect::Nothing
        }
    }

    /// Drops the scan task, asking the runtime to abort it if it runs.
    pub fn stop_scanning(&mut self) -> (r: Effect)
        ensures
            final(self)@ == stop_step(old(self)@).0,
            r == stop_step(old(self)@).1,
    {
        let effect = if self.scan_task {
            Effect::Abort(TaskKind::Scan)
        } else {
            Effect::Nothing
        };
        self.scan_task = false;
        self.status_message = String::from_str("Scanning stopped");
        effect
    }

    fn fetch_battery(&mut self) -> (r: Effect)
        ensures
            final(self)@ == battery_step(old(self)@).0,
            r == battery_step(old(self)@).1,
    {
        if self.current_screen == Screen::Connected && !self.battery_task {
            match &self.connected_device {
                Some(device) => {
                    let device = device.clone();
                    self.battery_task = true;
                    self.status_message = String::from_str("Fetching battery level...");
                    Effect::Spawn(TaskRequest::Battery(device))
                },
                None => Effect::Nothing,
            }
        } else {
            Effect::Nothing
        }
    }

    fn handle_control(&mut self, command: ControlCommand) -> (r: Effect)
        ensures
            final(self)@ == control_step(old(self)@, command).0,
            r == control_step(old(self)@, command).1,
    {
        let is_reset = match command {
            ControlCommand::Reset => true,
            _ => false,
        };
        if is_reset && self.current_screen == Screen::Connected {
            self.current_screen = Screen::ConfirmReset;
            return Effect::Nothing;
        }
        let wanted = if is_reset {
            self.current_screen == Screen::ConfirmReset
        } else {
            self.current_screen == Screen::Connected
        };
        if wanted && !self.operation_task {
            match &self.connected_device {
                Some(device) => {
                    let device = device.clone();
                    self.current_screen = Screen::Connected;
                    self.operation_task = true;
                    self.status_message = String::from_str("Sending command...");
                    Effect::Spawn(TaskRequest::Control(command, device))
                },
                None => Effect::Nothing,
            }
        } else {
            Effect::Nothing
        }
    }

    fn handle_up(&mut self)
        ensures
            final(self)@ == up_step(old(self)@),
    {
        if self.current_screen == Screen::DeviceList && self.devices.len() > 0 {
            if let Some(selected) = self.selected_device {
                self.selected_device = Some(
                    if selected > 0 {
                        selected - 1
                    } else {
                        0
                    },
                );
            }
        }
    }

    fn handle_down(&mut self)
        ensures
            final(self)@ == down_step(old(self)@),
    {
        if self.current_screen == Screen::DeviceList && self.devices.len() > 0 {
            match self.selected_device {
                Some(selected) => {
                    if selected < self.devices.len() - 1 {
                        self.selected_device = Some(selected + 1);
                    }
                },
                None => {
                    self.selected_device = Some(0);
                },
            }
        }
    }

    fn handle_enter(&mut self) -> (r: Effect)
        ensures
            final(self)@ == enter_step(old(self)@).0,
            r == enter_step(old(self)@).1,
    {
        if self.current_screen == Screen::DeviceList && !self.connection_task {
            if let Some(selected) = self.selected_device {
                if selected < self.devices.len() {
                    let device = self.devices[selected].clone();
                    let name = device.display_name();
                    let mut status = String::from_str("Selected: ");
                    status.append(name.as_str());
                    self.status_message = status;
                    self.current_screen = Screen::Connecting;
                    self.is_operation_in_progress = true;
                    self.connecting_device_name = Some(name);
                    self.connection_task = true;
                    return Effect::Spawn(TaskRequest::Connect(device));
                }
            }
        }
        Effect::Nothing
    }
}

impl App {
    fn fail(&mut self, prefix: &str, detail: &str)
        ensures
            final(self)@ == fail_with(old(self)@, prefix@, detail@),
    {
        let mut text = String::from_str(prefix);
        text.append(detail);
        self.current_screen = Screen::Error;
        self.error_message = Some(text);
    }

    /// Takes in the result of one finished task. The result of a task that is
    /// not outstanding is dropped.
    pub fn apply_outcome(&mut self, outcome: &TaskOutcome)
        ensures
            final(self)@ == outcome_step(old(self)@, *outcome),
    {
        proof {
            reveal_strlit("");
        }
        match outcome {
            TaskOutcome::Scan(result) => {
                if !self.scan_task {
                    return ;
                }
                self.scan_task = false;
                match result {
                    Ok(found) => {
                        let copied = found.clone();
                        assert(copied@ =~= found@);
                        match filter_devices(copied, true) {
                            Ok(kept) => {
                                let mut status = String::from_str("Found ");
                                push_decimal(&mut status, kept.len() as u64);
                                status.append(" devices");
                                self.devices = kept;
                                self.current_screen = Screen::DeviceList;
                                self.selected_device = Some(0);
                                self.status_message = status;
                            },
                            Err(e) => {
                                let detail = e.message();
                                self.fail("Scan failed: ", detail.as_str());
                            },
                        }
                    },
                    Err(e) => {
                        let detail = e.message();
                        self.fail("Scan failed: ", detail.as_str());
                    },
                }
            },
            TaskOutcome::Connect(result) => {
                if !self.connection_task {
                    return ;
                }
                self.connection_task = false;
                self.connecting_device_name = None;
                self.is_operation_in_progress = false;
                match result {
                    Ok(_) => {
                        if let Some(selected) = self.selected_device {
                            if selected < self.devices.len() {
                                let device = self.devices[selected].clone();
                                let name = device.display_name();
                                let mut status = String::from_str("Connected to ");
                                status.append(name.as_str());
                                self.connected_device = Some(device);
                                self.current_screen = Screen::Connected;
                                self.status_message = status;
                            }
                        }
                    },
                    Err(e) => {
                        let detail = e.message();
                        self.fail("Connection failed: ", detail.as_str());
                    },
                }
            },
            TaskOutcome::Command(result) => {
                if !self.operation_task {
                    return ;
                }
                self.operation_task = false;
                match result {
                    Ok(_) => {
                        self.status_message = String::from_str("Operation completed successfully");
                    },
                    Err(e) => {
                        let detail = e.message();
                        self.fail("Operation failed: ", detail.as_str());
                    },
                }
            },
            TaskOutcome::Battery(result) => {
                if !self.battery_task {
                    return ;
                }
                self.battery_task = false;
                match result {
                    Ok(reading) => {
                        let mut status = String::from_str("Battery: ");
                        push_decimal(&mut status, reading.charge_pct as u64);
                        status.append("% | Charging: ");
                        push_bool(&mut status, reading.is_charging);
                        self.status_message = status;
                        self.battery_level = Some(*reading);
                    },
                    Err(e) => {
                        let mut status = String::from_str("Battery fetch failed: ");
                        let detail = e.message();
                        status.append(detail.as_str());
                        self.status_message = status;
                    },
                }
            },
            TaskOutcome::Crashed(kind) => match kind {
                TaskKind::Scan => {
                    if self.scan_task {
                        self.scan_task = false;
                        self.fail("Scan task panicked", "");
                    }
                },
                TaskKind::Connect => {
                    if self.connection_task {
                        self.connection_task = false;
                        self.connecting_device_name = None;
                        self.is_operation_in_progress = false;
                        self.fail("Connection task panicked", "");
                    }
                },
                TaskKind::Command => {
                    if self.operation_task {
                        self.operation_task = false;
                        self.fail("Operation task panicked", "");
                    }
                },
                TaskKind::Battery => {
                    if self.battery_task {
                        self.battery_task = false;
                        self.status_message = String::from_str("Battery fetch task panicked");
                    }
                },
            },
        }
    }

    /// Takes in, in order, the results of the tasks that finished since the
    /// last tick.
    pub fn update_operations(&mut self, outcomes: &Vec<TaskOutcome>)
        ensures
            final(self)@ == outcomes_step(old(self)@, outcomes@),
    {
        let mut i: usize = 0;
        assert(outcomes@.subrange(0, outcomes@.len() as int) =~= outcomes@);
        while i < outcomes.len()
            invariant
                i <= outcomes@.len(),
                outcomes_step(old(self)@, outcomes@) == outcomes_step(
                    self@,
                    outcomes@.subrange(i as int, outcomes@.len() as int),
                ),
            decreases outcomes@.len() - i,
        {
            let ghost rest = outcomes@.subrange(i as int, outcomes@.len() as int);
            assert(rest[0] == outcomes@[i as int]);
            assert(rest.drop_first() =~= outcomes@.subrange(i + 1, outcomes@.len() as int));
            self.apply_outcome(&outcomes[i]);
            i = i + 1;
        }
    }
}

/// The UI starts in a well-formed state.
pub proof fn lemma_initial_wf()
    ensures
        initial_view().wf(),
{
}

/// Every key press keeps the UI state well-formed.
pub proof fn lemma_key_step_wf(v: AppView, key: Key)
    requires
        v.wf(),
    ensures
        key_step(v, key).0.wf(),
{
}

/// Every task result keeps the UI state well-formed.
pub proof fn lemma_outcome_step_wf(v: AppView, outcome: TaskOutcome)
    requires
        v.wf(),
    ensures
        outcome_step(v, outcome).wf(),
{
    match outcome {
        TaskOutcome::Scan(Ok(found)) => {
            if v.scan_task {
                if let Ok(kept) = filtered(found@, true) {
                    assert(kept.len() > 0);
                }
            }
        },
        _ => {},
    }
}

/// From the device list, Enter starts exactly one connect task for the
/// selected device and shows the connecting screen; Escape there aborts that
/// task and returns to the idle screen; and a late result of the aborted task
/// leaves the state as it is.
pub proof fn lemma_connect_then_cancel(v: AppView, late: TaskOutcome)
    requires
        v.wf(),
        v.screen == Screen::DeviceList,
        late is Connect || late == TaskOutcome::Crashed(TaskKind::Connect),
    ensures
        ({
            let (connecting, spawned) = key_step(v, Key::Enter);
            let (cancelled, aborted) = key_step(connecting, Key::Esc);
            &&& connecting.screen == Screen::Connecting
            &&& connecting.connection_task
            &&& spawned == Effect::Spawn(TaskRequest::Connect(v.devices[v.selected->0 as int]))
            &&& cancelled.screen == Screen::Idle
            &&& !cancelled.connection_task
            &&& aborted == Effect::Abort(TaskKind::Connect)
            &&& outcome_step(cancelled, late) == cancelled
        }),
{
}

/// The kind of task that a request starts.
pub open spec fn kind_of(request: TaskRequest) -> TaskKind {
    match request {
        TaskRequest::Scan => TaskKind::Scan,
        TaskRequest::Connect(_) => TaskKind::Connect,
        TaskRequest::Battery(_) => TaskKind::Battery,
        TaskRequest::Control(_, _) => TaskKind::Command,
    }
}

/// A task of `kind` is outstanding in `v`.
pub open spec fn outstanding(v: AppView, kind: TaskKind) -> bool {
    match kind {
        TaskKind::Scan => v.scan_task,
        TaskKind::Connect => v.connection_task,
        TaskKind::Command => v.operation_task,
        TaskKind::Battery => v.battery_task,
    }
}

/// A key press starts a task only when none of its kind is outstanding, and
/// the task it starts is then recorded as outstanding; an abort is asked for
/// only for an outstanding task, which is then no longer recorded.
pub proof fn lemma_one_task_per_kind(v: AppView, key: Key)
    ensures
        ({
            let (w, effect) = key_step(v, key);
            &&& (effect matches Effect::Spawn(request) ==> !outstanding(v, kind_of(request))
                && outstanding(w, kind_of(request)))
            &&& (effect matches Effect::Abort(kind) ==> outstanding(v, kind) && !outstanding(
                w,
                kind,
            ))
        }),
{
}

} // verus!
