//! The status that is shown, and the state of the interactive side.

use crate::channel::{
    channel, events_on, Message, MessageView, ReceiverView, StatusReceiver, StatusSender,
};
use crate::text::{
    all_whitespace, decimal, decimal_string, is_blank, lemma_port_is_not_blank, parse_port,
    port_number,
};
use vstd::prelude::*;
use vstd::string::*;

verus! {

/// One report on an action: where it stands or how it ended.
#[derive(Debug)]
pub enum InjectionStatus {
    /// Nothing is going on: the state before any action, or after a reset.
    Idle,
    /// The action has reached the phase that the text describes.
    InProgress(String),
    /// The transfer is done; so many bytes were written to the connection.
    Success(usize),
    /// The action failed; the text says at which step and why.
    Error(String),
    /// Settings were loaded: host, port and file path, in this order.
    ConfigLoaded(String, String, String),
}

/// What an `InjectionStatus` holds, as plain text and numbers.
pub enum StatusView {
    Idle,
    InProgress(Seq<char>),
    Success(nat),
    Error(Seq<char>),
    ConfigLoaded(Seq<char>, Seq<char>, Seq<char>),
}

impl View for InjectionStatus {
    type V = StatusView;

    open spec fn view(&self) -> StatusView {
        match self {
            InjectionStatus::Idle => StatusView::Idle,
            InjectionStatus::InProgress(message) => StatusView::InProgress(message@),
            InjectionStatus::Success(bytes) => StatusView::Success(*bytes as nat),
            InjectionStatus::Error(message) => StatusView::Error(message@),
            InjectionStatus::ConfigLoaded(ip, port, file_path) => StatusView::ConfigLoaded(
                ip@,
                port@,
                file_path@,
            ),
        }
    }
}

/// The views of a run of reports, in the same order.
pub open spec fn views_of(reports: Seq<InjectionStatus>) -> Seq<StatusView> {
    Seq::new(reports.len(), |i: int| reports[i]@)
}

/// How a status is to be read at a glance.
#[derive(Debug, Clone, Copy, PartialEq, Eq, Structural)]
pub enum Severity {
    Neutral,
    InProgress,
    Success,
    Error,
}

impl Severity {
    /// The colour of the status line, as red, green and blue.
    pub open spec fn colour(self) -> (u8, u8, u8) {
        match self {
            Severity::Neutral => (120u8, 120u8, 120u8),
            Severity::InProgress => (255u8, 165u8, 0u8),
            Severity::Success => (80u8, 180u8, 80u8),
            Severity::Error => (220u8, 80u8, 80u8),
        }
    }

    /// The colour of the status line, as red, green and blue.
    pub fn rgb(self) -> (c: (u8, u8, u8))
        ensures
            c == self.colour(),
    {
        match self {
            Severity::Neutral => (120, 120, 120),
            Severity::InProgress => (255, 165, 0),
            Severity::Success => (80, 180, 80),
            Severity::Error => (220, 80, 80),
        }
    }
}

impl StatusView {
    /// Whether the report ends its action: nothing follows it.
    pub open spec fn is_terminal(self) -> bool {
        self is Success || self is Error || self is ConfigLoaded
    }

    pub open spec fn is_in_progress(self) -> bool {
        self is InProgress
    }

    pub open spec fn severity(self) -> Severity {
        match self {
            StatusView::Idle => Severity::Neutral,
            StatusView::InProgress(_) => Severity::InProgress,
            StatusView::Success(_) => Severity::Success,
            StatusView::Error(_) => Severity::Error,
            StatusView::ConfigLoaded(_, _, _) => Severity::Success,
        }
    }

    /// The line that is shown for the status.
    pub open spec fn text(self) -> Seq<char> {
        match self {
            StatusView::Idle => "Idle"@,
            StatusView::InProgress(message) => message,
            StatusView::Success(bytes) => "Success! Sent "@ + decimal(bytes) + " bytes"@,
            StatusView::Error(message) => "Error: "@ + message,
            StatusView::ConfigLoaded(_, _, _) => "Config loaded successfully"@,
        }
    }
}

impl Clone for InjectionStatus {
    fn clone(&self) -> (copy: InjectionStatus)
        ensures
            copy == *self,
    {
        match self {
            InjectionStatus::Idle => InjectionStatus::Idle,
            InjectionStatus::InProgress(message) => InjectionStatus::InProgress(message.clone()),
            InjectionStatus::Success(bytes) => InjectionStatus::Success(*bytes),
            InjectionStatus::Error(message) => InjectionStatus::Error(message.clone()),
            InjectionStatus::ConfigLoaded(ip, port, file_path) => InjectionStatus::ConfigLoaded(
                ip.clone(),
                port.clone(),
                file_path.clone(),
            ),
        }
    }
}

impl InjectionStatus {
    /// Whether the report ends its action.
    pub fn is_terminal(&self) -> (b: bool)
        ensures
            b == self@.is_terminal(),
    {
        match self {
            InjectionStatus::Success(_) => true,
            InjectionStatus::Error(_) => true,
            InjectionStatus::ConfigLoaded(_, _, _) => true,
            _ => false,
        }
    }

    pub fn is_in_progress(&self) -> (b: bool)
        ensures
            b == self@.is_in_progress(),
    {
        match self {
            InjectionStatus::InProgress(_) => true,
            _ => false,
        }
    }

    pub fn severity(&self) -> (s: Severity)
        ensures
            s == self@.severity(),
    {
        match self {
            InjectionStatus::Idle => Severity::Neutral,
            InjectionStatus::InProgress(_) => Severity::InProgress,
            InjectionStatus::Success(_) => Severity::Success,
            InjectionStatus::Error(_) => Severity::Error,
            InjectionStatus::ConfigLoaded(_, _, _) => Severity::Success,
        }
    }

    /// The line that is shown for the status.
    pub fn text(&self) -> (line: String)
        ensures
            line@ == self@.text(),
    {
        match self {
            InjectionStatus::Idle => "Idle".to_owned(),
            InjectionStatus::InProgress(message) => message.clone(),
            InjectionStatus::Success(bytes) => {
                let mut line = "Success! Sent ".to_owned();
                let count = decimal_string(*bytes);
                line.append(count.as_str());
                line.append(" bytes");
                line
            },
            InjectionStatus::Error(message) => {
                let mut line = "Error: ".to_owned();
                line.append(message.as_str());
                line
            },
            InjectionStatus::ConfigLoaded(_, _, _) => "Config loaded successfully".to_owned(),
        }
    }
}

/// Copies of the three editable fields, as an action takes them along.
#[derive(Debug)]
pub struct Fields {
    pub ip: String,
    pub port: String,
    pub file_path: String,
}

pub struct FieldsView {
    pub ip: Seq<char>,
    pub port: Seq<char>,
    pub file_path: Seq<char>,
}

impl View for Fields {
    type V = FieldsView;

    open spec fn view(&self) -> FieldsView {
        FieldsView { ip: self.ip@, port: self.port@, file_path: self.file_path@ }
    }
}

/// What is handed to a new action: the sender of its fresh channel and its
/// own copies of the fields as they stood when it was started.
#[derive(Debug)]
pub struct Dispatch {
    pub sender: StatusSender,
    pub fields: Fields,
}

/// What one polling tick asks of whoever draws the window.
#[derive(Debug)]
pub struct Frame {
    /// Draw again soon, without waiting for input.
    pub repaint: bool,
    /// Store these fields now, if there is an auto-save file.
    pub auto_save: Option<Fields>,
}

pub struct FrameView {
    pub repaint: bool,
    pub auto_save: Option<FieldsView>,
}

impl View for Frame {
    type V = FrameView;

    open spec fn view(&self) -> FrameView {
        FrameView {
            repaint: self.repaint,
            auto_save: match self.auto_save {
                Some(fields) => Some(fields@),
                None => None,
            },
        }
    }
}

/// The state of the interactive side: the fields, the status that is shown
/// and the receiver of the one channel that is listened to.
#[derive(Debug)]
pub struct App {
    ip: String,
    port: String,
    file_path: String,
    status: InjectionStatus,
    receiver: Option<StatusReceiver>,
    values_changed: bool,
    auto_save_enabled: bool,
    started: u64,
}

/// What an `App` holds.
pub struct AppView {
    pub ip: Seq<char>,
    pub port: Seq<char>,
    pub file_path: Seq<char>,
    pub status: StatusView,
    /// The live channel's receiver, once an action has been started.
    pub receiver: Option<ReceiverView>,
    /// A field was changed since the last tick.
    pub values_changed: bool,
    pub auto_save_enabled: bool,
    /// The number of channels opened so far. Channels are numbered in the
    /// order of their opening, from 0.
    pub started: u64,
}

/// What a report of loaded settings becomes once the settings were looked
/// at: a host that is blank or a port that is no port makes it an error.
pub open spec fn loaded_status(ip: Seq<char>, port: Seq<char>, file_path: Seq<char>) -> StatusView {
    if all_whitespace(ip) {
        StatusView::Error("Invalid config: IP address is empty"@)
    } else if port_number(port) is None {
        StatusView::Error("Invalid config: Invalid port number '"@ + port + "'"@)
    } else {
        StatusView::ConfigLoaded(ip, port, file_path)
    }
}

impl AppView {
    /// The live channel, if there is one, is one of those opened so far.
    pub open spec fn wf(self) -> bool {
        self.receiver matches Some(receiver) ==> receiver.channel < self.started
    }

    pub open spec fn fields(self) -> FieldsView {
        FieldsView { ip: self.ip, port: self.port, file_path: self.file_path }
    }

    /// Whether the fields would do for a transfer: host and file path not
    /// blank, the port a port, and the file there.
    pub open spec fn input_valid(self, file_exists: bool) -> bool {
        &&& !all_whitespace(self.ip)
        &&& port_number(self.port) is Some
        &&& !all_whitespace(self.file_path)
        &&& file_exists
    }

    /// Whether a transfer may be started: the fields would do, and no action
    /// is in progress.
    pub open spec fn can_inject(self, file_exists: bool) -> bool {
        self.input_valid(file_exists) && !self.status.is_in_progress()
    }

    /// What the next tick reads from the live channel.
    pub open spec fn polled(self) -> Option<StatusView> {
        match self.receiver {
            Some(receiver) => receiver.front(),
            None => None,
        }
    }

    /// The state once `event` has been taken from the channel. Loaded
    /// settings replace the fields whether they are valid or not; any
    /// other report replaces the status only.
    pub open spec fn adopt(self, event: StatusView) -> AppView {
        let receiver = match self.receiver {
            Some(receiver) => Some(receiver.after_read()),
            None => None,
        };
        match event {
            StatusView::ConfigLoaded(ip, port, file_path) => AppView {
                ip,
                port,
                file_path,
                status: loaded_status(ip, port, file_path),
                receiver,
                values_changed: true,
                ..self
            },
            _ => AppView { status: event, receiver, ..self },
        }
    }

    /// The state in the middle of a tick, after the one read.
    pub open spec fn after_poll(self) -> AppView {
        match self.polled() {
            Some(event) => self.adopt(event),
            None => self,
        }
    }

    /// The state after a tick.
    pub open spec fn after_update(self) -> AppView {
        AppView { values_changed: false, ..self.after_poll() }
    }

    /// What a tick asks for: to draw again where a report came in or an
    /// action is in progress, and to store the fields where one of them
    /// changed and auto-save is on.
    pub open spec fn frame(self) -> FrameView {
        let polled = self.after_poll();
        FrameView {
            repaint: self.polled() is Some || polled.status.is_in_progress(),
            auto_save: if polled.values_changed && polled.auto_save_enabled {
                Some(polled.fields())
            } else {
                None
            },
        }
    }

    /// The state after a message has arrived: the live receiver takes it if
    /// it is of its channel; without a live receiver it is lost.
    pub open spec fn deliver(self, message: MessageView) -> AppView {
        match self.receiver {
            Some(receiver) => AppView { receiver: Some(receiver.deliver(message)), ..self },
            None => self,
        }
    }

    /// The state after a fresh channel has taken the place of the live one.
    /// What the former receiver held unread is gone with it.
    pub open spec fn open_channel(self) -> AppView {
        AppView {
            receiver: Some(ReceiverView::empty(self.started)),
            started: (self.started + 1) as u64,
            ..self
        }
    }

    /// What keeps a transfer from being started, in the order in which the
    /// fields are looked at; `None` where nothing does.
    pub open spec fn inject_fault(self, file_exists: bool) -> Option<Seq<char>> {
        if self.file_path.len() == 0 {
            Some("No file selected"@)
        } else if !file_exists {
            Some("File does not exist: "@ + self.file_path)
        } else if self.ip.len() == 0 {
            Some("IP address is required"@)
        } else if self.port.len() == 0 {
            Some("Port is required"@)
        } else if port_number(self.port) is None {
            Some("Invalid port number: "@ + self.port)
        } else {
            None
        }
    }

    /// Whether `inject_payload` starts a transfer.
    pub open spec fn inject_starts(self, file_exists: bool) -> bool {
        !self.status.is_in_progress() && self.inject_fault(file_exists) is None
    }

    /// The state after `inject_payload`. A fault in the fields becomes the
    /// status at once, whatever the status was. Without a fault the call
    /// changes nothing while an action is in progress, and else opens a
    /// fresh channel for the transfer.
    pub open spec fn after_inject(self, file_exists: bool) -> AppView {
        match self.inject_fault(file_exists) {
            Some(fault) => AppView { status: StatusView::Error(fault), ..self },
            None => if self.status.is_in_progress() {
                self
            } else {
                AppView {
                    status: StatusView::InProgress("Preparing injection..."@),
                    ..self.open_channel()
                }
            },
        }
    }
}

impl View for App {
    type V = AppView;

    closed spec fn view(&self) -> AppView {
        AppView {
            ip: self.ip@,
            port: self.port@,
            file_path: self.file_path@,
            status: self.status@,
            receiver: match self.receiver {
                Some(receiver) => Some(receiver@),
                None => None,
            },
            values_changed: self.values_changed,
            auto_save_enabled: self.auto_save_enabled,
            started: self.started,
        }
    }
}

fn check_loaded(ip: &String, port: &String, file_path: &String) -> (status: InjectionStatus)
    ensures
        status@ == loaded_status(ip@, port@, file_path@),
{
    if is_blank(ip.as_str()) {
        InjectionStatus::Error("Invalid config: IP address is empty".to_owned())
    } else if parse_port(port.as_str()).is_none() {
        let mut message = "Invalid config: Invalid port number '".to_owned();
        message.append(port.as_str());
        message.append("'");
        InjectionStatus::Error(message)
    } else {
        InjectionStatus::ConfigLoaded(ip.clone(), port.clone(), file_path.clone())
    }
}

impl App {
    /// The state at start: the fields and the auto-save preference as
    /// given (host, port, file path, preference), nothing in progress, no
    /// channel yet.
    pub fn new(startup_config: (String, String, String, bool)) -> (app: App)
        ensures
            app@.wf(),
            app@ == (AppView {
                ip: startup_config.0@,
                port: startup_config.1@,
                file_path: startup_config.2@,
                status: StatusView::Idle,
                receiver: None,
                values_changed: false,
                auto_save_enabled: startup_config.3,
                started: 0,
            }),
    {
        App {
            ip: startup_config.0,
            port: startup_config.1,
            file_path: startup_config.2,
            status: InjectionStatus::Idle,
            receiver: None,
            values_changed: false,
            auto_save_enabled: startup_config.3,
            started: 0,
        }
    }

    pub fn ip(&self) -> (ip: &str)
        ensures
            ip@ == self@.ip,
    {
        self.ip.as_str()
    }

    pub fn port(&self) -> (port: &str)
        ensures
            port@ == self@.port,
    {
        self.port.as_str()
    }

    pub fn file_path(&self) -> (file_path: &str)
        ensures
            file_path@ == self@.file_path,
    {
        self.file_path.as_str()
    }

    pub fn status(&self) -> (status: &InjectionStatus)
        ensures
            status@ == self@.status,
    {
        &self.status
    }

    pub fn values_changed(&self) -> (changed: bool)
        ensures
            changed == self@.values_changed,
    {
        self.values_changed
    }

    pub fn auto_save_enabled(&self) -> (enabled: bool)
        ensures
            enabled == self@.auto_save_enabled,
    {
        self.auto_save_enabled
    }

    /// Whether another channel can be opened: their numbers have not run out.
    pub fn can_open_channel(&self) -> (b: bool)
        ensures
            b == (self@.started < u64::MAX),
    {
        self.started < u64::MAX
    }

    fn copy_fields(&self) -> (fields: Fields)
        ensures
            fields@ == self@.fields(),
    {
        Fields {
            ip: self.ip.clone(),
            port: self.port.clone(),
            file_path: self.file_path.clone(),
        }
    }

    /// One polling tick: reads at most one report from the live channel,
    /// without waiting, and takes it over; then says what is to be drawn
    /// and stored.
    pub fn update(&mut self) -> (frame: Frame)
        ensures
            final(self)@ == old(self)@.after_update(),
            frame@ == old(self)@.frame(),
            old(self)@.wf() ==> final(self)@.wf(),
    {
        let polled = match &mut self.receiver {
            Some(receiver) => receiver.try_receive(),
            None => None,
        };
        let mut repaint = false;
        match polled {
            Some(InjectionStatus::ConfigLoaded(ip, port, file_path)) => {
                self.status = check_loaded(&ip, &port, &file_path);
                self.ip = ip;
                self.port = port;
                self.file_path = file_path;
                self.values_changed = true;
                repaint = true;
            },
            Some(event) => {
                self.status = event;
                repaint = true;
            },
            None => {},
        }
        if self.status.is_in_progress() {
            repaint = true;
        }
        let auto_save = if self.values_changed && self.auto_save_enabled {
            Some(self.copy_fields())
        } else {
            None
        };
        self.values_changed = false;
        Frame { repaint, auto_save }
    }

    /// Takes in a message that was carried over from an action. It is
    /// queued if it belongs to the live channel, and dropped otherwise.
    pub fn deliver(&mut self, message: Message) -> (queued: bool)
        ensures
            final(self)@ == old(self)@.deliver(message@),
            queued == (old(self)@.receiver matches Some(receiver) && receiver.accepts(message@)),
            old(self)@.wf() ==> final(self)@.wf(),
    {
        match &mut self.receiver {
            Some(receiver) => receiver.deliver(message),
            None => false,
        }
    }

    /// The fields were edited: host.
    pub fn set_ip(&mut self, ip: String)
        ensures
            final(self)@ == (AppView { ip: ip@, values_changed: true, ..old(self)@ }),
    {
        self.ip = ip;
        self.values_changed = true;
    }

    /// The fields were edited: port.
    pub fn set_port(&mut self, port: String)
        ensures
            final(self)@ == (AppView { port: port@, values_changed: true, ..old(self)@ }),
    {
        self.port = port;
        self.values_changed = true;
    }

    /// The fields were edited or a file was picked: file path.
    pub fn set_file_path(&mut self, file_path: String)
        ensures
            final(self)@ == (AppView { file_path: file_path@, values_changed: true, ..old(self)@ }),
    {
        self.file_path = file_path;
        self.values_changed = true;
    }

    /// The auto-save preference was switched.
    pub fn set_auto_save_enabled(&mut self, enabled: bool)
        ensures
            final(self)@ == (AppView { auto_save_enabled: enabled, ..old(self)@ }),
    {
        self.auto_save_enabled = enabled;
    }

    /// The fields to store when the window closes, where auto-save is on.
    pub fn on_exit(&self) -> (auto_save: Option<Fields>)
        ensures
            match auto_save {
                Some(fields) => self@.auto_save_enabled && fields@ == self@.fields(),
                None => !self@.auto_save_enabled,
            },
    {
        if self.auto_save_enabled {
            Some(self.copy_fields())
        } else {
            None
        }
    }

    /// Whether the fields would do for a transfer. `file_exists` says
    /// whether the file path names a file that is there.
    pub fn is_input_valid(&self, file_exists: bool) -> (valid: bool)
        ensures
            valid == self@.input_valid(file_exists),
    {
        if is_blank(self.ip.as_str()) {
            return false;
        }
        if is_blank(self.port.as_str()) || parse_port(self.port.as_str()).is_none() {
            proof {
                if port_number(self@.port) is Some {
                    lemma_port_is_not_blank(self@.port);
                }
            }
            return false;
        }
        if is_blank(self.file_path.as_str()) || !file_exists {
            return false;
        }
        true
    }

    /// Whether a transfer may be started now.
    pub fn can_inject(&self, file_exists: bool) -> (allowed: bool)
        ensures
            allowed == self@.can_inject(file_exists),
    {
        self.is_input_valid(file_exists) && !self.status.is_in_progress()
    }

    /// The line that is shown for the status.
    pub fn status_text(&self) -> (line: String)
        ensures
            line@ == self@.status.text(),
    {
        self.status.text()
    }

    /// The colour of the status line, as red, green and blue.
    pub fn status_color(&self) -> (colour: (u8, u8, u8))
        ensures
            colour == self@.status.severity().colour(),
    {
        self.status.severity().rgb()
    }

    fn open_channel(&mut self) -> (sender: StatusSender)
        requires
            old(self)@.started < u64::MAX,
        ensures
            final(self)@ == old(self)@.open_channel(),
            sender@ == old(self)@.started,
            final(self)@.wf(),
    {
        let (sender, receiver) = channel(self.started);
        self.receiver = Some(receiver);
        self.started = self.started + 1;
        sender
    }

    /// Starts a transfer, if nothing stands against it. First the fields
    /// are looked at: the first fault found becomes the status at once,
    /// whatever the status was, and nothing is started. Where there is
    /// none and an action is in progress, the call changes nothing. Else a
    /// fresh channel replaces the live one and the caller gets what the new
    /// action needs.
    pub fn inject_payload(&mut self, file_exists: bool) -> (dispatch: Option<Dispatch>)
        requires
            old(self)@.started < u64::MAX,
        ensures
            final(self)@ == old(self)@.after_inject(file_exists),
            old(self)@.wf() ==> final(self)@.wf(),
            dispatch is Some <==> old(self)@.inject_starts(file_exists),
            dispatch matches Some(d) ==> d.sender@ == old(self)@.started && d.fields@ == old(
                self,
            )@.fields(),
    {
        if self.file_path.as_str().is_empty() {
            self.status = InjectionStatus::Error("No file selected".to_owned());
            return None;
        }
        if !file_exists {
            let mut message = "File does not exist: ".to_owned();
            message.append(self.file_path.as_str());
            self.status = InjectionStatus::Error(message);
            return None;
        }
        if self.ip.as_str().is_empty() {
            self.status = InjectionStatus::Error("IP address is required".to_owned());
            return None;
        }
        if self.port.as_str().is_empty() {
            self.status = InjectionStatus::Error("Port is required".to_owned());
            return None;
        }
        if parse_port(self.port.as_str()).is_none() {
            let mut message = "Invalid port number: ".to_owned();
            message.append(self.port.as_str());
            self.status = InjectionStatus::Error(message);
            return None;
        }
        if self.status.is_in_progress() {
            return None;
        }
        self.status = InjectionStatus::InProgress("Preparing injection...".to_owned());
        let sender = self.open_channel();
        Some(Dispatch { sender, fields: self.copy_fields() })
    }

    /// Starts the storing of the fields: a fresh channel replaces the live
    /// one, and the caller gets what the new action needs. The status
    /// stays as it is until the action reports.
    pub fn save_config(&mut self) -> (dispatch: Dispatch)
        requires
            old(self)@.started < u64::MAX,
        ensures
            final(self)@ == old(self)@.open_channel(),
            final(self)@.wf(),
            dispatch.sender@ == old(self)@.started,
            dispatch.fields@ == old(self)@.fields(),
    {
        let sender = self.open_channel();
        Dispatch { sender, fields: self.copy_fields() }
    }

    /// Starts the loading of settings: a fresh channel replaces the live
    /// one, and the caller gets its sender for the new action.
    pub fn load_config(&mut self) -> (sender: StatusSender)
        requires
            old(self)@.started < u64::MAX,
        ensures
            final(self)@ == old(self)@.open_channel(),
            final(self)@.wf(),
            sender@ == old(self)@.started,
    {
        self.open_channel()
    }
}

impl AppView {
    /// The state after the messages have arrived, one after the other.
    pub open spec fn deliver_all(self, messages: Seq<MessageView>) -> AppView
        decreases messages.len(),
    {
        if messages.len() == 0 {
            self
        } else {
            self.deliver_all(messages.drop_last()).deliver(messages.last())
        }
    }

    /// The state after `n` ticks.
    pub open spec fn after_updates(self, n: nat) -> AppView
        decreases n,
    {
        if n == 0 {
            self
        } else {
            self.after_updates((n - 1) as nat).after_update()
        }
    }
}

/// The status that is shown once `event` has been read.
pub open spec fn shown(event: StatusView) -> StatusView {
    match event {
        StatusView::ConfigLoaded(ip, port, file_path) => loaded_status(ip, port, file_path),
        _ => event,
    }
}

/// Once a new action is started, only its reports can be observed. The
/// live receiver then holds, of whatever arrives and in whatever
/// interleaving, the reports of the new channel alone, in the order of
/// their arrival; what earlier actions still send changes nothing.
pub proof fn lemma_only_latest_action_observable(app: AppView, messages: Seq<MessageView>)
    ensures
        app.open_channel().deliver_all(messages) == (AppView {
            receiver: Some(
                ReceiverView { channel: app.started, queue: events_on(app.started, messages) },
            ),
            ..app.open_channel()
        }),
    decreases messages.len(),
{
    let fresh = app.open_channel();
    if messages.len() == 0 {
        assert(events_on(app.started, messages) =~= Seq::<StatusView>::empty());
    } else {
        lemma_only_latest_action_observable(app, messages.drop_last());
    }
}

/// Messages change the live receiver and nothing else.
pub proof fn lemma_messages_reach_live_receiver(app: AppView, messages: Seq<MessageView>)
    requires
        app.receiver is Some,
    ensures
        app.deliver_all(messages) == (AppView {
            receiver: Some(app.receiver->0.deliver_all(messages)),
            ..app
        }),
    decreases messages.len(),
{
    if messages.len() > 0 {
        lemma_messages_reach_live_receiver(app, messages.drop_last());
    }
}

/// A message of a channel that is not the live one changes nothing at all:
/// neither the status, nor the fields, nor what waits to be read.
pub proof fn lemma_stale_message_changes_nothing(app: AppView, message: MessageView)
    requires
        app.receiver matches Some(receiver) ==> receiver.channel != message.channel,
    ensures
        app.deliver(message) == app,
{
}

/// Every channel that was opened before the live one has another number
/// than the one that is opened next: a sender of an earlier action can
/// never be taken for that of a later one.
pub proof fn lemma_channel_numbers_are_fresh(app: AppView)
    requires
        app.wf(),
        app.started < u64::MAX,
    ensures
        app.open_channel().wf(),
        app.open_channel().started == app.started + 1,
        app.receiver matches Some(earlier) ==> !app.open_channel().receiver->0.accepts(
            MessageView { channel: earlier.channel, event: StatusView::Idle },
        ),
{
}

/// The consumer sees the reports in the order in which they were queued,
/// one per tick, none left out: after tick `k + 1` the status is what the
/// report number `k` shows, and the reports behind it still wait.
pub proof fn lemma_ticks_show_reports_in_order(app: AppView, events: Seq<StatusView>, k: nat)
    requires
        app.receiver matches Some(receiver) && receiver.queue == events,
        k < events.len(),
    ensures
        app.after_updates(k + 1).status == shown(events[k as int]),
        app.after_updates(k + 1).receiver matches Some(receiver) && receiver.queue
            == events.subrange(k as int + 1, events.len() as int),
    decreases k,
{
    let receiver = app.receiver->0;
    if k == 0 {
        assert(app.after_updates(1) == app.after_updates(0).after_update());
        assert(app.polled() == Some(events[0]));
    } else {
        lemma_ticks_show_reports_in_order(app, events, (k - 1) as nat);
        let before = app.after_updates(k);
        let waiting = events.subrange(k as int, events.len() as int);
        assert(before.receiver->0.queue == waiting);
        assert(waiting[0] == events[k as int]);
        assert(before.polled() == Some(events[k as int]));
        assert(waiting.subrange(1, waiting.len() as int) =~= events.subrange(
            k as int + 1,
            events.len() as int,
        ));
    }
}

} // verus!
