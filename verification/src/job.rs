//! What the actions that run beside the interactive side have in common.
//!
//! An action is a small machine. Whoever runs it does the work that the
//! machine asks for (file, network, dialog), tells it how that went, and
//! sends on what it reports. The machine decides the rest: what is
//! reported, in which words and order, what is done next, and when the
//! action is over.

use crate::config::{Config, ConfigError, ConfigErrorView, ConfigView};
use crate::network::{TransferError, TransferErrorView};
use crate::ui::{views_of, InjectionStatus, StatusView};
use vstd::prelude::*;
use vstd::string::*;

verus! {

/// The work that an action asks for next.
#[derive(Debug)]
pub enum Work {
    /// Read the file at `path` to its end.
    ReadFile { path: String },
    /// Connect to `address`, giving up after `timeout_secs` seconds.
    Connect { address: String, timeout_secs: u64 },
    /// Write all of `payload` to the connection, then flush.
    Send { payload: Vec<u8> },
    /// Let the user say where the settings go; offer `default_name`.
    PickSaveDestination { default_name: String },
    /// Store `config` in the file at `path`.
    WriteConfig { path: String, config: Config },
    /// Let the user pick the settings file to load.
    PickConfigFile,
    /// Load the settings of the file at `path`.
    ReadConfig { path: String },
    /// Nothing: the action is over.
    Stop,
}

pub enum WorkView {
    ReadFile { path: Seq<char> },
    Connect { address: Seq<char>, timeout_secs: u64 },
    Send { payload: Seq<u8> },
    PickSaveDestination { default_name: Seq<char> },
    WriteConfig { path: Seq<char>, config: ConfigView },
    PickConfigFile,
    ReadConfig { path: Seq<char> },
    Stop,
}

impl View for Work {
    type V = WorkView;

    open spec fn view(&self) -> WorkView {
        match self {
            Work::ReadFile { path } => WorkView::ReadFile { path: path@ },
            Work::Connect { address, timeout_secs } => WorkView::Connect {
                address: address@,
                timeout_secs: *timeout_secs,
            },
            Work::Send { payload } => WorkView::Send { payload: payload@ },
            Work::PickSaveDestination { default_name } => WorkView::PickSaveDestination {
                default_name: default_name@,
            },
            Work::WriteConfig { path, config } => WorkView::WriteConfig {
                path: path@,
                config: config@,
            },
            Work::PickConfigFile => WorkView::PickConfigFile,
            Work::ReadConfig { path } => WorkView::ReadConfig { path: path@ },
            Work::Stop => WorkView::Stop,
        }
    }
}

/// How the work that an action asked for went.
#[derive(Debug)]
pub enum Outcome {
    /// The action runs; nothing was asked for yet.
    Started,
    /// The action could not get the runtime that its work needs.
    RuntimeFailed(String),
    /// The file was read; this is its content.
    FileRead(Vec<u8>),
    /// The connection stands.
    Connected,
    /// The payload was written and flushed.
    Sent,
    /// A step of the transfer failed.
    Failed(TransferError),
    /// The user picked the file at `path`, which is shown as `file_name`.
    Picked { path: String, file_name: String },
    /// The user closed the dialog without picking.
    Cancelled,
    /// The settings were stored.
    Saved,
    /// The settings could not be stored.
    SaveFailed(ConfigError),
    /// These settings were loaded.
    Loaded(Config),
    /// No settings could be loaded.
    LoadFailed(ConfigError),
}

pub enum OutcomeView {
    Started,
    RuntimeFailed(Seq<char>),
    FileRead(Seq<u8>),
    Connected,
    Sent,
    Failed(TransferErrorView),
    Picked { path: Seq<char>, file_name: Seq<char> },
    Cancelled,
    Saved,
    SaveFailed(ConfigErrorView),
    Loaded(ConfigView),
    LoadFailed(ConfigErrorView),
}

impl View for Outcome {
    type V = OutcomeView;

    open spec fn view(&self) -> OutcomeView {
        match self {
            Outcome::Started => OutcomeView::Started,
            Outcome::RuntimeFailed(cause) => OutcomeView::RuntimeFailed(cause@),
            Outcome::FileRead(content) => OutcomeView::FileRead(content@),
            Outcome::Connected => OutcomeView::Connected,
            Outcome::Sent => OutcomeView::Sent,
            Outcome::Failed(failure) => OutcomeView::Failed(failure@),
            Outcome::Picked { path, file_name } => OutcomeView::Picked {
                path: path@,
                file_name: file_name@,
            },
            Outcome::Cancelled => OutcomeView::Cancelled,
            Outcome::Saved => OutcomeView::Saved,
            Outcome::SaveFailed(failure) => OutcomeView::SaveFailed(failure@),
            Outcome::Loaded(config) => OutcomeView::Loaded(config@),
            Outcome::LoadFailed(failure) => OutcomeView::LoadFailed(failure@),
        }
    }
}

/// One step of an action: what to report now, how long to let the report
/// stand, and what to do then.
#[derive(Debug)]
pub struct Turn {
    /// The reports to send, in this order.
    pub reports: Vec<InjectionStatus>,
    /// The time to wait after sending and before working, in milliseconds.
    pub pause_ms: u64,
    pub work: Work,
}

pub struct TurnView {
    pub reports: Seq<StatusView>,
    pub pause_ms: u64,
    pub work: WorkView,
}

impl View for Turn {
    type V = TurnView;

    open spec fn view(&self) -> TurnView {
        TurnView { reports: views_of(self.reports@), pause_ms: self.pause_ms, work: self.work@ }
    }
}

impl TurnView {
    /// The step that reports one phase, lets the report stand for
    /// `pause_ms` and then asks for `work`.
    pub open spec fn phase(text: Seq<char>, pause_ms: u64, work: WorkView) -> TurnView {
        TurnView { reports: seq![StatusView::InProgress(text)], pause_ms, work }
    }

    /// The step that ends an action with the given reports.
    pub open spec fn last(reports: Seq<StatusView>) -> TurnView {
        TurnView { reports, pause_ms: 0, work: WorkView::Stop }
    }

    /// The step that ends an action with one report.
    pub open spec fn ending(report: StatusView) -> TurnView {
        TurnView::last(seq![report])
    }

    /// The step that ends an action which did not fail and has nothing to
    /// hand over: it says so in `text`, and the status goes back to idle.
    pub open spec fn back_to_idle(text: Seq<char>) -> TurnView {
        TurnView::last(seq![StatusView::InProgress(text), StatusView::Idle])
    }
}

impl Turn {
    /// The step that reports one phase, lets the report stand for
    /// `pause_ms` and then asks for `work`.
    pub fn phase(text: String, pause_ms: u64, work: Work) -> (turn: Turn)
        ensures
            turn@ == TurnView::phase(text@, pause_ms, work@),
    {
        let mut reports = Vec::new();
        reports.push(InjectionStatus::InProgress(text));
        assert(views_of(reports@) =~= seq![StatusView::InProgress(text@)]);
        Turn { reports, pause_ms, work }
    }

    /// The step that ends an action with one report.
    pub fn ending(report: InjectionStatus) -> (turn: Turn)
        ensures
            turn@ == TurnView::ending(report@),
    {
        let mut reports = Vec::new();
        reports.push(report);
        assert(views_of(reports@) =~= seq![report@]);
        Turn { reports, pause_ms: 0, work: Work::Stop }
    }

    /// The step that ends an action which did not fail and has nothing to
    /// hand over.
    pub fn back_to_idle(text: String) -> (turn: Turn)
        ensures
            turn@ == TurnView::back_to_idle(text@),
    {
        let mut reports = Vec::new();
        reports.push(InjectionStatus::InProgress(text));
        reports.push(InjectionStatus::Idle);
        assert(views_of(reports@) =~= seq![StatusView::InProgress(text@), StatusView::Idle]);
        Turn { reports, pause_ms: 0, work: Work::Stop }
    }

    /// Whether the step is the last of its action.
    pub fn is_last(&self) -> (b: bool)
        ensures
            b == (self@.work is Stop),
    {
        match self.work {
            Work::Stop => true,
            _ => false,
        }
    }
}

/// What `std::path::Path::file_name` returns for `path`: the last component
/// of the path, where it has one that names a file or a directory. How a
/// path falls into components is the standard library's business and is
/// not written out here; the name only says that the answer rests on the
/// path alone.
pub uninterp spec fn last_component(path: Seq<char>) -> Option<Seq<char>>;

/// The last component of `path`. The wrapper calls
/// `std::path::Path::file_name` and claims of its result that it is what
/// `last_component` names, no more.
#[verifier::external_body]
fn final_component(path: &str) -> (name: Option<String>)
    ensures
        text_view(name) == last_component(path@),
{
    std::path::Path::new(path).file_name().and_then(|name| name.to_str()).map(
        |name| name.to_string(),
    )
}

/// The name to show for a file: the last component of its path, or
/// `unknown` where the path has none.
pub open spec fn shown_name(component: Option<Seq<char>>) -> Seq<char> {
    match component {
        Some(name) => name,
        None => "unknown"@,
    }
}

/// The view of a text that may be missing.
pub open spec fn text_view(text: Option<String>) -> Option<Seq<char>> {
    match text {
        Some(text) => Some(text@),
        None => None,
    }
}

/// The name to show for a file whose path has the last component
/// `component`.
pub fn name_or_unknown(component: Option<String>) -> (name: String)
    ensures
        name@ == shown_name(text_view(component)),
{
    match component {
        Some(name) => name,
        None => "unknown".to_owned(),
    }
}

/// The name to show for the file at `path`: the last component of the
/// path, or `unknown` where it has none.
pub fn display_name(path: &str) -> (name: String)
    ensures
        name@ == shown_name(last_component(path@)),
{
    name_or_unknown(final_component(path))
}

impl Outcome {
    /// The outcome of a dialog in which the user picked the file at `path`.
    /// The name to show is taken from the path.
    pub fn picked(path: String) -> (outcome: Outcome)
        ensures
            outcome@ == (OutcomeView::Picked {
                path: path@,
                file_name: shown_name(last_component(path@)),
            }),
    {
        let file_name = display_name(path.as_str());
        Outcome::Picked { path, file_name }
    }
}

} // verus!
