//! The storing of the fields in a file that the user picks, as an action.

use crate::channel::StatusSender;
use crate::config::{Config, ConfigView, DEFAULT_AUTO_SAVE_ENABLED};
use crate::job::{Outcome, OutcomeView, Turn, TurnView, Work, WorkView};
use crate::ui::{InjectionStatus, StatusView};
use vstd::prelude::*;
use vstd::string::*;

verus! {

/// The name that a new settings file is offered under.
pub const DEFAULT_CONFIG_NAME: &'static str = "config.json";

/// How far the storing of settings has come.
#[derive(Debug)]
pub enum SaveStage {
    Created,
    /// The user is asked where the settings go.
    Choosing,
    /// The settings are being written to the file that is shown under this
    /// name.
    Writing(String),
    Finished,
}

pub enum SaveStageView {
    Created,
    Choosing,
    Writing(Seq<char>),
    Finished,
}

impl View for SaveStage {
    type V = SaveStageView;

    open spec fn view(&self) -> SaveStageView {
        match self {
            SaveStage::Created => SaveStageView::Created,
            SaveStage::Choosing => SaveStageView::Choosing,
            SaveStage::Writing(file_name) => SaveStageView::Writing(file_name@),
            SaveStage::Finished => SaveStageView::Finished,
        }
    }
}

/// The storing of settings, step by step.
#[derive(Debug)]
pub struct SaveJob {
    sender: StatusSender,
    ip: String,
    port: String,
    file_path: String,
    stage: SaveStage,
}

pub struct SaveJobView {
    /// The number of the channel that the job reports on.
    pub channel: u64,
    pub ip: Seq<char>,
    pub port: Seq<char>,
    pub file_path: Seq<char>,
    pub stage: SaveStageView,
}

impl View for SaveJob {
    type V = SaveJobView;

    closed spec fn view(&self) -> SaveJobView {
        SaveJobView {
            channel: self.sender@,
            ip: self.ip@,
            port: self.port@,
            file_path: self.file_path@,
            stage: self.stage@,
        }
    }
}

impl SaveJobView {
    /// The settings that the job stores: the fields it was given, with the
    /// auto-save preference at its default.
    pub open spec fn config(self) -> ConfigView {
        ConfigView {
            ip: self.ip,
            port: self.port,
            file_path: self.file_path,
            auto_save_enabled: DEFAULT_AUTO_SAVE_ENABLED,
        }
    }

    /// What the job does when it is told `outcome`: the stage that it goes
    /// to and the step that it takes, or `None` where the outcome is no
    /// answer to what it asked for last.
    ///
    /// A dialog that the user closes is no failure: it is said, and the
    /// status goes back to idle. So it is once the settings are stored.
    pub open spec fn step(self, outcome: OutcomeView) -> Option<(SaveStageView, TurnView)> {
        match self.stage {
            SaveStageView::Created => match outcome {
                OutcomeView::Started => Some(
                    (
                        SaveStageView::Choosing,
                        TurnView::phase(
                            "Preparing to save config..."@,
                            0,
                            WorkView::PickSaveDestination { default_name: DEFAULT_CONFIG_NAME@ },
                        ),
                    ),
                ),
                _ => None,
            },
            SaveStageView::Choosing => match outcome {
                OutcomeView::Picked { path, file_name } => Some(
                    (
                        SaveStageView::Writing(file_name),
                        TurnView {
                            reports: Seq::empty(),
                            pause_ms: 0,
                            work: WorkView::WriteConfig { path, config: self.config() },
                        },
                    ),
                ),
                OutcomeView::Cancelled => Some(
                    (SaveStageView::Finished, TurnView::back_to_idle("Config save cancelled"@)),
                ),
                _ => None,
            },
            SaveStageView::Writing(file_name) => match outcome {
                OutcomeView::Saved => Some(
                    (
                        SaveStageView::Finished,
                        TurnView::back_to_idle("Config saved to '"@ + file_name + "'"@),
                    ),
                ),
                OutcomeView::SaveFailed(failure) => Some(
                    (
                        SaveStageView::Finished,
                        TurnView::ending(
                            StatusView::Error("Failed to save config: "@ + failure.message()),
                        ),
                    ),
                ),
                _ => None,
            },
            SaveStageView::Finished => None,
        }
    }

    /// A job that was just made to store these fields, on channel `channel`.
    pub open spec fn is_new(
        self,
        channel: u64,
        ip: Seq<char>,
        port: Seq<char>,
        file_path: Seq<char>,
    ) -> bool {
        self == SaveJobView { channel, ip, port, file_path, stage: SaveStageView::Created }
    }
}

impl SaveJob {
    /// A job that stores the three fields and reports through `sender`.
    pub fn new(ip: &str, port: &str, file_path: &str, sender: StatusSender) -> (job: SaveJob)
        ensures
            job@.is_new(sender@, ip@, port@, file_path@),
    {
        SaveJob {
            sender,
            ip: ip.to_owned(),
            port: port.to_owned(),
            file_path: file_path.to_owned(),
            stage: SaveStage::Created,
        }
    }

    /// The sender that the job's reports go through.
    pub fn sender(&self) -> (sender: &StatusSender)
        ensures
            sender@ == self@.channel,
    {
        &self.sender
    }

    pub fn is_finished(&self) -> (b: bool)
        ensures
            b == (self@.stage is Finished),
    {
        match self.stage {
            SaveStage::Finished => true,
            _ => false,
        }
    }

    fn answers(&self, outcome: &Outcome) -> (b: bool)
        ensures
            b == self@.step(outcome@) is Some,
    {
        match self.stage {
            SaveStage::Created => match outcome {
                Outcome::Started => true,
                _ => false,
            },
            SaveStage::Choosing => match outcome {
                Outcome::Picked { .. } => true,
                Outcome::Cancelled => true,
                _ => false,
            },
            SaveStage::Writing(_) => match outcome {
                Outcome::Saved => true,
                Outcome::SaveFailed(_) => true,
                _ => false,
            },
            SaveStage::Finished => false,
        }
    }

    /// Takes in how the work that was asked for went, and says what comes
    /// next. An outcome that is no answer to what was asked for changes
    /// nothing and gets `None`.
    pub fn advance(&mut self, outcome: Outcome) -> (turn: Option<Turn>)
        ensures
            match old(self)@.step(outcome@) {
                Some((stage, step)) => turn matches Some(taken) && taken@ == step && final(self)@
                    == (SaveJobView { stage, ..old(self)@ }),
                None => turn is None && final(self)@ == old(self)@,
            },
    {
        if !self.answers(&outcome) {
            return None;
        }
        let mut stage = SaveStage::Finished;
        core::mem::swap(&mut self.stage, &mut stage);
        match outcome {
            Outcome::Started => {
                self.stage = SaveStage::Choosing;
                let work = Work::PickSaveDestination {
                    default_name: DEFAULT_CONFIG_NAME.to_owned(),
                };
                Some(Turn::phase("Preparing to save config...".to_owned(), 0, work))
            },
            Outcome::Picked { path, file_name } => {
                self.stage = SaveStage::Writing(file_name);
                let config = Config::new(
                    self.ip.clone(),
                    self.port.clone(),
                    self.file_path.clone(),
                );
                let reports: Vec<InjectionStatus> = Vec::new();
                let turn = Turn { reports, pause_ms: 0, work: Work::WriteConfig { path, config } };
                assert(turn@.reports =~= Seq::empty());
                Some(turn)
            },
            Outcome::Cancelled => Some(Turn::back_to_idle("Config save cancelled".to_owned())),
            Outcome::Saved => match stage {
                SaveStage::Writing(file_name) => {
                    let mut text = "Config saved to '".to_owned();
                    text.append(file_name.as_str());
                    text.append("'");
                    Some(Turn::back_to_idle(text))
                },
                _ => None,
            },
            Outcome::SaveFailed(failure) => {
                let cause = failure.message();
                let mut text = "Failed to save config: ".to_owned();
                text.append(cause.as_str());
                Some(Turn::ending(InjectionStatus::Error(text)))
            },
            _ => None,
        }
    }
}

/// The storing of settings sends nothing after the report that ends it.
/// It ends with an error, or with the return to idle that follows a
/// closed dialog or a stored file; and once it has ended, nothing is an
/// answer any more.
pub proof fn lemma_save_ends_with_last_report(job: SaveJobView, outcome: OutcomeView)
    requires
        job.step(outcome) is Some,
    ensures
        ({
            let (stage, turn) = job.step(outcome)->0;
            &&& turn.work is Stop <==> stage is Finished
            &&& turn.work is Stop ==> turn.reports.len() > 0 && (turn.reports.last() is Error
                || turn.reports.last() is Idle)
            &&& forall|i: int|
                0 <= i < turn.reports.len() && (#[trigger] turn.reports[i]).is_terminal() ==> i
                    + 1 == turn.reports.len() && turn.work is Stop
            &&& stage is Finished ==> forall|later: OutcomeView|
                (#[trigger] (SaveJobView { stage, ..job }).step(later)) is None
        }),
{
}

} // verus!
