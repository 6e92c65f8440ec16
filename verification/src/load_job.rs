//! The loading of settings from a file that the user picks, as an action.

use crate::channel::StatusSender;
use crate::config::Config;
use crate::job::{Outcome, OutcomeView, Turn, TurnView, Work, WorkView};
use crate::ui::{InjectionStatus, StatusView};
use vstd::prelude::*;
use vstd::string::*;

verus! {

/// How far the loading of settings has come.
#[derive(Debug, Clone, Copy, PartialEq, Eq, Structural)]
pub enum LoadStage {
    Created,
    /// The user is asked which file to load.
    Choosing,
    /// The file is being read.
    Loading,
    Finished,
}

/// The loading of settings, step by step.
#[derive(Debug)]
pub struct LoadJob {
    sender: StatusSender,
    stage: LoadStage,
}

pub struct LoadJobView {
    /// The number of the channel that the job reports on.
    pub channel: u64,
    pub stage: LoadStage,
}

impl View for LoadJob {
    type V = LoadJobView;

    closed spec fn view(&self) -> LoadJobView {
        LoadJobView { channel: self.sender@, stage: self.stage }
    }
}

impl LoadJobView {
    /// What the job does when it is told `outcome`: the stage that it goes
    /// to and the step that it takes, or `None` where the outcome is no
    /// answer to what it asked for last.
    ///
    /// Settings that were loaded are reported as they are: it is for the
    /// receiving side to look at them. A dialog that the user closes is no
    /// failure: it is said, and the status goes back to idle.
    pub open spec fn step(self, outcome: OutcomeView) -> Option<(LoadStage, TurnView)> {
        match self.stage {
            LoadStage::Created => match outcome {
                OutcomeView::Started => Some(
                    (
                        LoadStage::Choosing,
                        TurnView::phase(
                            "Preparing to load config..."@,
                            0,
                            WorkView::PickConfigFile,
                        ),
                    ),
                ),
                _ => None,
            },
            LoadStage::Choosing => match outcome {
                OutcomeView::Picked { path, file_name } => Some(
                    (
                        LoadStage::Loading,
                        TurnView::phase(
                            "Loading config file..."@,
                            0,
                            WorkView::ReadConfig { path },
                        ),
                    ),
                ),
                OutcomeView::Cancelled => Some(
                    (LoadStage::Finished, TurnView::back_to_idle("Config loading cancelled"@)),
                ),
                _ => None,
            },
            LoadStage::Loading => match outcome {
                OutcomeView::Loaded(config) => Some(
                    (
                        LoadStage::Finished,
                        TurnView::ending(
                            StatusView::ConfigLoaded(config.ip, config.port, config.file_path),
                        ),
                    ),
                ),
                OutcomeView::LoadFailed(failure) => Some(
                    (
                        LoadStage::Finished,
                        TurnView::ending(
                            StatusView::Error("Failed to load config: "@ + failure.message()),
                        ),
                    ),
                ),
                _ => None,
            },
            LoadStage::Finished => None,
        }
    }
}

impl LoadJob {
    /// A job that loads settings and reports through `sender`.
    pub fn new(sender: StatusSender) -> (job: LoadJob)
        ensures
            job@ == (LoadJobView { channel: sender@, stage: LoadStage::Created }),
    {
        LoadJob { sender, stage: LoadStage::Created }
    }

    /// The sender that the job's reports go through.
    pub fn sender(&self) -> (sender: &StatusSender)
        ensures
            sender@ == self@.channel,
    {
        &self.sender
    }

    pub fn is_finished(&self) -> (b: bool)
        ensures
            b == (self@.stage is Finished),
    {
        self.stage == LoadStage::Finished
    }

    fn answers(&self, outcome: &Outcome) -> (b: bool)
        ensures
            b == self@.step(outcome@) is Some,
    {
        match self.stage {
            LoadStage::Created => match outcome {
                Outcome::Started => true,
                _ => false,
            },
            LoadStage::Choosing => match outcome {
                Outcome::Picked { .. } => true,
                Outcome::Cancelled => true,
                _ => false,
            },
            LoadStage::Loading => match outcome {
                Outcome::Loaded(_) => true,
                Outcome::LoadFailed(_) => true,
                _ => false,
            },
            LoadStage::Finished => false,
        }
    }

    /// Takes in how the work that was asked for went, and says what comes
    /// next. An outcome that is no answer to what was asked for changes
    /// nothing and gets `None`.
    pub fn advance(&mut self, outcome: Outcome) -> (turn: Option<Turn>)
        ensures
            match old(self)@.step(outcome@) {
                Some((stage, step)) => turn matches Some(taken) && taken@ == step && final(self)@
                    == (LoadJobView { stage, ..old(self)@ }),
                None => turn is None && final(self)@ == old(self)@,
            },
    {
        if !self.answers(&outcome) {
            return None;
        }
        match outcome {
            Outcome::Started => {
                self.stage = LoadStage::Choosing;
                Some(
                    Turn::phase("Preparing to load config...".to_owned(), 0, Work::PickConfigFile),
                )
            },
            Outcome::Picked { path, file_name } => {
                self.stage = LoadStage::Loading;
                Some(Turn::phase("Loading config file...".to_owned(), 0, Work::ReadConfig { path }))
            },
            Outcome::Cancelled => {
                self.stage = LoadStage::Finished;
                Some(Turn::back_to_idle("Config loading cancelled".to_owned()))
            },
            Outcome::Loaded(config) => {
                self.stage = LoadStage::Finished;
                let Config { ip, port, file_path, auto_save_enabled: _ } = config;
                Some(Turn::ending(InjectionStatus::ConfigLoaded(ip, port, file_path)))
            },
            Outcome::LoadFailed(failure) => {
                self.stage = LoadStage::Finished;
                let cause = failure.message();
                let mut text = "Failed to load config: ".to_owned();
                text.append(cause.as_str());
                Some(Turn::ending(InjectionStatus::Error(text)))
            },
            _ => None,
        }
    }
}

/// The loading of settings sends nothing after the report that ends it. It
/// ends with the settings, with an error, or with the return to idle that
/// follows a closed dialog; and once it has ended, nothing is an answer
/// any more.
pub proof fn lemma_load_ends_with_last_report(job: LoadJobView, outcome: OutcomeView)
    requires
        job.step(outcome) is Some,
    ensures
        ({
            let (stage, turn) = job.step(outcome)->0;
            &&& turn.work is Stop <==> stage is Finished
            &&& turn.work is Stop ==> turn.reports.len() > 0 && (turn.reports.last() is ConfigLoaded
                || turn.reports.last() is Error || turn.reports.last() is Idle)
            &&& forall|i: int|
                0 <= i < turn.reports.len() && (#[trigger] turn.reports[i]).is_terminal() ==> i
                    + 1 == turn.reports.len() && turn.work is Stop
            &&& stage is Finished ==> forall|later: OutcomeView|
                (#[trigger] (LoadJobView { stage, ..job }).step(later)) is None
        }),
{
}

} // verus!
