//! The transfer of one file as an action: read, connect, send, each phase
//! reported before its work begins.

use crate::channel::{
    lemma_deliver_all, lemma_events_on_own_channel, stamped, ReceiverView, StatusSender,
};
use crate::job::{
    display_name, last_component, shown_name, Outcome, OutcomeView, Turn, TurnView, Work,
    WorkView,
};
use crate::network::{
    outcome_view, FileTransfer, TransferError, TransferErrorView, TransferPhase, TransferView,
    CONNECT_TIMEOUT_SECS,
};
use crate::ui::{
    lemma_messages_reach_live_receiver, lemma_ticks_show_reports_in_order, AppView,
    InjectionStatus, StatusView,
};
use vstd::prelude::*;
use vstd::string::*;

verus! {

/// How long a phase of the transfer is shown before its work begins, in
/// milliseconds.
pub const STATUS_DELAY_MS: u64 = 200;

/// How far a transfer has come.
#[derive(Debug)]
pub enum InjectStage {
    /// Nothing was done yet.
    Created,
    /// The file is being read.
    Reading,
    /// The file was read, with this content; the connection is being made.
    Connecting(Vec<u8>),
    /// The connection stands; so many bytes are being written.
    Sending(usize),
    /// The transfer is over, one way or the other.
    Finished,
}

pub enum InjectStageView {
    Created,
    Reading,
    Connecting(Seq<u8>),
    Sending(usize),
    Finished,
}

impl View for InjectStage {
    type V = InjectStageView;

    open spec fn view(&self) -> InjectStageView {
        match self {
            InjectStage::Created => InjectStageView::Created,
            InjectStage::Reading => InjectStageView::Reading,
            InjectStage::Connecting(content) => InjectStageView::Connecting(content@),
            InjectStage::Sending(bytes) => InjectStageView::Sending(*bytes),
            InjectStage::Finished => InjectStageView::Finished,
        }
    }
}

/// The transfer of one file, step by step.
#[derive(Debug)]
pub struct InjectJob {
    sender: StatusSender,
    transfer: FileTransfer,
    file_name: String,
    stage: InjectStage,
}

pub struct InjectJobView {
    /// The number of the channel that the job reports on.
    pub channel: u64,
    pub transfer: TransferView,
    /// The file's name as it is shown.
    pub file_name: Seq<char>,
    pub stage: InjectStageView,
}

impl View for InjectJob {
    type V = InjectJobView;

    closed spec fn view(&self) -> InjectJobView {
        InjectJobView {
            channel: self.sender@,
            transfer: self.transfer@,
            file_name: self.file_name@,
            stage: self.stage@,
        }
    }
}

/// The report that ends a transfer which came to `result`.
pub open spec fn final_report(result: Result<usize, Seq<char>>) -> StatusView {
    match result {
        Ok(bytes) => StatusView::Success(bytes as nat),
        Err(message) => StatusView::Error(message),
    }
}

impl InjectJobView {
    pub open spec fn reading_text(self) -> Seq<char> {
        "Reading file '"@ + self.file_name + "'..."@
    }

    pub open spec fn connecting_text(self) -> Seq<char> {
        "Connecting to "@ + self.transfer.address() + "..."@
    }

    pub open spec fn sending_text(self) -> Seq<char> {
        "Sending '"@ + self.file_name + "' to "@ + self.transfer.address() + "..."@
    }

    /// The end of the job after a failure: the error in the words of the
    /// step that failed, and no more work.
    pub open spec fn failed(self, failure: TransferErrorView) -> (InjectStageView, TurnView) {
        (
            InjectStageView::Finished,
            TurnView::ending(final_report(self.transfer.result(Err(failure)))),
        )
    }

    /// What the job does when it is told `outcome`: the stage that it goes
    /// to and the step that it takes, or `None` where the outcome is no
    /// answer to what it asked for last.
    ///
    /// Each phase is reported before its work is asked for. A failure is
    /// an answer only at the step that it belongs to; it is reported in
    /// place of all that would have followed, and ends the job.
    pub open spec fn step(self, outcome: OutcomeView) -> Option<(InjectStageView, TurnView)> {
        match self.stage {
            InjectStageView::Created => match outcome {
                OutcomeView::Started => Some(
                    (
                        InjectStageView::Reading,
                        TurnView::phase(
                            self.reading_text(),
                            STATUS_DELAY_MS,
                            WorkView::ReadFile { path: self.transfer.file_path },
                        ),
                    ),
                ),
                OutcomeView::RuntimeFailed(cause) => Some(
                    (
                        InjectStageView::Finished,
                        TurnView::ending(
                            StatusView::Error("Failed to create async runtime: "@ + cause),
                        ),
                    ),
                ),
                _ => None,
            },
            InjectStageView::Reading => match outcome {
                OutcomeView::FileRead(content) => Some(
                    (
                        InjectStageView::Connecting(content),
                        TurnView::phase(
                            self.connecting_text(),
                            STATUS_DELAY_MS,
                            WorkView::Connect {
                                address: self.transfer.address(),
                                timeout_secs: CONNECT_TIMEOUT_SECS,
                            },
                        ),
                    ),
                ),
                OutcomeView::Failed(failure) => if failure.phase() == TransferPhase::Reading {
                    Some(self.failed(failure))
                } else {
                    None
                },
                _ => None,
            },
            InjectStageView::Connecting(content) => match outcome {
                OutcomeView::Connected => Some(
                    (
                        InjectStageView::Sending(content.len() as usize),
                        TurnView::phase(
                            self.sending_text(),
                            0,
                            WorkView::Send { payload: content },
                        ),
                    ),
                ),
                OutcomeView::Failed(failure) => if failure.phase() == TransferPhase::Connecting {
                    Some(self.failed(failure))
                } else {
                    None
                },
                _ => None,
            },
            InjectStageView::Sending(bytes) => match outcome {
                OutcomeView::Sent => Some(
                    (
                        InjectStageView::Finished,
                        TurnView::ending(final_report(self.transfer.result(Ok(bytes)))),
                    ),
                ),
                OutcomeView::Failed(failure) => if failure.phase() == TransferPhase::Sending {
                    Some(self.failed(failure))
                } else {
                    None
                },
                _ => None,
            },
            InjectStageView::Finished => None,
        }
    }

    /// The job after it was told `outcome`: unchanged where the outcome is
    /// no answer.
    pub open spec fn next(self, outcome: OutcomeView) -> InjectJobView {
        match self.step(outcome) {
            Some((stage, _)) => InjectJobView { stage, ..self },
            None => self,
        }
    }

    /// What the job reports when it is told `outcome`.
    pub open spec fn reports_for(self, outcome: OutcomeView) -> Seq<StatusView> {
        match self.step(outcome) {
            Some((_, turn)) => turn.reports,
            None => Seq::empty(),
        }
    }

    /// The work that the job asks for when it is told `outcome`, if any.
    pub open spec fn asks_for(self, outcome: OutcomeView) -> Seq<WorkView> {
        match self.step(outcome) {
            Some((_, turn)) => seq![turn.work],
            None => Seq::empty(),
        }
    }

    /// The job after it was told `outcomes`, one after the other.
    pub open spec fn after(self, outcomes: Seq<OutcomeView>) -> InjectJobView
        decreases outcomes.len(),
    {
        if outcomes.len() == 0 {
            self
        } else {
            self.after(outcomes.drop_last()).next(outcomes.last())
        }
    }

    /// All that the job reports while it is told `outcomes`, in order.
    pub open spec fn reported(self, outcomes: Seq<OutcomeView>) -> Seq<StatusView>
        decreases outcomes.len(),
    {
        if outcomes.len() == 0 {
            Seq::empty()
        } else {
            self.reported(outcomes.drop_last()) + self.after(outcomes.drop_last()).reports_for(
                outcomes.last(),
            )
        }
    }

    /// All the work that the job asks for while it is told `outcomes`, in
    /// order.
    pub open spec fn asked(self, outcomes: Seq<OutcomeView>) -> Seq<WorkView>
        decreases outcomes.len(),
    {
        if outcomes.len() == 0 {
            Seq::empty()
        } else {
            self.asked(outcomes.drop_last()) + self.after(outcomes.drop_last()).asks_for(
                outcomes.last(),
            )
        }
    }

    /// A job that was just made for a transfer on channel `channel`: it
    /// has done nothing yet, and shows the file under the last component of
    /// its path.
    pub open spec fn is_new(
        self,
        channel: u64,
        ip: Seq<char>,
        port: Seq<char>,
        file_path: Seq<char>,
    ) -> bool {
        self == InjectJobView {
            channel,
            transfer: TransferView { ip, port, file_path },
            file_name: shown_name(last_component(file_path)),
            stage: InjectStageView::Created,
        }
    }
}

impl InjectJob {
    /// A job for the transfer of the file at `file_path` to `ip`, port
    /// `port`, which reports through `sender`.
    pub fn new(ip: &str, port: &str, file_path: &str, sender: StatusSender) -> (job: InjectJob)
        ensures
            job@.is_new(sender@, ip@, port@, file_path@),
    {
        InjectJob {
            sender,
            transfer: FileTransfer::new(ip.to_owned(), port.to_owned(), file_path.to_owned()),
            file_name: display_name(file_path),
            stage: InjectStage::Created,
        }
    }

    /// The sender that the job's reports go through.
    pub fn sender(&self) -> (sender: &StatusSender)
        ensures
            sender@ == self@.channel,
    {
        &self.sender
    }

    pub fn is_finished(&self) -> (b: bool)
        ensures
            b == (self@.stage is Finished),
    {
        match self.stage {
            InjectStage::Finished => true,
            _ => false,
        }
    }

    fn answers(&self, outcome: &Outcome) -> (b: bool)
        ensures
            b == self@.step(outcome@) is Some,
    {
        match self.stage {
            InjectStage::Created => match outcome {
                Outcome::Started => true,
                Outcome::RuntimeFailed(_) => true,
                _ => false,
            },
            InjectStage::Reading => match outcome {
                Outcome::FileRead(_) => true,
                Outcome::Failed(failure) => failure.phase() == TransferPhase::Reading,
                _ => false,
            },
            InjectStage::Connecting(_) => match outcome {
                Outcome::Connected => true,
                Outcome::Failed(failure) => failure.phase() == TransferPhase::Connecting,
                _ => false,
            },
            InjectStage::Sending(_) => match outcome {
                Outcome::Sent => true,
                Outcome::Failed(failure) => failure.phase() == TransferPhase::Sending,
                _ => false,
            },
            InjectStage::Finished => false,
        }
    }

    /// The last step of a transfer of which `outcome` says how it went.
    fn conclude(&self, outcome: Result<usize, TransferError>) -> (turn: Turn)
        ensures
            turn@ == TurnView::ending(final_report(self@.transfer.result(outcome_view(outcome)))),
    {
        match self.transfer.send_file(outcome) {
            Ok(bytes_sent) => Turn::ending(InjectionStatus::Success(bytes_sent)),
            Err(message) => Turn::ending(InjectionStatus::Error(message)),
        }
    }

    /// Takes in how the work that was asked for went, and says what comes
    /// next. An outcome that is no answer to what was asked for changes
    /// nothing and gets `None`.
    pub fn advance(&mut self, outcome: Outcome) -> (turn: Option<Turn>)
        ensures
            match old(self)@.step(outcome@) {
                Some((stage, step)) => turn matches Some(taken) && taken@ == step && final(self)@
                    == (InjectJobView { stage, ..old(self)@ }),
                None => turn is None && final(self)@ == old(self)@,
            },
    {
        if !self.answers(&outcome) {
            return None;
        }
        let mut stage = InjectStage::Finished;
        core::mem::swap(&mut self.stage, &mut stage);
        match outcome {
            Outcome::Started => {
                let mut text = "Reading file '".to_owned();
                text.append(self.file_name.as_str());
                text.append("'...");
                self.stage = InjectStage::Reading;
                let work = Work::ReadFile { path: self.transfer.file_path.clone() };
                Some(Turn::phase(text, STATUS_DELAY_MS, work))
            },
            Outcome::RuntimeFailed(cause) => {
                let mut text = "Failed to create async runtime: ".to_owned();
                text.append(cause.as_str());
                Some(Turn::ending(InjectionStatus::Error(text)))
            },
            Outcome::FileRead(content) => {
                let address = self.transfer.address();
                let mut text = "Connecting to ".to_owned();
                text.append(address.as_str());
                text.append("...");
                self.stage = InjectStage::Connecting(content);
                let work = Work::Connect { address, timeout_secs: CONNECT_TIMEOUT_SECS };
                Some(Turn::phase(text, STATUS_DELAY_MS, work))
            },
            Outcome::Connected => match stage {
                InjectStage::Connecting(payload) => {
                    let address = self.transfer.address();
                    let mut text = "Sending '".to_owned();
                    text.append(self.file_name.as_str());
                    text.append("' to ");
                    text.append(address.as_str());
                    text.append("...");
                    self.stage = InjectStage::Sending(payload.len());
                    Some(Turn::phase(text, 0, Work::Send { payload }))
                },
                _ => None,
            },
            Outcome::Sent => match stage {
                InjectStage::Sending(bytes) => Some(self.conclude(Ok(bytes))),
                _ => None,
            },
            Outcome::Failed(failure) => Some(self.conclude(Err(failure))),
            _ => None,
        }
    }
}

/// A transfer on which every step succeeds reports exactly its three
/// phases and then the number of bytes, which is the length of the file's
/// content, be it zero. It asks for the file, the connection and the
/// sending of that very content, in this order, and is then over.
pub proof fn lemma_successful_transfer(job: InjectJobView, content: Seq<u8>)
    requires
        job.stage is Created,
        content.len() <= usize::MAX,
    ensures
        ({
            let run = seq![
                OutcomeView::Started,
                OutcomeView::FileRead(content),
                OutcomeView::Connected,
                OutcomeView::Sent,
            ];
            &&& job.reported(run) == seq![
                StatusView::InProgress(job.reading_text()),
                StatusView::InProgress(job.connecting_text()),
                StatusView::InProgress(job.sending_text()),
                StatusView::Success(content.len()),
            ]
            &&& job.asked(run) == seq![
                WorkView::ReadFile { path: job.transfer.file_path },
                WorkView::Connect {
                    address: job.transfer.address(),
                    timeout_secs: CONNECT_TIMEOUT_SECS,
                },
                WorkView::Send { payload: content },
                WorkView::Stop,
            ]
            &&& job.after(run).stage is Finished
        }),
{
    let o1 = OutcomeView::Started;
    let o2 = OutcomeView::FileRead(content);
    let o3 = OutcomeView::Connected;
    let o4 = OutcomeView::Sent;
    let r0 = Seq::<OutcomeView>::empty();
    let r1 = seq![o1];
    let r2 = seq![o1, o2];
    let r3 = seq![o1, o2, o3];
    let r4 = seq![o1, o2, o3, o4];
    assert(r1.drop_last() =~= r0);
    assert(r2.drop_last() =~= r1);
    assert(r3.drop_last() =~= r2);
    assert(r4.drop_last() =~= r3);
    assert(job.after(r0) == job);
    assert(job.after(r1).stage is Reading);
    assert(job.after(r2).stage == InjectStageView::Connecting(content));
    assert(job.after(r3).stage == InjectStageView::Sending(content.len() as usize));
    let reading = StatusView::InProgress(job.reading_text());
    let connecting = StatusView::InProgress(job.connecting_text());
    let sending = StatusView::InProgress(job.sending_text());
    assert(job.reported(r0) =~= Seq::empty());
    assert(job.reported(r1) =~= seq![reading]);
    assert(job.reported(r2) =~= seq![reading, connecting]);
    assert(job.reported(r3) =~= seq![reading, connecting, sending]);
    assert(job.reported(r4) =~= seq![
        reading,
        connecting,
        sending,
        StatusView::Success(content.len()),
    ]);
    let read = WorkView::ReadFile { path: job.transfer.file_path };
    let connect = WorkView::Connect {
        address: job.transfer.address(),
        timeout_secs: CONNECT_TIMEOUT_SECS,
    };
    let send = WorkView::Send { payload: content };
    assert(job.asked(r0) =~= Seq::empty());
    assert(job.asked(r1) =~= seq![read]);
    assert(job.asked(r2) =~= seq![read, connect]);
    assert(job.asked(r3) =~= seq![read, connect, send]);
    assert(job.asked(r4) =~= seq![read, connect, send, WorkView::Stop]);
}

/// Where the transfer's channel is the live one and every step succeeds,
/// the interactive side shows, tick after tick, the three phases and then
/// the success, in this order and with nothing between or left out.
pub proof fn lemma_successful_transfer_is_observed(
    app: AppView,
    job: InjectJobView,
    content: Seq<u8>,
)
    requires
        job.stage is Created,
        content.len() <= usize::MAX,
        app.receiver == Some(ReceiverView::empty(job.channel)),
    ensures
        ({
            let run = seq![
                OutcomeView::Started,
                OutcomeView::FileRead(content),
                OutcomeView::Connected,
                OutcomeView::Sent,
            ];
            let arrived = app.deliver_all(stamped(job.channel, job.reported(run)));
            &&& arrived.after_updates(1).status == StatusView::InProgress(job.reading_text())
            &&& arrived.after_updates(2).status == StatusView::InProgress(job.connecting_text())
            &&& arrived.after_updates(3).status == StatusView::InProgress(job.sending_text())
            &&& arrived.after_updates(4).status == StatusView::Success(content.len())
            &&& arrived.after_updates(4).polled() is None
        }),
{
    let run = seq![
        OutcomeView::Started,
        OutcomeView::FileRead(content),
        OutcomeView::Connected,
        OutcomeView::Sent,
    ];
    let events = job.reported(run);
    let messages = stamped(job.channel, events);
    let arrived = app.deliver_all(messages);
    lemma_successful_transfer(job, content);
    lemma_messages_reach_live_receiver(app, messages);
    lemma_deliver_all(ReceiverView::empty(job.channel), messages);
    lemma_events_on_own_channel(job.channel, events);
    assert(arrived.receiver->0.queue =~= events);
    lemma_ticks_show_reports_in_order(arrived, events, 0);
    lemma_ticks_show_reports_in_order(arrived, events, 1);
    lemma_ticks_show_reports_in_order(arrived, events, 2);
    lemma_ticks_show_reports_in_order(arrived, events, 3);
}

/// A transfer that is over stays over: whatever it is told, it reports
/// nothing, asks for nothing and does not change.
pub proof fn lemma_finished_transfer_is_silent(job: InjectJobView, outcomes: Seq<OutcomeView>)
    requires
        job.stage is Finished,
    ensures
        job.after(outcomes) == job,
        job.reported(outcomes) == Seq::<StatusView>::empty(),
        job.asked(outcomes) == Seq::<WorkView>::empty(),
    decreases outcomes.len(),
{
    if outcomes.len() > 0 {
        lemma_finished_transfer_is_silent(job, outcomes.drop_last());
    }
}

/// The first failure is the end of a transfer, at whatever step it comes:
/// it is reported as an error in the words of that step, nothing more is
/// asked for, and nothing that the job is told later makes it report or
/// work again. There is no second try.
pub proof fn lemma_failure_ends_transfer(
    job: InjectJobView,
    failure: TransferErrorView,
    later: Seq<OutcomeView>,
)
    requires
        job.step(OutcomeView::Failed(failure)) is Some,
    ensures
        job.step(OutcomeView::Failed(failure)) == Some(
            (
                InjectStageView::Finished,
                TurnView::ending(StatusView::Error(job.transfer.failure_text(failure))),
            ),
        ),
        job.next(OutcomeView::Failed(failure)).reported(later) == Seq::<StatusView>::empty(),
        job.next(OutcomeView::Failed(failure)).asked(later) == Seq::<WorkView>::empty(),
{
    lemma_finished_transfer_is_silent(job.next(OutcomeView::Failed(failure)), later);
}

/// A file that cannot be opened or read ends the transfer before any
/// connection: while the file is awaited such a failure is an answer, the
/// error names that step and the file, and no work follows, so that no
/// connection is ever asked for.
pub proof fn lemma_unreadable_file_never_connects(
    job: InjectJobView,
    failure: TransferErrorView,
    later: Seq<OutcomeView>,
)
    requires
        job.stage is Reading,
        failure is Open || failure is Read,
    ensures
        job.reports_for(OutcomeView::Failed(failure)) == seq![
            StatusView::Error(job.transfer.failure_text(failure)),
        ],
        job.asks_for(OutcomeView::Failed(failure)) == seq![WorkView::Stop],
        job.next(OutcomeView::Failed(failure)).asked(later) == Seq::<WorkView>::empty(),
{
    lemma_failure_ends_transfer(job, failure, later);
}

/// A connection is asked for only once the file has been read, to the
/// address of the request, and never without the bound on its time.
pub proof fn lemma_connect_follows_read(job: InjectJobView, outcome: OutcomeView)
    requires
        job.step(outcome) matches Some((_, turn)) && turn.work is Connect,
    ensures
        job.stage is Reading,
        outcome is FileRead,
        job.asks_for(outcome) == seq![
            WorkView::Connect {
                address: job.transfer.address(),
                timeout_secs: CONNECT_TIMEOUT_SECS,
            },
        ],
{
}

/// A connection that does not come about in time ends the transfer with
/// an error, as one that is refused does.
pub proof fn lemma_unreachable_peer_ends_transfer(
    job: InjectJobView,
    failure: TransferErrorView,
    later: Seq<OutcomeView>,
)
    requires
        job.stage is Connecting,
        failure is Timeout || failure is Connect,
    ensures
        job.reports_for(OutcomeView::Failed(failure)) == seq![
            StatusView::Error(job.transfer.failure_text(failure)),
        ],
        job.asks_for(OutcomeView::Failed(failure)) == seq![WorkView::Stop],
        job.next(OutcomeView::Failed(failure)).reported(later) == Seq::<StatusView>::empty(),
{
    lemma_failure_ends_transfer(job, failure, later);
}

/// A report that ends an action is the last that the transfer sends: it
/// is the one report of its step, the step asks for no more work, and the
/// job is over. And the job is over only with such a step.
pub proof fn lemma_transfer_ends_with_terminal_report(job: InjectJobView, outcome: OutcomeView)
    requires
        job.step(outcome) is Some,
    ensures
        ({
            let (stage, turn) = job.step(outcome)->0;
            &&& turn.reports.len() == 1
            &&& turn.reports[0].is_terminal() <==> turn.work is Stop
            &&& turn.work is Stop <==> stage is Finished
        }),
{
}

} // verus!
