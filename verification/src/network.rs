//! One transfer: which file goes where, and how each way of failing is
//! worded.

use vstd::prelude::*;
use vstd::string::*;

verus! {

/// How long the attempt to connect may take, in seconds.
pub const CONNECT_TIMEOUT_SECS: u64 = 10;

/// The request for one transfer: the file at `file_path` goes to the host
/// `ip`, port `port`. It is made afresh for each action and never changed.
#[derive(Debug)]
pub struct FileTransfer {
    pub ip: String,
    pub port: String,
    pub file_path: String,
}

pub struct TransferView {
    pub ip: Seq<char>,
    pub port: Seq<char>,
    pub file_path: Seq<char>,
}

impl View for FileTransfer {
    type V = TransferView;

    open spec fn view(&self) -> TransferView {
        TransferView { ip: self.ip@, port: self.port@, file_path: self.file_path@ }
    }
}

/// The step at which a transfer failed. Where the system gave a cause, the
/// variant carries its wording.
#[derive(Debug)]
pub enum TransferError {
    /// The file could not be opened.
    Open(String),
    /// The file was opened, but not read to its end.
    Read(String),
    /// No connection was there when the time for connecting was up.
    Timeout,
    /// The connection was refused, or the address was not understood.
    Connect(String),
    /// The bytes were not all written.
    Send(String),
    /// The bytes were written, but not flushed.
    Flush(String),
}

pub enum TransferErrorView {
    Open(Seq<char>),
    Read(Seq<char>),
    Timeout,
    Connect(Seq<char>),
    Send(Seq<char>),
    Flush(Seq<char>),
}

impl View for TransferError {
    type V = TransferErrorView;

    open spec fn view(&self) -> TransferErrorView {
        match self {
            TransferError::Open(cause) => TransferErrorView::Open(cause@),
            TransferError::Read(cause) => TransferErrorView::Read(cause@),
            TransferError::Timeout => TransferErrorView::Timeout,
            TransferError::Connect(cause) => TransferErrorView::Connect(cause@),
            TransferError::Send(cause) => TransferErrorView::Send(cause@),
            TransferError::Flush(cause) => TransferErrorView::Flush(cause@),
        }
    }
}

/// The three steps of a transfer, in their order.
#[derive(Debug, Clone, Copy, PartialEq, Eq, Structural)]
pub enum TransferPhase {
    /// The file is opened and read to its end.
    Reading,
    /// The connection is made.
    Connecting,
    /// The bytes are written and flushed.
    Sending,
}

impl TransferErrorView {
    /// The step that failed.
    pub open spec fn phase(self) -> TransferPhase {
        match self {
            TransferErrorView::Open(_) => TransferPhase::Reading,
            TransferErrorView::Read(_) => TransferPhase::Reading,
            TransferErrorView::Timeout => TransferPhase::Connecting,
            TransferErrorView::Connect(_) => TransferPhase::Connecting,
            TransferErrorView::Send(_) => TransferPhase::Sending,
            TransferErrorView::Flush(_) => TransferPhase::Sending,
        }
    }
}

impl TransferError {
    /// The step that failed.
    pub fn phase(&self) -> (phase: TransferPhase)
        ensures
            phase == self@.phase(),
    {
        match self {
            TransferError::Open(_) => TransferPhase::Reading,
            TransferError::Read(_) => TransferPhase::Reading,
            TransferError::Timeout => TransferPhase::Connecting,
            TransferError::Connect(_) => TransferPhase::Connecting,
            TransferError::Send(_) => TransferPhase::Sending,
            TransferError::Flush(_) => TransferPhase::Sending,
        }
    }
}

impl TransferView {
    /// Host and port as one address.
    pub open spec fn address(self) -> Seq<char> {
        self.ip + ":"@ + self.port
    }

    /// The sentence that reports `failure`.
    pub open spec fn failure_text(self, failure: TransferErrorView) -> Seq<char> {
        match failure {
            TransferErrorView::Open(cause) => "Failed to open file '"@ + self.file_path + "': "@
                + cause,
            TransferErrorView::Read(cause) => "Failed to read file '"@ + self.file_path + "': "@
                + cause,
            TransferErrorView::Timeout => "Connection timeout to "@ + self.address(),
            TransferErrorView::Connect(cause) => "Failed to connect to "@ + self.address() + ": "@
                + cause,
            TransferErrorView::Send(cause) => "Failed to send data: "@ + cause,
            TransferErrorView::Flush(cause) => "Failed to flush data: "@ + cause,
        }
    }

    /// What a transfer comes to: the number of bytes written, or the
    /// sentence for its failure.
    pub open spec fn result(self, outcome: Result<usize, TransferErrorView>) -> Result<
        usize,
        Seq<char>,
    > {
        match outcome {
            Ok(bytes) => Ok(bytes),
            Err(failure) => Err(self.failure_text(failure)),
        }
    }
}

/// The view of what `send_file` is given.
pub open spec fn outcome_view(outcome: Result<usize, TransferError>) -> Result<
    usize,
    TransferErrorView,
> {
    match outcome {
        Ok(bytes) => Ok(bytes),
        Err(failure) => Err(failure@),
    }
}

/// The view of what `send_file` returns.
pub open spec fn result_view(result: Result<usize, String>) -> Result<usize, Seq<char>> {
    match result {
        Ok(bytes) => Ok(bytes),
        Err(message) => Err(message@),
    }
}

impl FileTransfer {
    pub fn new(ip: String, port: String, file_path: String) -> (transfer: FileTransfer)
        ensures
            transfer.ip == ip,
            transfer.port == port,
            transfer.file_path == file_path,
    {
        FileTransfer { ip, port, file_path }
    }

    /// Host and port as one address, the way a connection is asked for.
    pub fn address(&self) -> (address: String)
        ensures
            address@ == self@.address(),
    {
        let mut address = self.ip.clone();
        address.append(":");
        address.append(self.port.as_str());
        address
    }

    fn file_fault(&self, what: &str, cause: &str) -> (text: String)
        ensures
            text@ == what@ + self@.file_path + "': "@ + cause@,
    {
        let mut text = what.to_owned();
        text.append(self.file_path.as_str());
        text.append("': ");
        text.append(cause);
        text
    }

    /// The sentence that reports `failure`.
    pub fn describe(&self, failure: &TransferError) -> (text: String)
        ensures
            text@ == self@.failure_text(failure@),
    {
        match failure {
            TransferError::Open(cause) => self.file_fault("Failed to open file '", cause.as_str()),
            TransferError::Read(cause) => self.file_fault("Failed to read file '", cause.as_str()),
            TransferError::Timeout => {
                let address = self.address();
                let mut text = "Connection timeout to ".to_owned();
                text.append(address.as_str());
                text
            },
            TransferError::Connect(cause) => {
                let address = self.address();
                let mut text = "Failed to connect to ".to_owned();
                text.append(address.as_str());
                text.append(": ");
                text.append(cause.as_str());
                text
            },
            TransferError::Send(cause) => {
                let mut text = "Failed to send data: ".to_owned();
                text.append(cause.as_str());
                text
            },
            TransferError::Flush(cause) => {
                let mut text = "Failed to flush data: ".to_owned();
                text.append(cause.as_str());
                text
            },
        }
    }

    /// What the transfer comes to, given how the work on file and
    /// connection went: the number of bytes written, which is the length of
    /// the file's content, or the sentence for the step that failed.
    pub fn send_file(&self, outcome: Result<usize, TransferError>) -> (result: Result<
        usize,
        String,
    >)
        ensures
            result_view(result) == self@.result(outcome_view(outcome)),
    {
        match outcome {
            Ok(bytes) => Ok(bytes),
            Err(failure) => Err(self.describe(&failure)),
        }
    }
}

} // verus!
