//! Whole transfers: the library decides, this file does the work that it
//! asks for. Where a transfer is to succeed its peer is the other end of a
//! pipe in memory, so that no network is needed; where it is to fail, the
//! connection is tried for real.

use ps_payload_injector::handlers::create_inject_fn;
use ps_payload_injector::job::{Outcome, Work};
use ps_payload_injector::network::TransferError;
use ps_payload_injector::ui::{App, InjectionStatus};
use std::io::Write;
use std::time::{Duration, Instant};
use tempfile::NamedTempFile;
use tokio::io::{AsyncReadExt, AsyncWrite, AsyncWriteExt, DuplexStream};
use tokio::net::TcpStream;

/// What one transfer looked like from both sides.
struct Run {
    /// The status after each tick that read a report.
    observed: Vec<InjectionStatus>,
    /// The kinds of work that were asked for, in order.
    asked: Vec<&'static str>,
}

impl Run {
    fn result(&self) -> Result<usize, String> {
        match self.observed.last() {
            Some(InjectionStatus::Success(bytes)) => Ok(*bytes),
            Some(InjectionStatus::Error(message)) => Err(message.clone()),
            other => panic!("the transfer did not end: {:?}", other),
        }
    }
}

/// The connection of a transfer, as far as it is written to.
type Connection = Box<dyn AsyncWrite + Unpin + Send>;

/// Where connections lead.
enum Network {
    /// To whatever listens at the address.
    Real,
    /// To a peer that holds the other end of this pipe and listens at
    /// this address.
    Peer { address: String, pipe: Option<DuplexStream> },
}

impl Network {
    async fn connect(&mut self, address: &str) -> std::io::Result<Connection> {
        match self {
            Network::Real => Ok(Box::new(TcpStream::connect(address).await?)),
            Network::Peer { address: listening, pipe } => {
                assert_eq!(address, listening.as_str());
                Ok(Box::new(pipe.take().expect("one connection per transfer")))
            },
        }
    }
}

async fn perform(
    work: Work,
    network: &mut Network,
    connection: &mut Option<Connection>,
) -> Option<Outcome> {
    match work {
        Work::ReadFile { path } => {
            let mut file = match tokio::fs::File::open(&path).await {
                Ok(file) => file,
                Err(e) => return Some(Outcome::Failed(TransferError::Open(e.to_string()))),
            };
            let mut content = Vec::new();
            match file.read_to_end(&mut content).await {
                Ok(_) => Some(Outcome::FileRead(content)),
                Err(e) => Some(Outcome::Failed(TransferError::Read(e.to_string()))),
            }
        },
        Work::Connect { address, timeout_secs } => {
            let attempt = network.connect(address.as_str());
            match tokio::time::timeout(Duration::from_secs(timeout_secs), attempt).await {
                Err(_) => Some(Outcome::Failed(TransferError::Timeout)),
                Ok(Err(e)) => Some(Outcome::Failed(TransferError::Connect(e.to_string()))),
                Ok(Ok(made)) => {
                    *connection = Some(made);
                    Some(Outcome::Connected)
                },
            }
        },
        Work::Send { payload } => {
            let connection = connection.as_mut().expect("sending follows connecting");
            if let Err(e) = connection.write_all(&payload).await {
                return Some(Outcome::Failed(TransferError::Send(e.to_string())));
            }
            if let Err(e) = connection.flush().await {
                return Some(Outcome::Failed(TransferError::Flush(e.to_string())));
            }
            Some(Outcome::Sent)
        },
        Work::Stop => None,
        other => panic!("a transfer does not ask for {:?}", other),
    }
}

fn kind(work: &Work) -> &'static str {
    match work {
        Work::ReadFile { .. } => "read",
        Work::Connect { .. } => "connect",
        Work::Send { .. } => "send",
        Work::Stop => "stop",
        _ => "other",
    }
}

/// Runs one transfer to its end and lets the interactive side read what
/// it reported.
async fn transfer(ip: &str, port: &str, file_path: &str, mut network: Network) -> Run {
    let mut app = App::new((ip.to_string(), port.to_string(), file_path.to_string(), false));
    // The file counts as present: it may be gone by the time it is opened.
    let dispatch = app.inject_payload(true).expect("the fields are valid");
    let mut job = create_inject_fn()(
        &dispatch.fields.ip,
        &dispatch.fields.port,
        &dispatch.fields.file_path,
        dispatch.sender,
    );

    let mut run = Run { observed: Vec::new(), asked: Vec::new() };
    let mut connection = None;
    let mut outcome = Outcome::Started;
    loop {
        let turn = job.advance(outcome).expect("the outcome answers the work");
        let mut sent = 0;
        for status in turn.reports {
            assert!(app.deliver(job.sender().send(status)));
            sent += 1;
        }
        for _ in 0..sent {
            assert!(app.update().repaint);
            run.observed.push(app.status().clone());
        }
        tokio::time::sleep(Duration::from_millis(turn.pause_ms)).await;
        run.asked.push(kind(&turn.work));
        match perform(turn.work, &mut network, &mut connection).await {
            Some(next) => outcome = next,
            None => break,
        }
    }
    assert!(job.is_finished());
    assert!(!app.update().repaint);
    run
}

fn runtime() -> tokio::runtime::Runtime {
    tokio::runtime::Builder::new_multi_thread()
        .worker_threads(2)
        .enable_all()
        .build()
        .expect("Failed to build runtime")
}

fn temp_file_with(content: &[u8]) -> NamedTempFile {
    let mut temp_file = NamedTempFile::new().expect("Failed to create temp file");
    temp_file.write_all(content).expect("Failed to write test data");
    temp_file.flush().expect("Failed to write test data");
    temp_file
}

/// Sends `content` to a peer; returns the run, what the peer received and
/// the name of the file that was sent.
fn send_to_peer(content: &[u8]) -> (Run, Vec<u8>, String) {
    let temp_file = temp_file_with(content);
    let path = temp_file.path().to_str().unwrap().to_string();
    let name = temp_file.path().file_name().unwrap().to_str().unwrap().to_string();
    let (run, received) = runtime().block_on(async {
        let (near, mut far) = tokio::io::duplex(16 * 1024);
        let network = Network::Peer { address: "127.0.0.1:9025".to_string(), pipe: Some(near) };

        let server_handle = tokio::spawn(async move {
            let mut buffer = Vec::new();
            far.read_to_end(&mut buffer).await.expect("Failed to read data");
            buffer
        });

        let run = transfer("127.0.0.1", "9025", &path, network).await;
        let received = server_handle.await.expect("Server task failed");
        (run, received)
    });
    (run, received, name)
}

#[test]
fn test_send_file_nonexistent_file() {
    let run = runtime().block_on(transfer(
        "127.0.0.1",
        "8080",
        "/nonexistent/file.txt",
        Network::Real,
    ));

    let result = run.result();
    assert!(result.is_err());
    assert!(result.unwrap_err().contains("Failed to open file"));
    // no connection was attempted
    assert_eq!(run.asked, vec!["read", "stop"]);
    assert_eq!(run.observed.len(), 2);
    assert_eq!(run.observed[0].text(), "Reading file 'file.txt'...");
}

#[test]
fn test_send_file_invalid_address() {
    let temp_file = temp_file_with(b"test data");

    let started = Instant::now();
    let rt = runtime();
    let run = rt.block_on(transfer(
        "invalid.address",
        "8080",
        temp_file.path().to_str().unwrap(),
        Network::Real,
    ));
    rt.shutdown_background();

    let result = run.result();
    assert!(result.is_err());
    let message = result.unwrap_err();
    assert!(message.contains("Failed to connect to"), "message {:?}", message);
    assert!(message.contains("invalid.address:8080"));
    assert_eq!(run.asked, vec!["read", "connect", "stop"]);
    assert!(started.elapsed() < Duration::from_secs(12));
}

#[test]
fn test_send_file_connection_refused() {
    let temp_file = temp_file_with(b"test data");

    let started = Instant::now();
    let run = runtime().block_on(transfer(
        "127.0.0.1",
        "65432",
        temp_file.path().to_str().unwrap(),
        Network::Real,
    ));

    let result = run.result();
    assert!(result.is_err());
    assert!(result.unwrap_err().contains("Failed to connect to"));
    assert_eq!(run.asked, vec!["read", "connect", "stop"]);
    assert!(started.elapsed() < Duration::from_secs(12));
}

#[test]
fn test_send_file_successful() {
    let test_data = b"Hello, this is test file content for network transfer!";
    let (run, received_data, name) = send_to_peer(test_data);

    let result = run.result();
    assert!(result.is_ok());
    assert_eq!(result.unwrap(), test_data.len());
    assert_eq!(received_data, test_data);

    assert_eq!(run.asked, vec!["read", "connect", "send", "stop"]);
    assert_eq!(run.observed.len(), 4);
    assert!(matches!(run.observed[0], InjectionStatus::InProgress(_)));
    assert!(matches!(run.observed[1], InjectionStatus::InProgress(_)));
    assert!(matches!(run.observed[2], InjectionStatus::InProgress(_)));
    assert!(matches!(run.observed[3], InjectionStatus::Success(n) if n == test_data.len()));
    assert_eq!(run.observed[0].text(), format!("Reading file '{}'...", name));
    assert_eq!(run.observed[1].text(), "Connecting to 127.0.0.1:9025...");
    assert_eq!(run.observed[2].text(), format!("Sending '{}' to 127.0.0.1:9025...", name));
    assert_eq!(run.observed[3].text(), format!("Success! Sent {} bytes", test_data.len()));
}

#[test]
fn test_send_empty_file() {
    let (run, received_data, _) = send_to_peer(b"");

    let result = run.result();
    assert!(result.is_ok());
    assert_eq!(result.unwrap(), 0);
    assert_eq!(received_data.len(), 0);
    assert_eq!(run.observed.len(), 4);
}

#[test]
fn test_send_large_file() {
    let test_data = vec![0xAB; 1024 * 1024];
    let (run, received_data, _) = send_to_peer(&test_data);

    let result = run.result();
    assert!(result.is_ok());
    assert_eq!(result.unwrap(), test_data.len());
    assert_eq!(received_data.len(), 1_048_576);
    assert_eq!(received_data.len(), test_data.len());
    assert_eq!(received_data, test_data);
}

#[test]
fn test_file_transfer_integration() {
    let test_content = b"This is a test payload for integration testing";
    let (run, received_data, _) = send_to_peer(test_content);

    let bytes_sent = run.result().expect("Failed to send file");
    assert_eq!(bytes_sent, test_content.len());
    assert_eq!(received_data, test_content);
}
