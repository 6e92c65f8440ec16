use ps_payload_injector::network::{
    FileTransfer, TransferError, TransferPhase, CONNECT_TIMEOUT_SECS,
};

#[test]
fn test_file_transfer_new() {
    let transfer = FileTransfer::new(
        "192.168.1.100".to_string(),
        "8080".to_string(),
        "/path/to/file.txt".to_string(),
    );

    assert_eq!(transfer.ip, "192.168.1.100");
    assert_eq!(transfer.port, "8080");
    assert_eq!(transfer.file_path, "/path/to/file.txt");
}

#[test]
fn test_file_transfer_with_ipv6() {
    let transfer = FileTransfer::new(
        "::1".to_string(),
        "8080".to_string(),
        "/test/file.txt".to_string(),
    );

    assert_eq!(transfer.ip, "::1");
    assert_eq!(transfer.port, "8080");
}

#[test]
fn test_file_transfer_with_special_characters_in_path() {
    let transfer = FileTransfer::new(
        "192.168.1.1".to_string(),
        "8080".to_string(),
        "/path with spaces/file-name_test.txt".to_string(),
    );

    assert_eq!(transfer.file_path, "/path with spaces/file-name_test.txt");
}

fn sample() -> FileTransfer {
    FileTransfer::new(
        "127.0.0.1".to_string(),
        "65432".to_string(),
        "/nonexistent/file.txt".to_string(),
    )
}

#[test]
fn address_joins_host_and_port() {
    assert_eq!(sample().address(), "127.0.0.1:65432");
    let empty = FileTransfer::new(String::new(), String::new(), String::new());
    assert_eq!(empty.address(), ":");
}

#[test]
fn connect_timeout_is_ten_seconds() {
    assert_eq!(CONNECT_TIMEOUT_SECS, 10);
}

#[test]
fn each_failure_has_its_sentence() {
    let transfer = sample();
    let cause = "No such file or directory (os error 2)".to_string();
    assert_eq!(
        transfer.describe(&TransferError::Open(cause.clone())),
        "Failed to open file '/nonexistent/file.txt': No such file or directory (os error 2)"
    );
    assert_eq!(
        transfer.describe(&TransferError::Read("Is a directory (os error 21)".to_string())),
        "Failed to read file '/nonexistent/file.txt': Is a directory (os error 21)"
    );
    assert_eq!(
        transfer.describe(&TransferError::Timeout),
        "Connection timeout to 127.0.0.1:65432"
    );
    assert_eq!(
        transfer.describe(&TransferError::Connect("Connection refused (os error 111)".to_string())),
        "Failed to connect to 127.0.0.1:65432: Connection refused (os error 111)"
    );
    assert_eq!(
        transfer.describe(&TransferError::Send("Broken pipe (os error 32)".to_string())),
        "Failed to send data: Broken pipe (os error 32)"
    );
    assert_eq!(
        transfer.describe(&TransferError::Flush("Connection reset by peer".to_string())),
        "Failed to flush data: Connection reset by peer"
    );
}

#[test]
fn send_file_gives_the_count_or_the_sentence() {
    let transfer = sample();
    assert_eq!(transfer.send_file(Ok(0)), Ok(0));
    assert_eq!(transfer.send_file(Ok(56)), Ok(56));
    assert_eq!(transfer.send_file(Ok(1_048_576)), Ok(1_048_576));
    let result = transfer.send_file(Err(TransferError::Open("gone".to_string())));
    assert_eq!(result, Err("Failed to open file '/nonexistent/file.txt': gone".to_string()));
    let result = transfer.send_file(Err(TransferError::Timeout));
    assert_eq!(result, Err("Connection timeout to 127.0.0.1:65432".to_string()));
}

#[test]
fn each_failure_belongs_to_its_step() {
    assert_eq!(TransferError::Open(String::new()).phase(), TransferPhase::Reading);
    assert_eq!(TransferError::Read(String::new()).phase(), TransferPhase::Reading);
    assert_eq!(TransferError::Timeout.phase(), TransferPhase::Connecting);
    assert_eq!(TransferError::Connect(String::new()).phase(), TransferPhase::Connecting);
    assert_eq!(TransferError::Send(String::new()).phase(), TransferPhase::Sending);
    assert_eq!(TransferError::Flush(String::new()).phase(), TransferPhase::Sending);
}
