use holepunch::addr::{reachable_endpoint, Endpoint, IpAddress};
use holepunch::errors::ErrorKind;
use holepunch::session::{
    ReceiverAction, ReceiverSession, SenderAction, SenderSession, SessionState,
};

#[test]
fn sender_rejects_missing_file_before_connecting() {
    let mut s = SenderSession::new();
    let a = s.start(false, false);
    assert_eq!(a, SenderAction::ReportFailure);
    assert_eq!(s.state(), SessionState::Failed(ErrorKind::InputValidation));
    assert_ne!(s.state(), SessionState::Failed(ErrorKind::ConnectError));
}

#[test]
fn sender_rejects_non_regular_file_before_connecting() {
    let mut s = SenderSession::new();
    let a = s.start(true, false);
    assert_eq!(a, SenderAction::ReportFailure);
    assert_eq!(s.state(), SessionState::Failed(ErrorKind::InputValidation));
}

#[test]
fn sender_unreachable_peer_is_connect_error() {
    let mut s = SenderSession::new();
    let a = s.start(true, true);
    assert_eq!(a, SenderAction::AttemptConnect);
    assert_eq!(s.state(), SessionState::Connecting);
    let a = s.on_connect_result(false);
    assert_eq!(a, SenderAction::ReportFailure);
    assert_eq!(s.state(), SessionState::Failed(ErrorKind::ConnectError));
}

#[test]
fn sender_streams_ten_bytes_then_shuts_down() {
    let mut s = SenderSession::new();
    s.start(true, true);
    s.on_connect_result(true);
    assert_eq!(s.state(), SessionState::Transferring);
    let chunk: Vec<u8> = vec![0, 1, 2, 3, 4, 5, 6, 7, 8, 9];
    let a = s.on_chunk_copied(&chunk);
    assert_eq!(a, SenderAction::CopyNextChunk);
    assert_eq!(s.bytes_transferred(), 10);
    let a = s.on_end_of_file();
    assert_eq!(a, SenderAction::ShutdownWrite);
    assert_eq!(s.state(), SessionState::Closed);
}

#[test]
fn sender_io_failure_releases_connection() {
    let mut s = SenderSession::new();
    s.start(true, true);
    s.on_connect_result(true);
    let chunk: Vec<u8> = vec![42];
    s.on_chunk_copied(&chunk);
    let a = s.on_io_error();
    assert_eq!(a, SenderAction::ReleaseConnection);
    assert_eq!(s.state(), SessionState::Failed(ErrorKind::TransferError));
}

#[test]
fn sender_empty_file_round_trip() {
    let mut s = SenderSession::new();
    s.start(true, true);
    s.on_connect_result(true);
    let a = s.on_end_of_file();
    assert_eq!(a, SenderAction::ShutdownWrite);
    assert_eq!(s.state(), SessionState::Closed);
    assert_eq!(s.bytes_transferred(), 0);
}

#[test]
fn receiver_accepts_exactly_one_connection() {
    let mut r = ReceiverSession::new();
    let a = r.start();
    assert_eq!(a, ReceiverAction::BindListener);
    let a = r.on_bind_result(true);
    assert_eq!(a, ReceiverAction::AcceptConnection);
    assert_eq!(r.state(), SessionState::Connecting);
    let a = r.on_accept_result(true);
    assert_eq!(a, ReceiverAction::ReceiveChunks);
    assert_eq!(r.accepted_connections(), 1);
    let chunk: Vec<u8> = vec![7; 4];
    r.on_chunk_received(&chunk);
    r.on_end_of_stream();
    assert_eq!(r.state(), SessionState::Closed);
    assert_eq!(r.accepted_connections(), 1);
}

#[test]
fn receiver_writes_chunks_in_arrival_order() {
    let mut r = ReceiverSession::new();
    r.start();
    r.on_bind_result(true);
    r.on_accept_result(true);
    let first: Vec<u8> = vec![1, 2];
    let a = r.on_chunk_received(&first);
    assert_eq!(a, ReceiverAction::WriteChunk);
    assert_eq!(r.bytes_transferred(), 2);
    let second: Vec<u8> = vec![3, 4, 5];
    r.on_chunk_received(&second);
    assert_eq!(r.bytes_transferred(), 5);
    let a = r.on_end_of_stream();
    assert_eq!(a, ReceiverAction::FinishOutput);
    assert_eq!(r.state(), SessionState::Closed);
}

#[test]
fn receiver_bind_failure() {
    let mut r = ReceiverSession::new();
    r.start();
    let a = r.on_bind_result(false);
    assert_eq!(a, ReceiverAction::ReportFailure);
    assert_eq!(r.state(), SessionState::Failed(ErrorKind::BindError));
}

#[test]
fn receiver_accept_failure() {
    let mut r = ReceiverSession::new();
    r.start();
    r.on_bind_result(true);
    let a = r.on_accept_result(false);
    assert_eq!(a, ReceiverAction::ReportFailure);
    assert_eq!(r.state(), SessionState::Failed(ErrorKind::AcceptError));
    assert_eq!(r.accepted_connections(), 0);
}

#[test]
fn receiver_io_failure_keeps_partial_output() {
    let mut r = ReceiverSession::new();
    r.start();
    r.on_bind_result(true);
    r.on_accept_result(true);
    let chunk: Vec<u8> = vec![9, 9];
    r.on_chunk_received(&chunk);
    let a = r.on_io_error();
    assert_eq!(a, ReceiverAction::ReleaseConnection);
    assert_eq!(r.state(), SessionState::Failed(ErrorKind::TransferError));
    assert_eq!(r.bytes_transferred(), 2);
}

#[test]
fn ten_byte_transfer_end_to_end() {
    let file: Vec<u8> = vec![10, 20, 30, 40, 50, 60, 70, 80, 90, 100];

    let mut s = SenderSession::new();
    s.start(true, true);
    s.on_connect_result(true);
    s.on_chunk_copied(&file);
    s.on_end_of_file();
    assert_eq!(s.state(), SessionState::Closed);
    assert_eq!(s.bytes_transferred(), 10);

    let mut r = ReceiverSession::new();
    r.start();
    r.on_bind_result(true);
    r.on_accept_result(true);
    r.on_chunk_received(&file);
    r.on_end_of_stream();
    assert_eq!(r.state(), SessionState::Closed);
    assert_eq!(r.bytes_transferred(), 10);
    assert_eq!(r.bytes_transferred(), s.bytes_transferred());
}

#[test]
fn transfer_completes_without_public_address() {
    let internal = Endpoint { ip: IpAddress::V4 { a: 192, b: 168, c: 1, d: 20 }, port: 50123 };
    let advertised = reachable_endpoint(None, 50123, internal);
    assert_eq!(advertised, internal);
    assert_eq!(advertised.to_text(), "192.168.1.20:50123");

    let mut r = ReceiverSession::new();
    r.start();
    r.on_bind_result(true);
    r.on_accept_result(true);
    let payload: Vec<u8> = vec![5; 3];
    r.on_chunk_received(&payload);
    r.on_end_of_stream();
    assert_eq!(r.state(), SessionState::Closed);
    assert_eq!(r.bytes_transferred(), 3);
}
