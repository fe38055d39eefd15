use aa_caller::wire::{DecodeFailure, ProfileReq, Request};
use aa_caller::common::{AsyncHandler, Call, Handler, ProfStatus, ProfileArgs, ProfileOp, ProfilePlan};
use aa_caller::server::{
    MessageReader, ProfileServer, ReplySource, ReplyWriter, Server, ServerPlan, Session,
    SessionAction, READ_BUFFER_SIZE, RUNTIME_DIR, SOCKET_NAME,
};

fn after(state: Session, message: &[u8]) -> (Session, SessionAction) {
    state.on_message(message)
}

#[test]
fn session_starts_by_reading() {
    assert_eq!(Session::start(), (Session::AwaitingRequest, SessionAction::ReadMessage));
}

#[test]
fn logs_request_gets_logs() {
    assert_eq!(
        after(Session::AwaitingRequest, &[0x08, 0x01]),
        (Session::Finished, SessionAction::Reply(ReplySource::Logs))
    );
}

#[test]
fn daemon_request_gets_logs() {
    assert_eq!(
        after(Session::AwaitingRequest, &[0x08, 0x00]),
        (Session::Finished, SessionAction::Reply(ReplySource::Logs))
    );
    assert_eq!(
        after(Session::AwaitingRequest, &[]),
        (Session::Finished, SessionAction::Reply(ReplySource::Logs))
    );
}

#[test]
fn status_and_unconfined_requests() {
    assert_eq!(
        after(Session::AwaitingRequest, &[0x08, 0x02]),
        (Session::Finished, SessionAction::Reply(ReplySource::Status))
    );
    assert_eq!(
        after(Session::AwaitingRequest, &[0x08, 0x03]),
        (Session::Finished, SessionAction::Reply(ReplySource::Unconfined))
    );
}

#[test]
fn unknown_call_gets_empty_reply() {
    assert_eq!(
        after(Session::AwaitingRequest, &[0x08, 0x09]),
        (Session::Finished, SessionAction::Reply(ReplySource::Empty))
    );
}

#[test]
fn malformed_request_fails() {
    assert_eq!(after(Session::AwaitingRequest, &[0x08]), (Session::Finished, SessionAction::Fail));
}

#[test]
fn profile_request_reads_again_then_replies_empty() {
    let (state, action) = after(Session::AwaitingRequest, &[0x08, 0x04]);
    assert_eq!((state, action), (Session::AwaitingProfile, SessionAction::ReadMessage));
    assert_eq!(after(state, &[0x08, 0x00]), (Session::Finished, SessionAction::Reply(ReplySource::Empty)));
    assert_eq!(after(Session::AwaitingProfile, &[0x0a]), (Session::Finished, SessionAction::Fail));
}

#[test]
fn reader_takes_every_chunk() {
    let mut reader = MessageReader::new();
    assert_eq!(reader.room(), READ_BUFFER_SIZE);
    assert_eq!(READ_BUFFER_SIZE, 2048);
    reader.on_read(None);
    assert!(!reader.is_done());
    reader.on_read(Some(vec![1, 2, 3]));
    assert!(!reader.is_done());
    assert_eq!(reader.room(), 2048);
    reader.on_read(Some(vec![4, 5]));
    assert!(!reader.is_done());
    reader.on_read(Some(vec![]));
    assert!(reader.is_done());
    assert_eq!(reader.into_bytes(), vec![1, 2, 3, 4, 5]);
}

#[test]
fn reader_of_closed_connection_is_empty() {
    let mut reader = MessageReader::new();
    reader.on_read(Some(Vec::new()));
    assert!(reader.is_done());
    assert_eq!(reader.into_bytes(), Vec::<u8>::new());
}

#[test]
fn reader_keeps_a_long_message_whole() {
    let message: Vec<u8> = (0..5000u32).map(|i| (i % 251) as u8).collect();
    let mut reader = MessageReader::new();
    for chunk in message.chunks(READ_BUFFER_SIZE) {
        reader.on_read(Some(chunk.to_vec()));
        assert!(!reader.is_done());
    }
    reader.on_read(Some(Vec::new()));
    assert!(reader.is_done());
    assert_eq!(reader.into_bytes(), message);
}

#[test]
fn writer_sends_every_byte() {
    let mut writer = ReplyWriter::new(vec![9, 8, 7, 6]);
    assert!(!writer.is_done());
    assert_eq!(writer.pending(), &[9, 8, 7, 6]);
    writer.on_write(None);
    assert!(!writer.is_done());
    assert_eq!(writer.pending(), &[9, 8, 7, 6]);
    writer.on_write(Some(1));
    assert!(!writer.is_done());
    assert_eq!(writer.pending(), &[8, 7, 6]);
    writer.on_write(Some(0));
    assert_eq!(writer.pending(), &[8, 7, 6]);
    writer.on_write(Some(3));
    assert!(writer.is_done());
    assert_eq!(writer.pending(), &[] as &[u8]);
}

#[test]
fn empty_reply_needs_no_write() {
    let writer = ReplyWriter::new(Vec::new());
    assert!(writer.is_done());
}

#[test]
fn server_plans() {
    assert!(matches!(Server { call: Call::Idle }.handle(), ServerPlan::Listen));
    assert!(matches!(Server { call: Call::Daemon }.handle(), ServerPlan::Listen));
    assert!(matches!(Server { call: Call::Logs }.handle(), ServerPlan::Nothing));
    assert!(matches!(Server { call: Call::Status }.handle(), ServerPlan::Nothing));
    assert!(matches!(Server { call: Call::Unconfined }.handle(), ServerPlan::Nothing));
    let args = ProfileArgs { profile: "p".to_string(), op: ProfileOp::Disable, status: None };
    match (Server { call: Call::Profile(args) }).handle() {
        ServerPlan::Profile(ProfilePlan::Switch(name, ProfStatus::Disabled)) => assert_eq!(name, "p"),
        other => panic!("unexpected plan {:?}", other),
    }
}

#[test]
fn profile_server_loads() {
    let args = ProfileArgs { profile: "/tmp/x".to_string(), op: ProfileOp::Load, status: None };
    match (ProfileServer { args }).handle() {
        ProfilePlan::Load(path) => assert_eq!(path, "/tmp/x"),
        other => panic!("unexpected plan {:?}", other),
    }
}

#[test]
fn socket_location() {
    assert_eq!(RUNTIME_DIR, "/tmp/aa-caller");
    assert_eq!(SOCKET_NAME, "socket");
}

#[test]
fn decoded_request_outcomes() {
    assert_eq!(
        Session::on_request(Ok(Request { call: 3 })),
        (Session::Finished, SessionAction::Reply(ReplySource::Unconfined))
    );
    assert_eq!(
        Session::on_request(Ok(Request { call: 4 })),
        (Session::AwaitingProfile, SessionAction::ReadMessage)
    );
    assert_eq!(
        Session::on_request(Ok(Request { call: 42 })),
        (Session::Finished, SessionAction::Reply(ReplySource::Empty))
    );
    assert_eq!(Session::on_request(Err(DecodeFailure)), (Session::Finished, SessionAction::Fail));
    assert_eq!(
        Session::on_profile_request(Ok(ProfileReq { op: 7 })),
        (Session::Finished, SessionAction::Reply(ReplySource::Empty))
    );
    assert_eq!(
        Session::on_profile_request(Err(DecodeFailure)),
        (Session::Finished, SessionAction::Fail)
    );
}
