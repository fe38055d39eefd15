//! Serving requests that come over a Unix socket. A client connects, sends a
//! request message (and, for a profile request, a profile request message),
//! and gets one reply. Accepting connections, reading and writing them, and
//! producing the reply's contents are left to the caller of this module; it
//! decides, from what was read, what to do next.
use vstd::prelude::*;
use crate::common::{AsyncHandler, Call, Handler, ProfileArgs, ProfilePlan, plan_profile, profile_plan};
use crate::wire::{
    message_int32, request_call_of, DecodeFailure, PROFILE_OP_FIELD, REQUEST_CALL_FIELD, ProfileReq,
    Request, RequestCall,
};

verus! {

/// The directory that holds the socket.
pub const RUNTIME_DIR: &'static str = "/tmp/aa-caller";

/// The name of the socket in `RUNTIME_DIR`.
pub const SOCKET_NAME: &'static str = "socket";

/// The size of the buffer that a message is read into.
pub const READ_BUFFER_SIZE: usize = 2048;

/// Handles the request that starts the server.
#[derive(Clone, Debug)]
pub struct Server {
    pub call: Call,
}

/// What the server is to do for the request that starts it.
#[derive(Clone, Debug)]
pub enum ServerPlan {
    /// Listen on the socket and serve every client that connects.
    Listen,
    /// Nothing.
    Nothing,
    /// Carry out a profile request.
    Profile(ProfilePlan),
}

/// The plan for the request that starts the server.
pub open spec fn server_plan(call: Call) -> ServerPlan {
    match call {
        Call::Idle => ServerPlan::Listen,
        Call::Daemon => ServerPlan::Listen,
        Call::Logs => ServerPlan::Nothing,
        Call::Status => ServerPlan::Nothing,
        Call::Unconfined => ServerPlan::Nothing,
        Call::Profile(args) => ServerPlan::Profile(profile_plan(args)),
    }
}

/// Handles a profile request that starts the server.
#[derive(Clone, Debug)]
pub struct ProfileServer {
    pub args: ProfileArgs,
}

impl Handler for ProfileServer {
    type Plan = ProfilePlan;

    fn handle(self) -> (plan: ProfilePlan)
        ensures
            plan == profile_plan(self.args),
    {
        plan_profile(self.args)
    }
}

impl AsyncHandler for Server {
    type Plan = ServerPlan;

    fn handle(self) -> (plan: ServerPlan)
        ensures
            plan == server_plan(self.call),
    {
        match self.call {
            Call::Idle => ServerPlan::Listen,
            Call::Daemon => ServerPlan::Listen,
            Call::Logs => ServerPlan::Nothing,
            Call::Status => ServerPlan::Nothing,
            Call::Unconfined => ServerPlan::Nothing,
            Call::Profile(args) => ServerPlan::Profile(ProfileServer { args }.handle()),
        }
    }
}

/// What a reply to a client holds.
#[derive(Clone, Copy, PartialEq, Eq, Structural, Debug)]
pub enum ReplySource {
    /// The logs.
    Logs,
    /// What `aa-status` answers.
    Status,
    /// The process list.
    Unconfined,
    /// Nothing.
    Empty,
}

/// Where serving one client stands.
#[derive(Clone, Copy, PartialEq, Eq, Structural, Debug)]
pub enum Session {
    /// The request message is awaited.
    AwaitingRequest,
    /// The profile request message is awaited.
    AwaitingProfile,
    /// Nothing more is read from the client.
    Finished,
}

/// What to do next for a client.
#[derive(Clone, Copy, PartialEq, Eq, Structural, Debug)]
pub enum SessionAction {
    /// Read the next message.
    ReadMessage,
    /// Reply with this and close.
    Reply(ReplySource),
    /// A message was not well formed: stop serving, with an error.
    Fail,
}

/// The reply to a request that names the call `call`.
pub open spec fn reply_for(call: RequestCall) -> ReplySource {
    match call {
        RequestCall::Daemon => ReplySource::Logs,
        RequestCall::Logs => ReplySource::Logs,
        RequestCall::Status => ReplySource::Status,
        RequestCall::Unconfined => ReplySource::Unconfined,
        RequestCall::Profile => ReplySource::Empty,
    }
}

/// What follows a request message whose `call` field holds `call` (`None`
/// where the message is not well formed): a profile request asks for the
/// profile request message; another known call is answered; an unknown call
/// gets an empty reply.
pub open spec fn after_request(call: Option<i32>) -> (Session, SessionAction) {
    match call {
        None => (Session::Finished, SessionAction::Fail),
        Some(call) => match request_call_of(call) {
            Some(RequestCall::Profile) => (Session::AwaitingProfile, SessionAction::ReadMessage),
            Some(known) => (Session::Finished, SessionAction::Reply(reply_for(known))),
            None => (Session::Finished, SessionAction::Reply(ReplySource::Empty)),
        },
    }
}

/// What follows a profile request message whose `op` field holds `op`
/// (`None` where the message is not well formed): the operation is not
/// carried out; a well-formed message gets an empty reply.
pub open spec fn after_profile_request(op: Option<i32>) -> (Session, SessionAction) {
    match op {
        None => (Session::Finished, SessionAction::Fail),
        Some(_) => (Session::Finished, SessionAction::Reply(ReplySource::Empty)),
    }
}

/// What follows when the message `message` arrives in the state `state`.
pub open spec fn session_next(state: Session, message: Seq<u8>) -> (Session, SessionAction) {
    match state {
        Session::AwaitingRequest => after_request(message_int32(message, REQUEST_CALL_FIELD)),
        Session::AwaitingProfile => after_profile_request(message_int32(message, PROFILE_OP_FIELD)),
        Session::Finished => (Session::Finished, SessionAction::Fail),
    }
}

impl Session {
    /// Starts serving a client: its request message is read first.
    pub fn start() -> (res: (Session, SessionAction))
        ensures
            res == (Session::AwaitingRequest, SessionAction::ReadMessage),
    {
        (Session::AwaitingRequest, SessionAction::ReadMessage)
    }

    /// What follows a decoded request message.
    pub fn on_request(req: Result<Request, DecodeFailure>) -> (res: (Session, SessionAction))
        ensures
            res == after_request(
                match req {
                    Ok(r) => Some(r.call),
                    Err(_) => None,
                },
            ),
    {
        match req {
            Err(_) => (Session::Finished, SessionAction::Fail),
            Ok(req) => match RequestCall::try_from_i32(req.call) {
                Some(RequestCall::Daemon) => (
                    Session::Finished,
                    SessionAction::Reply(ReplySource::Logs),
                ),
                Some(RequestCall::Logs) => (
                    Session::Finished,
                    SessionAction::Reply(ReplySource::Logs),
                ),
                Some(RequestCall::Status) => (
                    Session::Finished,
                    SessionAction::Reply(ReplySource::Status),
                ),
                Some(RequestCall::Unconfined) => (
                    Session::Finished,
                    SessionAction::Reply(ReplySource::Unconfined),
                ),
                Some(RequestCall::Profile) => (
                    Session::AwaitingProfile,
                    SessionAction::ReadMessage,
                ),
                None => (Session::Finished, SessionAction::Reply(ReplySource::Empty)),
            },
        }
    }

    /// What follows a decoded profile request message.
    pub fn on_profile_request(req: Result<ProfileReq, DecodeFailure>) -> (res: (
        Session,
        SessionAction,
    ))
        ensures
            res == after_profile_request(
                match req {
                    Ok(r) => Some(r.op),
                    Err(_) => None,
                },
            ),
    {
        match req {
            Err(_) => (Session::Finished, SessionAction::Fail),
            Ok(_) => (Session::Finished, SessionAction::Reply(ReplySource::Empty)),
        }
    }

    /// What follows when `message` arrives.
    pub fn on_message(self, message: &[u8]) -> (res: (Session, SessionAction))
        requires
            self != Session::Finished,
        ensures
            res == session_next(self, message@),
    {
        match self {
            Session::AwaitingRequest => Session::on_request(Request::decode(message)),
            _ => Session::on_profile_request(ProfileReq::decode(message)),
        }
    }
}

/// Reading one message from a client: reads into a buffer of
/// `READ_BUFFER_SIZE` bytes, adding the bytes of every read in order, until a
/// read gives nothing (the client has closed its side).
#[derive(Debug)]
pub struct MessageReader {
    received: Vec<u8>,
    done: bool,
}

impl MessageReader {
    /// What has been read so far.
    pub closed spec fn received(&self) -> Seq<u8> {
        self.received@
    }

    /// Whether the message has been read.
    pub closed spec fn finished(&self) -> bool {
        self.done
    }

    /// Starts reading a message.
    pub fn new() -> (reader: MessageReader)
        ensures
            reader.received() == Seq::<u8>::empty(),
            !reader.finished(),
    {
        MessageReader { received: Vec::new(), done: false }
    }

    /// How many bytes the next read may give: always a whole buffer.
    pub fn room(&self) -> (room: usize)
        ensures
            room == READ_BUFFER_SIZE,
    {
        READ_BUFFER_SIZE
    }

    /// Whether the message has been read.
    pub fn is_done(&self) -> (done: bool)
        ensures
            done == self.finished(),
    {
        self.done
    }

    /// Takes in the outcome of a read: the bytes it gave, or `None` where it
    /// failed, in which case the read is tried again. A read that gives
    /// nothing ends the message.
    pub fn on_read(&mut self, read: Option<Vec<u8>>)
        requires
            !old(self).finished(),
            read matches Some(bytes) ==> bytes@.len() <= READ_BUFFER_SIZE,
        ensures
            match read {
                None => *final(self) == *old(self),
                Some(bytes) => {
                    &&& final(self).received() == old(self).received() + bytes@
                    &&& final(self).finished() == (bytes@.len() == 0)
                },
            },
    {
        match read {
            None => {},
            Some(bytes) => {
                if bytes.len() == 0 {
                    self.done = true;
                    assert(self.received@ =~= old(self).received@ + bytes@);
                } else {
                    let mut bytes = bytes;
                    self.received.append(&mut bytes);
                }
            },
        }
    }

    /// The message that was read.
    pub fn into_bytes(self) -> (bytes: Vec<u8>)
        ensures
            bytes@ == self.received(),
    {
        self.received
    }
}

/// Writing the reply to a client: each write is offered what has not been
/// taken yet, and writing ends when every byte of the reply has been taken.
#[derive(Debug)]
pub struct ReplyWriter {
    reply: Vec<u8>,
    sent: usize,
}

impl ReplyWriter {
    /// The reply.
    pub closed spec fn contents(&self) -> Seq<u8> {
        self.reply@
    }

    /// How many bytes of the reply have been taken.
    pub closed spec fn sent(&self) -> nat {
        self.sent as nat
    }

    /// No more bytes taken than the reply holds.
    pub closed spec fn wf(&self) -> bool {
        self.sent <= self.reply@.len()
    }

    /// Whether writing is over.
    pub open spec fn finished(&self) -> bool {
        self.sent() == self.contents().len()
    }

    /// What the next write is offered.
    pub open spec fn remaining(&self) -> Seq<u8> {
        self.contents().skip(self.sent() as int)
    }

    /// Starts writing `reply`.
    pub fn new(reply: Vec<u8>) -> (writer: ReplyWriter)
        ensures
            writer.wf(),
            writer.contents() == reply@,
            writer.sent() == 0,
    {
        ReplyWriter { reply, sent: 0 }
    }

    /// What the next write is to write: the bytes not taken yet.
    pub fn pending(&self) -> (bytes: &[u8])
        requires
            self.wf(),
        ensures
            bytes@ == self.remaining(),
    {
        vstd::slice::slice_subrange(self.reply.as_slice(), self.sent, self.reply.len())
    }

    /// Whether writing is over.
    pub fn is_done(&self) -> (done: bool)
        requires
            self.wf(),
        ensures
            done == self.finished(),
    {
        self.sent == self.reply.len()
    }

    /// Takes in the outcome of a write of `pending()`: how many bytes it
    /// took, or `None` where it failed, in which case it is tried again.
    pub fn on_write(&mut self, written: Option<usize>)
        requires
            old(self).wf(),
            written matches Some(n) ==> n <= old(self).remaining().len(),
        ensures
            final(self).wf(),
            final(self).contents() == old(self).contents(),
            final(self).sent() == match written {
                Some(n) => old(self).sent() + n as int,
                None => old(self).sent() as int,
            },
    {
        match written {
            Some(n) => {
                let len = self.reply.len();
                assert(self.reply@.skip(self.sent as int).len() == len - self.sent);
                self.sent = self.sent + n;
            },
            None => {},
        }
    }
}

/// One connection is read at most twice: after the request message the
/// session is over, unless the request names a profile request, in which case
/// it is over after the next message.
pub proof fn lemma_at_most_two_messages(first: Seq<u8>, second: Seq<u8>)
    ensures
        ({
            let (state, action) = session_next(Session::AwaitingRequest, first);
            ||| state == Session::Finished && action != SessionAction::ReadMessage
            ||| state == Session::AwaitingProfile && action == SessionAction::ReadMessage
                && session_next(state, second).0 == Session::Finished
                && session_next(state, second).1 != SessionAction::ReadMessage
        }),
{
}

/// A message that is not well formed is never answered: the session fails.
pub proof fn lemma_malformed_message_fails(state: Session, message: Seq<u8>)
    requires
        state != Session::Finished,
        message_int32(message, REQUEST_CALL_FIELD) is None,
        message_int32(message, PROFILE_OP_FIELD) is None,
    ensures
        session_next(state, message) == (Session::Finished, SessionAction::Fail),
{
}

/// A profile request sent over the socket is never carried out: once its
/// second message is read, the reply is empty, whatever operation it names.
pub proof fn lemma_profile_request_gets_empty_reply(first: Seq<u8>, second: Seq<u8>)
    requires
        message_int32(first, REQUEST_CALL_FIELD) matches Some(call) && request_call_of(call)
            == Some(RequestCall::Profile),
        message_int32(second, PROFILE_OP_FIELD) is Some,
    ensures
        session_next(Session::AwaitingRequest, first) == (
            Session::AwaitingProfile,
            SessionAction::ReadMessage,
        ),
        session_next(Session::AwaitingProfile, second) == (
            Session::Finished,
            SessionAction::Reply(ReplySource::Empty),
        ),
{
}

/// A request that names `Daemon` is answered as one that names `Logs`: with
/// the logs.
pub proof fn lemma_daemon_request_gets_logs(daemon: Seq<u8>, logs: Seq<u8>)
    requires
        message_int32(daemon, REQUEST_CALL_FIELD) matches Some(call) && request_call_of(call)
            == Some(RequestCall::Daemon),
        message_int32(logs, REQUEST_CALL_FIELD) matches Some(call) && request_call_of(call)
            == Some(RequestCall::Logs),
    ensures
        session_next(Session::AwaitingRequest, daemon) == session_next(
            Session::AwaitingRequest,
            logs,
        ),
        session_next(Session::AwaitingRequest, daemon).1 == SessionAction::Reply(ReplySource::Logs),
{
}

/// Writing a reply ends exactly when every byte of it has been written, in
/// order: the bytes taken so far are the reply's first `sent()` bytes, and a
/// write takes the next ones.
pub proof fn lemma_reply_written_whole(writer: ReplyWriter, n: nat)
    requires
        writer.wf(),
        n <= writer.remaining().len(),
    ensures
        writer.contents().take(writer.sent() as int) + writer.remaining().take(n as int)
            == writer.contents().take(writer.sent() + n as int),
        writer.finished() <==> writer.remaining().len() == 0,
{
    assert(writer.contents().take(writer.sent() as int) + writer.remaining().take(n as int)
        =~= writer.contents().take(writer.sent() + n as int));
}

/// What each request that starts the server does: `Idle` and `Daemon` listen
/// on the socket; the logs, status and process-list requests do nothing
/// there; a profile request is carried out by its plan.
pub proof fn lemma_server_plan_table(args: ProfileArgs)
    ensures
        server_plan(Call::Idle) == ServerPlan::Listen,
        server_plan(Call::Daemon) == ServerPlan::Listen,
        server_plan(Call::Logs) == ServerPlan::Nothing,
        server_plan(Call::Status) == ServerPlan::Nothing,
        server_plan(Call::Unconfined) == ServerPlan::Nothing,
        server_plan(Call::Profile(args)) == ServerPlan::Profile(profile_plan(args)),
{
}

/// What each request number is answered with: 0 (`DAEMON`) and 1 (`LOGS`)
/// with the logs, 2 (`STATUS`) with the status, 3 (`UNCONFINED`) with the
/// process list; 4 (`PROFILE`) asks for a second message; any other number
/// gets an empty reply, and a message that is not well formed fails.
pub proof fn lemma_request_table(call: i32)
    ensures
        after_request(Some(0)) == (Session::Finished, SessionAction::Reply(ReplySource::Logs)),
        after_request(Some(1)) == (Session::Finished, SessionAction::Reply(ReplySource::Logs)),
        after_request(Some(2)) == (Session::Finished, SessionAction::Reply(ReplySource::Status)),
        after_request(Some(3)) == (
            Session::Finished,
            SessionAction::Reply(ReplySource::Unconfined),
        ),
        after_request(Some(4)) == (Session::AwaitingProfile, SessionAction::ReadMessage),
        (call < 0 || call > 4) ==> after_request(Some(call)) == (
            Session::Finished,
            SessionAction::Reply(ReplySource::Empty),
        ),
        after_request(None) == (Session::Finished, SessionAction::Fail),
        after_profile_request(Some(call)) == (
            Session::Finished,
            SessionAction::Reply(ReplySource::Empty),
        ),
        after_profile_request(None) == (Session::Finished, SessionAction::Fail),
{
}

} // verus!
