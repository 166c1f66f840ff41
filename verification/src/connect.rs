//! The edge between a transport and a session: what each inbound frame means
//! for the session, where an agent dials, and how long it waits between two
//! attempts.

use crate::rpc::{decoded, rejection, ErrorCode, JsonRPC, RequestId, Response, ResponseView};
use crate::rpc::ResponseErrorView;
use crate::text::chain;
use vstd::prelude::*;

verus! {

/// One frame of the transport.
#[derive(Debug, PartialEq, Eq)]
pub enum Message {
    /// A text frame: it should hold one envelope.
    Text(String),
    /// A binary frame. The protocol has none.
    Binary(Vec<u8>),
    /// A ping of the transport.
    Ping(Vec<u8>),
    /// A pong of the transport.
    Pong(Vec<u8>),
    /// The other end closes the transport.
    Close,
}

/// What the inbound pump does with a frame.
#[derive(Debug, PartialEq, Eq)]
pub enum Inbound {
    /// Hand the envelope to the agent.
    Deliver(JsonRPC),
    /// The frame held no envelope: send this response back and go on.
    Reject(Response),
    /// Nothing to do: go on.
    Ignore,
    /// The session is over: stop reading.
    Stop,
}

/// The response that tells the sender of a frame that it was no envelope. It
/// carries the id that stands for "no id", the code of a parse error and the
/// reason in words.
pub open spec fn parse_failure(reason: Seq<char>) -> ResponseView {
    ResponseView {
        id: u64::MAX,
        result: None,
        error: Some(
            ResponseErrorView {
                code: ErrorCode::ParseError.number() as i32,
                message: reason,
                data: None,
            },
        ),
    }
}

/// What the inbound pump does with a frame.
///
/// A text frame that holds an envelope is delivered. One that holds none is
/// answered with a parse error, and the session goes on. Pings and pongs are
/// the transport's own business. A binary frame or a close ends the session.
pub fn process_inbox(message: Message) -> (step: Inbound)
    ensures
        match message {
            Message::Text(text) => match decoded(text@) {
                Some(envelope) => step matches Inbound::Deliver(delivered) && delivered@
                    == envelope,
                None => step matches Inbound::Reject(response) && Some(response@) == match rejection(
                    text@,
                ) {
                    Some(reason) => Some(parse_failure(reason)),
                    None => None,
                },
            },
            Message::Binary(_) => step == Inbound::Stop,
            Message::Ping(_) | Message::Pong(_) => step == Inbound::Ignore,
            Message::Close => step == Inbound::Stop,
        },
{
    match message {
        Message::Text(text) => match JsonRPC::decode(text.as_str()) {
            Ok(envelope) => Inbound::Deliver(envelope),
            Err(e) => Inbound::Reject(
                Response::new_err(RequestId::none(), ErrorCode::ParseError.code(), e.message()),
            ),
        },
        Message::Binary(_) => Inbound::Stop,
        Message::Ping(_) => Inbound::Ignore,
        Message::Pong(_) => Inbound::Ignore,
        Message::Close => Inbound::Stop,
    }
}

/// The text frame that carries an envelope.
pub fn process_outbox(envelope: &JsonRPC) -> (message: Message)
    ensures
        message matches Message::Text(text) && text@ == crate::json::printed(
            envelope@.to_json(),
        ),
{
    Message::Text(envelope.encode())
}

/// How many frames a session holds for its reader or its writer before the
/// sender has to wait.
pub const CHANNEL_CAPACITY: usize = 4096;

/// The wait before the first retry, in milliseconds.
pub const INITIAL_RETRY_MILLIS: u64 = 500;

/// The longest wait between two attempts, in milliseconds.
pub const MAX_RETRY_MILLIS: u64 = 4000;

/// The wait that follows a wait of `millis`: twice as long, but no longer
/// than four seconds.
pub open spec fn next_wait(millis: u64) -> u64 {
    if millis >= MAX_RETRY_MILLIS / 2 {
        MAX_RETRY_MILLIS
    } else {
        (2 * millis) as u64
    }
}

/// The wait that follows a wait of `millis` milliseconds.
pub fn backoff(millis: u64) -> (next: u64)
    ensures
        next == next_wait(millis),
        next <= MAX_RETRY_MILLIS,
        millis <= MAX_RETRY_MILLIS ==> millis <= next,
{
    if millis >= MAX_RETRY_MILLIS / 2 {
        MAX_RETRY_MILLIS
    } else {
        2 * millis
    }
}

/// The address of the session endpoint of the server at `server_url`.
pub fn session_endpoint(server_url: &str) -> (url: String)
    ensures
        url@ == server_url@ + "/api/v1/agent/ws"@,
{
    chain(server_url, "/api/v1/agent/ws")
}

/// An agent's attempts to reach its server.
#[derive(Clone, Copy, Debug, PartialEq, Eq, Structural)]
pub struct Reconnect {
    retry_millis: u64,
}

impl View for Reconnect {
    type V = u64;

    /// The wait that follows the next failure, in milliseconds.
    closed spec fn view(&self) -> u64 {
        self.retry_millis
    }
}

impl Reconnect {
    /// Before the first attempt.
    pub fn new() -> (attempts: Reconnect)
        ensures
            attempts@ == INITIAL_RETRY_MILLIS,
    {
        Reconnect { retry_millis: INITIAL_RETRY_MILLIS }
    }

    /// An attempt failed: returns how long to sleep before the next one, in
    /// milliseconds. The wait after that is the next longer one.
    pub fn connect_with_backoff(&mut self) -> (sleep_millis: u64)
        ensures
            sleep_millis == old(self)@,
            final(self)@ == next_wait(old(self)@),
    {
        let sleep_millis = self.retry_millis;
        self.retry_millis = backoff(sleep_millis);
        sleep_millis
    }

    /// An attempt succeeded: after the session, the waits start over.
    pub fn connected(&mut self)
        ensures
            final(self)@ == INITIAL_RETRY_MILLIS,
    {
        self.retry_millis = INITIAL_RETRY_MILLIS;
    }
}

/// The `n`-th wait of a run of failed attempts, in milliseconds.
pub open spec fn wait(n: nat) -> u64
    decreases n,
{
    if n == 0 {
        INITIAL_RETRY_MILLIS
    } else {
        next_wait(wait((n - 1) as nat))
    }
}

/// The waits double from half a second up to four seconds and stay there.
pub proof fn lemma_waits(n: nat)
    ensures
        wait(0) == 500,
        wait(1) == 1000,
        wait(2) == 2000,
        n >= 3 ==> wait(n) == 4000,
    decreases n,
{
    reveal_with_fuel(wait, 4);
    if n > 3 {
        lemma_waits((n - 1) as nat);
    }
}

} // verus!
