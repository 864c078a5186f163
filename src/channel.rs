use vstd::prelude::*;
use crate::json::{bool_at, json_bool_at, json_quoted, json_str_at, opt_text, quote, str_at};

verus! {

/// The state of the push channel.
#[derive(Clone, Copy, Debug, PartialEq, Eq, Structural)]
pub enum ConnectionState {
    Closed,
    Connecting,
    Open,
    Errored,
}

/// What the transport reports about the push channel.
#[derive(Clone, Copy, Debug, PartialEq, Eq, Structural)]
pub enum ChannelEvent {
    Opened,
    Failed,
    Closed,
    /// The backoff wait after a failure is over.
    RetryDue,
}

/// Why a message could not be handed to the push channel.
#[derive(Clone, Copy, Debug, PartialEq, Eq, Structural)]
pub enum ChannelError {
    /// The channel is not open; the message is dropped.
    ChannelNotOpen,
}

/// How many reconnects are tried after the channel fails before giving up.
pub const MAX_RETRIES: u32 = 5;

/// The wait before the first reconnect, in milliseconds; each later one waits twice as long.
pub const BASE_DELAY_MS: u64 = 500;

/// What the transport is to do after a channel event.
#[derive(Clone, Copy, Debug, PartialEq, Eq, Structural)]
pub enum ChannelAction {
    Nothing,
    /// Wait this many milliseconds (plus jitter), then report `RetryDue`.
    RetryAfter(u64),
    /// Open a new connection now.
    Reconnect,
    /// The retries are used up; the channel stays errored.
    GiveUp,
}

/// The wait before reconnect number `n + 1`: `BASE_DELAY_MS * 2^n`.
pub open spec fn backoff_ms(n: nat) -> nat
    decreases n,
{
    if n == 0 {
        BASE_DELAY_MS as nat
    } else {
        2 * backoff_ms((n - 1) as nat)
    }
}

pub fn backoff_delay(n: u32) -> (r: u64)
    requires
        n < MAX_RETRIES,
    ensures
        r == backoff_ms(n as nat),
{
    proof {
        reveal_with_fuel(backoff_ms, 5);
    }
    if n == 0 {
        BASE_DELAY_MS
    } else if n == 1 {
        2 * BASE_DELAY_MS
    } else if n == 2 {
        4 * BASE_DELAY_MS
    } else if n == 3 {
        8 * BASE_DELAY_MS
    } else {
        16 * BASE_DELAY_MS
    }
}

/// The channel's state together with the reconnects tried since it last opened.
#[derive(Clone, Copy, Debug, PartialEq, Eq, Structural)]
pub struct ChannelStep {
    pub state: ConnectionState,
    pub retries: u32,
    pub action: ChannelAction,
}

/// The channel after `event`. An acknowledged connect opens a connecting channel and
/// clears the retry count. A failure of a connecting or open channel makes it
/// `Errored` and schedules a reconnect with exponential backoff, or gives up once
/// `MAX_RETRIES` reconnects have been tried. When the wait is over an errored
/// channel goes back to `Connecting`. A close of a connecting or open channel
/// makes it `Closed`, which is final. Any other pair changes nothing.
pub open spec fn next_channel(s: ConnectionState, retries: u32, event: ChannelEvent) -> ChannelStep {
    match (s, event) {
        (ConnectionState::Connecting, ChannelEvent::Opened) =>
            ChannelStep { state: ConnectionState::Open, retries: 0, action: ChannelAction::Nothing },
        (ConnectionState::Connecting, ChannelEvent::Failed) | (ConnectionState::Open, ChannelEvent::Failed) =>
            ChannelStep {
                state: ConnectionState::Errored,
                retries,
                action: if retries < MAX_RETRIES {
                    ChannelAction::RetryAfter(backoff_ms(retries as nat) as u64)
                } else {
                    ChannelAction::GiveUp
                },
            },
        (ConnectionState::Errored, ChannelEvent::RetryDue) => if retries < MAX_RETRIES {
            ChannelStep { state: ConnectionState::Connecting, retries: (retries + 1) as u32, action: ChannelAction::Reconnect }
        } else {
            ChannelStep { state: s, retries, action: ChannelAction::GiveUp }
        },
        (ConnectionState::Connecting, ChannelEvent::Closed) | (ConnectionState::Open, ChannelEvent::Closed) =>
            ChannelStep { state: ConnectionState::Closed, retries, action: ChannelAction::Nothing },
        _ => ChannelStep { state: s, retries, action: ChannelAction::Nothing },
    }
}

pub fn step_channel(s: ConnectionState, retries: u32, event: ChannelEvent) -> (r: ChannelStep)
    requires
        retries <= MAX_RETRIES,
    ensures
        r == next_channel(s, retries, event),
        r.retries <= MAX_RETRIES,
{
    match (s, event) {
        (ConnectionState::Connecting, ChannelEvent::Opened) =>
            ChannelStep { state: ConnectionState::Open, retries: 0, action: ChannelAction::Nothing },
        (ConnectionState::Connecting, ChannelEvent::Failed) | (ConnectionState::Open, ChannelEvent::Failed) =>
            ChannelStep {
                state: ConnectionState::Errored,
                retries,
                action: if retries < MAX_RETRIES {
                    ChannelAction::RetryAfter(backoff_delay(retries))
                } else {
                    ChannelAction::GiveUp
                },
            },
        (ConnectionState::Errored, ChannelEvent::RetryDue) => if retries < MAX_RETRIES {
            ChannelStep { state: ConnectionState::Connecting, retries: retries + 1, action: ChannelAction::Reconnect }
        } else {
            ChannelStep { state: s, retries, action: ChannelAction::GiveUp }
        },
        (ConnectionState::Connecting, ChannelEvent::Closed) | (ConnectionState::Open, ChannelEvent::Closed) =>
            ChannelStep { state: ConnectionState::Closed, retries, action: ChannelAction::Nothing },
        _ => ChannelStep { state: s, retries, action: ChannelAction::Nothing },
    }
}

/// A decoded inbound frame.
#[derive(Debug)]
pub enum Inbound {
    /// Not JSON, no string `type`, or a `hot_trailer` without a string `data.message`.
    Malformed,
    /// A well-formed envelope of a kind this client does not handle.
    Unknown(String),
    /// Set the hot flag of trailer `id` to `hot`.
    SetHot { id: String, hot: bool },
}

pub enum InboundView {
    Malformed,
    Unknown(Seq<char>),
    SetHot { id: Seq<char>, hot: bool },
}

impl View for Inbound {
    type V = InboundView;

    open spec fn view(&self) -> InboundView {
        match self {
            Inbound::Malformed => InboundView::Malformed,
            Inbound::Unknown(k) => InboundView::Unknown(k@),
            Inbound::SetHot { id, hot } => InboundView::SetHot { id: id@, hot: *hot },
        }
    }
}

/// The meaning of an envelope with the given `type`, `data.message` and `data.hot`.
/// A `hot_trailer` event sets the flag to `data.hot`, and to true where that is absent.
pub open spec fn inbound_of(
    kind: Option<Seq<char>>,
    message: Option<Seq<char>>,
    hot: Option<bool>,
) -> InboundView {
    match kind {
        None => InboundView::Malformed,
        Some(k) => if k == "hot_trailer"@ {
            match message {
                None => InboundView::Malformed,
                Some(m) => InboundView::SetHot {
                    id: m,
                    hot: match hot {
                        Some(h) => h,
                        None => true,
                    },
                },
            }
        } else {
            InboundView::Unknown(k)
        },
    }
}

/// Classifies an envelope from the fields read out of it.
pub fn classify_frame(kind: Option<String>, message: Option<String>, hot: Option<bool>) -> (r: Inbound)
    ensures
        r@ == inbound_of(opt_text(kind), opt_text(message), hot),
{
    let hot_kind = String::from_str("hot_trailer");
    match kind {
        None => Inbound::Malformed,
        Some(k) => if k == hot_kind {
            match message {
                None => Inbound::Malformed,
                Some(m) => Inbound::SetHot {
                    id: m,
                    hot: match hot {
                        Some(h) => h,
                        None => true,
                    },
                },
            }
        } else {
            Inbound::Unknown(k)
        },
    }
}

/// Decodes an inbound text frame of the shape `{"type": ..., "data": {"message": ..., "hot": ...}}`.
pub fn decode_frame(text: &str) -> (r: Inbound)
    ensures
        r@ == inbound_of(
            json_str_at(text@, "/type"@),
            json_str_at(text@, "/data/message"@),
            json_bool_at(text@, "/data/hot"@),
        ),
{
    let kind = str_at(text, "/type");
    let message = str_at(text, "/data/message");
    let hot = bool_at(text, "/data/hot");
    classify_frame(kind, message, hot)
}

/// The text of a `hot_trailer` broadcast for a trailer id already written as a JSON string.
pub open spec fn broadcast_text(quoted_id: Seq<char>, hot: bool) -> Seq<char> {
    "{\"type\":\"hot_trailer\",\"data\":{\"message\":"@ + quoted_id + ",\"hot\":"@
        + (if hot { "true"@ } else { "false"@ }) + "}}"@
}

/// Frames a `hot_trailer` broadcast around a trailer id already written as a JSON string.
pub fn broadcast_frame(quoted_id: &str, hot: bool) -> (r: String)
    ensures
        r@ == broadcast_text(quoted_id@, hot),
{
    let mut out = String::from_str("{\"type\":\"hot_trailer\",\"data\":{\"message\":");
    out.append(quoted_id);
    out.append(",\"hot\":");
    if hot {
        out.append("true");
    } else {
        out.append("false");
    }
    out.append("}}");
    out
}

/// The `hot_trailer` broadcast that announces trailer `id` as hot or not.
pub fn encode_broadcast(id: &str, hot: bool) -> (r: String)
    ensures
        r@ == broadcast_text(json_quoted(id@), hot),
{
    let q = quote(id).unwrap();
    broadcast_frame(q.as_str(), hot)
}

} // verus!
