use vstd::prelude::*;
use crate::channel::{
    decode_frame, encode_broadcast, broadcast_text, inbound_of, next_channel, step_channel,
    ChannelAction, ChannelError, ChannelEvent, ConnectionState, Inbound, InboundView, MAX_RETRIES,
};
use crate::json::{json_bool_at, json_quoted, json_str_at};
use crate::record::{
    has_id, hot_set_in, ids_unique, lemma_hot_set_idempotent, lemma_hot_set_keeps_ids, lemma_unique_by_id_is_unique,
    unique_by_id, TrailerRecord, User,
};

verus! {

/// Why a snapshot fetch failed.
#[derive(Clone, Copy, Debug, PartialEq, Eq, Structural)]
pub enum FetchError {
    /// The server could not be reached, or answered with a non-success status.
    Transport,
    /// The answer was not a list of trailers.
    Decode,
    /// The server rejected the session's token.
    Unauthorized,
}

/// Why a confirmed write was not broadcast.
#[derive(Clone, Copy, Debug, PartialEq, Eq, Structural)]
pub enum DispatchError {
    /// The push channel is not open; the broadcast is dropped.
    ChannelNotOpen,
    /// The write itself failed; nothing is broadcast.
    WriteFailed,
}

/// The single store of the session: who is signed in, which screen shows, the
/// trailers in display order and the state of the push channel.
#[derive(Debug)]
pub struct GlobalState {
    pub user: Option<User>,
    pub current_view: String,
    pub trailers: Vec<TrailerRecord>,
    pub connection: ConnectionState,
    /// Whether the push channel has been built; once set it stays set.
    pub channel_created: bool,
    /// Reconnects tried since the channel last opened.
    pub retries: u32,
    /// The trailer whose last write failed, shown to the user until a write succeeds.
    pub failed_write: Option<String>,
}

/// The screen the router shows.
#[derive(Clone, Copy, Debug, PartialEq, Eq, Structural)]
pub enum Screen {
    Login,
    Trailers,
    NotFound,
}

/// The screen for a store: the login form without a user, the trailer table on the
/// `landing` view, the not-found page otherwise.
pub open spec fn screen_of(s: GlobalState) -> Screen {
    if s.user is None {
        Screen::Login
    } else if s.current_view@ == "landing"@ {
        Screen::Trailers
    } else {
        Screen::NotFound
    }
}

/// The answer to a snapshot fetch of the given HTTP status: success for 2xx,
/// `Unauthorized` for 401 and 403, a transport failure otherwise.
pub open spec fn status_outcome(status: u16) -> Result<(), FetchError> {
    if 200 <= status <= 299 {
        Ok(())
    } else if status == 401 || status == 403 {
        Err(FetchError::Unauthorized)
    } else {
        Err(FetchError::Transport)
    }
}

pub fn fetch_status(status: u16) -> (r: Result<(), FetchError>)
    ensures
        r == status_outcome(status),
{
    if 200 <= status && status <= 299 {
        Ok(())
    } else if status == 401 || status == 403 {
        Err(FetchError::Unauthorized)
    } else {
        Err(FetchError::Transport)
    }
}

/// The channel is built in the step from `s1` to `s2`.
pub open spec fn channel_built(s1: GlobalState, s2: GlobalState) -> bool {
    !s1.channel_created && s2.channel_created
}

/// The trailers after reconciling a decoded frame: a `hot_trailer` event sets the
/// flag of its trailer to its target; anything else leaves them as they are.
pub open spec fn reconciled(s: Seq<TrailerRecord>, inbound: InboundView) -> Seq<TrailerRecord> {
    match inbound {
        InboundView::SetHot { id, hot } => hot_set_in(s, id, hot),
        _ => s,
    }
}

/// Reconciliation is idempotent: the same event delivered twice in a row leaves the
/// trailers as one delivery does.
pub proof fn lemma_reconcile_twice_is_once(s: Seq<TrailerRecord>, inbound: InboundView)
    ensures
        reconciled(reconciled(s, inbound), inbound) == reconciled(s, inbound),
{
    if let InboundView::SetHot { id, hot } = inbound {
        lemma_hot_set_idempotent(s, id, hot);
    }
}

/// A step from `s1` to `s2` does not drop a built channel.
pub open spec fn keeps_channel(s1: GlobalState, s2: GlobalState) -> bool {
    s1.channel_created ==> s2.channel_created
}

/// The bootstrap guard: the channel is to be built when there are trailers and no channel yet.
pub open spec fn bootstrap_due(s: GlobalState) -> bool {
    s.trailers@.len() > 0 && !s.channel_created
}

impl GlobalState {
    /// Trailer ids are unique, and without a channel the connection is closed.
    pub open spec fn wf(&self) -> bool {
        &&& ids_unique(self.trailers@)
        &&& (!self.channel_created ==> self.connection == ConnectionState::Closed)
        &&& self.retries <= MAX_RETRIES
    }

    pub fn new() -> (r: Self)
        ensures
            r.wf(),
            r.user is None,
            r.current_view@ == "login"@,
            r.trailers@.len() == 0,
            r.connection == ConnectionState::Closed,
            !r.channel_created,
            r.retries == 0,
            r.failed_write is None,
    {
        GlobalState {
            user: None,
            current_view: String::from_str("login"),
            trailers: Vec::new(),
            connection: ConnectionState::Closed,
            channel_created: false,
            retries: 0,
            failed_write: None,
        }
    }

    /// Replaces the trailers with `list`, keeping the first record of each id.
    pub fn replace_records(&mut self, list: Vec<TrailerRecord>)
        requires
            old(self).wf(),
        ensures
            final(self).wf(),
            keeps_channel(*old(self), *final(self)),
            final(self).trailers@ == unique_by_id(list@),
            final(self).user == old(self).user,
            final(self).current_view == old(self).current_view,
            final(self).connection == old(self).connection,
            final(self).channel_created == old(self).channel_created,
    {
        let ghost all = list@;
        assert(all.len() == list.len());
        let mut rest = list;
        let mut out: Vec<TrailerRecord> = Vec::new();
        let mut i: usize = 0;
        while rest.len() > 0
            invariant
                all.len() <= usize::MAX,
                i + rest@.len() == all.len(),
                rest@ == all.subrange(i as int, all.len() as int),
                out@ == unique_by_id(all.take(i as int)),
            decreases rest@.len(),
        {
            let r = rest.remove(0);
            assert(all.take(i + 1).drop_last() =~= all.take(i as int));
            assert(all.take(i + 1).last() == all[i as int]);
            let mut seen = false;
            let mut j: usize = 0;
            while j < out.len()
                invariant
                    j <= out@.len(),
                    seen == (exists|k: int| 0 <= k < j && (#[trigger] out@[k]).trailer_id@ == r.trailer_id@),
                decreases out@.len() - j,
            {
                if out[j].trailer_id == r.trailer_id {
                    seen = true;
                }
                j = j + 1;
            }
            assert(seen == has_id(out@, r.trailer_id@));
            if !seen {
                out.push(r);
            }
            i = i + 1;
            assert(rest@ =~= all.subrange(i as int, all.len() as int));
        }
        assert(all.take(i as int) =~= all);
        proof {
            lemma_unique_by_id_is_unique(all);
        }
        self.trailers = out;
    }

    /// Sets the hot flag of the trailer with id `id` to `hot`; nothing happens if there is none.
    pub fn set_hot(&mut self, id: &str, hot: bool)
        requires
            old(self).wf(),
        ensures
            final(self).wf(),
            keeps_channel(*old(self), *final(self)),
            final(self).trailers@ == hot_set_in(old(self).trailers@, id@, hot),
            final(self).user == old(self).user,
            final(self).current_view == old(self).current_view,
            final(self).connection == old(self).connection,
            final(self).channel_created == old(self).channel_created,
    {
        let key = String::from_str(id);
        let ghost before = self.trailers@;
        let mut i: usize = 0;
        while i < self.trailers.len()
            invariant
                i <= self.trailers@.len(),
                self.trailers@.len() == before.len(),
                key@ == id@,
                forall|k: int| 0 <= k < i ==> #[trigger] self.trailers@[k] == hot_set_in(before, id@, hot)[k],
                forall|k: int| i <= k < before.len() ==> #[trigger] self.trailers@[k] == before[k],
                self.user == old(self).user,
                self.current_view == old(self).current_view,
                self.connection == old(self).connection,
                self.channel_created == old(self).channel_created,
                self.retries == old(self).retries,
            decreases before.len() - i,
        {
            if self.trailers[i].trailer_id == key {
                self.trailers[i].schedule.is_hot = hot;
            }
            i = i + 1;
        }
        assert(self.trailers@ =~= hot_set_in(before, id@, hot));
        proof {
            lemma_hot_set_keeps_ids(before, id@, hot);
        }
    }

    /// The bootstrap guard. Builds the push channel (the connection becomes
    /// `Connecting`) when there are trailers and no channel has been built yet, and
    /// says whether it did; the caller then opens the transport.
    pub fn connect_websocket(&mut self) -> (fired: bool)
        requires
            old(self).wf(),
        ensures
            final(self).wf(),
            keeps_channel(*old(self), *final(self)),
            fired == bootstrap_due(*old(self)),
            fired == channel_built(*old(self), *final(self)),
            final(self).channel_created == (old(self).channel_created || fired),
            final(self).connection == (if fired { ConnectionState::Connecting } else { old(self).connection }),
            final(self).trailers == old(self).trailers,
            final(self).user == old(self).user,
            final(self).current_view == old(self).current_view,
    {
        if self.trailers.len() > 0 && !self.channel_created {
            self.channel_created = true;
            self.connection = ConnectionState::Connecting;
            true
        } else {
            false
        }
    }

    /// Applies what the transport reports about the channel, and says what the
    /// transport is to do next (wait and retry, reconnect, give up, or nothing).
    pub fn on_channel_event(&mut self, event: ChannelEvent) -> (action: ChannelAction)
        requires
            old(self).wf(),
        ensures
            final(self).wf(),
            keeps_channel(*old(self), *final(self)),
            final(self).connection == next_channel(old(self).connection, old(self).retries, event).state,
            final(self).retries == next_channel(old(self).connection, old(self).retries, event).retries,
            action == next_channel(old(self).connection, old(self).retries, event).action,
            final(self).channel_created == old(self).channel_created,
            final(self).trailers == old(self).trailers,
            final(self).user == old(self).user,
            final(self).current_view == old(self).current_view,
    {
        let step = step_channel(self.connection, self.retries, event);
        self.connection = step.state;
        self.retries = step.retries;
        step.action
    }

    /// Send gating: a message may go out on the channel only while it is open. The
    /// store is left as it is either way; on `Ok` the caller hands `message` to the
    /// transport, on `Err` it drops it.
    pub fn send_ws_message(&self, message: &str) -> (r: Result<(), ChannelError>)
        ensures
            r is Ok <==> self.connection == ConnectionState::Open,
            r is Err ==> r == Err::<(), ChannelError>(ChannelError::ChannelNotOpen),
    {
        if self.connection == ConnectionState::Open {
            Ok(())
        } else {
            Err(ChannelError::ChannelNotOpen)
        }
    }

    /// Reconciles a decoded frame: a `hot_trailer` event sets the flag to its target;
    /// an unknown kind or a malformed frame changes nothing.
    pub fn apply_inbound(&mut self, inbound: &Inbound)
        requires
            old(self).wf(),
        ensures
            final(self).wf(),
            keeps_channel(*old(self), *final(self)),
            final(self).trailers@ == reconciled(old(self).trailers@, inbound@),
            !(inbound@ is SetHot) ==> final(self).trailers == old(self).trailers,
            final(self).connection == old(self).connection,
            final(self).channel_created == old(self).channel_created,
            final(self).user == old(self).user,
            final(self).current_view == old(self).current_view,
    {
        match inbound {
            Inbound::SetHot { id, hot } => self.set_hot(id.as_str(), *hot),
            _ => {},
        }
    }

    /// Handles one text frame from the push channel: decodes it and reconciles it.
    /// Returns what the frame was, so that the caller can log drops.
    pub fn receive_frame(&mut self, text: &str) -> (r: Inbound)
        requires
            old(self).wf(),
        ensures
            final(self).wf(),
            keeps_channel(*old(self), *final(self)),
            r@ == inbound_of(
                json_str_at(text@, "/type"@),
                json_str_at(text@, "/data/message"@),
                json_bool_at(text@, "/data/hot"@),
            ),
            final(self).trailers@ == reconciled(old(self).trailers@, r@),
            !(r@ is SetHot) ==> final(self).trailers == old(self).trailers,
            final(self).connection == old(self).connection,
            final(self).channel_created == old(self).channel_created,
            final(self).user == old(self).user,
            final(self).current_view == old(self).current_view,
    {
        let inbound = decode_frame(text);
        self.apply_inbound(&inbound);
        inbound
    }

    /// Takes in the outcome of a snapshot fetch. On success the trailers are
    /// replaced and the bootstrap guard is run; the result says whether the channel
    /// is to be opened now. An `Unauthorized` answer ends the session. Any other
    /// failure changes nothing.
    pub fn apply_snapshot(&mut self, outcome: Result<Vec<TrailerRecord>, FetchError>) -> (connect: bool)
        requires
            old(self).wf(),
        ensures
            final(self).wf(),
            keeps_channel(*old(self), *final(self)),
            old(self).channel_created ==> final(self).channel_created,
            match outcome {
                Ok(list) => {
                    &&& final(self).trailers@ == unique_by_id(list@)
                    &&& connect == (unique_by_id(list@).len() > 0 && !old(self).channel_created)
                    &&& final(self).channel_created == (old(self).channel_created || connect)
                    &&& final(self).connection == (if connect { ConnectionState::Connecting } else { old(self).connection })
                    &&& final(self).user == old(self).user
                    &&& final(self).current_view == old(self).current_view
                },
                Err(FetchError::Unauthorized) => {
                    &&& !connect
                    &&& final(self).user is None
                    &&& final(self).current_view@ == "login"@
                    &&& final(self).trailers == old(self).trailers
                    &&& final(self).connection == old(self).connection
                    &&& final(self).channel_created == old(self).channel_created
                },
                Err(_) => {
                    &&& !connect
                    &&& *final(self) == *old(self)
                },
            },
    {
        match outcome {
            Ok(list) => {
                self.replace_records(list);
                self.connect_websocket()
            },
            Err(FetchError::Unauthorized) => {
                self.log_out();
                false
            },
            Err(_) => false,
        }
    }

    /// Starts a session for `user` and shows the landing screen.
    pub fn log_in(&mut self, user: User)
        requires
            old(self).wf(),
        ensures
            final(self).wf(),
            keeps_channel(*old(self), *final(self)),
            final(self).user == Some(user),
            final(self).retries == old(self).retries,
            final(self).failed_write == old(self).failed_write,
            final(self).current_view@ == "landing"@,
            final(self).trailers == old(self).trailers,
            final(self).connection == old(self).connection,
            final(self).channel_created == old(self).channel_created,
    {
        self.user = Some(user);
        self.current_view = String::from_str("landing");
    }

    /// Ends the session and shows the login screen.
    pub fn log_out(&mut self)
        requires
            old(self).wf(),
        ensures
            final(self).wf(),
            keeps_channel(*old(self), *final(self)),
            final(self).user is None,
            final(self).current_view@ == "login"@,
            final(self).trailers == old(self).trailers,
            final(self).connection == old(self).connection,
            final(self).channel_created == old(self).channel_created,
            final(self).retries == old(self).retries,
            final(self).failed_write == old(self).failed_write,
    {
        self.user = None;
        self.current_view = String::from_str("login");
    }

    /// The `Authorization` header value of the session: `Bearer <token>`, or none
    /// without a signed-in user.
    pub fn authorization(&self) -> (r: Option<String>)
        ensures
            match self.user {
                Some(u) => r matches Some(h) && h@ == "Bearer "@ + u.token@,
                None => r is None,
            },
    {
        match &self.user {
            Some(u) => {
                let mut h = String::from_str("Bearer ");
                h.append(u.token.as_str());
                Some(h)
            },
            None => None,
        }
    }

    /// The hot flag that a click on trailer `id` asks for: the opposite of its
    /// current one, or none if there is no such trailer.
    pub fn hot_target(&self, id: &str) -> (r: Option<bool>)
        requires
            self.wf(),
        ensures
            r is None <==> !has_id(self.trailers@, id@),
            forall|k: int|
                0 <= k < self.trailers@.len() && (#[trigger] self.trailers@[k]).trailer_id@ == id@
                    ==> r == Some(!self.trailers@[k].schedule.is_hot),
    {
        let key = String::from_str(id);
        let mut i: usize = 0;
        while i < self.trailers.len()
            invariant
                self.wf(),
                i <= self.trailers@.len(),
                key@ == id@,
                forall|k: int| 0 <= k < i ==> (#[trigger] self.trailers@[k]).trailer_id@ != id@,
            decreases self.trailers@.len() - i,
        {
            if self.trailers[i].trailer_id == key {
                proof {
                    assert forall|k: int|
                        0 <= k < self.trailers@.len() && (#[trigger] self.trailers@[k]).trailer_id@ == id@
                        implies k == i by {
                        if k < i {
                            assert(self.trailers@[k].trailer_id@ != self.trailers@[i as int].trailer_id@);
                        } else if k > i {
                            assert(self.trailers@[i as int].trailer_id@ != self.trailers@[k].trailer_id@);
                        }
                    }
                }
                return Some(!self.trailers[i].schedule.is_hot);
            }
            i = i + 1;
        }
        None
    }

    /// The broadcast that follows a confirmed write setting trailer `id` to `hot`.
    /// It is built while the channel is open; otherwise it is dropped with
    /// `ChannelNotOpen`. The store is left as it is either way.
    pub fn broadcast_for_write(&self, id: &str, hot: bool) -> (r: Result<String, DispatchError>)
        ensures
            self.connection != ConnectionState::Open ==> r == Err::<String, DispatchError>(DispatchError::ChannelNotOpen),
            self.connection == ConnectionState::Open ==> (r matches Ok(f) && f@ == broadcast_text(json_quoted(id@), hot)),
    {
        if self.connection != ConnectionState::Open {
            return Err(DispatchError::ChannelNotOpen);
        }
        Ok(encode_broadcast(id, hot))
    }

    /// Takes in the outcome of a write setting trailer `id` to `hot`. A failed write
    /// is marked on the store for the user to see (an `Unauthorized` one also ends
    /// the session) and nothing is broadcast. A successful one clears that mark and
    /// yields the broadcast as `broadcast_for_write` does. The trailers are not
    /// touched: the new state arrives as an event.
    pub fn finish_write(&mut self, id: &str, hot: bool, outcome: Result<(), FetchError>) -> (r: Result<String, DispatchError>)
        requires
            old(self).wf(),
        ensures
            final(self).wf(),
            keeps_channel(*old(self), *final(self)),
            final(self).trailers == old(self).trailers,
            final(self).connection == old(self).connection,
            final(self).channel_created == old(self).channel_created,
            final(self).retries == old(self).retries,
            match outcome {
                Ok(()) => {
                    &&& final(self).failed_write is None
                    &&& final(self).user == old(self).user
                    &&& final(self).current_view == old(self).current_view
                    &&& old(self).connection != ConnectionState::Open ==> r == Err::<String, DispatchError>(DispatchError::ChannelNotOpen)
                    &&& old(self).connection == ConnectionState::Open ==> (r matches Ok(f) && f@ == broadcast_text(json_quoted(id@), hot))
                },
                Err(e) => {
                    &&& r == Err::<String, DispatchError>(DispatchError::WriteFailed)
                    &&& final(self).failed_write matches Some(f) && f@ == id@
                    &&& e == FetchError::Unauthorized ==> final(self).user is None && final(self).current_view@ == "login"@
                    &&& e != FetchError::Unauthorized ==> final(self).user == old(self).user && final(self).current_view == old(self).current_view
                },
            },
    {
        match outcome {
            Ok(()) => {
                self.failed_write = None;
                self.broadcast_for_write(id, hot)
            },
            Err(e) => {
                if e == FetchError::Unauthorized {
                    self.log_out();
                }
                self.failed_write = Some(String::from_str(id));
                Err(DispatchError::WriteFailed)
            },
        }
    }
}

/// Once built, the push channel stays built along any run of store states whose
/// steps never drop it.
pub proof fn lemma_channel_stays_built(run: Seq<GlobalState>, a: int, b: int)
    requires
        forall|k: int| 0 < k < run.len() ==> #[trigger] keeps_channel(run[k - 1], run[k]),
        0 <= a <= b < run.len(),
        run[a].channel_created,
    ensures
        run[b].channel_created,
    decreases b - a,
{
    if a < b {
        lemma_channel_stays_built(run, a, b - 1);
        assert(keeps_channel(run[b - 1], run[b]));
    }
}

/// The bootstrap guard builds the push channel at most once: along any run of store
/// states whose steps never drop a built channel (every operation of the store
/// keeps `channel_created`, see their contracts), no two steps build it, however
/// often the trailers go from empty to non-empty.
pub proof fn lemma_channel_built_at_most_once(run: Seq<GlobalState>, i: int, j: int)
    requires
        forall|k: int| 0 < k < run.len() ==> #[trigger] keeps_channel(run[k - 1], run[k]),
        0 <= i < j,
        j + 1 < run.len(),
    ensures
        !(channel_built(run[i], run[i + 1]) && channel_built(run[j], run[j + 1])),
{
    if channel_built(run[i], run[i + 1]) {
        lemma_channel_stays_built(run, i + 1, j);
    }
}

/// Which screen the router shows for the store.
#[allow(non_snake_case)]
pub fn Router(state: &GlobalState) -> (r: Screen)
    ensures
        r == screen_of(*state),
{
    let landing = String::from_str("landing");
    match &state.user {
        None => Screen::Login,
        Some(_) => if state.current_view == landing {
            Screen::Trailers
        } else {
            Screen::NotFound
        },
    }
}

/// The heading of the page shown for an unknown view.
#[allow(non_snake_case)]
pub fn NotFound() -> (r: String)
    ensures
        r@ == "Page Not Found"@,
{
    String::from_str("Page Not Found")
}

/// The store an application session starts with: no user, the login view, no
/// trailers, no channel.
#[allow(non_snake_case)]
pub fn App() -> (r: GlobalState)
    ensures
        r.wf(),
        r.user is None,
        r.current_view@ == "login"@,
        r.trailers@.len() == 0,
        r.connection == ConnectionState::Closed,
        !r.channel_created,
{
    GlobalState::new()
}

} // verus!
