//! The market-data session as a state machine: the caller performs the
//! transport work and reports what happened; the session decides what comes
//! next.

use vstd::prelude::*;
use vstd::string::*;

verus! {

/// A connection older than this many seconds is replaced.
pub const MAX_CONNECTION_AGE_SECS: u64 = 43200;

/// Consecutive transport failures tolerated before giving up.
pub const MAX_RETRIES: u32 = 5;

/// Wait before the first retry, doubled for each further one.
pub const BASE_RETRY_DELAY_MS: u64 = 1000;

#[derive(Clone, Copy, Debug, PartialEq, Eq, Structural)]
pub enum SessionState {
    Disconnected,
    Connected,
    Subscribed,
    Streaming,
}

/// What the caller does after a message was dispatched.
#[derive(Clone, Copy, Debug, PartialEq, Eq, Structural)]
pub enum SessionAction {
    /// Read the next message.
    Continue,
    /// Tear the connection down, connect again and subscribe again first.
    Reconnect,
}

/// What the caller does after a transport failure.
#[derive(Clone, Copy, Debug, PartialEq, Eq, Structural)]
pub enum FailureAction {
    /// Connect again after waiting this many milliseconds.
    Retry(u64),
    /// Give up and report the failure.
    Fatal,
}

#[derive(Clone, Copy, Debug, PartialEq, Eq, Structural)]
pub enum SessionError {
    /// The operation needs a live connection.
    NotConnected,
    /// Messages are dispatched only once the channels are subscribed.
    NotSubscribed,
}

pub struct Session {
    pub state: SessionState,
    /// When the current connection was made, in seconds on the caller's clock.
    pub connected_at: u64,
    /// Consecutive transport failures since the last successful connect.
    pub failures: u32,
    /// The channels to follow.
    pub channels: Vec<String>,
}

/// The channel names, each in double quotes, separated by commas.
pub open spec fn quoted_list(cs: Seq<String>) -> Seq<char>
    decreases cs.len(),
{
    if cs.len() == 0 {
        Seq::empty()
    } else if cs.len() == 1 {
        "\""@ + cs[0]@ + "\""@
    } else {
        quoted_list(cs.drop_last()) + ",\""@ + cs.last()@ + "\""@
    }
}

/// The control message that subscribes to `cs`.
pub open spec fn subscription_text(cs: Seq<String>) -> Seq<char> {
    "{\"method\":\"SUBSCRIBE\",\"params\":["@ + quoted_list(cs) + "],\"id\":1}"@
}

/// The channels are subscribed on the live connection.
pub open spec fn is_subscribed(state: SessionState) -> bool {
    state == SessionState::Subscribed || state == SessionState::Streaming
}

/// Seconds from `connected_at` to `now`; zero if the clock reads earlier.
pub open spec fn age(connected_at: u64, now: u64) -> int {
    if now >= connected_at {
        now - connected_at
    } else {
        0
    }
}

pub open spec fn pow2(n: nat) -> nat
    decreases n,
{
    if n == 0 {
        1
    } else {
        2 * pow2((n - 1) as nat)
    }
}

/// The wait before retry number `attempt` (counting from zero).
pub open spec fn retry_delay(attempt: nat) -> int {
    BASE_RETRY_DELAY_MS * pow2(attempt)
}

/// The control message that subscribes to `channels`.
pub fn subscription_message(channels: &Vec<String>) -> (r: String)
    ensures
        r@ == subscription_text(channels@),
{
    let mut list = String::new();
    let mut i: usize = 0;
    while i < channels.len()
        invariant
            i <= channels@.len(),
            list@ == quoted_list(channels@.subrange(0, i as int)),
        decreases channels@.len() - i,
    {
        let ghost before = channels@.subrange(0, i as int);
        let ghost after = channels@.subrange(0, i + 1);
        assert(after.drop_last() =~= before);
        if i == 0 {
            list.append("\"");
        } else {
            list.append(",\"");
        }
        list.append(channels[i].as_str());
        list.append("\"");
        i = i + 1;
    }
    assert(channels@.subrange(0, channels@.len() as int) =~= channels@);
    let mut s = String::from_str("{\"method\":\"SUBSCRIBE\",\"params\":[");
    s.append(list.as_str());
    s.append("],\"id\":1}");
    s
}

/// The wait before retry number `attempt`, while retries remain.
pub fn retry_delay_ms(attempt: u32) -> (r: Option<u64>)
    ensures
        attempt < MAX_RETRIES ==> r == Some(retry_delay(attempt as nat) as u64),
        attempt >= MAX_RETRIES ==> r is None,
{
    if attempt >= MAX_RETRIES {
        return None;
    }
    let mut d: u64 = BASE_RETRY_DELAY_MS;
    let mut k: u32 = 0;
    while k < attempt
        invariant
            k <= attempt < MAX_RETRIES,
            d == retry_delay(k as nat),
        decreases attempt - k,
    {
        assert(retry_delay((k + 1) as nat) == 2 * retry_delay(k as nat)) by (nonlinear_arith)
            requires pow2((k + 1) as nat) == 2 * pow2(k as nat);
        assert(pow2(k as nat) <= 16) by {
            reveal_with_fuel(pow2, 5);
        }
        d = d * 2;
        k = k + 1;
    }
    Some(d)
}

impl Session {
    /// A session that follows `channels`, not yet connected.
    pub fn new(channels: Vec<String>) -> (r: Session)
        ensures
            r.state == SessionState::Disconnected,
            r.connected_at == 0,
            r.failures == 0,
            r.channels@ == channels@,
    {
        Session { state: SessionState::Disconnected, connected_at: 0, failures: 0, channels }
    }

    /// The transport is connected at time `now`: the connection's age starts
    /// there and past failures are forgotten.
    pub fn on_connected(&mut self, now: u64)
        ensures
            final(self).state == SessionState::Connected,
            final(self).connected_at == now,
            final(self).failures == 0,
            final(self).channels@ == old(self).channels@,
    {
        self.state = SessionState::Connected;
        self.connected_at = now;
        self.failures = 0;
    }

    /// The subscription message to send, or `NotConnected` when there is no
    /// connection to send it on.
    pub fn subscribe(&mut self) -> (r: Result<String, SessionError>)
        ensures
            old(self).state == SessionState::Disconnected ==> {
                &&& r == Err::<String, SessionError>(SessionError::NotConnected)
                &&& final(self).state == old(self).state
            },
            old(self).state != SessionState::Disconnected ==> {
                &&& r matches Ok(s) && s@ == subscription_text(old(self).channels@)
                &&& final(self).state == SessionState::Subscribed
            },
            final(self).connected_at == old(self).connected_at,
            final(self).failures == old(self).failures,
            final(self).channels@ == old(self).channels@,
    {
        if self.state == SessionState::Disconnected {
            return Err(SessionError::NotConnected);
        }
        let msg = subscription_message(&self.channels);
        self.state = SessionState::Subscribed;
        Ok(msg)
    }

    /// A message was received at time `now`. Only a subscribed session
    /// dispatches it: a session without a connection answers `NotConnected`,
    /// one that is connected but not yet subscribed answers `NotSubscribed`.
    /// Past the maximum connection age the connection is torn down and
    /// `Reconnect` is returned, so that no further message is dispatched
    /// before a new connect and subscribe.
    pub fn on_message(&mut self, now: u64) -> (r: Result<SessionAction, SessionError>)
        ensures
            old(self).state == SessionState::Disconnected ==> r == Err::<SessionAction, SessionError>(
                SessionError::NotConnected,
            ),
            old(self).state == SessionState::Connected ==> r == Err::<SessionAction, SessionError>(
                SessionError::NotSubscribed,
            ),
            r is Err ==> final(self).state == old(self).state,
            is_subscribed(old(self).state) && age(old(self).connected_at, now) > MAX_CONNECTION_AGE_SECS
                ==> {
                &&& r == Ok::<SessionAction, SessionError>(SessionAction::Reconnect)
                &&& final(self).state == SessionState::Disconnected
            },
            is_subscribed(old(self).state) && age(old(self).connected_at, now) <= MAX_CONNECTION_AGE_SECS
                ==> {
                &&& r == Ok::<SessionAction, SessionError>(SessionAction::Continue)
                &&& final(self).state == SessionState::Streaming
            },
            final(self).connected_at == old(self).connected_at,
            final(self).failures == old(self).failures,
            final(self).channels@ == old(self).channels@,
    {
        match self.state {
            SessionState::Disconnected => {
                return Err(SessionError::NotConnected);
            },
            SessionState::Connected => {
                return Err(SessionError::NotSubscribed);
            },
            _ => {},
        }
        let age: u64 = if now >= self.connected_at { now - self.connected_at } else { 0 };
        if age > MAX_CONNECTION_AGE_SECS {
            self.state = SessionState::Disconnected;
            Ok(SessionAction::Reconnect)
        } else {
            self.state = SessionState::Streaming;
            Ok(SessionAction::Continue)
        }
    }

    /// A connect, read or send failed: the connection is gone. A transient
    /// failure is retried after a doubling delay until `MAX_RETRIES` have
    /// failed in a row; any other (an authentication or protocol failure)
    /// is fatal at once.
    pub fn on_failure(&mut self, transient: bool) -> (r: FailureAction)
        ensures
            final(self).state == SessionState::Disconnected,
            transient && old(self).failures < MAX_RETRIES ==> {
                &&& r == FailureAction::Retry(retry_delay(old(self).failures as nat) as u64)
                &&& final(self).failures == old(self).failures + 1
            },
            !transient || old(self).failures >= MAX_RETRIES ==> {
                &&& r == FailureAction::Fatal
                &&& final(self).failures == old(self).failures
            },
            final(self).connected_at == old(self).connected_at,
            final(self).channels@ == old(self).channels@,
    {
        self.state = SessionState::Disconnected;
        if !transient {
            return FailureAction::Fatal;
        }
        match retry_delay_ms(self.failures) {
            Some(d) => {
                self.failures = self.failures + 1;
                FailureAction::Retry(d)
            },
            None => FailureAction::Fatal,
        }
    }
}

} // verus!
