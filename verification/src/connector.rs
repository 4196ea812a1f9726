//! The connector: bounded retry over an ordered list of endpoints. It
//! decides which endpoint to dial next and when to give up; the caller
//! performs each handshake and reports how it went.

use vstd::prelude::*;

verus! {

/// Number of passes over the endpoint list before the connector gives up.
pub const MAX_RETRY: u64 = 5;

/// Why no connection could be made.
#[derive(Clone, Copy, Debug, PartialEq, Eq)]
pub enum ConnectError {
    /// The credentials named no server.
    NoEndpointsAvailable,
    /// Every pass over the list failed.
    MaxRetryExceeded,
}

/// Where the connector stands: the pass it is in and the next endpoint of
/// that pass.
#[derive(Clone, Copy, Debug, PartialEq, Eq)]
pub struct Cursor {
    pub pass: u64,
    pub index: usize,
}

/// How far a connector has come.
#[derive(Clone, Copy, Debug, PartialEq, Eq)]
pub enum ConnectPhase {
    Trying,
    Connected,
    Failed(ConnectError),
}

/// What the caller is to do next.
#[derive(Debug, PartialEq)]
pub enum ConnectStep {
    /// Attempt a handshake against this endpoint and report the outcome.
    Dial { endpoint: usize, url: url::Url },
    /// This endpoint is no absolute URL: the attempt at it has failed
    /// without a handshake, and the connector has moved on.
    Unusable { endpoint: usize },
    /// The handshake against this endpoint succeeded; nothing is left to do.
    Connected { endpoint: usize },
    /// No connection can be made.
    GiveUp(ConnectError),
}

/// `url::Url`, handed on to whoever dials and not looked into.
#[verifier::external_type_specification]
#[verifier::external_body]
pub struct ExUrl(url::Url);

/// `url::ParseError`, of which nothing is read.
#[verifier::external_type_specification]
#[verifier::external_body]
pub struct ExUrlParseError(url::ParseError);

/// What `url::Url::parse` makes of a text: the URL, or `None` where the text
/// is no absolute URL.
pub uninterp spec fn parsed_url(text: Seq<char>) -> Option<url::Url>;

/// `url::Url::parse`: the outcome depends on the text alone.
#[verifier::external_body]
fn parse_url(text: &str) -> (r: Result<url::Url, url::ParseError>)
    ensures
        match r {
            Ok(url) => parsed_url(text@) == Some(url),
            Err(_) => parsed_url(text@) is None,
        },
{
    url::Url::parse(text)
}

impl Cursor {
    /// The cursor before the first attempt.
    pub open spec fn start() -> Cursor {
        Cursor { pass: 0, index: 0 }
    }

    /// Whether another attempt is due with `len` endpoints in the list.
    pub open spec fn due(self, len: nat) -> bool {
        self.pass < MAX_RETRY && self.index < len
    }

    /// The cursor after the attempt at this one has failed: the next endpoint
    /// of the same pass, or the first of the next pass. Where no attempt is
    /// due it stays.
    pub open spec fn failed(self, len: nat) -> Cursor {
        if !self.due(len) {
            self
        } else if self.index + 1 < len {
            Cursor { pass: self.pass, index: (self.index + 1) as usize }
        } else {
            Cursor { pass: (self.pass + 1) as u64, index: 0 }
        }
    }

    /// Number of attempts that lie before this cursor.
    pub open spec fn attempts_made(self, len: nat) -> nat {
        self.pass as nat * len + self.index as nat
    }
}

/// Number of attempts in `MAX_RETRY` full passes over `len` endpoints.
pub open spec fn attempt_limit(len: nat) -> nat {
    MAX_RETRY as nat * len
}

/// The cursor after `k` failed attempts in a row, from the start.
pub open spec fn after_failures(len: nat, k: nat) -> Cursor
    decreases k,
{
    if k == 0 {
        Cursor::start()
    } else {
        after_failures(len, (k - 1) as nat).failed(len)
    }
}

/// After `k` failures the connector has made `k` attempts, and it goes on
/// exactly while `k` is below `MAX_RETRY` full passes.
pub proof fn lemma_after_failures(len: nat, k: nat)
    requires
        len <= usize::MAX,
        k <= attempt_limit(len),
    ensures
        after_failures(len, k).attempts_made(len) == k,
        after_failures(len, k).due(len) <==> k < attempt_limit(len),
        k < attempt_limit(len) ==> after_failures(len, k).index < len,
        k == attempt_limit(len) && len > 0 ==> after_failures(len, k) == (Cursor {
            pass: MAX_RETRY,
            index: 0,
        }),
    decreases k,
{
    let limit = MAX_RETRY as nat;
    if k > 0 {
        lemma_after_failures(len, (k - 1) as nat);
        let before = after_failures(len, (k - 1) as nat);
        let after = before.failed(len);
        let p = before.pass as nat;
        assert(before.due(len));
        assert(before.attempts_made(len) == p * len + before.index);
        assert((p + 1) * len == p * len + len) by (nonlinear_arith);
        assert((p + 1) * len <= limit * len) by (nonlinear_arith)
            requires
                p + 1 <= limit,
        ;
        if before.index + 1 < len {
            assert(after.pass == before.pass);
            assert(after.attempts_made(len) == p * len + (before.index + 1));
        } else {
            assert(after.pass as nat == p + 1);
            assert(after.index == 0);
            assert(after.attempts_made(len) == (p + 1) * len + 0);
            assert(k == (p + 1) * len);
            if p + 1 < limit {
                assert((p + 1) * len + len <= limit * len) by (nonlinear_arith)
                    requires
                        p + 2 <= limit,
                ;
            }
        }
    } else {
        assert(0 * len == 0) by (nonlinear_arith);
        if len > 0 {
            assert(0 < limit * len) by (nonlinear_arith)
                requires
                    len > 0,
                    limit == 5,
            ;
        }
    }
}

/// A connector over an ordered list of endpoints.
#[derive(Debug)]
pub struct Connector {
    pub urls: Vec<String>,
    pub cursor: Cursor,
    pub phase: ConnectPhase,
}

impl Connector {
    /// What the caller is told next.
    pub open spec fn plan(self) -> ConnectStep {
        match self.phase {
            ConnectPhase::Connected => ConnectStep::Connected { endpoint: self.cursor.index },
            ConnectPhase::Failed(error) => ConnectStep::GiveUp(error),
            ConnectPhase::Trying => if !self.cursor.due(self.urls@.len()) {
                ConnectStep::GiveUp(ConnectError::MaxRetryExceeded)
            } else {
                match parsed_url(self.urls@[self.cursor.index as int]@) {
                    Some(url) => ConnectStep::Dial { endpoint: self.cursor.index, url },
                    None => ConnectStep::Unusable { endpoint: self.cursor.index },
                }
            },
        }
    }

    /// The connector once `plan` has been handed out: giving up is final,
    /// and an unusable endpoint counts as a failed attempt at once.
    pub open spec fn planned(self) -> Connector {
        match self.plan() {
            ConnectStep::GiveUp(error) => Connector { phase: ConnectPhase::Failed(error), ..self },
            ConnectStep::Unusable { .. } => self.reported(false),
            _ => self,
        }
    }

    /// The phase that a report of `connected` leads to. Only a connector
    /// that is trying and has an attempt due takes a report.
    pub open spec fn reported(self, connected: bool) -> Connector {
        if self.phase == ConnectPhase::Trying && self.cursor.due(self.urls@.len()) {
            if connected {
                Connector { phase: ConnectPhase::Connected, ..self }
            } else {
                Connector { cursor: self.cursor.failed(self.urls@.len()), ..self }
            }
        } else {
            self
        }
    }

    /// A connector before its first attempt.
    pub fn new(urls: Vec<String>) -> (connector: Connector)
        ensures
            connector.urls == urls,
            connector.cursor == Cursor::start(),
            connector.phase == ConnectPhase::Trying,
    {
        Connector { urls, cursor: Cursor { pass: 0, index: 0 }, phase: ConnectPhase::Trying }
    }

    /// Decides the next step. The endpoints are tried in the order of the
    /// list, pass after pass, and once the passes are used up the connector
    /// has failed for good.
    pub fn next_attempt(&mut self) -> (step: ConnectStep)
        ensures
            step == old(self).plan(),
            *final(self) == old(self).planned(),
    {
        match self.phase {
            ConnectPhase::Connected => ConnectStep::Connected { endpoint: self.cursor.index },
            ConnectPhase::Failed(error) => ConnectStep::GiveUp(error),
            ConnectPhase::Trying => {
                if self.cursor.pass >= MAX_RETRY || self.cursor.index >= self.urls.len() {
                    self.phase = ConnectPhase::Failed(ConnectError::MaxRetryExceeded);
                    return ConnectStep::GiveUp(ConnectError::MaxRetryExceeded);
                }
                let endpoint = self.cursor.index;
                match parse_url(self.urls[endpoint].as_str()) {
                    Ok(url) => ConnectStep::Dial { endpoint, url },
                    Err(_) => {
                        self.report(false);
                        ConnectStep::Unusable { endpoint }
                    },
                }
            },
        }
    }

    /// Takes the outcome of the handshake that was last asked for. After a
    /// success no endpoint is dialed again; after a failure the next endpoint
    /// is due, the same one only in a later pass.
    pub fn report(&mut self, connected: bool)
        ensures
            *final(self) == old(self).reported(connected),
    {
        match self.phase {
            ConnectPhase::Trying => {
                if self.cursor.pass < MAX_RETRY && self.cursor.index < self.urls.len() {
                    if connected {
                        self.phase = ConnectPhase::Connected;
                    } else if self.cursor.index + 1 < self.urls.len() {
                        self.cursor.index = self.cursor.index + 1;
                    } else {
                        self.cursor.pass = self.cursor.pass + 1;
                        self.cursor.index = 0;
                    }
                }
            },
            _ => {},
        }
    }
}

/// The connector over `urls` after `k` failed attempts in a row.
pub open spec fn after_failed_attempts(urls: Vec<String>, k: nat) -> Connector {
    Connector { urls, cursor: after_failures(urls@.len(), k), phase: ConnectPhase::Trying }
}

/// Whether attempt number `k` gets through: the endpoint whose turn it is
/// is an absolute URL, and the handshake of attempt `k` is among
/// `successes`.
pub open spec fn gets_through(urls: Vec<String>, successes: Set<nat>, k: nat) -> bool {
    after_failed_attempts(urls, k).plan() is Dial && successes.contains(k)
}

/// The connector as a run leaves it: from attempt number `k` on, each step
/// that `plan` asks for is taken, the handshake of attempt `j` succeeding
/// exactly where `successes` holds `j`, until `plan` asks for no further
/// attempt.
pub open spec fn driven(connector: Connector, successes: Set<nat>, k: nat) -> Connector
    decreases attempt_limit(connector.urls@.len()) - k,
{
    if k >= attempt_limit(connector.urls@.len()) {
        connector
    } else {
        match connector.plan() {
            ConnectStep::Dial { .. } => driven(
                connector.planned().reported(successes.contains(k)),
                successes,
                k + 1,
            ),
            ConnectStep::Unusable { .. } => driven(connector.planned(), successes, k + 1),
            _ => connector,
        }
    }
}

/// A run passes over the attempts that fail, endpoint after endpoint and
/// pass after pass.
proof fn lemma_driven_skips_failures(urls: Vec<String>, successes: Set<nat>, k: nat, from: nat)
    requires
        from <= k <= attempt_limit(urls@.len()),
        forall|j: nat| from <= j < k ==> !gets_through(urls, successes, j),
    ensures
        driven(after_failed_attempts(urls, from), successes, from) == driven(
            after_failed_attempts(urls, k),
            successes,
            k,
        ),
    decreases k - from,
{
    assert(urls@.len() == urls.len());
    if from < k {
        lemma_after_failures(urls@.len(), from);
        let here = after_failed_attempts(urls, from);
        assert(!gets_through(urls, successes, from));
        assert(here.plan() is Dial || here.plan() is Unusable);
        assert(here.reported(false) == after_failed_attempts(urls, from + 1));
        lemma_driven_skips_failures(urls, successes, k, from + 1);
    }
}

/// The connector ends connected at the first attempt that gets through, at
/// the endpoint whose turn it is then, and tries nothing after it: with `k`
/// the number of that attempt, the `k` attempts before it have walked the
/// list in order, pass after pass.
pub proof fn lemma_first_success_wins(urls: Vec<String>, successes: Set<nat>, k: nat)
    requires
        k < attempt_limit(urls@.len()),
        gets_through(urls, successes, k),
        forall|j: nat| j < k ==> !gets_through(urls, successes, j),
    ensures
        driven(after_failed_attempts(urls, 0), successes, 0) == (Connector {
            phase: ConnectPhase::Connected,
            ..after_failed_attempts(urls, k)
        }),
        after_failures(urls@.len(), k).attempts_made(urls@.len()) == k,
        after_failures(urls@.len(), k).index < urls@.len(),
        after_failed_attempts(urls, k).plan()->Dial_endpoint == after_failures(
            urls@.len(),
            k,
        ).index,
{
    assert(urls@.len() == urls.len());
    lemma_after_failures(urls@.len(), k);
    lemma_driven_skips_failures(urls, successes, k, 0);
    let here = after_failed_attempts(urls, k);
    let connected = Connector { phase: ConnectPhase::Connected, ..here };
    assert(here.plan() is Dial);
    assert(here.planned().reported(true) == connected);
    assert(connected.plan() is Connected);
    assert(driven(connected, successes, k + 1) == connected);
}

/// Where no attempt gets through, the connector gives up with
/// `MaxRetryExceeded` after exactly `MAX_RETRY` full passes over the list:
/// it tries an endpoint at each of the `MAX_RETRY * len` attempts and none
/// after.
pub proof fn lemma_gives_up_after_max_retry(urls: Vec<String>, successes: Set<nat>)
    requires
        forall|j: nat| j < attempt_limit(urls@.len()) ==> !gets_through(urls, successes, j),
    ensures
        driven(after_failed_attempts(urls, 0), successes, 0) == after_failed_attempts(
            urls,
            attempt_limit(urls@.len()),
        ),
        after_failed_attempts(urls, attempt_limit(urls@.len())).plan() == ConnectStep::GiveUp(
            ConnectError::MaxRetryExceeded,
        ),
        after_failures(urls@.len(), attempt_limit(urls@.len())).attempts_made(urls@.len())
            == MAX_RETRY * urls@.len(),
        forall|k: nat|
            k < attempt_limit(urls@.len()) ==> (#[trigger] after_failed_attempts(
                urls,
                k,
            )).cursor.due(urls@.len()),
{
    let len = urls@.len();
    assert(len == urls.len());
    lemma_after_failures(len, attempt_limit(len));
    lemma_driven_skips_failures(urls, successes, attempt_limit(len), 0);
    assert forall|k: nat| k < attempt_limit(len) implies (#[trigger] after_failed_attempts(
        urls,
        k,
    )).cursor.due(len) by {
        lemma_after_failures(len, k);
    }
}

/// The turn order: attempt number `k` belongs to pass `k / len` and goes to
/// endpoint `k % len`, so that each pass walks the whole list once, in its
/// order, before any endpoint is tried again.
pub proof fn lemma_turn_order(len: nat, k: nat)
    requires
        len <= usize::MAX,
        k < attempt_limit(len),
    ensures
        len > 0,
        after_failures(len, k).pass == k / len,
        after_failures(len, k).index == k % len,
{
    lemma_after_failures(len, k);
    let cursor = after_failures(len, k);
    vstd::arithmetic::div_mod::lemma_fundamental_div_mod_converse(
        k as int,
        len as int,
        cursor.pass as int,
        cursor.index as int,
    );
}

/// Once connected, a connector dials no more, whatever is reported to it.
pub proof fn lemma_no_attempt_after_success(connector: Connector, connected: bool)
    requires
        connector.phase == ConnectPhase::Connected,
    ensures
        connector.plan() == (ConnectStep::Connected { endpoint: connector.cursor.index }),
        connector.reported(connected) == connector,
{
}

} // verus!
