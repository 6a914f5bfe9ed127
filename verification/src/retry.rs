//! Retry decisions of the HTTP client: a request is sent at most
//! [`MAX_TRY`] times, and the first response ends the attempts.

use vstd::prelude::*;
use crate::params::same_text;

verus! {

/// How many times a request is tried before giving up.
pub const MAX_TRY: u32 = 5;

/// The kinds of request that the client knows how to send.
#[derive(PartialEq, Eq, Structural, Clone, Copy, Debug)]
pub enum RequestKind {
    Get,
    Post,
    Delete,
    Unsupported,
}

/// The kind of request that a method name selects.
pub open spec fn kind_of(method: Seq<char>) -> RequestKind {
    if method == "GET"@ {
        RequestKind::Get
    } else if method == "POST"@ {
        RequestKind::Post
    } else if method == "DELETE"@ {
        RequestKind::Delete
    } else {
        RequestKind::Unsupported
    }
}

/// Classifies a method name: `GET`, `POST` and `DELETE` are sent, any other is not.
pub fn request_kind(method: &str) -> (k: RequestKind)
    ensures
        k == kind_of(method@),
{
    if same_text(method, "GET") {
        RequestKind::Get
    } else if same_text(method, "POST") {
        RequestKind::Post
    } else if same_text(method, "DELETE") {
        RequestKind::Delete
    } else {
        RequestKind::Unsupported
    }
}

/// The state of a retry loop: how many attempts have failed so far.
#[derive(PartialEq, Eq, Structural, Clone, Copy, Debug)]
pub struct RetryState {
    pub try_count: u32,
}

/// What the loop does next.
#[derive(PartialEq, Eq, Structural, Clone, Copy, Debug)]
pub enum RetryAction {
    /// Send the request of this kind.
    Send(RequestKind),
    /// Go round the loop again without sending: the method is not one the client sends.
    Idle,
    /// Stop and report that no response came.
    GiveUp,
}

/// What an attempt leads to.
#[derive(PartialEq, Eq, Structural, Clone, Copy, Debug)]
pub enum AttemptResult {
    /// A response came: hand it back.
    Respond,
    /// The attempt failed: continue from this state.
    Continue(RetryState),
}

/// The first state of the loop.
pub open spec fn initial_state() -> RetryState {
    RetryState { try_count: 0 }
}

/// The action taken in state `s` for a request of kind `k`.
pub open spec fn action_of(s: RetryState, k: RequestKind) -> RetryAction {
    if s.try_count < MAX_TRY {
        if k == RequestKind::Unsupported {
            RetryAction::Idle
        } else {
            RetryAction::Send(k)
        }
    } else {
        RetryAction::GiveUp
    }
}

/// The result of an attempt made in state `s`.
pub open spec fn result_of(s: RetryState, succeeded: bool) -> AttemptResult {
    if succeeded {
        AttemptResult::Respond
    } else {
        AttemptResult::Continue(RetryState { try_count: (s.try_count + 1) as u32 })
    }
}

impl RetryState {
    /// The state before the first attempt.
    pub fn new() -> (s: Self)
        ensures
            s == initial_state(),
    {
        RetryState { try_count: 0 }
    }

    /// Decides what to do next for a request of kind `kind`.
    pub fn next_action(&self, kind: RequestKind) -> (a: RetryAction)
        ensures
            a == action_of(*self, kind),
    {
        if self.try_count < MAX_TRY {
            match kind {
                RequestKind::Unsupported => RetryAction::Idle,
                _ => RetryAction::Send(kind),
            }
        } else {
            RetryAction::GiveUp
        }
    }

    /// Records the outcome of an attempt that was sent in this state.
    pub fn after_attempt(&self, succeeded: bool) -> (r: AttemptResult)
        requires
            self.try_count < MAX_TRY,
        ensures
            r == result_of(*self, succeeded),
    {
        if succeeded {
            AttemptResult::Respond
        } else {
            AttemptResult::Continue(RetryState { try_count: self.try_count + 1 })
        }
    }
}

/// Drives the loop from state `s` for a sendable request, with `outcomes[i]`
/// the outcome of the `i`-th attempt; gives the number of attempts made and
/// whether a response came. `None` if the outcomes run out first.
pub open spec fn run_attempts(s: RetryState, k: RequestKind, outcomes: Seq<bool>) -> Option<(nat, bool)>
    decreases outcomes.len(),
{
    match action_of(s, k) {
        RetryAction::GiveUp => Some((0nat, false)),
        RetryAction::Idle => None,
        RetryAction::Send(_) => if outcomes.len() == 0 {
            None
        } else {
            match result_of(s, outcomes[0]) {
                AttemptResult::Respond => Some((1nat, true)),
                AttemptResult::Continue(next) => match run_attempts(next, k, outcomes.drop_first()) {
                    Some((n, ok)) => Some((n + 1, ok)),
                    None => None,
                },
            }
        },
    }
}

/// The position of the first success among the outcomes, or their length.
pub open spec fn first_success(outcomes: Seq<bool>) -> nat
    decreases outcomes.len(),
{
    if outcomes.len() == 0 {
        0
    } else if outcomes[0] {
        0
    } else {
        1 + first_success(outcomes.drop_first())
    }
}

/// A request of a kind the client sends is tried until the first response,
/// and at most [`MAX_TRY`] times: with at least `MAX_TRY` outcomes, the loop
/// makes `min(first success + 1, MAX_TRY)` attempts and reports a response
/// exactly when one of the first `MAX_TRY` attempts succeeds.
pub proof fn law_retry_bound(k: RequestKind, outcomes: Seq<bool>)
    requires
        k != RequestKind::Unsupported,
        outcomes.len() >= MAX_TRY,
    ensures
        run_attempts(initial_state(), k, outcomes) == if first_success(outcomes) < MAX_TRY {
            Some(((first_success(outcomes) + 1) as nat, true))
        } else {
            Some((MAX_TRY as nat, false))
        },
{
    lemma_run_from(0, k, outcomes);
}

proof fn lemma_run_from(c: u32, k: RequestKind, outcomes: Seq<bool>)
    requires
        k != RequestKind::Unsupported,
        c <= MAX_TRY,
        outcomes.len() >= MAX_TRY - c,
    ensures
        run_attempts(RetryState { try_count: c }, k, outcomes) == if first_success(outcomes) < MAX_TRY - c {
            Some(((first_success(outcomes) + 1) as nat, true))
        } else {
            Some(((MAX_TRY - c) as nat, false))
        },
    decreases MAX_TRY - c,
{
    if c < MAX_TRY {
        if !outcomes[0] {
            lemma_run_from((c + 1) as u32, k, outcomes.drop_first());
        }
    }
}

/// A request whose method the client does not send never leaves the loop:
/// in every state before the limit the loop goes round without sending and
/// without counting an attempt, and it starts before the limit.
pub proof fn law_unsupported_method_spins(s: RetryState)
    requires
        s.try_count < MAX_TRY,
    ensures
        action_of(s, RequestKind::Unsupported) == RetryAction::Idle,
        action_of(initial_state(), RequestKind::Unsupported) == RetryAction::Idle,
{
}

} // verus!
