//! The model of one call of the embedding client: the retry policy, over
//! plain values.
//!
//! A call is a sequence of moves, each answered by an outcome. The model
//! says, for every state of a call and every outcome, what the next state
//! and the next move are ([`Retry::next`]), and from that what the whole
//! sequence of moves is when the service answers in a given way
//! ([`create_embedding`]).

use crate::text::decimal;
use vstd::prelude::*;

verus! {

/// The model that every embedding is asked of.
pub const EMBEDDING_MODEL: &'static str = "text-embedding-3-large";

/// The number of requests that are made for one text before the call fails.
pub const MAX_ATTEMPTS: usize = 3;

/// The pause between a failed request and the next one, in seconds. It is
/// the same after every failure.
pub const RETRY_DELAY_SECS: u64 = 2;

/// Where a call stands.
#[derive(Debug, Clone, Copy)]
pub enum Stage {
    /// A request is on its way.
    Requesting,
    /// The pause before the next request is being taken.
    Pausing,
    /// The call has ended, well or not.
    Finished,
}

/// A move of the model: what the caller is to do next.
pub enum RetryCall<V> {
    /// Ask the service for the embedding of `input` under `model`.
    Request { model: Seq<char>, input: Seq<char> },
    /// Wait for `seconds` seconds.
    Pause { seconds: nat },
    /// Nothing more: the call has ended with this result.
    Finish(Result<V, Seq<char>>),
}

/// An outcome in the model: what came of a move.
pub enum RetryReply<V> {
    /// The service answered the request, with the vector or with a failure.
    Responded(Result<V, Seq<char>>),
    /// The pause is over.
    Paused,
}

/// The report of a call that has used up its attempts: it states the number
/// of attempts and ends with the description of the last failure.
pub open spec fn exhausted_report(why: Seq<char>) -> Seq<char> {
    "Не удалось создать эмбеддинг после "@ + decimal(MAX_ATTEMPTS as nat) + " попыток: "@ + why
}

/// The model of a call: the text, how far the call has come, and the number
/// of requests that have failed.
pub struct Retry {
    pub text: Seq<char>,
    pub stage: Stage,
    pub failed: nat,
}

impl Retry {
    /// What holds of every call: while it goes on, an attempt is left, and a
    /// pause is taken only after a failure.
    pub open spec fn wf(self) -> bool {
        match self.stage {
            Stage::Requesting => self.failed < MAX_ATTEMPTS,
            Stage::Pausing => 1 <= self.failed < MAX_ATTEMPTS,
            Stage::Finished => self.failed <= MAX_ATTEMPTS,
        }
    }

    /// The call for `text` at its start, with the first request on its way.
    pub open spec fn begin(text: Seq<char>) -> Retry {
        Retry { text, stage: Stage::Requesting, failed: 0 }
    }

    /// The request of the call, which is the same at every attempt.
    pub open spec fn request<V>(self) -> RetryCall<V> {
        RetryCall::Request { model: EMBEDDING_MODEL@, input: self.text }
    }

    /// One step: the call after `reply`, and the next move. A vector ends the
    /// call. A failure is followed by a pause and another request, unless it
    /// was the last attempt: then the call ends with the report of that
    /// failure. A reply that does not answer the outstanding move is ignored:
    /// the call stays as it is and there is no new move.
    pub open spec fn next<V>(self, reply: RetryReply<V>) -> (Retry, Option<RetryCall<V>>) {
        match (self.stage, reply) {
            (Stage::Requesting, RetryReply::Responded(Ok(vector))) => (
                Retry { stage: Stage::Finished, ..self },
                Some(RetryCall::Finish(Ok(vector))),
            ),
            (Stage::Requesting, RetryReply::Responded(Err(why))) => if self.failed + 1
                >= MAX_ATTEMPTS {
                (
                    Retry { stage: Stage::Finished, failed: self.failed + 1, ..self },
                    Some(RetryCall::Finish(Err(exhausted_report(why)))),
                )
            } else {
                (
                    Retry { stage: Stage::Pausing, failed: self.failed + 1, ..self },
                    Some(RetryCall::Pause { seconds: RETRY_DELAY_SECS as nat }),
                )
            },
            (Stage::Pausing, RetryReply::Paused) => (
                Retry { stage: Stage::Requesting, ..self },
                Some(self.request()),
            ),
            _ => (self, None),
        }
    }

    /// A bound on the number of steps that are left.
    pub open spec fn steps_left(self) -> nat {
        match self.stage {
            Stage::Requesting => (2 * (MAX_ATTEMPTS - self.failed)) as nat,
            Stage::Pausing => (2 * (MAX_ATTEMPTS - self.failed) + 1) as nat,
            Stage::Finished => 0,
        }
    }

    /// What comes of `call`, made while the call is in state `self`, where
    /// the service answers its requests with `responses`, the first request
    /// with the first of them. The end of the call has no outcome.
    pub open spec fn answer<V>(
        self,
        call: RetryCall<V>,
        responses: Seq<Result<V, Seq<char>>>,
    ) -> Option<RetryReply<V>> {
        match call {
            RetryCall::Request { .. } => Some(RetryReply::Responded(responses[self.failed as int])),
            RetryCall::Pause { .. } => Some(RetryReply::Paused),
            RetryCall::Finish(_) => None,
        }
    }

    /// The moves of a call from state `self` on, where `call` is outstanding
    /// and the service answers with `responses`: `call` first, the end of the
    /// call last.
    pub open spec fn history<V>(
        self,
        call: RetryCall<V>,
        responses: Seq<Result<V, Seq<char>>>,
    ) -> Seq<RetryCall<V>>
        decreases self.steps_left(),
        when self.wf()
    {
        match self.answer(call, responses) {
            None => seq![call],
            Some(reply) => match self.next(reply) {
                (after, Some(then)) => seq![call] + after.history(then, responses),
                (_, None) => seq![call],
            },
        }
    }
}

/// The moves of the whole call for `text`, in order, where the service
/// answers its requests with `responses`.
pub open spec fn create_embedding<V>(
    text: Seq<char>,
    responses: Seq<Result<V, Seq<char>>>,
) -> Seq<RetryCall<V>> {
    Retry::begin(text).history(Retry::begin(text).request(), responses)
}

} // verus!
