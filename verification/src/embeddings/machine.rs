//! The embedding client as a state machine that a caller drives.

use crate::embeddings::laws::lemma_retry_step;
use crate::embeddings::model::{
    exhausted_report, Retry, RetryCall, RetryReply, Stage, EMBEDDING_MODEL, MAX_ATTEMPTS,
    RETRY_DELAY_SECS,
};
use crate::text::push_decimal;
use vstd::prelude::*;
use vstd::string::*;

verus! {

/// A move of the machine: what the caller is to do next.
#[derive(Debug)]
pub enum EmbeddingAction<V> {
    /// Ask the service for the embedding of `input` under `model`.
    Request { model: String, input: String },
    /// Wait for `seconds` seconds.
    Pause { seconds: u64 },
    /// Nothing more: the call has ended with this result, the vector or the
    /// report of the failure.
    Finish(Result<V, String>),
}

/// What came of a move.
#[derive(Debug)]
pub enum EmbeddingEvent<V> {
    /// The service answered the request, with the vector or with the
    /// description of a failure.
    Responded(Result<V, String>),
    /// The pause is over.
    Paused,
}

impl<V> View for EmbeddingAction<V> {
    type V = RetryCall<V>;

    open spec fn view(&self) -> RetryCall<V> {
        match self {
            EmbeddingAction::Request { model, input } => RetryCall::Request {
                model: model@,
                input: input@,
            },
            EmbeddingAction::Pause { seconds } => RetryCall::Pause { seconds: *seconds as nat },
            EmbeddingAction::Finish(Ok(vector)) => RetryCall::Finish(Ok(*vector)),
            EmbeddingAction::Finish(Err(why)) => RetryCall::Finish(Err(why@)),
        }
    }
}

impl<V> View for EmbeddingEvent<V> {
    type V = RetryReply<V>;

    open spec fn view(&self) -> RetryReply<V> {
        match self {
            EmbeddingEvent::Responded(Ok(vector)) => RetryReply::Responded(Ok(*vector)),
            EmbeddingEvent::Responded(Err(why)) => RetryReply::Responded(Err(why@)),
            EmbeddingEvent::Paused => RetryReply::Paused,
        }
    }
}

/// The model's move for the machine's, where there is one.
pub open spec fn move_view<V>(action: Option<EmbeddingAction<V>>) -> Option<RetryCall<V>> {
    match action {
        Some(action) => Some(action@),
        None => None,
    }
}

/// The report of a call that has used up its attempts, from the description
/// of the last failure.
pub fn exhausted_failure(why: &str) -> (text: String)
    ensures
        text@ == exhausted_report(why@),
{
    let mut text = String::from_str("Не удалось создать эмбеддинг после ");
    push_decimal(&mut text, MAX_ATTEMPTS);
    text.append(" попыток: ");
    text.append(why);
    text
}

/// One call of the embedding client.
///
/// [`EmbeddingCall::start`] names the first request. The caller makes each
/// move and hands what came of it to [`EmbeddingCall::step`], which names the
/// next one, until the move is [`EmbeddingAction::Finish`].
pub struct EmbeddingCall {
    text: String,
    stage: Stage,
    failed: usize,
}

impl View for EmbeddingCall {
    type V = Retry;

    closed spec fn view(&self) -> Retry {
        Retry { text: self.text@, stage: self.stage, failed: self.failed as nat }
    }
}

impl EmbeddingCall {
    #[verifier::type_invariant]
    closed spec fn valid(self) -> bool {
        self@.wf()
    }

    /// The request for the embedding of `text`.
    fn request<V>(text: &String) -> (action: EmbeddingAction<V>)
        ensures
            action@ == (RetryCall::<V>::Request { model: EMBEDDING_MODEL@, input: text@ }),
    {
        EmbeddingAction::Request { model: String::from_str(EMBEDDING_MODEL), input: text.clone() }
    }

    /// The call for the embedding of `text`: the first move is the request.
    pub fn start<V>(text: String) -> (started: (EmbeddingCall, EmbeddingAction<V>))
        ensures
            started.0@ == Retry::begin(text@),
            started.0@.wf(),
            started.1@ == Retry::begin(text@).request::<V>(),
    {
        let action = EmbeddingCall::request(&text);
        (EmbeddingCall { text, stage: Stage::Requesting, failed: 0 }, action)
    }

    /// One step of the call: takes what came of the move that is outstanding,
    /// and names the next move. An event that does not answer the
    /// outstanding move is ignored: the call stays as it is, and there is no
    /// new move.
    pub fn step<V>(self, event: EmbeddingEvent<V>) -> (next: (
        EmbeddingCall,
        Option<EmbeddingAction<V>>,
    ))
        ensures
            (next.0@, move_view(next.1)) == self@.next(event@),
            next.0@.wf(),
    {
        proof {
            use_type_invariant(&self);
            lemma_retry_step(self@, event@);
        }
        let EmbeddingCall { text, stage, failed } = self;
        match stage {
            Stage::Requesting => match event {
                EmbeddingEvent::Responded(Ok(vector)) => (
                    EmbeddingCall { text, stage: Stage::Finished, failed },
                    Some(EmbeddingAction::Finish(Ok(vector))),
                ),
                EmbeddingEvent::Responded(Err(why)) => {
                    if failed + 1 >= MAX_ATTEMPTS {
                        let report = exhausted_failure(why.as_str());
                        (
                            EmbeddingCall { text, stage: Stage::Finished, failed: failed + 1 },
                            Some(EmbeddingAction::Finish(Err(report))),
                        )
                    } else {
                        (
                            EmbeddingCall { text, stage: Stage::Pausing, failed: failed + 1 },
                            Some(EmbeddingAction::Pause { seconds: RETRY_DELAY_SECS }),
                        )
                    }
                },
                EmbeddingEvent::Paused => (EmbeddingCall { text, stage, failed }, None),
            },
            Stage::Pausing => match event {
                EmbeddingEvent::Paused => {
                    let action = EmbeddingCall::request(&text);
                    (EmbeddingCall { text, stage: Stage::Requesting, failed }, Some(action))
                },
                EmbeddingEvent::Responded(_) => (EmbeddingCall { text, stage, failed }, None),
            },
            Stage::Finished => (EmbeddingCall { text, stage, failed }, None),
        }
    }

    /// Where the call stands.
    pub fn stage(&self) -> (stage: Stage)
        ensures
            stage == self@.stage,
    {
        self.stage
    }

    /// The number of requests that have failed so far.
    pub fn failed_attempts(&self) -> (count: usize)
        ensures
            count == self@.failed,
    {
        self.failed
    }
}

} // verus!
