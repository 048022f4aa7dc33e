//! What holds of every call of the embedding client, proved from the model.

use crate::embeddings::model::{
    create_embedding, exhausted_report, Retry, RetryCall, RetryReply, Stage, EMBEDDING_MODEL,
    MAX_ATTEMPTS, RETRY_DELAY_SECS,
};
use vstd::prelude::*;

verus! {

/// A step leaves a well-formed call well-formed, and brings it nearer to its
/// end unless the reply is ignored.
pub proof fn lemma_retry_step<V>(call: Retry, reply: RetryReply<V>)
    requires
        call.wf(),
    ensures
        call.next(reply).0.wf(),
        call.next(reply).0.text == call.text,
        call.next(reply).1 is Some ==> call.next(reply).0.steps_left() < call.steps_left(),
        call.next(reply).1 is None ==> call.next(reply).0 == call,
{
}

/// The moves of a call from a request on, in a state where `failed` requests
/// have failed: the request, and then what its response leads to.
proof fn lemma_history_of_request<V>(call: Retry, responses: Seq<Result<V, Seq<char>>>)
    requires
        call.wf(),
        call.stage is Requesting,
    ensures
        call.history(call.request(), responses) == seq![call.request::<V>()] + (
        match responses[call.failed as int] {
            Ok(vector) => seq![RetryCall::Finish(Ok(vector))],
            Err(why) => if call.failed + 1 >= MAX_ATTEMPTS {
                seq![RetryCall::Finish(Err(exhausted_report(why)))]
            } else {
                seq![RetryCall::Pause { seconds: RETRY_DELAY_SECS as nat }] + (Retry {
                    stage: Stage::Requesting,
                    failed: call.failed + 1,
                    ..call
                }).history(call.request(), responses)
            },
        }),
{
    let request = call.request::<V>();
    let reply = RetryReply::Responded(responses[call.failed as int]);
    assert(call.answer(request, responses) == Some(reply));
    let after = call.next(reply).0;
    let then = call.next(reply).1->Some_0;
    lemma_retry_step(call, reply);
    assert(call.history(request, responses) == seq![request] + after.history(then, responses));
    match responses[call.failed as int] {
        Ok(vector) => {
            assert(after.history(then, responses) == seq![then]);
        },
        Err(why) => {
            if call.failed + 1 >= MAX_ATTEMPTS {
                assert(after.history(then, responses) == seq![then]);
            } else {
                assert(after.answer(then, responses) == Some(RetryReply::<V>::Paused));
                let again = Retry { stage: Stage::Requesting, failed: call.failed + 1, ..call };
                assert(after.next(RetryReply::<V>::Paused) == (again, Some(request)));
                assert(after.history(then, responses) == seq![then] + again.history(
                    request,
                    responses,
                ));
            }
        },
    }
}

/// A service that fails every request is asked three times, with a pause of
/// two seconds after the first and after the second failure. Then the call
/// fails, with a report that states the number of attempts and ends with the
/// description of the last failure.
pub proof fn lemma_failing_service_is_asked_three_times<V>(
    text: Seq<char>,
    responses: Seq<Result<V, Seq<char>>>,
)
    requires
        responses.len() >= MAX_ATTEMPTS,
        forall|i: int| 0 <= i < MAX_ATTEMPTS ==> responses[i] is Err,
    ensures
        create_embedding(text, responses) == seq![
            RetryCall::<V>::Request { model: EMBEDDING_MODEL@, input: text },
            RetryCall::Pause { seconds: 2 },
            RetryCall::Request { model: EMBEDDING_MODEL@, input: text },
            RetryCall::Pause { seconds: 2 },
            RetryCall::Request { model: EMBEDDING_MODEL@, input: text },
            RetryCall::Finish(Err(exhausted_report(responses[2]->Err_0))),
        ],
{
    let first = Retry::begin(text);
    let second = Retry { failed: 1, ..first };
    let third = Retry { failed: 2, ..first };
    assert(responses[0] is Err && responses[1] is Err && responses[2] is Err);
    lemma_history_of_request(first, responses);
    lemma_history_of_request(second, responses);
    lemma_history_of_request(third, responses);
    assert(create_embedding(text, responses) =~= seq![
        RetryCall::<V>::Request { model: EMBEDDING_MODEL@, input: text },
        RetryCall::Pause { seconds: 2 },
        RetryCall::Request { model: EMBEDDING_MODEL@, input: text },
        RetryCall::Pause { seconds: 2 },
        RetryCall::Request { model: EMBEDDING_MODEL@, input: text },
        RetryCall::Finish(Err(exhausted_report(responses[2]->Err_0))),
    ]);
}

/// A call ends with the first vector that the service gives within the three
/// attempts. Before it, every failure is followed by a pause and another
/// request: with `failures` failures first, the call makes `failures + 1`
/// requests and takes `failures` pauses.
pub proof fn lemma_first_vector_ends_call<V>(
    text: Seq<char>,
    responses: Seq<Result<V, Seq<char>>>,
    failures: nat,
)
    requires
        failures < MAX_ATTEMPTS,
        failures < responses.len(),
        forall|i: int| 0 <= i < failures ==> responses[i] is Err,
        responses[failures as int] is Ok,
    ensures
        ({
            let history = create_embedding(text, responses);
            &&& history.len() == 2 * failures + 2
            &&& forall|i: int|
                0 <= i <= failures ==> #[trigger] history[2 * i] == (RetryCall::<V>::Request {
                    model: EMBEDDING_MODEL@,
                    input: text,
                })
            &&& forall|i: int|
                0 <= i < failures ==> #[trigger] history[2 * i + 1] == (RetryCall::<V>::Pause {
                    seconds: 2,
                })
            &&& history.last() == RetryCall::Finish(Ok(responses[failures as int]->Ok_0))
        }),
{
    let first = Retry::begin(text);
    let second = Retry { failed: 1, ..first };
    let third = Retry { failed: 2, ..first };
    lemma_history_of_request(first, responses);
    if failures >= 1 {
        assert(responses[0] is Err);
        lemma_history_of_request(second, responses);
    }
    if failures >= 2 {
        assert(responses[1] is Err);
        lemma_history_of_request(third, responses);
    }
    let history = create_embedding(text, responses);
    let request = RetryCall::<V>::Request { model: EMBEDDING_MODEL@, input: text };
    let pause = RetryCall::<V>::Pause { seconds: 2 };
    let end = RetryCall::Finish(Ok(responses[failures as int]->Ok_0));
    if failures == 0 {
        assert(history =~= seq![request, end]);
    } else if failures == 1 {
        assert(history =~= seq![request, pause, request, end]);
    } else {
        assert(history =~= seq![request, pause, request, pause, request, end]);
    }
    assert forall|i: int| 0 <= i <= failures implies #[trigger] history[2 * i] == request by {
        assert(i == 0 || i == 1 || i == 2);
    }
    assert forall|i: int| 0 <= i < failures implies #[trigger] history[2 * i + 1] == pause by {
        assert(i == 0 || i == 1);
    }
}

} // verus!
