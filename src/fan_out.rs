use vstd::pervasive::cloned;
use vstd::prelude::*;

use crate::error::{SendError, TrySendError};

verus! {

/// What one entry answered when it was handed a copy of the message.
pub type Answer<T> = Result<(), TrySendError<T>>;

/// What one step of a fan-out decides from an entry's answer: go on with `msg`, or stop
/// with an error of the entry's kind that carries `msg` itself.
pub open spec fn settled<T>(answer: Answer<T>, msg: T) -> Result<T, TrySendError<T>> {
    match answer {
        Ok(()) => Ok(msg),
        Err(TrySendError::Full(_)) => Err(TrySendError::Full(msg)),
        Err(TrySendError::Closed(_)) => Err(TrySendError::Closed(msg)),
    }
}

/// The result of a fan-out of `msg` whose entries answered `answers`, in order: the
/// first refusal, carrying `msg`, or success when there is none.
pub open spec fn fan_out_result<T>(answers: Seq<Answer<T>>, msg: T) -> Answer<T>
    decreases answers.len(),
{
    if answers.len() == 0 {
        Ok(())
    } else {
        match settled(answers[0], msg) {
            Ok(_) => fan_out_result(answers.drop_first(), msg),
            Err(e) => Err(e),
        }
    }
}

/// `answers` has the shape of a fan-out over `n` entries: at most one answer per entry,
/// all acceptances but possibly the last, and fewer than `n` only when the last is a
/// refusal. `fan_out_with` returns answers of this shape.
pub open spec fn is_fan_out<T>(answers: Seq<Answer<T>>, n: nat) -> bool {
    &&& answers.len() <= n
    &&& forall|i: int| 0 <= i < answers.len() - 1 ==> (#[trigger] answers[i]) is Ok
    &&& answers.len() < n ==> answers.len() > 0 && answers.last() is Err
}

/// Decides, from the answer of one entry, whether a fan-out goes on with `msg` or ends
/// with an error of that entry's kind carrying `msg`.
pub fn settle<T>(answer: Answer<T>, msg: T) -> (r: Result<T, TrySendError<T>>)
    ensures
        r == settled(answer, msg),
{
    match answer {
        Ok(()) => Ok(msg),
        Err(TrySendError::Full(_)) => Err(TrySendError::Full(msg)),
        Err(TrySendError::Closed(_)) => Err(TrySendError::Closed(msg)),
    }
}

/// `answer` is what `deliver_to` returned when it was handed entry `i` and a copy of `msg`.
pub open spec fn answered_by<T: Clone, F: Fn(usize, T) -> Answer<T>>(
    deliver_to: F,
    msg: T,
    i: int,
    answer: Answer<T>,
) -> bool {
    exists|m: T| cloned(msg, m) && #[trigger] deliver_to.ensures((i as usize, m), answer)
}

/// Broadcasts `msg` over `n` entries: hands entry 0, 1, ... in turn its own copy of
/// `msg` through `deliver_to`, and stops at the first entry that refuses. The ghost
/// result holds the answers, one per entry handed a copy, in that order.
pub fn fan_out_with<T: Clone, F: Fn(usize, T) -> Answer<T>>(n: usize, msg: T, deliver_to: F) -> (r: (
    Answer<T>,
    Ghost<Seq<Answer<T>>>,
))
    requires
        forall|i: usize, m: T| i < n ==> #[trigger] deliver_to.requires((i, m)),
    ensures
        is_fan_out(r.1@, n as nat),
        r.0 == fan_out_result(r.1@, msg),
        r.0 matches Err(e) ==> e.message() == msg,
        forall|i: int| 0 <= i < r.1@.len() ==> answered_by(deliver_to, msg, i, #[trigger] r.1@[i]),
{
    let ghost original = msg;
    let ghost mut answers: Seq<Answer<T>> = Seq::empty();
    let mut carried = msg;
    let mut i: usize = 0;
    while i < n
        invariant
            i <= n,
            answers.len() == i,
            carried == original,
            original == msg,
            forall|j: usize, m: T| j < n ==> #[trigger] deliver_to.requires((j, m)),
            forall|j: int| 0 <= j < answers.len() ==> (#[trigger] answers[j]) is Ok,
            forall|j: int|
                0 <= j < answers.len() ==> answered_by(deliver_to, original, j, #[trigger] answers[j]),
        decreases n - i,
    {
        let copy = carried.clone();
        let ghost handed = copy;
        let answer = deliver_to(i, copy);
        let ghost seen = answer;
        proof {
            assert(cloned(original, handed));
            assert(deliver_to.ensures((i as int as usize, handed), seen));
            assert(answered_by(deliver_to, original, i as int, seen));
            lemma_fan_out_push(answers, seen, original);
        }
        match settle(answer, carried) {
            Ok(m) => {
                carried = m;
            },
            Err(e) => {
                proof {
                    assert(answers.push(seen)[i as int] == seen);
                }
                return (Err(e), Ghost(answers.push(seen)));
            },
        }
        proof {
            answers = answers.push(seen);
        }
        i = i + 1;
    }
    proof {
        lemma_fan_out_push(answers, Ok(()), original);
    }
    (Ok(()), Ghost(answers))
}

/// The same decision for a suspending send, where an entry either takes the message or
/// is closed: go on with `msg`, or stop with `SendError(msg)`.
pub fn settle_send<T>(answer: Result<(), SendError<T>>, msg: T) -> (r: Result<T, SendError<T>>)
    ensures
        r == match answer {
            Ok(()) => Ok(msg),
            Err(_) => Err(SendError(msg)),
        },
{
    match answer {
        Ok(()) => Ok(msg),
        Err(_) => Err(SendError(msg)),
    }
}

/// A run of acceptances leaves the fan-out successful so far, and the next answer
/// decides as `settled` says.
pub proof fn lemma_fan_out_push<T>(answers: Seq<Answer<T>>, next: Answer<T>, msg: T)
    requires
        forall|i: int| 0 <= i < answers.len() ==> (#[trigger] answers[i]) is Ok,
    ensures
        fan_out_result(answers, msg) == Ok::<(), TrySendError<T>>(()),
        fan_out_result(answers.push(next), msg) == match settled(next, msg) {
            Ok(_) => Ok(()),
            Err(e) => Err(e),
        },
    decreases answers.len(),
{
    if answers.len() > 0 {
        assert(answers[0] is Ok);
        assert(answers.push(next).drop_first() =~= answers.drop_first().push(next));
        lemma_fan_out_push(answers.drop_first(), next, msg);
    } else {
        assert(answers.push(next).drop_first() =~= Seq::<Answer<T>>::empty());
        assert(fan_out_result(Seq::<Answer<T>>::empty(), msg) == Ok::<(), TrySendError<T>>(()));
    }
}

/// A fan-out over no entry hands out nothing and succeeds.
pub proof fn lemma_empty_registry_accepts<T>(answers: Seq<Answer<T>>, msg: T)
    requires
        is_fan_out(answers, 0),
    ensures
        answers.len() == 0,
        fan_out_result(answers, msg) == Ok::<(), TrySendError<T>>(()),
{
}

/// A fan-out succeeds exactly when there is an answer for each of the `n` entries and
/// every answer is an acceptance.
pub proof fn lemma_success_iff_all_delivered<T>(answers: Seq<Answer<T>>, n: nat, msg: T)
    requires
        is_fan_out(answers, n),
    ensures
        fan_out_result(answers, msg) is Ok <==> (answers.len() == n && forall|i: int|
            0 <= i < answers.len() ==> (#[trigger] answers[i]) is Ok),
{
    if answers.len() > 0 {
        let k = answers.len() - 1;
        let front = answers.take(k as int);
        assert(answers =~= front.push(answers[k as int]));
        lemma_fan_out_push(front, answers[k as int], msg);
    }
}

/// A refusal among the answers of a fan-out is the last answer, so no later entry has
/// one, and the result is an error of the refusal's kind carrying `msg`.
pub proof fn lemma_refusal_surfaces<T>(answers: Seq<Answer<T>>, n: nat, msg: T, k: int)
    requires
        is_fan_out(answers, n),
        0 <= k < answers.len(),
        answers[k] is Err,
    ensures
        k == answers.len() - 1,
        fan_out_result(answers, msg) is Err,
        fan_out_result(answers, msg)->Err_0.message() == msg,
        fan_out_result(answers, msg)->Err_0 is Full <==> answers[k]->Err_0 is Full,
        fan_out_result(answers, msg)->Err_0 is Closed <==> answers[k]->Err_0 is Closed,
{
    let front = answers.take(k);
    assert(answers =~= front.push(answers[k]));
    lemma_fan_out_push(front, answers[k], msg);
}

} // verus!
