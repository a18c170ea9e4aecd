//! What the collection of a snapshot amounts to, over whole sequences of
//! answers and against a device whose registers hold still.

use vstd::prelude::*;
use crate::battery::{Request, request_for};
use crate::error::Error;
use crate::reading::{Reading, decoded};
use crate::register::{Quantity, register_of};
use crate::snapshot::{
    Answer,
    SNAPSHOT_READS,
    Stage,
    due,
    nth_quantity,
    reads_sent,
    run,
    snapshot_of,
};

verus! {

/// The words of an answer; none for a failure.
pub open spec fn words_of(answer: Answer) -> Seq<u16> {
    match answer {
        Ok(words) => words,
        Err(_) => Seq::empty(),
    }
}

/// The readings that the first `n` answers decode to, each under the row of
/// the quantity that its read asked for.
pub open spec fn readings_of(answers: Seq<Answer>, n: nat) -> Seq<Reading> {
    Seq::new(n, |i: int| decoded(register_of(nth_quantity(i)), words_of(answers[i])))
}

/// The first `n` answers are all successes.
pub open spec fn all_ok(answers: Seq<Answer>, n: int) -> bool {
    forall|j: int| 0 <= j < n ==> (#[trigger] answers[j]) is Ok
}

/// While fewer than fourteen answers are in and none is a failure, the
/// collection goes on, holds one reading for each answer, and has sent one
/// read for each.
pub proof fn successes_collect(answers: Seq<Answer>)
    requires
        answers.len() < SNAPSHOT_READS,
        all_ok(answers, answers.len() as int),
    ensures
        run(answers) == Stage::Collecting(readings_of(answers, answers.len())),
        reads_sent(answers) == answers.len(),
    decreases answers.len(),
{
    if answers.len() == 0 {
        assert(readings_of(answers, 0) =~= Seq::<Reading>::empty());
    } else {
        let before = answers.drop_last();
        successes_collect(before);
        let n = before.len();
        assert(answers.last() == answers[n as int]);
        assert(answers[n as int] is Ok);
        assert(readings_of(answers, answers.len()) =~= readings_of(before, n).push(
            decoded(register_of(nth_quantity(n as int)), words_of(answers[n as int])),
        ));
    }
}

/// Fourteen successes complete the snapshot: each field is the reading that
/// its own answer decodes to, and fourteen reads were sent.
pub proof fn successes_complete(answers: Seq<Answer>)
    requires
        answers.len() == SNAPSHOT_READS,
        all_ok(answers, answers.len() as int),
    ensures
        run(answers) == Stage::Done(snapshot_of(readings_of(answers, answers.len()))),
        reads_sent(answers) == SNAPSHOT_READS,
{
    let before = answers.drop_last();
    successes_collect(before);
    assert(answers.last() == answers[13]);
    assert(answers[13] is Ok);
    assert(readings_of(answers, 14) =~= readings_of(before, 13).push(
        decoded(register_of(nth_quantity(13)), words_of(answers[13])),
    ));
}

/// Once the collection is done or has failed, further answers change
/// nothing and no further read is sent.
pub proof fn ended_run_stays(answers: Seq<Answer>, n: int)
    requires
        0 <= n <= answers.len(),
        !(run(answers.take(n)) is Collecting),
    ensures
        run(answers) == run(answers.take(n)),
        reads_sent(answers) == reads_sent(answers.take(n)),
    decreases answers.len(),
{
    if n == answers.len() {
        assert(answers.take(n) =~= answers);
    } else {
        let before = answers.drop_last();
        assert(before.take(n) =~= answers.take(n));
        ended_run_stays(before, n);
    }
}

/// Fail-fast: when answer number `i` is the first failure, the collection
/// ends with exactly that error, whatever answers might follow; of the
/// readings that were in nothing is kept, no read is due any more, and
/// `i + 1` reads were sent in all. A timeout is one such failure.
pub proof fn first_failure_ends_run(slave: u8, answers: Seq<Answer>, i: int, e: Error)
    requires
        0 <= i < answers.len(),
        i < SNAPSHOT_READS,
        all_ok(answers, i),
        answers[i] == Err::<Seq<u16>, Error>(e),
    ensures
        run(answers) == Stage::Failed(e),
        due(slave, run(answers)) == None::<Request>,
        reads_sent(answers) == i + 1,
{
    let upto = answers.take(i + 1);
    let before = upto.drop_last();
    assert(before =~= answers.take(i));
    assert forall|j: int| 0 <= j < i implies (#[trigger] before[j]) is Ok by {
        assert(before[j] == answers[j]);
    }
    successes_collect(before);
    assert(upto.last() == answers[i]);
    assert(run(upto) == Stage::Failed(e));
    assert(reads_sent(upto) == i + 1);
    ended_run_stays(answers, i + 1);
}

/// The holding registers of one device: the word at each address.
pub type Registers = Map<int, u16>;

/// The words that a device with these registers sends for a read.
pub open spec fn words_at(registers: Registers, request: Request) -> Seq<u16> {
    Seq::new(request.count as nat, |k: int| registers[request.address + k])
}

/// The answers that a device which always answers gives to the fourteen
/// reads of a snapshot.
pub open spec fn answers_from(slave: u8, registers: Registers) -> Seq<Answer> {
    Seq::new(
        SNAPSHOT_READS as nat,
        |i: int| Ok::<Seq<u16>, Error>(words_at(registers, request_for(slave, nth_quantity(i)))),
    )
}

/// The stage that the collection ends in against a device with these
/// registers.
pub open spec fn state_of(slave: u8, registers: Registers) -> Stage {
    run(answers_from(slave, registers))
}

/// Two devices hold the same word wherever the register map points.
pub open spec fn same_contents(a: Registers, b: Registers) -> bool {
    forall|q: Quantity, address: int| #[trigger]
        register_of(q).covers(address) ==> a[address] == b[address]
}

/// Against a device that answers every read, the collection completes, and
/// the snapshot depends on nothing but the registers that the register map
/// names: while those hold still, every collection gives the same snapshot.
pub proof fn stable_device_same_snapshot(slave: u8, first: Registers, second: Registers)
    requires
        same_contents(first, second),
    ensures
        state_of(slave, first) is Done,
        state_of(slave, first) == state_of(slave, second),
{
    let a = answers_from(slave, first);
    let b = answers_from(slave, second);
    assert forall|i: int| 0 <= i < SNAPSHOT_READS implies a[i] == b[i] by {
        let request = request_for(slave, nth_quantity(i));
        assert forall|k: int| 0 <= k < request.count implies (#[trigger] words_at(
            first,
            request,
        )[k]) == words_at(second, request)[k] by {
            assert(register_of(nth_quantity(i)).covers(request.address + k));
        }
        assert(words_at(first, request) =~= words_at(second, request));
    }
    assert(a =~= b);
    assert(all_ok(a, 14));
    successes_complete(a);
}

} // verus!
