use vstd::prelude::*;

use crate::handle::handle_next;
use crate::step::{admit_next, release_next, Step};

verus! {

/// The counter after applying `steps` in order from `in_use`; a refused step
/// leaves it as it was.
pub open spec fn run(in_use: usize, steps: Seq<Step>) -> usize
    decreases steps.len(),
{
    if steps.len() == 0 {
        in_use
    } else {
        let prev = run(in_use, steps.drop_last());
        match steps.last().spec_next(prev) {
            Some(n) => n,
            None => prev,
        }
    }
}

/// How many admissions among `steps`, applied from `in_use`, were admitted.
pub open spec fn admitted_count(in_use: usize, steps: Seq<Step>) -> nat
    decreases steps.len(),
{
    if steps.len() == 0 {
        0
    } else {
        let prev = admitted_count(in_use, steps.drop_last());
        if steps.last() is Admit && steps.last().spec_next(run(in_use, steps.drop_last())) is Some {
            prev + 1
        } else {
            prev
        }
    }
}

/// How many releases there are among `steps`.
pub open spec fn release_count(steps: Seq<Step>) -> nat
    decreases steps.len(),
{
    if steps.len() == 0 {
        0
    } else if steps.last() is Release {
        release_count(steps.drop_last()) + 1
    } else {
        release_count(steps.drop_last())
    }
}

/// A handle's total after a series of admission requests, each given as the
/// bytes asked for and whether the quota admitted them.
pub open spec fn handle_total(calls: Seq<(nat, bool)>) -> nat
    decreases calls.len(),
{
    if calls.len() == 0 {
        0
    } else {
        handle_next(handle_total(calls.drop_last()), calls.last().0, calls.last().1)
    }
}

/// The sum of the bytes of the admitted requests among `calls`.
pub open spec fn admitted_bytes(calls: Seq<(nat, bool)>) -> nat
    decreases calls.len(),
{
    if calls.len() == 0 {
        0
    } else {
        (if calls[0].1 {
            calls[0].0
        } else {
            0
        }) + admitted_bytes(calls.subrange(1, calls.len() as int))
    }
}

/// Whatever steps are applied, a release never takes the counter below zero:
/// each one leaves the previous value minus its bytes, or zero if that would
/// be negative.
pub proof fn lemma_release_never_below_zero(in_use: usize, steps: Seq<Step>)
    ensures
        forall|i: int|
            0 <= i < steps.len() && (#[trigger] steps[i]) is Release ==> run(
                in_use,
                steps.take(i + 1),
            ) as int == if run(in_use, steps.take(i)) >= steps[i]->Release_bytes {
                run(in_use, steps.take(i)) - steps[i]->Release_bytes
            } else {
                0
            },
{
    assert forall|i: int|
        0 <= i < steps.len() && (#[trigger] steps[i]) is Release implies run(
            in_use,
            steps.take(i + 1),
        ) as int == if run(in_use, steps.take(i)) >= steps[i]->Release_bytes {
            run(in_use, steps.take(i)) - steps[i]->Release_bytes
        } else {
            0
        } by {
        assert(steps.take(i + 1).drop_last() =~= steps.take(i));
        assert(steps.take(i + 1).last() == steps[i]);
    }
}

/// An admission that succeeds moves the counter from the value it found to
/// exactly that value plus its bytes, which is within the sampled capacity.
pub proof fn lemma_admitted_adds_exactly(in_use: usize, capacity: usize, bytes: usize)
    requires
        (Step::Admit { capacity, bytes }).spec_next(in_use) is Some,
    ensures
        (Step::Admit { capacity, bytes }).spec_next(in_use) == Some((in_use + bytes) as usize),
        in_use + bytes <= capacity,
{
}

/// An admission is refused exactly when the value it found plus its bytes
/// exceeds the sampled capacity; a refused update writes nothing.
pub proof fn lemma_refused_iff_over_capacity(in_use: usize, capacity: usize, bytes: usize)
    ensures
        (Step::Admit { capacity, bytes }).spec_next(in_use) is None <==> in_use + bytes
            > capacity,
        admit_next(in_use as nat, capacity as nat, bytes as nat) is None <==> in_use + bytes
            > capacity,
{
}

/// A release leaves `max(0, in_use - bytes)`.
pub proof fn lemma_release_saturates(in_use: usize, bytes: usize)
    ensures
        (Step::Release { bytes }).spec_next(in_use) == Some(
            (if in_use >= bytes {
                in_use - bytes
            } else {
                0
            }) as usize,
        ),
{
}

proof fn lemma_admitted_bytes_last(calls: Seq<(nat, bool)>)
    requires
        calls.len() > 0,
    ensures
        admitted_bytes(calls) == admitted_bytes(calls.drop_last()) + (if calls.last().1 {
            calls.last().0
        } else {
            0
        }),
    decreases calls.len(),
{
    if calls.len() > 1 {
        let tail = calls.subrange(1, calls.len() as int);
        lemma_admitted_bytes_last(tail);
        assert(tail.drop_last() =~= calls.drop_last().subrange(1, calls.drop_last().len() as int));
        assert(tail.last() == calls.last());
    } else {
        assert(calls.subrange(1, calls.len() as int) =~= Seq::<(nat, bool)>::empty());
        assert(calls.drop_last() =~= Seq::<(nat, bool)>::empty());
    }
}

/// A handle's total after any series of requests is the sum of the bytes of
/// those that were admitted; refused requests add nothing.
pub proof fn lemma_handle_total_is_admitted_sum(calls: Seq<(nat, bool)>)
    ensures
        handle_total(calls) == admitted_bytes(calls),
    decreases calls.len(),
{
    if calls.len() > 0 {
        lemma_handle_total_is_admitted_sum(calls.drop_last());
        lemma_admitted_bytes_last(calls);
    }
}

/// Releasing a handle whose bytes are all still counted by the quota takes
/// exactly those bytes off; a second release, of the zero total left, changes
/// nothing.
pub proof fn lemma_release_exactly_once(in_use: nat, allocated: nat)
    requires
        allocated <= in_use,
    ensures
        release_next(in_use, allocated) == in_use - allocated,
        release_next(release_next(in_use, allocated), 0) == release_next(in_use, allocated),
{
}

proof fn lemma_unit_traffic(capacity: usize, steps: Seq<Step>)
    requires
        forall|i: int|
            0 <= i < steps.len() ==> #[trigger] steps[i] == (Step::Admit { capacity, bytes: 1 })
                || steps[i] == (Step::Release { bytes: 1 }),
    ensures
        run(0, steps) <= capacity,
        (forall|k: int|
            0 <= k <= steps.len() ==> release_count(#[trigger] steps.take(k)) <= admitted_count(
                0,
                steps.take(k),
            )) ==> run(0, steps) == admitted_count(0, steps) - release_count(steps),
    decreases steps.len(),
{
    if steps.len() > 0 {
        let front = steps.drop_last();
        assert forall|i: int| 0 <= i < front.len() implies #[trigger] front[i] == (Step::Admit {
            capacity,
            bytes: 1,
        }) || front[i] == (Step::Release { bytes: 1 }) by {
            assert(front[i] == steps[i]);
        }
        lemma_unit_traffic(capacity, front);
        assert(steps.last() == steps[steps.len() - 1]);
        if forall|k: int|
            0 <= k <= steps.len() ==> release_count(#[trigger] steps.take(k)) <= admitted_count(
                0,
                steps.take(k),
            ) {
            assert forall|k: int| 0 <= k <= front.len() implies release_count(
                #[trigger] front.take(k),
            ) <= admitted_count(0, front.take(k)) by {
                assert(front.take(k) =~= steps.take(k));
            }
            assert(steps.take(steps.len() as int) =~= steps);
        }
    }
}

/// Units admitted against capacity `capacity` and released one at a time,
/// in any interleaving, never take the counter past `capacity`; and while no
/// release outruns the admissions before it, the counter is the admissions
/// minus the releases, so it is zero once every admission has been released.
pub proof fn lemma_unit_traffic_bounded(capacity: usize, steps: Seq<Step>)
    requires
        forall|i: int|
            0 <= i < steps.len() ==> #[trigger] steps[i] == (Step::Admit { capacity, bytes: 1 })
                || steps[i] == (Step::Release { bytes: 1 }),
    ensures
        forall|k: int| 0 <= k <= steps.len() ==> #[trigger] run(0, steps.take(k)) <= capacity,
        (forall|k: int|
            0 <= k <= steps.len() ==> release_count(#[trigger] steps.take(k)) <= admitted_count(
                0,
                steps.take(k),
            )) ==> run(0, steps) == admitted_count(0, steps) - release_count(steps),
{
    assert forall|k: int| 0 <= k <= steps.len() implies #[trigger] run(0, steps.take(k))
        <= capacity by {
        let p = steps.take(k);
        assert forall|i: int| 0 <= i < p.len() implies #[trigger] p[i] == (Step::Admit {
            capacity,
            bytes: 1,
        }) || p[i] == (Step::Release { bytes: 1 }) by {
            assert(p[i] == steps[i]);
        }
        lemma_unit_traffic(capacity, p);
    }
    lemma_unit_traffic(capacity, steps);
}

} // verus!
