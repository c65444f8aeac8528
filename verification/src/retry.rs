//! The retry policy of a read: how long to wait before another attempt, and
//! what a read with retries looks like on the line.

use std::time::Duration;
use tokio_retry::strategy::{jitter, ExponentialBackoff};
use vstd::prelude::*;

use crate::consts::READ_TIMEOUT_MS;
use crate::errors::ErrorView;
use crate::reader::attempt_verdict;
use crate::transport::{Address, Exchange, Quantity, Word};

verus! {

/// Delays up to this many milliseconds are never lengthened by jitter.
pub const JITTER_BOUNDED_UP_TO_MS: u64 = 0xFFFF_FFFF_u64;

/// The product of two delays, held at the largest `u64` where it would pass it.
pub open spec fn saturating_product(a: u64, b: u64) -> u64 {
    if a * b > u64::MAX {
        u64::MAX
    } else {
        (a * b) as u64
    }
}

/// The delay, in milliseconds, that exponential backoff from `base_ms` gives
/// after `past_retries` earlier retries: the base once more multiplied by
/// itself for each of them.
pub open spec fn backoff_ms(base_ms: u64, past_retries: nat) -> u64
    decreases past_retries,
{
    if past_retries == 0 {
        base_ms
    } else {
        saturating_product(backoff_ms(base_ms, (past_retries - 1) as nat), base_ms)
    }
}

/// The first `retries` delays of `tokio_retry`'s `ExponentialBackoff` started
/// from `base_ms`, in milliseconds. The iterator starts at the base, multiplies
/// by the base after each item with a saturating product, and never ends.
#[verifier::external_body]
fn exponential_backoff(base_ms: u64, retries: usize) -> (delays: Vec<u64>)
    ensures
        delays@.len() == retries,
        forall|i: int| 0 <= i < retries ==> delays@[i] == backoff_ms(base_ms, i as nat),
{
    ExponentialBackoff::from_millis(base_ms)
        .take(retries)
        .map(|delay| delay.as_millis() as u64)
        .collect()
}

/// `tokio_retry`'s `jitter` on a delay given in milliseconds: the delay times
/// a random factor of at least zero and less than one. The product is taken
/// in floating point, so the bound is claimed only where that is exact to
/// well under a millisecond.
#[verifier::external_body]
fn jittered(delay_ms: u64) -> (waited_ms: u64)
    ensures
        delay_ms <= JITTER_BOUNDED_UP_TO_MS ==> waited_ms <= delay_ms,
{
    jitter(Duration::from_millis(delay_ms)).as_millis() as u64
}

/// The waits before each of `retries` retries: exponential backoff from
/// `base_ms`, each delay shortened by random jitter.
pub fn retry_delays(base_ms: u64, retries: usize) -> (delays: Vec<u64>)
    ensures
        delays@.len() == retries,
        forall|i: int|
            0 <= i < retries && backoff_ms(base_ms, i as nat) <= JITTER_BOUNDED_UP_TO_MS
                ==> #[trigger] delays@[i] <= backoff_ms(base_ms, i as nat),
{
    let plain = exponential_backoff(base_ms, retries);
    let mut delays: Vec<u64> = Vec::new();
    let mut next: usize = 0;
    while next < retries
        invariant
            next <= retries,
            plain@.len() == retries,
            delays@.len() == next,
            forall|i: int| 0 <= i < retries ==> plain@[i] == backoff_ms(base_ms, i as nat),
            forall|i: int|
                0 <= i < next && backoff_ms(base_ms, i as nat) <= JITTER_BOUNDED_UP_TO_MS
                    ==> #[trigger] delays@[i] <= backoff_ms(base_ms, i as nat),
        decreases retries - next,
    {
        delays.push(jittered(plain[next]));
        next += 1;
    }
    delays
}

/// `step` is a read of `count` registers at `addr` under the per-attempt
/// timeout.
pub open spec fn is_read_of(step: Exchange, addr: Address, count: Quantity) -> bool {
    step matches Exchange::Read { addr: a, count: c, timeout_ms: t, .. } && a == addr && c == count
        && t == READ_TIMEOUT_MS
}

/// `step` is a pause of at most `longest_ms` milliseconds.
pub open spec fn is_pause_within(step: Exchange, longest_ms: u64) -> bool {
    step matches Exchange::Pause(waited) && waited <= longest_ms
}

/// The verdict on the read attempt recorded in `step`.
pub open spec fn verdict_of(step: Exchange) -> Result<Seq<Word>, ErrorView> {
    match step {
        Exchange::Read { outcome, .. } => attempt_verdict(outcome),
        _ => Err(ErrorView::Transient),
    }
}

/// `steps` is one read with retries: attempts and pauses in turn, beginning
/// and ending with an attempt.
///
/// Every attempt but the last ended in a transient failure, which is why
/// another followed; each pause is no longer than the backoff for its place.
/// There are at most `retries` pauses, and where fewer were taken the last
/// attempt did not end in a transient failure.
pub open spec fn retried_read(
    steps: Seq<Exchange>,
    addr: Address,
    count: Quantity,
    retries: nat,
    base_ms: u64,
) -> bool {
    &&& steps.len() % 2 == 1
    &&& steps.len() <= 2 * retries + 1
    &&& forall|i: int|
        0 <= i < steps.len() && i % 2 == 0 ==> is_read_of(#[trigger] steps[i], addr, count)
    &&& forall|i: int|
        0 <= i < steps.len() && i % 2 == 1 ==> is_pause_within(
            #[trigger] steps[i],
            backoff_ms(base_ms, (i / 2) as nat),
        )
    &&& forall|i: int|
        0 <= i < steps.len() - 1 && i % 2 == 0 ==> verdict_of(#[trigger] steps[i]) == Err::<
            Seq<Word>,
            ErrorView,
        >(ErrorView::Transient)
    &&& steps.len() < 2 * retries + 1 ==> verdict_of(steps.last()) != Err::<
        Seq<Word>,
        ErrorView,
    >(ErrorView::Transient)
}

/// The number of read attempts among `steps`.
pub open spec fn read_attempts(steps: Seq<Exchange>) -> nat
    decreases steps.len(),
{
    if steps.len() == 0 {
        0
    } else {
        read_attempts(steps.drop_last()) + if steps.last() is Read {
            1nat
        } else {
            0nat
        }
    }
}

/// Where attempts and pauses take turns, beginning with an attempt, the
/// attempts are half of the steps, rounded up.
proof fn lemma_attempts_take_turns(steps: Seq<Exchange>)
    requires
        forall|i: int| 0 <= i < steps.len() && i % 2 == 0 ==> #[trigger] steps[i] is Read,
        forall|i: int| 0 <= i < steps.len() && i % 2 == 1 ==> #[trigger] steps[i] is Pause,
    ensures
        read_attempts(steps) == (steps.len() + 1) / 2,
    decreases steps.len(),
{
    if steps.len() > 0 {
        let earlier = steps.drop_last();
        assert forall|i: int| 0 <= i < earlier.len() && i % 2 == 0 implies #[trigger] earlier[i]
            is Read by {
            assert(earlier[i] == steps[i]);
        }
        assert forall|i: int| 0 <= i < earlier.len() && i % 2 == 1 implies #[trigger] earlier[i]
            is Pause by {
            assert(earlier[i] == steps[i]);
        }
        lemma_attempts_take_turns(earlier);
        let end = steps.len() - 1;
        assert(steps.last() == steps[end]);
    }
}

/// A read with retries makes at least one attempt and at most one more than
/// the retries it is allowed; its pauses number one less than its attempts.
pub proof fn lemma_attempts_are_bounded(
    steps: Seq<Exchange>,
    addr: Address,
    count: Quantity,
    retries: nat,
    base_ms: u64,
)
    requires
        retried_read(steps, addr, count, retries, base_ms),
    ensures
        1 <= read_attempts(steps) <= retries + 1,
        steps.len() == 2 * read_attempts(steps) - 1,
{
    lemma_attempts_take_turns(steps);
}

/// A read whose every attempt ends in a transient failure uses up all its
/// retries, so it makes exactly one attempt more than it has retries, and
/// then reports the transient failure.
pub proof fn lemma_transient_throughout(
    steps: Seq<Exchange>,
    addr: Address,
    count: Quantity,
    retries: nat,
    base_ms: u64,
)
    requires
        retried_read(steps, addr, count, retries, base_ms),
        forall|i: int|
            0 <= i < steps.len() && #[trigger] steps[i] is Read ==> verdict_of(steps[i])
                == Err::<Seq<Word>, ErrorView>(ErrorView::Transient),
    ensures
        read_attempts(steps) == retries + 1,
        verdict_of(steps.last()) == Err::<Seq<Word>, ErrorView>(ErrorView::Transient),
{
    lemma_attempts_take_turns(steps);
    let end = steps.len() - 1;
    assert(steps.last() == steps[end]);
    assert(is_read_of(steps[end], addr, count));
}

/// A read whose first attempt ends in anything but a transient failure, a
/// permanent failure or an answer, makes that one attempt and no other.
pub proof fn lemma_first_verdict_is_final(
    steps: Seq<Exchange>,
    addr: Address,
    count: Quantity,
    retries: nat,
    base_ms: u64,
)
    requires
        retried_read(steps, addr, count, retries, base_ms),
        verdict_of(steps[0]) != Err::<Seq<Word>, ErrorView>(ErrorView::Transient),
    ensures
        steps.len() == 1,
        read_attempts(steps) == 1,
{
    lemma_attempts_take_turns(steps);
}

} // verus!
