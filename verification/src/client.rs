//! The meter client: slave selection, reads with retries, decoding, and the
//! address write.

use vstd::prelude::*;

use crate::consts::{
    DEFAULT_BACKOFF_BASE_MS, MAX_RETRIES, MEASUREMENT_BASE_REGISTER, MEASUREMENT_REGISTER_COUNT,
    READ_TIMEOUT_MS, SLAVE_ADDRESS_REGISTER,
};
use crate::decode::{
    data_verdict, decode_data, decode_u16, decode_u32, double_word_verdict, word_verdict, PZEMData,
};
use crate::errors::{ErrorView, PZEMError};
use crate::reader::{
    read_attempt_result, result_view, words_view, write_result, write_verdict,
};
use crate::retry::{
    backoff_ms, is_pause_within, is_read_of, lemma_attempts_are_bounded,
    lemma_first_verdict_is_final, lemma_transient_throughout, read_attempts, retried_read,
    retry_delays, verdict_of,
};
use crate::transport::{
    Address, Exchange, PZEMConn, Quantity, SlaveId, Word,
};

verus! {

/// `after` continues `before`: nothing recorded earlier was changed.
pub open spec fn extends(before: Seq<Exchange>, after: Seq<Exchange>) -> bool {
    before.len() <= after.len() && after.subrange(0, before.len() as int) == before
}

/// What `after` records beyond `before`.
pub open spec fn added(before: Seq<Exchange>, after: Seq<Exchange>) -> Seq<Exchange> {
    after.subrange(before.len() as int, after.len() as int)
}

/// `steps` is one read under the client's policy: a single retry, backed off
/// from the default base.
pub open spec fn policy_read(steps: Seq<Exchange>, addr: Address, count: Quantity) -> bool {
    retried_read(steps, addr, count, MAX_RETRIES as nat, DEFAULT_BACKOFF_BASE_MS)
}

/// A selection followed by more exchanges adds the selection first and the
/// rest after it.
proof fn lemma_select_then_read(before: Seq<Exchange>, selected: Seq<Exchange>, after: Seq<Exchange>)
    requires
        selected.len() == before.len() + 1,
        selected.drop_last() == before,
        extends(selected, after),
        added(selected, after).len() >= 1,
    ensures
        extends(before, after),
        added(before, after).len() >= 2,
        added(before, after)[0] == selected.last(),
        added(before, after).skip(1) == added(selected, after),
        added(before, after).last() == after.last(),
{
    assert(after.subrange(0, before.len() as int) =~= after.subrange(
        0,
        selected.len() as int,
    ).drop_last());
    assert(added(before, after).skip(1) =~= added(selected, after));
    assert(added(before, after)[0] == after.subrange(0, selected.len() as int).last());
}

/// A client for the meters behind one gateway session.
///
/// The client owns the session, so no two of its operations can overlap.
/// Each operation's contract says which requests it makes on the session, in
/// which order, and how its result follows from what the session answered.
pub struct PZEM<C: PZEMConn> {
    pub ctx: C,
}

impl<C: PZEMConn> PZEM<C> {
    /// Everything done on this client's session, oldest first.
    pub open spec fn history(&self) -> Seq<Exchange> {
        self.ctx.trace()
    }

    /// A client for the session `ctx`.
    pub fn new(ctx: C) -> (pzem: Self)
        ensures
            pzem.ctx == ctx,
    {
        PZEM { ctx }
    }

    /// Points the session at `slave_id`, which all following requests then
    /// address. Nothing else happens on the session.
    pub fn select_slave(&mut self, slave_id: u8)
        ensures
            final(self).history() == old(self).history().push(Exchange::SetSlave(slave_id)),
    {
        self.ctx.set_slave(slave_id);
    }

    /// Writes `addr` as the new bus address of the currently selected meter.
    ///
    /// The write is made exactly once, whatever comes of it: a write that was
    /// half applied may have moved the meter, and a second one could reach
    /// another device. A failure is permanent and keeps the transport's text.
    pub fn set_unit_slave_address(&mut self, addr: SlaveId) -> (result: Result<(), PZEMError>)
        ensures
            final(self).history().len() == old(self).history().len() + 1,
            final(self).history().drop_last() == old(self).history(),
            final(self).history().last() matches Exchange::Write { addr: a, value: v, failure }
                && a == SLAVE_ADDRESS_REGISTER && v == addr && result_view(result)
                == write_verdict(failure),
    {
        let outcome = self.ctx.write_single_register(SLAVE_ADDRESS_REGISTER, addr as u16);
        assert(self.history().drop_last() == old(self).history());
        write_result(outcome)
    }

    /// Reads one input register of `slave_id`, selecting that slave first.
    pub fn get_u16(&mut self, slave_id: u8, addr: Address) -> (result: Result<u16, PZEMError>)
        ensures
            extends(old(self).history(), final(self).history()),
            ({
                let steps = added(old(self).history(), final(self).history());
                &&& steps.len() >= 2
                &&& steps[0] == Exchange::SetSlave(slave_id)
                &&& policy_read(steps.skip(1), addr, 1)
                &&& result_view(result) == word_verdict(verdict_of(steps.last()))
            }),
    {
        self.select_slave(slave_id);
        let ghost selected = self.history();
        assert(selected.drop_last() =~= old(self).history());
        let read = self.retry_read_input_registers(addr, 1);
        proof {
            lemma_select_then_read(old(self).history(), selected, self.history());
        }
        decode_u16(read)
    }

    /// Reads two input registers of the slave selected last and joins them,
    /// the second word as the upper half.
    ///
    /// No slave is selected here: `slave_id` is not used, and the read goes
    /// to whichever slave the session was pointed at before.
    pub fn get_u32(&mut self, slave_id: u8, addr: Address) -> (result: Result<u32, PZEMError>)
        ensures
            extends(old(self).history(), final(self).history()),
            policy_read(added(old(self).history(), final(self).history()), addr, 2),
            result_view(result) == double_word_verdict(
                verdict_of(final(self).history().last()),
            ),
    {
        let read = self.retry_read_input_registers(addr, 2);
        decode_u32(read)
    }

    /// Reads the measurement block of `slave_id`, selecting that slave first.
    pub fn get_data(&mut self, slave_id: u8) -> (result: Result<PZEMData, PZEMError>)
        ensures
            extends(old(self).history(), final(self).history()),
            ({
                let steps = added(old(self).history(), final(self).history());
                &&& steps.len() >= 2
                &&& steps[0] == Exchange::SetSlave(slave_id)
                &&& policy_read(
                    steps.skip(1),
                    MEASUREMENT_BASE_REGISTER,
                    MEASUREMENT_REGISTER_COUNT,
                )
                &&& result_view(result) == data_verdict(
                    verdict_of(steps.last()),
                )
            }),
    {
        self.select_slave(slave_id);
        let ghost selected = self.history();
        assert(selected.drop_last() =~= old(self).history());
        let read = self.retry_read_input_registers(
            MEASUREMENT_BASE_REGISTER,
            MEASUREMENT_REGISTER_COUNT,
        );
        proof {
            lemma_select_then_read(old(self).history(), selected, self.history());
        }
        decode_data(read)
    }

    /// Reads `q` input registers at `addr` from the slave selected last,
    /// trying once more, after a jittered pause, if the first attempt ends
    /// in a transient failure. The verdict on the last attempt is the result.
    pub fn retry_read_input_registers(&mut self, addr: Address, q: Quantity) -> (result: Result<
        Vec<Word>,
        PZEMError,
    >)
        ensures
            extends(old(self).history(), final(self).history()),
            policy_read(added(old(self).history(), final(self).history()), addr, q),
            words_view(result) == verdict_of(final(self).history().last()),
    {
        let delays = retry_delays(DEFAULT_BACKOFF_BASE_MS, MAX_RETRIES);
        let ghost before = self.history();
        let ghost mut steps: Seq<Exchange> = Seq::empty();
        let mut used: usize = 0;
        loop
            invariant
                used <= delays@.len(),
                delays@.len() == MAX_RETRIES,
                forall|i: int|
                    0 <= i < delays@.len() ==> #[trigger] delays@[i] <= backoff_ms(
                        DEFAULT_BACKOFF_BASE_MS,
                        i as nat,
                    ),
                before == old(self).history(),
                self.history() == before + steps,
                steps.len() == 2 * used,
                forall|i: int|
                    0 <= i < steps.len() && i % 2 == 0 ==> is_read_of(#[trigger] steps[i], addr, q),
                forall|i: int|
                    0 <= i < steps.len() && i % 2 == 0 ==> verdict_of(#[trigger] steps[i])
                        == Err::<Seq<Word>, ErrorView>(
                        ErrorView::Transient,
                    ),
                forall|i: int|
                    0 <= i < steps.len() && i % 2 == 1 ==> is_pause_within(
                        #[trigger] steps[i],
                        backoff_ms(DEFAULT_BACKOFF_BASE_MS, (i / 2) as nat),
                    ),
            decreases delays@.len() - used,
        {
            let attempt = action_read_input_registers(self, addr, q);
            proof {
                let earlier = steps;
                steps = steps.push(self.history().last());
                assert(self.history() =~= self.history().drop_last().push(self.history().last()));
                assert((before + earlier).push(self.history().last()) =~= before + steps);
            }
            let again = match &attempt {
                Ok(_) => false,
                Err(error) => used < delays.len() && error.is_transient(),
            };
            if !again {
                proof {
                    assert(added(before, self.history()) =~= steps);
                    assert(self.history().subrange(0, before.len() as int) =~= before);
                }
                return attempt;
            }
            self.ctx.pause(delays[used]);
            proof {
                let earlier = steps;
                steps = steps.push(Exchange::Pause(delays@[used as int]));
                assert((before + earlier).push(Exchange::Pause(delays@[used as int])) =~= before
                    + steps);
            }
            used += 1;
        }
    }
}

/// Makes one read attempt for `q` input registers at `addr`, under the
/// per-attempt timeout, and judges how it ended.
pub fn action_read_input_registers<C: PZEMConn>(
    pzem: &mut PZEM<C>,
    addr: Address,
    q: Quantity,
) -> (result: Result<Vec<Word>, PZEMError>)
    ensures
        final(pzem).history().len() == old(pzem).history().len() + 1,
        final(pzem).history().drop_last() == old(pzem).history(),
        is_read_of(final(pzem).history().last(), addr, q),
        words_view(result) == verdict_of(final(pzem).history().last()),
{
    let outcome = pzem.ctx.read_input_registers(addr, q, READ_TIMEOUT_MS);
    assert(pzem.history().drop_last() == old(pzem).history());
    read_attempt_result(outcome)
}

/// Under the client's policy a read that meets a transient failure on every
/// attempt makes exactly two attempts and reports the transient failure.
pub proof fn lemma_two_attempts_when_transient(
    steps: Seq<Exchange>,
    addr: Address,
    count: Quantity,
)
    requires
        policy_read(steps, addr, count),
        forall|i: int|
            0 <= i < steps.len() && #[trigger] steps[i] is Read ==> verdict_of(steps[i])
                == Err::<Seq<Word>, ErrorView>(ErrorView::Transient),
    ensures
        read_attempts(steps) == 2,
        verdict_of(steps.last()) == Err::<Seq<Word>, ErrorView>(ErrorView::Transient),
{
    lemma_transient_throughout(steps, addr, count, MAX_RETRIES as nat, DEFAULT_BACKOFF_BASE_MS);
}

/// Under the client's policy a read whose first attempt ends in a permanent
/// failure makes that one attempt, and the failure is its result.
pub proof fn lemma_one_attempt_when_permanent(
    steps: Seq<Exchange>,
    addr: Address,
    count: Quantity,
    detail: Seq<char>,
)
    requires
        policy_read(steps, addr, count),
        verdict_of(steps[0]) == Err::<Seq<Word>, ErrorView>(ErrorView::Misc(detail)),
    ensures
        read_attempts(steps) == 1,
        verdict_of(steps.last()) == Err::<Seq<Word>, ErrorView>(ErrorView::Misc(detail)),
{
    lemma_first_verdict_is_final(steps, addr, count, MAX_RETRIES as nat, DEFAULT_BACKOFF_BASE_MS);
}

/// Under the client's policy no read makes more than two attempts.
pub proof fn lemma_at_most_two_attempts(steps: Seq<Exchange>, addr: Address, count: Quantity)
    requires
        policy_read(steps, addr, count),
    ensures
        1 <= read_attempts(steps) <= 2,
{
    lemma_attempts_are_bounded(steps, addr, count, MAX_RETRIES as nat, DEFAULT_BACKOFF_BASE_MS);
}

} // verus!
