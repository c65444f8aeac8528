//! The session a client talks through, and the record of what was exchanged.

use vstd::prelude::*;

pub use tokio_modbus::{Address, Quantity, SlaveId};

verus! {

/// One 16-bit register value, the unit in which a meter answers.
pub type Word = u16;

/// What a transport reports when a request fails.
#[derive(Debug)]
pub struct TransportFailure {
    /// Error code of the operating system, where the failure has one.
    pub os_code: Option<i32>,
    /// Text of the failure as the transport words it.
    pub message: String,
}

/// Mathematical value of a [`TransportFailure`].
pub struct FailureView {
    pub os_code: Option<i32>,
    pub message: Seq<char>,
}

impl View for TransportFailure {
    type V = FailureView;

    open spec fn view(&self) -> FailureView {
        FailureView { os_code: self.os_code, message: self.message@ }
    }
}

/// How one timed read attempt ended.
#[derive(Debug)]
pub enum ReadOutcome {
    /// The device answered with these words.
    Words(Vec<Word>),
    /// No answer arrived within the time allowed.
    TimedOut,
    /// The transport reported a failure.
    Failed(TransportFailure),
}

/// Mathematical value of a [`ReadOutcome`].
pub enum ReadOutcomeView {
    Words(Seq<Word>),
    TimedOut,
    Failed(FailureView),
}

impl View for ReadOutcome {
    type V = ReadOutcomeView;

    open spec fn view(&self) -> ReadOutcomeView {
        match self {
            ReadOutcome::Words(words) => ReadOutcomeView::Words(words@),
            ReadOutcome::TimedOut => ReadOutcomeView::TimedOut,
            ReadOutcome::Failed(failure) => ReadOutcomeView::Failed(failure@),
        }
    }
}

/// One thing that happened on a session, in the order it happened.
pub enum Exchange {
    /// The session was pointed at a slave.
    SetSlave(SlaveId),
    /// Input registers were requested; `outcome` is how the attempt ended.
    Read { addr: Address, count: Quantity, timeout_ms: u64, outcome: ReadOutcomeView },
    /// A single register was written; `failure` is `None` when it succeeded.
    Write { addr: Address, value: Word, failure: Option<FailureView> },
    /// The session stayed idle for this many milliseconds.
    Pause(u64),
}

/// Mathematical value of the result of a register write.
pub open spec fn write_failure(result: Result<(), TransportFailure>) -> Option<FailureView> {
    match result {
        Ok(_) => None,
        Err(failure) => Some(failure@),
    }
}

/// A session to a Modbus gateway: the three requests a meter client needs,
/// and the ability to let the line rest between two attempts.
///
/// `trace` is the sequence of everything done through the session so far.
/// Every method adds exactly its own exchange to it, with the arguments it
/// was given and the answer it returned. Nothing is promised of the answers
/// themselves.
///
/// These clauses are not proved of an implementation written outside this
/// crate; they hold of any that does nothing but serve the request.
pub trait PZEMConn {
    /// Everything done through this session, oldest first.
    ///
    /// An implementation that is to be verified defines it. The body given
    /// here only lets one that is not leave it out; it says nothing that
    /// code generic over the session can use.
    open spec fn trace(&self) -> Seq<Exchange> {
        arbitrary()
    }

    /// Directs all following requests at `slave`.
    fn set_slave(&mut self, slave: SlaveId)
        ensures
            final(self).trace() == old(self).trace().push(Exchange::SetSlave(slave)),
    ;

    /// Requests `count` input registers from `addr`, waiting at most
    /// `timeout_ms` for the answer.
    fn read_input_registers(&mut self, addr: Address, count: Quantity, timeout_ms: u64) -> (outcome:
        ReadOutcome)
        ensures
            final(self).trace() == old(self).trace().push(
                Exchange::Read { addr, count, timeout_ms, outcome: outcome@ },
            ),
    ;

    /// Writes `value` to the holding register at `addr`.
    fn write_single_register(&mut self, addr: Address, value: Word) -> (outcome: Result<
        (),
        TransportFailure,
    >)
        ensures
            final(self).trace() == old(self).trace().push(
                Exchange::Write { addr, value, failure: write_failure(outcome) },
            ),
    ;

    /// Lets `delay_ms` milliseconds pass.
    fn pause(&mut self, delay_ms: u64)
        ensures
            final(self).trace() == old(self).trace().push(Exchange::Pause(delay_ms)),
    ;
}

} // verus!
