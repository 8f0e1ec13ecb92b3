//! The single-slot TX mailbox between the initiator and the TX worker.
//!
//! The initiator stages one message; the worker takes it, sends it and posts the
//! result; the initiator consumes the result. Only then can the next message be
//! staged, so two submissions never overlap.
use vstd::prelude::*;

use crate::bus::PENDING_CMD_TX_CAP;
use crate::bytes::{copy_bytes, zeroed};
use crate::error::DrvError;

verus! {

/// Time the initiator waits for the worker's result, in milliseconds.
pub const TX_DONE_TIMEOUT_MS: u32 = 5000;

/// Slice of that wait between two looks at the result, in milliseconds.
pub const TX_DONE_POLL_MS: u32 = 50;

/// Where the mailbox stands, as a mathematical value.
pub enum TxPhase {
    /// Empty: a message can be staged.
    Idle,
    /// A message of `len` bytes is staged in a zero-filled staging buffer.
    Staged(Seq<u8>, nat),
    /// The worker has taken the message and is sending it.
    InFlight,
    /// The worker has posted this result (0 or a negative errno).
    Done(i32),
}

/// The mailbox.
pub struct TxMailbox {
    staged: Option<(Vec<u8>, usize)>,
    in_flight: bool,
    done: Option<i32>,
}

impl View for TxMailbox {
    type V = TxPhase;

    closed spec fn view(&self) -> TxPhase {
        match self.staged {
            Some((b, n)) => TxPhase::Staged(b@, n as nat),
            None => if self.in_flight {
                TxPhase::InFlight
            } else {
                match self.done {
                    Some(r) => TxPhase::Done(r),
                    None => TxPhase::Idle,
                }
            },
        }
    }
}

/// The staging buffer for a message: the message bytes, then zeros up to the capacity.
pub open spec fn staged_bytes(msg: Seq<u8>, len: int) -> Seq<u8> {
    Seq::new(
        PENDING_CMD_TX_CAP as nat,
        |i: int|
            if i < len {
                msg[i]
            } else {
                0u8
            },
    )
}

/// What a successful `submit` leaves behind.
pub open spec fn submit_post(
    v: TxPhase,
    msg: Seq<u8>,
    len: int,
    r: Result<(), DrvError>,
    v2: TxPhase,
) -> bool {
    &&& r is Err <==> (len > PENDING_CMD_TX_CAP || len > msg.len() || !(v is Idle))
    &&& r matches Err(e) ==> v2 == v && e == if len > PENDING_CMD_TX_CAP {
        DrvError::NoMem
    } else if len > msg.len() {
        DrvError::Invalid
    } else {
        DrvError::Again
    }
    &&& r is Ok ==> v2 == TxPhase::Staged(staged_bytes(msg, len), len as nat)
}

impl TxMailbox {
    /// An empty mailbox.
    pub fn new() -> (r: TxMailbox)
        ensures
            r@ is Idle,
    {
        TxMailbox { staged: None, in_flight: false, done: None }
    }

    /// Stages the first `len` bytes of `msg` for the worker. Fails with
    /// invalid-argument when the message does not fit, and with try-again while an
    /// earlier message is staged, in flight, or its result not yet consumed.
    pub fn submit(&mut self, msg: &[u8], len: usize) -> (r: Result<(), DrvError>)
        ensures
            submit_post(old(self)@, msg@, len as int, r, final(self)@),
    {
        if len > PENDING_CMD_TX_CAP {
            return Err(DrvError::NoMem);
        }
        if len > msg.len() {
            return Err(DrvError::Invalid);
        }
        if self.staged.is_some() || self.in_flight || self.done.is_some() {
            return Err(DrvError::Again);
        }
        let mut arr = zeroed(PENDING_CMD_TX_CAP);
        copy_bytes(&mut arr, 0, msg, 0, len);
        assert(arr@ =~= staged_bytes(msg@, len as int));
        self.staged = Some((arr, len));
        Ok(())
    }

    /// The worker takes the staged message, if there is one: its staging buffer and
    /// length. The mailbox is then in flight.
    pub fn take_pending(&mut self) -> (r: Option<(Vec<u8>, usize)>)
        ensures
            old(self)@ matches TxPhase::Staged(b, n) ==> r matches Some((buf, len)) && buf@ == b
                && len == n && final(self)@ is InFlight,
            !(old(self)@ is Staged) ==> r is None && final(self)@ == old(self)@,
    {
        let r = self.staged.take();
        if r.is_some() {
            self.in_flight = true;
        }
        r
    }

    /// The worker posts the result of the send it took.
    pub fn post_result(&mut self, result: i32) -> (r: bool)
        ensures
            r == old(self)@ is InFlight,
            r ==> final(self)@ == TxPhase::Done(result),
            !r ==> final(self)@ == old(self)@,
    {
        if self.staged.is_none() && self.in_flight {
            self.in_flight = false;
            self.done = Some(result);
            true
        } else {
            false
        }
    }

    /// The initiator consumes the posted result, which empties the mailbox:
    /// `Ok` for 0, the errno otherwise. `None` while no result is posted.
    pub fn take_result(&mut self) -> (r: Option<Result<(), i32>>)
        ensures
            old(self)@ matches TxPhase::Done(c) ==> final(self)@ is Idle && r == Some(
                if c == 0 {
                    Ok::<(), i32>(())
                } else {
                    Err(c)
                },
            ),
            !(old(self)@ is Done) ==> r is None && final(self)@ == old(self)@,
    {
        if self.staged.is_some() || self.in_flight {
            return None;
        }
        match self.done {
            Some(c) => {
                self.done = None;
                Some(
                    if c == 0 {
                        Ok(())
                    } else {
                        Err(c)
                    },
                )
            },
            _ => None,
        }
    }

    /// The initiator gives up on a send that timed out: the mailbox is emptied so
    /// that the next message can be staged.
    pub fn cancel(&mut self)
        ensures
            final(self)@ is Idle,
    {
        self.staged = None;
        self.in_flight = false;
        self.done = None;
    }
}

/// What the initiator does after one slice of waiting for the TX result.
#[derive(Clone, Copy, Debug)]
pub enum TxWait {
    /// The result is in.
    Finished(Result<(), i32>),
    /// Wait another slice.
    Wait,
    /// The whole wait has run out.
    TimedOut,
}

/// One step of the initiator's wait: `result` is what `take_result` gave after the
/// slice, `timed_out` whether the slice ended without a wake-up, `elapsed_ms` the
/// time counted so far (updated in place).
pub fn wait_tx_done_step(elapsed_ms: &mut u32, result: Option<Result<(), i32>>, timed_out: bool) -> (a: TxWait)
    requires
        *old(elapsed_ms) < TX_DONE_TIMEOUT_MS,
    ensures
        result matches Some(x) ==> a == TxWait::Finished(x) && *final(elapsed_ms) == *old(
            elapsed_ms,
        ),
        result is None && !timed_out ==> a == TxWait::Wait && *final(elapsed_ms) == *old(
            elapsed_ms,
        ),
        result is None && timed_out ==> *final(elapsed_ms) == *old(elapsed_ms) + TX_DONE_POLL_MS
            && a == if *old(elapsed_ms) + TX_DONE_POLL_MS >= TX_DONE_TIMEOUT_MS {
            TxWait::TimedOut
        } else {
            TxWait::Wait
        },
{
    match result {
        Some(x) => TxWait::Finished(x),
        None => {
            if timed_out {
                *elapsed_ms = *elapsed_ms + TX_DONE_POLL_MS;
                if *elapsed_ms >= TX_DONE_TIMEOUT_MS {
                    TxWait::TimedOut
                } else {
                    TxWait::Wait
                }
            } else {
                TxWait::Wait
            }
        },
    }
}

/// Two submissions never overlap: once a message is staged, a second submission
/// fails and changes nothing until the worker has posted the first one's result and
/// the initiator has consumed it.
pub proof fn lemma_second_submit_waits(
    v: TxPhase,
    msg: Seq<u8>,
    len: int,
    r: Result<(), DrvError>,
    v2: TxPhase,
)
    requires
        !(v is Idle),
        submit_post(v, msg, len, r, v2),
    ensures
        r is Err,
        v2 == v,
{
}

} // verus!
