use vstd::prelude::*;

use crate::bus::{Outcome, Request};
use crate::decode::{decode, decoded, Sample};
use crate::fifo::{available_from_pointers, pending_count};
use crate::init::{
    clear_failure_is_fatal, init_next, init_result, init_run, InitError, InitPhase, InitReport,
    Initializer,
};
use crate::quality::{classify, verdict_of, Verdict};
use crate::registers::{
    FIFO_ALMOST_FULL, REG_FIFO_DATA, REG_FIFO_RD_PTR, REG_FIFO_WR_PTR, REG_INTR_STATUS_1,
    REG_LED1_PA,
};

verus! {

/// Successful status reads between two diagnostic emissions: about one
/// second at the polling rate.
pub const DIAGNOSTIC_PERIOD: u16 = 400;

/// Pause at the end of every iteration, for a polling rate of about 400 Hz.
pub const POLL_DELAY_MICROS: u32 = 2500;

/// Where the current polling iteration stands.
#[derive(Clone, Copy, Debug, PartialEq, Eq, Structural)]
pub enum PollPhase {
    /// Read the interrupt status.
    Status,
    /// Read the LED amplitude for the periodic diagnostics.
    Led,
    /// Read the FIFO write pointer.
    WritePointer,
    /// Read the FIFO read pointer.
    ReadPointer,
    /// Read one FIFO entry.
    Frame,
    /// Wait out the rest of the period.
    Delay,
}

/// Something worth telling the diagnostic sink after one step.
#[derive(Clone, Copy, Debug, PartialEq, Eq, Structural)]
pub enum PollNote {
    Quiet,
    StatusFailed,
    /// Periodic diagnostics: the interrupt status just read.
    Heartbeat(u8),
    /// Periodic diagnostics: the LED amplitude register.
    Led(u8),
    LedFailed,
    /// Samples waiting in the FIFO.
    Available(u8),
    PointersFailed,
    /// One sample was read, decoded and classified.
    Reading { sample: Sample, verdict: Verdict },
    FrameFailed,
}

/// The polling loop as a state machine that never ends: every transport
/// failure is reported and the loop goes on to its delay.
#[derive(Clone, Copy, Debug)]
pub struct Poller {
    pub phase: PollPhase,
    /// Successful status reads since the last diagnostics.
    pub counter: u16,
    /// The interrupt status read in this iteration.
    pub status: u8,
    /// The FIFO write pointer read in this iteration.
    pub write_ptr: u8,
}

pub open spec fn fifo_flagged(status: u8) -> bool {
    status & FIFO_ALMOST_FULL != 0
}

/// Where an iteration goes once the status is known and the diagnostics, if
/// any, are done.
pub open spec fn after_status(status: u8) -> PollPhase {
    if fifo_flagged(status) {
        PollPhase::WritePointer
    } else {
        PollPhase::Delay
    }
}

pub open spec fn poll_request(p: PollPhase) -> Request {
    match p {
        PollPhase::Status => Request::ReadRegister { reg: REG_INTR_STATUS_1 },
        PollPhase::Led => Request::ReadRegister { reg: REG_LED1_PA },
        PollPhase::WritePointer => Request::ReadRegister { reg: REG_FIFO_WR_PTR },
        PollPhase::ReadPointer => Request::ReadRegister { reg: REG_FIFO_RD_PTR },
        PollPhase::Frame => Request::ReadFrame { reg: REG_FIFO_DATA },
        PollPhase::Delay => Request::Wait { micros: POLL_DELAY_MICROS },
    }
}

/// One step of the loop.
pub open spec fn poll_next(s: Poller, o: Outcome) -> Poller {
    match s.phase {
        PollPhase::Status => match o {
            Outcome::Byte(b) => if s.counter + 1 == DIAGNOSTIC_PERIOD {
                Poller { phase: PollPhase::Led, counter: 0, status: b, ..s }
            } else {
                Poller { phase: after_status(b), counter: (s.counter + 1) as u16, status: b, ..s }
            },
            _ => Poller { phase: PollPhase::Delay, ..s },
        },
        PollPhase::Led => Poller { phase: after_status(s.status), ..s },
        PollPhase::WritePointer => match o {
            Outcome::Byte(w) => Poller { phase: PollPhase::ReadPointer, write_ptr: w, ..s },
            _ => Poller { phase: PollPhase::Delay, ..s },
        },
        PollPhase::ReadPointer => match o {
            Outcome::Byte(r) => Poller {
                phase: if pending_count(s.write_ptr as int, r as int) > 0 {
                    PollPhase::Frame
                } else {
                    PollPhase::Delay
                },
                ..s
            },
            _ => Poller { phase: PollPhase::Delay, ..s },
        },
        PollPhase::Frame => Poller { phase: PollPhase::Delay, ..s },
        PollPhase::Delay => Poller { phase: PollPhase::Status, ..s },
    }
}

/// What one step reports.
pub open spec fn poll_note(s: Poller, o: Outcome) -> PollNote {
    match (s.phase, o) {
        (PollPhase::Status, Outcome::Byte(b)) => if s.counter + 1 == DIAGNOSTIC_PERIOD {
            PollNote::Heartbeat(b)
        } else {
            PollNote::Quiet
        },
        (PollPhase::Status, _) => PollNote::StatusFailed,
        (PollPhase::Led, Outcome::Byte(v)) => PollNote::Led(v),
        (PollPhase::Led, _) => PollNote::LedFailed,
        (PollPhase::WritePointer, Outcome::Byte(_)) => PollNote::Quiet,
        (PollPhase::ReadPointer, Outcome::Byte(r)) => PollNote::Available(
            pending_count(s.write_ptr as int, r as int) as u8,
        ),
        (PollPhase::WritePointer, _) => PollNote::PointersFailed,
        (PollPhase::ReadPointer, _) => PollNote::PointersFailed,
        (PollPhase::Frame, Outcome::Frame(f)) => PollNote::Reading {
            sample: decoded(f@),
            verdict: verdict_of(decoded(f@)),
        },
        (PollPhase::Frame, _) => PollNote::FrameFailed,
        (PollPhase::Delay, _) => PollNote::Quiet,
    }
}

impl Poller {
    pub open spec fn wf(&self) -> bool {
        self.counter < DIAGNOSTIC_PERIOD
    }

    /// A loop about to read the status for the first time.
    pub fn new() -> (r: Poller)
        ensures
            r.phase == PollPhase::Status,
            r.counter == 0,
            r.wf(),
    {
        Poller { phase: PollPhase::Status, counter: 0, status: 0, write_ptr: 0 }
    }

    /// The transaction to carry out next; there always is one.
    pub fn request(&self) -> (r: Request)
        ensures
            r == poll_request(self.phase),
    {
        match self.phase {
            PollPhase::Status => Request::ReadRegister { reg: REG_INTR_STATUS_1 },
            PollPhase::Led => Request::ReadRegister { reg: REG_LED1_PA },
            PollPhase::WritePointer => Request::ReadRegister { reg: REG_FIFO_WR_PTR },
            PollPhase::ReadPointer => Request::ReadRegister { reg: REG_FIFO_RD_PTR },
            PollPhase::Frame => Request::ReadFrame { reg: REG_FIFO_DATA },
            PollPhase::Delay => Request::Wait { micros: POLL_DELAY_MICROS },
        }
    }

    /// Carries the loop one step on, given what became of the request.
    pub fn on_outcome(&mut self, o: Outcome) -> (n: PollNote)
        requires
            old(self).wf(),
        ensures
            *final(self) == poll_next(*old(self), o),
            final(self).wf(),
            n == poll_note(*old(self), o),
    {
        match self.phase {
            PollPhase::Status => match o {
                Outcome::Byte(b) => {
                    self.status = b;
                    if self.counter + 1 == DIAGNOSTIC_PERIOD {
                        self.counter = 0;
                        self.phase = PollPhase::Led;
                        PollNote::Heartbeat(b)
                    } else {
                        self.counter = self.counter + 1;
                        self.phase = next_after_status(b);
                        PollNote::Quiet
                    }
                },
                _ => {
                    self.phase = PollPhase::Delay;
                    PollNote::StatusFailed
                },
            },
            PollPhase::Led => {
                self.phase = next_after_status(self.status);
                match o {
                    Outcome::Byte(v) => PollNote::Led(v),
                    _ => PollNote::LedFailed,
                }
            },
            PollPhase::WritePointer => match o {
                Outcome::Byte(w) => {
                    self.write_ptr = w;
                    self.phase = PollPhase::ReadPointer;
                    PollNote::Quiet
                },
                _ => {
                    self.phase = PollPhase::Delay;
                    PollNote::PointersFailed
                },
            },
            PollPhase::ReadPointer => match o {
                Outcome::Byte(r) => {
                    let n = available_from_pointers(self.write_ptr, r);
                    self.phase = if n > 0 {
                        PollPhase::Frame
                    } else {
                        PollPhase::Delay
                    };
                    PollNote::Available(n)
                },
                _ => {
                    self.phase = PollPhase::Delay;
                    PollNote::PointersFailed
                },
            },
            PollPhase::Frame => {
                self.phase = PollPhase::Delay;
                match o {
                    Outcome::Frame(f) => {
                        let sample = decode(f);
                        PollNote::Reading { sample, verdict: classify(sample) }
                    },
                    _ => PollNote::FrameFailed,
                }
            },
            PollPhase::Delay => {
                self.phase = PollPhase::Status;
                PollNote::Quiet
            },
        }
    }
}

/// Where an iteration goes after a status byte, once diagnostics are done.
pub fn next_after_status(status: u8) -> (r: PollPhase)
    ensures
        r == after_status(status),
{
    if status & FIFO_ALMOST_FULL != 0 {
        PollPhase::WritePointer
    } else {
        PollPhase::Delay
    }
}

/// The state reached from `s` after the host reported `outs`, in order.
pub open spec fn poll_run(s: Poller, outs: Seq<Outcome>) -> Poller
    decreases outs.len(),
{
    if outs.len() == 0 {
        s
    } else {
        poll_run(poll_next(s, outs[0]), outs.drop_first())
    }
}

/// Whether this step is a status read that succeeded.
pub open spec fn status_read_ok(s: Poller, o: Outcome) -> bool {
    s.phase is Status && o is Byte
}

/// How many of the steps taken from `s` on `outs` were successful status reads.
pub open spec fn successful_status_reads(s: Poller, outs: Seq<Outcome>) -> nat
    decreases outs.len(),
{
    if outs.len() == 0 {
        0
    } else {
        (if status_read_ok(s, outs[0]) {
            1nat
        } else {
            0nat
        }) + successful_status_reads(poll_next(s, outs[0]), outs.drop_first())
    }
}

/// The diagnostic counter counts successful status reads modulo the period,
/// whatever else happens in between; diagnostics are emitted exactly on the
/// successful status read that completes a period, and only there.
pub proof fn diagnostic_cadence(s: Poller, outs: Seq<Outcome>, o: Outcome)
    requires
        s.wf(),
    ensures
        poll_run(s, outs).wf(),
        poll_run(s, outs).counter == (s.counter + successful_status_reads(s, outs)) % (
        DIAGNOSTIC_PERIOD as int),
        (poll_note(poll_run(s, outs), o) is Heartbeat) <==> (status_read_ok(poll_run(s, outs), o)
            && (s.counter + successful_status_reads(s, outs) + 1) % (DIAGNOSTIC_PERIOD as int)
            == 0),
    decreases outs.len(),
{
    if outs.len() > 0 {
        let s1 = poll_next(s, outs[0]);
        let rest = outs.drop_first();
        diagnostic_cadence(s1, rest, o);
        let k = if status_read_ok(s, outs[0]) {
            1int
        } else {
            0int
        };
        assert(s1.counter == (s.counter + k) % 400);
        let m = successful_status_reads(s1, rest) as int;
        assert(successful_status_reads(s, outs) == k + m);
        assert(((s.counter + k) % 400 + m) % 400 == (s.counter + k + m) % 400) by {
            vstd::arithmetic::div_mod::lemma_add_mod_noop(s.counter + k, m, 400);
            vstd::arithmetic::div_mod::lemma_mod_twice(m, 400);
        }
        assert(((s.counter + k) % 400 + m + 1) % 400 == (s.counter + k + m + 1) % 400) by {
            vstd::arithmetic::div_mod::lemma_add_mod_noop(s.counter + k, m + 1, 400);
            vstd::arithmetic::div_mod::lemma_mod_twice(m + 1, 400);
        }
    } else {
        assert(s.counter % 400 == s.counter);
    }
}

/// A transport failure while clearing the FIFO write pointer ends the
/// initialization with an error naming that step; the same failure while the
/// polling loop drains the FIFO only sends that iteration on to its delay,
/// with the counter untouched, and the loop then reads the status again.
pub proof fn fatal_in_setup_recoverable_in_polling(
    i: Initializer,
    init_outs: Seq<Outcome>,
    p: Poller,
    wait: Outcome,
)
    requires
        i.phase == InitPhase::ClearWrite,
        p.phase is WritePointer || p.phase is ReadPointer || p.phase is Frame,
    ensures
        init_result(init_run(init_next(i, Outcome::BusFailed), init_outs))
            == Some(Err::<InitReport, InitError>(InitError::ClearWritePointer)),
        poll_next(p, Outcome::BusFailed).phase == PollPhase::Delay,
        poll_next(p, Outcome::BusFailed).counter == p.counter,
        poll_next(poll_next(p, Outcome::BusFailed), wait).phase == PollPhase::Status,
{
    clear_failure_is_fatal(i, init_outs);
}

} // verus!
