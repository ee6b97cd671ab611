use vstd::prelude::*;

use crate::bus::{Outcome, Request};
use crate::registers::{
    config_entry, config_table, CONFIG_LEN, EXPECTED_PART_ID, MODE_RESET, REG_FIFO_CONFIG,
    REG_FIFO_RD_PTR, REG_FIFO_WR_PTR, REG_INTR_ENABLE_1, REG_LED1_PA, REG_LED2_PA,
    REG_MODE_CONFIG, REG_PART_ID, REG_SPO2_CONFIG,
};

verus! {

/// Time the sensor needs to finish its internal reset.
pub const SETTLE_MICROS: u32 = 500_000;

/// The initialization step at which a transport failure stopped the sequence.
#[derive(Clone, Copy, Debug, PartialEq, Eq, Structural)]
pub enum InitError {
    Identify,
    Reset,
    Configure,
    ClearWritePointer,
    ClearReadPointer,
    ReadWritePointer,
    ReadReadPointer,
}

/// Where the initialization sequence stands.
#[derive(Clone, Copy, Debug, PartialEq, Eq, Structural)]
pub enum InitPhase {
    Identify,
    Reset,
    Settle,
    Configure(usize),
    Readback(usize),
    ClearWrite,
    ClearRead,
    VerifyWrite,
    VerifyRead,
    Done,
    Failed(InitError),
}

/// What a successful initialization observed.
#[derive(Clone, Copy, Debug, PartialEq, Eq, Structural)]
pub struct InitReport {
    pub part_id: u8,
    pub write_ptr: u8,
    pub read_ptr: u8,
}

/// Something worth telling the diagnostic sink after one step.
#[derive(Clone, Copy, Debug, PartialEq, Eq, Structural)]
pub enum InitNote {
    Quiet,
    /// The part identifier was read and is the expected one.
    Identified(u8),
    /// The part identifier was read and differs from the expected one.
    UnexpectedPart(u8),
    /// A configuration register read back another value than was written.
    Mismatch { reg: u8, expected: u8, actual: u8 },
    /// Both FIFO pointers were read back after clearing.
    Pointers { write_ptr: u8, read_ptr: u8 },
    /// The sequence stopped for good.
    Fatal(InitError),
}

/// The initialization sequence as a state machine: the host asks `request`
/// what to do, does it, and hands the result to `on_outcome`.
#[derive(Clone, Copy, Debug)]
pub struct Initializer {
    pub phase: InitPhase,
    pub part_id: u8,
    pub write_ptr: u8,
    pub read_ptr: u8,
}

pub open spec fn phase_wf(p: InitPhase) -> bool {
    match p {
        InitPhase::Configure(i) => i < CONFIG_LEN,
        InitPhase::Readback(i) => i < CONFIG_LEN,
        _ => true,
    }
}

pub open spec fn is_finished(p: InitPhase) -> bool {
    p is Done || p is Failed
}

/// The transaction asked for in each phase; none once finished.
pub open spec fn init_request(p: InitPhase) -> Option<Request> {
    match p {
        InitPhase::Identify => Some(Request::ReadRegister { reg: REG_PART_ID }),
        InitPhase::Reset => Some(Request::WriteRegister { reg: REG_MODE_CONFIG, val: MODE_RESET }),
        InitPhase::Settle => Some(Request::Wait { micros: SETTLE_MICROS }),
        InitPhase::Configure(i) => Some(
            Request::WriteRegister { reg: config_table()[i as int].0, val: config_table()[i as int].1 },
        ),
        InitPhase::Readback(i) => Some(Request::ReadRegister { reg: config_table()[i as int].0 }),
        InitPhase::ClearWrite => Some(Request::WriteRegister { reg: REG_FIFO_WR_PTR, val: 0 }),
        InitPhase::ClearRead => Some(Request::WriteRegister { reg: REG_FIFO_RD_PTR, val: 0 }),
        InitPhase::VerifyWrite => Some(Request::ReadRegister { reg: REG_FIFO_WR_PTR }),
        InitPhase::VerifyRead => Some(Request::ReadRegister { reg: REG_FIFO_RD_PTR }),
        InitPhase::Done => None,
        InitPhase::Failed(_) => None,
    }
}

/// The phase after a write: on to `next` if it completed, else stopped at `e`.
pub open spec fn after_write(o: Outcome, next: InitPhase, e: InitError) -> InitPhase {
    if o is Done {
        next
    } else {
        InitPhase::Failed(e)
    }
}

/// The phase after the configuration entry `i` was read back, whatever the
/// readback gave: verification there is diagnostic only.
pub open spec fn after_readback(i: usize) -> InitPhase {
    if i + 1 < CONFIG_LEN {
        InitPhase::Configure((i + 1) as usize)
    } else {
        InitPhase::ClearWrite
    }
}

/// One step of the sequence.
pub open spec fn init_next(s: Initializer, o: Outcome) -> Initializer {
    match s.phase {
        InitPhase::Identify => match o {
            Outcome::Byte(b) => Initializer { phase: InitPhase::Reset, part_id: b, ..s },
            _ => Initializer { phase: InitPhase::Failed(InitError::Identify), ..s },
        },
        InitPhase::Reset => Initializer {
            phase: after_write(o, InitPhase::Settle, InitError::Reset),
            ..s
        },
        InitPhase::Settle => Initializer { phase: InitPhase::Configure(0), ..s },
        InitPhase::Configure(i) => Initializer {
            phase: after_write(o, InitPhase::Readback(i), InitError::Configure),
            ..s
        },
        InitPhase::Readback(i) => Initializer { phase: after_readback(i), ..s },
        InitPhase::ClearWrite => Initializer {
            phase: after_write(o, InitPhase::ClearRead, InitError::ClearWritePointer),
            ..s
        },
        InitPhase::ClearRead => Initializer {
            phase: after_write(o, InitPhase::VerifyWrite, InitError::ClearReadPointer),
            ..s
        },
        InitPhase::VerifyWrite => match o {
            Outcome::Byte(b) => Initializer { phase: InitPhase::VerifyRead, write_ptr: b, ..s },
            _ => Initializer { phase: InitPhase::Failed(InitError::ReadWritePointer), ..s },
        },
        InitPhase::VerifyRead => match o {
            Outcome::Byte(b) => Initializer { phase: InitPhase::Done, read_ptr: b, ..s },
            _ => Initializer { phase: InitPhase::Failed(InitError::ReadReadPointer), ..s },
        },
        InitPhase::Done => s,
        InitPhase::Failed(_) => s,
    }
}

/// What one step reports.
pub open spec fn init_note(s: Initializer, o: Outcome) -> InitNote {
    let t = init_next(s, o);
    match t.phase {
        InitPhase::Failed(e) => if is_finished(s.phase) {
            InitNote::Quiet
        } else {
            InitNote::Fatal(e)
        },
        _ => match (s.phase, o) {
            (InitPhase::Identify, Outcome::Byte(b)) => if b == EXPECTED_PART_ID {
                InitNote::Identified(b)
            } else {
                InitNote::UnexpectedPart(b)
            },
            (InitPhase::Readback(i), Outcome::Byte(b)) => if b != config_table()[i as int].1 {
                InitNote::Mismatch { reg: config_table()[i as int].0, expected: config_table()[i as int].1, actual: b }
            } else {
                InitNote::Quiet
            },
            (InitPhase::VerifyRead, Outcome::Byte(b)) => InitNote::Pointers { write_ptr: s.write_ptr, read_ptr: b },
            _ => InitNote::Quiet,
        },
    }
}

/// The end result of the sequence in state `s`, once it is over.
pub open spec fn init_result(s: Initializer) -> Option<Result<InitReport, InitError>> {
    match s.phase {
        InitPhase::Done => Some(
            Ok(InitReport { part_id: s.part_id, write_ptr: s.write_ptr, read_ptr: s.read_ptr }),
        ),
        InitPhase::Failed(e) => Some(Err(e)),
        _ => None,
    }
}

impl Initializer {
    pub open spec fn wf(&self) -> bool {
        phase_wf(self.phase)
    }

    /// A sequence that has not yet touched the bus.
    pub fn new() -> (r: Initializer)
        ensures
            r.phase == InitPhase::Identify,
            r.wf(),
    {
        Initializer { phase: InitPhase::Identify, part_id: 0, write_ptr: 0, read_ptr: 0 }
    }

    /// The transaction to carry out next, or `None` once the sequence is over.
    pub fn request(&self) -> (r: Option<Request>)
        requires
            self.wf(),
        ensures
            r == init_request(self.phase),
    {
        match self.phase {
            InitPhase::Identify => Some(Request::ReadRegister { reg: REG_PART_ID }),
            InitPhase::Reset => Some(Request::WriteRegister { reg: REG_MODE_CONFIG, val: MODE_RESET }),
            InitPhase::Settle => Some(Request::Wait { micros: SETTLE_MICROS }),
            InitPhase::Configure(i) => {
                let (reg, val) = config_entry(i);
                Some(Request::WriteRegister { reg, val })
            },
            InitPhase::Readback(i) => {
                let (reg, _) = config_entry(i);
                Some(Request::ReadRegister { reg })
            },
            InitPhase::ClearWrite => Some(Request::WriteRegister { reg: REG_FIFO_WR_PTR, val: 0 }),
            InitPhase::ClearRead => Some(Request::WriteRegister { reg: REG_FIFO_RD_PTR, val: 0 }),
            InitPhase::VerifyWrite => Some(Request::ReadRegister { reg: REG_FIFO_WR_PTR }),
            InitPhase::VerifyRead => Some(Request::ReadRegister { reg: REG_FIFO_RD_PTR }),
            InitPhase::Done => None,
            InitPhase::Failed(_) => None,
        }
    }

    /// Carries the sequence one step on, given what became of the request.
    pub fn on_outcome(&mut self, o: Outcome) -> (n: InitNote)
        requires
            old(self).wf(),
        ensures
            *final(self) == init_next(*old(self), o),
            final(self).wf(),
            n == init_note(*old(self), o),
    {
        match self.phase {
            InitPhase::Identify => match o {
                Outcome::Byte(b) => {
                    self.phase = InitPhase::Reset;
                    self.part_id = b;
                    if b == EXPECTED_PART_ID {
                        InitNote::Identified(b)
                    } else {
                        InitNote::UnexpectedPart(b)
                    }
                },
                _ => self.fail(InitError::Identify),
            },
            InitPhase::Reset => match o {
                Outcome::Done => {
                    self.phase = InitPhase::Settle;
                    InitNote::Quiet
                },
                _ => self.fail(InitError::Reset),
            },
            InitPhase::Settle => {
                self.phase = InitPhase::Configure(0);
                InitNote::Quiet
            },
            InitPhase::Configure(i) => match o {
                Outcome::Done => {
                    self.phase = InitPhase::Readback(i);
                    InitNote::Quiet
                },
                _ => self.fail(InitError::Configure),
            },
            InitPhase::Readback(i) => {
                self.phase = if i + 1 < CONFIG_LEN {
                    InitPhase::Configure(i + 1)
                } else {
                    InitPhase::ClearWrite
                };
                let (reg, val) = config_entry(i);
                match o {
                    Outcome::Byte(b) => if b != val {
                        InitNote::Mismatch { reg, expected: val, actual: b }
                    } else {
                        InitNote::Quiet
                    },
                    _ => InitNote::Quiet,
                }
            },
            InitPhase::ClearWrite => match o {
                Outcome::Done => {
                    self.phase = InitPhase::ClearRead;
                    InitNote::Quiet
                },
                _ => self.fail(InitError::ClearWritePointer),
            },
            InitPhase::ClearRead => match o {
                Outcome::Done => {
                    self.phase = InitPhase::VerifyWrite;
                    InitNote::Quiet
                },
                _ => self.fail(InitError::ClearReadPointer),
            },
            InitPhase::VerifyWrite => match o {
                Outcome::Byte(b) => {
                    self.phase = InitPhase::VerifyRead;
                    self.write_ptr = b;
                    InitNote::Quiet
                },
                _ => self.fail(InitError::ReadWritePointer),
            },
            InitPhase::VerifyRead => match o {
                Outcome::Byte(b) => {
                    self.phase = InitPhase::Done;
                    self.read_ptr = b;
                    InitNote::Pointers { write_ptr: self.write_ptr, read_ptr: b }
                },
                _ => self.fail(InitError::ReadReadPointer),
            },
            InitPhase::Done => InitNote::Quiet,
            InitPhase::Failed(_) => InitNote::Quiet,
        }
    }

    fn fail(&mut self, e: InitError) -> (n: InitNote)
        ensures
            *final(self) == (Initializer { phase: InitPhase::Failed(e), ..*old(self) }),
            n == InitNote::Fatal(e),
    {
        self.phase = InitPhase::Failed(e);
        InitNote::Fatal(e)
    }

    /// The end result: `None` while the sequence runs, then `Ok` with what it
    /// observed, or `Err` with the step at which it stopped.
    pub fn result(&self) -> (r: Option<Result<InitReport, InitError>>)
        ensures
            r == init_result(*self),
    {
        match self.phase {
            InitPhase::Done => Some(Ok(InitReport { part_id: self.part_id, write_ptr: self.write_ptr, read_ptr: self.read_ptr })),
            InitPhase::Failed(e) => Some(Err(e)),
            _ => None,
        }
    }
}

/// The state reached from `s` after the host reported `outs`, in order.
pub open spec fn init_run(s: Initializer, outs: Seq<Outcome>) -> Initializer
    decreases outs.len(),
{
    if outs.len() == 0 {
        s
    } else {
        init_run(init_next(s, outs[0]), outs.drop_first())
    }
}

/// The requests that the outcomes `outs` answered, starting from `s`.
pub open spec fn init_answered(s: Initializer, outs: Seq<Outcome>) -> Seq<Request>
    decreases outs.len(),
{
    if outs.len() == 0 {
        seq![]
    } else {
        match init_request(s.phase) {
            Some(r) => seq![r].add(init_answered(init_next(s, outs[0]), outs.drop_first())),
            None => seq![],
        }
    }
}

/// Once over, the sequence stays as it is, whatever the host reports.
pub proof fn lemma_finished_stays(s: Initializer, outs: Seq<Outcome>)
    requires
        is_finished(s.phase),
    ensures
        init_run(s, outs) == s,
    decreases outs.len(),
{
    if outs.len() > 0 {
        lemma_finished_stays(init_next(s, outs[0]), outs.drop_first());
    }
}

/// Whenever the sequence asks for a configuration write, the reset write has
/// been issued and succeeded, and the settle delay has been waited out, in that
/// order, right after the part identifier was read.
pub proof fn reset_and_settle_precede_configuration(s: Initializer, outs: Seq<Outcome>, reg: u8, val: u8)
    requires
        s.phase == InitPhase::Identify,
        (init_request(init_run(s, outs).phase) == Some(Request::WriteRegister { reg, val })),
        config_table().contains((reg, val)),
    ensures
        outs.len() >= 3,
        (outs[1] is Done),
        init_answered(s, outs).len() >= 3,
        (init_answered(s, outs)[0] == Request::ReadRegister { reg: REG_PART_ID }),
        (init_answered(s, outs)[1] == Request::WriteRegister { reg: REG_MODE_CONFIG, val: MODE_RESET }),
        (init_answered(s, outs)[2] == Request::Wait { micros: SETTLE_MICROS }),
{
    let t = init_run(s, outs);
    let tbl = config_table();
    assert(tbl[0] == (REG_FIFO_CONFIG, 0x1Fu8));
    assert(tbl[1] == (REG_MODE_CONFIG, 0x02u8));
    assert(tbl[2] == (REG_SPO2_CONFIG, 0x27u8));
    assert(tbl[3] == (REG_LED1_PA, 0x3Fu8));
    assert(tbl[4] == (REG_LED2_PA, 0x00u8));
    assert(tbl[5] == (REG_INTR_ENABLE_1, 0x80u8));
    // The reset write and the two pointer clears are not table entries.
    assert(!tbl.contains((REG_MODE_CONFIG, MODE_RESET)));
    assert(!tbl.contains((REG_FIFO_WR_PTR, 0u8)));
    assert(!tbl.contains((REG_FIFO_RD_PTR, 0u8)));
    if outs.len() == 0 {
        assert(t == s);
    } else {
        let s1 = init_next(s, outs[0]);
        let r1 = outs.drop_first();
        assert(t == init_run(s1, r1));
        if s1.phase is Failed {
            lemma_finished_stays(s1, r1);
        } else if r1.len() == 0 {
            assert(init_run(s1, r1) == s1);
        } else {
            let s2 = init_next(s1, r1[0]);
            let r2 = r1.drop_first();
            assert(init_run(s1, r1) == init_run(s2, r2));
            if s2.phase is Failed {
                lemma_finished_stays(s2, r2);
            } else if r2.len() == 0 {
                assert(init_run(s2, r2) == s2);
            } else {
                let s3 = init_next(s2, r2[0]);
                let r3 = r2.drop_first();
                assert(r1[0] == outs[1]);
                assert(init_answered(s2, r2) == seq![Request::Wait { micros: SETTLE_MICROS }].add(init_answered(s3, r3)));
                assert(init_answered(s1, r1) == seq![Request::WriteRegister { reg: REG_MODE_CONFIG, val: MODE_RESET }].add(init_answered(s2, r2)));
                assert(init_answered(s, outs) == seq![Request::ReadRegister { reg: REG_PART_ID }].add(init_answered(s1, r1)));
                assert(init_answered(s, outs) == seq![Request::ReadRegister { reg: REG_PART_ID }].add(
                    seq![Request::WriteRegister { reg: REG_MODE_CONFIG, val: MODE_RESET }].add(
                        seq![Request::Wait { micros: SETTLE_MICROS }].add(init_answered(s3, r3)),
                    ),
                ));
            }
        }
    }
}

/// A transport failure while clearing the FIFO write pointer ends the sequence
/// with an error that names that step, whatever the host reports afterwards.
pub proof fn clear_failure_is_fatal(s: Initializer, outs: Seq<Outcome>)
    requires
        s.phase == InitPhase::ClearWrite,
    ensures
        init_result(init_run(init_next(s, Outcome::BusFailed), outs))
            == Some(Err::<InitReport, InitError>(InitError::ClearWritePointer)),
{
    lemma_finished_stays(init_next(s, Outcome::BusFailed), outs);
}

} // verus!
