use max30102::bus::{Outcome, Request};
use max30102::decode::Sample;
use max30102::init::{InitError, InitNote, InitPhase, InitReport, Initializer, SETTLE_MICROS};
use max30102::poll::{PollNote, PollPhase, Poller, DIAGNOSTIC_PERIOD, POLL_DELAY_MICROS};
use max30102::quality::{Presence, RatioVerdict, Verdict};

/// A stand-in sensor: a register file that records every request and can be
/// told to fail the n-th one.
struct FakeDevice {
    regs: [u8; 256],
    frame: [u8; 6],
    log: Vec<Request>,
    fail_at: Option<usize>,
}

impl FakeDevice {
    fn new() -> FakeDevice {
        let mut regs = [0u8; 256];
        regs[0xFF] = 0x15;
        FakeDevice { regs, frame: [0; 6], log: Vec::new(), fail_at: None }
    }

    fn serve(&mut self, r: Request) -> Outcome {
        self.log.push(r);
        if self.fail_at == Some(self.log.len() - 1) {
            return Outcome::BusFailed;
        }
        match r {
            Request::ReadRegister { reg } => Outcome::Byte(self.regs[reg as usize]),
            Request::ReadFrame { .. } => Outcome::Frame(self.frame),
            Request::WriteRegister { reg, val } => {
                if reg != 0x09 || val != 0x40 {
                    self.regs[reg as usize] = val;
                }
                Outcome::Done
            }
            Request::Wait { .. } => Outcome::Done,
        }
    }
}

fn run_init(dev: &mut FakeDevice) -> (Result<InitReport, InitError>, Vec<InitNote>) {
    let mut init = Initializer::new();
    let mut notes = Vec::new();
    while let Some(r) = init.request() {
        let o = dev.serve(r);
        notes.push(init.on_outcome(o));
    }
    (init.result().unwrap(), notes)
}

#[test]
fn init_issues_reset_and_settle_before_configuration() {
    let mut dev = FakeDevice::new();
    let (res, notes) = run_init(&mut dev);
    assert_eq!(res, Ok(InitReport { part_id: 0x15, write_ptr: 0, read_ptr: 0 }));
    assert_eq!(notes[0], InitNote::Identified(0x15));
    let expected = vec![
        Request::ReadRegister { reg: 0xFF },
        Request::WriteRegister { reg: 0x09, val: 0x40 },
        Request::Wait { micros: SETTLE_MICROS },
        Request::WriteRegister { reg: 0x08, val: 0x1F },
        Request::ReadRegister { reg: 0x08 },
        Request::WriteRegister { reg: 0x09, val: 0x02 },
        Request::ReadRegister { reg: 0x09 },
        Request::WriteRegister { reg: 0x0A, val: 0x27 },
        Request::ReadRegister { reg: 0x0A },
        Request::WriteRegister { reg: 0x0C, val: 0x3F },
        Request::ReadRegister { reg: 0x0C },
        Request::WriteRegister { reg: 0x0D, val: 0x00 },
        Request::ReadRegister { reg: 0x0D },
        Request::WriteRegister { reg: 0x02, val: 0x80 },
        Request::ReadRegister { reg: 0x02 },
        Request::WriteRegister { reg: 0x04, val: 0 },
        Request::WriteRegister { reg: 0x06, val: 0 },
        Request::ReadRegister { reg: 0x04 },
        Request::ReadRegister { reg: 0x06 },
    ];
    assert_eq!(dev.log, expected);
    assert_eq!(SETTLE_MICROS, 500_000);
    assert_eq!(*notes.last().unwrap(), InitNote::Pointers { write_ptr: 0, read_ptr: 0 });
}

#[test]
fn init_failure_at_pointer_clear_is_fatal() {
    let mut dev = FakeDevice::new();
    dev.fail_at = Some(15);
    let (res, notes) = run_init(&mut dev);
    assert_eq!(res, Err(InitError::ClearWritePointer));
    assert_eq!(*notes.last().unwrap(), InitNote::Fatal(InitError::ClearWritePointer));
    assert_eq!(dev.log.len(), 16);
}

#[test]
fn init_failure_at_each_fatal_step() {
    let cases = [
        (0, InitError::Identify),
        (1, InitError::Reset),
        (3, InitError::Configure),
        (16, InitError::ClearReadPointer),
        (17, InitError::ReadWritePointer),
        (18, InitError::ReadReadPointer),
    ];
    for (at, err) in cases {
        let mut dev = FakeDevice::new();
        dev.fail_at = Some(at);
        let (res, _) = run_init(&mut dev);
        assert_eq!(res, Err(err));
        assert_eq!(dev.log.len(), at + 1);
    }
}

#[test]
fn readback_problems_do_not_stop_init() {
    let mut dev = FakeDevice::new();
    dev.fail_at = Some(4);
    let (res, _) = run_init(&mut dev);
    assert!(res.is_ok());

    let mut init = Initializer::new();
    init.on_outcome(Outcome::Byte(0x11));
    init.on_outcome(Outcome::Done);
    init.on_outcome(Outcome::Done);
    init.on_outcome(Outcome::Done);
    let note = init.on_outcome(Outcome::Byte(0x00));
    assert_eq!(note, InitNote::Mismatch { reg: 0x08, expected: 0x1F, actual: 0x00 });
    assert_eq!(init.phase, InitPhase::Configure(1));
}

#[test]
fn unexpected_part_id_is_reported_not_fatal() {
    let mut init = Initializer::new();
    assert_eq!(init.on_outcome(Outcome::Byte(0x11)), InitNote::UnexpectedPart(0x11));
    assert_eq!(init.phase, InitPhase::Reset);
    assert_eq!(init.result(), None);
}

#[test]
fn finished_init_asks_nothing_more() {
    let mut init = Initializer::new();
    init.on_outcome(Outcome::BusFailed);
    assert_eq!(init.request(), None);
    assert_eq!(init.on_outcome(Outcome::Done), InitNote::Quiet);
    assert_eq!(init.result(), Some(Err(InitError::Identify)));
}

#[test]
fn heartbeat_after_exactly_400_status_reads() {
    let mut p = Poller::new();
    let mut beats = Vec::new();
    for k in 1..=1200u32 {
        assert_eq!(p.request(), Request::ReadRegister { reg: 0x00 });
        let n = p.on_outcome(Outcome::Byte(0x00));
        if let PollNote::Heartbeat(_) = n {
            beats.push(k);
            assert_eq!(p.counter, 0);
            assert_eq!(p.request(), Request::ReadRegister { reg: 0x0C });
            p.on_outcome(Outcome::Byte(0x3F));
        }
        assert_eq!(p.request(), Request::Wait { micros: POLL_DELAY_MICROS });
        p.on_outcome(Outcome::Done);
    }
    assert_eq!(beats, vec![400, 800, 1200]);
    assert_eq!(DIAGNOSTIC_PERIOD, 400);
}

#[test]
fn failed_status_reads_do_not_advance_counter() {
    let mut p = Poller::new();
    p.on_outcome(Outcome::Byte(0));
    p.on_outcome(Outcome::Done);
    assert_eq!(p.counter, 1);
    assert_eq!(p.on_outcome(Outcome::BusFailed), PollNote::StatusFailed);
    assert_eq!(p.phase, PollPhase::Delay);
    assert_eq!(p.counter, 1);
}

#[test]
fn fifo_drain_reads_decodes_and_classifies() {
    let mut dev = FakeDevice::new();
    dev.regs[0x00] = 0x80;
    dev.regs[0x04] = 3;
    dev.regs[0x06] = 30;
    dev.frame = [0x00, 0x3A, 0x98, 0x00, 0x3A, 0x98];
    let mut p = Poller::new();
    let mut notes = Vec::new();
    for _ in 0..5 {
        let r = p.request();
        notes.push(p.on_outcome(dev.serve(r)));
    }
    assert_eq!(
        dev.log,
        vec![
            Request::ReadRegister { reg: 0x00 },
            Request::ReadRegister { reg: 0x04 },
            Request::ReadRegister { reg: 0x06 },
            Request::ReadFrame { reg: 0x07 },
            Request::Wait { micros: 2500 },
        ]
    );
    assert_eq!(notes[2], PollNote::Available(5));
    assert_eq!(
        notes[3],
        PollNote::Reading {
            sample: Sample { red: 15000, ir: 15000 },
            verdict: Verdict { presence: Presence::TissueDetected, ratio: RatioVerdict::Acceptable },
        }
    );
    assert_eq!(p.phase, PollPhase::Status);
}

#[test]
fn empty_fifo_skips_the_burst_read() {
    let mut p = Poller::new();
    p.on_outcome(Outcome::Byte(0x80));
    p.on_outcome(Outcome::Byte(9));
    assert_eq!(p.on_outcome(Outcome::Byte(9)), PollNote::Available(0));
    assert_eq!(p.phase, PollPhase::Delay);
}

#[test]
fn drain_failure_is_recoverable() {
    let mut p = Poller::new();
    p.on_outcome(Outcome::Byte(0x80));
    assert_eq!(p.phase, PollPhase::WritePointer);
    p.on_outcome(Outcome::Byte(4));
    p.on_outcome(Outcome::Byte(1));
    assert_eq!(p.phase, PollPhase::Frame);
    assert_eq!(p.on_outcome(Outcome::BusFailed), PollNote::FrameFailed);
    assert_eq!(p.phase, PollPhase::Delay);
    p.on_outcome(Outcome::Done);
    assert_eq!(p.phase, PollPhase::Status);
    assert_eq!(p.counter, 1);

    let mut q = Poller::new();
    q.on_outcome(Outcome::Byte(0x80));
    assert_eq!(q.on_outcome(Outcome::BusFailed), PollNote::PointersFailed);
    assert_eq!(q.phase, PollPhase::Delay);
}

#[test]
fn status_without_fifo_flag_goes_to_delay() {
    let mut p = Poller::new();
    assert_eq!(p.on_outcome(Outcome::Byte(0x7F)), PollNote::Quiet);
    assert_eq!(p.phase, PollPhase::Delay);
}
