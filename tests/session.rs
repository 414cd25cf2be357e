use std::collections::HashMap;

use msi_rgb::codec::{ChannelSet, EffectConfig};
use msi_rgb::pio::{IodevPioReq, PIO_READ, PIO_WRITE};
use msi_rgb::session::{
    chip_identity, identity_known, Action, Event, Failure, Note, PortOp, Session, SessionError,
    SessionOptions,
};

const BASE: u16 = 0x4E;

/// A chip behind two ports: index register at `BASE`, data at `BASE + 1`.
struct FakeChip {
    index: u8,
    bank: u8,
    identity: u16,
    regs: HashMap<(u8, u8), u8>,
    ops: Vec<PortOp>,
    notes: Vec<Note>,
    fail_at: Option<usize>,
    fail_relock: bool,
}

impl FakeChip {
    fn new(identity: u16) -> FakeChip {
        FakeChip {
            index: 0,
            bank: 0,
            identity,
            regs: HashMap::new(),
            ops: Vec::new(),
            notes: Vec::new(),
            fail_at: None,
            fail_relock: false,
        }
    }

    fn perform(&mut self, op: PortOp) -> Event {
        let n = self.ops.len();
        self.ops.push(op);
        if self.fail_at == Some(n) {
            return Event::Failed;
        }
        match op {
            PortOp::Write { port, value } if port == BASE => {
                if value == 0xAA && self.fail_relock {
                    return Event::Failed;
                }
                self.index = value;
                Event::Written
            }
            PortOp::Write { port, value } => {
                assert_eq!(port, BASE + 1);
                if self.index == 0x07 {
                    self.bank = value;
                } else {
                    self.regs.insert((self.bank, self.index), value);
                }
                Event::Written
            }
            PortOp::Read { port } => {
                assert_eq!(port, BASE + 1);
                let v = match self.index {
                    0x20 => (self.identity >> 8) as u8,
                    0x21 => self.identity as u8,
                    i => *self.regs.get(&(self.bank, i)).unwrap_or(&0),
                };
                Event::Value(v)
            }
        }
    }

    fn run(&mut self, config: EffectConfig, options: SessionOptions) -> Result<(), SessionError> {
        let mut s = Session::new(BASE, config, options);
        for _ in 0..10_000 {
            let ev = match s.action() {
                Action::Port(op) => self.perform(op),
                Action::Report(note) => {
                    self.notes.push(note);
                    Event::Written
                }
                Action::Finish(r) => return r,
            };
            s.advance(ev);
        }
        panic!("session did not finish");
    }
}

fn red_config() -> EffectConfig {
    let none = ChannelSet::none();
    EffectConfig::new(0xFFFF_FFFF, 0, 0, 25, none, none, false, 0, false).unwrap()
}

fn checked() -> SessionOptions {
    SessionOptions { ignore_identity_check: false, dump_registers: false, single_unlock: false }
}

fn w(port: u16, value: u8) -> PortOp {
    PortOp::Write { port, value }
}

fn r(port: u16) -> PortOp {
    PortOp::Read { port }
}

fn effect_ops() -> Vec<PortOp> {
    let mut ops = vec![
        w(BASE, 0xE4), w(BASE + 1, 0x00),
        w(BASE, 0xFE), w(BASE + 1, 0x19),
        w(BASE, 0xFF), w(BASE + 1, 0xE2),
    ];
    for k in 0..12u8 {
        ops.push(w(BASE, 0xF0 + k));
        ops.push(w(BASE + 1, if k < 4 { 0xFF } else { 0x00 }));
    }
    ops
}

#[test]
fn identity_is_msb_then_lsb() {
    assert_eq!(chip_identity(0xD3, 0x51), 0xD351);
    assert_eq!(0xD351u16 & 0xFFF0, 0xD350);
    assert!(identity_known(0xD351));
    assert!(identity_known(0xD45F));
    assert!(!identity_known(0xD360));
}

#[test]
fn full_protocol_with_identity_check() {
    let mut chip = FakeChip::new(0xD351);
    assert_eq!(chip.run(red_config(), checked()), Ok(()));
    let mut expected = vec![
        w(BASE, 0x87), w(BASE, 0x87),
        w(BASE, 0x20), r(BASE + 1), w(BASE, 0x21), r(BASE + 1),
        w(BASE, 0x07), w(BASE + 1, 0x09), w(BASE, 0x2C), r(BASE + 1), w(BASE + 1, 0x10),
        w(BASE, 0x07), w(BASE + 1, 0x12), w(BASE, 0xE0), r(BASE + 1), w(BASE + 1, 0xE0),
    ];
    expected.extend(effect_ops());
    expected.push(w(BASE, 0xAA));
    assert_eq!(chip.ops, expected);
    assert_eq!(chip.regs[&(0x12, 0xF0)], 0xFF);
    assert_eq!(chip.regs[&(0x12, 0xF4)], 0x00);
    assert_eq!(chip.regs[&(0x12, 0xE4)], 0x00);
    assert_eq!(chip.regs[&(0x12, 0xFE)], 0x19);
    assert_eq!(chip.regs[&(0x12, 0xFF)] & 0b11, 0b10);
}

#[test]
fn switches_already_on_are_left_alone() {
    let mut chip = FakeChip::new(0xD450);
    chip.regs.insert((0x09, 0x2C), 0x13);
    chip.regs.insert((0x12, 0xE0), 0xE5);
    assert_eq!(chip.run(red_config(), checked()), Ok(()));
    assert!(!chip.ops.contains(&w(BASE + 1, 0x13)));
    assert_eq!(chip.regs[&(0x09, 0x2C)], 0x13);
    assert_eq!(chip.regs[&(0x12, 0xE0)], 0xE5);
    assert_eq!(chip.ops.len(), 2 + 4 + 4 + 4 + 30 + 1);
}

#[test]
fn switches_keep_their_other_bits() {
    let mut chip = FakeChip::new(0xD350);
    chip.regs.insert((0x09, 0x2C), 0x03);
    chip.regs.insert((0x12, 0xE0), 0x25);
    assert_eq!(chip.run(red_config(), checked()), Ok(()));
    assert_eq!(chip.regs[&(0x09, 0x2C)], 0x13);
    assert_eq!(chip.regs[&(0x12, 0xE0)], 0xE5);
}

#[test]
fn unknown_chip_is_refused_and_relocked() {
    let mut chip = FakeChip::new(0xD360);
    assert_eq!(
        chip.run(red_config(), checked()),
        Err(SessionError::Aborted { cause: Failure::IdentityMismatch(0xD360), relock_failed: false })
    );
    assert_eq!(
        chip.ops,
        vec![
            w(BASE, 0x87), w(BASE, 0x87),
            w(BASE, 0x20), r(BASE + 1), w(BASE, 0x21), r(BASE + 1),
            w(BASE, 0xAA),
        ]
    );
}

#[test]
fn ignoring_the_check_skips_identity_reads() {
    let mut chip = FakeChip::new(0xD360);
    let options = SessionOptions { ignore_identity_check: true, ..checked() };
    assert_eq!(chip.run(red_config(), options), Ok(()));
    assert!(!chip.ops.contains(&w(BASE, 0x20)));
    assert_eq!(chip.ops[2], w(BASE, 0x07));
    assert_eq!(chip.ops.last(), Some(&w(BASE, 0xAA)));
}

#[test]
fn single_unlock_sends_one_unlock_byte() {
    let mut chip = FakeChip::new(0xD351);
    let options = SessionOptions { single_unlock: true, ..checked() };
    assert_eq!(chip.run(red_config(), options), Ok(()));
    assert_eq!(chip.ops[0], w(BASE, 0x87));
    assert_eq!(chip.ops[1], w(BASE, 0x20));
}

#[test]
fn any_failed_operation_still_relocks() {
    let mut clean = FakeChip::new(0xD351);
    clean.run(red_config(), checked()).unwrap();
    let total = clean.ops.len() - 1;
    for at in 0..total {
        let mut chip = FakeChip::new(0xD351);
        chip.fail_at = Some(at);
        assert_eq!(
            chip.run(red_config(), checked()),
            Err(SessionError::Aborted { cause: Failure::Transport, relock_failed: false })
        );
        assert_eq!(chip.ops.len(), at + 2);
        assert_eq!(chip.ops[at + 1], w(BASE, 0xAA));
    }
}

#[test]
fn failed_relock_after_failure_keeps_the_first_cause() {
    let mut chip = FakeChip::new(0xD351);
    chip.fail_at = Some(20);
    chip.fail_relock = true;
    assert_eq!(
        chip.run(red_config(), checked()),
        Err(SessionError::Aborted { cause: Failure::Transport, relock_failed: true })
    );
}

#[test]
fn failed_relock_alone_is_reported() {
    let mut chip = FakeChip::new(0xD351);
    chip.fail_relock = true;
    assert_eq!(chip.run(red_config(), checked()), Err(SessionError::Relock));
}

#[test]
fn a_read_answered_without_a_byte_counts_as_failure() {
    let mut s = Session::new(BASE, red_config(), checked());
    for _ in 0..3 {
        s.advance(Event::Written);
    }
    assert_eq!(s.action(), Action::Port(r(BASE + 1)));
    s.advance(Event::Written);
    assert_eq!(s.action(), Action::Port(w(BASE, 0xAA)));
    s.advance(Event::Written);
    assert!(s.is_finished());
    assert_eq!(
        s.action(),
        Action::Finish(Err(SessionError::Aborted { cause: Failure::Transport, relock_failed: false }))
    );
}

#[test]
fn dump_reports_three_banks_and_the_identity() {
    let mut chip = FakeChip::new(0xD351);
    chip.regs.insert((0x12, 0xD5), 0x42);
    let options = SessionOptions { dump_registers: true, ..checked() };
    assert_eq!(chip.run(red_config(), options), Ok(()));
    let headers: Vec<&Note> =
        chip.notes.iter().filter(|n| matches!(n, Note::BankHeader { .. })).collect();
    assert_eq!(
        headers,
        vec![
            &Note::BankHeader { bank: 0x12, start: 0xD0, end: 0x100 },
            &Note::BankHeader { bank: 0x09, start: 0x20, end: 0x40 },
            &Note::BankHeader { bank: 0x0B, start: 0x60, end: 0x70 },
        ]
    );
    let cells = chip.notes.iter().filter(|n| matches!(n, Note::Cell { .. })).count();
    assert_eq!(cells, 0x30 + 0x20 + 0x10);
    assert_eq!(chip.notes[6], Note::Cell { cell: 0xD5, value: 0x42, ends_line: false });
    assert_eq!(chip.notes[16], Note::Cell { cell: 0xDF, value: 0, ends_line: true });
    assert_eq!(chip.notes.last(), Some(&Note::Identity(0xD351)));
}

#[test]
fn pio_requests() {
    assert_eq!(IodevPioReq::read(0x4F), IodevPioReq { access: PIO_READ, port: 0x4F, width: 1, val: 0 });
    assert_eq!(
        IodevPioReq::write(0x4E, 0x87),
        IodevPioReq { access: PIO_WRITE, port: 0x4E, width: 1, val: 0x87 }
    );
    assert_eq!(IodevPioReq::for_op(w(0x2E, 0xAA)), IodevPioReq::write(0x2E, 0xAA));
    assert_eq!(IodevPioReq::for_op(r(0x2F)), IodevPioReq::read(0x2F));
    let done = IodevPioReq { access: PIO_READ, port: 0x4F, width: 1, val: 0x1D3 };
    assert_eq!(done.byte(), 0xD3);
}
