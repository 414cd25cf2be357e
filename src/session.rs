//! The register-bank protocol as a state machine.
//!
//! A [`Session`] never touches a port itself. Its caller asks it for the next [`Action`],
//! performs it (a port write, a port read, or printing a diagnostic [`Note`]), and hands the
//! outcome back as an [`Event`]. The session:
//!
//! 1. unlocks the chip (`0x87` to the index port, twice unless asked for once),
//! 2. optionally dumps banks `0x12`, `0x09` and `0x0B` for diagnosis,
//! 3. unless told to skip it, reads the chip identity (registers `0x20`, `0x21`) and stops on an
//!    unknown chip,
//! 4. sets bit `0x10` of register `0x2C` of bank `0x09`, which pulsing needs,
//! 5. selects bank `0x12` and sets the three top bits of its register `0xE0`,
//! 6. writes the effect's fifteen cells,
//! 7. re-locks the chip (`0xAA` to the index port), whatever happened before.
//!
//! Any failed port operation skips what is left of steps 1-6 and goes straight to step 7; the
//! first failure stays the reported cause and a failed re-lock is attached to it.
//!
//! The chip is one shared device: callers must not run two sessions against the same base
//! port at once. Nothing here serialises them.
use vstd::prelude::*;
use crate::codec::{
    EffectConfig,
    spec_register_bank,
    register_write,
    spec_register_write,
    REGISTER_WRITES,
};

verus! {

/// Written twice to the index port to enter the configuration mode.
pub const UNLOCK_BYTE: u8 = 0x87;

/// Written to the index port to leave the configuration mode.
pub const LOCK_BYTE: u8 = 0xAA;

/// Index of the logical-device (bank) selector.
pub const BANK_SELECT: u8 = 0x07;

/// Bank holding the pulse clock switch.
pub const CONFIG_BANK: u8 = 0x09;

/// Bank holding the RGB registers.
pub const RGB_BANK: u8 = 0x12;

/// Register of the chip identity's high byte.
pub const DEVID_MSB: u8 = 0x20;

/// Register of the chip identity's low byte.
pub const DEVID_LSB: u8 = 0x21;

/// Register (bank `0x09`) holding the clock switch that pulsing needs.
pub const PULSE_REG: u8 = 0x2C;

/// Bit of `PULSE_REG` that enables the pulse clock.
pub const PULSE_BIT: u8 = 0x10;

/// Register (bank `0x12`) whose top bits switch the RGB subsystem on.
pub const RGB_ENABLE_REG: u8 = 0xE0;

/// Bits of `RGB_ENABLE_REG` that must all be set.
pub const RGB_ENABLE_BITS: u8 = 0xE0;

/// The identity bits compared against the known chips.
pub const IDENTITY_MASK: u16 = 0xFFF0;

/// Masked identity of the NCT6795D.
pub const NCT6795_IDENTITY: u16 = 0xD350;

/// Masked identity of the NCT6797.
pub const NCT6797_IDENTITY: u16 = 0xD450;

/// Number of banks in the diagnostic dump.
pub const DUMP_BANKS: u8 = 3;

/// Number of port writes that carry the effect: an index and a data write per cell.
pub const EFFECT_STEPS: u8 = 30;

/// The 16-bit chip identity made of its two registers.
pub open spec fn spec_chip_identity(msb: u8, lsb: u8) -> u16 {
    ((msb as u16) << 8u16) | (lsb as u16)
}

/// Whether an identity belongs to a supported chip.
pub open spec fn spec_identity_known(id: u16) -> bool {
    (id & IDENTITY_MASK) == NCT6795_IDENTITY || (id & IDENTITY_MASK) == NCT6797_IDENTITY
}

/// Combines the identity registers, high byte first.
pub fn chip_identity(msb: u8, lsb: u8) -> (r: u16)
    ensures
        r == spec_chip_identity(msb, lsb),
        r as int == msb as int * 256 + lsb as int,
{
    assert(((msb as u16) << 8u16) | (lsb as u16) == msb as u16 * 256 + lsb as u16) by (bit_vector);
    ((msb as u16) << 8) | (lsb as u16)
}

/// Checks an identity against the supported chips.
pub fn identity_known(id: u16) -> (r: bool)
    ensures
        r == spec_identity_known(id),
{
    let masked = id & IDENTITY_MASK;
    masked == NCT6795_IDENTITY || masked == NCT6797_IDENTITY
}

/// Bank shown in part `i` of the dump.
pub open spec fn spec_dump_bank(i: u8) -> u8 {
    if i == 0 {
        RGB_BANK
    } else if i == 1 {
        CONFIG_BANK
    } else {
        0x0B
    }
}

/// First register shown in part `i` of the dump.
pub open spec fn spec_dump_start(i: u8) -> u16 {
    if i == 0 {
        0xD0
    } else if i == 1 {
        0x20
    } else {
        0x60
    }
}

/// One past the last register shown in part `i` of the dump.
pub open spec fn spec_dump_end(i: u8) -> u16 {
    if i == 0 {
        0x100
    } else if i == 1 {
        0x40
    } else {
        0x70
    }
}

/// Bank, first register and end of part `i` of the dump.
pub fn dump_part(i: u8) -> (r: (u8, u16, u16))
    ensures
        r == (spec_dump_bank(i), spec_dump_start(i), spec_dump_end(i)),
{
    if i == 0 {
        (RGB_BANK, 0xD0, 0x100)
    } else if i == 1 {
        (CONFIG_BANK, 0x20, 0x40)
    } else {
        (0x0B, 0x60, 0x70)
    }
}

/// What the session is asked to do besides writing the effect.
#[derive(Clone, Copy, Debug, PartialEq, Eq, Structural)]
pub struct SessionOptions {
    /// Skip reading the chip identity.
    pub ignore_identity_check: bool,
    /// Report the contents of banks `0x12`, `0x09` and `0x0B`, and the chip identity.
    pub dump_registers: bool,
    /// Experimental: send the unlock byte once instead of twice.
    pub single_unlock: bool,
}

/// The first failure of a session.
#[derive(Clone, Copy, Debug, PartialEq, Eq, Structural)]
pub enum Failure {
    /// A port read or write failed (often: no permission).
    Transport,
    /// The chip does not identify as a supported one; the identity read is kept.
    IdentityMismatch(u16),
}

/// How a session failed.
#[derive(Clone, Copy, Debug, PartialEq, Eq, Structural)]
pub enum SessionError {
    /// A step failed; the chip was then re-locked, or the re-lock failed too.
    Aborted { cause: Failure, relock_failed: bool },
    /// Every step succeeded but the final re-lock write failed.
    Relock,
}

/// A single-byte port operation.
#[derive(Clone, Copy, Debug, PartialEq, Eq, Structural)]
pub enum PortOp {
    Write { port: u16, value: u8 },
    Read { port: u16 },
}

/// Diagnostic output of a session asked to dump its registers.
#[derive(Clone, Copy, Debug, PartialEq, Eq, Structural)]
pub enum Note {
    /// The chip identity just read.
    Identity(u16),
    /// A dumped bank begins: its number and the register range `start..end`.
    BankHeader { bank: u8, start: u16, end: u16 },
    /// One dumped register; `ends_line` marks the last register of a row of sixteen.
    Cell { cell: u8, value: u8, ends_line: bool },
}

/// What the session asks its caller to do next.
#[derive(Clone, Copy, Debug, PartialEq, Eq)]
pub enum Action {
    Port(PortOp),
    Report(Note),
    Finish(Result<(), SessionError>),
}

/// The outcome of the last action.
#[derive(Clone, Copy, Debug, PartialEq, Eq, Structural)]
pub enum Event {
    /// A write completed, or a note was shown.
    Written,
    /// A read completed with this byte.
    Value(u8),
    /// The port operation failed.
    Failed,
}

/// Where a session stands.
#[derive(Clone, Copy, Debug, PartialEq, Eq)]
pub enum Stage {
    Unlock { sent: u8 },
    DumpHeader { index: u8 },
    DumpSelect { index: u8 },
    DumpBank { index: u8 },
    DumpCellSelect { index: u8, cell: u16 },
    DumpCellRead { index: u8, cell: u16 },
    DumpCellNote { index: u8, cell: u16, value: u8 },
    IdMsbSelect,
    IdMsbRead,
    IdLsbSelect { msb: u8 },
    IdLsbRead { msb: u8 },
    IdentityNote { identity: u16 },
    PulseBankSelect,
    PulseBank,
    PulseRegSelect,
    PulseRead,
    PulseFix { value: u8 },
    RgbBankSelect,
    RgbBank,
    EnableSelect,
    EnableRead,
    EnableFix { value: u8 },
    Effect { step: u8 },
    Relock { failure: Option<Failure> },
    Finished { result: Result<(), SessionError> },
}

/// One run of the protocol against the chip at `base_port`.
#[derive(Clone, Copy, Debug, PartialEq, Eq)]
pub struct Session {
    pub base_port: u16,
    pub config: EffectConfig,
    pub options: SessionOptions,
    pub stage: Stage,
}

/// Result reported once the re-lock write has been tried.
pub open spec fn relock_outcome(failure: Option<Failure>, relock_failed: bool) -> Result<
    (),
    SessionError,
> {
    match failure {
        None => if relock_failed {
            Err(SessionError::Relock)
        } else {
            Ok(())
        },
        Some(cause) => Err(SessionError::Aborted { cause, relock_failed }),
    }
}

fn relock_result(failure: Option<Failure>, relock_failed: bool) -> (r: Result<(), SessionError>)
    ensures
        r == relock_outcome(failure, relock_failed),
{
    match failure {
        None => if relock_failed {
            Err(SessionError::Relock)
        } else {
            Ok(())
        },
        Some(cause) => Err(SessionError::Aborted { cause, relock_failed }),
    }
}

/// A write of `value` to `port`.
pub open spec fn write_op(port: u16, value: u8) -> Action {
    Action::Port(PortOp::Write { port, value })
}

/// A read of `port`.
pub open spec fn read_op(port: u16) -> Action {
    Action::Port(PortOp::Read { port })
}

impl Stage {
    /// Stages whose action is a port read.
    pub open spec fn is_read(self) -> bool {
        ||| self is DumpCellRead
        ||| self is IdMsbRead
        ||| self is IdLsbRead
        ||| self is PulseRead
        ||| self is EnableRead
    }

    /// Stages whose action is a note to show.
    pub open spec fn is_report(self) -> bool {
        ||| self is DumpHeader
        ||| self is DumpCellNote
        ||| self is IdentityNote
    }
}

impl Session {
    /// The index port and the data port above it both exist, the effect can be encoded, and
    /// every counter in the stage is in range.
    pub open spec fn wf(self) -> bool {
        &&& self.base_port < 0xFFFF
        &&& self.config.wf()
        &&& match self.stage {
            Stage::Unlock { sent } => sent < 2,
            Stage::DumpHeader { index } => index < DUMP_BANKS,
            Stage::DumpSelect { index } => index < DUMP_BANKS,
            Stage::DumpBank { index } => index < DUMP_BANKS,
            Stage::DumpCellSelect { index, cell } => index < DUMP_BANKS && spec_dump_start(index)
                <= cell < spec_dump_end(index),
            Stage::DumpCellRead { index, cell } => index < DUMP_BANKS && spec_dump_start(index)
                <= cell < spec_dump_end(index),
            Stage::DumpCellNote { index, cell, .. } => index < DUMP_BANKS && spec_dump_start(index)
                <= cell < spec_dump_end(index),
            Stage::Effect { step } => step < EFFECT_STEPS,
            _ => true,
        }
    }

    /// The data port.
    pub open spec fn data_port(self) -> u16 {
        (self.base_port + 1) as u16
    }

    /// The action the session asks for in its current stage.
    pub open spec fn spec_action(self) -> Action {
        let base = self.base_port;
        let data = self.data_port();
        match self.stage {
            Stage::Unlock { .. } => write_op(base, UNLOCK_BYTE),
            Stage::DumpHeader { index } => Action::Report(
                Note::BankHeader {
                    bank: spec_dump_bank(index),
                    start: spec_dump_start(index),
                    end: spec_dump_end(index),
                },
            ),
            Stage::DumpSelect { .. } => write_op(base, BANK_SELECT),
            Stage::DumpBank { index } => write_op(data, spec_dump_bank(index)),
            Stage::DumpCellSelect { cell, .. } => write_op(base, cell as u8),
            Stage::DumpCellRead { .. } => read_op(data),
            Stage::DumpCellNote { cell, value, .. } => Action::Report(
                Note::Cell { cell: cell as u8, value, ends_line: cell & 0xFu16 == 0xFu16 },
            ),
            Stage::IdMsbSelect => write_op(base, DEVID_MSB),
            Stage::IdMsbRead => read_op(data),
            Stage::IdLsbSelect { .. } => write_op(base, DEVID_LSB),
            Stage::IdLsbRead { .. } => read_op(data),
            Stage::IdentityNote { identity } => Action::Report(Note::Identity(identity)),
            Stage::PulseBankSelect => write_op(base, BANK_SELECT),
            Stage::PulseBank => write_op(data, CONFIG_BANK),
            Stage::PulseRegSelect => write_op(base, PULSE_REG),
            Stage::PulseRead => read_op(data),
            Stage::PulseFix { value } => write_op(data, value | PULSE_BIT),
            Stage::RgbBankSelect => write_op(base, BANK_SELECT),
            Stage::RgbBank => write_op(data, RGB_BANK),
            Stage::EnableSelect => write_op(base, RGB_ENABLE_REG),
            Stage::EnableRead => read_op(data),
            Stage::EnableFix { value } => write_op(
                data,
                RGB_ENABLE_BITS | (value & !RGB_ENABLE_BITS),
            ),
            Stage::Effect { step } => if step % 2 == 0 {
                write_op(base, spec_register_write(self.config, step as int / 2).0)
            } else {
                write_op(data, spec_register_write(self.config, step as int / 2).1)
            },
            Stage::Relock { .. } => write_op(base, LOCK_BYTE),
            Stage::Finished { result } => Action::Finish(result),
        }
    }

    /// Where the session goes once the chip is unlocked.
    pub open spec fn after_unlock(self) -> Stage {
        if self.options.dump_registers {
            Stage::DumpHeader { index: 0 }
        } else {
            self.identity_start()
        }
    }

    /// Where the session goes before touching the pulse clock: the identity check, unless
    /// skipped.
    pub open spec fn identity_start(self) -> Stage {
        if self.options.ignore_identity_check {
            Stage::PulseBankSelect
        } else {
            Stage::IdMsbSelect
        }
    }

    /// Where the session goes once it knows the chip identity.
    pub open spec fn identity_checked(self, id: u16) -> Stage {
        if spec_identity_known(id) {
            Stage::PulseBankSelect
        } else {
            Stage::Relock { failure: Some(Failure::IdentityMismatch(id)) }
        }
    }

    /// The next stage when the current action succeeded; `v` is the byte read, if it was a
    /// read.
    pub open spec fn success_next(self, v: u8) -> Stage {
        match self.stage {
            Stage::Unlock { sent } => if sent == 0 && !self.options.single_unlock {
                Stage::Unlock { sent: 1 }
            } else {
                self.after_unlock()
            },
            Stage::DumpHeader { index } => Stage::DumpSelect { index },
            Stage::DumpSelect { index } => Stage::DumpBank { index },
            Stage::DumpBank { index } => Stage::DumpCellSelect {
                index,
                cell: spec_dump_start(index),
            },
            Stage::DumpCellSelect { index, cell } => Stage::DumpCellRead { index, cell },
            Stage::DumpCellRead { index, cell } => Stage::DumpCellNote { index, cell, value: v },
            Stage::DumpCellNote { index, cell, .. } => if cell + 1 < spec_dump_end(index) {
                Stage::DumpCellSelect { index, cell: (cell + 1) as u16 }
            } else if index + 1 < DUMP_BANKS {
                Stage::DumpHeader { index: (index + 1) as u8 }
            } else {
                self.identity_start()
            },
            Stage::IdMsbSelect => Stage::IdMsbRead,
            Stage::IdMsbRead => Stage::IdLsbSelect { msb: v },
            Stage::IdLsbSelect { msb } => Stage::IdLsbRead { msb },
            Stage::IdLsbRead { msb } => if self.options.dump_registers {
                Stage::IdentityNote { identity: spec_chip_identity(msb, v) }
            } else {
                self.identity_checked(spec_chip_identity(msb, v))
            },
            Stage::IdentityNote { identity } => self.identity_checked(identity),
            Stage::PulseBankSelect => Stage::PulseBank,
            Stage::PulseBank => Stage::PulseRegSelect,
            Stage::PulseRegSelect => Stage::PulseRead,
            Stage::PulseRead => if v & PULSE_BIT == PULSE_BIT {
                Stage::RgbBankSelect
            } else {
                Stage::PulseFix { value: v }
            },
            Stage::PulseFix { .. } => Stage::RgbBankSelect,
            Stage::RgbBankSelect => Stage::RgbBank,
            Stage::RgbBank => Stage::EnableSelect,
            Stage::EnableSelect => Stage::EnableRead,
            Stage::EnableRead => if v & RGB_ENABLE_BITS == RGB_ENABLE_BITS {
                Stage::Effect { step: 0 }
            } else {
                Stage::EnableFix { value: v }
            },
            Stage::EnableFix { .. } => Stage::Effect { step: 0 },
            Stage::Effect { step } => if step + 1 < EFFECT_STEPS {
                Stage::Effect { step: (step + 1) as u8 }
            } else {
                Stage::Relock { failure: None }
            },
            Stage::Relock { failure } => Stage::Finished { result: relock_outcome(failure, false) },
            Stage::Finished { result } => Stage::Finished { result },
        }
    }

    /// Whether `ev` reports a failed port operation in the current stage: a failed write or
    /// read, or anything but a byte in answer to a read. Notes cannot fail.
    pub open spec fn event_fails(self, ev: Event) -> bool {
        &&& !self.stage.is_report()
        &&& ev is Failed || (self.stage.is_read() && !(ev is Value))
    }

    /// The stage after the caller reports `ev` for the current action.
    pub open spec fn spec_next_stage(self, ev: Event) -> Stage {
        match self.stage {
            Stage::Relock { failure } => Stage::Finished {
                result: relock_outcome(failure, ev is Failed),
            },
            Stage::Finished { result } => Stage::Finished { result },
            _ => if self.event_fails(ev) {
                Stage::Relock { failure: Some(Failure::Transport) }
            } else {
                self.success_next(
                    match ev {
                        Event::Value(v) => v,
                        _ => 0,
                    },
                )
            },
        }
    }

    /// The session after the caller reports `ev`.
    pub open spec fn spec_advance(self, ev: Event) -> Session {
        Session { stage: self.spec_next_stage(ev), ..self }
    }

    /// A session about to unlock the chip at `base_port`; the data port is `base_port + 1`.
    pub fn new(base_port: u16, config: EffectConfig, options: SessionOptions) -> (r: Session)
        requires
            base_port < 0xFFFF,
            config.wf(),
        ensures
            r.wf(),
            r == (Session { base_port, config, options, stage: Stage::Unlock { sent: 0 } }),
    {
        Session { base_port, config, options, stage: Stage::Unlock { sent: 0 } }
    }

    /// Whether the session has ended; its action then reports the result.
    pub fn is_finished(&self) -> (r: bool)
        ensures
            r == (self.stage is Finished),
    {
        match self.stage {
            Stage::Finished { .. } => true,
            _ => false,
        }
    }

    /// The action the caller must perform next.
    pub fn action(&self) -> (r: Action)
        requires
            self.wf(),
        ensures
            r == self.spec_action(),
    {
        let base = self.base_port;
        let data = self.base_port + 1;
        match self.stage {
            Stage::Unlock { .. } => Action::Port(PortOp::Write { port: base, value: UNLOCK_BYTE }),
            Stage::DumpHeader { index } => {
                let (bank, start, end) = dump_part(index);
                Action::Report(Note::BankHeader { bank, start, end })
            },
            Stage::DumpSelect { .. } => Action::Port(PortOp::Write { port: base, value: BANK_SELECT }),
            Stage::DumpBank { index } => {
                let (bank, _, _) = dump_part(index);
                Action::Port(PortOp::Write { port: data, value: bank })
            },
            Stage::DumpCellSelect { cell, .. } => Action::Port(
                PortOp::Write { port: base, value: cell as u8 },
            ),
            Stage::DumpCellRead { .. } => Action::Port(PortOp::Read { port: data }),
            Stage::DumpCellNote { cell, value, .. } => Action::Report(
                Note::Cell { cell: cell as u8, value, ends_line: cell & 0xF == 0xF },
            ),
            Stage::IdMsbSelect => Action::Port(PortOp::Write { port: base, value: DEVID_MSB }),
            Stage::IdMsbRead => Action::Port(PortOp::Read { port: data }),
            Stage::IdLsbSelect { .. } => Action::Port(PortOp::Write { port: base, value: DEVID_LSB }),
            Stage::IdLsbRead { .. } => Action::Port(PortOp::Read { port: data }),
            Stage::IdentityNote { identity } => Action::Report(Note::Identity(identity)),
            Stage::PulseBankSelect => Action::Port(PortOp::Write { port: base, value: BANK_SELECT }),
            Stage::PulseBank => Action::Port(PortOp::Write { port: data, value: CONFIG_BANK }),
            Stage::PulseRegSelect => Action::Port(PortOp::Write { port: base, value: PULSE_REG }),
            Stage::PulseRead => Action::Port(PortOp::Read { port: data }),
            Stage::PulseFix { value } => Action::Port(
                PortOp::Write { port: data, value: value | PULSE_BIT },
            ),
            Stage::RgbBankSelect => Action::Port(PortOp::Write { port: base, value: BANK_SELECT }),
            Stage::RgbBank => Action::Port(PortOp::Write { port: data, value: RGB_BANK }),
            Stage::EnableSelect => Action::Port(PortOp::Write { port: base, value: RGB_ENABLE_REG }),
            Stage::EnableRead => Action::Port(PortOp::Read { port: data }),
            Stage::EnableFix { value } => Action::Port(
                PortOp::Write { port: data, value: RGB_ENABLE_BITS | (value & !RGB_ENABLE_BITS) },
            ),
            Stage::Effect { step } => {
                let (cell, value) = register_write(&self.config, (step / 2) as usize);
                if step % 2 == 0 {
                    Action::Port(PortOp::Write { port: base, value: cell })
                } else {
                    Action::Port(PortOp::Write { port: data, value })
                }
            },
            Stage::Relock { .. } => Action::Port(PortOp::Write { port: base, value: LOCK_BYTE }),
            Stage::Finished { result } => Action::Finish(result),
        }
    }

    fn identity_start_stage(&self) -> (r: Stage)
        ensures
            r == self.identity_start(),
    {
        if self.options.ignore_identity_check {
            Stage::PulseBankSelect
        } else {
            Stage::IdMsbSelect
        }
    }

    fn identity_checked_stage(&self, id: u16) -> (r: Stage)
        ensures
            r == self.identity_checked(id),
    {
        if identity_known(id) {
            Stage::PulseBankSelect
        } else {
            Stage::Relock { failure: Some(Failure::IdentityMismatch(id)) }
        }
    }

    fn success_stage(&self, v: u8) -> (r: Stage)
        requires
            self.wf(),
        ensures
            r == self.success_next(v),
    {
        match self.stage {
            Stage::Unlock { sent } => if sent == 0 && !self.options.single_unlock {
                Stage::Unlock { sent: 1 }
            } else if self.options.dump_registers {
                Stage::DumpHeader { index: 0 }
            } else {
                self.identity_start_stage()
            },
            Stage::DumpHeader { index } => Stage::DumpSelect { index },
            Stage::DumpSelect { index } => Stage::DumpBank { index },
            Stage::DumpBank { index } => {
                let (_, start, _) = dump_part(index);
                Stage::DumpCellSelect { index, cell: start }
            },
            Stage::DumpCellSelect { index, cell } => Stage::DumpCellRead { index, cell },
            Stage::DumpCellRead { index, cell } => Stage::DumpCellNote { index, cell, value: v },
            Stage::DumpCellNote { index, cell, .. } => {
                let (_, _, end) = dump_part(index);
                if cell + 1 < end {
                    Stage::DumpCellSelect { index, cell: cell + 1 }
                } else if index + 1 < DUMP_BANKS {
                    Stage::DumpHeader { index: index + 1 }
                } else {
                    self.identity_start_stage()
                }
            },
            Stage::IdMsbSelect => Stage::IdMsbRead,
            Stage::IdMsbRead => Stage::IdLsbSelect { msb: v },
            Stage::IdLsbSelect { msb } => Stage::IdLsbRead { msb },
            Stage::IdLsbRead { msb } => {
                let identity = chip_identity(msb, v);
                if self.options.dump_registers {
                    Stage::IdentityNote { identity }
                } else {
                    self.identity_checked_stage(identity)
                }
            },
            Stage::IdentityNote { identity } => self.identity_checked_stage(identity),
            Stage::PulseBankSelect => Stage::PulseBank,
            Stage::PulseBank => Stage::PulseRegSelect,
            Stage::PulseRegSelect => Stage::PulseRead,
            Stage::PulseRead => if v & PULSE_BIT == PULSE_BIT {
                Stage::RgbBankSelect
            } else {
                Stage::PulseFix { value: v }
            },
            Stage::PulseFix { .. } => Stage::RgbBankSelect,
            Stage::RgbBankSelect => Stage::RgbBank,
            Stage::RgbBank => Stage::EnableSelect,
            Stage::EnableSelect => Stage::EnableRead,
            Stage::EnableRead => if v & RGB_ENABLE_BITS == RGB_ENABLE_BITS {
                Stage::Effect { step: 0 }
            } else {
                Stage::EnableFix { value: v }
            },
            Stage::EnableFix { .. } => Stage::Effect { step: 0 },
            Stage::Effect { step } => if step + 1 < EFFECT_STEPS {
                Stage::Effect { step: step + 1 }
            } else {
                Stage::Relock { failure: None }
            },
            Stage::Relock { failure } => Stage::Finished { result: relock_result(failure, false) },
            Stage::Finished { result } => Stage::Finished { result },
        }
    }

    /// Records the outcome of the last action and moves to the next stage.
    pub fn advance(&mut self, ev: Event)
        requires
            old(self).wf(),
        ensures
            final(self).wf(),
            *final(self) == old(self).spec_advance(ev),
    {
        let failed = match ev {
            Event::Failed => true,
            _ => false,
        };
        let next = match self.stage {
            Stage::Relock { failure } => Stage::Finished { result: relock_result(failure, failed) },
            Stage::Finished { result } => Stage::Finished { result },
            _ => {
                let report = match self.stage {
                    Stage::DumpHeader { .. } | Stage::DumpCellNote { .. } | Stage::IdentityNote {
                        ..
                    } => true,
                    _ => false,
                };
                let read = match self.stage {
                    Stage::DumpCellRead { .. } | Stage::IdMsbRead | Stage::IdLsbRead { .. }
                    | Stage::PulseRead | Stage::EnableRead => true,
                    _ => false,
                };
                let value: Option<u8> = match ev {
                    Event::Value(v) => Some(v),
                    _ => None,
                };
                if !report && (failed || (read && value.is_none())) {
                    Stage::Relock { failure: Some(Failure::Transport) }
                } else {
                    self.success_stage(
                        match value {
                            Some(v) => v,
                            None => 0,
                        },
                    )
                }
            },
        };
        self.stage = next;
    }
}

/// A failed port operation anywhere before the re-lock abandons the rest of the protocol: the
/// next action is the re-lock write, and whether or not that write succeeds, the session ends
/// reporting the transport failure as its cause.
pub proof fn lemma_failure_forces_relock(s: Session, relock: Event)
    requires
        s.wf(),
        s.spec_action() is Port,
        !(s.stage is Relock),
    ensures
        s.spec_advance(Event::Failed).wf(),
        s.spec_advance(Event::Failed).stage == (Stage::Relock { failure: Some(Failure::Transport) }),
        s.spec_advance(Event::Failed).spec_action() == write_op(s.base_port, LOCK_BYTE),
        s.spec_advance(Event::Failed).spec_advance(relock).spec_action() == Action::Finish(
            Err(SessionError::Aborted { cause: Failure::Transport, relock_failed: relock is Failed }),
        ),
{
}

/// The re-lock write is made once: whatever its outcome, the session is finished afterwards,
/// and a finished session stays finished with the same result.
pub proof fn lemma_relock_once(s: Session, ev: Event, later: Event)
    requires
        s.wf(),
        s.stage is Relock,
    ensures
        s.spec_advance(ev).stage is Finished,
        s.spec_advance(ev).spec_advance(later) == s.spec_advance(ev),
        s.spec_advance(ev).spec_action() == Action::Finish(
            relock_outcome(s.stage->failure, ev is Failed),
        ),
{
}

/// The identity gate: once both identity registers are read, a supported chip lets the
/// session go on to the pulse clock, and any other chip sends it to the re-lock with the
/// identity as the cause, so that no effect byte is written. Skipping the check goes straight
/// to the pulse clock.
pub proof fn lemma_identity_gate(s: Session, msb: u8, lsb: u8, relock: Event)
    requires
        s.wf(),
        s.stage == (Stage::IdLsbRead { msb }),
    ensures
        ({
            let id = spec_chip_identity(msb, lsb);
            let read = s.spec_advance(Event::Value(lsb));
            let after = if s.options.dump_registers {
                read.spec_advance(Event::Written)
            } else {
                read
            };
            &&& s.options.dump_registers ==> read.spec_action() == Action::Report(Note::Identity(id))
            &&& spec_identity_known(id) ==> after.stage == Stage::PulseBankSelect
            &&& !spec_identity_known(id) ==> after.stage == (Stage::Relock {
                failure: Some(Failure::IdentityMismatch(id)),
            })
            &&& !spec_identity_known(id) ==> after.spec_advance(relock).spec_action()
                == Action::Finish(
                Err(
                    SessionError::Aborted {
                        cause: Failure::IdentityMismatch(id),
                        relock_failed: relock is Failed,
                    },
                ),
            )
        }),
        s.options.ignore_identity_check ==> s.identity_start() == Stage::PulseBankSelect,
{
}

/// The effect is written cell by cell in register-bank order: for the `j`-th pair, the cell
/// goes to the index port, then its byte to the data port, and each success moves on to the
/// next write; after the last one comes the re-lock.
pub proof fn lemma_effect_writes_bank_in_order(s: Session, j: int)
    requires
        s.wf(),
        0 <= j < REGISTER_WRITES,
        s.stage == (Stage::Effect { step: (2 * j) as u8 }),
    ensures
        s.spec_action() == write_op(s.base_port, spec_register_bank(s.config)[j].0),
        s.spec_advance(Event::Written).spec_action() == write_op(
            (s.base_port + 1) as u16,
            spec_register_bank(s.config)[j].1,
        ),
        j + 1 < REGISTER_WRITES ==> s.spec_advance(Event::Written).spec_advance(
            Event::Written,
        ).stage == (Stage::Effect { step: (2 * j + 2) as u8 }),
        j + 1 == REGISTER_WRITES ==> s.spec_advance(Event::Written).spec_advance(
            Event::Written,
        ).stage == (Stage::Relock { failure: None }),
{
    let step = (2 * j) as u8;
    assert(step as int / 2 == j && step % 2 == 0);
    assert(((step + 1) as u8) as int / 2 == j && ((step + 1) as u8) % 2 == 1);
}

} // verus!
