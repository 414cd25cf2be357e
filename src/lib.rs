//! Control of the RGB lighting header driven by the NCT6795D / NCT6797 Super I/O chip.
//!
//! The chip is reached through two adjacent I/O ports: an index port (`base_port`) that selects
//! a register and a data port (`base_port + 1`) that reads or writes it.
//!
//! * [`codec`] turns an [`codec::EffectConfig`] into the bytes of the RGB register bank.
//! * [`session`] sequences the unlock / identify / select / write / re-lock protocol as a
//!   state machine: the caller performs each port operation it asks for and reports back.
//! * [`pio`] builds the request record of the FreeBSD `/dev/io` port interface.
use vstd::prelude::*;

pub mod codec;
pub mod pio;
pub mod session;

verus! {

} // verus!
