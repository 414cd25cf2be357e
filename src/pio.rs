//! The request record of the FreeBSD `/dev/io` port interface (`IODEV_PIO`).
//!
//! The kernel takes the four fields as 32-bit words in this order; the caller that issues the
//! request lays them out so.
use vstd::prelude::*;
use crate::session::PortOp;

verus! {

/// `access` value of a port read.
pub const PIO_READ: u32 = 0;

/// `access` value of a port write.
pub const PIO_WRITE: u32 = 1;

/// Width in bytes of every transfer this library makes.
pub const PIO_WIDTH_BYTE: u32 = 1;

/// One single-port transfer: direction, port, width and the value written or read.
#[derive(Clone, Copy, Debug, PartialEq, Eq, Structural)]
pub struct IodevPioReq {
    pub access: u32,
    pub port: u32,
    pub width: u32,
    pub val: u32,
}

impl IodevPioReq {
    /// A one-byte read of `port`.
    pub fn read(port: u16) -> (r: IodevPioReq)
        ensures
            r == (IodevPioReq {
                access: PIO_READ,
                port: port as u32,
                width: PIO_WIDTH_BYTE,
                val: 0,
            }),
    {
        IodevPioReq { access: PIO_READ, port: port as u32, width: PIO_WIDTH_BYTE, val: 0 }
    }

    /// A one-byte write of `data` to `port`.
    pub fn write(port: u16, data: u8) -> (r: IodevPioReq)
        ensures
            r == (IodevPioReq {
                access: PIO_WRITE,
                port: port as u32,
                width: PIO_WIDTH_BYTE,
                val: data as u32,
            }),
    {
        IodevPioReq { access: PIO_WRITE, port: port as u32, width: PIO_WIDTH_BYTE, val: data as u32 }
    }

    /// The request that performs a port operation.
    pub fn for_op(op: PortOp) -> (r: IodevPioReq)
        ensures
            op matches PortOp::Write { port, value } ==> r == IodevPioReq::spec_write(port, value),
            op matches PortOp::Read { port } ==> r == IodevPioReq::spec_read(port),
    {
        match op {
            PortOp::Write { port, value } => IodevPioReq::write(port, value),
            PortOp::Read { port } => IodevPioReq::read(port),
        }
    }

    /// The request `read` builds.
    pub open spec fn spec_read(port: u16) -> IodevPioReq {
        IodevPioReq { access: PIO_READ, port: port as u32, width: PIO_WIDTH_BYTE, val: 0 }
    }

    /// The request `write` builds.
    pub open spec fn spec_write(port: u16, data: u8) -> IodevPioReq {
        IodevPioReq { access: PIO_WRITE, port: port as u32, width: PIO_WIDTH_BYTE, val: data as u32 }
    }

    /// The byte a completed read request carries: the low eight bits of `val`.
    pub fn byte(&self) -> (r: u8)
        ensures
            r == self.val as u8,
    {
        self.val as u8
    }
}

} // verus!
