//! The register file and the status flags.

use vstd::prelude::*;

verus! {

/// The bits of the processor status register.
#[derive(Clone, Copy, Debug, PartialEq, Eq, Structural)]
pub enum StatusRegisterFlags {
    /// Carry (bit 0).
    C,
    /// Zero result (bit 1).
    Z,
    /// IRQ disable (bit 2).
    I,
    /// Decimal mode (bit 3).
    D,
    /// Break command (bit 4).
    B,
    /// Unused; reads as 1 when the status byte is pushed (bit 5).
    U,
    /// Signed overflow (bit 6).
    V,
    /// Negative result (bit 7).
    N,
}

impl StatusRegisterFlags {
    /// The single bit that the flag occupies in the status byte.
    pub open spec fn bit(self) -> u8 {
        match self {
            StatusRegisterFlags::C => 0x01,
            StatusRegisterFlags::Z => 0x02,
            StatusRegisterFlags::I => 0x04,
            StatusRegisterFlags::D => 0x08,
            StatusRegisterFlags::B => 0x10,
            StatusRegisterFlags::U => 0x20,
            StatusRegisterFlags::V => 0x40,
            StatusRegisterFlags::N => 0x80,
        }
    }

    pub fn mask(self) -> (r: u8)
        ensures
            r == self.bit(),
    {
        match self {
            StatusRegisterFlags::C => 0x01,
            StatusRegisterFlags::Z => 0x02,
            StatusRegisterFlags::I => 0x04,
            StatusRegisterFlags::D => 0x08,
            StatusRegisterFlags::B => 0x10,
            StatusRegisterFlags::U => 0x20,
            StatusRegisterFlags::V => 0x40,
            StatusRegisterFlags::N => 0x80,
        }
    }
}

/// Whether flag `f` is set in the status byte `status`.
pub open spec fn flag_set(status: u8, f: StatusRegisterFlags) -> bool {
    status & f.bit() != 0
}

/// The status byte `status` with flag `f` set to `on` and every other bit kept.
pub open spec fn with_flag(status: u8, f: StatusRegisterFlags, on: bool) -> u8 {
    if on {
        status | f.bit()
    } else {
        status & !f.bit()
    }
}

proof fn lemma_single_bit(s: u8, m: u8, n: u8)
    by (bit_vector)
    requires
        m == 0x01 || m == 0x02 || m == 0x04 || m == 0x08 || m == 0x10 || m == 0x20 || m == 0x40
            || m == 0x80,
        n == 0x01 || n == 0x02 || n == 0x04 || n == 0x08 || n == 0x10 || n == 0x20 || n == 0x40
            || n == 0x80,
    ensures
        ((s | m) & n != 0) == (m == n || s & n != 0),
        ((s & !m) & n != 0) == (m != n && s & n != 0),
{
}

/// Setting one flag changes that flag alone.
pub proof fn lemma_with_flag(status: u8, f: StatusRegisterFlags, g: StatusRegisterFlags, on: bool)
    ensures
        flag_set(with_flag(status, f, on), g) == if f == g {
            on
        } else {
            flag_set(status, g)
        },
{
    lemma_single_bit(status, f.bit(), g.bit());
}

/// The architectural registers.
#[derive(Clone, Copy, Debug, PartialEq, Eq, Structural)]
pub struct Registers {
    /// Accumulator.
    pub acc: u8,
    /// Index register X.
    pub x: u8,
    /// Index register Y.
    pub y: u8,
    /// Stack pointer: the stack lives at 0x0100 + sp.
    pub sp: u8,
    /// Program counter.
    pub pcl: u16,
    /// Processor status, one bit per `StatusRegisterFlags`.
    pub status: u8,
}

/// Accessors for each register; each setter returns the register file for chaining.
pub trait CpuRegisters {
    fn get_acc(&self) -> u8;

    fn get_x(&self) -> u8;

    fn get_y(&self) -> u8;

    fn get_sp(&self) -> u8;

    fn get_pcl(&self) -> u16;

    fn get_status(&self) -> u8;

    fn set_acc(&mut self, acc: u8) -> &mut Self;

    fn set_x(&mut self, x: u8) -> &mut Self;

    fn set_y(&mut self, y: u8) -> &mut Self;

    fn set_sp(&mut self, sp: u8) -> &mut Self;

    fn set_pcl(&mut self, pcl: u16) -> &mut Self;

    fn set_status(&mut self, status: u8) -> &mut Self;
}

impl CpuRegisters for Registers {
    fn get_acc(&self) -> (r: u8)
        ensures
            r == self.acc,
    {
        self.acc
    }

    fn get_x(&self) -> (r: u8)
        ensures
            r == self.x,
    {
        self.x
    }

    fn get_y(&self) -> (r: u8)
        ensures
            r == self.y,
    {
        self.y
    }

    fn get_sp(&self) -> (r: u8)
        ensures
            r == self.sp,
    {
        self.sp
    }

    fn get_pcl(&self) -> (r: u16)
        ensures
            r == self.pcl,
    {
        self.pcl
    }

    fn get_status(&self) -> (r: u8)
        ensures
            r == self.status,
    {
        self.status
    }

    fn set_acc(&mut self, acc: u8) -> (r: &mut Self)
        ensures
            *r == (Registers { acc, ..*old(self) }),
            *final(self) == *final(r),
    {
        self.acc = acc;
        self
    }

    fn set_x(&mut self, x: u8) -> (r: &mut Self)
        ensures
            *r == (Registers { x, ..*old(self) }),
            *final(self) == *final(r),
    {
        self.x = x;
        self
    }

    fn set_y(&mut self, y: u8) -> (r: &mut Self)
        ensures
            *r == (Registers { y, ..*old(self) }),
            *final(self) == *final(r),
    {
        self.y = y;
        self
    }

    fn set_sp(&mut self, sp: u8) -> (r: &mut Self)
        ensures
            *r == (Registers { sp, ..*old(self) }),
            *final(self) == *final(r),
    {
        self.sp = sp;
        self
    }

    fn set_pcl(&mut self, pcl: u16) -> (r: &mut Self)
        ensures
            *r == (Registers { pcl, ..*old(self) }),
            *final(self) == *final(r),
    {
        self.pcl = pcl;
        self
    }

    fn set_status(&mut self, status: u8) -> (r: &mut Self)
        ensures
            *r == (Registers { status, ..*old(self) }),
            *final(self) == *final(r),
    {
        self.status = status;
        self
    }
}

impl Registers {
    /// Whether flag `f` is set.
    pub fn get_flag(&self, f: StatusRegisterFlags) -> (r: bool)
        ensures
            r == flag_set(self.status, f),
    {
        self.status & f.mask() != 0
    }

    /// Sets flag `f` to `on`, keeping the other bits and registers.
    pub fn set_flag(&mut self, f: StatusRegisterFlags, on: bool)
        ensures
            *final(self) == (Registers { status: with_flag(old(self).status, f, on), ..*old(self) }),
    {
        let m = f.mask();
        if on {
            self.status = self.status | m;
        } else {
            self.status = self.status & !m;
        }
    }
}

} // verus!
