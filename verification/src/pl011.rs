//! The guest's PL011 UART: its registers as the guest reads and writes
//! them, and what a write asks of the host (a character to print, the
//! interrupt line to raise or lower).
use vstd::prelude::*;

verus! {

/// The transmit interrupt.
pub const IRQ_TXINTR: u32 = 0x20;

/// The receive interrupt.
pub const IRQ_RXINTR: u32 = 0x10;

/// The registers of the UART.
#[derive(Debug, Clone, Copy, PartialEq, Eq, Structural)]
pub struct Pl011 {
    pub control_register: u16,
    pub baud_rate: u16,
    pub fractional_baud: u16,
    pub line_control: u16,
    pub ifl: u16,
    pub irq_status: u32,
    pub irq_mask: u32,
    pub irq_line: usize,
}

/// What a register write asks of the host.
#[derive(Debug, Clone, Copy, PartialEq, Eq, Structural)]
pub struct Pl011Effects {
    /// A character to print.
    pub output: Option<u8>,
    /// The level to drive the interrupt line to: raised where `true`.
    pub irq: Option<bool>,
}

/// The two bytes of `v`, least significant first.
pub open spec fn le_bytes16(v: u16) -> Seq<u8> {
    seq![(v & 0xff) as u8, (v >> 8u16) as u8]
}

/// The four bytes of `v`, least significant first.
pub open spec fn le_bytes32(v: u32) -> Seq<u8> {
    seq![(v & 0xff) as u8, ((v >> 8u32) & 0xff) as u8, ((v >> 16u32) & 0xff) as u8, (v >> 24u32) as u8]
}

/// The 16-bit value of two bytes, least significant first.
pub open spec fn from_le16(s: Seq<u8>) -> u16 {
    ((s[0] as u16) | ((s[1] as u16) << 8u16)) as u16
}

/// The identification byte at `offset`, for the offsets of the
/// peripheral and PrimeCell identification registers.
pub open spec fn id_byte(offset: u64) -> u8 {
    if offset == 0xfe0 {
        0x11
    } else if offset == 0xfe4 {
        0x10
    } else if offset == 0xfe8 {
        0x14
    } else if offset == 0xfec {
        0x00
    } else if offset == 0xff0 {
        0x0d
    } else if offset == 0xff4 {
        0xf0
    } else if offset == 0xff8 {
        0x05
    } else {
        0xb1
    }
}

/// Whether `offset` is one of the identification registers.
pub open spec fn is_id_offset(offset: u64) -> bool {
    0xfe0 <= offset <= 0xffc && offset % 4 == 0
}

/// Whether `offset` is one of the 16-bit registers read back as two bytes.
pub open spec fn is_halfword_offset(offset: u64) -> bool {
    offset == 0x024 || offset == 0x028 || offset == 0x02c || offset == 0x030 || offset == 0x034 || offset == 0x038
}

/// Whether a read of `len` bytes at `offset` is defined.
pub open spec fn readable(offset: u64, len: nat) -> bool {
    ||| offset == 0x000
    ||| offset == 0x004
    ||| (offset == 0x018 && len >= 1)
    ||| (is_halfword_offset(offset) && len >= 2)
    ||| (offset == 0x03c && len >= 4)
    ||| (is_id_offset(offset) && len >= 1)
}

/// Whether a write of `len` bytes at `offset` is defined.
pub open spec fn writable(offset: u64, len: nat) -> bool {
    ||| (offset == 0x000 && len >= 1)
    ||| offset == 0x004
    ||| ((is_halfword_offset(offset) || offset == 0x044) && len == 2)
}

impl Pl011 {
    /// The flag register: bit 7 (transmit FIFO empty) always, and bit 6
    /// (receive FIFO full) unless FIFOs are enabled.
    pub open spec fn spec_flags(self) -> u8 {
        if self.line_control & 0x10 == 0 {
            0xc0u8
        } else {
            0x80u8
        }
    }

    /// The 16-bit register at a halfword offset.
    pub open spec fn halfword(self, offset: u64) -> u16 {
        if offset == 0x024 {
            self.baud_rate
        } else if offset == 0x028 {
            self.fractional_baud
        } else if offset == 0x02c {
            self.line_control
        } else if offset == 0x030 {
            self.control_register
        } else if offset == 0x034 {
            self.ifl
        } else {
            self.irq_mask as u16
        }
    }

    /// The buffer a read of `offset` into `dst` leaves.
    pub open spec fn read_result(self, offset: u64, dst: Seq<u8>) -> Seq<u8> {
        if offset == 0x000 {
            dst
        } else if offset == 0x004 {
            Seq::new(dst.len(), |i: int| 0u8)
        } else if offset == 0x018 {
            dst.update(0, self.spec_flags())
        } else if is_halfword_offset(offset) {
            le_bytes16(self.halfword(offset)) + dst.skip(2)
        } else if offset == 0x03c {
            le_bytes32(self.irq_status) + dst.skip(4)
        } else {
            dst.update(0, id_byte(offset))
        }
    }

    /// Whether the interrupt line is raised: a pending interrupt is
    /// unmasked.
    pub open spec fn irq_level(self) -> bool {
        self.irq_status & self.irq_mask != 0
    }

    /// The registers after a write of `src` at `offset`.
    pub open spec fn after_write(self, offset: u64, src: Seq<u8>) -> Pl011 {
        let v = from_le16(src);
        if offset == 0x000 {
            Pl011 { irq_status: self.irq_status | IRQ_TXINTR, ..self }
        } else if offset == 0x024 {
            Pl011 { baud_rate: v & 0xffff, ..self }
        } else if offset == 0x028 {
            Pl011 { fractional_baud: v & 0x3f, ..self }
        } else if offset == 0x02c {
            Pl011 { line_control: v & 0xff, ..self }
        } else if offset == 0x030 {
            Pl011 { control_register: v, ..self }
        } else if offset == 0x034 {
            Pl011 { ifl: v, ..self }
        } else if offset == 0x038 {
            Pl011 { irq_mask: (v & 0x7ff) as u32, ..self }
        } else if offset == 0x044 {
            Pl011 { irq_status: self.irq_status & !(v as u32), ..self }
        } else {
            self
        }
    }

    /// What a write of `src` at `offset` asks of the host: the data
    /// register prints its byte, and the writes that can change the
    /// interrupt state drive the line to its new level.
    pub open spec fn write_effects(self, offset: u64, src: Seq<u8>) -> Pl011Effects {
        let next = self.after_write(offset, src);
        Pl011Effects {
            output: if offset == 0x000 {
                Some(src[0])
            } else {
                None
            },
            irq: if offset == 0x000 || offset == 0x034 || offset == 0x038 || offset == 0x044 {
                Some(next.irq_level())
            } else {
                None
            },
        }
    }

    /// A UART at reset, on interrupt line `irq_line`.
    pub fn new(irq_line: usize) -> (r: Pl011)
        ensures
            r == (Pl011 {
                control_register: 0x300,
                baud_rate: 0,
                fractional_baud: 0,
                line_control: 0,
                ifl: 0x12,
                irq_status: 0,
                irq_mask: 0,
                irq_line,
            }),
    {
        Pl011 {
            control_register: 0x300,
            baud_rate: 0,
            fractional_baud: 0,
            line_control: 0,
            ifl: 0x12,
            irq_status: 0,
            irq_mask: 0,
            irq_line,
        }
    }

    /// The size of the UART's register window.
    pub fn address_space_size(&self) -> (r: u64)
        ensures
            r == 0x1000,
    {
        0x1000
    }

    /// Whether a read of `len` bytes at `offset` is defined.
    pub fn can_read(offset: u64, len: usize) -> (r: bool)
        ensures
            r == readable(offset, len as nat),
    {
        offset == 0x000 || offset == 0x004 || (offset == 0x018 && len >= 1) || ((offset == 0x024 || offset == 0x028
            || offset == 0x02c || offset == 0x030 || offset == 0x034 || offset == 0x038) && len >= 2) || (offset
            == 0x03c && len >= 4) || (0xfe0 <= offset && offset <= 0xffc && offset % 4 == 0 && len >= 1)
    }

    /// Whether a write of `len` bytes at `offset` is defined.
    pub fn can_write(offset: u64, len: usize) -> (r: bool)
        ensures
            r == writable(offset, len as nat),
    {
        (offset == 0x000 && len >= 1) || offset == 0x004 || ((offset == 0x024 || offset == 0x028 || offset == 0x02c
            || offset == 0x030 || offset == 0x034 || offset == 0x038 || offset == 0x044) && len == 2)
    }

    fn put_halfword(dst: &mut [u8], v: u16)
        requires
            old(dst)@.len() >= 2,
        ensures
            final(dst)@ == le_bytes16(v) + old(dst)@.skip(2),
    {
        dst[0] = (v & 0xff) as u8;
        dst[1] = (v >> 8u16) as u8;
        proof {
            assert(dst@ =~= le_bytes16(v) + old(dst)@.skip(2));
        }
    }

    /// Reads the register at `offset` into `dst`.
    pub fn read(&self, offset: u64, dst: &mut [u8])
        requires
            readable(offset, old(dst)@.len()),
        ensures
            final(dst)@ == self.read_result(offset, old(dst)@),
    {
        if offset == 0x000 {
        } else if offset == 0x004 {
            let mut i: usize = 0;
            while i < dst.len()
                invariant
                    i <= dst@.len(),
                    dst@.len() == old(dst)@.len(),
                    forall|j: int| 0 <= j < i ==> dst@[j] == 0u8,
                decreases dst@.len() - i,
            {
                dst[i] = 0;
                i = i + 1;
            }
            proof {
                assert(dst@ =~= Seq::new(old(dst)@.len(), |i: int| 0u8));
            }
        } else if offset == 0x018 {
            let data: u8 = if (self.line_control & 0x10) == 0 {
                0xc0
            } else {
                0x80
            };
            dst[0] = data;
            proof {
                assert(dst@ =~= old(dst)@.update(0, self.spec_flags()));
            }
        } else if offset == 0x024 {
            Self::put_halfword(dst, self.baud_rate);
        } else if offset == 0x028 {
            Self::put_halfword(dst, self.fractional_baud);
        } else if offset == 0x02c {
            Self::put_halfword(dst, self.line_control);
        } else if offset == 0x030 {
            Self::put_halfword(dst, self.control_register);
        } else if offset == 0x034 {
            Self::put_halfword(dst, self.ifl);
        } else if offset == 0x038 {
            Self::put_halfword(dst, self.irq_mask as u16);
        } else if offset == 0x03c {
            let v = self.irq_status;
            dst[0] = (v & 0xff) as u8;
            dst[1] = ((v >> 8u32) & 0xff) as u8;
            dst[2] = ((v >> 16u32) & 0xff) as u8;
            dst[3] = (v >> 24u32) as u8;
            proof {
                assert(dst@ =~= le_bytes32(v) + old(dst)@.skip(4));
            }
        } else {
            let b: u8 = if offset == 0xfe0 {
                0x11
            } else if offset == 0xfe4 {
                0x10
            } else if offset == 0xfe8 {
                0x14
            } else if offset == 0xfec {
                0x00
            } else if offset == 0xff0 {
                0x0d
            } else if offset == 0xff4 {
                0xf0
            } else if offset == 0xff8 {
                0x05
            } else {
                0xb1
            };
            dst[0] = b;
            proof {
                assert(dst@ =~= old(dst)@.update(0, id_byte(offset)));
            }
        }
    }

    fn halfword_of(src: &[u8]) -> (r: u16)
        requires
            src@.len() == 2,
        ensures
            r == from_le16(src@),
    {
        ((src[0] as u16) | ((src[1] as u16) << 8u16)) as u16
    }

    /// Whether the interrupt line is to be raised.
    fn irq_raised(&self) -> (r: bool)
        ensures
            r == self.irq_level(),
    {
        (self.irq_status & self.irq_mask) != 0
    }

    /// Writes `src` to the register at `offset`, and returns what the
    /// write asks of the host.
    pub fn write(&mut self, offset: u64, src: &[u8]) -> (r: Pl011Effects)
        requires
            writable(offset, src@.len()),
        ensures
            *final(self) == old(self).after_write(offset, src@),
            r == old(self).write_effects(offset, src@),
    {
        if offset == 0x000 {
            self.irq_status = self.irq_status | IRQ_TXINTR;
            Pl011Effects { output: Some(src[0]), irq: Some(self.irq_raised()) }
        } else if offset == 0x004 {
            Pl011Effects { output: None, irq: None }
        } else if offset == 0x024 {
            self.baud_rate = Self::halfword_of(src) & 0xffff;
            Pl011Effects { output: None, irq: None }
        } else if offset == 0x028 {
            self.fractional_baud = Self::halfword_of(src) & 0x3f;
            Pl011Effects { output: None, irq: None }
        } else if offset == 0x02c {
            self.line_control = Self::halfword_of(src) & 0xff;
            Pl011Effects { output: None, irq: None }
        } else if offset == 0x030 {
            self.control_register = Self::halfword_of(src);
            Pl011Effects { output: None, irq: None }
        } else if offset == 0x034 {
            self.ifl = Self::halfword_of(src);
            Pl011Effects { output: None, irq: Some(self.irq_raised()) }
        } else if offset == 0x038 {
            self.irq_mask = (Self::halfword_of(src) & 0x7ff) as u32;
            Pl011Effects { output: None, irq: Some(self.irq_raised()) }
        } else {
            self.irq_status = self.irq_status & !(Self::halfword_of(src) as u32);
            Pl011Effects { output: None, irq: Some(self.irq_raised()) }
        }
    }
}

/// The baud-rate, line-control and control registers read back the value
/// last written to them, as far as the bits they keep: all sixteen for the
/// baud rate and control, the low eight for line control.
pub proof fn lemma_register_read_back(uart: Pl011, offset: u64, src: Seq<u8>, dst: Seq<u8>)
    requires
        offset == 0x024 || offset == 0x02c || offset == 0x030,
        src.len() == 2,
        dst.len() >= 2,
    ensures
        uart.after_write(offset, src).read_result(offset, dst).take(2) == le_bytes16(
            if offset == 0x02c {
                from_le16(src) & 0xff
            } else {
                from_le16(src)
            },
        ),
{
    let v = from_le16(src);
    assert(v & 0xffff == v) by (bit_vector);
    let r = uart.after_write(offset, src).read_result(offset, dst);
    assert(r.take(2) =~= le_bytes16(
        if offset == 0x02c {
            v & 0xff
        } else {
            v
        },
    ));
}

/// A byte written to the data register comes back from it as the
/// character to print, and raises the line exactly where the transmit
/// interrupt is unmasked.
pub proof fn lemma_transmit(uart: Pl011, byte: u8)
    ensures
        uart.write_effects(0x000, seq![byte]).output == Some(byte),
        uart.write_effects(0x000, seq![byte]).irq == Some(
            (uart.irq_status | IRQ_TXINTR) & uart.irq_mask != 0,
        ),
        uart.after_write(0x000, seq![byte]).irq_status & IRQ_TXINTR == IRQ_TXINTR,
{
    let s = uart.irq_status;
    assert((s | 0x20u32) & 0x20u32 == 0x20u32) by (bit_vector);
}

} // verus!
