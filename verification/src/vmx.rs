//! The bitmaps that tell VMX which I/O ports and which model-specific
//! registers of a guest cause VM exits.
use vstd::prelude::*;
use crate::bitset::{byte_bit, byte_reset_bit, byte_set_bit, lemma_byte_full, lemma_byte_reset, lemma_byte_set};

verus! {

/// Bit `index` of a bitmap kept as bytes, bit 0 being the lowest bit of
/// the first byte.
pub open spec fn bitmap_bit(bytes: Seq<u8>, index: int) -> bool {
    byte_bit(bytes[index / 8], (index % 8) as u8)
}

/// A filled bitmap of `len` bytes, each `value`.
fn filled(len: usize, value: u8) -> (r: Vec<u8>)
    ensures
        r@.len() == len,
        forall|i: int| 0 <= i < len ==> r@[i] == value,
{
    let mut v: Vec<u8> = Vec::new();
    let mut i: usize = 0;
    while i < len
        invariant
            i <= len,
            v@.len() == i,
            forall|j: int| 0 <= j < i ==> v@[j] == value,
        decreases len - i,
    {
        v.push(value);
        i = i + 1;
    }
    v
}

/// Sets or clears bit `index` of `bytes`, keeping the others.
fn set_bitmap_bit(bytes: &mut Vec<u8>, index: usize, value: bool)
    requires
        index / 8 < old(bytes)@.len(),
    ensures
        final(bytes)@.len() == old(bytes)@.len(),
        bitmap_bit(final(bytes)@, index as int) == value,
        forall|i: int|
            0 <= i < old(bytes)@.len() * 8 && i != index ==> #[trigger] bitmap_bit(final(bytes)@, i) == bitmap_bit(
                old(bytes)@,
                i,
            ),
{
    let byte_index = index / 8;
    let bit = index % 8;
    let mut byte = bytes[byte_index];
    if value {
        byte_set_bit(&mut byte, bit);
    } else {
        byte_reset_bit(&mut byte, bit);
    }
    bytes.set(byte_index, byte);
    proof {
        assert forall|i: int| 0 <= i < old(bytes)@.len() * 8 && i != index implies #[trigger] bitmap_bit(bytes@, i)
            == bitmap_bit(old(bytes)@, i) by {
            if i / 8 == byte_index as int {
                if value {
                    lemma_byte_set(old(bytes)@[i / 8], bit as u8, (i % 8) as u8);
                } else {
                    lemma_byte_reset(old(bytes)@[i / 8], bit as u8, (i % 8) as u8);
                }
            }
        }
        if value {
            lemma_byte_set(old(bytes)@[byte_index as int], bit as u8, bit as u8);
        } else {
            lemma_byte_reset(old(bytes)@[byte_index as int], bit as u8, bit as u8);
        }
    }
}

/// The two 4-KByte I/O bitmaps, one bit per port: a set bit makes
/// accesses to the port exit.
pub struct IoBitmap {
    region: Vec<u8>,
}

impl IoBitmap {
    /// The bitmap's bytes, port 0 in the lowest bit of the first.
    pub closed spec fn bytes(&self) -> Seq<u8> {
        self.region@
    }

    /// The bitmap covers all 65536 ports.
    pub open spec fn wf(&self) -> bool {
        self.bytes().len() == 8192
    }

    /// Whether accesses to `port` exit.
    pub open spec fn io_exiting(&self, port: u16) -> bool {
        bitmap_bit(self.bytes(), port as int)
    }

    /// A bitmap in which every port exits.
    pub fn new() -> (r: IoBitmap)
        ensures
            r.wf(),
            forall|i: int| 0 <= i < 8192 ==> r.bytes()[i] == 0xffu8,
            forall|port: u16| r.io_exiting(port),
    {
        let r = IoBitmap { region: filled(8192, 0xff) };
        proof {
            assert forall|port: u16| r.io_exiting(port) by {
                lemma_byte_full((port % 8) as u8);
            }
        }
        r
    }

    /// Makes accesses to `port` exit or not; the other ports keep theirs.
    pub fn set_io_exiting(&mut self, port: u16, exiting: bool)
        requires
            old(self).wf(),
        ensures
            final(self).wf(),
            final(self).io_exiting(port) == exiting,
            forall|other: u16| other != port ==> #[trigger] final(self).io_exiting(other) == old(self).io_exiting(other),
    {
        set_bitmap_bit(&mut self.region, port as usize, exiting);
        proof {
            assert forall|other: u16| other != port implies #[trigger] self.io_exiting(other) == old(self).io_exiting(
                other,
            ) by {
                assert(bitmap_bit(self.region@, other as int) == bitmap_bit(old(self).region@, other as int));
            }
        }
    }

    /// The bitmap's bytes, as the processor reads them.
    pub fn as_bytes(&self) -> (r: &[u8])
        ensures
            r@ == self.bytes(),
    {
        self.region.as_slice()
    }
}

/// The ports a guest accesses without exiting: the DMA, interrupt
/// controller and A20 gate ports it programs, and the QEMU firmware
/// configuration port.
pub open spec fn passthrough_port(port: u16) -> bool {
    port == 0x0d || port == 0xda || port == 0xd6 || port == 0xd4 || port == 0x20 || port == 0x21 || port == 0xa0
        || port == 0xa1 || port == 0x92 || port == 0x510
}

/// The I/O bitmap guests run with: every port exits but the passthrough
/// ports.
pub fn guest_io_bitmap() -> (r: IoBitmap)
    ensures
        r.wf(),
        forall|port: u16| #[trigger] r.io_exiting(port) == !passthrough_port(port),
{
    let mut b = IoBitmap::new();
    let ports: [u16; 10] = [0x0d, 0xda, 0xd6, 0xd4, 0x20, 0x21, 0xa0, 0xa1, 0x92, 0x510];
    let mut i: usize = 0;
    while i < 10
        invariant
            i <= 10,
            b.wf(),
            ports@ == seq![0x0du16, 0xdau16, 0xd6u16, 0xd4u16, 0x20u16, 0x21u16, 0xa0u16, 0xa1u16, 0x92u16, 0x510u16],
            forall|port: u16|
                #[trigger] b.io_exiting(port) == !(exists|k: int| 0 <= k < i && ports@[k] == port),
        decreases 10 - i,
    {
        let ghost before = b;
        b.set_io_exiting(ports[i], false);
        proof {
            assert forall|port: u16|
                #[trigger] b.io_exiting(port) == !(exists|k: int| 0 <= k < i + 1 && ports@[k] == port) by {
                if port == ports@[i as int] {
                } else {
                    assert(b.io_exiting(port) == before.io_exiting(port));
                    if exists|k: int| 0 <= k < i + 1 && ports@[k] == port {
                        let k = choose|k: int| 0 <= k < i + 1 && ports@[k] == port;
                        assert(k < i);
                    }
                }
            }
        }
        i = i + 1;
    }
    proof {
        assert forall|port: u16| #[trigger] b.io_exiting(port) == !passthrough_port(port) by {
            if passthrough_port(port) {
                if port == 0x0d { assert(ports@[0] == port); }
                else if port == 0xda { assert(ports@[1] == port); }
                else if port == 0xd6 { assert(ports@[2] == port); }
                else if port == 0xd4 { assert(ports@[3] == port); }
                else if port == 0x20 { assert(ports@[4] == port); }
                else if port == 0x21 { assert(ports@[5] == port); }
                else if port == 0xa0 { assert(ports@[6] == port); }
                else if port == 0xa1 { assert(ports@[7] == port); }
                else if port == 0x92 { assert(ports@[8] == port); }
                else { assert(ports@[9] == port); }
            }
        }
    }
    b
}

/// Whether `address` is the number of a model-specific register the MSR
/// bitmap covers: the low range `0..=0x1fff` or the high range
/// `0xc000_0000..=0xc000_1fff`.
pub open spec fn is_msr_address(address: u32) -> bool {
    address <= 0x1fff || (0xc000_0000 <= address && address <= 0xc000_1fff)
}

/// The bit of the MSR bitmap that makes reading `address` exit.
pub open spec fn msr_read_bit(address: u32) -> int {
    if address <= 0x1fff {
        address as int
    } else {
        address - 0xc000_0000 + 8 * 1024
    }
}

/// The bit of the MSR bitmap that makes writing `address` exit.
pub open spec fn msr_write_bit(address: u32) -> int {
    if address <= 0x1fff {
        address + 2 * (8 * 1024)
    } else {
        address - 0xc000_0000 + 3 * (8 * 1024)
    }
}

/// The four contiguous 1-KByte MSR bitmaps: read-low, read-high,
/// write-low, write-high; a set bit makes the access exit.
pub struct MsrBitmap {
    region: Vec<u8>,
}

impl MsrBitmap {
    /// The bitmap's bytes.
    pub closed spec fn bytes(&self) -> Seq<u8> {
        self.region@
    }

    /// The bitmap covers its four 1-KByte parts.
    pub open spec fn wf(&self) -> bool {
        self.bytes().len() == 4096
    }

    /// Whether reading `address` exits.
    pub open spec fn read_exiting(&self, address: u32) -> bool {
        bitmap_bit(self.bytes(), msr_read_bit(address))
    }

    /// Whether writing `address` exits.
    pub open spec fn write_exiting(&self, address: u32) -> bool {
        bitmap_bit(self.bytes(), msr_write_bit(address))
    }

    /// A bitmap in which no access exits.
    pub fn new() -> (r: MsrBitmap)
        ensures
            r.wf(),
            forall|i: int| 0 <= i < 4096 ==> r.bytes()[i] == 0u8,
    {
        MsrBitmap { region: filled(4096, 0) }
    }

    fn set_bit(&mut self, index: usize, value: bool)
        requires
            old(self).wf(),
            index < 4096 * 8,
        ensures
            final(self).wf(),
            bitmap_bit(final(self).bytes(), index as int) == value,
            forall|i: int|
                0 <= i < 4096 * 8 && i != index ==> #[trigger] bitmap_bit(final(self).bytes(), i) == bitmap_bit(
                    old(self).bytes(),
                    i,
                ),
    {
        set_bitmap_bit(&mut self.region, index, value);
    }

    /// Makes writing the register `address` exit or not; every other bit
    /// of the bitmap is kept.
    pub fn set_msr_write_exiting(&mut self, address: u32, exiting: bool)
        requires
            old(self).wf(),
            is_msr_address(address),
        ensures
            final(self).wf(),
            final(self).write_exiting(address) == exiting,
            forall|i: int|
                0 <= i < 4096 * 8 && i != msr_write_bit(address) ==> #[trigger] bitmap_bit(final(self).bytes(), i)
                    == bitmap_bit(old(self).bytes(), i),
    {
        let bit_index: u32 = if address <= 0x1fff {
            address + 2 * (8 * 1024)
        } else {
            (address - 0xc000_0000) + 3 * (8 * 1024)
        };
        self.set_bit(bit_index as usize, exiting);
    }

    /// Makes reading the register `address` exit or not; every other bit
    /// of the bitmap is kept.
    pub fn set_msr_read_exiting(&mut self, address: u32, exiting: bool)
        requires
            old(self).wf(),
            is_msr_address(address),
        ensures
            final(self).wf(),
            final(self).read_exiting(address) == exiting,
            forall|i: int|
                0 <= i < 4096 * 8 && i != msr_read_bit(address) ==> #[trigger] bitmap_bit(final(self).bytes(), i)
                    == bitmap_bit(old(self).bytes(), i),
    {
        let bit_index: u32 = if address <= 0x1fff {
            address
        } else {
            (address - 0xc000_0000) + 8 * 1024
        };
        self.set_bit(bit_index as usize, exiting);
    }

    /// The bitmap's bytes, as the processor reads them.
    pub fn as_bytes(&self) -> (r: &[u8])
        ensures
            r@ == self.bytes(),
    {
        self.region.as_slice()
    }
}

/// The layout of the MSR bitmap: the read bits of the low and high MSR
/// ranges fill the first and second 1-KByte quarters, and the write bit of
/// every MSR lies exactly 2 KBytes (16384 bits) after its read bit, in the
/// third or fourth quarter; so no write bit is the read bit of any MSR,
/// and different MSRs have different bits.
pub proof fn law_msr_bitmap_layout(a: u32, b: u32)
    requires
        is_msr_address(a),
        is_msr_address(b),
    ensures
        a <= 0x1fff ==> 0 <= msr_read_bit(a) < 8 * 1024,
        a > 0x1fff ==> 8 * 1024 <= msr_read_bit(a) < 2 * 8 * 1024,
        msr_write_bit(a) == msr_read_bit(a) + 2 * 8 * 1024,
        msr_write_bit(a) != msr_read_bit(b),
        a != b ==> msr_read_bit(a) != msr_read_bit(b) && msr_write_bit(a) != msr_write_bit(b),
{
}

/// Setting the write-exiting bit of an MSR changes whether writing that
/// MSR exits and nothing else: whether reading any MSR exits, and whether
/// writing any other MSR exits, stay as they were.
pub proof fn law_msr_write_keeps_others(old: MsrBitmap, new: MsrBitmap, a: u32)
    requires
        old.wf(),
        new.wf(),
        is_msr_address(a),
        forall|i: int|
            0 <= i < 4096 * 8 && i != msr_write_bit(a) ==> #[trigger] bitmap_bit(new.bytes(), i) == bitmap_bit(
                old.bytes(),
                i,
            ),
    ensures
        forall|b: u32| is_msr_address(b) ==> #[trigger] new.read_exiting(b) == old.read_exiting(b),
        forall|b: u32| is_msr_address(b) && b != a ==> #[trigger] new.write_exiting(b) == old.write_exiting(b),
{
    assert forall|b: u32| is_msr_address(b) implies #[trigger] new.read_exiting(b) == old.read_exiting(b) by {
        law_msr_bitmap_layout(a, b);
        assert(bitmap_bit(new.bytes(), msr_read_bit(b)) == bitmap_bit(old.bytes(), msr_read_bit(b)));
    }
    assert forall|b: u32| is_msr_address(b) && b != a implies #[trigger] new.write_exiting(b) == old.write_exiting(b) by {
        law_msr_bitmap_layout(a, b);
        law_msr_bitmap_layout(b, a);
        assert(bitmap_bit(new.bytes(), msr_write_bit(b)) == bitmap_bit(old.bytes(), msr_write_bit(b)));
    }
}

} // verus!
