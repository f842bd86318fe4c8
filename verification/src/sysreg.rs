//! Guest system registers that host code handles: their identifiers, the
//! table of their handlers, and what a read or a write of one asks of the
//! handler.
use vstd::prelude::*;
use std::collections::HashMap;

verus! {

broadcast use vstd::std_specs::hash::group_hash_axioms;

/// The identifier of the system register with encoding `op0`, `op1`,
/// `CRn`, `CRm`, `op2`, as the translator numbers them.
pub open spec fn sysreg_id(op0: u64, op1: u64, crn: u64, crm: u64, op2: u64) -> u64 {
    (op0 << 19u64) | (op1 << 16u64) | (crn << 12u64) | (crm << 8u64) | (op2 << 5u64)
}

/// The identifier of the system register with encoding `op0`, `op1`,
/// `CRn`, `CRm`, `op2`.
pub fn encode_sysreg_id(op0: u64, op1: u64, crn: u64, crm: u64, op2: u64) -> (r: u64)
    ensures
        r == sysreg_id(op0, op1, crn, crm, op2),
{
    (op0 << 19u64) | (op1 << 16u64) | (crn << 12u64) | (crm << 8u64) | (op2 << 5u64)
}

/// The identifier of `AT S1E1R` (op0 1, op1 0, CRn 7, CRm 8, op2 0), the
/// address translation instruction the host carries out itself.
pub const AT_S1E1R: u64 = 0x87800;

/// Who handles a system register.
#[derive(Debug, Clone, Copy, PartialEq, Eq, Structural)]
pub enum SysregHandler {
    /// A register-mapped device, by its number among the host's devices.
    Device(usize),
    /// The host's handler of `AT S1E1R`.
    AddressTranslation,
}

/// What writing a system register asks of its handler.
#[derive(Debug, Clone, Copy, PartialEq, Eq)]
pub enum SysregWrite {
    /// Write the bytes of the value, least significant first, to a device.
    Device { device: usize, bytes: [u8; 8] },
    /// Translate the address the value holds.
    AddressTranslation(u64),
}

/// The eight bytes of `v`, least significant first.
pub open spec fn le_bytes64(v: u64) -> Seq<u8> {
    seq![
        (v & 0xff) as u8,
        ((v >> 8u64) & 0xff) as u8,
        ((v >> 16u64) & 0xff) as u8,
        ((v >> 24u64) & 0xff) as u8,
        ((v >> 32u64) & 0xff) as u8,
        ((v >> 40u64) & 0xff) as u8,
        ((v >> 48u64) & 0xff) as u8,
        ((v >> 56u64) & 0xff) as u8,
    ]
}

/// The value of eight bytes, least significant first.
pub open spec fn from_le_bytes64(b: Seq<u8>) -> u64 {
    ((b[0] as u64) | ((b[1] as u64) << 8u64) | ((b[2] as u64) << 16u64) | ((b[3] as u64) << 24u64) | ((b[4] as u64)
        << 32u64) | ((b[5] as u64) << 40u64) | ((b[6] as u64) << 48u64) | ((b[7] as u64) << 56u64))
}

/// The bytes of `v`, least significant first.
pub fn to_le_bytes(v: u64) -> (r: [u8; 8])
    ensures
        r@ == le_bytes64(v),
{
    let r = [
        (v & 0xff) as u8,
        ((v >> 8u64) & 0xff) as u8,
        ((v >> 16u64) & 0xff) as u8,
        ((v >> 24u64) & 0xff) as u8,
        ((v >> 32u64) & 0xff) as u8,
        ((v >> 40u64) & 0xff) as u8,
        ((v >> 48u64) & 0xff) as u8,
        ((v >> 56u64) & 0xff) as u8,
    ];
    proof {
        assert(r@ =~= le_bytes64(v));
    }
    r
}

/// The value of eight bytes, least significant first.
pub fn from_le_bytes(b: [u8; 8]) -> (r: u64)
    ensures
        r == from_le_bytes64(b@),
{
    (b[0] as u64) | ((b[1] as u64) << 8u64) | ((b[2] as u64) << 16u64) | ((b[3] as u64) << 24u64) | ((b[4] as u64)
        << 32u64) | ((b[5] as u64) << 40u64) | ((b[6] as u64) << 48u64) | ((b[7] as u64) << 56u64)
}

/// The handlers of the system registers host code handles.
pub struct SysregHandlers {
    handlers: HashMap<u64, SysregHandler>,
}

impl SysregHandlers {
    /// The handler of each register that has one.
    pub closed spec fn spec_handlers(&self) -> Map<u64, SysregHandler> {
        self.handlers@
    }

    /// The table with the host's own handler of `AT S1E1R`.
    pub fn new() -> (r: SysregHandlers)
        ensures
            r.spec_handlers() == map![AT_S1E1R => SysregHandler::AddressTranslation],
    {
        let mut handlers: HashMap<u64, SysregHandler> = HashMap::new();
        handlers.insert(AT_S1E1R, SysregHandler::AddressTranslation);
        let r = SysregHandlers { handlers };
        proof {
            assert(r.spec_handlers() =~= map![AT_S1E1R => SysregHandler::AddressTranslation]);
        }
        r
    }

    /// Makes device `device` the handler of register `id`.
    pub fn register_device(&mut self, id: u64, device: usize)
        ensures
            final(self).spec_handlers() == old(self).spec_handlers().insert(id, SysregHandler::Device(device)),
    {
        self.handlers.insert(id, SysregHandler::Device(device));
    }

    /// Whether register `reg` has a handler.
    pub fn handler_exists(&self, reg: u64) -> (r: bool)
        ensures
            r == self.spec_handlers().contains_key(reg),
    {
        self.handlers.contains_key(&reg)
    }

    /// The device a read of register `reg` goes to; its eight bytes make
    /// the value (see [`from_le_bytes`]).
    pub fn sys_reg_read(&self, reg: u64) -> (device: usize)
        requires
            self.spec_handlers().contains_key(reg),
            self.spec_handlers()[reg] is Device,
        ensures
            self.spec_handlers()[reg] == SysregHandler::Device(device),
    {
        match self.handlers.get(&reg) {
            Some(SysregHandler::Device(d)) => *d,
            _ => vstd::pervasive::unreached(),
        }
    }

    /// What writing `value` to register `reg` asks of its handler.
    pub fn sys_reg_write(&self, reg: u64, value: u64, len: u8) -> (r: SysregWrite)
        requires
            self.spec_handlers().contains_key(reg),
        ensures
            self.spec_handlers()[reg] matches SysregHandler::Device(d) ==> r matches SysregWrite::Device {
                device,
                bytes,
            } && device == d && bytes@ == le_bytes64(value),
            self.spec_handlers()[reg] is AddressTranslation ==> r == SysregWrite::AddressTranslation(value),
    {
        match self.handlers.get(&reg) {
            Some(SysregHandler::Device(d)) => SysregWrite::Device { device: *d, bytes: to_le_bytes(value) },
            Some(SysregHandler::AddressTranslation) => SysregWrite::AddressTranslation(value),
            None => vstd::pervasive::unreached(),
        }
    }
}

/// Once a device is registered for a register, the register has a
/// handler, reads of it go to that device and writes of it hand the
/// device the value's bytes.
pub proof fn lemma_registered_device(handlers: Map<u64, SysregHandler>, id: u64, device: usize)
    ensures
        handlers.insert(id, SysregHandler::Device(device)).contains_key(id),
        handlers.insert(id, SysregHandler::Device(device))[id] == SysregHandler::Device(device),
{
}

/// The identifier of `AT S1E1R` is that of its encoding.
pub proof fn lemma_at_s1e1r_id()
    ensures
        AT_S1E1R == sysreg_id(1, 0, 7, 8, 0),
{
    assert(((1u64 << 19u64) | (0u64 << 16u64) | (7u64 << 12u64) | (8u64 << 8u64) | (0u64 << 5u64)) == 0x87800u64)
        by (bit_vector);
}

/// The bytes of a value give the value back.
pub proof fn lemma_le_bytes_round_trip(v: u64)
    ensures
        from_le_bytes64(le_bytes64(v)) == v,
{
    let b = le_bytes64(v);
    assert(b[0] == (v & 0xff) as u8);
    assert(b[1] == ((v >> 8u64) & 0xff) as u8);
    assert(b[2] == ((v >> 16u64) & 0xff) as u8);
    assert(b[3] == ((v >> 24u64) & 0xff) as u8);
    assert(b[4] == ((v >> 32u64) & 0xff) as u8);
    assert(b[5] == ((v >> 40u64) & 0xff) as u8);
    assert(b[6] == ((v >> 48u64) & 0xff) as u8);
    assert(b[7] == ((v >> 56u64) & 0xff) as u8);
    assert(((((v & 0xff) as u8) as u64) | (((((v >> 8u64) & 0xff) as u8) as u64) << 8u64) | (((((v >> 16u64) & 0xff) as u8) as u64) << 16u64)
        | (((((v >> 24u64) & 0xff) as u8) as u64) << 24u64) | (((((v >> 32u64) & 0xff) as u8) as u64) << 32u64)
        | (((((v >> 40u64) & 0xff) as u8) as u64) << 40u64) | (((((v >> 48u64) & 0xff) as u8) as u64) << 48u64)
        | (((((v >> 56u64) & 0xff) as u8) as u64) << 56u64)) == v) by (bit_vector);
}

} // verus!
