use vstd::prelude::*;

verus! {

/// Number of bytes in an account address.
pub const ADDRESS_LENGTH: usize = 16;

/// An account address as its raw big-endian bytes.
#[derive(Clone, Copy, Debug)]
pub struct Address {
    pub bytes: [u8; 16],
}

/// Every byte but the last is zero.
pub open spec fn high_bytes_zero(b: Seq<u8>) -> bool {
    forall|i: int| 0 <= i < b.len() - 1 ==> b[i] == 0
}

/// Addresses 0x1 through 0xa are reserved for the system.
pub open spec fn spec_is_system_reserved(b: Seq<u8>) -> bool {
    b.len() == 16 && high_bytes_zero(b) && 0 < b[15] && b[15] <= 10
}

/// The zero address belongs to the VM.
pub open spec fn spec_is_zero(b: Seq<u8>) -> bool {
    forall|i: int| 0 <= i < b.len() ==> b[i] == 0
}

impl Address {
    pub fn new(bytes: [u8; 16]) -> (r: Address)
        ensures
            r.bytes@ == bytes@,
    {
        Address { bytes }
    }

    pub fn into_bytes(self) -> (r: [u8; 16])
        ensures
            r@ == self.bytes@,
    {
        self.bytes
    }

    /// The address whose last byte is `last` and all others zero.
    pub fn from_last_byte(last: u8) -> (r: Address)
        ensures
            high_bytes_zero(r.bytes@),
            r.bytes@[15] == last,
    {
        let mut bytes: [u8; 16] = [0u8; 16];
        bytes[15] = last;
        assert(high_bytes_zero(bytes@));
        Address { bytes }
    }

    pub fn zero() -> (r: Address)
        ensures
            spec_is_zero(r.bytes@),
    {
        Address { bytes: [0u8; 16] }
    }
}

pub fn is_system_reserved_address(addr: Address) -> (r: bool)
    ensures
        r == spec_is_system_reserved(addr.bytes@),
{
    let bytes = addr.into_bytes();
    let mut i: usize = 0;
    while i < ADDRESS_LENGTH - 1
        invariant
            i <= 15,
            bytes@ == addr.bytes@,
            forall|j: int| 0 <= j < i ==> bytes@[j] == 0,
        decreases 15 - i,
    {
        if bytes[i] != 0u8 {
            return false;
        }
        i = i + 1;
    }
    let last = bytes[ADDRESS_LENGTH - 1];
    last > 0u8 && last <= 10u8
}

pub fn is_vm_or_system_reserved_address(addr: Address) -> (r: bool)
    ensures
        r == (spec_is_zero(addr.bytes@) || spec_is_system_reserved(addr.bytes@)),
{
    let system = is_system_reserved_address(addr);
    if system {
        return true;
    }
    // not reserved: zero exactly when the last byte is zero too
    if !high_bytes_zero_exec(&addr) {
        return false;
    }
    addr.bytes[15] == 0u8
}

fn high_bytes_zero_exec(addr: &Address) -> (r: bool)
    ensures
        r == high_bytes_zero(addr.bytes@),
{
    let mut i: usize = 0;
    while i < ADDRESS_LENGTH - 1
        invariant
            i <= 15,
            forall|j: int| 0 <= j < i ==> addr.bytes@[j] == 0,
        decreases 15 - i,
    {
        if addr.bytes[i] != 0u8 {
            return false;
        }
        i = i + 1;
    }
    true
}

} // verus!
