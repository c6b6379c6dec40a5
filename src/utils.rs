use vstd::prelude::*;

verus! {

/// True when the byte has its sign bit (bit 7) set.
pub open spec fn spec_is_negative(arg: u8) -> bool {
    arg >= 0x80
}

/// The signed value of a byte read as two's complement.
pub open spec fn signed_of(arg: u8) -> int {
    if arg >= 0x80 {
        arg - 256
    } else {
        arg as int
    }
}

/// `base + displacement`, wrapped into the 16-bit address space.
pub open spec fn spec_add_relative(base_addr: u16, displacement: i8) -> u16 {
    ((base_addr + displacement + 0x10000) % 0x10000) as u16
}

/// The page (high byte) of an address.
pub open spec fn spec_page(addr: int) -> int {
    (addr % 0x10000) / 0x100
}

/// Direction in which the page changes between two addresses.
#[derive(Clone, Copy, Debug, PartialEq, Eq, Structural)]
pub enum PageCross {
    Same,
    Backwards,
    Forwards,
}

pub open spec fn spec_page_cross(addr1: int, addr2: int) -> PageCross {
    if spec_page(addr1) > spec_page(addr2) {
        PageCross::Backwards
    } else if spec_page(addr1) < spec_page(addr2) {
        PageCross::Forwards
    } else {
        PageCross::Same
    }
}

proof fn lemma_sign_bit(arg: u8)
    ensures
        (arg & 0x80 == 0x80) == (arg >= 0x80),
{
    assert((arg & 0x80 == 0x80) == (arg >= 0x80)) by (bit_vector);
}

/// Checks if an unsigned byte would be negative if it was read as signed.
pub fn is_negative(arg: u8) -> (r: bool)
    ensures
        r == spec_is_negative(arg),
        r == (arg & 0x80 == 0x80),
{
    proof {
        lemma_sign_bit(arg);
    }
    arg & 0x80 == 0x80
}

/// Adds a signed displacement to an address, wrapping within 16 bits, so that
/// relative branches can go forwards or backwards.
pub fn add_relative(base_addr: u16, displacement: i8) -> (r: u16)
    ensures
        r == spec_add_relative(base_addr, displacement),
{
    if displacement < 0 {
        let back: u16 = (0 - (displacement as i16)) as u16;
        base_addr.wrapping_sub(back)
    } else {
        base_addr.wrapping_add(displacement as u16)
    }
}

/// The page index of an address: each 6502 page is 256 bytes long.
pub fn page(addr: usize) -> (r: u8)
    ensures
        r == spec_page(addr as int),
{
    ((addr % 0x10000) / 0x100) as u8
}

/// Whether two addresses lie on different pages, and in which direction the
/// second lies from the first.
pub fn page_cross(addr1: usize, addr2: usize) -> (r: PageCross)
    ensures
        r == spec_page_cross(addr1 as int, addr2 as int),
{
    let page1 = page(addr1);
    let page2 = page(addr2);
    if page1 > page2 {
        PageCross::Backwards
    } else if page1 < page2 {
        PageCross::Forwards
    } else {
        PageCross::Same
    }
}

} // verus!
