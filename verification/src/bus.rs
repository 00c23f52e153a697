//! Framing of the SPI transactions with the RPU's bus interface.
use vstd::prelude::*;

verus! {

/// Opcode of a fast read.
pub const SPI_READ: u8 = 0x0B;

/// Opcode of a page write.
pub const SPI_WRITE: u8 = 0x02;

/// Opcodes that read status registers 0, 1 and 2, and that write status
/// register 2.
pub const SPI_READ_SR0: u8 = 0x05;

pub const SPI_READ_SR1: u8 = 0x1f;

pub const SPI_READ_SR2: u8 = 0x2f;

pub const SPI_WRITE_SR2: u8 = 0x3f;

/// The header of a read at bus address `addr`: the opcode, the address on
/// three bytes, most significant first, and a dummy byte.
pub fn spi_read_header(addr: u32) -> (h: [u8; 5])
    ensures
        h@ == seq![SPI_READ, (addr >> 16u32) as u8, (addr >> 8u32) as u8, addr as u8, 0u8],
{
    let h = [SPI_READ, (addr >> 16u32) as u8, (addr >> 8u32) as u8, addr as u8, 0x00];
    assert(h@ =~= seq![SPI_READ, (addr >> 16u32) as u8, (addr >> 8u32) as u8, addr as u8, 0u8]);
    h
}

/// The header of a write at bus address `addr`: the opcode and the address
/// on three bytes, most significant first, with the top bit of the first
/// address byte set.
pub fn spi_write_header(addr: u32) -> (h: [u8; 4])
    ensures
        h@ == seq![SPI_WRITE, ((addr >> 16u32) as u8) | 0x80u8, (addr >> 8u32) as u8, addr as u8],
{
    let h = [SPI_WRITE, ((addr >> 16u32) as u8) | 0x80, (addr >> 8u32) as u8, addr as u8];
    assert(h@ =~= seq![
        SPI_WRITE,
        ((addr >> 16u32) as u8) | 0x80u8,
        (addr >> 8u32) as u8,
        addr as u8,
    ]);
    h
}

/// The frame that writes `val` to status register 2.
pub fn spi_write_sr2_frame(val: u8) -> (f: [u8; 2])
    ensures
        f@ == seq![SPI_WRITE_SR2, val],
{
    let f = [SPI_WRITE_SR2, val];
    assert(f@ =~= seq![SPI_WRITE_SR2, val]);
    f
}

/// The value of a status register in the two bytes clocked in while its
/// one-byte read command goes out: the second byte.
pub fn spi_status_value(received: [u8; 2]) -> (v: u8)
    ensures
        v == received@[1],
{
    received[1]
}

/// The bus address can be recovered from a read header: the header carries
/// the low 24 bits of the address.
pub proof fn lemma_read_header_address(addr: u32)
    ensures
        (((addr >> 16u32) as u8) as u32) << 16u32 | (((addr >> 8u32) as u8) as u32) << 8u32 | ((
        addr as u8) as u32) == addr & 0x00FF_FFFF,
{
    assert((((addr >> 16u32) as u8) as u32) << 16u32 | (((addr >> 8u32) as u8) as u32) << 8u32
        | ((addr as u8) as u32) == addr & 0x00FF_FFFF) by (bit_vector);
}

} // verus!
