//! Facts about bit operations on machine integers, proved once by the
//! bit-vector solver and used throughout the chip cores and parsers.
use vstd::prelude::*;

verus! {

/// Masks and shifts of a byte, as arithmetic.
pub proof fn lemma_u8_bits(x: u8)
    by (bit_vector)
    ensures
        x & 0x0f == x % 16,
        x & 7 == x % 8,
        x & 1 == x % 2,
        x & 3 == x % 4,
        x & 0x7f == x % 128,
        x & 0x70 <= 0x70,
        (x & 0x70) / 16 < 8,
        x >> 4u8 == x / 16,
        x >> 7u8 == x / 128,
        (x & 0xf0) >> 4u8 == x / 16,
        (x as i32 & 0x70) >> 4i32 == ((x & 0x70) / 16) as i32,
        (x as i32 & 0x0f) == (x % 16) as i32,
        (x as i32 & 0x3f) << 4i32 == ((x % 64) * 16) as i32,
        x as i32 & 0x3f == (x % 64) as i32,
        (x as u32) & 0x0f == (x % 16) as u32,
        x & 0x04 == 0 || x & 0x04 == 4,
        x & 2 == 0 || x & 2 == 2,
        x & 0x80 == 0 <==> x < 128,
        x & !(2u8 | 4u8) == x & !6u8,
        (x == 0 || x == 4) ==> (x ^ 4 == 0 || x ^ 4 == 4),
        x >> 0u32 == x,
        x >> 4u32 == x >> 4u8,
        ((x & 0x70u8) as usize) << 12usize == (x & 0x70u8) as usize * 0x1000,
{
}

/// A byte widened and shifted into a higher position, as arithmetic.
pub proof fn lemma_u8_shifts(hi: u8, lo: u8)
    by (bit_vector)
    ensures
        (hi as u16) << 8u16 == hi as u16 * 0x100,
        ((hi as u16) << 8u16) | lo as u16 == hi as u16 * 0x100 + lo as u16,
        ((hi as u16 & 0x0f) << 8u16) | lo as u16 == (hi % 16) as u16 * 0x100 + lo as u16,
        (hi as u32) << 8u32 == hi as u32 * 0x100,
        (hi as u32) << 16u32 == hi as u32 * 0x10000,
        (hi as u32) << 24u32 == hi as u32 * 0x1000000,
        ((hi as u32) << 16u32) | ((lo as u32) << 8u32) == hi as u32 * 0x10000 + lo as u32 * 0x100,
        (hi as u32) | 0x100u32 == hi as u32 + 0x100,
        ((hi as usize) << 16usize) == hi as usize * 0x10000,
        (((lo as u16) & 0xff) | (((hi as u16) & 0x07) << 8u16)) >> 7u16 < 16,
{
}

/// Three bytes combined into a 24-bit value.
pub proof fn lemma_u8_triple(hi: u8, mid: u8, lo: u8)
    by (bit_vector)
    ensures
        ((hi as u32) << 16u32) | ((mid as u32) << 8u32) | (lo as u32)
            == hi as u32 * 0x10000 + mid as u32 * 0x100 + lo as u32,
{
}

/// Masks and shifts of a 16-bit value, as arithmetic.
pub proof fn lemma_u16_bits(x: u16)
    by (bit_vector)
    ensures
        x & 0xffff == x,
        (x & 0xf00) >> 8u16 == (x & 0xf00) / 256,
        (x & 0xf00) / 256 <= 15,
        (x & 0xc) >> 2u16 == (x & 0xc) / 4,
        (x & 0xc) / 4 <= 3,
        x & 3 <= 3,
        (x >> 8u16) & 0xff < 256,
        x & 1 <= 1,
        x & 7 <= 7,
        x & 0xff <= 0xff,
        (x & 0xff) ^ 0xff <= 0xff,
        x <= 0x1fff ==> x >> 8u16 <= 0x1f,
        x <= 0x1ff && x & 0x100 == 0 ==> x >> 7u16 <= 1,
{
}

/// Masks and shifts of a 32-bit value, as arithmetic.
pub proof fn lemma_u32_bits(x: u32)
    by (bit_vector)
    ensures
        x >> 16u32 == x / 0x10000,
        x >> 8u32 == x / 0x100,
        x >> 4u32 == x / 16,
        x >> 0u32 == x,
        x & 0xffffff == x % 0x1000000,
        x & 0xff == x % 0x100,
        x & 0x7f == x % 0x80,
        x & 1 == x % 2,
        (x >> 8u32) as u8 == ((x / 0x100) % 0x100) as u8,
        ((x & 1) << 2u32) ^ 4u32 == if x % 2 == 0 { 4u32 } else { 0u32 },
{
}

/// The low bytes of a 32-bit value.
pub proof fn lemma_u32_bytes(x: u32)
    by (bit_vector)
    ensures
        x as u8 == (x % 0x100) as u8,
        x < 0x1000000 ==> (x >> 16u32) as u8 == (x / 0x10000) as u8,
        ((x & 0xff) as u8) as u32 == x & 0xff,
        ((((x & 0xff) as u8) & 0x7f) as u32) == x & 0x7f,
        x & 3 < 4,
        (x as usize) & 0x7ff == (x & 0x7ff) as usize,
        x & 0xfff <= 0xfff,
{
}

/// Masks of a signed value in range, as arithmetic.
pub proof fn lemma_i32_masks(x: i32)
    by (bit_vector)
    ensures
        0 <= x <= 0x3ff ==> x & 0x0f == x % 16,
        0 <= x < 0x40000 ==> x & 0xffff == x % 0x10000,
        0 <= x <= 0xff ==> x << 16i32 == x * 0x10000,
{
}

/// Masks and shifts of a machine-word value, as arithmetic.
pub proof fn lemma_usize_bits(x: usize)
    by (bit_vector)
    ensures
        (x >> 8usize) & 3usize < 4,
        (x >> 16usize) & 3usize < 4,
        x & 0x3ffff <= 0x3ffff,
        x & 0x1ff == x % 0x200,
        x & 0x7ff == x % 0x800,
        x >> 4usize == x / 16,
        x & 0xff == x % 256,
        x < 0x200 ==> x & 0x1f0 == (x / 16) * 16,
        x & 3 == x % 4,
        x >> 2usize == x / 4,
        x & 0x0f == x % 16,
{
}

/// Arithmetic shifts of signed values stay in range.
pub proof fn lemma_i32_shifts(x: i32)
    by (bit_vector)
    ensures
        -32768 <= x <= 32767 ==> -2048 <= (x >> 4u32) <= 2047,
        -4095 * 0xffff <= x <= 4095 * 0xffff ==> -4096 <= (x >> 16u32) <= 4095,
        -6144 * 340 <= x <= 6143 * 340 ==> -4096 <= (x >> 9u32) <= 4096,
        0 <= x <= 0x400 ==> x << 1i32 == (x * 2) as i32,
        0 <= x < 8 ==> x >> 1i32 == x / 2,
        0 <= x ==> 0 <= x & 3 <= 3,
        0 <= x <= 1 ==> 0 <= x ^ 1 <= 1,
        0 <= x <= 0x3ff ==> 0 <= x & 0x3f0 <= 0x3f0 && 0 <= x & 0x0f <= 0x0f,
        0 <= x <= 0x3ff ==> (x & 0x3f0) | (x & 0x0f) <= 0x3ff,
        0 <= x <= 0x3ff ==> x & 0x3f0 == (x / 16) * 16,
        0 <= x < 0x40000 ==> (x >> 16i32) & 0x7fff == x / 0x10000,
{
}

/// Register fields combined by masks stay in ten bits.
pub proof fn lemma_i32_pair(x: i32, y: i32)
    by (bit_vector)
    ensures
        0 <= x <= 0x3ff && 0 <= y <= 0xff ==> 0 <= (x & 0x3f0) | (y & 0x0f) <= 0x3ff,
        0 <= x <= 0x3ff && 0 <= y <= 0xff ==> 0 <= (x & 0x0f) | ((y & 0x3f) << 4i32) <= 0x3ff,
{
}

/// Small bit fields of a byte: nibble folding, two-bit fields and short
/// shifts.
pub proof fn lemma_u8_small(x: u8)
    by (bit_vector)
    ensures
        (x & 0x0f) & 0x08 != 0 ==> ((x & 0x0f) ^ 0x0f) < 8,
        (x & 0x0f) & 0x08 == 0 ==> (x & 0x0f) < 8,
        x >> 2u8 == x / 4,
        x >> 1u8 == x / 2,
        x <= 3 ==> ((if x == 3 { 1u8 } else { 0u8 }) | (x & 2)) <= 3,
        x <= 1 ==> ((x << 2u8) | (x & 0)) == x * 4,
{
}

/// Two bit fields packed into one small index.
pub proof fn lemma_u8_pack(hi: u8, lo: u8)
    by (bit_vector)
    ensures
        hi <= 1 && lo <= 3 ==> ((hi << 2u8) | lo) == hi * 4 + lo,
{
}

/// A chip port number and a data byte combined into a 9-bit bus value
/// (bit 1 of the port becomes bit 8).
pub proof fn lemma_port_bits(port: u32, data: u8)
    by (bit_vector)
    ensures
        ((((port & 3) << 7u32) & 0x100) | data as u32) == (if port & 2 != 0 { 0x100u32 } else { 0u32 }) + data as u32,
        (port & 3) & 1 == port & 1,
        (port & 3) == 0 <==> (port & 1 == 0 && port & 2 == 0),
{
}

/// Powers of two by shifting.
pub proof fn lemma_i32_pow2(n: u8)
    by (bit_vector)
    ensures
        n == 5 ==> 1i32 << n == 32,
        n == 6 ==> 1i32 << n == 64,
        n == 7 ==> 1i32 << n == 128,
        1i32 << 0u8 == 1i32,
        1 <= n <= 30 ==> 1i32 << n == 2 * (1i32 << (n - 1) as u8),
{
}

/// The low ten bits of a 16-bit signed value, as an unsigned value.
pub proof fn lemma_i16_low10(x: i16)
    by (bit_vector)
    ensures
        ((x & 0x3ff) as u16) <= 0x3ff,
{
}

/// The control fields of a 16-bit register value, as arithmetic.
pub proof fn lemma_u16_fields(x: u16)
    by (bit_vector)
    ensures
        x & 0xf == x % 16,
        (x & 0xf00) / 256 == (x / 256) % 16,
{
}

/// Bit `k + i` of a byte is bit `i` of the byte shifted right by `k`.
pub proof fn lemma_u8_select_bits(x: u8)
    by (bit_vector)
    ensures
        ((x >> 3u8) >> 0u8) & 1 != 0 <==> x & 0x08 != 0,
        ((x >> 3u8) >> 1u8) & 1 != 0 <==> x & 0x10 != 0,
        ((x >> 3u8) >> 2u8) & 1 != 0 <==> x & 0x20 != 0,
        ((x >> 3u8) >> 3u8) & 1 != 0 <==> x & 0x40 != 0,
        ((x >> 4u8) >> 0u8) & 1 != 0 <==> x & 0x10 != 0,
        ((x >> 4u8) >> 1u8) & 1 != 0 <==> x & 0x20 != 0,
        ((x >> 4u8) >> 2u8) & 1 != 0 <==> x & 0x40 != 0,
        ((x >> 4u8) >> 3u8) & 1 != 0 <==> x & 0x80 != 0,
{
}

/// Setting a clear low bit of a status byte adds it.
pub proof fn lemma_u8_set_low_bit(x: u8)
    by (bit_vector)
    ensures
        0xf0 <= x < 0xf1 ==> x | (1u8 << 0u8) == x + 1,
        0xf0 <= x < 0xf2 ==> x | (1u8 << 1u8) == x + 2,
        0xf0 <= x < 0xf4 ==> x | (1u8 << 2u8) == x + 4,
        0xf0 <= x < 0xf8 ==> x | (1u8 << 3u8) == x + 8,
{
}

/// An 18-bit address from three bytes, as arithmetic.
pub proof fn lemma_address18(b0: u8, b1: u8, b2: u8)
    by (bit_vector)
    ensures
        (((b0 as usize) << 16usize) | ((b1 as usize) << 8usize) | (b2 as usize)) & 0x3ffffusize
            == (b0 % 4) as usize * 0x10000usize + (b1 as usize) * 0x100usize + b2 as usize,
{
}

/// The halves of a ten-bit register rewritten from a byte, as arithmetic.
pub proof fn lemma_i32_register_halves(x: i32, y: i32)
    by (bit_vector)
    ensures
        0 <= x <= 0x3ff && 0 <= y <= 0xff ==> (x & 0x3f0) | (y & 0x0f) == (x & 0x3f0) + (y & 0x0f),
        0 <= x <= 0x3ff && 0 <= y <= 0xff ==> (x & 0x0f) | (((y & 0x3f) * 16) as i32) == (x & 0x0f) + (((y & 0x3f) * 16) as i32),
{
}

/// The low six bits of a byte-sized value, as arithmetic.
pub proof fn lemma_i32_low6(y: i32)
    by (bit_vector)
    ensures
        0 <= y <= 0xff ==> y & 0x3f == y % 64,
{
}

/// The latch bit, register field and low nibble of a byte, as arithmetic.
pub proof fn lemma_u8_latch_bits(d: u8)
    by (bit_vector)
    ensures
        ((d & 0x0f) as i32) == (d as i32) & 0x0f,
        d & 0x80 != 0 <==> d >= 0x80,
        (d & 0x70) / 16 == (d / 16) % 8,
        d & 0x0f == d % 16,
{
}

/// The low three flag bits of a byte, as arithmetic.
pub proof fn lemma_u8_flag_bits(x: u8)
    by (bit_vector)
    ensures
        x & 1 == 0 <==> x % 2 == 0,
        x & 2 != 0 <==> (x / 2) % 2 == 1,
        x & 4 != 0 <==> (x / 4) % 2 == 1,
{
}

/// The channel flag and volume fields of a byte, as arithmetic.
pub proof fn lemma_u8_pcm_fields(x: u8)
    by (bit_vector)
    ensures
        x & 0x70 == ((x / 16) % 8) * 16,
        x & 0x7f == x % 128,
        x & 1 == 0 ==> x | 1 == x + 1,
        x & 1 == 0 <==> x % 2 == 0,
        x & 2 != 0 <==> (x / 2) % 2 == 1,
{
}

/// Setting and clearing the play (bit 1) and record (bit 2) bits of a
/// status byte, and the nibbles of a data byte, as arithmetic.
pub proof fn lemma_u8_status_ops(x: u8)
    by (bit_vector)
    ensures
        x & 1 != 0 <==> x % 2 == 1,
        x & 2 != 0 <==> (x / 2) % 2 == 1,
        x & 4 != 0 <==> (x / 4) % 2 == 1,
        (x & !6u8) % 2 == x % 2 && ((x & !6u8) / 2) % 2 == 0 && ((x & !6u8) / 4) % 2 == 0 && (x & !6u8) / 8 == x / 8,
        (x | 2) % 2 == x % 2 && ((x | 2) / 2) % 2 == 1 && ((x | 2) / 4) % 2 == (x / 4) % 2 && (x | 2) / 8 == x / 8,
        (x & !2u8) % 2 == x % 2 && ((x & !2u8) / 2) % 2 == 0 && ((x & !2u8) / 4) % 2 == (x / 4) % 2
            && (x & !2u8) / 8 == x / 8,
        (x | 4) % 2 == x % 2 && ((x | 4) / 2) % 2 == (x / 2) % 2 && ((x | 4) / 4) % 2 == 1 && (x | 4) / 8 == x / 8,
        (x & !4u8) % 2 == x % 2 && ((x & !4u8) / 2) % 2 == (x / 2) % 2 && ((x & !4u8) / 4) % 2 == 0
            && (x & !4u8) / 8 == x / 8,
        (x >> 0u8) & 0xf == x % 16,
        (x >> 4u8) & 0xf == x / 16,
        0u8 ^ 4u8 == 4u8,
        4u8 ^ 4u8 == 0u8,
{
}

/// The dual-chip flag (bit 30) and the clock (bits 0-29) of a VGM header
/// clock, as arithmetic.
pub proof fn lemma_u32_clock_fields(x: u32)
    by (bit_vector)
    ensures
        x & 0x40000000 != 0 <==> (x / 0x40000000) % 2 == 1,
        x & 0x3fffffff == x % 0x40000000,
{
}

/// The low two bits of a bus port, as arithmetic.
pub proof fn lemma_u32_port_fields(port: u32)
    by (bit_vector)
    ensures
        port & 2 != 0 <==> (port / 2) % 2 == 1,
        port & 1 != 0 <==> port % 2 == 1,
        port & 3 == 0 <==> port % 4 == 0,
{
}

/// Setting bit 0 of a byte, and a status byte built from three flags.
pub proof fn lemma_u8_flag_byte(x: u8, b: u8, y: u8, z: u8)
    by (bit_vector)
    ensures
        (x | 1) % 2 == 1,
        (x | 1) / 2 == x / 2,
        b <= 1 && y <= 1 && z <= 1 ==> (b << 7u8) | (y << 1u8) | z == b * 128 + y * 2 + z,
{
}

/// The two FIFO routing fields of the PWM control register, as arithmetic.
pub proof fn lemma_u16_route_fields(x: u16)
    by (bit_vector)
    ensures
        x & 3 == x % 4,
        (x & 0xc) / 4 == (x / 4) % 4,
{
}

} // verus!
