//! RGB colors and the direct, bit-packed palette.
use vstd::prelude::*;

verus! {

/// Number of distinct 24-bit packed colors.
pub const PACKED_SPAN: u64 = 0x100_0000;

/// Largest packed 24-bit color.
pub const PACKED_MAX: u64 = 0xFF_FFFF;

/// A color with one byte per channel.
#[derive(Clone, Copy, Debug, PartialEq, Eq, Structural)]
pub struct Color {
    pub red: u8,
    pub green: u8,
    pub blue: u8,
}

/// Pure black.
pub open spec fn black() -> Color {
    Color { red: 0, green: 0, blue: 0 }
}

/// The color whose channels are the three low bytes of `v`, red highest.
pub open spec fn unpack(v: nat) -> Color {
    Color {
        red: ((v / 0x1_0000) % 0x100) as u8,
        green: ((v / 0x100) % 0x100) as u8,
        blue: (v % 0x100) as u8,
    }
}

/// `floor(2^24 * iterations / m)`: the iteration count scaled onto
/// the range of packed colors.
pub open spec fn direct_scaled(iterations: nat, max_iterations: nat) -> nat
    recommends
        max_iterations > 0,
{
    (PACKED_SPAN * iterations / (max_iterations as int)) as nat
}

/// The direct palette: the scaled count read as packed red, green and blue
/// bytes, and black once it no longer fits in 24 bits.
pub open spec fn direct_color_spec(iterations: nat, max_iterations: nat) -> Color
    recommends
        max_iterations > 0,
{
    let s = direct_scaled(iterations, max_iterations);
    if s > PACKED_MAX {
        black()
    } else {
        unpack(s)
    }
}

impl Color {
    /// The color with the given channels.
    pub fn new(red: u8, green: u8, blue: u8) -> (r: Color)
        ensures
            r == (Color { red, green, blue }),
    {
        Color { red, green, blue }
    }

    /// Pure black.
    pub fn black() -> (r: Color)
        ensures
            r == black(),
    {
        Color { red: 0, green: 0, blue: 0 }
    }
}

/// Color of `iterations` under the direct palette for a budget of
/// `max_iterations`.
pub fn direct_color(iterations: u32, max_iterations: u32) -> (r: Color)
    requires
        max_iterations > 0,
    ensures
        r == direct_color_spec(iterations as nat, max_iterations as nat),
        direct_scaled(iterations as nat, max_iterations as nat) > PACKED_MAX ==> r == black(),
{
    let it = iterations as u64;
    assert(PACKED_SPAN * it <= PACKED_SPAN * 0xFFFF_FFFF) by (nonlinear_arith)
        requires
            it <= 0xFFFF_FFFF,
    ;
    let scaled: u64 = PACKED_SPAN * it / (max_iterations as u64);
    if scaled > PACKED_MAX {
        Color::black()
    } else {
        let red = ((scaled >> 16u64) & 0xFFu64) as u8;
        let green = ((scaled >> 8u64) & 0xFFu64) as u8;
        let blue = (scaled & 0xFFu64) as u8;
        assert((scaled >> 16u64) & 0xFFu64 == (scaled / 0x1_0000) % 0x100) by (bit_vector);
        assert((scaled >> 8u64) & 0xFFu64 == (scaled / 0x100) % 0x100) by (bit_vector);
        assert(scaled & 0xFFu64 == scaled % 0x100) by (bit_vector);
        Color { red, green, blue }
    }
}

/// Under the direct palette a count reaches past the 24-bit range exactly
/// when it has used up the whole budget, and such counts are black.
pub proof fn lemma_direct_black_past_range(iterations: nat, max_iterations: nat)
    requires
        max_iterations > 0,
    ensures
        direct_scaled(iterations, max_iterations) > PACKED_MAX <==> iterations >= max_iterations,
        direct_scaled(iterations, max_iterations) > PACKED_MAX ==> direct_color_spec(
            iterations,
            max_iterations,
        ) == black(),
{
    let s: int = PACKED_SPAN * iterations;
    let m: int = max_iterations as int;
    if iterations >= max_iterations {
        assert(s >= PACKED_SPAN * m) by (nonlinear_arith)
            requires
                iterations >= m,
                s == PACKED_SPAN * iterations,
        ;
        assert(s / m >= PACKED_SPAN) by (nonlinear_arith)
            requires
                s >= PACKED_SPAN * m,
                m > 0,
        ;
    } else {
        assert(s / m < PACKED_SPAN) by (nonlinear_arith)
            requires
                iterations < m,
                s == PACKED_SPAN * iterations,
                m > 0,
        ;
    }
}

} // verus!
