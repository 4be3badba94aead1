use vstd::prelude::*;

verus! {

/// The packed 32-bit ARGB value for the four channels: alpha in the top byte,
/// then red, green and blue.
pub open spec fn pack_argb(a: u8, r: u8, g: u8, b: u8) -> u32 {
    ((a as u32) << 24u32) | ((r as u32) << 16u32) | ((g as u32) << 8u32) | (b as u32)
}

/// The byte at bit offset `shift` of a packed color.
pub open spec fn channel(c: u32, shift: u32) -> u8 {
    ((c >> shift) & 0xffu32) as u8
}

/// An ARGB color, held as the backend's packed 32-bit scalar.
#[derive(Clone, Copy, PartialEq, Eq, Structural, Debug)]
pub struct Color {
    pub argb: u32,
}

proof fn lemma_pack_channels(a: u8, r: u8, g: u8, b: u8)
    ensures
        channel(pack_argb(a, r, g, b), 24) == a,
        channel(pack_argb(a, r, g, b), 16) == r,
        channel(pack_argb(a, r, g, b), 8) == g,
        channel(pack_argb(a, r, g, b), 0) == b,
{
    let (a32, r32, g32, b32) = (a as u32, r as u32, g as u32, b as u32);
    assert((((a32 << 24u32) | (r32 << 16u32) | (g32 << 8u32) | b32) >> 24u32) & 0xffu32 == a32)
        by (bit_vector)
        requires a32 <= 0xff, r32 <= 0xff, g32 <= 0xff, b32 <= 0xff;
    assert((((a32 << 24u32) | (r32 << 16u32) | (g32 << 8u32) | b32) >> 16u32) & 0xffu32 == r32)
        by (bit_vector)
        requires a32 <= 0xff, r32 <= 0xff, g32 <= 0xff, b32 <= 0xff;
    assert((((a32 << 24u32) | (r32 << 16u32) | (g32 << 8u32) | b32) >> 8u32) & 0xffu32 == g32)
        by (bit_vector)
        requires a32 <= 0xff, r32 <= 0xff, g32 <= 0xff, b32 <= 0xff;
    assert((((a32 << 24u32) | (r32 << 16u32) | (g32 << 8u32) | b32) >> 0u32) & 0xffu32 == b32)
        by (bit_vector)
        requires a32 <= 0xff, r32 <= 0xff, g32 <= 0xff, b32 <= 0xff;
}

proof fn lemma_channels_pack(c: u32)
    ensures
        pack_argb(channel(c, 24), channel(c, 16), channel(c, 8), channel(c, 0)) == c,
{
    let a32 = (c >> 24u32) & 0xffu32;
    let r32 = (c >> 16u32) & 0xffu32;
    let g32 = (c >> 8u32) & 0xffu32;
    let b32 = (c >> 0u32) & 0xffu32;
    assert(a32 <= 0xff) by (bit_vector) requires a32 == (c >> 24u32) & 0xffu32;
    assert(r32 <= 0xff) by (bit_vector) requires r32 == (c >> 16u32) & 0xffu32;
    assert(g32 <= 0xff) by (bit_vector) requires g32 == (c >> 8u32) & 0xffu32;
    assert(b32 <= 0xff) by (bit_vector) requires b32 == (c >> 0u32) & 0xffu32;
    assert(channel(c, 24) as u32 == a32);
    assert(channel(c, 16) as u32 == r32);
    assert(channel(c, 8) as u32 == g32);
    assert(channel(c, 0) as u32 == b32);
    assert(((a32 << 24u32) | (r32 << 16u32) | (g32 << 8u32) | b32) == c) by (bit_vector)
        requires
            a32 == (c >> 24u32) & 0xffu32,
            r32 == (c >> 16u32) & 0xffu32,
            g32 == (c >> 8u32) & 0xffu32,
            b32 == (c >> 0u32) & 0xffu32;
}

impl Color {
    /// The color with the given alpha, red, green and blue channels.
    pub fn new(a: u8, r: u8, g: u8, b: u8) -> (c: Color)
        ensures
            c.argb == pack_argb(a, r, g, b),
            c.a() == a,
            c.r() == r,
            c.g() == g,
            c.b() == b,
    {
        proof { lemma_pack_channels(a, r, g, b); }
        Color { argb: ((a as u32) << 24u32) | ((r as u32) << 16u32) | ((g as u32) << 8u32) | (b as u32) }
    }

    /// The color whose packed backend value is `argb`.
    pub fn from_native(argb: u32) -> (c: Color)
        ensures
            c.argb == argb,
    {
        Color { argb }
    }

    /// The packed backend value of this color.
    pub fn to_native(&self) -> (v: u32)
        ensures
            v == self.argb,
    {
        self.argb
    }

    pub open spec fn spec_a(&self) -> u8 {
        channel(self.argb, 24)
    }

    pub open spec fn spec_r(&self) -> u8 {
        channel(self.argb, 16)
    }

    pub open spec fn spec_g(&self) -> u8 {
        channel(self.argb, 8)
    }

    pub open spec fn spec_b(&self) -> u8 {
        channel(self.argb, 0)
    }

    /// The alpha channel.
    #[verifier::when_used_as_spec(spec_a)]
    pub fn a(&self) -> (v: u8)
        ensures
            v == self.spec_a(),
    {
        ((self.argb >> 24u32) & 0xffu32) as u8
    }

    /// The red channel.
    #[verifier::when_used_as_spec(spec_r)]
    pub fn r(&self) -> (v: u8)
        ensures
            v == self.spec_r(),
    {
        ((self.argb >> 16u32) & 0xffu32) as u8
    }

    /// The green channel.
    #[verifier::when_used_as_spec(spec_g)]
    pub fn g(&self) -> (v: u8)
        ensures
            v == self.spec_g(),
    {
        ((self.argb >> 8u32) & 0xffu32) as u8
    }

    /// The blue channel.
    #[verifier::when_used_as_spec(spec_b)]
    pub fn b(&self) -> (v: u8)
        ensures
            v == self.spec_b(),
    {
        let c = self.argb;
        assert((c >> 0u32) & 0xffu32 == c & 0xffu32) by (bit_vector);
        (c & 0xffu32) as u8
    }

    /// This color with its alpha channel replaced by `v`.
    pub fn set_a(self, v: u8) -> (c: Color)
        ensures
            c == Color::new_spec(v, self.r(), self.g(), self.b()),
            c.a() == v,
            c.r() == self.r(),
            c.g() == self.g(),
            c.b() == self.b(),
    {
        Color::new(v, self.r(), self.g(), self.b())
    }

    /// This color with its red channel replaced by `v`.
    pub fn set_r(self, v: u8) -> (c: Color)
        ensures
            c == Color::new_spec(self.a(), v, self.g(), self.b()),
            c.a() == self.a(),
            c.r() == v,
            c.g() == self.g(),
            c.b() == self.b(),
    {
        Color::new(self.a(), v, self.g(), self.b())
    }

    /// This color with its green channel replaced by `v`.
    pub fn set_g(self, v: u8) -> (c: Color)
        ensures
            c == Color::new_spec(self.a(), self.r(), v, self.b()),
            c.a() == self.a(),
            c.r() == self.r(),
            c.g() == v,
            c.b() == self.b(),
    {
        Color::new(self.a(), self.r(), v, self.b())
    }

    /// This color with its blue channel replaced by `v`.
    pub fn set_b(self, v: u8) -> (c: Color)
        ensures
            c == Color::new_spec(self.a(), self.r(), self.g(), v),
            c.a() == self.a(),
            c.r() == self.r(),
            c.g() == self.g(),
            c.b() == v,
    {
        Color::new(self.a(), self.r(), self.g(), v)
    }

    pub open spec fn new_spec(a: u8, r: u8, g: u8, b: u8) -> Color {
        Color { argb: pack_argb(a, r, g, b) }
    }
}

/// Building a color from four channels and reading them back gives the same
/// four channels.
pub proof fn lemma_color_round_trip(a: u8, r: u8, g: u8, b: u8)
    ensures
        Color::new_spec(a, r, g, b).a() == a,
        Color::new_spec(a, r, g, b).r() == r,
        Color::new_spec(a, r, g, b).g() == g,
        Color::new_spec(a, r, g, b).b() == b,
{
    lemma_pack_channels(a, r, g, b);
}

/// A color is determined by its four channels: rebuilding it from them gives
/// it back.
pub proof fn lemma_color_from_channels(c: Color)
    ensures
        Color::new_spec(c.a(), c.r(), c.g(), c.b()) == c,
{
    lemma_channels_pack(c.argb);
}

} // verus!
