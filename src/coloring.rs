//! The two palette strategies: direct bit packing, and a lookup table sampled
//! from a gradient.
use vstd::prelude::*;

use crate::color::{black, direct_color, direct_color_spec, lemma_direct_black_past_range, Color};
use crate::error::RenderError;

verus! {

/// How iteration counts become colors, for a fixed iteration budget.
#[derive(Debug)]
pub enum Palette {
    /// Colors come from the bits of the scaled count.
    Direct { max_iterations: u32 },
    /// Colors come from a table with one entry per count in `0..=max_iterations`.
    Gradient { max_iterations: u32, table: Vec<Color> },
}

impl Palette {
    /// The iteration budget the palette was built for.
    pub open spec fn budget(&self) -> nat {
        match self {
            Palette::Direct { max_iterations } => *max_iterations as nat,
            Palette::Gradient { max_iterations, .. } => *max_iterations as nat,
        }
    }

    /// A positive budget, and for a gradient one table entry per count, the
    /// last of them black.
    pub open spec fn wf(&self) -> bool {
        match self {
            Palette::Direct { max_iterations } => *max_iterations > 0,
            Palette::Gradient { max_iterations, table } => {
                &&& *max_iterations > 0
                &&& table@.len() == *max_iterations as nat + 1
                &&& table@[*max_iterations as int] == black()
            },
        }
    }

    /// The color of `iterations`; counts at or past the budget are black
    /// under a gradient.
    pub open spec fn color_of(&self, iterations: nat) -> Color {
        match self {
            Palette::Direct { max_iterations } => direct_color_spec(
                iterations,
                *max_iterations as nat,
            ),
            Palette::Gradient { max_iterations, table } => if iterations >= *max_iterations {
                black()
            } else {
                table@[iterations as int]
            },
        }
    }

    /// The direct palette for a budget of `max_iterations`.
    pub fn direct(max_iterations: u32) -> (r: Result<Palette, RenderError>)
        ensures
            max_iterations == 0 ==> r == Err::<Palette, RenderError>(RenderError::ZeroIterations),
            max_iterations > 0 ==> r is Ok && r->Ok_0.wf() && r->Ok_0 is Direct
                && r->Ok_0.budget() == max_iterations,
    {
        if max_iterations == 0 {
            Err(RenderError::ZeroIterations)
        } else {
            Ok(Palette::Direct { max_iterations })
        }
    }

    /// The gradient palette whose entry for each count below `max_iterations`
    /// is that count's sample, and whose entry for `max_iterations` is black
    /// whatever its sample was.
    pub fn gradient(max_iterations: u32, samples: Vec<Color>) -> (r: Result<Palette, RenderError>)
        ensures
            max_iterations == 0 ==> r == Err::<Palette, RenderError>(RenderError::ZeroIterations),
            max_iterations > 0 && samples@.len() != max_iterations as nat + 1 ==> r == Err::<
                Palette,
                RenderError,
            >(RenderError::SampleMismatch),
            max_iterations > 0 && samples@.len() == max_iterations as nat + 1 ==> {
                &&& r is Ok
                &&& r->Ok_0.wf()
                &&& r->Ok_0 matches Palette::Gradient { max_iterations: m, table }
                &&& m == max_iterations
                &&& table@ == samples@.update(max_iterations as int, black())
            },
    {
        if max_iterations == 0 {
            return Err(RenderError::ZeroIterations);
        }
        if samples.len() == 0 || samples.len() - 1 != max_iterations as usize {
            return Err(RenderError::SampleMismatch);
        }
        let mut table = samples;
        table.set(max_iterations as usize, Color::black());
        Ok(Palette::Gradient { max_iterations, table })
    }

    /// The iteration budget the palette was built for.
    pub fn max_iterations(&self) -> (r: u32)
        ensures
            r == self.budget(),
    {
        match self {
            Palette::Direct { max_iterations } => *max_iterations,
            Palette::Gradient { max_iterations, .. } => *max_iterations,
        }
    }

    /// The color of `iterations`.
    pub fn lookup(&self, iterations: u32) -> (r: Color)
        requires
            self.wf(),
        ensures
            r == self.color_of(iterations as nat),
    {
        match self {
            Palette::Direct { max_iterations } => direct_color(iterations, *max_iterations),
            Palette::Gradient { max_iterations, table } => {
                if iterations >= *max_iterations {
                    Color::black()
                } else {
                    table[iterations as usize]
                }
            },
        }
    }
}

/// A point that never escaped within the budget is black, under either
/// palette and whatever colors a gradient was sampled from.
pub proof fn lemma_in_set_is_black(palette: Palette)
    requires
        palette.wf(),
    ensures
        palette.color_of(palette.budget()) == black(),
{
    if let Palette::Direct { max_iterations } = palette {
        lemma_direct_black_past_range(
            max_iterations as nat,
            max_iterations as nat,
        );
        assert(direct_color_spec(max_iterations as nat, max_iterations as nat) == black());
    }
}

} // verus!
