//! The renderer-composition model.
//!
//! Several independent renderers compose their output into one image by
//! drawing through strictly sequential render passes against the shared
//! color target. Each pass starts from either a fixed fill color
//! (clear) or the target's existing content (load), then overwrites the
//! pixels its draws cover. The first pass of a frame must clear; every
//! later pass must load — that discipline is the sole mechanism that
//! lets the renderers compose without an intermediate off-screen
//! target, and [`lemma_pass_composition`] states what it buys.
//!
//! Pixels are plain `u32` color values and an image is a flat pixel
//! buffer; a draw names the pixel indices it covers.

use vstd::prelude::*;

verus! {

/// How a render pass treats the color target's prior content: start
/// from a fill color, or keep what is already there.
#[derive(Clone, Copy, PartialEq, Eq, Structural, Debug)]
pub enum LoadOp {
    /// Begin from a uniform fill of the given color.
    Clear(u32),
    /// Begin from the target's existing content.
    Load,
}

/// One draw call: the pixel indices it covers, all painted one color.
/// Indices outside the target are ignored.
#[derive(Clone, Debug)]
pub struct Draw {
    pub pixels: Vec<usize>,
    pub color: u32,
}

/// One render pass: a load operation, then draws issued in order.
#[derive(Clone, Debug)]
pub struct Pass {
    pub load: LoadOp,
    pub draws: Vec<Draw>,
}

/// Whether the draw covers pixel `i`.
pub open spec fn draw_covers(d: Draw, i: int) -> bool {
    exists|j: int| 0 <= j < d.pixels@.len() && d.pixels@[j] == i
}

/// The image after one draw: covered pixels take the draw's color,
/// all others keep theirs.
pub open spec fn apply_draw(img: Seq<u32>, d: Draw) -> Seq<u32> {
    Seq::new(img.len(), |i: int| if draw_covers(d, i) { d.color } else { img[i] })
}

/// The image after a sequence of draws, applied in order.
pub open spec fn apply_draws(img: Seq<u32>, ds: Seq<Draw>) -> Seq<u32>
    decreases ds.len(),
{
    if ds.len() == 0 {
        img
    } else {
        apply_draw(apply_draws(img, ds.drop_last()), ds.last())
    }
}

/// What a pass starts from: a uniform fill on clear, the existing image
/// on load.
pub open spec fn pass_base(img: Seq<u32>, load: LoadOp) -> Seq<u32> {
    match load {
        LoadOp::Clear(c) => Seq::new(img.len(), |i: int| c),
        LoadOp::Load => img,
    }
}

/// The image after a whole pass: its draws over its base.
pub open spec fn apply_pass(img: Seq<u32>, p: Pass) -> Seq<u32> {
    apply_draws(pass_base(img, p.load), p.draws@)
}

/// The image after a sequence of passes, applied in order.
pub open spec fn apply_passes(img: Seq<u32>, ps: Seq<Pass>) -> Seq<u32>
    decreases ps.len(),
{
    if ps.len() == 0 {
        img
    } else {
        apply_pass(apply_passes(img, ps.drop_last()), ps.last())
    }
}

/// Whether some draw of the pass covers pixel `i`.
pub open spec fn pass_covers(p: Pass, i: int) -> bool {
    exists|k: int| 0 <= k < p.draws@.len() && draw_covers(p.draws@[k], i)
}

/// The color the draws leave at a covered pixel: that of the last draw
/// covering it. Meaningful only where some draw covers `i`.
pub open spec fn draws_color_at(ds: Seq<Draw>, i: int) -> u32
    decreases ds.len(),
{
    if ds.len() == 0 {
        0
    } else if draw_covers(ds.last(), i) {
        ds.last().color
    } else {
        draws_color_at(ds.drop_last(), i)
    }
}

/// The color the pass leaves at a pixel it covers.
pub open spec fn pass_color_at(p: Pass, i: int) -> u32 {
    draws_color_at(p.draws@, i)
}

/// The load/clear discipline of one frame: the first pass clears,
/// every later pass loads.
pub open spec fn well_composed(ps: Seq<Pass>) -> bool {
    &&& (ps.len() > 0 ==> ps[0].load is Clear)
    &&& (forall|k: int| 1 <= k < ps.len() ==> ps[k].load is Load)
}

/// Draws change no pixel they do not cover, paint every pixel they do
/// cover with the covering color, and keep the image's size.
pub proof fn lemma_apply_draws_at(img: Seq<u32>, ds: Seq<Draw>)
    ensures
        apply_draws(img, ds).len() == img.len(),
        forall|i: int|
            0 <= i < img.len() ==> apply_draws(img, ds)[i] == (
            if exists|k: int| 0 <= k < ds.len() && draw_covers(ds[k], i) {
                draws_color_at(ds, i)
            } else {
                img[i]
            }),
    decreases ds.len(),
{
    if ds.len() > 0 {
        lemma_apply_draws_at(img, ds.drop_last());
        assert forall|i: int| 0 <= i < img.len() implies apply_draws(img, ds)[i] == (
        if exists|k: int| 0 <= k < ds.len() && draw_covers(ds[k], i) {
            draws_color_at(ds, i)
        } else {
            img[i]
        }) by {
            if !draw_covers(ds.last(), i) {
                if exists|k: int| 0 <= k < ds.len() && draw_covers(ds[k], i) {
                    let k = choose|k: int| 0 <= k < ds.len() && draw_covers(ds[k], i);
                    assert(0 <= k < ds.drop_last().len() && draw_covers(ds.drop_last()[k], i));
                }
            }
        }
    }
}

/// The compositing law for one frame target. Let a first pass render,
/// then a second pass with a load operation render over it. Wherever
/// the second pass drew, the final image shows exactly the second
/// pass's own output; everywhere else the first pass's result shows
/// through untouched. Loading preserves prior content, and it is
/// overwritten only by an explicit draw.
pub proof fn lemma_pass_composition(img: Seq<u32>, p1: Pass, p2: Pass)
    requires
        p2.load is Load,
    ensures
        apply_pass(apply_pass(img, p1), p2).len() == img.len(),
        forall|i: int|
            0 <= i < img.len() && pass_covers(p2, i) ==> apply_pass(apply_pass(img, p1), p2)[i]
                == pass_color_at(p2, i),
        forall|i: int|
            0 <= i < img.len() && !pass_covers(p2, i) ==> apply_pass(apply_pass(img, p1), p2)[i]
                == apply_pass(img, p1)[i],
{
    let mid = apply_pass(img, p1);
    lemma_apply_draws_at(pass_base(img, p1.load), p1.draws@);
    lemma_apply_draws_at(mid, p2.draws@);
}

/// The clear color of the first pass appears exactly where no draw of
/// either pass covers the pixel.
pub proof fn lemma_clear_shows_where_undrawn(img: Seq<u32>, p1: Pass, p2: Pass)
    requires
        p1.load is Clear,
        p2.load is Load,
    ensures
        forall|i: int|
            0 <= i < img.len() && !pass_covers(p1, i) && !pass_covers(p2, i) ==> apply_pass(
                apply_pass(img, p1),
                p2,
            )[i] == p1.load->Clear_0,
{
    lemma_pass_composition(img, p1, p2);
    lemma_apply_draws_at(pass_base(img, p1.load), p1.draws@);
}

/// What the load/clear discipline buys: a frame whose passes obey it
/// renders to the same image whatever the target held before — the
/// opening clear defines the background, so no undefined initial
/// content can show through.
pub proof fn lemma_discipline_fixes_output(img1: Seq<u32>, img2: Seq<u32>, ps: Seq<Pass>)
    requires
        well_composed(ps),
        ps.len() > 0,
        img1.len() == img2.len(),
    ensures
        apply_passes(img1, ps) == apply_passes(img2, ps),
    decreases ps.len(),
{
    if ps.len() == 1 {
        assert(ps.last() == ps[0]);
        assert(pass_base(img1, ps[0].load) =~= pass_base(img2, ps[0].load));
        assert(apply_passes(img1, ps.drop_last()) == img1);
        assert(apply_passes(img2, ps.drop_last()) == img2);
    } else {
        let prefix = ps.drop_last();
        assert(well_composed(prefix)) by {
            assert(prefix[0] == ps[0]);
            assert(forall|k: int| 1 <= k < prefix.len() ==> prefix[k] == ps[k]);
        }
        lemma_discipline_fixes_output(img1, img2, prefix);
    }
}

/// Paint one draw onto a pixel buffer: each named pixel that lies
/// inside the buffer takes the draw's color.
pub fn render_draw(img: &mut Vec<u32>, d: &Draw)
    ensures
        final(img)@ == apply_draw(old(img)@, *d),
{
    let ghost orig = img@;
    let mut k: usize = 0;
    while k < d.pixels.len()
        invariant
            k <= d.pixels@.len(),
            img@.len() == orig.len(),
            forall|i: int|
                0 <= i < orig.len() ==> img@[i] == (
                if exists|j: int| 0 <= j < k && d.pixels@[j] == i {
                    d.color
                } else {
                    orig[i]
                }),
        decreases d.pixels@.len() - k,
    {
        let idx: usize = d.pixels[k];
        if idx < img.len() {
            img.set(idx, d.color);
        }
        k = k + 1;
        proof {
            assert forall|i: int|
                0 <= i < orig.len() implies img@[i] == (
            if exists|j: int| 0 <= j < k && d.pixels@[j] == i {
                d.color
            } else {
                orig[i]
            }) by {
                if exists|j: int| 0 <= j < k && d.pixels@[j] == i {
                    let j = choose|j: int| 0 <= j < k && d.pixels@[j] == i;
                    if j < k - 1 {
                        assert(img@[i] == d.color);
                    }
                }
            }
        }
    }
    proof {
        assert(img@ =~= apply_draw(orig, *d));
    }
}

/// Render one pass onto a pixel buffer: establish its base, then paint
/// its draws in order.
pub fn render_pass(img: &mut Vec<u32>, p: &Pass)
    ensures
        final(img)@ == apply_pass(old(img)@, *p),
{
    let ghost orig = img@;
    match p.load {
        LoadOp::Clear(c) => {
            let mut j: usize = 0;
            while j < img.len()
                invariant
                    img@.len() == orig.len(),
                    forall|i: int| 0 <= i < j ==> img@[i] == c,
                    forall|i: int| j <= i < orig.len() ==> img@[i] == orig[i],
                decreases img@.len() - j,
            {
                img.set(j, c);
                j = j + 1;
            }
            proof {
                assert(img@ =~= pass_base(orig, p.load));
            }
        },
        LoadOp::Load => {},
    }
    let ghost base = img@;
    let mut k: usize = 0;
    while k < p.draws.len()
        invariant
            base == pass_base(orig, p.load),
            img@ == apply_draws(base, p.draws@.take(k as int)),
            k <= p.draws@.len(),
        decreases p.draws@.len() - k,
    {
        render_draw(img, &p.draws[k]);
        k = k + 1;
        proof {
            assert(p.draws@.take(k as int).drop_last() =~= p.draws@.take(k as int - 1));
        }
    }
    proof {
        assert(p.draws@.take(p.draws@.len() as int) =~= p.draws@);
    }
}

/// Render a whole frame's passes, in order, onto a pixel buffer.
pub fn render_frame(img: &mut Vec<u32>, passes: &Vec<Pass>)
    ensures
        final(img)@ == apply_passes(old(img)@, passes@),
{
    let ghost orig = img@;
    let mut k: usize = 0;
    while k < passes.len()
        invariant
            img@ == apply_passes(orig, passes@.take(k as int)),
            k <= passes@.len(),
        decreases passes@.len() - k,
    {
        render_pass(img, &passes[k]);
        k = k + 1;
        proof {
            assert(passes@.take(k as int).drop_last() =~= passes@.take(k as int - 1));
        }
    }
    proof {
        assert(passes@.take(passes@.len() as int) =~= passes@);
    }
}

} // verus!
