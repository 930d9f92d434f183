//! The raster behind the waterfall display.
//!
//! Every frame of levels becomes one row of gray pixels. The newest row is
//! the first, older rows follow, and the oldest leave once the raster holds
//! its maximum of rows. A level is mapped to a gray value by its place
//! between the lowest and the highest level seen so far. That range only
//! ever widens: it is kept across a change of source, so a row that is
//! already drawn keeps its meaning.
//!
//! Nothing here draws. The pixels are plain gray values, and a flag tells
//! the presentation layer when they have changed since it last took them.

use crate::messages::units::Decibels;
use vstd::prelude::*;

verus! {

/// Rows the raster keeps unless it is made with another limit.
pub const DEFAULT_MAX_LINES: usize = 1024;

/// A range of levels narrower than this, in thousandths of a decibel, is
/// taken as no range at all.
pub const RANGE_EPSILON_MILLIDB: i32 = 10;

/// The gray value for a level when there is no range to place it in: half
/// of full intensity.
pub const MIDDLE_GRAY: u8 = 127;

/// The gray value of full intensity.
pub const FULL_GRAY: u8 = 255;

/// The gray value of `level` between the range ends `lo` and `hi`, all in
/// thousandths of a decibel: the middle gray when the range is narrower than
/// the epsilon, else the share of the way from `lo` to `hi` that `level` has
/// gone, taken of the full gray and rounded down, and held between black and
/// full.
pub open spec fn spec_decibels_to_color(level: int, lo: int, hi: int) -> int {
    if hi - lo < RANGE_EPSILON_MILLIDB {
        MIDDLE_GRAY as int
    } else {
        let scaled = (FULL_GRAY * (level - lo)) / (hi - lo);
        if scaled < 0 {
            0
        } else if scaled > FULL_GRAY {
            FULL_GRAY as int
        } else {
            scaled
        }
    }
}

/// The lowest of `levels`, which must not be empty.
pub open spec fn spec_lowest(levels: Seq<Decibels>) -> Decibels
    recommends
        levels.len() > 0,
    decreases levels.len(),
{
    if levels.len() <= 1 {
        levels[0]
    } else {
        let rest = spec_lowest(levels.drop_last());
        if levels.last().0 < rest.0 {
            levels.last()
        } else {
            rest
        }
    }
}

/// The highest of `levels`, which must not be empty.
pub open spec fn spec_highest(levels: Seq<Decibels>) -> Decibels
    recommends
        levels.len() > 0,
    decreases levels.len(),
{
    if levels.len() <= 1 {
        levels[0]
    } else {
        let rest = spec_highest(levels.drop_last());
        if levels.last().0 > rest.0 {
            levels.last()
        } else {
            rest
        }
    }
}

/// The lower end of the range once `levels` are taken in.
pub open spec fn spec_widened_lo(lo: Option<Decibels>, levels: Seq<Decibels>) -> Option<Decibels> {
    if levels.len() == 0 {
        lo
    } else {
        match lo {
            Some(l) => if l.0 <= spec_lowest(levels).0 {
                Some(l)
            } else {
                Some(spec_lowest(levels))
            },
            None => Some(spec_lowest(levels)),
        }
    }
}

/// The upper end of the range once `levels` are taken in.
pub open spec fn spec_widened_hi(hi: Option<Decibels>, levels: Seq<Decibels>) -> Option<Decibels> {
    if levels.len() == 0 {
        hi
    } else {
        match hi {
            Some(h) => if h.0 >= spec_highest(levels).0 {
                Some(h)
            } else {
                Some(spec_highest(levels))
            },
            None => Some(spec_highest(levels)),
        }
    }
}

/// The row of gray values that `levels` make in the range from `lo` to `hi`.
pub open spec fn spec_render_row(levels: Seq<Decibels>, lo: Decibels, hi: Decibels) -> Seq<u8> {
    Seq::new(
        levels.len(),
        |i: int| spec_decibels_to_color(levels[i].0 as int, lo.0 as int, hi.0 as int) as u8,
    )
}

/// The pixels after `row` is put before `pixels` and the whole is cut to
/// `max_lines` rows of the width of `row`. What is cut off is the end: the
/// oldest pixels.
pub open spec fn spec_scroll(pixels: Seq<u8>, row: Seq<u8>, max_lines: nat) -> Seq<u8> {
    if row.len() + pixels.len() <= max_lines * row.len() {
        row + pixels
    } else {
        (row + pixels).take((max_lines * row.len()) as int)
    }
}

/// The gray value of `level` in the range from `lo` to `hi`.
pub fn decibels_to_color(level: Decibels, lo: Decibels, hi: Decibels) -> (gray: u8)
    ensures
        gray == spec_decibels_to_color(level.0 as int, lo.0 as int, hi.0 as int),
{
    let range: i64 = hi.0 as i64 - lo.0 as i64;
    if range < RANGE_EPSILON_MILLIDB as i64 {
        return MIDDLE_GRAY;
    }
    let offset: i64 = level.0 as i64 - lo.0 as i64;
    if offset <= 0 {
        proof {
            lemma_scaled_sign(offset as int, range as int);
        }
        0
    } else if offset >= range {
        proof {
            lemma_scaled_sign(offset as int, range as int);
        }
        FULL_GRAY
    } else {
        proof {
            lemma_scaled_sign(offset as int, range as int);
        }
        ((FULL_GRAY as i64 * offset) / range) as u8
    }
}

/// Where the scaled offset lies, by where the offset lies in the range.
proof fn lemma_scaled_sign(offset: int, range: int)
    requires
        range > 0,
    ensures
        offset <= 0 ==> (255 * offset) / range <= 0,
        offset >= range ==> (255 * offset) / range >= 255,
        0 < offset < range ==> 0 <= (255 * offset) / range <= 255,
{
    if offset <= 0 {
        vstd::arithmetic::div_mod::lemma_div_is_ordered(255 * offset, 0, range);
    } else if offset >= range {
        vstd::arithmetic::div_mod::lemma_div_is_ordered(255 * range, 255 * offset, range);
        vstd::arithmetic::div_mod::lemma_div_multiples_vanish(255, range);
    } else {
        vstd::arithmetic::div_mod::lemma_div_is_ordered(0, 255 * offset, range);
        vstd::arithmetic::div_mod::lemma_div_is_ordered(255 * offset, 255 * range, range);
        vstd::arithmetic::div_mod::lemma_div_multiples_vanish(255, range);
    }
}

/// The pixels of the waterfall with their size, and whether they have
/// changed since the presentation layer last took them.
pub struct WaterfallTexture {
    pixels: Vec<u8>,
    width: usize,
    height: usize,
    needs_gpu_upload: bool,
}

/// A texture as a value.
pub struct TextureView {
    /// The gray values, row after row, newest row first.
    pub pixels: Seq<u8>,
    /// Declared pixels in a row.
    pub width: nat,
    /// Declared number of rows.
    pub height: nat,
    /// Whether the pixels have changed since they were last taken.
    pub needs_upload: bool,
}

impl TextureView {
    /// The texture that holds nothing.
    pub open spec fn blank() -> TextureView {
        TextureView { pixels: Seq::empty(), width: 0, height: 0, needs_upload: false }
    }

    /// The pixels of the declared rows: what there is beyond the last whole
    /// row is left out.
    pub open spec fn image(self) -> Seq<u8> {
        if self.width * self.height <= self.pixels.len() {
            self.pixels.take((self.width * self.height) as int)
        } else {
            self.pixels
        }
    }

    /// Row `r` of the texture, by its declared width.
    pub open spec fn row(self, r: int) -> Seq<u8> {
        self.pixels.subrange(r * self.width, (r + 1) * self.width)
    }
}

impl View for WaterfallTexture {
    type V = TextureView;

    closed spec fn view(&self) -> TextureView {
        TextureView {
            pixels: self.pixels@,
            width: self.width as nat,
            height: self.height as nat,
            needs_upload: self.needs_gpu_upload,
        }
    }
}

impl WaterfallTexture {
    /// The declared rows are there: the pixels are at least as many as
    /// width times height.
    #[verifier::type_invariant]
    spec fn holds_declared_rows(self) -> bool {
        self.width * self.height <= self.pixels@.len()
    }

    /// A texture without pixels, with nothing to take.
    pub fn new() -> (r: WaterfallTexture)
        ensures
            r@ == TextureView::blank(),
    {
        WaterfallTexture { pixels: Vec::new(), width: 0, height: 0, needs_gpu_upload: false }
    }

    /// Marks that the pixels have changed and are to be taken.
    pub fn mark_updated(&mut self)
        ensures
            final(self)@ == (TextureView { needs_upload: true, ..old(self)@ }),
    {
        proof {
            use_type_invariant(&*self);
        }
        self.needs_gpu_upload = true;
    }

    /// Marks that the presentation layer has taken the pixels.
    pub fn mark_uploaded(&mut self)
        ensures
            final(self)@ == (TextureView { needs_upload: false, ..old(self)@ }),
    {
        proof {
            use_type_invariant(&*self);
        }
        self.needs_gpu_upload = false;
    }

    /// Whether the pixels have changed since they were last taken.
    pub fn needs_upload(&self) -> (r: bool)
        ensures
            r == self@.needs_upload,
    {
        self.needs_gpu_upload
    }

    /// The gray values, row after row, newest row first.
    pub fn pixels(&self) -> (r: &Vec<u8>)
        ensures
            r@ == self@.pixels,
    {
        &self.pixels
    }

    /// The pixels to show: those of the declared rows, as many as width
    /// times height.
    pub fn image(&self) -> (r: &[u8])
        ensures
            r@ == self@.image(),
            r@.len() == self@.width * self@.height,
    {
        proof {
            use_type_invariant(self);
        }
        let stored = self.pixels.len();
        match self.width.checked_mul(self.height) {
            Some(shown) => if shown <= stored {
                let r = vstd::slice::slice_subrange(self.pixels.as_slice(), 0, shown);
                assert(r@ == self.pixels@.take(shown as int));
                r
            } else {
                self.pixels.as_slice()
            },
            None => self.pixels.as_slice(),
        }
    }

    /// The declared size: pixels in a row, then rows.
    pub fn size(&self) -> (r: [usize; 2])
        ensures
            r[0] == self@.width,
            r[1] == self@.height,
    {
        [self.width, self.height]
    }
}

/// The scrolling raster with its normalization range.
pub struct Waterfall {
    texture: WaterfallTexture,
    max_lines: usize,
    min_px_val: Option<Decibels>,
    max_px_val: Option<Decibels>,
}

/// A waterfall as a value.
pub struct WaterfallView {
    /// The pixels, their size and the flag.
    pub texture: TextureView,
    /// The most rows the raster keeps.
    pub max_lines: nat,
    /// The lowest level seen, if any was.
    pub lo: Option<Decibels>,
    /// The highest level seen, if any was.
    pub hi: Option<Decibels>,
}

impl WaterfallView {
    /// The waterfall before its first frame.
    pub open spec fn blank(max_lines: nat) -> WaterfallView {
        WaterfallView { texture: TextureView::blank(), max_lines, lo: None, hi: None }
    }

    /// The waterfall after the frame `levels` is taken in. An empty frame
    /// changes nothing. Else the range is widened by the frame, the frame is
    /// drawn in the widened range and put before the rows there are, the
    /// oldest pixels beyond the limit are cut off, the size is declared
    /// anew from the width of the frame, and the flag is raised.
    pub open spec fn insert(self, levels: Seq<Decibels>) -> WaterfallView {
        if levels.len() == 0 {
            self
        } else {
            let lo = spec_widened_lo(self.lo, levels);
            let hi = spec_widened_hi(self.hi, levels);
            let row = spec_render_row(levels, lo->0, hi->0);
            let pixels = spec_scroll(self.texture.pixels, row, self.max_lines);
            WaterfallView {
                texture: TextureView {
                    pixels,
                    width: levels.len(),
                    height: pixels.len() / levels.len(),
                    needs_upload: true,
                },
                max_lines: self.max_lines,
                lo,
                hi,
            }
        }
    }
}

impl View for Waterfall {
    type V = WaterfallView;

    closed spec fn view(&self) -> WaterfallView {
        WaterfallView {
            texture: self.texture@,
            max_lines: self.max_lines as nat,
            lo: self.min_px_val,
            hi: self.max_px_val,
        }
    }
}

/// The lowest of `levels`.
fn lowest(levels: &[Decibels]) -> (r: Decibels)
    requires
        levels@.len() > 0,
    ensures
        r == spec_lowest(levels@),
{
    let mut lowest = levels[0];
    let mut i: usize = 1;
    while i < levels.len()
        invariant
            1 <= i <= levels@.len(),
            lowest == spec_lowest(levels@.take(i as int)),
        decreases levels@.len() - i,
    {
        assert(levels@.take(i + 1).drop_last() == levels@.take(i as int));
        if levels[i].0 < lowest.0 {
            lowest = levels[i];
        }
        i += 1;
    }
    assert(levels@.take(i as int) == levels@);
    lowest
}

/// The highest of `levels`.
fn highest(levels: &[Decibels]) -> (r: Decibels)
    requires
        levels@.len() > 0,
    ensures
        r == spec_highest(levels@),
{
    let mut highest = levels[0];
    let mut i: usize = 1;
    while i < levels.len()
        invariant
            1 <= i <= levels@.len(),
            highest == spec_highest(levels@.take(i as int)),
        decreases levels@.len() - i,
    {
        assert(levels@.take(i + 1).drop_last() == levels@.take(i as int));
        if levels[i].0 > highest.0 {
            highest = levels[i];
        }
        i += 1;
    }
    assert(levels@.take(i as int) == levels@);
    highest
}

impl Waterfall {
    /// The waterfall before its first frame, with the default limit.
    pub open spec fn new_view() -> WaterfallView {
        WaterfallView::blank(DEFAULT_MAX_LINES as nat)
    }

    /// A waterfall without rows that keeps the default number of them.
    pub fn new() -> (r: Waterfall)
        ensures
            r@ == Waterfall::new_view(),
    {
        Waterfall::with_max_lines(DEFAULT_MAX_LINES)
    }

    /// A waterfall without rows that keeps `max_lines` of them at most.
    pub fn with_max_lines(max_lines: usize) -> (r: Waterfall)
        ensures
            r@ == WaterfallView::blank(max_lines as nat),
    {
        Waterfall {
            texture: WaterfallTexture::new(),
            max_lines,
            min_px_val: None,
            max_px_val: None,
        }
    }

    /// The pixels with their size and the flag.
    pub fn texture(&self) -> (r: &WaterfallTexture)
        ensures
            r@ == self@.texture,
    {
        &self.texture
    }

    /// The most rows the raster keeps.
    pub fn max_lines(&self) -> (r: usize)
        ensures
            r == self@.max_lines,
    {
        self.max_lines
    }

    /// The lowest level seen so far.
    pub fn min_db(&self) -> (r: Option<Decibels>)
        ensures
            r == self@.lo,
    {
        self.min_px_val
    }

    /// The highest level seen so far.
    pub fn max_db(&self) -> (r: Option<Decibels>)
        ensures
            r == self@.hi,
    {
        self.max_px_val
    }

    /// Tells the waterfall that the presentation layer has taken the pixels.
    pub fn mark_uploaded(&mut self)
        ensures
            final(self)@ == (WaterfallView {
                texture: TextureView { needs_upload: false, ..old(self)@.texture },
                ..old(self)@
            }),
    {
        self.texture.mark_uploaded();
    }

    /// Widens the range to hold every one of `decibels`. The range never
    /// narrows.
    fn update_min_max_values(&mut self, decibels: &[Decibels])
        ensures
            final(self)@ == (WaterfallView {
                lo: spec_widened_lo(old(self)@.lo, decibels@),
                hi: spec_widened_hi(old(self)@.hi, decibels@),
                ..old(self)@
            }),
    {
        if decibels.len() == 0 {
            return ;
        }
        let min_new = lowest(decibels);
        let max_new = highest(decibels);
        self.min_px_val =
        match self.min_px_val {
            Some(current_min) => if current_min.0 <= min_new.0 {
                Some(current_min)
            } else {
                Some(min_new)
            },
            None => Some(min_new),
        };
        self.max_px_val =
        match self.max_px_val {
            Some(current_max) => if current_max.0 >= max_new.0 {
                Some(current_max)
            } else {
                Some(max_new)
            },
            None => Some(max_new),
        };
    }

    /// Takes in one frame of levels as the newest row of the raster. The
    /// width of the raster is the length of the frame; whoever feeds frames
    /// of an announced size checks them against it before. An empty frame
    /// changes nothing.
    pub fn insert_spectrum_line(&mut self, data: &[Decibels])
        ensures
            final(self)@ == old(self)@.insert(data@),
    {
        let width = data.len();
        if width == 0 {
            return ;
        }
        self.update_min_max_values(data);
        let lo = self.min_px_val.unwrap();
        let hi = self.max_px_val.unwrap();
        let ghost row = spec_render_row(data@, lo, hi);
        let ghost before = old(self)@.texture.pixels;
        let mut pixels: Vec<u8> = Vec::new();
        if self.max_lines > 0 {
            let mut i: usize = 0;
            while i < width
                invariant
                    i <= width == data@.len(),
                    row == spec_render_row(data@, lo, hi),
                    pixels@ == row.take(i as int),
                decreases width - i,
            {
                pixels.push(decibels_to_color(data[i], lo, hi));
                i += 1;
            }
            let stored = self.texture.pixels.len();
            let kept: usize = match width.checked_mul(self.max_lines - 1) {
                Some(room) => if stored <= room {
                    stored
                } else {
                    room
                },
                None => stored,
            };
            assert(width * self.max_lines == width + width * (self.max_lines - 1))
                by (nonlinear_arith);
            let mut j: usize = 0;
            while j < kept
                invariant
                    j <= kept <= before.len(),
                    before == self.texture.pixels@,
                    pixels@ == row + before.take(j as int),
                decreases kept - j,
            {
                pixels.push(self.texture.pixels[j]);
                j += 1;
            }
            assert(pixels@ == spec_scroll(before, row, self.max_lines as nat)) by {
                assert((row + before).take(width + kept) == row + before.take(kept as int));
                assert(before.take(before.len() as int) == before);
            }
        } else {
            assert(spec_scroll(before, row, 0) == Seq::<u8>::empty()) by {
                assert(0 * row.len() == 0) by (nonlinear_arith);
                assert(row.len() == width);
                assert((row + before).take(0) == Seq::<u8>::empty());
            }
        }
        let height = pixels.len() / width;
        assert(width * height <= pixels@.len()) by (nonlinear_arith)
            requires
                height == pixels@.len() / (width as nat),
                width > 0,
        ;
        self.texture = WaterfallTexture { pixels, width, height, needs_gpu_upload: false };
        self.texture.mark_updated();
    }
}

/// The waterfall after every one of `frames` is taken in, first to last.
pub open spec fn spec_insert_all(w: WaterfallView, frames: Seq<Seq<Decibels>>) -> WaterfallView
    decreases frames.len(),
{
    if frames.len() == 0 {
        w
    } else {
        spec_insert_all(w, frames.drop_last()).insert(frames.last())
    }
}

/// The waterfall after the frame `levels` is taken in `n` times.
pub open spec fn spec_insert_times(w: WaterfallView, levels: Seq<Decibels>, n: nat) -> WaterfallView
    decreases n,
{
    if n == 0 {
        w
    } else {
        spec_insert_times(w, levels, (n - 1) as nat).insert(levels)
    }
}

/// The lowest of some levels is one of them and none of them is lower.
pub proof fn law_lowest_is_least(levels: Seq<Decibels>)
    requires
        levels.len() > 0,
    ensures
        forall|i: int| 0 <= i < levels.len() ==> spec_lowest(levels).0 <= (#[trigger] levels[i]).0,
        exists|i: int| 0 <= i < levels.len() && levels[i] == spec_lowest(levels),
    decreases levels.len(),
{
    if levels.len() > 1 {
        let rest = levels.drop_last();
        law_lowest_is_least(rest);
        let at = choose|i: int| 0 <= i < rest.len() && rest[i] == spec_lowest(rest);
        assert(levels[at] == rest[at]);
        assert forall|i: int| 0 <= i < levels.len() implies spec_lowest(levels).0 <= (
        #[trigger] levels[i]).0 by {
            if i < levels.len() - 1 {
                assert(rest[i] == levels[i]);
            }
        }
        if levels.last().0 < spec_lowest(rest).0 {
            assert(levels[levels.len() - 1] == spec_lowest(levels));
        } else {
            assert(levels[at] == spec_lowest(levels));
        }
    } else {
        assert(levels[0] == spec_lowest(levels));
    }
}

/// The highest of some levels is one of them and none of them is higher.
pub proof fn law_highest_is_greatest(levels: Seq<Decibels>)
    requires
        levels.len() > 0,
    ensures
        forall|i: int| 0 <= i < levels.len() ==> spec_highest(levels).0 >= (#[trigger] levels[i]).0,
        exists|i: int| 0 <= i < levels.len() && levels[i] == spec_highest(levels),
    decreases levels.len(),
{
    if levels.len() > 1 {
        let rest = levels.drop_last();
        law_highest_is_greatest(rest);
        let at = choose|i: int| 0 <= i < rest.len() && rest[i] == spec_highest(rest);
        assert(levels[at] == rest[at]);
        assert forall|i: int| 0 <= i < levels.len() implies spec_highest(levels).0 >= (
        #[trigger] levels[i]).0 by {
            if i < levels.len() - 1 {
                assert(rest[i] == levels[i]);
            }
        }
        if levels.last().0 > spec_highest(rest).0 {
            assert(levels[levels.len() - 1] == spec_highest(levels));
        } else {
            assert(levels[at] == spec_highest(levels));
        }
    } else {
        assert(levels[0] == spec_highest(levels));
    }
}

/// A frame only ever widens the range: after it both ends are set, neither
/// has moved inward, and every level of the frame lies between them.
pub proof fn law_range_only_widens(w: WaterfallView, levels: Seq<Decibels>)
    requires
        levels.len() > 0,
    ensures
        ({
            let after = w.insert(levels);
            &&& after.lo matches Some(lo)
            &&& after.hi matches Some(hi)
            &&& (w.lo matches Some(l) ==> lo.0 <= l.0)
            &&& (w.hi matches Some(h) ==> hi.0 >= h.0)
            &&& forall|i: int|
                0 <= i < levels.len() ==> lo.0 <= (#[trigger] levels[i]).0 <= hi.0
        }),
{
    law_lowest_is_least(levels);
    law_highest_is_greatest(levels);
}

/// The raster never holds more than its maximum of rows: after a frame its
/// width is that of the frame, its pixels fill no more than the maximum of
/// rows of that width, its declared height is within the maximum, and the
/// flag is up.
pub proof fn law_rows_bounded(w: WaterfallView, levels: Seq<Decibels>)
    requires
        levels.len() > 0,
    ensures
        ({
            let after = w.insert(levels);
            &&& after.texture.width == levels.len()
            &&& after.texture.pixels.len() <= w.max_lines * levels.len()
            &&& after.texture.height <= w.max_lines
            &&& after.texture.height * levels.len() <= after.texture.pixels.len()
            &&& after.texture.needs_upload
            &&& after.max_lines == w.max_lines
        }),
{
    let after = w.insert(levels);
    let k = levels.len() as int;
    let stored = after.texture.pixels.len() as int;
    let limit = w.max_lines as int;
    assert(stored <= limit * k);
    assert(stored / k <= limit && (stored / k) * k <= stored) by (nonlinear_arith)
        requires
            0 <= stored <= limit * k,
            k > 0,
    ;
}

/// The newest frame is the first row, drawn in the range as the frame left
/// it.
pub proof fn law_newest_row_first(w: WaterfallView, levels: Seq<Decibels>)
    requires
        levels.len() > 0,
        w.max_lines > 0,
    ensures
        w.insert(levels).texture.height >= 1,
        w.insert(levels).texture.row(0) == spec_render_row(
            levels,
            w.insert(levels).lo->0,
            w.insert(levels).hi->0,
        ),
{
    let after = w.insert(levels);
    let k = levels.len() as int;
    let limit = w.max_lines as int;
    let row = spec_render_row(levels, after.lo->0, after.hi->0);
    assert(k <= limit * k) by (nonlinear_arith)
        requires
            limit >= 1,
            k > 0,
    ;
    assert(0 * k == 0 && (0 + 1) * k == k) by (nonlinear_arith);
    assert(after.texture.pixels.subrange(0, k) == row);
    let stored = after.texture.pixels.len() as int;
    assert(stored / k >= 1) by (nonlinear_arith)
        requires
            stored >= k,
            k > 0,
    ;
}

/// A frame moves every row that stays one place down and leaves it as it
/// was: the row after the newest is the row that was first, and so on. What
/// leaves the raster is therefore what was oldest.
pub proof fn law_older_rows_move_down(w: WaterfallView, levels: Seq<Decibels>, r: int)
    requires
        levels.len() > 0,
        w.texture.width == levels.len(),
        0 <= r,
        r + 1 < w.insert(levels).texture.height,
    ensures
        (r + 1) * levels.len() <= w.texture.pixels.len(),
        w.insert(levels).texture.row(r + 1) == w.texture.row(r),
{
    let after = w.insert(levels);
    let k = levels.len() as int;
    let row = spec_render_row(levels, after.lo->0, after.hi->0);
    let stored = after.texture.pixels.len() as int;
    let height = after.texture.height as int;
    law_rows_bounded(w, levels);
    assert((r + 2) * k <= height * k && (r + 2) * k == (r + 1) * k + k && (r + 1) * k == r * k
        + k && r * k >= 0) by (nonlinear_arith)
        requires
            r + 2 <= height,
            k > 0,
            r >= 0,
    ;
    assert(after.texture.pixels == (row + w.texture.pixels).take(stored));
    assert(after.texture.pixels.subrange((r + 1) * k, (r + 2) * k) == w.texture.pixels.subrange(
        r * k,
        (r + 1) * k,
    ));
}

/// While every frame has the width of the rows there are, the raster grows
/// by one row with each frame until it holds its maximum, and then stays at
/// it: with each further frame one row comes in and one leaves.
pub proof fn law_height_grows_to_limit(w: WaterfallView, levels: Seq<Decibels>)
    requires
        levels.len() > 0,
        w.texture.pixels.len() == w.texture.height * levels.len(),
    ensures
        ({
            let after = w.insert(levels);
            &&& after.texture.height == if w.texture.height + 1 <= w.max_lines {
                w.texture.height + 1
            } else {
                w.max_lines
            }
            &&& after.texture.pixels.len() == after.texture.height * levels.len()
        }),
{
    let after = w.insert(levels);
    let k = levels.len() as int;
    let h = w.texture.height as int;
    let limit = w.max_lines as int;
    let stored = after.texture.pixels.len() as int;
    assert(k + h * k == (h + 1) * k) by (nonlinear_arith);
    if h + 1 <= limit {
        assert((h + 1) * k <= limit * k) by (nonlinear_arith)
            requires
                h + 1 <= limit,
                k > 0,
        ;
        assert(stored == (h + 1) * k);
        assert(stored / k == h + 1) by (nonlinear_arith)
            requires
                stored == (h + 1) * k,
                k > 0,
        ;
    } else {
        assert((h + 1) * k > limit * k) by (nonlinear_arith)
            requires
                h + 1 > limit,
                k > 0,
        ;
        assert(stored == limit * k);
        assert(stored / k == limit) by (nonlinear_arith)
            requires
                stored == limit * k,
                k > 0,
        ;
    }
}

/// Frames of one width, taken in by a blank waterfall, leave the raster in
/// the order in which they came: the raster holds the last frames, as many
/// as its maximum of rows allows, newest first, each row as it was drawn
/// when its frame came in. A frame that came before those is gone.
pub proof fn law_oldest_rows_leave_first(
    max_lines: nat,
    frames: Seq<Seq<Decibels>>,
    width: nat,
    r: int,
)
    requires
        width > 0,
        forall|i: int| 0 <= i < frames.len() ==> (#[trigger] frames[i]).len() == width,
        0 <= r < frames.len(),
        r < max_lines,
    ensures
        ({
            let w = spec_insert_all(WaterfallView::blank(max_lines), frames);
            let then = spec_insert_all(
                WaterfallView::blank(max_lines),
                frames.take(frames.len() - r),
            );
            &&& w.texture.width == width
            &&& w.texture.height == if frames.len() <= max_lines {
                frames.len()
            } else {
                max_lines
            }
            &&& w.texture.pixels.len() == w.texture.height * width
            &&& w.texture.row(r) == then.texture.row(0)
            &&& then.texture.row(0) == spec_render_row(
                frames[frames.len() - 1 - r],
                then.lo->0,
                then.hi->0,
            )
        }),
    decreases frames.len(),
{
    let blank = WaterfallView::blank(max_lines);
    let n = frames.len() as int;
    let earlier = frames.drop_last();
    let before = spec_insert_all(blank, earlier);
    let w = spec_insert_all(blank, frames);
    assert(w == before.insert(frames.last()));
    lemma_blank_fills_in_rows(max_lines, earlier, width);
    law_height_grows_to_limit(before, frames.last());
    law_rows_bounded(before, frames.last());
    if r == 0 {
        assert(frames.take(n) == frames);
        law_newest_row_first(before, frames.last());
    } else {
        assert(earlier.take(n - r) == frames.take(n - r));
        law_oldest_rows_leave_first(max_lines, earlier, width, r - 1);
        law_older_rows_move_down(before, frames.last(), r - 1);
    }
}

/// A blank waterfall that took in frames of one width holds whole rows of
/// that width: as many as frames came, up to its maximum.
proof fn lemma_blank_fills_in_rows(max_lines: nat, frames: Seq<Seq<Decibels>>, width: nat)
    requires
        width > 0,
        forall|i: int| 0 <= i < frames.len() ==> (#[trigger] frames[i]).len() == width,
    ensures
        ({
            let w = spec_insert_all(WaterfallView::blank(max_lines), frames);
            &&& w.max_lines == max_lines
            &&& w.texture.pixels.len() == w.texture.height * width
            &&& w.texture.height == if frames.len() <= max_lines {
                frames.len()
            } else {
                max_lines
            }
            &&& frames.len() > 0 ==> w.texture.width == width
        }),
    decreases frames.len(),
{
    if frames.len() > 0 {
        let earlier = frames.drop_last();
        lemma_blank_fills_in_rows(max_lines, earlier, width);
        let before = spec_insert_all(WaterfallView::blank(max_lines), earlier);
        law_height_grows_to_limit(before, frames.last());
        law_rows_bounded(before, frames.last());
    } else {
        assert(0 * width == 0);
    }
}

/// Taking in the same frame again leaves the range where the first time put
/// it.
proof fn lemma_same_frame_keeps_range(w: WaterfallView, levels: Seq<Decibels>, n: nat)
    requires
        levels.len() > 0,
        n >= 1,
    ensures
        spec_insert_times(w, levels, n).lo == w.insert(levels).lo,
        spec_insert_times(w, levels, n).hi == w.insert(levels).hi,
        spec_insert_times(w, levels, n).max_lines == w.max_lines,
        spec_insert_times(w, levels, n).texture.width == levels.len(),
    decreases n,
{
    if n > 1 {
        lemma_same_frame_keeps_range(w, levels, (n - 1) as nat);
    } else {
        assert(spec_insert_times(w, levels, 0) == w);
    }
}

/// The same frame, taken in again and again, gives the same row every time:
/// after the frame came `n` times, each of the first `n` rows that the
/// raster has room for is the frame drawn in the range as its first coming
/// left it. The mapping depends on the frame and the range alone.
pub proof fn law_same_frame_same_row(w: WaterfallView, levels: Seq<Decibels>, n: nat, r: int)
    requires
        levels.len() > 0,
        0 <= r < n,
        r < w.max_lines,
    ensures
        r < spec_insert_times(w, levels, n).texture.height,
        spec_insert_times(w, levels, n).texture.row(r) == spec_render_row(
            levels,
            w.insert(levels).lo->0,
            w.insert(levels).hi->0,
        ),
    decreases n,
{
    let before = spec_insert_times(w, levels, (n - 1) as nat);
    let after = spec_insert_times(w, levels, n);
    assert(after == before.insert(levels));
    lemma_same_frame_keeps_range(w, levels, n);
    if n == 1 {
        assert(before == w);
    } else {
        lemma_same_frame_keeps_range(w, levels, (n - 1) as nat);
    }
    law_newest_row_first(before, levels);
    if r > 0 {
        law_same_frame_same_row(w, levels, (n - 1) as nat, r - 1);
        law_rows_bounded(spec_insert_times(w, levels, (n - 2) as nat), levels);
        lemma_room_for_next_row(before, levels, r - 1);
        law_older_rows_move_down(before, levels, r - 1);
    }
}

/// A row that the raster holds whole stays, one place down, when a frame
/// comes in and the maximum of rows leaves room for it.
proof fn lemma_room_for_next_row(w: WaterfallView, levels: Seq<Decibels>, r: int)
    requires
        levels.len() > 0,
        w.texture.width == levels.len(),
        0 <= r < w.texture.height,
        w.texture.height * levels.len() <= w.texture.pixels.len(),
        r + 1 < w.max_lines,
    ensures
        r + 1 < w.insert(levels).texture.height,
{
    let after = w.insert(levels);
    let k = levels.len() as int;
    let h = w.texture.height as int;
    let limit = w.max_lines as int;
    let held = w.texture.pixels.len() as int;
    let stored = after.texture.pixels.len() as int;
    assert((r + 2) * k <= k + held && (r + 2) * k <= limit * k) by (nonlinear_arith)
        requires
            r + 1 <= h,
            h * k <= held,
            r + 2 <= limit,
            k > 0,
    ;
    assert(stored >= (r + 2) * k);
    assert(stored / k >= r + 2) by (nonlinear_arith)
        requires
            stored >= (r + 2) * k,
            k > 0,
    ;
}

} // verus!
