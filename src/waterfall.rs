use vstd::prelude::*;
use crate::ratio::Ratio;

verus! {

/// One painting step of the waterfall canvas, in the order it must be applied.
#[derive(Clone, Copy, Debug, PartialEq, Eq, Structural)]
pub enum WaterfallOp {
    /// Fill the keyboard strip, columns `[0, piano_roll_width)`, with black.
    ClearPianoRoll,
    /// Draw the keyboard strip (see `piano_keys`) over the full height.
    DrawPianoRoll,
    /// Fill the whole canvas with black, discarding the history.
    ClearCanvas,
    /// Fill the one-pixel column at `x` with black.
    ClearColumn { x: u64 },
    /// Fill a one-pixel-wide rectangle at `(x, y)`, `height` high, with the
    /// colour of hue `hue` (degrees), full saturation, half lightness.
    FillCell { x: u64, y: Ratio, height: Ratio, hue: Ratio },
}

/// Hue of a magnitude: `240 * (1 - magnitude / 255)` degrees, blue for
/// silence down to red for the loudest bin.
pub open spec fn hue_spec(magnitude: u8) -> Ratio {
    Ratio { num: (240 * (255 - magnitude)) as u64, den: 255 }
}

/// Whether a frame that finds the cursor at `cursor` wraps around.
pub open spec fn wraps(cursor: int, canvas_width: int) -> bool {
    cursor >= canvas_width
}

/// The column a frame draws: after a wrap, or before the first frame, the
/// column next to the keyboard strip; otherwise the cursor itself.
pub open spec fn drawn_column(cursor: int, strip_width: int, canvas_width: int) -> int {
    if wraps(cursor, canvas_width) {
        strip_width
    } else if cursor < strip_width {
        strip_width
    } else {
        cursor
    }
}

/// The cursor after one frame: one past the column drawn.
pub open spec fn next_cursor(cursor: int, strip_width: int, canvas_width: int) -> int {
    drawn_column(cursor, strip_width, canvas_width) + 1
}

/// The cursor after `k` frames on a canvas of constant width.
pub open spec fn cursor_after(cursor: int, strip_width: int, canvas_width: int, k: nat) -> int
    decreases k,
{
    if k == 0 {
        cursor
    } else {
        next_cursor(cursor_after(cursor, strip_width, canvas_width, (k - 1) as nat), strip_width, canvas_width)
    }
}

/// What a frame paints before the new column's cells: the keyboard strip is
/// cleared and redrawn; on a wrap the whole canvas is cleared and the strip
/// redrawn again; then the drawn column is cleared.
pub open spec fn frame_prefix(cursor: int, strip_width: int, canvas_width: int) -> Seq<WaterfallOp> {
    let column = drawn_column(cursor, strip_width, canvas_width);
    let redraw = if wraps(cursor, canvas_width) {
        seq![WaterfallOp::ClearCanvas, WaterfallOp::DrawPianoRoll]
    } else {
        Seq::empty()
    };
    seq![WaterfallOp::ClearPianoRoll, WaterfallOp::DrawPianoRoll] + redraw + seq![
        WaterfallOp::ClearColumn { x: column as u64 },
    ]
}

/// The `i`-th cell painted in a column, counted from the top: it shows bin
/// `n - 1 - i`, so bin 0 lies at the bottom. Rows are `height / n` pixels high
/// and spaced linearly.
pub open spec fn cell_spec(x: int, magnitudes: Seq<u8>, canvas_height: int, i: int) -> WaterfallOp {
    let n = magnitudes.len();
    WaterfallOp::FillCell {
        x: x as u64,
        y: Ratio { num: (i * canvas_height) as u64, den: n as u64 },
        height: Ratio { num: canvas_height as u64, den: n as u64 },
        hue: hue_spec(magnitudes[n - 1 - i]),
    }
}

/// Everything one frame paints on the waterfall canvas.
pub open spec fn frame_ops(
    cursor: int,
    strip_width: int,
    canvas_width: int,
    canvas_height: int,
    magnitudes: Seq<u8>,
) -> Seq<WaterfallOp> {
    let column = drawn_column(cursor, strip_width, canvas_width);
    frame_prefix(cursor, strip_width, canvas_width) + Seq::new(
        magnitudes.len(),
        |i: int| cell_spec(column, magnitudes, canvas_height, i),
    )
}

/// Whatever the cursor holds, on a canvas wider than the keyboard strip every
/// frame draws its column inside the drawing area `[strip_width, canvas_width)`,
/// so the strip and the columns beyond the canvas are never painted over.
pub proof fn lemma_column_in_drawing_area(cursor: u64, strip_width: u32, canvas_width: u32)
    requires
        strip_width < canvas_width,
    ensures
        strip_width <= drawn_column(cursor as int, strip_width as int, canvas_width as int) < canvas_width,
{
}

/// From the column next to the keyboard strip, `k` frames on a canvas of
/// constant width move the cursor `k` columns right, as long as it has not
/// passed the right edge.
proof fn lemma_cursor_walks(strip_width: int, canvas_width: int, k: nat)
    requires
        0 <= strip_width,
        strip_width + k <= canvas_width,
    ensures
        cursor_after(strip_width, strip_width, canvas_width, k) == strip_width + k,
    decreases k,
{
    if k > 0 {
        lemma_cursor_walks(strip_width, canvas_width, (k - 1) as nat);
    }
}

/// Starting at the keyboard strip's edge, each of the first
/// `canvas_width - strip_width` frames draws one new column without wrapping,
/// so no history is discarded; they leave the cursor at the right edge, and the
/// frame after them clears the whole canvas, redraws the keyboard strip and
/// draws again at the strip's edge.
pub proof fn lemma_cursor_wraps(
    strip_width: u32,
    canvas_width: u32,
    canvas_height: u32,
    magnitudes: Seq<u8>,
)
    requires
        strip_width < canvas_width,
    ensures
        forall|k: nat|
            k < canvas_width - strip_width ==> {
                let c = #[trigger] cursor_after(strip_width as int, strip_width as int, canvas_width as int, k);
                &&& c == strip_width + k
                &&& !wraps(c, canvas_width as int)
                &&& drawn_column(c, strip_width as int, canvas_width as int) == c
            },
        ({
            let c = cursor_after(
                strip_width as int,
                strip_width as int,
                canvas_width as int,
                (canvas_width - strip_width) as nat,
            );
            &&& c == canvas_width
            &&& frame_ops(c, strip_width as int, canvas_width as int, canvas_height as int, magnitudes).take(5)
                == seq![
                WaterfallOp::ClearPianoRoll,
                WaterfallOp::DrawPianoRoll,
                WaterfallOp::ClearCanvas,
                WaterfallOp::DrawPianoRoll,
                WaterfallOp::ClearColumn { x: strip_width as u64 },
            ]
            &&& next_cursor(c, strip_width as int, canvas_width as int) == strip_width + 1
        }),
{
    assert forall|k: nat| k < canvas_width - strip_width implies {
        let c = #[trigger] cursor_after(strip_width as int, strip_width as int, canvas_width as int, k);
        &&& c == strip_width + k
        &&& !wraps(c, canvas_width as int)
        &&& drawn_column(c, strip_width as int, canvas_width as int) == c
    } by {
        lemma_cursor_walks(strip_width as int, canvas_width as int, k);
    }
    let k = (canvas_width - strip_width) as nat;
    lemma_cursor_walks(strip_width as int, canvas_width as int, k);
    let c = canvas_width as int;
    assert(frame_ops(c, strip_width as int, canvas_width as int, canvas_height as int, magnitudes).take(5)
        =~= seq![
        WaterfallOp::ClearPianoRoll,
        WaterfallOp::DrawPianoRoll,
        WaterfallOp::ClearCanvas,
        WaterfallOp::DrawPianoRoll,
        WaterfallOp::ClearColumn { x: strip_width as u64 },
    ]);
}

/// The hue of a waterfall cell for a bin of the given magnitude.
pub fn column_hue(magnitude: u8) -> (r: Ratio)
    ensures
        r == hue_spec(magnitude),
{
    Ratio::new(240 * (255 - magnitude as u64), 255)
}

/// The scrolling spectrogram: a cursor that walks the canvas one column per
/// frame, right of a keyboard strip of fixed width.
pub struct Waterfall {
    cursor_x: u64,
    piano_roll_width: u32,
}

impl Waterfall {
    /// Column that the next frame will consider drawing at.
    pub closed spec fn cursor(&self) -> int {
        self.cursor_x as int
    }

    /// Width of the keyboard strip, in pixels.
    pub closed spec fn strip_width(&self) -> int {
        self.piano_roll_width as int
    }

    /// A waterfall that has drawn nothing yet, its cursor at the left edge.
    pub fn new(piano_roll_width: u32) -> (r: Waterfall)
        ensures
            r.cursor() == 0,
            r.strip_width() == piano_roll_width,
    {
        Waterfall { cursor_x: 0, piano_roll_width }
    }

    pub fn cursor_x(&self) -> (r: u64)
        ensures
            r == self.cursor(),
    {
        self.cursor_x
    }

    pub fn piano_roll_width(&self) -> (r: u32)
        ensures
            r == self.strip_width(),
    {
        self.piano_roll_width
    }

    /// Plans one frame of the waterfall from the frequency magnitudes of an
    /// analysis frame, and advances the cursor past the column it draws.
    pub fn draw_frame(&mut self, magnitudes: &Vec<u8>, canvas_width: u32, canvas_height: u32) -> (ops: Vec<WaterfallOp>)
        requires
            magnitudes@.len() <= u32::MAX,
        ensures
            ops@ == frame_ops(
                old(self).cursor(),
                old(self).strip_width(),
                canvas_width as int,
                canvas_height as int,
                magnitudes@,
            ),
            final(self).cursor() == next_cursor(
                old(self).cursor(),
                old(self).strip_width(),
                canvas_width as int,
            ),
            final(self).strip_width() == old(self).strip_width(),
    {
        let ghost cursor = self.cursor();
        let ghost strip = self.strip_width();
        let mut ops: Vec<WaterfallOp> = Vec::new();
        ops.push(WaterfallOp::ClearPianoRoll);
        ops.push(WaterfallOp::DrawPianoRoll);
        if self.cursor_x >= canvas_width as u64 {
            ops.push(WaterfallOp::ClearCanvas);
            ops.push(WaterfallOp::DrawPianoRoll);
            self.cursor_x = self.piano_roll_width as u64;
        } else if self.cursor_x < self.piano_roll_width as u64 {
            self.cursor_x = self.piano_roll_width as u64;
        }
        let column = self.cursor_x;
        ops.push(WaterfallOp::ClearColumn { x: column });
        assert(ops@ =~= frame_prefix(cursor, strip, canvas_width as int));
        let n = magnitudes.len();
        let height = Ratio::new(canvas_height as u64, n as u64);
        let mut i: usize = 0;
        while i < n
            invariant
                n == magnitudes@.len(),
                n <= u32::MAX,
                i <= n,
                column == drawn_column(cursor, strip, canvas_width as int),
                height == (Ratio { num: canvas_height as u64, den: n as u64 }),
                ops@ =~= frame_ops(cursor, strip, canvas_width as int, canvas_height as int, magnitudes@).take(
                    frame_prefix(cursor, strip, canvas_width as int).len() + i,
                ),
            decreases n - i,
        {
            let magnitude = magnitudes[n - 1 - i];
            assert((i as int) * (canvas_height as int) <= (u32::MAX as int) * (u32::MAX as int)) by (nonlinear_arith)
                requires
                    i < u32::MAX,
                    canvas_height <= u32::MAX,
            ;
            let y = Ratio::new(i as u64 * canvas_height as u64, n as u64);
            ops.push(WaterfallOp::FillCell { x: column, y, height, hue: column_hue(magnitude) });
            i = i + 1;
        }
        assert(ops@ =~= frame_ops(cursor, strip, canvas_width as int, canvas_height as int, magnitudes@));
        self.cursor_x = column + 1;
        ops
    }
}

} // verus!
