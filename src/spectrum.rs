use vstd::prelude::*;
use crate::ratio::Ratio;

verus! {

/// One filled bar of the spectrum plot: a rectangle with its top-left corner
/// at `(x, y)`, painted in hue `hue` (degrees) at full saturation and half
/// lightness.
#[derive(Clone, Copy, Debug, PartialEq, Eq, Structural)]
pub struct Bar {
    pub x: Ratio,
    pub y: Ratio,
    pub width: Ratio,
    pub height: Ratio,
    pub hue: Ratio,
}

/// One vertex of the oscilloscope trace. The first vertex starts the path;
/// every other one is joined to its predecessor by a line.
#[derive(Clone, Copy, Debug, PartialEq, Eq, Structural)]
pub struct TracePoint {
    pub x: Ratio,
    pub y: Ratio,
    pub starts_path: bool,
}

/// Bar `i` of `n`: `width / n` wide at `x = i * width / n`, standing on the
/// bottom edge with height `magnitude / 255 * height`, in hue
/// `x / width * 360 = 360 * i / n`.
pub open spec fn bar_spec(magnitudes: Seq<u8>, width: int, height: int, i: int) -> Bar {
    let n = magnitudes.len();
    let m = magnitudes[i] as int;
    Bar {
        x: Ratio { num: (i * width) as u64, den: n as u64 },
        y: Ratio { num: ((255 - m) * height) as u64, den: 255 },
        width: Ratio { num: width as u64, den: n as u64 },
        height: Ratio { num: (m * height) as u64, den: 255 },
        hue: Ratio { num: (360 * i) as u64, den: n as u64 },
    }
}

/// The bars of a spectrum plot, one per frequency bin from left to right.
pub open spec fn spectrum_spec(magnitudes: Seq<u8>, width: int, height: int) -> Seq<Bar> {
    Seq::new(magnitudes.len(), |i: int| bar_spec(magnitudes, width, height, i))
}

/// Vertex `i` of `n`: at `x = i * width / n` and `y = sample / 128 * height`.
pub open spec fn trace_point_spec(samples: Seq<u8>, width: int, height: int, i: int) -> TracePoint {
    let n = samples.len();
    TracePoint {
        x: Ratio { num: (i * width) as u64, den: n as u64 },
        y: Ratio { num: (samples[i] * height) as u64, den: 128 },
        starts_path: i == 0,
    }
}

/// The oscilloscope trace, one vertex per time-domain sample from left to right.
pub open spec fn trace_spec(samples: Seq<u8>, width: int, height: int) -> Seq<TracePoint> {
    Seq::new(samples.len(), |i: int| trace_point_spec(samples, width, height, i))
}

/// Both plots depend on the analysis frame and the canvas size alone: drawing
/// the same frame twice on canvases of the same size paints the same shapes.
pub proof fn lemma_plots_repeatable(
    samples_a: Seq<u8>,
    samples_b: Seq<u8>,
    magnitudes_a: Seq<u8>,
    magnitudes_b: Seq<u8>,
    width: u32,
    height: u32,
)
    requires
        samples_a == samples_b,
        magnitudes_a == magnitudes_b,
    ensures
        trace_spec(samples_a, width as int, height as int) == trace_spec(samples_b, width as int, height as int),
        spectrum_spec(magnitudes_a, width as int, height as int) == spectrum_spec(
            magnitudes_b,
            width as int,
            height as int,
        ),
{
}

/// Plans the spectrum plot of a canvas `width` by `height` pixels, which is
/// first cleared to black.
pub fn spectrum_bars(magnitudes: &Vec<u8>, width: u32, height: u32) -> (r: Vec<Bar>)
    requires
        magnitudes@.len() <= u32::MAX,
    ensures
        r@ == spectrum_spec(magnitudes@, width as int, height as int),
{
    let n = magnitudes.len();
    let mut r: Vec<Bar> = Vec::new();
    let mut i: usize = 0;
    while i < n
        invariant
            n == magnitudes@.len(),
            n <= u32::MAX,
            i <= n,
            r@ =~= spectrum_spec(magnitudes@, width as int, height as int).take(i as int),
        decreases n - i,
    {
        let m = magnitudes[i] as u64;
        assert((i as int) * (width as int) <= (u32::MAX as int) * (u32::MAX as int)) by (nonlinear_arith)
            requires
                i < u32::MAX,
                width <= u32::MAX,
        ;
        assert(m * (height as int) <= 255 * (u32::MAX as int)) by (nonlinear_arith)
            requires
                m <= 255,
                height <= u32::MAX,
        ;
        assert((255 - m) * (height as int) <= 255 * (u32::MAX as int)) by (nonlinear_arith)
            requires
                m <= 255,
                height <= u32::MAX,
        ;
        let bar = Bar {
            x: Ratio::new(i as u64 * width as u64, n as u64),
            y: Ratio::new((255 - m) * height as u64, 255),
            width: Ratio::new(width as u64, n as u64),
            height: Ratio::new(m * height as u64, 255),
            hue: Ratio::new(360 * i as u64, n as u64),
        };
        r.push(bar);
        i = i + 1;
    }
    assert(r@ =~= spectrum_spec(magnitudes@, width as int, height as int));
    r
}

/// Plans the oscilloscope trace of a canvas `width` by `height` pixels, which
/// is first cleared to black.
pub fn oscilloscope_trace(samples: &Vec<u8>, width: u32, height: u32) -> (r: Vec<TracePoint>)
    requires
        samples@.len() <= u32::MAX,
    ensures
        r@ == trace_spec(samples@, width as int, height as int),
{
    let n = samples.len();
    let mut r: Vec<TracePoint> = Vec::new();
    let mut i: usize = 0;
    while i < n
        invariant
            n == samples@.len(),
            n <= u32::MAX,
            i <= n,
            r@ =~= trace_spec(samples@, width as int, height as int).take(i as int),
        decreases n - i,
    {
        let s = samples[i] as u64;
        assert((i as int) * (width as int) <= (u32::MAX as int) * (u32::MAX as int)) by (nonlinear_arith)
            requires
                i < u32::MAX,
                width <= u32::MAX,
        ;
        assert(s * (height as int) <= 255 * (u32::MAX as int)) by (nonlinear_arith)
            requires
                s <= 255,
                height <= u32::MAX,
        ;
        let point = TracePoint {
            x: Ratio::new(i as u64 * width as u64, n as u64),
            y: Ratio::new(s * height as u64, 128),
            starts_path: i == 0,
        };
        r.push(point);
        i = i + 1;
    }
    assert(r@ =~= trace_spec(samples@, width as int, height as int));
    r
}

} // verus!
