//! The render loop and the plain-text PPM encoding of its result.
use vstd::prelude::*;
use crate::color::{Color, Rgba, byte_of, composite};
use crate::geometry::{Size, Position, Projection, axis_coordinate};
use crate::layer::Layer;

verus! {

pub const ZERO_DIGIT: u8 = 48;
pub const SPACE: u8 = 32;
pub const NEWLINE: u8 = 10;

/// The ASCII decimal digits of `n`, most significant first.
pub open spec fn decimal(n: nat) -> Seq<u8>
    decreases n,
{
    if n < 10 {
        seq![(ZERO_DIGIT + n) as u8]
    } else {
        decimal(n / 10) + seq![(ZERO_DIGIT + n % 10) as u8]
    }
}

/// The header lines: `P3`, then `<width> <height>`, then `255`.
pub open spec fn header(width: nat, height: nat) -> Seq<u8> {
    seq![80u8, 51u8, NEWLINE] + decimal(width) + seq![SPACE] + decimal(height) + seq![NEWLINE]
        + seq![50u8, 53u8, 53u8, NEWLINE]
}

/// One pixel's line: its 8-bit red, green and blue values.
pub open spec fn pixel_line(c: Rgba) -> Seq<u8> {
    decimal(byte_of(c.red) as nat) + seq![SPACE] + decimal(byte_of(c.green) as nat) + seq![SPACE]
        + decimal(byte_of(c.blue) as nat) + seq![NEWLINE]
}

/// The lines of `pixels`, in order.
pub open spec fn pixel_lines(pixels: Seq<Rgba>) -> Seq<u8>
    decreases pixels.len(),
{
    if pixels.len() == 0 {
        seq![]
    } else {
        pixel_lines(pixels.drop_last()) + pixel_line(pixels.last())
    }
}

/// The whole pixmap: the header, then one line per pixel in row-major order.
pub open spec fn pixmap(width: nat, height: nat, pixels: Seq<Rgba>) -> Seq<u8> {
    header(width, height) + pixel_lines(pixels)
}

/// The projection of the pixel at row-major index `i`, that is at column
/// `i % width` and row `i / width`.
pub open spec fn pixel_projection(size: Size, i: int) -> Projection {
    Projection {
        x: axis_coordinate(i % size.width(), size.width()) as u32,
        y: axis_coordinate(i / size.width(), size.height()) as u32,
    }
}

fn push_decimal(out: &mut Vec<u8>, n: u32)
    ensures
        final(out)@ == old(out)@ + decimal(n as nat),
    decreases n,
{
    if n >= 10 {
        push_decimal(out, n / 10);
    }
    out.push(ZERO_DIGIT + (n % 10) as u8);
    proof {
        assert(final(out)@ =~= old(out)@ + decimal(n as nat));
    }
}

/// The plain-text PPM pixmap of a `size` grid whose pixels, in row-major order, are
/// `pixels`.
pub fn encode(size: &Size, pixels: &Vec<Color>) -> (bytes: Vec<u8>)
    ensures
        bytes@ == pixmap(size.width() as nat, size.height() as nat, pixels@.map_values(|c: Color| c@)),
{
    let ghost views = pixels@.map_values(|c: Color| c@);
    let mut out: Vec<u8> = Vec::new();
    out.push(80);
    out.push(51);
    out.push(NEWLINE);
    push_decimal(&mut out, size.get_width());
    out.push(SPACE);
    push_decimal(&mut out, size.get_height());
    out.push(NEWLINE);
    out.push(50);
    out.push(53);
    out.push(53);
    out.push(NEWLINE);
    assert(out@ =~= header(size.width() as nat, size.height() as nat));
    assert(views.take(0) =~= Seq::<Rgba>::empty());
    let mut i: usize = 0;
    while i < pixels.len()
        invariant
            i <= pixels@.len(),
            views == pixels@.map_values(|c: Color| c@),
            out@ == header(size.width() as nat, size.height() as nat) + pixel_lines(views.take(i as int)),
        decreases pixels.len() - i,
    {
        let c = pixels[i];
        let ghost before = out@;
        push_decimal(&mut out, c.r() as u32);
        out.push(SPACE);
        push_decimal(&mut out, c.g() as u32);
        out.push(SPACE);
        push_decimal(&mut out, c.b() as u32);
        out.push(NEWLINE);
        proof {
            let next = views.take(i + 1);
            assert(next.drop_last() =~= views.take(i as int));
            assert(next.last() == c@);
            assert(out@ =~= before + pixel_line(c@));
        }
        i = i + 1;
    }
    assert(views.take(pixels@.len() as int) =~= views);
    out
}

/// A pixel grid with a background color.
#[derive(Clone, Copy)]
pub struct Canvas {
    background: Color,
    size: Size,
}

impl Canvas {
    /// The color that every pixel starts from.
    pub closed spec fn background(self) -> Color {
        self.background
    }

    /// The dimensions of the grid.
    pub closed spec fn size(self) -> Size {
        self.size
    }

    /// The composited pixels of this canvas under `layer`, in row-major
    /// order: at each index, the layer's sample over the background.
    pub open spec fn pixels<T: Layer>(self, layer: T) -> Seq<Rgba> {
        Seq::new(
            (self.size().width() * self.size().height()) as nat,
            |i: int| composite(layer.sample(pixel_projection(self.size(), i))@, self.background()@),
        )
    }

    /// The bytes that rendering `layer` on this canvas gives.
    pub open spec fn rendered<T: Layer>(self, layer: T) -> Seq<u8> {
        pixmap(self.size().width() as nat, self.size().height() as nat, self.pixels(layer))
    }

    pub fn new(background: Color, s: Size) -> (c: Canvas)
        ensures
            c.background() == background,
            c.size() == s,
    {
        Canvas { background, size: s }
    }

    /// Samples `layer` once per pixel and composites each sample over the
    /// background. The result is in row-major order.
    pub fn paint<T: Layer>(&self, layer: &T) -> (pixels: Vec<Color>)
        requires
            self.size().width() * self.size().height() <= usize::MAX,
        ensures
            pixels@.map_values(|c: Color| c@) == self.pixels(*layer),
    {
        let w = self.size.get_width();
        let h = self.size.get_height();
        let total: usize = (w as usize) * (h as usize);
        let mut out: Vec<Color> = Vec::new();
        let mut i: usize = 0;
        while i < total
            invariant
                i <= total,
                total == w * h,
                w == self.size().width(),
                h == self.size().height(),
                out@.len() == i,
                forall|k: int| 0 <= k < i ==> #[trigger] out@[k]@ == self.pixels(*layer)[k],
            decreases total - i,
        {
            let x = i % (w as usize);
            let y = i / (w as usize);
            proof {
                let (ii, ww, hh) = (i as int, w as int, h as int);
                assert(ii / ww < hh) by (nonlinear_arith)
                    requires 0 <= ii < ww * hh, ww > 0;
            }
            let projection = Projection::new(&self.size, Position::new(x as u32, y as u32));
            let sample = layer.draw(projection);
            out.push(sample.over(self.background));
            i = i + 1;
        }
        assert(out@.map_values(|c: Color| c@) =~= self.pixels(*layer));
        out
    }

    /// The plain-text PPM pixmap of `layer` drawn over this canvas's background.
    pub fn render<T: Layer>(&self, layer: T) -> (bytes: Vec<u8>)
        requires
            self.size().width() * self.size().height() <= usize::MAX,
        ensures
            bytes@ == self.rendered(layer),
    {
        let pixels = self.paint(&layer);
        encode(&self.size, &pixels)
    }
}

/// Rendering depends on the layer's samples alone: two layers that agree
/// at every projection give byte-identical output, and so does the same
/// layer rendered twice.
pub proof fn lemma_render_deterministic<A: Layer, B: Layer>(canvas: Canvas, a: A, b: B)
    requires
        forall|p: Projection| #[trigger] a.sample(p) == b.sample(p),
    ensures
        canvas.rendered(a) == canvas.rendered(b),
{
    assert(canvas.pixels(a) =~= canvas.pixels(b));
}

} // verus!
