//! The banner canvas: a frame extended by a strip of solid background.

use vstd::prelude::*;
use crate::frame::{FrameView, RawScreenshot};
use crate::style::{Color, Position};

verus! {

/// `count` pixels of one colour.
pub open spec fn solid(count: nat, color: Color) -> Seq<u8>
    decreases count,
{
    if count == 0 {
        Seq::empty()
    } else {
        solid((count - 1) as nat, color) + color.bytes()
    }
}

/// The frame `f` with a strip of `strip` rows of `color` above it
/// (`Position::Top`) or below it (`Position::Bottom`).
pub open spec fn banner_canvas(f: FrameView, strip: nat, color: Color, position: Position) -> FrameView {
    FrameView {
        pixels: match position {
            Position::Top => solid(f.width * strip, color) + f.pixels,
            Position::Bottom => f.pixels + solid(f.width * strip, color),
        },
        width: f.width,
        height: f.height + strip,
    }
}

/// The extended height fits in 32 bits and the extended buffer in memory.
pub open spec fn canvas_fits(f: FrameView, strip: nat) -> bool {
    &&& f.height + strip <= u32::MAX
    &&& f.width * (f.height + strip) * 4 <= usize::MAX
}

/// First row of the strip inside the canvas.
pub open spec fn strip_top(f: FrameView, position: Position) -> int {
    match position {
        Position::Top => 0,
        Position::Bottom => f.height as int,
    }
}

/// First row of the image inside the canvas.
pub open spec fn image_top(strip: nat, position: Position) -> int {
    match position {
        Position::Top => strip as int,
        Position::Bottom => 0,
    }
}

/// `solid` holds four bytes per pixel, each pixel the colour's four bytes.
pub proof fn lemma_solid(count: nat, color: Color)
    ensures
        solid(count, color).len() == count * 4,
        forall|p: int, c: int|
            0 <= p < count && 0 <= c < 4 ==> #[trigger] solid(count, color)[p * 4 + c]
                == color.bytes()[c],
    decreases count,
{
    if count > 0 {
        lemma_solid((count - 1) as nat, color);
        let head = solid((count - 1) as nat, color);
        assert forall|p: int, c: int| 0 <= p < count && 0 <= c < 4 implies #[trigger] solid(
            count,
            color,
        )[p * 4 + c] == color.bytes()[c] by {
            if p < count - 1 {
                assert((head + color.bytes())[p * 4 + c] == head[p * 4 + c]);
            } else {
                assert((head + color.bytes())[p * 4 + c] == color.bytes()[c]);
            }
        }
    }
}

/// Adding a banner leaves the width unchanged and adds exactly the strip to
/// the height, wherever the banner sits.
pub proof fn banner_grows_height_only(f: FrameView, strip: nat, color: Color, position: Position)
    requires
        f.well_formed(),
    ensures
        banner_canvas(f, strip, color, position).width == f.width,
        banner_canvas(f, strip, color, position).height == f.height + strip,
        banner_canvas(f, strip, color, position).well_formed(),
{
    lemma_solid(f.width * strip, color);
    assert(f.width * (f.height + strip) * 4 == f.width * f.height * 4 + f.width * strip * 4)
        by (nonlinear_arith);
}

/// Inside the canvas every pixel of the strip has the banner colour.
pub proof fn banner_strip_is_solid(
    f: FrameView,
    strip: nat,
    color: Color,
    position: Position,
    x: int,
    y: int,
    c: int,
)
    requires
        f.well_formed(),
        0 <= x < f.width,
        0 <= y < strip,
        0 <= c < 4,
    ensures
        banner_canvas(f, strip, color, position).channel(x, strip_top(f, position) + y, c)
            == color.bytes()[c],
{
    let canvas = banner_canvas(f, strip, color, position);
    let count = f.width * strip;
    lemma_solid(count, color);
    let p = y * f.width + x;
    assert(0 <= p < count) by (nonlinear_arith)
        requires
            p == y * f.width + x,
            count == f.width * strip,
            0 <= x < f.width,
            0 <= y < strip,
    ;
    assert(solid(count, color)[p * 4 + c] == color.bytes()[c]);
    match position {
        Position::Top => {
            assert(canvas.offset(x, y, c) == p * 4 + c);
        },
        Position::Bottom => {
            assert(canvas.offset(x, f.height + y, c) == f.width * f.height * 4 + (p * 4 + c))
                by (nonlinear_arith)
                requires
                    canvas.offset(x, f.height + y, c) == ((f.height + y) * f.width + x) * 4 + c,
                    p == y * f.width + x,
            ;
            assert(canvas.pixels[f.pixels.len() + (p * 4 + c)] == solid(count, color)[p * 4 + c]);
        },
    }
}

/// Inside the canvas the image keeps every pixel, moved down by the strip
/// where the banner sits on top.
pub proof fn banner_keeps_image(
    f: FrameView,
    strip: nat,
    color: Color,
    position: Position,
    x: int,
    y: int,
    c: int,
)
    requires
        f.well_formed(),
        0 <= x < f.width,
        0 <= y < f.height,
        0 <= c < 4,
    ensures
        banner_canvas(f, strip, color, position).channel(x, image_top(strip, position) + y, c)
            == f.channel(x, y, c),
{
    let canvas = banner_canvas(f, strip, color, position);
    let count = f.width * strip;
    lemma_solid(count, color);
    let p = y * f.width + x;
    assert(0 <= p < f.width * f.height) by (nonlinear_arith)
        requires
            p == y * f.width + x,
            0 <= x < f.width,
            0 <= y < f.height,
    ;
    match position {
        Position::Top => {
            assert(canvas.offset(x, strip + y, c) == count * 4 + (p * 4 + c)) by (nonlinear_arith)
                requires
                    canvas.offset(x, strip + y, c) == ((strip + y) * f.width + x) * 4 + c,
                    p == y * f.width + x,
                    count == f.width * strip,
            ;
            assert(canvas.pixels[count * 4 + (p * 4 + c)] == f.pixels[p * 4 + c]);
        },
        Position::Bottom => {
            assert(canvas.pixels[p * 4 + c] == f.pixels[p * 4 + c]);
        },
    }
}

/// Appends `count` pixels of one colour.
fn push_solid(out: &mut Vec<u8>, count: usize, color: Color)
    ensures
        final(out)@ == old(out)@ + solid(count as nat, color),
{
    let mut i: usize = 0;
    while i < count
        invariant
            i <= count,
            out@ == old(out)@ + solid(i as nat, color),
        decreases count - i,
    {
        out.push(color.red);
        out.push(color.green);
        out.push(color.blue);
        out.push(color.alpha);
        i += 1;
        assert(out@ == old(out)@ + (solid((i - 1) as nat, color) + color.bytes()));
    }
}

/// Appends a copy of `src`.
fn push_bytes(out: &mut Vec<u8>, src: &Vec<u8>)
    ensures
        final(out)@ == old(out)@ + src@,
{
    let mut i: usize = 0;
    while i < src.len()
        invariant
            i <= src@.len(),
            out@ == old(out)@ + src@.subrange(0, i as int),
        decreases src@.len() - i,
    {
        out.push(src[i]);
        i += 1;
        assert(src@.subrange(0, i as int) == src@.subrange(0, i - 1).push(src@[i - 1]));
    }
    assert(src@.subrange(0, src@.len() as int) == src@);
}

/// Decides `canvas_fits`.
pub fn canvas_is_representable(frame: &RawScreenshot, strip: u32) -> (r: bool)
    ensures
        r == canvas_fits(frame@, strip as nat),
{
    let height: u64 = frame.height as u64 + strip as u64;
    if height > u32::MAX as u64 {
        return false;
    }
    assert(0 <= frame.width as int * height as int * 4 <= u128::MAX) by (nonlinear_arith)
        requires
            frame.width <= u32::MAX,
            height <= u32::MAX,
    ;
    assert(0 <= frame.width as int * height as int <= u128::MAX) by (nonlinear_arith)
        requires
            frame.width <= u32::MAX,
            height <= u32::MAX,
    ;
    let bytes: u128 = frame.width as u128 * height as u128 * 4;
    bytes <= usize::MAX as u128
}

/// Builds the banner canvas of a frame: a new frame, taller by `strip`
/// rows, that holds the image and a strip of `color` above or below it.
/// `None` where the canvas would not fit.
pub fn add_banner(frame: &RawScreenshot, strip: u32, color: Color, position: Position) -> (r: Option<
    RawScreenshot,
>)
    requires
        frame.well_formed(),
    ensures
        r is Some <==> canvas_fits(frame@, strip as nat),
        r is Some ==> r.unwrap()@ == banner_canvas(frame@, strip as nat, color, position),
        r is Some ==> r.unwrap().well_formed(),
{
    if !canvas_is_representable(frame, strip) {
        return None;
    }
    proof {
        banner_grows_height_only(frame@, strip as nat, color, position);
        assert(0 <= frame.width as int * strip as int <= frame.width as int * (frame.height
            + strip) * 4) by (nonlinear_arith)
            requires
                0 <= frame.width,
                0 <= frame.height,
                0 <= strip,
        ;
    }
    let count: usize = frame.width as usize * strip as usize;
    let mut out: Vec<u8> = Vec::new();
    match position {
        Position::Top => {
            push_solid(&mut out, count, color);
            push_bytes(&mut out, &frame.data);
        },
        Position::Bottom => {
            push_bytes(&mut out, &frame.data);
            push_solid(&mut out, count, color);
        },
    }
    Some(RawScreenshot { data: out, width: frame.width, height: frame.height + strip })
}

} // verus!
