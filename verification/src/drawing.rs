//! Lines and rectangles, as the pixels that make them up.

use vstd::prelude::*;
use crate::driver::RA8835A;

verus! {

/// Distance between two coordinates on one axis.
pub open spec fn span(from: u16, to: u16) -> int {
    if from <= to {
        to - from
    } else {
        from - to
    }
}

/// The step that leads from `from` towards `to` on one axis.
pub open spec fn direction(from: u16, to: u16) -> int {
    if from < to {
        1
    } else {
        -1
    }
}

/// `at` lies between `from` and `to`, whichever of them is the larger.
pub open spec fn between(from: u16, at: u16, to: u16) -> bool {
    if from <= to {
        from <= at <= to
    } else {
        to <= at <= from
    }
}

/// The error term of the line from `(x0, y0)` to `(x1, y1)` at the pixel
/// `at`: the sum of both deltas, the negative vertical delta added once
/// for each step made along x and the horizontal delta once for each step
/// made along y.
pub open spec fn line_error(x0: u16, y0: u16, x1: u16, y1: u16, at: (u16, u16)) -> int {
    (span(y0, at.1) + 1) * span(x0, x1) - (span(x0, at.0) + 1) * span(y0, y1)
}

/// The pixel that follows `at` on the line from `(x0, y0)` to `(x1, y1)`:
/// with twice the error term at `at`, one step along x if that is at
/// least the negative vertical delta, and one step along y if it is at
/// most the horizontal delta.
pub open spec fn line_step(x0: u16, y0: u16, x1: u16, y1: u16, at: (u16, u16)) -> (int, int) {
    let doubled = 2 * line_error(x0, y0, x1, y1, at);
    (
        if doubled >= -span(y0, y1) {
            at.0 + direction(x0, x1)
        } else {
            at.0 as int
        },
        if doubled <= span(x0, x1) {
            at.1 + direction(y0, y1)
        } else {
            at.1 as int
        },
    )
}

/// `pixels` is the line from `(x0, y0)` to `(x1, y1)`: it begins at the
/// first endpoint, each pixel short of the last is followed by its step,
/// and the second endpoint occurs at the end and nowhere before.
pub open spec fn is_line(pixels: Seq<(u16, u16)>, x0: u16, y0: u16, x1: u16, y1: u16) -> bool {
    &&& pixels.len() >= 1
    &&& pixels[0] == (x0, y0)
    &&& pixels[pixels.len() - 1] == (x1, y1)
    &&& forall|k: int|
        0 <= k < pixels.len() - 1 ==> {
            &&& #[trigger] pixels[k] != (x1, y1)
            &&& line_step(x0, y0, x1, y1, pixels[k]) == (
                pixels[k + 1].0 as int,
                pixels[k + 1].1 as int,
            )
        }
}

/// The pixels `(left, y)` to `(right, y)`, from left to right.
pub open spec fn row_pixels(left: u16, right: u16, y: u16) -> Seq<(u16, u16)> {
    Seq::new((right - left + 1) as nat, |k: int| ((left + k) as u16, y))
}

/// The pixels of the column `x` strictly between the rows `top` and
/// `bottom`, from top to bottom.
pub open spec fn column_pixels(x: u16, top: u16, bottom: u16) -> Seq<(u16, u16)> {
    Seq::new(
        if bottom - top >= 1 {
            (bottom - top - 1) as nat
        } else {
            0
        },
        |k: int| (x, (top + 1 + k) as u16),
    )
}

/// The outline of the rectangle with the corners `(left, top)` and
/// `(right, bottom)`: the top edge, the bottom edge if it is another row,
/// then between them the left edge, and the right edge if it is another
/// column.
pub open spec fn outline_pixels(left: u16, top: u16, right: u16, bottom: u16) -> Seq<(u16, u16)> {
    row_pixels(left, right, top) + (if top < bottom {
        row_pixels(left, right, bottom)
    } else {
        Seq::empty()
    }) + column_pixels(left, top, bottom) + (if left < right {
        column_pixels(right, top, bottom)
    } else {
        Seq::empty()
    })
}

/// The smaller of two coordinates.
pub open spec fn lower(a: u16, b: u16) -> u16 {
    if a <= b {
        a
    } else {
        b
    }
}

/// The larger of two coordinates.
pub open spec fn upper(a: u16, b: u16) -> u16 {
    if a <= b {
        b
    } else {
        a
    }
}

/// The outline of the rectangle between two opposite corners, whichever
/// two they are.
pub open spec fn rectangle_pixels(x0: u16, y0: u16, x1: u16, y1: u16) -> Seq<(u16, u16)> {
    outline_pixels(lower(x0, x1), lower(y0, y1), upper(x0, x1), upper(y0, y1))
}

/// Along a line no coordinate ever steps back: from one pixel to the next
/// each coordinate either stays or moves one step towards the endpoint,
/// and at least one of them moves.
pub proof fn lemma_line_monotonic(pixels: Seq<(u16, u16)>, x0: u16, y0: u16, x1: u16, y1: u16)
    requires
        is_line(pixels, x0, y0, x1, y1),
    ensures
        forall|k: int|
            0 <= k < pixels.len() - 1 ==> {
                &&& (#[trigger] pixels[k + 1]).0 == pixels[k].0 || pixels[k + 1].0 == pixels[k].0
                    + direction(x0, x1)
                &&& pixels[k + 1].1 == pixels[k].1 || pixels[k + 1].1 == pixels[k].1 + direction(
                    y0,
                    y1,
                )
                &&& pixels[k + 1] != pixels[k]
            },
{
    assert forall|k: int| 0 <= k < pixels.len() - 1 implies {
        &&& (#[trigger] pixels[k + 1]).0 == pixels[k].0 || pixels[k + 1].0 == pixels[k].0
            + direction(x0, x1)
        &&& pixels[k + 1].1 == pixels[k].1 || pixels[k + 1].1 == pixels[k].1 + direction(y0, y1)
        &&& pixels[k + 1] != pixels[k]
    } by {
        let at = pixels[k];
        assert(at != (x1, y1));
        assert(line_step(x0, y0, x1, y1, at) == (pixels[k + 1].0 as int, pixels[k + 1].1 as int));
    }
}

/// The coordinate `steps` steps from `from` towards `to`.
pub open spec fn stepped(from: u16, to: u16, steps: int) -> int {
    if from < to {
        from + steps
    } else {
        from - steps
    }
}

/// A line whose deltas are equal runs along the diagonal: it has one
/// pixel for each column that it crosses, and its pixel number `k` lies
/// `k` steps from the first endpoint on both axes.
pub proof fn lemma_line_of_slope_one(pixels: Seq<(u16, u16)>, x0: u16, y0: u16, x1: u16, y1: u16)
    requires
        is_line(pixels, x0, y0, x1, y1),
        span(x0, x1) == span(y0, y1),
    ensures
        pixels.len() == span(x0, x1) + 1,
        forall|k: int|
            0 <= k < pixels.len() ==> (#[trigger] pixels[k]).0 == stepped(x0, x1, k) && pixels[k].1
                == stepped(y0, y1, k),
{
    assert forall|k: int| 0 <= k < pixels.len() implies (#[trigger] pixels[k]).0 == stepped(
        x0,
        x1,
        k,
    ) && pixels[k].1 == stepped(y0, y1, k) by {
        lemma_diagonal_pixel(pixels, x0, y0, x1, y1, k as nat);
    }
    lemma_diagonal_pixel(pixels, x0, y0, x1, y1, (pixels.len() - 1) as nat);
}

/// Pixel number `k` of a line whose deltas are equal lies `k` steps from
/// the first endpoint on both axes, and no further than the second.
proof fn lemma_diagonal_pixel(
    pixels: Seq<(u16, u16)>,
    x0: u16,
    y0: u16,
    x1: u16,
    y1: u16,
    k: nat,
)
    requires
        is_line(pixels, x0, y0, x1, y1),
        span(x0, x1) == span(y0, y1),
        k < pixels.len(),
    ensures
        pixels[k as int].0 == stepped(x0, x1, k as int),
        pixels[k as int].1 == stepped(y0, y1, k as int),
        k <= span(x0, x1),
    decreases k,
{
    if k > 0 {
        let before = k - 1;
        lemma_diagonal_pixel(pixels, x0, y0, x1, y1, before as nat);
        let at = pixels[before];
        assert(at != (x1, y1));
        assert(span(x0, at.0) == before);
        assert(span(y0, at.1) == before);
        assert(line_error(x0, y0, x1, y1, at) == 0);
        assert(line_step(x0, y0, x1, y1, at) == (
            pixels[before + 1].0 as int,
            pixels[before + 1].1 as int,
        ));
    }
}

/// The outline of a rectangle holds its four corners and no pixel twice.
pub proof fn lemma_rectangle_plots_once(x0: u16, y0: u16, x1: u16, y1: u16)
    ensures
        rectangle_pixels(x0, y0, x1, y1).contains((x0, y0)),
        rectangle_pixels(x0, y0, x1, y1).contains((x0, y1)),
        rectangle_pixels(x0, y0, x1, y1).contains((x1, y0)),
        rectangle_pixels(x0, y0, x1, y1).contains((x1, y1)),
        forall|i: int, j: int|
            0 <= i < j < rectangle_pixels(x0, y0, x1, y1).len() ==> rectangle_pixels(
                x0,
                y0,
                x1,
                y1,
            )[i] != rectangle_pixels(x0, y0, x1, y1)[j],
{
    let left = lower(x0, x1);
    let right = upper(x0, x1);
    let top = lower(y0, y1);
    let bottom = upper(y0, y1);
    let outline = rectangle_pixels(x0, y0, x1, y1);
    let width = right - left + 1;
    let second = if top < bottom {
        width
    } else {
        0
    };
    let inner = if bottom - top >= 1 {
        bottom - top - 1
    } else {
        0
    };
    let fourth = if left < right {
        inner
    } else {
        0
    };
    assert(row_pixels(left, right, top).len() == width);
    assert(column_pixels(left, top, bottom).len() == inner);
    assert(outline.len() == width + second + inner + fourth);
    assert forall|i: int| 0 <= i < outline.len() implies #[trigger] outline[i] == (if i < width {
        ((left + i) as u16, top)
    } else if i < width + second {
        ((left + i - width) as u16, bottom)
    } else if i < width + second + inner {
        (left, (top + 1 + i - width - second) as u16)
    } else {
        (right, (top + 1 + i - width - second - inner) as u16)
    }) by {}
    assert(outline[0] == (left, top));
    assert(outline[width - 1] == (right, top));
    if top < bottom {
        assert(outline[width] == (left, bottom));
        assert(outline[2 * width - 1] == (right, bottom));
    }
}

/// What the error term is at the edges of a line's bounding box, how far
/// it can grow, and how one step changes it. `a` and `b` are the deltas,
/// `i` and `j` the steps made so far along x and y.
proof fn lemma_error_term(a: int, b: int, i: int, j: int)
    requires
        0 <= i <= a <= 0xFFFF,
        0 <= j <= b <= 0xFFFF,
    ensures
        i == a && j < b ==> 2 * ((j + 1) * a - (i + 1) * b) < -b,
        j == b && i < a ==> 2 * ((j + 1) * a - (i + 1) * b) > a,
        (j + 1) * a - (i + 2) * b == (j + 1) * a - (i + 1) * b - b,
        (j + 2) * a - (i + 1) * b == (j + 1) * a - (i + 1) * b + a,
        (j + 2) * a - (i + 2) * b == (j + 1) * a - (i + 1) * b + a - b,
        -0x1_0000_0000 <= (j + 1) * a - (i + 1) * b <= 0x1_0000_0000,
{
    assert((j + 1) * a == j * a + a) by (nonlinear_arith);
    assert((j + 2) * a == j * a + a + a) by (nonlinear_arith);
    assert((i + 1) * b == i * b + b) by (nonlinear_arith);
    assert((i + 2) * b == i * b + b + b) by (nonlinear_arith);
    assert(0 <= j * a <= b * a) by (nonlinear_arith)
        requires
            0 <= j <= b,
            0 <= a,
    ;
    assert(0 <= i * b <= a * b) by (nonlinear_arith)
        requires
            0 <= i <= a,
            0 <= b,
    ;
    assert(a * b == b * a) by (nonlinear_arith);
    assert(a * b <= 0xFFFF * 0xFFFF) by (nonlinear_arith)
        requires
            0 <= a <= 0xFFFF,
            0 <= b <= 0xFFFF,
    ;
    if i == a && j < b {
        assert(j * a + a <= b * a) by (nonlinear_arith)
            requires
                0 <= j < b,
                0 <= a,
        ;
        assert(i * b == a * b);
    }
    if j == b && i < a {
        assert(i * b + b <= a * b) by (nonlinear_arith)
            requires
                0 <= i < a,
                0 <= b,
        ;
        assert(j * a == b * a);
    }
}

impl RA8835A {
    /// The pixels of the straight line from `(x0, y0)` to `(x1, y1)`, in
    /// the order in which they are drawn, both endpoints included. No
    /// pixel lies outside the box that the endpoints span.
    pub fn draw_line(&self, x0: u16, y0: u16, x1: u16, y1: u16) -> (pixels: Vec<(u16, u16)>)
        ensures
            is_line(pixels@, x0, y0, x1, y1),
            forall|k: int|
                0 <= k < pixels@.len() ==> between(x0, (#[trigger] pixels@[k]).0, x1) && between(
                    y0,
                    pixels@[k].1,
                    y1,
                ),
    {
        let dx: i64 = if x0 <= x1 {
            (x1 - x0) as i64
        } else {
            (x0 - x1) as i64
        };
        let dy: i64 = if y0 <= y1 {
            -((y1 - y0) as i64)
        } else {
            -((y0 - y1) as i64)
        };
        let mut x: u16 = x0;
        let mut y: u16 = y0;
        let mut err: i64 = dx + dy;
        let mut pixels: Vec<(u16, u16)> = Vec::new();
        pixels.push((x, y));
        proof {
            lemma_error_term(dx as int, -dy as int, 0, 0);
        }
        while x != x1 || y != y1
            invariant
                dx == span(x0, x1),
                dy == -span(y0, y1),
                between(x0, x, x1),
                between(y0, y, y1),
                err == line_error(x0, y0, x1, y1, (x, y)),
                pixels@.len() >= 1,
                pixels@[0] == (x0, y0),
                pixels@[pixels@.len() - 1] == (x, y),
                forall|k: int|
                    0 <= k < pixels@.len() - 1 ==> {
                        &&& #[trigger] pixels@[k] != (x1, y1)
                        &&& line_step(x0, y0, x1, y1, pixels@[k]) == (
                            pixels@[k + 1].0 as int,
                            pixels@[k + 1].1 as int,
                        )
                    },
                forall|k: int|
                    0 <= k < pixels@.len() ==> between(x0, (#[trigger] pixels@[k]).0, x1)
                        && between(y0, pixels@[k].1, y1),
            decreases span(x, x1) + span(y, y1),
        {
            let ghost before = pixels@;
            let ghost at = (x, y);
            proof {
                lemma_error_term(dx as int, -dy as int, span(x0, x), span(y0, y));
            }
            let doubled: i64 = 2 * err;
            if doubled >= dy {
                err = err + dy;
                if x0 < x1 {
                    x = x + 1;
                } else {
                    x = x - 1;
                }
            }
            if doubled <= dx {
                err = err + dx;
                if y0 < y1 {
                    y = y + 1;
                } else {
                    y = y - 1;
                }
            }
            pixels.push((x, y));
            proof {
                assert(line_step(x0, y0, x1, y1, at) == (x as int, y as int));
                assert forall|k: int| 0 <= k < pixels@.len() - 1 implies {
                    &&& #[trigger] pixels@[k] != (x1, y1)
                    &&& line_step(x0, y0, x1, y1, pixels@[k]) == (
                        pixels@[k + 1].0 as int,
                        pixels@[k + 1].1 as int,
                    )
                } by {
                    if k < before.len() - 1 {
                        assert(pixels@[k] == before[k]);
                        assert(pixels@[k + 1] == before[k + 1]);
                    } else {
                        assert(pixels@[k] == at);
                    }
                }
                assert forall|k: int| 0 <= k < pixels@.len() implies between(
                    x0,
                    (#[trigger] pixels@[k]).0,
                    x1,
                ) && between(y0, pixels@[k].1, y1) by {
                    if k < before.len() {
                        assert(pixels@[k] == before[k]);
                    }
                }
            }
        }
        pixels
    }

    /// The pixels of the outline of the rectangle between the corners
    /// `(x0, y0)` and `(x1, y1)`, in the order in which they are drawn:
    /// the two horizontal edges over their whole width, then of the two
    /// vertical edges what lies between them.
    pub fn draw_rectangle(&self, x0: u16, y0: u16, x1: u16, y1: u16) -> (pixels: Vec<(u16, u16)>)
        ensures
            pixels@ == rectangle_pixels(x0, y0, x1, y1),
    {
        let left: u16 = if x0 <= x1 {
            x0
        } else {
            x1
        };
        let right: u16 = if x0 <= x1 {
            x1
        } else {
            x0
        };
        let top: u16 = if y0 <= y1 {
            y0
        } else {
            y1
        };
        let bottom: u16 = if y0 <= y1 {
            y1
        } else {
            y0
        };
        let mut pixels: Vec<(u16, u16)> = Vec::new();
        push_row(&mut pixels, left, right, top);
        if top < bottom {
            push_row(&mut pixels, left, right, bottom);
        }
        push_column(&mut pixels, left, top, bottom);
        if left < right {
            push_column(&mut pixels, right, top, bottom);
        }
        assert(pixels@ =~= rectangle_pixels(x0, y0, x1, y1));
        pixels
    }
}

/// Appends the pixels `(left, y)` to `(right, y)` to `pixels`.
fn push_row(pixels: &mut Vec<(u16, u16)>, left: u16, right: u16, y: u16)
    requires
        left <= right,
    ensures
        final(pixels)@ == old(pixels)@ + row_pixels(left, right, y),
{
    let ghost head = pixels@;
    let width: u32 = (right - left) as u32 + 1;
    let mut done: u32 = 0;
    while done < width
        invariant
            left <= right,
            width == right - left + 1,
            done <= width,
            pixels@ == head + Seq::new(done as nat, |k: int| ((left + k) as u16, y)),
        decreases width - done,
    {
        let x: u16 = (left as u32 + done) as u16;
        pixels.push((x, y));
        done = done + 1;
        assert(pixels@ =~= head + Seq::new(done as nat, |k: int| ((left + k) as u16, y)));
    }
    assert(pixels@ =~= head + row_pixels(left, right, y));
}

/// Appends to `pixels` the pixels of the column `x` strictly between
/// the rows `top` and `bottom`.
fn push_column(pixels: &mut Vec<(u16, u16)>, x: u16, top: u16, bottom: u16)
    requires
        top <= bottom,
    ensures
        final(pixels)@ == old(pixels)@ + column_pixels(x, top, bottom),
{
    let ghost head = pixels@;
    let height: u32 = if bottom - top >= 1 {
        (bottom - top - 1) as u32
    } else {
        0
    };
    let mut done: u32 = 0;
    while done < height
        invariant
            top <= bottom,
            height == if bottom - top >= 1 {
                bottom - top - 1
            } else {
                0
            },
            done <= height,
            pixels@ == head + Seq::new(done as nat, |k: int| (x, (top + 1 + k) as u16)),
        decreases height - done,
    {
        let y: u16 = (top as u32 + 1 + done) as u16;
        pixels.push((x, y));
        done = done + 1;
        assert(pixels@ =~= head + Seq::new(done as nat, |k: int| (x, (top + 1 + k) as u16)));
    }
    assert(pixels@ =~= head + column_pixels(x, top, bottom));
}

} // verus!
