use vstd::prelude::*;
use crate::rng::{draw_in_range, seeded_rng};

verus! {

/// Number of degrees in a full turn.
pub const FULL_TURN: u32 = 360;

/// Radius of the drawn disc; the disc is centred at `(RADIUS, RADIUS)`.
pub const RADIUS: u32 = 50;

/// One angle-guessing challenge.
///
/// The two rays leave the centre of the disc at `offset` and at
/// `offset + true_angle` degrees; their end points lie on the circle of radius
/// `RADIUS`.
#[derive(Clone, Copy, Debug, PartialEq, Eq, Structural)]
pub struct Round {
    pub index: u32,
    /// The angle between the two rays, in whole degrees: what is to be guessed.
    pub true_angle: u32,
    /// The direction of the first ray, in whole degrees.
    pub offset: u32,
}

impl Round {
    pub open spec fn wf(&self) -> bool {
        self.index < 3 && self.true_angle < FULL_TURN && self.offset < FULL_TURN
    }
}

/// Generates round `index` from `seed`: the angle is drawn first, the offset
/// of the first ray second, both uniformly from `0..360`.
pub fn generate(seed: u64, index: u32) -> (r: Round)
    requires
        index < 3,
    ensures
        r.wf(),
        r.index == index,
{
    let mut rng = seeded_rng(seed);
    let true_angle = draw_in_range(&mut rng, 0, FULL_TURN);
    let offset = draw_in_range(&mut rng, 0, FULL_TURN);
    Round { index, true_angle, offset }
}

/// How a shape is filled.
#[derive(Clone, Copy, Debug, PartialEq, Eq, Structural)]
pub enum Paint {
    /// The surface's default fill.
    Plain,
    Red,
    Black,
}

/// One drawing primitive of a round's picture, centred on the disc's centre.
#[derive(Clone, Copy, Debug, PartialEq, Eq, Structural)]
pub enum Shape {
    /// A full disc.
    Disc { radius: u32, paint: Paint },
    /// A disc clipped to the triangle (centre, first ray's end, second ray's end).
    ClippedDisc { radius: u32, paint: Paint },
    /// The triangle (centre, first ray's end, second ray's end).
    Triangle { paint: Paint },
    /// A segment from the centre to the end of the first (`second == false`) or second ray.
    Ray { second: bool },
}

/// The picture of a round, drawn in order.  Below 180 degrees the red wedge is
/// the inner disc clipped to the rays' triangle; from 180 on the whole inner
/// disc is red and the triangle is painted over it, so that the coloured part
/// stays the side of the true angle.
pub open spec fn drawing_plan_spec(true_angle: u32) -> Seq<Shape> {
    if true_angle < 180 {
        seq![
            Shape::Disc { radius: 50, paint: Paint::Plain },
            Shape::ClippedDisc { radius: 25, paint: Paint::Red },
            Shape::Disc { radius: 24, paint: Paint::Black },
            Shape::Ray { second: false },
            Shape::Ray { second: true },
        ]
    } else {
        seq![
            Shape::Disc { radius: 50, paint: Paint::Plain },
            Shape::Disc { radius: 25, paint: Paint::Red },
            Shape::Disc { radius: 24, paint: Paint::Black },
            Shape::Triangle { paint: Paint::Black },
            Shape::Ray { second: false },
            Shape::Ray { second: true },
        ]
    }
}

/// The drawing primitives of a round whose angle is `true_angle`.
pub fn drawing_plan(true_angle: u32) -> (r: Vec<Shape>)
    ensures
        r@ == drawing_plan_spec(true_angle),
{
    let wedge: u32 = RADIUS / 2;
    let mut shapes: Vec<Shape> = Vec::new();
    shapes.push(Shape::Disc { radius: RADIUS, paint: Paint::Plain });
    if true_angle < FULL_TURN / 2 {
        shapes.push(Shape::ClippedDisc { radius: wedge, paint: Paint::Red });
        shapes.push(Shape::Disc { radius: wedge - 1, paint: Paint::Black });
    } else {
        shapes.push(Shape::Disc { radius: wedge, paint: Paint::Red });
        shapes.push(Shape::Disc { radius: wedge - 1, paint: Paint::Black });
        shapes.push(Shape::Triangle { paint: Paint::Black });
    }
    shapes.push(Shape::Ray { second: false });
    shapes.push(Shape::Ray { second: true });
    assert(shapes@ =~= drawing_plan_spec(true_angle));
    shapes
}

} // verus!
