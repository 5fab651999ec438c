use vstd::prelude::*;
use crate::figures::{Circle, Figure, FigureType, Rectangle, Shape};

verus! {

/// Relies on `rand::Rng::random_ratio` on the thread-local generator: true
/// with probability `numerator / denominator`, always true when the two are
/// equal, never when `numerator` is zero. It panics when `denominator` is zero
/// or smaller than `numerator`.
#[verifier::external_body]
fn draw_ratio(numerator: u32, denominator: u32) -> (r: bool)
    requires
        0 < denominator,
        numerator <= denominator,
    ensures
        numerator == denominator ==> r,
        numerator == 0 ==> !r,
{
    rand::Rng::random_ratio(&mut rand::rng(), numerator, denominator)
}

/// `value` is one that `draw` may return.
pub open spec fn drawn_by<F: Fn() -> u32>(draw: F, value: u32) -> bool {
    call_ensures(draw, (), value)
}

/// Every dimension of `s` is one that `draw` may return.
pub open spec fn built_from<F: Fn() -> u32>(s: Shape, draw: F) -> bool {
    match s {
        Shape::Circle(c) => drawn_by(draw, c.spec_radius()),
        Shape::Rectangle(r) => drawn_by(draw, r.spec_width()) && drawn_by(draw, r.spec_height()),
    }
}

/// Produces random figures. A figure is a circle with probability
/// `numerator / denominator` (the split ratio), a rectangle otherwise.
/// Dimensions come from a draw that the caller passes in, returning `f32`
/// bit patterns.
pub struct GeometricFigureProducer {
    numerator: u32,
    denominator: u32,
}

impl GeometricFigureProducer {
    #[verifier::type_invariant]
    spec fn inv(&self) -> bool {
        0 < self.denominator && self.numerator <= self.denominator
    }

    /// The split ratio, as numerator and denominator.
    pub closed spec fn split_ratio(&self) -> (u32, u32) {
        (self.numerator, self.denominator)
    }

    /// A producer whose figures are circles half of the time.
    pub fn new() -> (r: Self)
        ensures
            r.split_ratio() == (1u32, 2u32),
    {
        GeometricFigureProducer { numerator: 1, denominator: 2 }
    }

    /// A producer with split ratio `numerator / denominator`; none where that
    /// is not a probability.
    pub fn with_split_ratio(numerator: u32, denominator: u32) -> (r: Option<Self>)
        ensures
            r is Some <==> 0 < denominator && numerator <= denominator,
            r matches Some(p) ==> p.split_ratio() == (numerator, denominator),
    {
        if 0 < denominator && numerator <= denominator {
            Some(GeometricFigureProducer { numerator, denominator })
        } else {
            None
        }
    }

    /// One figure: a circle after a successful trial of the split ratio, a
    /// rectangle otherwise.
    pub fn build_random_figure<F: Fn() -> u32>(&self, draw: &F) -> (r: Shape)
        requires
            call_requires(*draw, ()),
        ensures
            built_from(r, *draw),
            self.split_ratio().0 == 0 ==> r.kind() == FigureType::Rectangle,
            self.split_ratio().0 == self.split_ratio().1 ==> r.kind() == FigureType::Circle,
    {
        proof {
            use_type_invariant(self);
        }
        if draw_ratio(self.numerator, self.denominator) {
            Shape::Circle(build_random_circle(draw))
        } else {
            Shape::Rectangle(build_random_rectangle(draw))
        }
    }

    /// `amount` figures, each built as `build_random_figure` builds one, in
    /// the order they were drawn.
    pub fn produce<F: Fn() -> u32>(&self, amount: u32, draw: &F) -> (r: Vec<Shape>)
        requires
            call_requires(*draw, ()),
        ensures
            r.len() == amount,
            forall|i: int| 0 <= i < r.len() ==> built_from(#[trigger] r[i], *draw),
            self.split_ratio().0 == 0 ==> forall|i: int|
                0 <= i < r.len() ==> (#[trigger] r[i]).kind() == FigureType::Rectangle,
            self.split_ratio().0 == self.split_ratio().1 ==> forall|i: int|
                0 <= i < r.len() ==> (#[trigger] r[i]).kind() == FigureType::Circle,
    {
        let mut items: Vec<Shape> = Vec::with_capacity(amount as usize);
        let mut n: u32 = 0;
        while n < amount
            invariant
                call_requires(*draw, ()),
                n <= amount,
                items.len() == n,
                forall|i: int| 0 <= i < items.len() ==> built_from(#[trigger] items[i], *draw),
                self.split_ratio().0 == 0 ==> forall|i: int|
                    0 <= i < items.len() ==> (#[trigger] items[i]).kind() == FigureType::Rectangle,
                self.split_ratio().0 == self.split_ratio().1 ==> forall|i: int|
                    0 <= i < items.len() ==> (#[trigger] items[i]).kind() == FigureType::Circle,
            decreases amount - n,
        {
            let figure = self.build_random_figure(draw);
            items.push(figure);
            n = n + 1;
        }
        items
    }

    /// `amount` circles, whatever the split ratio, in the order they were drawn.
    pub fn produce_circles<F: Fn() -> u32>(&self, amount: u32, draw: &F) -> (r: Vec<Circle>)
        requires
            call_requires(*draw, ()),
        ensures
            r.len() == amount,
            forall|i: int| 0 <= i < r.len() ==> drawn_by(*draw, (#[trigger] r[i]).spec_radius()),
    {
        let mut items: Vec<Circle> = Vec::with_capacity(amount as usize);
        let mut n: u32 = 0;
        while n < amount
            invariant
                call_requires(*draw, ()),
                n <= amount,
                items.len() == n,
                forall|i: int|
                    0 <= i < items.len() ==> drawn_by(*draw, (#[trigger] items[i]).spec_radius()),
            decreases amount - n,
        {
            items.push(build_random_circle(draw));
            n = n + 1;
        }
        items
    }
}

impl Default for GeometricFigureProducer {
    fn default() -> (r: Self)
        ensures
            r.split_ratio() == (1u32, 2u32),
    {
        Self::new()
    }
}

fn build_random_circle<F: Fn() -> u32>(draw: &F) -> (r: Circle)
    requires
        call_requires(*draw, ()),
    ensures
        drawn_by(*draw, r.spec_radius()),
{
    Circle::new(draw())
}

fn build_random_rectangle<F: Fn() -> u32>(draw: &F) -> (r: Rectangle)
    requires
        call_requires(*draw, ()),
    ensures
        drawn_by(*draw, r.spec_width()),
        drawn_by(*draw, r.spec_height()),
{
    let width = draw();
    let height = draw();
    Rectangle::new(width, height)
}

} // verus!
