use vstd::prelude::*;
use vstd::string::StringExecFns;

verus! {

/// Mask of the exponent field of an IEEE-754 single-precision value.
pub const EXPONENT_MASK: u32 = 0x7f80_0000;

/// A single-precision bit pattern stands for a finite number exactly when its
/// exponent field is not all ones (all ones encode the infinities and NaN).
pub open spec fn is_finite_bits(bits: u32) -> bool {
    bits & EXPONENT_MASK != EXPONENT_MASK
}

/// What the area capability returns for a computed product: the product when
/// it is finite, no value when it overflowed to an infinity or is NaN.
pub open spec fn spec_checked_area(product: u32) -> Option<u32> {
    if is_finite_bits(product) {
        Some(product)
    } else {
        None
    }
}

/// Applies the representability rule to the bit pattern of a computed area.
pub fn checked_area(product: u32) -> (r: Option<u32>)
    ensures
        r == spec_checked_area(product),
{
    if product & EXPONENT_MASK != EXPONENT_MASK {
        Some(product)
    } else {
        None
    }
}

/// The kind of a figure.
pub enum FigureType {
    Circle,
    Rectangle,
    Other(String),
}

/// The display name of a kind.
pub open spec fn kind_name(t: FigureType) -> Seq<char> {
    match t {
        FigureType::Circle => "circle"@,
        FigureType::Rectangle => "rectangle"@,
        FigureType::Other(label) => label@,
    }
}

impl FigureType {
    /// The display name: `circle`, `rectangle`, or the label of another kind.
    pub fn name(&self) -> (r: String)
        ensures
            r@ == kind_name(*self),
    {
        match self {
            FigureType::Circle => String::from_str("circle"),
            FigureType::Rectangle => String::from_str("rectangle"),
            FigureType::Other(label) => label.clone(),
        }
    }
}

/// A figure: something with a kind.
pub trait Figure {
    /// The kind of this figure.
    spec fn kind(&self) -> FigureType;

    /// The kind of this figure, as a value.
    fn figure_type(&self) -> (r: FigureType)
        ensures
            r == self.kind(),
    ;
}

/// A circle, its radius held as the bit pattern of an `f32`.
pub struct Circle {
    radius: u32,
}

impl Circle {
    /// The bit pattern of the radius.
    pub closed spec fn spec_radius(&self) -> u32 {
        self.radius
    }

    /// A circle of the given radius (an `f32` bit pattern); any value is
    /// accepted, negative and NaN radii included.
    pub fn new(radius: u32) -> (r: Self)
        ensures
            r.spec_radius() == radius,
    {
        Circle { radius }
    }

    /// The radius it was built with, as an `f32` bit pattern.
    pub fn radius(&self) -> (r: u32)
        ensures
            r == self.spec_radius(),
    {
        self.radius
    }
}

impl Figure for Circle {
    open spec fn kind(&self) -> FigureType {
        FigureType::Circle
    }

    fn figure_type(&self) -> (r: FigureType) {
        FigureType::Circle
    }
}

/// A rectangle, its width and height held as bit patterns of `f32` values.
pub struct Rectangle {
    width: u32,
    height: u32,
}

impl Rectangle {
    /// The bit pattern of the width.
    pub closed spec fn spec_width(&self) -> u32 {
        self.width
    }

    /// The bit pattern of the height.
    pub closed spec fn spec_height(&self) -> u32 {
        self.height
    }

    /// A rectangle of the given width and height (`f32` bit patterns).
    pub fn new(width: u32, height: u32) -> (r: Self)
        ensures
            r.spec_width() == width,
            r.spec_height() == height,
    {
        Rectangle { width, height }
    }

    /// Width and height it was built with, as `f32` bit patterns.
    pub fn dimensions(&self) -> (r: (u32, u32))
        ensures
            r == (self.spec_width(), self.spec_height()),
    {
        (self.width, self.height)
    }
}

impl Figure for Rectangle {
    open spec fn kind(&self) -> FigureType {
        FigureType::Rectangle
    }

    fn figure_type(&self) -> (r: FigureType) {
        FigureType::Rectangle
    }
}

/// A figure of any produced kind, for collections that mix them.
pub enum Shape {
    Circle(Circle),
    Rectangle(Rectangle),
}

impl Figure for Shape {
    open spec fn kind(&self) -> FigureType {
        match self {
            Shape::Circle(_) => FigureType::Circle,
            Shape::Rectangle(_) => FigureType::Rectangle,
        }
    }

    fn figure_type(&self) -> (r: FigureType) {
        match self {
            Shape::Circle(c) => c.figure_type(),
            Shape::Rectangle(rect) => rect.figure_type(),
        }
    }
}

} // verus!
