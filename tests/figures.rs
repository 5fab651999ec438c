use std::f32::consts::PI;

use cad_geometry::figures::{checked_area, Circle, Figure, FigureType, Rectangle, Shape};

fn circle_area(c: &Circle) -> Option<f32> {
    let r = f32::from_bits(c.radius());
    checked_area((r * r * PI).to_bits()).map(f32::from_bits)
}

fn rectangle_area(rect: &Rectangle) -> Option<f32> {
    let (w, h) = rect.dimensions();
    checked_area((f32::from_bits(h) * f32::from_bits(w)).to_bits()).map(f32::from_bits)
}

#[test]
fn radius_getter() {
    let value = 32.1f32;
    let c = Circle::new(value.to_bits());

    assert_eq!(f32::from_bits(c.radius()), value);
}

#[test]
fn radius_getter_max() {
    let value = f32::MAX;
    let c = Circle::new(value.to_bits());

    assert_eq!(f32::from_bits(c.radius()), value);
}

#[test]
fn to_area_max() {
    let value = f32::MAX;
    let c = Circle::new(value.to_bits());

    assert_eq!(circle_area(&c), None);
}

#[test]
fn to_area() {
    let value = 32.1f32;
    let c = Circle::new(value.to_bits());

    assert_eq!(circle_area(&c), Some(32.1f32 * 32.1f32 * PI));
}

#[test]
fn nan_radius_has_no_area() {
    let c = Circle::new(f32::NAN.to_bits());
    assert_eq!(circle_area(&c), None);
}

#[test]
fn negative_radius_is_kept() {
    let c = Circle::new((-2.0f32).to_bits());
    assert_eq!(f32::from_bits(c.radius()), -2.0);
    assert_eq!(circle_area(&c), Some(4.0 * PI));
}

#[test]
fn rectangle_area_is_product() {
    let rect = Rectangle::new(3.5f32.to_bits(), 2.0f32.to_bits());
    assert_eq!(rectangle_area(&rect), Some(7.0));
}

#[test]
fn rectangle_overflow_has_no_area() {
    let rect = Rectangle::new(f32::MAX.to_bits(), 2.0f32.to_bits());
    assert_eq!(rectangle_area(&rect), None);
}

#[test]
fn checked_area_on_bit_patterns() {
    assert_eq!(checked_area(1.5f32.to_bits()), Some(1.5f32.to_bits()));
    assert_eq!(checked_area(0), Some(0));
    assert_eq!(checked_area(f32::MAX.to_bits()), Some(f32::MAX.to_bits()));
    assert_eq!(checked_area(f32::INFINITY.to_bits()), None);
    assert_eq!(checked_area(f32::NEG_INFINITY.to_bits()), None);
    assert_eq!(checked_area(f32::NAN.to_bits()), None);
}

#[test]
fn getters_are_stable() {
    let c = Circle::new(5.25f32.to_bits());
    assert_eq!(c.radius(), c.radius());
    assert_eq!(c.radius(), 5.25f32.to_bits());

    let rect = Rectangle::new(1.0f32.to_bits(), 9.0f32.to_bits());
    assert_eq!(rect.dimensions(), rect.dimensions());
    assert_eq!(rect.dimensions(), (1.0f32.to_bits(), 9.0f32.to_bits()));
}

#[test]
fn kinds_and_names() {
    let c = Circle::new(0);
    let rect = Rectangle::new(0, 0);
    assert!(matches!(c.figure_type(), FigureType::Circle));
    assert!(matches!(rect.figure_type(), FigureType::Rectangle));
    assert!(matches!(Shape::Circle(Circle::new(0)).figure_type(), FigureType::Circle));
    assert!(matches!(Shape::Rectangle(Rectangle::new(0, 0)).figure_type(), FigureType::Rectangle));

    assert_eq!(FigureType::Circle.name(), "circle");
    assert_eq!(FigureType::Rectangle.name(), "rectangle");
    assert_eq!(FigureType::Other("hexagon".to_string()).name(), "hexagon");
}
