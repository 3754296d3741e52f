use vstd::prelude::*;

use crate::error::FaceError;

verus! {

/// An axis-aligned face box in pixel coordinates, as seen at the boundary.
#[derive(Clone, Copy, Debug, PartialEq, Eq, Structural)]
pub struct Location {
    pub left: u32,
    pub top: u32,
    pub right: u32,
    pub bottom: u32,
}

/// A landmark coordinate, as seen at the boundary.
#[derive(Clone, Copy, Debug, PartialEq, Eq, Structural)]
pub struct Point {
    pub x: u32,
    pub y: u32,
}

/// The detection engine's rectangle: signed coordinates, which may lie
/// outside the image near its edges.
#[derive(Clone, Copy, Debug, PartialEq, Eq, Structural)]
pub struct Rectangle {
    pub left: i64,
    pub top: i64,
    pub right: i64,
    pub bottom: i64,
}

/// The engine's landmark point, with signed coordinates.
#[derive(Clone, Copy, Debug, PartialEq, Eq, Structural)]
pub struct EnginePoint {
    pub x: i64,
    pub y: i64,
}

/// An engine coordinate that the boundary's unsigned 32-bit type can hold.
pub open spec fn fits_u32(v: i64) -> bool {
    0 <= v <= u32::MAX
}

pub open spec fn rect_fits(r: Rectangle) -> bool {
    fits_u32(r.left) && fits_u32(r.top) && fits_u32(r.right) && fits_u32(r.bottom)
}

pub open spec fn point_fits(p: EnginePoint) -> bool {
    fits_u32(p.x) && fits_u32(p.y)
}

/// The engine rectangle with the same coordinates as `l`.
pub open spec fn rect_of(l: Location) -> Rectangle {
    Rectangle { left: l.left as i64, top: l.top as i64, right: l.right as i64, bottom: l.bottom as i64 }
}

/// The boundary box with the same coordinates as `r`; meaningful where `rect_fits(r)`.
pub open spec fn location_of(r: Rectangle) -> Location {
    Location { left: r.left as u32, top: r.top as u32, right: r.right as u32, bottom: r.bottom as u32 }
}

pub open spec fn point_of(p: EnginePoint) -> Point {
    Point { x: p.x as u32, y: p.y as u32 }
}

/// What converting an engine rectangle yields: the same box, or a range error.
pub open spec fn location_result(r: Rectangle) -> Result<Location, FaceError> {
    if rect_fits(r) { Ok(location_of(r)) } else { Err(FaceError::GeometryRange) }
}

pub open spec fn point_result(p: EnginePoint) -> Result<Point, FaceError> {
    if point_fits(p) { Ok(point_of(p)) } else { Err(FaceError::GeometryRange) }
}

/// Widens a boundary box to the engine's rectangle, coordinate for coordinate.
pub fn to_rectangle(location: &Location) -> (r: Rectangle)
    ensures
        r == rect_of(*location),
        r.left == location.left as int,
        r.top == location.top as int,
        r.right == location.right as int,
        r.bottom == location.bottom as int,
{
    Rectangle {
        left: location.left as i64,
        top: location.top as i64,
        right: location.right as i64,
        bottom: location.bottom as i64,
    }
}

fn narrow(v: i64) -> (r: Result<u32, FaceError>)
    ensures
        fits_u32(v) ==> r == Ok::<u32, FaceError>(v as u32),
        !fits_u32(v) ==> r == Err::<u32, FaceError>(FaceError::GeometryRange),
{
    if 0 <= v && v <= u32::MAX as i64 {
        Ok(v as u32)
    } else {
        Err(FaceError::GeometryRange)
    }
}

/// Narrows an engine rectangle to a boundary box. A coordinate that is negative
/// or too large is rejected rather than wrapped.
pub fn to_location(rectangle: &Rectangle) -> (r: Result<Location, FaceError>)
    ensures
        r == location_result(*rectangle),
        r is Ok <==> rect_fits(*rectangle),
        r matches Ok(l) ==> l.left == rectangle.left && l.top == rectangle.top
            && l.right == rectangle.right && l.bottom == rectangle.bottom,
{
    let left = match narrow(rectangle.left) { Ok(v) => v, Err(e) => return Err(e) };
    let top = match narrow(rectangle.top) { Ok(v) => v, Err(e) => return Err(e) };
    let right = match narrow(rectangle.right) { Ok(v) => v, Err(e) => return Err(e) };
    let bottom = match narrow(rectangle.bottom) { Ok(v) => v, Err(e) => return Err(e) };
    Ok(Location { left, top, right, bottom })
}

/// Narrows an engine point to a boundary point, rejecting what does not fit.
pub fn to_point(point: EnginePoint) -> (r: Result<Point, FaceError>)
    ensures
        r == point_result(point),
        r is Ok <==> point_fits(point),
        r matches Ok(p) ==> p.x == point.x && p.y == point.y,
{
    let x = match narrow(point.x) { Ok(v) => v, Err(e) => return Err(e) };
    let y = match narrow(point.y) { Ok(v) => v, Err(e) => return Err(e) };
    Ok(Point { x, y })
}

/// Widening a boundary box and narrowing it back loses nothing: the conversion
/// always succeeds and gives the box that went in.
pub proof fn lemma_location_round_trip(l: Location)
    ensures
        rect_fits(rect_of(l)),
        location_result(rect_of(l)) == Ok::<Location, FaceError>(l),
{
}

} // verus!
