use vstd::prelude::*;

use crate::error::FaceError;
use crate::geometry::{
    location_of, point_fits, point_of, rect_fits, rect_of, to_location, to_point, to_rectangle,
    EnginePoint, Location, Point, Rectangle,
};
use crate::matrix::{decode, decoded, PixelMatrix};

verus! {

/// The jitter count used when the caller gives none.
pub const DEFAULT_JITTERS: u32 = 0;

/// Owns one decoded image matrix.
pub struct Facial {
    pub matrix: PixelMatrix,
}

impl Facial {
    pub fn new(matrix: PixelMatrix) -> (r: Facial)
        ensures
            r.matrix@ == matrix@,
    {
        Facial { matrix }
    }
}

/// Every detected rectangle fits the boundary's coordinates.
pub open spec fn all_rects_fit(rects: Seq<Rectangle>) -> bool {
    forall|i: int| 0 <= i < rects.len() ==> rect_fits(#[trigger] rects[i])
}

/// Every predicted landmark point fits the boundary's coordinates.
pub open spec fn all_points_fit(predicted: Seq<Vec<EnginePoint>>) -> bool {
    forall|i: int, j: int|
        0 <= i < predicted.len() && 0 <= j < predicted[i]@.len() ==> point_fits(
            #[trigger] predicted[i]@[j],
        )
}

pub open spec fn points_of(ps: Seq<EnginePoint>) -> Seq<Point> {
    ps.map_values(|p: EnginePoint| point_of(p))
}

/// What the engine is asked for one face's encoding.
#[derive(Clone, Copy, Debug, PartialEq, Eq, Structural)]
pub struct EncodingRequest {
    pub rectangle: Rectangle,
    pub jitters: u32,
}

/// A face session: one decoded image, queried any number of times. The
/// detector, landmark predictor and encoder run against its matrix; the
/// session turns their outcomes into boundary values.
pub struct JsFacial {
    facial: Facial,
}

impl View for JsFacial {
    type V = (u32, u32, Seq<u8>);

    closed spec fn view(&self) -> (u32, u32, Seq<u8>) {
        self.facial.matrix@
    }
}

impl JsFacial {
    pub closed spec fn wf(&self) -> bool {
        self.facial.matrix.wf()
    }

    /// Decodes `input` and makes a session that owns the matrix.
    pub fn from_image(input: &[u8]) -> (r: Result<JsFacial, FaceError>)
        ensures
            r is Ok <==> decoded(input@) is Some,
            r matches Ok(s) ==> decoded(input@) == Some(s@) && s.wf(),
            r matches Err(e) ==> e == FaceError::Decode,
            input@.len() == 0 ==> r is Err,
    {
        match decode(input) {
            Ok(matrix) => Ok(JsFacial { facial: Facial::new(matrix) }),
            Err(e) => Err(e),
        }
    }

    /// The decoded matrix that the engines are to run against.
    pub fn matrix(&self) -> (r: &PixelMatrix)
        requires
            self.wf(),
        ensures
            r@ == self@,
            r.wf(),
    {
        &self.facial.matrix
    }

    /// The boxes of the faces that the detector reported, in its order. A
    /// reported coordinate outside the boundary's range is a geometry error.
    pub fn locations(detected: &Vec<Rectangle>) -> (r: Result<Vec<Location>, FaceError>)
        ensures
            r is Ok <==> all_rects_fit(detected@),
            r matches Ok(v) ==> v@ == detected@.map_values(|d: Rectangle| location_of(d)),
            r matches Err(e) ==> e == FaceError::GeometryRange,
    {
        let mut out: Vec<Location> = Vec::new();
        let mut i: usize = 0;
        while i < detected.len()
            invariant
                i <= detected@.len(),
                all_rects_fit(detected@.subrange(0, i as int)),
                out@ == detected@.subrange(0, i as int).map_values(|d: Rectangle| location_of(d)),
            decreases detected@.len() - i,
        {
            match to_location(&detected[i]) {
                Ok(l) => out.push(l),
                Err(e) => {
                    assert(!rect_fits(detected@[i as int]));
                    return Err(e);
                },
            }
            i += 1;
            assert(detected@.subrange(0, i as int).drop_last() == detected@.subrange(0, i - 1));
        }
        assert(detected@.subrange(0, i as int) == detected@);
        Ok(out)
    }

    /// The rectangles to hand to the landmark predictor, one per location, in order.
    pub fn landmark_rectangles(locations: &Vec<Location>) -> (r: Vec<Rectangle>)
        ensures
            r@ == locations@.map_values(|l: Location| rect_of(l)),
    {
        let mut out: Vec<Rectangle> = Vec::new();
        let mut i: usize = 0;
        while i < locations.len()
            invariant
                i <= locations@.len(),
                out@ == locations@.subrange(0, i as int).map_values(|l: Location| rect_of(l)),
            decreases locations@.len() - i,
        {
            out.push(to_rectangle(&locations[i]));
            i += 1;
            assert(locations@.subrange(0, i as int).drop_last() == locations@.subrange(0, i - 1));
        }
        assert(locations@.subrange(0, i as int) == locations@);
        out
    }

    /// The landmark points that the predictor gave for each rectangle, one
    /// sequence per rectangle in the same order. A point outside the
    /// boundary's range is a geometry error.
    pub fn landmarks(predicted: &Vec<Vec<EnginePoint>>) -> (r: Result<Vec<Vec<Point>>, FaceError>)
        ensures
            r is Ok <==> all_points_fit(predicted@),
            r matches Ok(v) ==> v@.len() == predicted@.len() && forall|i: int|
                0 <= i < v@.len() ==> (#[trigger] v@[i])@ == points_of(predicted@[i]@),
            r matches Err(e) ==> e == FaceError::GeometryRange,
    {
        let mut out: Vec<Vec<Point>> = Vec::new();
        let mut i: usize = 0;
        while i < predicted.len()
            invariant
                i <= predicted@.len(),
                all_points_fit(predicted@.subrange(0, i as int)),
                out@.len() == i,
                forall|k: int| 0 <= k < i ==> (#[trigger] out@[k])@ == points_of(predicted@[k]@),
            decreases predicted@.len() - i,
        {
            let ps = &predicted[i];
            let mut row: Vec<Point> = Vec::new();
            let mut j: usize = 0;
            while j < ps.len()
                invariant
                    i < predicted@.len(),
                    ps@ == predicted@[i as int]@,
                    j <= ps@.len(),
                    forall|k: int| 0 <= k < j ==> point_fits(#[trigger] ps@[k]),
                    row@ == points_of(ps@.subrange(0, j as int)),
                decreases ps@.len() - j,
            {
                match to_point(ps[j]) {
                    Ok(p) => row.push(p),
                    Err(e) => {
                        assert(!all_points_fit(predicted@)) by {
                            assert(!point_fits(predicted@[i as int]@[j as int]));
                        }
                        return Err(e);
                    },
                }
                j += 1;
                assert(ps@.subrange(0, j as int).drop_last() == ps@.subrange(0, j - 1));
            }
            assert(ps@.subrange(0, j as int) == ps@);
            out.push(row);
            i += 1;
            assert(all_points_fit(predicted@.subrange(0, i as int)));
        }
        assert(predicted@.subrange(0, i as int) == predicted@);
        Ok(out)
    }

    /// What to ask of the encoder for the face at `location`: its rectangle,
    /// and the jitter count given, or `DEFAULT_JITTERS` where none is.
    pub fn encoding_request(location: &Location, jitters: Option<u32>) -> (r: EncodingRequest)
        ensures
            r.rectangle == rect_of(*location),
            r.jitters == match jitters {
                Some(j) => j,
                None => DEFAULT_JITTERS,
            },
    {
        let jitters = match jitters {
            Some(j) => j,
            None => DEFAULT_JITTERS,
        };
        EncodingRequest { rectangle: to_rectangle(location), jitters }
    }

    /// The one embedding of a face, out of what the encoder produced for its
    /// single landmark set: the first, or an error where it produced none.
    pub fn encodings<T>(produced: Vec<T>) -> (r: Result<T, FaceError>)
        ensures
            produced@.len() > 0 ==> r == Ok::<T, FaceError>(produced@[0]),
            produced@.len() == 0 ==> r == Err::<T, FaceError>(FaceError::NoEncoding),
    {
        let mut produced = produced;
        if produced.len() == 0 {
            Err(FaceError::NoEncoding)
        } else {
            Ok(produced.remove(0))
        }
    }
}

} // verus!
