use vstd::prelude::*;

verus! {

/// The ways an operation of the library can fail.
#[derive(Clone, Copy, Debug, PartialEq, Eq, Structural)]
pub enum FaceError {
    /// The bytes are empty, not a recognised image format, truncated or corrupt,
    /// or they decode to an image without pixels.
    Decode,
    /// A model could not be constructed; the failure is permanent for its slot.
    ModelLoad,
    /// The encoder produced no embedding for the landmark set.
    NoEncoding,
    /// An embedding does not have the length that the encoder model mandates.
    InvalidEncoding,
    /// An engine coordinate does not fit the unsigned boundary representation.
    GeometryRange,
}

} // verus!
