//! The decisions of the H.263 video decoder: which earlier frames a frame
//! needs, and whether a decoded picture has a size it can be drawn at.
use vstd::prelude::*;

verus! {

/// The picture type of an H.263 frame.
#[derive(Clone, Copy, Debug, PartialEq, Eq, Structural)]
pub enum PictureTypeCode {
    IFrame,
    PFrame,
    DisposablePFrame,
    /// Any other picture type, which Sorenson Spark video does not use.
    Other,
}

/// Which frames a frame needs to be decoded.
#[derive(Clone, Copy, Debug, PartialEq, Eq, Structural)]
pub enum FrameDependency {
    /// The frame stands alone.
    Standalone,
    /// The frame needs the frame before it.
    Past,
}

/// The frames that a frame depends on: none for an intra frame, the past
/// for a predicted one; an error when the stream holds no picture or one
/// of another type.
pub fn preload_frame(picture: Option<PictureTypeCode>) -> (r: Result<FrameDependency, String>)
    ensures
        picture is None ==> (r matches Err(e) && e@ == "Picture in video stream is not a picture"@),
        picture == Some(PictureTypeCode::IFrame) ==> r == Ok::<FrameDependency, String>(
            FrameDependency::Standalone,
        ),
        picture == Some(PictureTypeCode::PFrame) ==> r == Ok::<FrameDependency, String>(
            FrameDependency::Past,
        ),
        picture == Some(PictureTypeCode::DisposablePFrame) ==> r == Ok::<FrameDependency, String>(
            FrameDependency::Past,
        ),
        picture == Some(PictureTypeCode::Other) ==> (r matches Err(e) && e@
            == "Invalid picture type code!"@),
{
    match picture {
        None => Err(String::from_str("Picture in video stream is not a picture")),
        Some(PictureTypeCode::IFrame) => Ok(FrameDependency::Standalone),
        Some(PictureTypeCode::PFrame) => Ok(FrameDependency::Past),
        Some(PictureTypeCode::DisposablePFrame) => Ok(FrameDependency::Past),
        Some(PictureTypeCode::Other) => Err(String::from_str("Invalid picture type code!")),
    }
}

/// The size of a decoded picture, or an error when its format has none.
pub fn picture_size(size: Option<(u16, u16)>) -> (r: Result<(u16, u16), String>)
    ensures
        size matches Some(s) ==> r == Ok::<(u16, u16), String>(s),
        size is None ==> (r matches Err(e) && e@ == "H.263 decoder error!"@),
{
    match size {
        Some(s) => Ok(s),
        None => Err(String::from_str("H.263 decoder error!")),
    }
}

} // verus!
