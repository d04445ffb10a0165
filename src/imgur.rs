//! The answer of the image hosting service to an upload.
use vstd::prelude::*;

verus! {

/// The hosted image.
pub struct ImgurData {
    pub id: String,
    pub link: String,
}

/// An upload's answer: the hosted image and the status code.
pub struct ImgurResponse {
    pub data: ImgurData,
    pub status: u32,
}

} // verus!
