//! Font faces and the descriptions that they are loaded from.
use std::path::PathBuf;
use std::sync::Arc;

use vstd::prelude::*;

verus! {

/// `std::path::PathBuf`, which a descriptor carries and nothing looks into.
#[verifier::external_type_specification]
#[verifier::external_body]
pub struct ExPathBuf(std::path::PathBuf);

/// A loaded face.
///
/// `face` is the caller's handle on the face that FreeType opened. A handle that
/// closes the face when it is dropped does so when the font is deleted, and
/// before the font data, which FreeType reads as long as the face is open, is let
/// go.
pub struct Face<H> {
    pub face: H,
    pub bytes: Option<Arc<Vec<u8>>>,
}

/// A font file, and the index of the font in it.
pub struct FontDescriptor {
    pub pathname: PathBuf,
    pub index: u32,
}

impl FontDescriptor {
    /// Describes the font at `index` of the file `pathname`.
    #[inline]
    pub fn new(pathname: PathBuf, index: u32) -> (r: FontDescriptor)
        ensures
            r.pathname == pathname,
            r.index == index,
    {
        FontDescriptor { pathname: pathname, index: index }
    }
}

/// Asks for the face at `face_index` of the font data `bytes`.
pub struct MemoryFaceRequest<'a> {
    pub bytes: &'a Arc<Vec<u8>>,
    pub size: usize,
    pub face_index: i64,
}

/// Asks for the face at `face_index` of a font file, whose name ends in a zero
/// byte.
pub struct FileFaceRequest {
    pub pathname: Vec<u8>,
    pub face_index: i64,
}

/// What FreeType answers to either request: an error code, zero for success, and
/// the face, if it handed one out.
pub struct FaceReply<H> {
    pub error: i32,
    pub face: Option<H>,
}

impl<H> FaceReply<H> {
    /// A face was opened: no error, and a face is there.
    pub open spec fn opened(self) -> bool {
        self.error == 0 && self.face is Some
    }
}

/// The bytes hold no zero byte, so that they name a file when a zero byte ends
/// them.
pub open spec fn names_file(pathname: Seq<u8>) -> bool {
    forall|i: int| 0 <= i < pathname.len() ==> pathname[i] != 0
}

/// Tells whether `pathname` can name a file: no byte of it is zero.
pub fn pathname_is_valid(pathname: &[u8]) -> (r: bool)
    ensures
        r == names_file(pathname@),
{
    let mut i: usize = 0;
    while i < pathname.len()
        invariant
            i <= pathname@.len(),
            forall|j: int| 0 <= j < i ==> pathname@[j] != 0,
        decreases pathname@.len() - i,
    {
        if pathname[i] == 0 {
            return false;
        }
        i = i + 1;
    }
    true
}

/// Ends `pathname` with a zero byte.
pub(crate) fn terminated(pathname: &[u8]) -> (r: Vec<u8>)
    ensures
        r@ == pathname@.push(0),
{
    let mut bytes: Vec<u8> = Vec::new();
    let mut i: usize = 0;
    while i < pathname.len()
        invariant
            i <= pathname@.len(),
            bytes@ == pathname@.take(i as int),
        decreases pathname@.len() - i,
    {
        bytes.push(pathname[i]);
        i = i + 1;
    }
    bytes.push(0);
    bytes
}

} // verus!
