//! The content registry's polymorphic items: deferred content that is
//! registered once and lowered to resource objects when the document is
//! serialized.

use vstd::prelude::*;
use crate::errors::ContentError;

verus! {

/// A font, constructed from a font-file byte stream.
///
/// The stream is accepted when it is non-empty and kept verbatim; an empty
/// stream is rejected as unparsable.  Decoding the font program itself is the
/// font collaborator's concern, not this model's.
#[derive(Clone, Debug)]
pub struct Font {
    /// The raw font-file bytes as handed in at registration.
    pub data: Vec<u8>,
}

impl Font {
    /// Parses a font from a byte stream.  Fails on an empty stream; the
    /// failure is a registration error and nothing is stored.
    pub fn new(data: Vec<u8>) -> (r: Result<Font, ContentError>)
        ensures
            r is Ok <==> data@.len() > 0,
            r is Ok ==> r->Ok_0.data@ == data@,
            r is Err ==> r->Err_0 == ContentError::FontParseFailed,
    {
        if data.len() == 0 {
            Err(ContentError::FontParseFailed)
        } else {
            Ok(Font { data })
        }
    }
}

/// A vector-art asset, constructed from vector-path data.
///
/// The data is accepted when it is non-empty and kept verbatim as the body of
/// the asset's resource object; an empty stream is rejected as unparsable.
#[derive(Clone, Debug)]
pub struct VectorAsset {
    /// The asset's drawing content, emitted as the resource object's body.
    pub ops: Vec<u8>,
}

impl VectorAsset {
    /// Parses a vector asset from path data.  Fails on an empty stream; the
    /// failure is a registration error and nothing is stored.
    pub fn new(ops: Vec<u8>) -> (r: Result<VectorAsset, ContentError>)
        ensures
            r is Ok <==> ops@.len() > 0,
            r is Ok ==> r->Ok_0.ops@ == ops@,
            r is Err ==> r->Err_0 == ContentError::VectorParseFailed,
    {
        if ops.len() == 0 {
            Err(ContentError::VectorParseFailed)
        } else {
            Ok(VectorAsset { ops })
        }
    }
}

/// One entry of the content registry: a closed set of content kinds, each of
/// which can be lowered to a resource object during serialization.
#[derive(Clone, Debug)]
pub enum PdfContent {
    /// A registered font.
    Font(Font),
    /// A registered vector-art asset.
    Vector(VectorAsset),
}

} // verus!
