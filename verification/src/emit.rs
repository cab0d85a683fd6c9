//! Emission of a planned object graph through the external object-graph
//! writer, which assigns final byte offsets, writes the cross-reference
//! index, and computes the trailer fields.
//!
//! The writer hands out identities deterministically — each added object gets
//! the next object number — so emitting the plan slot by slot makes the
//! writer's identity for slot `s` exactly the planned `s + 1`.  Together with
//! the plan's well-formedness this discharges the contract the writer is
//! owed: every reference the emitted objects carry names an object that was
//! in fact registered, on first pass, with nothing dangling.

use vstd::prelude::*;
use crate::graph::{PdfObjectGraph, PdfPayload, doc_bounded, doc_refs_ok, planned_len};
use crate::errors::SerializationError;
use crate::document::PdfDocument;

verus! {

#[verifier::external_type_specification]
#[verifier::external_body]
pub struct ExLopdfDocument(lopdf::Document);

#[verifier::external_type_specification]
#[verifier::external_body]
pub struct ExLopdfDictionary(lopdf::Dictionary);

/// The set of object identities the writer's document holds.
pub uninterp spec fn doc_object_ids(d: lopdf::Document) -> Set<(u32, u16)>;

/// The writer's running maximum object number, from which it assigns the
/// next identity.
pub uninterp spec fn doc_max_id(d: lopdf::Document) -> u32;

/// The document state every wrapper in this module creates and keeps: the
/// default version and binary mark, no encryption, a cross-reference-stream
/// reference table, and only objects of the shapes built below.  In that
/// state lopdf's writer, rendering into an in-memory buffer, has no failing
/// path: every error it can raise comes from the byte sink or from a
/// non-default binary mark.
pub uninterp spec fn doc_render_safe(d: lopdf::Document) -> bool;

/// Relies on lopdf::Document::with_version: a fresh document holds no
/// objects, its maximum object number is 0, and its version, binary mark,
/// reference table and encryption state are the defaults the writer renders
/// without a failing path.
#[verifier::external_body]
fn writer_new() -> (d: lopdf::Document)
    ensures
        doc_max_id(d) == 0,
        doc_object_ids(d) == Set::<(u32, u16)>::empty(),
        doc_render_safe(d),
{
    lopdf::Document::with_version("1.5")
}

/// Relies on lopdf::Document::add_object: the object is inserted at identity
/// (max_id + 1, 0), max_id is incremented, and that identity is returned.
#[verifier::external_body]
fn writer_add_catalog(d: &mut lopdf::Document, pages_id: u32) -> (id: (u32, u16))
    requires
        doc_max_id(*old(d)) < u32::MAX,
    ensures
        id.0 == doc_max_id(*old(d)) + 1 && id.1 == 0,
        doc_max_id(*final(d)) == doc_max_id(*old(d)) + 1,
        doc_object_ids(*final(d)) == doc_object_ids(*old(d)).insert(id),
        doc_render_safe(*old(d)) ==> doc_render_safe(*final(d)),
{
    let mut dict = lopdf::Dictionary::new();
    dict.set("Type", lopdf::Object::Name(b"Catalog".to_vec()));
    dict.set("Pages", lopdf::Object::Reference((pages_id, 0)));
    d.add_object(lopdf::Object::Dictionary(dict))
}

/// Relies on lopdf::Document::add_object, as `writer_add_catalog`.
#[verifier::external_body]
fn writer_add_page_tree(d: &mut lopdf::Document, kids: &Vec<u32>) -> (id: (u32, u16))
    requires
        doc_max_id(*old(d)) < u32::MAX,
    ensures
        id.0 == doc_max_id(*old(d)) + 1 && id.1 == 0,
        doc_max_id(*final(d)) == doc_max_id(*old(d)) + 1,
        doc_object_ids(*final(d)) == doc_object_ids(*old(d)).insert(id),
        doc_render_safe(*old(d)) ==> doc_render_safe(*final(d)),
{
    let refs: Vec<lopdf::Object> = kids.iter().map(|k| lopdf::Object::Reference((*k, 0))).collect();
    let mut dict = lopdf::Dictionary::new();
    dict.set("Type", lopdf::Object::Name(b"Pages".to_vec()));
    dict.set("Count", lopdf::Object::Integer(refs.len() as i64));
    dict.set("Kids", lopdf::Object::Array(refs));
    d.add_object(lopdf::Object::Dictionary(dict))
}

/// Relies on lopdf::Dictionary's FromIterator: the resource dictionary built
/// from the given name/identity pairs.  Font entries are named F<index>,
/// vector entries X<index>, as the content streams select them.
#[verifier::external_body]
fn writer_resource_dict(fonts: &Vec<(u64, u32)>, xobjects: &Vec<(u64, u32)>) -> (r:
    lopdf::Dictionary)
{
    let fd: lopdf::Dictionary = fonts.iter().map(|e| (format!("F{}", e.0), lopdf::Object::Reference((e.1, 0)))).collect();
    let xd: lopdf::Dictionary = xobjects.iter().map(|e| (format!("X{}", e.0), lopdf::Object::Reference((e.1, 0)))).collect();
    let mut r = lopdf::Dictionary::new();
    r.set("Font", lopdf::Object::Dictionary(fd));
    r.set("XObject", lopdf::Object::Dictionary(xd));
    r
}

/// Relies on lopdf::Document::add_object, as `writer_add_catalog`.
#[verifier::external_body]
fn writer_add_page(
    d: &mut lopdf::Document,
    parent: u32,
    width_pt: i64,
    height_pt: i64,
    contents: &Vec<u32>,
    resources: lopdf::Dictionary,
) -> (id: (u32, u16))
    requires
        doc_max_id(*old(d)) < u32::MAX,
    ensures
        id.0 == doc_max_id(*old(d)) + 1 && id.1 == 0,
        doc_max_id(*final(d)) == doc_max_id(*old(d)) + 1,
        doc_object_ids(*final(d)) == doc_object_ids(*old(d)).insert(id),
        doc_render_safe(*old(d)) ==> doc_render_safe(*final(d)),
{
    let refs: Vec<lopdf::Object> = contents.iter().map(|c| lopdf::Object::Reference((*c, 0))).collect();
    let media = vec![0i64.into(), 0i64.into(), width_pt.into(), height_pt.into()];
    let mut dict = lopdf::Dictionary::new();
    dict.set("Type", lopdf::Object::Name(b"Page".to_vec()));
    dict.set("Parent", lopdf::Object::Reference((parent, 0)));
    dict.set("MediaBox", lopdf::Object::Array(media));
    dict.set("Contents", lopdf::Object::Array(refs));
    dict.set("Resources", lopdf::Object::Dictionary(resources));
    d.add_object(lopdf::Object::Dictionary(dict))
}

/// Relies on lopdf::Document::add_object, as `writer_add_catalog`; the bytes
/// become the stream object's content through lopdf::Stream::new.
#[verifier::external_body]
fn writer_add_stream(d: &mut lopdf::Document, bytes: &Vec<u8>) -> (id: (u32, u16))
    requires
        doc_max_id(*old(d)) < u32::MAX,
    ensures
        id.0 == doc_max_id(*old(d)) + 1 && id.1 == 0,
        doc_max_id(*final(d)) == doc_max_id(*old(d)) + 1,
        doc_object_ids(*final(d)) == doc_object_ids(*old(d)).insert(id),
        doc_render_safe(*old(d)) ==> doc_render_safe(*final(d)),
{
    let stream = lopdf::Stream::new(lopdf::Dictionary::new(), bytes.clone());
    d.add_object(lopdf::Object::Stream(stream))
}

/// Relies on lopdf::Document::add_object, as `writer_add_catalog`, and on
/// lopdf::Stream::new.  The font object's base name is derived from the
/// registry index, matching the name the content streams select, and the
/// registered font-file bytes become the object's content.  Full embedding
/// (descriptor, width tables) is the font collaborator's concern and is not
/// modelled here.
#[verifier::external_body]
fn writer_add_font(d: &mut lopdf::Document, reg: u64, data: &Vec<u8>) -> (id: (u32, u16))
    requires
        doc_max_id(*old(d)) < u32::MAX,
    ensures
        id.0 == doc_max_id(*old(d)) + 1 && id.1 == 0,
        doc_max_id(*final(d)) == doc_max_id(*old(d)) + 1,
        doc_object_ids(*final(d)) == doc_object_ids(*old(d)).insert(id),
        doc_render_safe(*old(d)) ==> doc_render_safe(*final(d)),
{
    let mut dict = lopdf::Dictionary::new();
    dict.set("Type", lopdf::Object::Name(b"Font".to_vec()));
    dict.set("Subtype", lopdf::Object::Name(b"Type1".to_vec()));
    dict.set("BaseFont", lopdf::Object::Name(format!("F{}", reg).into_bytes()));
    d.add_object(lopdf::Object::Stream(lopdf::Stream::new(dict, data.clone())))
}

/// Relies on lopdf::Document::add_object, as `writer_add_catalog`; the asset
/// content becomes a form object through lopdf::Stream::new.
#[verifier::external_body]
fn writer_add_xobject(d: &mut lopdf::Document, content: &Vec<u8>) -> (id: (u32, u16))
    requires
        doc_max_id(*old(d)) < u32::MAX,
    ensures
        id.0 == doc_max_id(*old(d)) + 1 && id.1 == 0,
        doc_max_id(*final(d)) == doc_max_id(*old(d)) + 1,
        doc_object_ids(*final(d)) == doc_object_ids(*old(d)).insert(id),
        doc_render_safe(*old(d)) ==> doc_render_safe(*final(d)),
{
    let mut dict = lopdf::Dictionary::new();
    dict.set("Type", lopdf::Object::Name(b"XObject".to_vec()));
    dict.set("Subtype", lopdf::Object::Name(b"Form".to_vec()));
    let unit = vec![0i64.into(), 0i64.into(), 1i64.into(), 1i64.into()];
    dict.set("BBox", lopdf::Object::Array(unit));
    d.add_object(lopdf::Object::Stream(lopdf::Stream::new(dict, content.clone())))
}

/// Relies on lopdf::Dictionary::set on the document's trailer: the object
/// table is untouched.
#[verifier::external_body]
fn writer_set_root(d: &mut lopdf::Document, root: u32)
    ensures
        doc_max_id(*final(d)) == doc_max_id(*old(d)),
        doc_object_ids(*final(d)) == doc_object_ids(*old(d)),
        doc_render_safe(*old(d)) ==> doc_render_safe(*final(d)),
{
    d.trailer.set("Root", lopdf::Object::Reference((root, 0)));
}

/// Relies on lopdf::Document::save_to: renders the document — byte offsets,
/// cross-reference index, trailer — into an in-memory buffer.  The writer
/// takes one more object number for its own cross-reference object, hence
/// the headroom bound.  On a render-safe document with an in-memory sink it
/// has no failing path, so success is owed; the defensive arm maps any
/// failure to this library's error.
#[verifier::external_body]
fn writer_save_bytes(d: &mut lopdf::Document) -> (r: Result<Vec<u8>, SerializationError>)
    requires
        doc_render_safe(*old(d)),
        doc_max_id(*old(d)) + 1 < u32::MAX,
    ensures
        r is Ok,
{
    let mut buf: Vec<u8> = Vec::new();
    match d.save_to(&mut buf) {
        Ok(()) => Ok(buf),
        Err(_) => Err(SerializationError::WriteFailed),
    }
}

/// Emits a well-formed plan through the writer, slot by slot, and collects
/// the rendered bytes.  The writer assigns identity `s + 1` to slot `s` —
/// exactly the identity the plan gave it — so when the writer renders, every
/// planned identity is registered and every emitted reference resolves.
/// Emission into the in-memory buffer always succeeds: the plan leaves the
/// writer one object number of headroom, and the writer's document stays in
/// the render-safe state throughout.
pub fn emit_graph(g: &PdfObjectGraph) -> (r: Result<Vec<u8>, SerializationError>)
    requires
        g.wf(),
    ensures
        r is Ok,
{
    let mut w = writer_new();
    let mut s: usize = 0;
    while s < g.objects.len()
        invariant
            g.wf(),
            s <= g.objects@.len(),
            doc_max_id(w) == s,
            doc_render_safe(w),
            forall|n: int| 1 <= n <= s ==> doc_object_ids(w).contains((#[trigger] (n as u32), 0u16)),
        decreases g.objects@.len() - s,
    {
        let id = match &g.objects[s] {
            PdfPayload::Catalog { pages } => writer_add_catalog(&mut w, *pages),
            PdfPayload::PageTree { kids } => writer_add_page_tree(&mut w, kids),
            PdfPayload::Page { parent, width_pt, height_pt, contents, fonts, xobjects } => {
                let resources = writer_resource_dict(fonts, xobjects);
                writer_add_page(&mut w, *parent, *width_pt, *height_pt, contents, resources)
            },
            PdfPayload::ContentStream { bytes } => writer_add_stream(&mut w, bytes),
            PdfPayload::FontResource { reg, data } => writer_add_font(&mut w, *reg, data),
            PdfPayload::VectorResource { content, .. } => writer_add_xobject(&mut w, content),
        };
        assert(id.0 == s + 1 && id.1 == 0);
        s = s + 1;
    }
    // The contract owed to the writer holds here: the plan's every reference
    // names an identity in 1 ..= len (g.wf()), and each such identity is now
    // registered.
    assert(forall|n: int|
        1 <= n <= g.objects@.len() ==> doc_object_ids(w).contains((#[trigger] (n as u32), 0u16)));
    writer_set_root(&mut w, g.root);
    writer_save_bytes(&mut w)
}

impl PdfDocument {
    /// Serializes the whole current document state into one self-consistent
    /// container: plans the object graph, emits it through the external
    /// writer, and returns the rendered bytes.  Succeeds exactly when no
    /// drawable references a registry index with no matching entry; a
    /// dangling reference fails the whole call with
    /// `DanglingContentReference` and no partial output is handed out.
    /// The document is only borrowed, so it may be saved repeatedly.
    pub fn save(&self) -> (r: Result<Vec<u8>, SerializationError>)
        requires
            doc_bounded(*self),
            planned_len(*self) + 1 < u32::MAX,
        ensures
            r is Ok <==> doc_refs_ok(*self),
            r is Err ==> r->Err_0 == SerializationError::DanglingContentReference,
    {
        match self.build_graph() {
            Err(e) => Err(e),
            Ok(g) => emit_graph(&g),
        }
    }
}

} // verus!
