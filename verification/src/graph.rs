//! The planned object graph a save pass assembles.
//!
//! Planning walks the tree and the registry and assigns one object identity
//! per emitted object: identity 1 is the catalog, identity 2 the page tree,
//! then one resource object per registry entry that is actually referenced
//! (memoized by registry index — repeated references share one object), then,
//! page by page, one content-stream object per layer followed by the page
//! object.  The object at slot `s` of the plan has identity `s + 1`, so every
//! internal reference of a well-formed plan resolves, on first pass, to an
//! object that is in fact planned.

use vstd::prelude::*;
use crate::document::{PdfDocument, PdfPage, PdfLayer, PdfDrawable, PdfDrawableKind};
use crate::content::PdfContent;
use crate::encode::{layer_bytes, layer_bounded};
use crate::units::pt_of;

verus! {

/// One planned binary object, as the external object-graph writer will
/// receive it.
#[derive(Debug)]
pub enum PdfPayload {
    /// The document catalog; the graph's root.
    Catalog {
        /// Identity of the page-tree object.
        pages: u32,
    },
    /// The page tree, naming every page object in order.
    PageTree {
        /// Identities of the page objects, in page order.
        kids: Vec<u32>,
    },
    /// One page: its dimensions in points, its content streams, and the
    /// resource dictionary mapping resource names to object identities.
    Page {
        /// Identity of the page-tree object.
        parent: u32,
        /// Page width in whole points.
        width_pt: i64,
        /// Page height in whole points.
        height_pt: i64,
        /// Identities of the page's content-stream objects, one per layer,
        /// in layer order.
        contents: Vec<u32>,
        /// Font resources: registry index (the name the streams select by)
        /// paired with the font object's identity.
        fonts: Vec<(u64, u32)>,
        /// Vector-asset resources: registry index paired with the asset
        /// object's identity.
        xobjects: Vec<(u64, u32)>,
    },
    /// One layer's drawing-instruction stream.
    ContentStream {
        /// The instruction bytes, exactly as lowered from the layer.
        bytes: Vec<u8>,
    },
    /// The resource object of a referenced font entry.
    FontResource {
        /// The registry index the object stands for.
        reg: u64,
        /// The registered font-file bytes, emitted as the object's content.
        data: Vec<u8>,
    },
    /// The resource object of a referenced vector-asset entry.
    VectorResource {
        /// The registry index the object stands for.
        reg: u64,
        /// The asset's drawing content.
        content: Vec<u8>,
    },
}

/// A fully planned object graph: the object at slot `s` has identity
/// `s + 1`, and `root` is the catalog's identity.
#[derive(Debug)]
pub struct PdfObjectGraph {
    /// The planned objects, in identity order.
    pub objects: Vec<PdfPayload>,
    /// Identity of the catalog object.
    pub root: u32,
}

/// Whether the drawable references registry index `k`.
pub open spec fn drawable_refs(d: PdfDrawable, k: int) -> bool {
    ||| (d.kind matches PdfDrawableKind::Text { font, .. } && font.0 == k)
    ||| (d.kind matches PdfDrawableKind::Vector { asset, .. } && asset.0 == k)
}

/// Whether some drawable of the layer references registry index `k`.
pub open spec fn layer_refs(l: PdfLayer, k: int) -> bool {
    exists|t: int| 0 <= t < l.drawables@.len() && drawable_refs(#[trigger] l.drawables@[t], k)
}

/// Whether some drawable of the page references registry index `k`.
pub open spec fn page_refs(p: PdfPage, k: int) -> bool {
    exists|j: int| 0 <= j < p.layers@.len() && layer_refs(#[trigger] p.layers@[j], k)
}

/// Whether some drawable of the document references registry index `k`.
pub open spec fn doc_refs(d: PdfDocument, k: int) -> bool {
    exists|i: int| 0 <= i < d.pages@.len() && page_refs(#[trigger] d.pages@[i], k)
}

/// Whether the drawable's registry reference, if any, has a matching entry
/// of the right kind in the registry.
pub open spec fn drawable_ok(contents: Seq<PdfContent>, d: PdfDrawable) -> bool {
    match d.kind {
        PdfDrawableKind::Text { font, .. } => font.0 < contents.len() && contents[font.0 as int]
            is Font,
        PdfDrawableKind::Vector { asset, .. } => asset.0 < contents.len() && contents[
            asset.0 as int
        ] is Vector,
        _ => true,
    }
}

/// Whether every registry reference in the document resolves to an entry of
/// the right kind — the negation is exactly a dangling content reference.
pub open spec fn doc_refs_ok(d: PdfDocument) -> bool {
    forall|i: int, j: int, t: int|
        0 <= i < d.pages@.len() && 0 <= j < d.pages@[i].layers@.len() && 0 <= t < d.pages@[
            i
        ].layers@[j].drawables@.len() ==> drawable_ok(
            d.contents@,
            #[trigger] d.pages@[i].layers@[j].drawables@[t],
        )
}

/// How many registry entries with index below `k` are referenced — the
/// number of resource objects planned before entry `k`'s.
pub open spec fn rank(d: PdfDocument, k: nat) -> nat
    decreases k,
{
    if k == 0 {
        0
    } else {
        rank(d, (k - 1) as nat) + if doc_refs(d, k - 1) {
            1nat
        } else {
            0nat
        }
    }
}

/// How many resource objects the plan holds.
pub open spec fn n_res(d: PdfDocument) -> nat {
    rank(d, d.contents@.len())
}

/// How many objects the pages before page `i` contribute: one content stream
/// per layer plus the page object itself.
pub open spec fn layers_before(pages: Seq<PdfPage>, i: nat) -> nat
    decreases i,
{
    if i == 0 {
        0
    } else {
        layers_before(pages, (i - 1) as nat) + pages[i - 1].layers@.len() + 1
    }
}

/// How many objects the whole plan holds.
pub open spec fn planned_len(d: PdfDocument) -> nat {
    2 + n_res(d) + layers_before(d.pages@, d.pages@.len())
}

/// Slot of the resource object of referenced registry entry `k`.
pub open spec fn res_slot(d: PdfDocument, k: nat) -> nat {
    2 + rank(d, k)
}

/// Slot of the content-stream object of layer `j` of page `i`.
pub open spec fn stream_slot(d: PdfDocument, i: nat, j: nat) -> nat {
    2 + n_res(d) + layers_before(d.pages@, i) + j
}

/// Slot of the page object of page `i`.
pub open spec fn page_slot(d: PdfDocument, i: nat) -> nat {
    2 + n_res(d) + layers_before(d.pages@, i) + d.pages@[i as int].layers@.len()
}

/// The document-level font resource list over registry indices below `k`:
/// each referenced font entry paired with its resource object's identity, in
/// registry order.
pub open spec fn font_list(d: PdfDocument, k: nat) -> Seq<(u64, u32)>
    decreases k,
{
    if k == 0 {
        Seq::empty()
    } else {
        font_list(d, (k - 1) as nat) + if doc_refs(d, k - 1) && d.contents@[k - 1] is Font {
            seq![(((k - 1) as u64), (res_slot(d, (k - 1) as nat) + 1) as u32)]
        } else {
            Seq::empty()
        }
    }
}

/// The document-level vector-asset resource list over registry indices below
/// `k`, as `font_list`.
pub open spec fn xobj_list(d: PdfDocument, k: nat) -> Seq<(u64, u32)>
    decreases k,
{
    if k == 0 {
        Seq::empty()
    } else {
        xobj_list(d, (k - 1) as nat) + if doc_refs(d, k - 1) && d.contents@[k - 1] is Vector {
            seq![(((k - 1) as u64), (res_slot(d, (k - 1) as nat) + 1) as u32)]
        } else {
            Seq::empty()
        }
    }
}

/// The planned resource object of referenced registry entry `k` stands at
/// its slot with the entry's kind and index.
pub open spec fn res_matches(d: PdfDocument, objs: Seq<PdfPayload>, k: int) -> bool {
    if d.contents@[k] is Font {
        objs[res_slot(d, k as nat) as int] matches PdfPayload::FontResource { reg, data } && reg
            == k as u64 && data@ == d.contents@[k]->Font_0.data@
    } else {
        objs[res_slot(d, k as nat) as int] matches PdfPayload::VectorResource { reg, content }
            && reg == k as u64 && content@ == d.contents@[k]->Vector_0.ops@
    }
}

/// The planned page object of page `i` stands at its slot with the page's
/// dimensions in points, its stream identities in layer order, and the
/// document-level resource lists.
pub open spec fn page_obj_matches(d: PdfDocument, objs: Seq<PdfPayload>, i: int) -> bool {
    objs[page_slot(d, i as nat) as int] matches PdfPayload::Page {
        parent,
        width_pt,
        height_pt,
        contents,
        fonts,
        xobjects,
    } && parent == 2u32 && width_pt == pt_of(d.pages@[i].width.thousandths as int) && height_pt
        == pt_of(d.pages@[i].height.thousandths as int) && contents@.len() == d.pages@[
        i
    ].layers@.len() && (forall|j: int|
        0 <= j < d.pages@[i].layers@.len() ==> #[trigger] contents@[j] == (stream_slot(
            d,
            i as nat,
            j as nat,
        ) + 1) as u32) && fonts@ == font_list(d, d.contents@.len()) && xobjects@ == xobj_list(
        d,
        d.contents@.len(),
    )
}

/// The planned content-stream object of layer `j` of page `i` stands at its
/// slot and holds exactly the layer's lowered instruction stream.
pub open spec fn stream_obj_matches(d: PdfDocument, objs: Seq<PdfPayload>, i: int, j: int) -> bool {
    objs[stream_slot(d, i as nat, j as nat) as int] matches PdfPayload::ContentStream { bytes }
        && bytes@ == layer_bytes(d.pages@[i].layers@[j])
}

/// A slot of the page region belongs to some page or stream of the plan.
pub open spec fn page_or_stream_slot(d: PdfDocument, s: int) -> bool {
    ||| (exists|i: int| 0 <= i < d.pages@.len() && s == #[trigger] page_slot(d, i as nat))
    ||| (exists|i: int, j: int|
        0 <= i < d.pages@.len() && 0 <= j < d.pages@[i].layers@.len() && s == #[trigger] stream_slot(
            d,
            i as nat,
            j as nat,
        ))
}

/// The complete correspondence between a document and a planned graph: the
/// graph holds exactly the planned objects, each at its planned slot, and
/// nothing else.
pub open spec fn graph_matches(d: PdfDocument, g: PdfObjectGraph) -> bool {
    &&& g.root == 1
    &&& g.objects@.len() == planned_len(d)
    &&& g.objects@[0] == (PdfPayload::Catalog { pages: 2u32 })
    &&& (g.objects@[1] matches PdfPayload::PageTree { kids } && kids@.len() == d.pages@.len() && (
    forall|i: int|
        0 <= i < d.pages@.len() ==> #[trigger] kids@[i] == (page_slot(d, i as nat) + 1) as u32))
    &&& forall|k: int|
        0 <= k < d.contents@.len() && doc_refs(d, k) ==> #[trigger] res_matches(d, g.objects@, k)
    &&& forall|s: int|
        2 <= s < 2 + n_res(d) ==> ((#[trigger] g.objects@[s] is FontResource || g.objects@[s]
            is VectorResource) && exists|k: int|
            0 <= k < d.contents@.len() && doc_refs(d, k) && s == res_slot(d, k as nat))
    &&& forall|i: int| 0 <= i < d.pages@.len() ==> #[trigger] page_obj_matches(d, g.objects@, i)
    &&& forall|i: int, j: int|
        0 <= i < d.pages@.len() && 0 <= j < d.pages@[i].layers@.len()
            ==> #[trigger] stream_obj_matches(d, g.objects@, i, j)
    &&& forall|s: int|
        2 + n_res(d) <= s < planned_len(d) ==> ((#[trigger] g.objects@[s] is Page || g.objects@[s]
            is ContentStream) && page_or_stream_slot(d, s))
}

/// What one planned object may reference, against the whole plan: every
/// identity it names is planned and names an object of the right kind.
pub open spec fn payload_wf(objs: Seq<PdfPayload>, p: PdfPayload) -> bool {
    match p {
        PdfPayload::Catalog { pages } => 1 <= pages <= objs.len() && objs[pages - 1] is PageTree,
        PdfPayload::PageTree { kids } => forall|i: int|
            0 <= i < kids@.len() ==> 1 <= #[trigger] kids@[i] <= objs.len() && objs[kids@[i] - 1]
                is Page,
        PdfPayload::Page { parent, contents, fonts, xobjects, .. } => {
            &&& 1 <= parent <= objs.len() && objs[parent - 1] is PageTree
            &&& forall|j: int|
                0 <= j < contents@.len() ==> 1 <= #[trigger] contents@[j] <= objs.len() && objs[
                    contents@[j] - 1
                ] is ContentStream
            &&& forall|j: int|
                0 <= j < fonts@.len() ==> 1 <= (#[trigger] fonts@[j]).1 <= objs.len() && objs[
                    fonts@[j].1 - 1
                ] is FontResource
            &&& forall|j: int|
                0 <= j < xobjects@.len() ==> 1 <= (#[trigger] xobjects@[j]).1 <= objs.len()
                    && objs[xobjects@[j].1 - 1] is VectorResource
        },
        _ => true,
    }
}

impl PdfObjectGraph {
    /// Referential integrity of the plan: its root is a planned catalog and
    /// every reference any planned object emits names a planned object of
    /// the right kind — the contract the external writer is owed.
    pub open spec fn wf(self) -> bool {
        &&& self.objects@.len() + 1 < u32::MAX
        &&& 1 <= self.root <= self.objects@.len()
        &&& self.objects@[self.root - 1] is Catalog
        &&& forall|s: int|
            0 <= s < self.objects@.len() ==> payload_wf(
                self.objects@,
                #[trigger] self.objects@[s],
            )
    }
}

/// Referencing ranks never decrease as the index bound grows.
pub proof fn lemma_rank_mono(d: PdfDocument, k1: nat, k2: nat)
    requires
        k1 <= k2,
    ensures
        rank(d, k1) <= rank(d, k2),
    decreases k2,
{
    if k2 > k1 {
        lemma_rank_mono(d, k1, (k2 - 1) as nat);
    }
}

/// A referenced entry's resource slot lies inside the resource region.
pub proof fn lemma_res_slot_in_region(d: PdfDocument, k: nat)
    requires
        k < d.contents@.len(),
        doc_refs(d, k as int),
    ensures
        rank(d, k) < n_res(d),
        res_slot(d, k) < 2 + n_res(d),
{
    assert(rank(d, (k + 1) as nat) == rank(d, k) + 1);
    lemma_rank_mono(d, (k + 1) as nat, d.contents@.len());
}

/// Object counts of page prefixes never decrease as the prefix grows.
pub proof fn lemma_layers_before_mono(pages: Seq<PdfPage>, i1: nat, i2: nat)
    requires
        i1 <= i2,
    ensures
        layers_before(pages, i1) <= layers_before(pages, i2),
    decreases i2,
{
    if i2 > i1 {
        lemma_layers_before_mono(pages, i1, (i2 - 1) as nat);
    }
}

/// A page's slots all lie inside the plan.
pub proof fn lemma_page_slots_in_plan(d: PdfDocument, i: nat)
    requires
        i < d.pages@.len(),
    ensures
        page_slot(d, i) < planned_len(d),
        forall|j: nat|
            j < d.pages@[i as int].layers@.len() ==> #[trigger] stream_slot(d, i, j) < page_slot(
                d,
                i,
            ),
{
    assert(layers_before(d.pages@, (i + 1) as nat) == layers_before(d.pages@, i) + d.pages@[
        i as int
    ].layers@.len() + 1);
    lemma_layers_before_mono(d.pages@, (i + 1) as nat, d.pages@.len());
}

/// Every slot of a page before page `i` lies below page `i`'s region.
pub proof fn lemma_slot_bounds(d: PdfDocument, i2: nat, i: nat)
    requires
        i2 < i,
        i <= d.pages@.len(),
    ensures
        page_slot(d, i2) < 2 + n_res(d) + layers_before(d.pages@, i),
        forall|j2: nat|
            j2 < d.pages@[i2 as int].layers@.len() ==> #[trigger] stream_slot(d, i2, j2)
                < page_slot(d, i2),
{
    assert(layers_before(d.pages@, (i2 + 1) as nat) == layers_before(d.pages@, i2) + d.pages@[
        i2 as int
    ].layers@.len() + 1);
    lemma_layers_before_mono(d.pages@, (i2 + 1) as nat, i);
}

/// Every entry of the font resource list names a referenced font entry and
/// that entry's resource identity.
pub proof fn lemma_font_list_entries(d: PdfDocument, k: nat)
    ensures
        forall|t: int|
            0 <= t < font_list(d, k).len() ==> exists|k2: int|
                0 <= k2 < k && doc_refs(d, k2) && d.contents@[k2] is Font && #[trigger] font_list(
                    d,
                    k,
                )[t] == (((k2 as u64), (res_slot(d, k2 as nat) + 1) as u32)),
    decreases k,
{
    if k > 0 {
        lemma_font_list_entries(d, (k - 1) as nat);
        assert forall|t: int| 0 <= t < font_list(d, k).len() implies exists|k2: int|
            0 <= k2 < k && doc_refs(d, k2) && d.contents@[k2] is Font && #[trigger] font_list(
                d,
                k,
            )[t] == (((k2 as u64), (res_slot(d, k2 as nat) + 1) as u32)) by {
            if t < font_list(d, (k - 1) as nat).len() {
                assert(font_list(d, k)[t] == font_list(d, (k - 1) as nat)[t]);
            } else {
                assert(doc_refs(d, k - 1) && d.contents@[k - 1] is Font);
                assert(font_list(d, k)[t] == (((k - 1) as u64, (res_slot(
                    d,
                    (k - 1) as nat,
                ) + 1) as u32)));
            }
        }
    }
}

/// The font resource list's entries carry strictly increasing registry
/// indices, so the list holds at most one entry per index.
pub proof fn lemma_font_list_increasing(d: PdfDocument, k: nat)
    requires
        k <= u64::MAX,
    ensures
        forall|t1: int, t2: int|
            0 <= t1 < t2 < font_list(d, k).len() ==> (#[trigger] font_list(d, k)[t1]).0 < (
            #[trigger] font_list(d, k)[t2]).0,
    decreases k,
{
    if k > 0 {
        lemma_font_list_increasing(d, (k - 1) as nat);
        lemma_font_list_entries(d, (k - 1) as nat);
        let prev = font_list(d, (k - 1) as nat);
        assert forall|t1: int, t2: int| 0 <= t1 < t2 < font_list(d, k).len() implies (
        #[trigger] font_list(d, k)[t1]).0 < (#[trigger] font_list(d, k)[t2]).0 by {
            if t2 < prev.len() {
                assert(font_list(d, k)[t1] == prev[t1]);
                assert(font_list(d, k)[t2] == prev[t2]);
            } else {
                // t2 names the entry appended for index k - 1; any earlier
                // entry names a strictly smaller index.
                assert(font_list(d, k)[t2].0 == (k - 1) as u64);
                assert(font_list(d, k)[t1] == prev[t1]);
                let k2 = choose|k2: int|
                    0 <= k2 < k - 1 && doc_refs(d, k2) && d.contents@[k2] is Font && prev[t1] == ((
                    (k2 as u64),
                    (res_slot(d, k2 as nat) + 1) as u32,
                ));
                assert(prev[t1].0 == k2 as u64);
            }
        }
    }
}

/// A referenced font entry's pair stands in every font resource list whose
/// bound lies above the entry's index.
pub proof fn lemma_font_list_contains(d: PdfDocument, k: int, m: nat)
    requires
        0 <= k < m,
        doc_refs(d, k),
        d.contents@[k] is Font,
    ensures
        exists|t: int|
            0 <= t < font_list(d, m).len() && #[trigger] font_list(d, m)[t] == (((k as u64), (
            res_slot(d, k as nat) + 1) as u32)),
    decreases m,
{
    let entry = ((k as u64), (res_slot(d, k as nat) + 1) as u32);
    if k == m - 1 {
        let t = font_list(d, (m - 1) as nat).len() as int;
        assert(font_list(d, m)[t] == entry);
    } else {
        lemma_font_list_contains(d, k, (m - 1) as nat);
        let t = choose|t: int|
            0 <= t < font_list(d, (m - 1) as nat).len() && #[trigger] font_list(d, (m - 1) as nat)[
                t
            ] == entry;
        assert(font_list(d, m)[t] == entry);
    }
}

/// Law: in a matched plan, every page's resource dictionary maps a
/// referenced font entry's name exactly once — one entry, carrying the
/// identity of the one resource object planned for that entry.  Each
/// occurrence of a text drawable selects that name in its (byte-exact)
/// text-showing instruction, so each occurrence reaches that object's
/// identity through exactly one mapping.
pub proof fn lemma_page_font_resources_map_once(d: PdfDocument, g: PdfObjectGraph, i: int, k: int)
    requires
        graph_matches(d, g),
        0 <= i < d.pages@.len(),
        0 <= k < d.contents@.len(),
        doc_refs(d, k),
        d.contents@[k] is Font,
        d.contents@.len() <= u64::MAX,
    ensures
        page_obj_matches(d, g.objects@, i),
        res_matches(d, g.objects@, k),
        exists|t: int|
            0 <= t < font_list(d, d.contents@.len()).len() && #[trigger] font_list(
                d,
                d.contents@.len(),
            )[t] == (((k as u64), (res_slot(d, k as nat) + 1) as u32)),
        forall|t1: int, t2: int|
            0 <= t1 < font_list(d, d.contents@.len()).len() && 0 <= t2 < font_list(
                d,
                d.contents@.len(),
            ).len() && (#[trigger] font_list(d, d.contents@.len())[t1]).0 == k as u64 && (
            #[trigger] font_list(d, d.contents@.len())[t2]).0 == k as u64 ==> t1 == t2,
{
    lemma_font_list_contains(d, k, d.contents@.len());
    lemma_font_list_increasing(d, d.contents@.len());
    let fl = font_list(d, d.contents@.len());
    assert forall|t1: int, t2: int|
        0 <= t1 < fl.len() && 0 <= t2 < fl.len() && (#[trigger] fl[t1]).0 == k as u64 && (
        #[trigger] fl[t2]).0 == k as u64 implies t1 == t2 by {
        if t1 < t2 {
            assert(fl[t1].0 < fl[t2].0);
        } else if t2 < t1 {
            assert(fl[t2].0 < fl[t1].0);
        }
    }
}

/// Every entry of the vector resource list names a referenced vector entry
/// and that entry's resource identity.
pub proof fn lemma_xobj_list_entries(d: PdfDocument, k: nat)
    ensures
        forall|t: int|
            0 <= t < xobj_list(d, k).len() ==> exists|k2: int|
                0 <= k2 < k && doc_refs(d, k2) && d.contents@[k2] is Vector && #[trigger] xobj_list(
                    d,
                    k,
                )[t] == (((k2 as u64), (res_slot(d, k2 as nat) + 1) as u32)),
    decreases k,
{
    if k > 0 {
        lemma_xobj_list_entries(d, (k - 1) as nat);
        assert forall|t: int| 0 <= t < xobj_list(d, k).len() implies exists|k2: int|
            0 <= k2 < k && doc_refs(d, k2) && d.contents@[k2] is Vector && #[trigger] xobj_list(
                d,
                k,
            )[t] == (((k2 as u64), (res_slot(d, k2 as nat) + 1) as u32)) by {
            if t < xobj_list(d, (k - 1) as nat).len() {
                assert(xobj_list(d, k)[t] == xobj_list(d, (k - 1) as nat)[t]);
            } else {
                assert(doc_refs(d, k - 1) && d.contents@[k - 1] is Vector);
                assert(xobj_list(d, k)[t] == (((k - 1) as u64, (res_slot(
                    d,
                    (k - 1) as nat,
                ) + 1) as u32)));
            }
        }
    }
}

/// Whether every length a page holds is small enough for the point
/// conversion.
pub open spec fn page_bounded(p: PdfPage) -> bool {
    &&& p.width.in_range()
    &&& p.height.in_range()
    &&& forall|j: int| 0 <= j < p.layers@.len() ==> layer_bounded(#[trigger] p.layers@[j])
}

/// Whether every length the document holds is small enough for the point
/// conversion.
pub open spec fn doc_bounded(d: PdfDocument) -> bool {
    forall|i: int| 0 <= i < d.pages@.len() ==> page_bounded(#[trigger] d.pages@[i])
}

/// An exact copy of a byte vector.
fn copy_bytes(v: &Vec<u8>) -> (r: Vec<u8>)
    ensures
        r@ == v@,
{
    let mut r: Vec<u8> = Vec::new();
    let mut i: usize = 0;
    while i < v.len()
        invariant
            i <= v@.len(),
            r@ == v@.take(i as int),
        decreases v@.len() - i,
    {
        r.push(v[i]);
        proof {
            assert(r@ =~= v@.take(i + 1 as int));
        }
        i = i + 1;
    }
    proof {
        assert(r@ =~= v@);
    }
    r
}

/// An exact copy of a resource list.
fn copy_pairs(v: &Vec<(u64, u32)>) -> (r: Vec<(u64, u32)>)
    ensures
        r@ == v@,
{
    let mut r: Vec<(u64, u32)> = Vec::new();
    let mut i: usize = 0;
    while i < v.len()
        invariant
            i <= v@.len(),
            r@ == v@.take(i as int),
        decreases v@.len() - i,
    {
        r.push(v[i]);
        proof {
            assert(r@ =~= v@.take(i + 1 as int));
        }
        i = i + 1;
    }
    proof {
        assert(r@ =~= v@);
    }
    r
}

impl PdfDocument {
    /// Checks every registry reference in the document: true exactly when
    /// none is dangling.
    pub fn check_refs(&self) -> (b: bool)
        ensures
            b == doc_refs_ok(*self),
    {
        let mut i: usize = 0;
        while i < self.pages.len()
            invariant
                i <= self.pages@.len(),
                forall|i2: int, j2: int, t2: int|
                    0 <= i2 < i && 0 <= j2 < self.pages@[i2].layers@.len() && 0 <= t2 < self.pages@[
                        i2
                    ].layers@[j2].drawables@.len() ==> drawable_ok(
                        self.contents@,
                        #[trigger] self.pages@[i2].layers@[j2].drawables@[t2],
                    ),
            decreases self.pages@.len() - i,
        {
            let mut j: usize = 0;
            while j < self.pages[i].layers.len()
                invariant
                    i < self.pages@.len(),
                    j <= self.pages@[i as int].layers@.len(),
                    forall|i2: int, j2: int, t2: int|
                        0 <= i2 < i && 0 <= j2 < self.pages@[i2].layers@.len() && 0 <= t2
                            < self.pages@[i2].layers@[j2].drawables@.len() ==> drawable_ok(
                            self.contents@,
                            #[trigger] self.pages@[i2].layers@[j2].drawables@[t2],
                        ),
                    forall|j2: int, t2: int|
                        0 <= j2 < j && 0 <= t2 < self.pages@[i as int].layers@[
                            j2
                        ].drawables@.len() ==> drawable_ok(
                            self.contents@,
                            #[trigger] self.pages@[i as int].layers@[j2].drawables@[t2],
                        ),
                decreases self.pages@[i as int].layers@.len() - j,
            {
                let mut t: usize = 0;
                while t < self.pages[i].layers[j].drawables.len()
                    invariant
                        i < self.pages@.len(),
                        j < self.pages@[i as int].layers@.len(),
                        t <= self.pages@[i as int].layers@[j as int].drawables@.len(),
                        forall|i2: int, j2: int, t2: int|
                            0 <= i2 < i && 0 <= j2 < self.pages@[i2].layers@.len() && 0 <= t2
                                < self.pages@[i2].layers@[j2].drawables@.len() ==> drawable_ok(
                                self.contents@,
                                #[trigger] self.pages@[i2].layers@[j2].drawables@[t2],
                            ),
                        forall|j2: int, t2: int|
                            0 <= j2 < j && 0 <= t2 < self.pages@[i as int].layers@[
                                j2
                            ].drawables@.len() ==> drawable_ok(
                                self.contents@,
                                #[trigger] self.pages@[i as int].layers@[j2].drawables@[t2],
                            ),
                        forall|t2: int|
                            0 <= t2 < t ==> drawable_ok(
                                self.contents@,
                                #[trigger] self.pages@[i as int].layers@[j as int].drawables@[t2],
                            ),
                    decreases self.pages@[i as int].layers@[j as int].drawables@.len() - t,
                {
                    let ok = match &self.pages[i].layers[j].drawables[t].kind {
                        PdfDrawableKind::Text { font, .. } => font.0 < self.contents.len()
                            && (match &self.contents[font.0] {
                            PdfContent::Font(_) => true,
                            _ => false,
                        }),
                        PdfDrawableKind::Vector { asset, .. } => asset.0 < self.contents.len()
                            && (match &self.contents[asset.0] {
                            PdfContent::Vector(_) => true,
                            _ => false,
                        }),
                        _ => true,
                    };
                    if !ok {
                        assert(!drawable_ok(
                            self.contents@,
                            self.pages@[i as int].layers@[j as int].drawables@[t as int],
                        ));
                        return false;
                    }
                    t = t + 1;
                }
                j = j + 1;
            }
            i = i + 1;
        }
        true
    }

    /// Whether some drawable of the document references registry index `k`.
    pub fn is_referenced(&self, k: usize) -> (b: bool)
        ensures
            b == doc_refs(*self, k as int),
    {
        let mut i: usize = 0;
        while i < self.pages.len()
            invariant
                i <= self.pages@.len(),
                forall|i2: int| 0 <= i2 < i ==> !page_refs(#[trigger] self.pages@[i2], k as int),
            decreases self.pages@.len() - i,
        {
            let mut j: usize = 0;
            while j < self.pages[i].layers.len()
                invariant
                    i < self.pages@.len(),
                    j <= self.pages@[i as int].layers@.len(),
                    forall|j2: int|
                        0 <= j2 < j ==> !layer_refs(
                            #[trigger] self.pages@[i as int].layers@[j2],
                            k as int,
                        ),
                decreases self.pages@[i as int].layers@.len() - j,
            {
                let mut t: usize = 0;
                while t < self.pages[i].layers[j].drawables.len()
                    invariant
                        i < self.pages@.len(),
                        j < self.pages@[i as int].layers@.len(),
                        t <= self.pages@[i as int].layers@[j as int].drawables@.len(),
                        forall|t2: int|
                            0 <= t2 < t ==> !drawable_refs(
                                #[trigger] self.pages@[i as int].layers@[j as int].drawables@[t2],
                                k as int,
                            ),
                    decreases self.pages@[i as int].layers@[j as int].drawables@.len() - t,
                {
                    let hit = match &self.pages[i].layers[j].drawables[t].kind {
                        PdfDrawableKind::Text { font, .. } => font.0 == k,
                        PdfDrawableKind::Vector { asset, .. } => asset.0 == k,
                        _ => false,
                    };
                    if hit {
                        assert(drawable_refs(
                            self.pages@[i as int].layers@[j as int].drawables@[t as int],
                            k as int,
                        ));
                        assert(layer_refs(self.pages@[i as int].layers@[j as int], k as int));
                        assert(page_refs(self.pages@[i as int], k as int));
                        assert(doc_refs(*self, k as int));
                        return true;
                    }
                    t = t + 1;
                }
                j = j + 1;
            }
            i = i + 1;
        }
        assert(!doc_refs(*self, k as int));
        false
    }

    /// Plans one resource object per referenced registry entry, in registry
    /// order, and returns the document-level font and vector resource lists.
    #[verifier::rlimit(100)]
    fn plan_resources(&self, objects: &mut Vec<PdfPayload>) -> (r: (
        Vec<(u64, u32)>,
        Vec<(u64, u32)>,
    ))
        requires
            doc_refs_ok(*self),
            planned_len(*self) + 1 < u32::MAX,
            old(objects)@.len() == 2,
            old(objects)@[0] == (PdfPayload::Catalog { pages: 2u32 }),
            old(objects)@[1] is PageTree,
        ensures
            final(objects)@.len() == 2 + n_res(*self),
            final(objects)@[0] == old(objects)@[0],
            final(objects)@[1] == old(objects)@[1],
            forall|k: int|
                0 <= k < self.contents@.len() && doc_refs(*self, k) ==> #[trigger] res_matches(
                    *self,
                    final(objects)@,
                    k,
                ),
            forall|s: int|
                2 <= s < final(objects)@.len() ==> ((#[trigger] final(objects)@[s] is FontResource
                    || final(objects)@[s] is VectorResource) && exists|k: int|
                    0 <= k < self.contents@.len() && doc_refs(*self, k) && s == res_slot(
                        *self,
                        k as nat,
                    )),
            r.0@ == font_list(*self, self.contents@.len()),
            r.1@ == xobj_list(*self, self.contents@.len()),
    {
        let mut fonts: Vec<(u64, u32)> = Vec::new();
        let mut xobjs: Vec<(u64, u32)> = Vec::new();
        let mut k: usize = 0;
        while k < self.contents.len()
            invariant
                doc_refs_ok(*self),
                planned_len(*self) + 1 < u32::MAX,
                k <= self.contents@.len(),
                objects@.len() == 2 + rank(*self, k as nat),
                objects@[0] == old(objects)@[0],
                objects@[1] == old(objects)@[1],
                forall|k2: int|
                    0 <= k2 < k && doc_refs(*self, k2) ==> #[trigger] res_matches(
                        *self,
                        objects@,
                        k2,
                    ),
                forall|s: int|
                    2 <= s < objects@.len() ==> ((#[trigger] objects@[s] is FontResource
                        || objects@[s] is VectorResource) && exists|k2: int|
                        0 <= k2 < self.contents@.len() && doc_refs(*self, k2) && s == res_slot(
                            *self,
                            k2 as nat,
                        )),
                fonts@ == font_list(*self, k as nat),
                xobjs@ == xobj_list(*self, k as nat),
            decreases self.contents@.len() - k,
        {
            let refd = self.is_referenced(k);
            proof {
                lemma_rank_mono(*self, (k + 1) as nat, self.contents@.len());
                assert(rank(*self, (k + 1) as nat) == rank(*self, k as nat) + if doc_refs(
                    *self,
                    k as int,
                ) {
                    1nat
                } else {
                    0nat
                });
                assert(font_list(*self, (k + 1) as nat) == font_list(*self, k as nat) + if doc_refs(
                    *self,
                    k as int,
                ) && self.contents@[k as int] is Font {
                    seq![((k as u64), (res_slot(*self, k as nat) + 1) as u32)]
                } else {
                    Seq::empty()
                });
                assert(xobj_list(*self, (k + 1) as nat) == xobj_list(*self, k as nat) + if doc_refs(
                    *self,
                    k as int,
                ) && self.contents@[k as int] is Vector {
                    seq![((k as u64), (res_slot(*self, k as nat) + 1) as u32)]
                } else {
                    Seq::empty()
                });
            }
            let ghost pre = objects@;
            if refd {
                let id = (objects.len() + 1) as u32;
                match &self.contents[k] {
                    PdfContent::Font(f) => {
                        let data = copy_bytes(&f.data);
                        objects.push(PdfPayload::FontResource { reg: k as u64, data });
                        fonts.push((k as u64, id));
                        proof {
                            assert(fonts@ =~= font_list(*self, (k + 1) as nat));
                            assert(xobjs@ =~= xobj_list(*self, (k + 1) as nat));
                        }
                    },
                    PdfContent::Vector(a) => {
                        let content = copy_bytes(&a.ops);
                        objects.push(PdfPayload::VectorResource { reg: k as u64, content });
                        xobjs.push((k as u64, id));
                        proof {
                            assert(fonts@ =~= font_list(*self, (k + 1) as nat));
                            assert(xobjs@ =~= xobj_list(*self, (k + 1) as nat));
                        }
                    },
                }
            } else {
                proof {
                    assert(fonts@ =~= font_list(*self, (k + 1) as nat));
                    assert(xobjs@ =~= xobj_list(*self, (k + 1) as nat));
                }
            }
            proof {
                assert forall|k2: int| 0 <= k2 < k + 1 && doc_refs(*self, k2) implies #[trigger]
                res_matches(*self, objects@, k2) by {
                    if k2 < k {
                        assert(rank(*self, (k2 + 1) as nat) == rank(*self, k2 as nat) + 1);
                        lemma_rank_mono(*self, (k2 + 1) as nat, k as nat);
                        assert(res_slot(*self, k2 as nat) < pre.len());
                        assert(objects@[res_slot(*self, k2 as nat) as int] == pre[res_slot(
                            *self,
                            k2 as nat,
                        ) as int]);
                        assert(res_matches(*self, pre, k2));
                    }
                }
            }
            k = k + 1;
        }
        (fonts, xobjs)
    }

    /// Plans, page by page, one content-stream object per layer and then the
    /// page object, and returns the page objects' identities in page order.
    #[verifier::rlimit(100)]
    fn plan_pages(
        &self,
        objects: &mut Vec<PdfPayload>,
        fonts: &Vec<(u64, u32)>,
        xobjs: &Vec<(u64, u32)>,
    ) -> (kids: Vec<u32>)
        requires
            doc_bounded(*self),
            planned_len(*self) + 1 < u32::MAX,
            old(objects)@.len() == 2 + n_res(*self),
            fonts@ == font_list(*self, self.contents@.len()),
            xobjs@ == xobj_list(*self, self.contents@.len()),
        ensures
            final(objects)@.len() == planned_len(*self),
            forall|s: int|
                0 <= s < old(objects)@.len() ==> final(objects)@[s] == old(objects)@[s],
            forall|i: int|
                0 <= i < self.pages@.len() ==> #[trigger] page_obj_matches(
                    *self,
                    final(objects)@,
                    i,
                ),
            forall|i: int, j: int|
                0 <= i < self.pages@.len() && 0 <= j < self.pages@[i].layers@.len()
                    ==> #[trigger] stream_obj_matches(*self, final(objects)@, i, j),
            forall|s: int|
                old(objects)@.len() <= s < final(objects)@.len() ==> ((#[trigger] final(objects)@[s]
                    is Page || final(objects)@[s] is ContentStream) && page_or_stream_slot(
                    *self,
                    s,
                )),
            kids@.len() == self.pages@.len(),
            forall|i: int|
                0 <= i < self.pages@.len() ==> #[trigger] kids@[i] == (page_slot(
                    *self,
                    i as nat,
                ) + 1) as u32,
    {
        let mut kids: Vec<u32> = Vec::new();
        let mut i: usize = 0;
        while i < self.pages.len()
            invariant
                doc_bounded(*self),
                planned_len(*self) + 1 < u32::MAX,
                fonts@ == font_list(*self, self.contents@.len()),
                xobjs@ == xobj_list(*self, self.contents@.len()),
                i <= self.pages@.len(),
                objects@.len() == 2 + n_res(*self) + layers_before(self.pages@, i as nat),
                forall|s: int|
                    0 <= s < old(objects)@.len() ==> objects@[s] == old(objects)@[s],
                old(objects)@.len() == 2 + n_res(*self),
                forall|i2: int|
                    0 <= i2 < i ==> #[trigger] page_obj_matches(*self, objects@, i2),
                forall|i2: int, j2: int|
                    0 <= i2 < i && 0 <= j2 < self.pages@[i2].layers@.len()
                        ==> #[trigger] stream_obj_matches(*self, objects@, i2, j2),
                forall|s: int|
                    old(objects)@.len() <= s < objects@.len() ==> ((#[trigger] objects@[s] is Page
                        || objects@[s] is ContentStream) && page_or_stream_slot(*self, s)),
                kids@.len() == i,
                forall|i2: int|
                    0 <= i2 < i ==> #[trigger] kids@[i2] == (page_slot(*self, i2 as nat) + 1) as u32,
            decreases self.pages@.len() - i,
        {
            proof {
                lemma_page_slots_in_plan(*self, i as nat);
                assert(layers_before(self.pages@, (i + 1) as nat) == layers_before(
                    self.pages@,
                    i as nat,
                ) + self.pages@[i as int].layers@.len() + 1);
            }
            let mut stream_ids: Vec<u32> = Vec::new();
            let mut j: usize = 0;
            while j < self.pages[i].layers.len()
                invariant
                    doc_bounded(*self),
                    planned_len(*self) + 1 < u32::MAX,
                    i < self.pages@.len(),
                    j <= self.pages@[i as int].layers@.len(),
                    objects@.len() == 2 + n_res(*self) + layers_before(self.pages@, i as nat) + j,
                    objects@.len() + (self.pages@[i as int].layers@.len() - j) + 1 <= planned_len(
                        *self,
                    ),
                    forall|s: int|
                        0 <= s < old(objects)@.len() ==> objects@[s] == old(objects)@[s],
                    old(objects)@.len() == 2 + n_res(*self),
                    forall|i2: int|
                        0 <= i2 < i ==> #[trigger] page_obj_matches(*self, objects@, i2),
                    forall|i2: int, j2: int|
                        0 <= i2 < i && 0 <= j2 < self.pages@[i2].layers@.len()
                            ==> #[trigger] stream_obj_matches(*self, objects@, i2, j2),
                    forall|j2: int|
                        0 <= j2 < j ==> #[trigger] stream_obj_matches(*self, objects@, i as int, j2),
                    forall|s: int|
                        old(objects)@.len() <= s < objects@.len() ==> ((#[trigger] objects@[s]
                            is Page || objects@[s] is ContentStream) && page_or_stream_slot(
                            *self,
                            s,
                        )),
                    stream_ids@.len() == j,
                    forall|j2: int|
                        0 <= j2 < j ==> #[trigger] stream_ids@[j2] == (stream_slot(
                            *self,
                            i as nat,
                            j2 as nat,
                        ) + 1) as u32,
                decreases self.pages@[i as int].layers@.len() - j,
            {
                let bytes = crate::encode::lower_layer(&self.pages[i].layers[j]);
                let id = (objects.len() + 1) as u32;
                let ghost pre = objects@;
                objects.push(PdfPayload::ContentStream { bytes });
                stream_ids.push(id);
                proof {
                    assert(stream_slot(*self, i as nat, j as nat) == pre.len());
                    assert(stream_obj_matches(*self, objects@, i as int, j as int));
                    assert forall|i2: int| 0 <= i2 < i implies #[trigger] page_obj_matches(
                        *self,
                        objects@,
                        i2,
                    ) by {
                        lemma_slot_bounds(*self, i2 as nat, i as nat);
                        assert(page_obj_matches(*self, pre, i2));
                        assert(objects@[page_slot(*self, i2 as nat) as int] == pre[page_slot(
                            *self,
                            i2 as nat,
                        ) as int]);
                    }
                    assert forall|i2: int, j2: int|
                        0 <= i2 < i && 0 <= j2 < self.pages@[i2].layers@.len()
                            implies #[trigger] stream_obj_matches(*self, objects@, i2, j2) by {
                        lemma_slot_bounds(*self, i2 as nat, i as nat);
                        assert(stream_slot(*self, i2 as nat, j2 as nat) < page_slot(
                            *self,
                            i2 as nat,
                        ));
                        assert(stream_obj_matches(*self, pre, i2, j2));
                        assert(objects@[stream_slot(*self, i2 as nat, j2 as nat) as int]
                            == pre[stream_slot(*self, i2 as nat, j2 as nat) as int]);
                    }
                    assert forall|j2: int| 0 <= j2 < j implies #[trigger] stream_obj_matches(
                        *self,
                        objects@,
                        i as int,
                        j2,
                    ) by {
                        assert(stream_obj_matches(*self, pre, i as int, j2));
                        assert(stream_slot(*self, i as nat, j2 as nat) < pre.len());
                    }
                }
                j = j + 1;
            }
            let width_pt = crate::units::mm_to_pt(self.pages[i].width);
            let height_pt = crate::units::mm_to_pt(self.pages[i].height);
            let page_id = (objects.len() + 1) as u32;
            let page_fonts = copy_pairs(fonts);
            let page_xobjs = copy_pairs(xobjs);
            let ghost pre = objects@;
            objects.push(
                PdfPayload::Page {
                    parent: 2,
                    width_pt,
                    height_pt,
                    contents: stream_ids,
                    fonts: page_fonts,
                    xobjects: page_xobjs,
                },
            );
            kids.push(page_id);
            proof {
                assert(page_slot(*self, i as nat) == pre.len());
                assert(page_obj_matches(*self, objects@, i as int));
                assert forall|i2: int| 0 <= i2 < i implies #[trigger] page_obj_matches(
                    *self,
                    objects@,
                    i2,
                ) by {
                    lemma_slot_bounds(*self, i2 as nat, i as nat);
                    assert(page_obj_matches(*self, pre, i2));
                    assert(objects@[page_slot(*self, i2 as nat) as int] == pre[page_slot(
                        *self,
                        i2 as nat,
                    ) as int]);
                }
                assert forall|i2: int, j2: int|
                    0 <= i2 < i && 0 <= j2 < self.pages@[i2].layers@.len()
                        implies #[trigger] stream_obj_matches(*self, objects@, i2, j2) by {
                    lemma_slot_bounds(*self, i2 as nat, i as nat);
                    assert(stream_slot(*self, i2 as nat, j2 as nat) < page_slot(*self, i2 as nat));
                    assert(stream_obj_matches(*self, pre, i2, j2));
                    assert(objects@[stream_slot(*self, i2 as nat, j2 as nat) as int]
                        == pre[stream_slot(*self, i2 as nat, j2 as nat) as int]);
                }
                assert forall|j2: int|
                    0 <= j2 < self.pages@[i as int].layers@.len()
                        implies #[trigger] stream_obj_matches(*self, objects@, i as int, j2) by {
                    assert(stream_obj_matches(*self, pre, i as int, j2));
                    assert(stream_slot(*self, i as nat, j2 as nat) < pre.len());
                }
            }
            i = i + 1;
        }
        kids
    }

    /// Plans the whole object graph for the document's current state.
    ///
    /// Fails with `DanglingContentReference` exactly when some drawable
    /// references a registry index with no matching entry; no partial plan is
    /// handed out.  On success the plan corresponds to the document
    /// completely (`graph_matches`) and is well-formed: every reference it
    /// emits resolves to a planned object of the right kind.
    pub fn build_graph(&self) -> (r: Result<PdfObjectGraph, crate::errors::SerializationError>)
        requires
            doc_bounded(*self),
            planned_len(*self) + 1 < u32::MAX,
        ensures
            r is Ok <==> doc_refs_ok(*self),
            r is Err ==> r->Err_0 == crate::errors::SerializationError::DanglingContentReference,
            r is Ok ==> graph_matches(*self, r->Ok_0) && r->Ok_0.wf(),
    {
        if !self.check_refs() {
            return Err(crate::errors::SerializationError::DanglingContentReference);
        }
        let mut objects: Vec<PdfPayload> = Vec::new();
        objects.push(PdfPayload::Catalog { pages: 2 });
        objects.push(PdfPayload::PageTree { kids: Vec::new() });
        let (fonts, xobjs) = self.plan_resources(&mut objects);
        let ghost after_res = objects@;
        let kids = self.plan_pages(&mut objects, &fonts, &xobjs);
        let ghost pre = objects@;
        objects[1] = PdfPayload::PageTree { kids };
        let g = PdfObjectGraph { objects, root: 1 };
        proof {
            assert(g.objects@ == pre.update(1, PdfPayload::PageTree { kids }));
            assert forall|k: int| 0 <= k < self.contents@.len() && doc_refs(*self, k)
                implies #[trigger] res_matches(*self, g.objects@, k) by {
                lemma_res_slot_in_region(*self, k as nat);
                assert(res_matches(*self, after_res, k));
                assert(pre[res_slot(*self, k as nat) as int] == after_res[res_slot(
                    *self,
                    k as nat,
                ) as int]);
                assert(res_matches(*self, pre, k));
                assert(g.objects@[res_slot(*self, k as nat) as int] == pre[res_slot(
                    *self,
                    k as nat,
                ) as int]);
            }
            assert forall|i: int| 0 <= i < self.pages@.len() implies #[trigger] page_obj_matches(
                *self,
                g.objects@,
                i,
            ) by {
                assert(page_obj_matches(*self, pre, i));
                lemma_page_slots_in_plan(*self, i as nat);
                assert(page_slot(*self, i as nat) >= 2);
                assert(g.objects@[page_slot(*self, i as nat) as int] == pre[page_slot(
                    *self,
                    i as nat,
                ) as int]);
            }
            assert forall|i: int, j: int|
                0 <= i < self.pages@.len() && 0 <= j < self.pages@[i].layers@.len()
                    implies #[trigger] stream_obj_matches(*self, g.objects@, i, j) by {
                assert(stream_obj_matches(*self, pre, i, j));
                lemma_page_slots_in_plan(*self, i as nat);
                assert(stream_slot(*self, i as nat, j as nat) < page_slot(*self, i as nat));
                assert(stream_slot(*self, i as nat, j as nat) >= 2);
                assert(g.objects@[stream_slot(*self, i as nat, j as nat) as int] == pre[stream_slot(
                    *self,
                    i as nat,
                    j as nat,
                ) as int]);
            }
            assert(graph_matches(*self, g));
            lemma_matches_wf(*self, g);
        }
        Ok(g)
    }
}

/// A plan that corresponds to a document completely is well-formed: every
/// reference any planned object emits names a planned object of the right
/// kind, so nothing the external writer receives dangles.
pub proof fn lemma_matches_wf(d: PdfDocument, g: PdfObjectGraph)
    requires
        graph_matches(d, g),
        planned_len(d) + 1 < u32::MAX,
    ensures
        g.wf(),
{
    let objs = g.objects@;
    assert forall|s: int| 0 <= s < objs.len() implies payload_wf(objs, #[trigger] objs[s]) by {
        if s == 0 {
            assert(payload_wf(objs, objs[s]));
        } else if s == 1 {
            let kids = objs[1]->PageTree_kids;
            assert forall|t: int| 0 <= t < kids@.len() implies 1 <= #[trigger] kids@[t]
                <= objs.len() && objs[kids@[t] - 1] is Page by {
                lemma_page_slots_in_plan(d, t as nat);
                assert(kids@[t] == (page_slot(d, t as nat) + 1) as u32);
                assert(page_obj_matches(d, objs, t));
            }
            assert(payload_wf(objs, objs[s]));
        } else if s < 2 + n_res(d) {
            assert(objs[s] is FontResource || objs[s] is VectorResource);
            assert(payload_wf(objs, objs[s]));
        } else {
            if objs[s] is Page {
                assert(page_or_stream_slot(d, s));
                let i = choose|i: int| 0 <= i < d.pages@.len() && s == #[trigger] page_slot(d, i as nat);
                if !(0 <= i < d.pages@.len() && s == page_slot(d, i as nat)) {
                    // The slot cannot be a stream slot either: a stream slot
                    // holds a ContentStream, and this one holds a Page.
                    let (i2, j2) = choose|i2: int, j2: int|
                        0 <= i2 < d.pages@.len() && 0 <= j2 < d.pages@[i2].layers@.len() && s
                            == #[trigger] stream_slot(d, i2 as nat, j2 as nat);
                    assert(stream_obj_matches(d, objs, i2, j2));
                    assert(false);
                }
                assert(page_obj_matches(d, objs, i));
                lemma_page_slots_in_plan(d, i as nat);
                let contents = objs[s]->Page_contents;
                assert forall|j: int| 0 <= j < contents@.len() implies 1 <= #[trigger] contents@[j]
                    <= objs.len() && objs[contents@[j] - 1] is ContentStream by {
                    assert(contents@[j] == (stream_slot(d, i as nat, j as nat) + 1) as u32);
                    assert(stream_slot(d, i as nat, j as nat) < page_slot(d, i as nat));
                    assert(stream_obj_matches(d, objs, i, j));
                }
                let fonts = objs[s]->Page_fonts;
                lemma_font_list_entries(d, d.contents@.len());
                assert forall|j: int| 0 <= j < fonts@.len() implies 1 <= (#[trigger] fonts@[j]).1
                    <= objs.len() && objs[fonts@[j].1 - 1] is FontResource by {
                    let k2 = choose|k2: int|
                        0 <= k2 < d.contents@.len() && doc_refs(d, k2) && d.contents@[k2] is Font
                            && fonts@[j] == (((k2 as u64), (res_slot(d, k2 as nat) + 1) as u32));
                    lemma_res_slot_in_region(d, k2 as nat);
                    assert(res_matches(d, objs, k2));
                }
                let xobjects = objs[s]->Page_xobjects;
                lemma_xobj_list_entries(d, d.contents@.len());
                assert forall|j: int| 0 <= j < xobjects@.len() implies 1 <= (
                #[trigger] xobjects@[j]).1 <= objs.len() && objs[xobjects@[j].1 - 1]
                    is VectorResource by {
                    let k2 = choose|k2: int|
                        0 <= k2 < d.contents@.len() && doc_refs(d, k2) && d.contents@[k2] is Vector
                            && xobjects@[j] == (((k2 as u64), (res_slot(d, k2 as nat) + 1) as u32));
                    lemma_res_slot_in_region(d, k2 as nat);
                    assert(res_matches(d, objs, k2));
                }
                assert(payload_wf(objs, objs[s]));
            } else {
                assert(objs[s] is ContentStream);
                assert(payload_wf(objs, objs[s]));
            }
        }
    }
}

/// Law: however many drawables reference one registry entry, the planned
/// graph holds exactly one resource object for it — deduplication is by
/// registry index, never by content — and it stands at the entry's slot.
pub proof fn lemma_one_resource_object_per_entry(d: PdfDocument, g: PdfObjectGraph, k: int)
    requires
        graph_matches(d, g),
        0 <= k < d.contents@.len(),
        doc_refs(d, k),
    ensures
        res_matches(d, g.objects@, k),
        forall|s: int|
            0 <= s < g.objects@.len() && ((#[trigger] g.objects@[s]) matches
                PdfPayload::FontResource { reg, .. } && reg == k as u64) ==> s == res_slot(
                d,
                k as nat,
            ) as int,
        forall|s: int|
            0 <= s < g.objects@.len() && ((#[trigger] g.objects@[s]) matches
                PdfPayload::VectorResource { reg, .. } && reg == k as u64) ==> s == res_slot(
                d,
                k as nat,
            ) as int,
{
    let objs = g.objects@;
    assert forall|s: int|
        0 <= s < objs.len() && (((#[trigger] objs[s]) matches PdfPayload::FontResource { reg, .. }
            && reg == k as u64) || (objs[s] matches PdfPayload::VectorResource { reg, .. } && reg
            == k as u64)) implies s == res_slot(d, k as nat) as int by {
        assert(s != 0 && s != 1);
        assert(s < 2 + n_res(d));
        let k2 = choose|k2: int|
            0 <= k2 < d.contents@.len() && doc_refs(d, k2) && s == #[trigger] res_slot(d, k2 as nat);
        assert(res_matches(d, objs, k2));
        assert(k2 as u64 == k as u64);
        assert(k2 == k);
    }
}

/// Referencing ranks vanish in a document with no pages.
pub proof fn lemma_rank_zero(d: PdfDocument, k: nat)
    requires
        d.pages@.len() == 0,
    ensures
        rank(d, k) == 0,
    decreases k,
{
    if k > 0 {
        lemma_rank_zero(d, (k - 1) as nat);
        assert(!doc_refs(d, k - 1));
    }
}

/// Law: a document with no pages still plans a structurally valid, minimal
/// graph — the catalog and an empty page tree, no drawable content and no
/// resource objects.
pub proof fn lemma_empty_document_minimal(d: PdfDocument, g: PdfObjectGraph)
    requires
        d.pages@.len() == 0,
        graph_matches(d, g),
    ensures
        g.objects@.len() == 2,
        g.objects@[0] == (PdfPayload::Catalog { pages: 2u32 }),
        g.objects@[1] matches PdfPayload::PageTree { kids } && kids@.len() == 0,
        g.wf(),
{
    lemma_rank_zero(d, d.contents@.len());
    assert(planned_len(d) == 2);
    lemma_matches_wf(d, g);
}

} // verus!
