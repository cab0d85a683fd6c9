//! The document tree: Document → ordered Pages → ordered Layers → ordered
//! positioned Drawables, with stable composite addressing.
//!
//! Every level is append-only: nodes are never removed or reordered, so an
//! address handed out by a mutation stays valid for the document's lifetime.
//! Addresses are plain comparable values, not owning references; they are
//! validated on every resolution and resolution may fail, never panic.

use vstd::prelude::*;
use crate::units::Mm;
use crate::errors::AddressError;
use crate::content::{Font, VectorAsset, PdfContent};

verus! {

/// Address of a page: its slot in the document's page sequence.
pub type PdfPageIndex = usize;

/// Address of a layer: the owning page's address plus the layer's slot.
pub type PdfLayerIndex = (PdfPageIndex, usize);

/// Address of a positioned drawable: the owning layer's address plus the
/// drawable's slot.
pub type PdfMarkerIndex = (PdfPageIndex, usize, usize);

/// Index of an entry in the content registry.
pub type PdfContentIndex = usize;

/// Registry index handed out for a font entry.
#[derive(Clone, Copy, Debug, PartialEq, Eq, Structural)]
pub struct FontIndex(pub PdfContentIndex);

/// Registry index handed out for a vector-asset entry.
#[derive(Clone, Copy, Debug, PartialEq, Eq, Structural)]
pub struct SvgIndex(pub PdfContentIndex);

/// A placement point on a page, in real-world units.
#[derive(Clone, Copy, Debug, PartialEq, Eq, Structural)]
pub struct PdfMarker {
    /// Horizontal distance from the page's lower-left corner.
    pub x: Mm,
    /// Vertical distance from the page's lower-left corner.
    pub y: Mm,
}

/// Stroke parameters for a line drawable.
#[derive(Clone, Copy, Debug, PartialEq, Eq, Structural)]
pub struct Outline {
    /// Stroke width.
    pub thickness: Mm,
}

/// Fill parameter for a line drawable: the enclosed area is painted.
#[derive(Clone, Copy, Debug, PartialEq, Eq, Structural)]
pub struct Fill {}

/// What a drawable draws, beyond its placement point.
#[derive(Clone, Debug)]
pub enum PdfDrawableKind {
    /// A bare placement point: an addressable cursor target that lowers to no
    /// visible instruction.
    Marker,
    /// A text run in a registered font at a given size.
    Text {
        /// The text bytes, written as a string object in the content stream.
        text: Vec<u8>,
        /// Registry index of the font the run is set in.
        font: FontIndex,
        /// Font size in points.
        font_size: u64,
    },
    /// A polyline path. Each point carries a flag that, when set, begins a
    /// new subpath at that point; the first point always begins one.
    Line {
        /// The path's points in drawing order.
        points: Vec<(PdfMarker, bool)>,
        /// Stroke parameters; the path is stroked when present.
        outline: Option<Outline>,
        /// Fill parameter; the path is filled when present.
        fill: Option<Fill>,
    },
    /// A placement of a registered vector asset, scaled to a requested size.
    Vector {
        /// Registry index of the placed asset.
        asset: SvgIndex,
        /// Requested width of the placed asset.
        width: Mm,
        /// Requested height of the placed asset.
        height: Mm,
    },
}

/// A positioned unit of content: a placement point plus what is drawn there.
#[derive(Clone, Debug)]
pub struct PdfDrawable {
    /// The placement point.
    pub at: PdfMarker,
    /// What is drawn at the point.
    pub kind: PdfDrawableKind,
}

/// A layer: an ordered, append-only sequence of drawables with a display name.
#[derive(Clone, Debug)]
pub struct PdfLayer {
    /// The layer's display name.
    pub name: String,
    /// The layer's drawables, in insertion order.
    pub drawables: Vec<PdfDrawable>,
}

/// A page: physical dimensions plus an ordered, append-only layer sequence.
#[derive(Clone, Debug)]
pub struct PdfPage {
    /// Page width.
    pub width: Mm,
    /// Page height.
    pub height: Mm,
    /// The page's layers, in insertion order.
    pub layers: Vec<PdfLayer>,
}

impl PdfPage {
    /// Creates a page of the given dimensions with no layers.
    pub fn new(width: Mm, height: Mm) -> (r: PdfPage)
        ensures
            r.width == width,
            r.height == height,
            r.layers@.len() == 0,
    {
        PdfPage { width, height, layers: Vec::new() }
    }
}

/// The whole document: pages, metadata, the content registry, and the current
/// marker the document tracks as a cursor.
#[derive(Debug)]
pub struct PdfDocument {
    /// The pages, in creation order; append-only.
    pub pages: Vec<PdfPage>,
    /// Document title metadata.
    pub title: String,
    /// Document creator metadata.
    pub creator: String,
    /// The content registry: deferred content items, append-only, referenced
    /// by stable indices.
    pub contents: Vec<PdfContent>,
    /// The current marker address. Set without validation; it is validated
    /// when it is later resolved.
    pub current_marker: PdfMarkerIndex,
}

/// Whether a page address resolves in the document.
pub open spec fn valid_page(d: PdfDocument, p: PdfPageIndex) -> bool {
    (p as int) < d.pages@.len()
}

/// Whether a layer address resolves in the document.
pub open spec fn valid_layer(d: PdfDocument, l: PdfLayerIndex) -> bool {
    valid_page(d, l.0) && (l.1 as int) < d.pages@[l.0 as int].layers@.len()
}

/// Whether a position address resolves in the document.
pub open spec fn valid_marker(d: PdfDocument, m: PdfMarkerIndex) -> bool {
    valid_layer(d, (m.0, m.1)) && (m.2 as int)
        < d.pages@[m.0 as int].layers@[m.1 as int].drawables@.len()
}

/// The metadata, registry and marker of `post` are those of `pre`.
pub open spec fn same_meta(pre: PdfDocument, post: PdfDocument) -> bool {
    &&& post.title == pre.title
    &&& post.creator == pre.creator
    &&& post.contents == pre.contents
    &&& post.current_marker == pre.current_marker
}

/// `post` is `pre` with one fresh empty page of the given size appended at
/// slot `idx`.
pub open spec fn page_added(
    pre: PdfDocument,
    post: PdfDocument,
    width: Mm,
    height: Mm,
    idx: PdfPageIndex,
) -> bool {
    &&& idx == pre.pages@.len()
    &&& post.pages@.len() == pre.pages@.len() + 1
    &&& forall|i: int| 0 <= i < pre.pages@.len() ==> post.pages@[i] == pre.pages@[i]
    &&& post.pages@.last().width == width
    &&& post.pages@.last().height == height
    &&& post.pages@.last().layers@.len() == 0
    &&& same_meta(pre, post)
}

/// `post` is `pre` with one fresh empty layer named `name` appended to page
/// `l.0` at slot `l.1`.
pub open spec fn layer_added(
    pre: PdfDocument,
    post: PdfDocument,
    l: PdfLayerIndex,
    name: Seq<char>,
) -> bool {
    &&& valid_page(pre, l.0)
    &&& l.1 == pre.pages@[l.0 as int].layers@.len()
    &&& post.pages@.len() == pre.pages@.len()
    &&& forall|i: int|
        0 <= i < pre.pages@.len() && i != l.0 as int ==> post.pages@[i] == pre.pages@[i]
    &&& post.pages@[l.0 as int].width == pre.pages@[l.0 as int].width
    &&& post.pages@[l.0 as int].height == pre.pages@[l.0 as int].height
    &&& post.pages@[l.0 as int].layers@.len() == pre.pages@[l.0 as int].layers@.len() + 1
    &&& forall|j: int|
        0 <= j < pre.pages@[l.0 as int].layers@.len()
            ==> post.pages@[l.0 as int].layers@[j] == pre.pages@[l.0 as int].layers@[j]
    &&& post.pages@[l.0 as int].layers@.last().name@ == name
    &&& post.pages@[l.0 as int].layers@.last().drawables@.len() == 0
    &&& same_meta(pre, post)
}

/// `post` is `pre` with the drawable `d` appended to layer `l`.
pub open spec fn drawable_appended(
    pre: PdfDocument,
    post: PdfDocument,
    l: PdfLayerIndex,
    d: PdfDrawable,
) -> bool {
    &&& valid_layer(pre, l)
    &&& post.pages@.len() == pre.pages@.len()
    &&& forall|i: int|
        0 <= i < pre.pages@.len() && i != l.0 as int ==> post.pages@[i] == pre.pages@[i]
    &&& post.pages@[l.0 as int].width == pre.pages@[l.0 as int].width
    &&& post.pages@[l.0 as int].height == pre.pages@[l.0 as int].height
    &&& post.pages@[l.0 as int].layers@.len() == pre.pages@[l.0 as int].layers@.len()
    &&& forall|j: int|
        0 <= j < pre.pages@[l.0 as int].layers@.len() && j != l.1 as int
            ==> post.pages@[l.0 as int].layers@[j] == pre.pages@[l.0 as int].layers@[j]
    &&& post.pages@[l.0 as int].layers@[l.1 as int].name
        == pre.pages@[l.0 as int].layers@[l.1 as int].name
    &&& post.pages@[l.0 as int].layers@[l.1 as int].drawables@
        == pre.pages@[l.0 as int].layers@[l.1 as int].drawables@.push(d)
    &&& same_meta(pre, post)
}

/// `post` is `pre` with the placement point of the drawable at address `m`
/// replaced by `at`; everything else is untouched.
pub open spec fn drawable_point_updated(
    pre: PdfDocument,
    post: PdfDocument,
    m: PdfMarkerIndex,
    at: PdfMarker,
) -> bool {
    &&& valid_marker(pre, m)
    &&& post.pages@.len() == pre.pages@.len()
    &&& forall|i: int|
        0 <= i < pre.pages@.len() && i != m.0 as int ==> post.pages@[i] == pre.pages@[i]
    &&& post.pages@[m.0 as int].width == pre.pages@[m.0 as int].width
    &&& post.pages@[m.0 as int].height == pre.pages@[m.0 as int].height
    &&& post.pages@[m.0 as int].layers@.len() == pre.pages@[m.0 as int].layers@.len()
    &&& forall|j: int|
        0 <= j < pre.pages@[m.0 as int].layers@.len() && j != m.1 as int
            ==> post.pages@[m.0 as int].layers@[j] == pre.pages@[m.0 as int].layers@[j]
    &&& post.pages@[m.0 as int].layers@[m.1 as int].name
        == pre.pages@[m.0 as int].layers@[m.1 as int].name
    &&& post.pages@[m.0 as int].layers@[m.1 as int].drawables@
        == pre.pages@[m.0 as int].layers@[m.1 as int].drawables@.update(
        m.2 as int,
        PdfDrawable {
            at,
            kind: pre.pages@[m.0 as int].layers@[m.1 as int].drawables@[m.2 as int].kind,
        },
    )
    &&& same_meta(pre, post)
}

/// `post` is `pre` with one content item registered at index `idx`; the tree
/// and metadata are untouched.
pub open spec fn content_added(pre: PdfDocument, post: PdfDocument, idx: PdfContentIndex) -> bool {
    &&& idx == pre.contents@.len()
    &&& post.contents@.len() == pre.contents@.len() + 1
    &&& forall|k: int| 0 <= k < pre.contents@.len() ==> post.contents@[k] == pre.contents@[k]
    &&& post.pages == pre.pages
    &&& post.title == pre.title
    &&& post.creator == pre.creator
    &&& post.current_marker == pre.current_marker
}

/// The `Option<&T>` handed to a mutation, as the owned value it stores.
pub open spec fn copied_outline(o: Option<&Outline>) -> Option<Outline> {
    match o {
        Option::Some(v) => Option::Some(*v),
        Option::None => Option::None,
    }
}

/// The `Option<&T>` handed to a mutation, as the owned value it stores.
pub open spec fn copied_fill(o: Option<&Fill>) -> Option<Fill> {
    match o {
        Option::Some(v) => Option::Some(*v),
        Option::None => Option::None,
    }
}

impl PdfDocument {
    /// Creates a document holding one initial page and the given metadata.
    /// The current marker starts at the very first position address.
    pub fn new(initial_page: PdfPage, title: String, creator: String) -> (r: PdfDocument)
        ensures
            r.pages@ =~= seq![initial_page],
            r.title == title,
            r.creator == creator,
            r.contents@.len() == 0,
            r.current_marker == (0usize, 0usize, 0usize),
    {
        let mut pages: Vec<PdfPage> = Vec::new();
        pages.push(initial_page);
        PdfDocument {
            pages,
            title,
            creator,
            contents: Vec::new(),
            current_marker: (0, 0, 0),
        }
    }

    /// Creates a document with no pages and the given metadata.
    pub fn empty(title: String, creator: String) -> (r: PdfDocument)
        ensures
            r.pages@.len() == 0,
            r.title == title,
            r.creator == creator,
            r.contents@.len() == 0,
            r.current_marker == (0usize, 0usize, 0usize),
    {
        PdfDocument {
            pages: Vec::new(),
            title,
            creator,
            contents: Vec::new(),
            current_marker: (0, 0, 0),
        }
    }

    /// Appends a fresh empty page and returns its address. Never fails.
    pub fn add_page(&mut self, width: Mm, height: Mm) -> (idx: PdfPageIndex)
        ensures
            page_added(*old(self), *final(self), width, height, idx),
    {
        self.pages.push(PdfPage::new(width, height));
        self.pages.len() - 1
    }

    /// Appends a fresh empty layer to the addressed page and returns the
    /// layer's address. Fails with `InvalidPage` exactly when the page
    /// address is out of range, leaving the document unchanged.
    pub fn add_layer(&mut self, name: String, page: &PdfPageIndex) -> (r: Result<
        PdfLayerIndex,
        AddressError,
    >)
        ensures
            r is Ok <==> valid_page(*old(self), *page),
            r is Err ==> r->Err_0 == AddressError::InvalidPage && *final(self) == *old(self),
            r is Ok ==> r->Ok_0 == (*page, old(self).pages@[*page as int].layers@.len() as usize)
                && layer_added(*old(self), *final(self), r->Ok_0, name@),
    {
        if *page >= self.pages.len() {
            return Err(AddressError::InvalidPage);
        }
        let slot = self.pages[*page].layers.len();
        self.pages[*page].layers.push(PdfLayer { name, drawables: Vec::new() });
        Ok((*page, slot))
    }

    /// Appends a bare marker drawable to the addressed layer and returns its
    /// position address. Fails with `InvalidLayer` exactly when the layer
    /// address's page or layer component is out of range, leaving the
    /// document unchanged.
    pub fn add_marker(&mut self, x: Mm, y: Mm, layer: &PdfLayerIndex) -> (r: Result<
        PdfMarkerIndex,
        AddressError,
    >)
        ensures
            r is Ok <==> valid_layer(*old(self), *layer),
            r is Err ==> r->Err_0 == AddressError::InvalidLayer && *final(self) == *old(self),
            r is Ok ==> r->Ok_0 == (
                layer.0,
                layer.1,
                old(self).pages@[layer.0 as int].layers@[layer.1 as int].drawables@.len() as usize,
            ) && drawable_appended(
                *old(self),
                *final(self),
                *layer,
                PdfDrawable { at: PdfMarker { x, y }, kind: PdfDrawableKind::Marker },
            ),
    {
        if layer.0 >= self.pages.len() || layer.1 >= self.pages[layer.0].layers.len() {
            return Err(AddressError::InvalidLayer);
        }
        let slot = self.pages[layer.0].layers[layer.1].drawables.len();
        self.pages[layer.0].layers[layer.1].drawables.push(
            PdfDrawable { at: PdfMarker { x, y }, kind: PdfDrawableKind::Marker },
        );
        Ok((layer.0, layer.1, slot))
    }

    /// Registers a content item and returns its stable registry index.
    /// Never fails; the registry is append-only and indices are never reused.
    pub fn add_arbitrary_content(&mut self, content: PdfContent) -> (idx: PdfContentIndex)
        ensures
            content_added(*old(self), *final(self), idx),
            final(self).contents@.last() == content,
    {
        self.contents.push(content);
        self.contents.len() - 1
    }

    /// Parses a font from a byte stream and registers it. On a parse failure
    /// nothing is registered.
    pub fn add_font(&mut self, font_stream: Vec<u8>) -> (r: Result<FontIndex, crate::errors::ContentError>)
        ensures
            r is Ok <==> font_stream@.len() > 0,
            r is Err ==> r->Err_0 == crate::errors::ContentError::FontParseFailed
                && *final(self) == *old(self),
            r is Ok ==> r->Ok_0.0 == old(self).contents@.len()
                && content_added(*old(self), *final(self), r->Ok_0.0)
                && (final(self).contents@.last() matches PdfContent::Font(f) && f.data@
                == font_stream@),
    {
        let font = Font::new(font_stream)?;
        let idx = self.add_arbitrary_content(PdfContent::Font(font));
        Ok(FontIndex(idx))
    }

    /// Parses vector-path data and registers it. On a parse failure nothing
    /// is registered.
    pub fn add_svg(&mut self, svg_data: Vec<u8>) -> (r: Result<SvgIndex, crate::errors::ContentError>)
        ensures
            r is Ok <==> svg_data@.len() > 0,
            r is Err ==> r->Err_0 == crate::errors::ContentError::VectorParseFailed
                && *final(self) == *old(self),
            r is Ok ==> r->Ok_0.0 == old(self).contents@.len()
                && content_added(*old(self), *final(self), r->Ok_0.0)
                && (final(self).contents@.last() matches PdfContent::Vector(a) && a.ops@
                == svg_data@),
    {
        let asset = VectorAsset::new(svg_data)?;
        let idx = self.add_arbitrary_content(PdfContent::Vector(asset));
        Ok(SvgIndex(idx))
    }

    /// Appends a text drawable at the addressed position's placement point,
    /// in the same layer, and returns the created drawable's address. The
    /// registry reference is not validated here; a dangling one is caught
    /// when the document is saved. Fails with the first failing link of the
    /// position address, leaving the document unchanged.
    pub fn add_text(
        &mut self,
        text: Vec<u8>,
        font: FontIndex,
        font_size: u64,
        position: &PdfMarkerIndex,
    ) -> (r: Result<PdfMarkerIndex, AddressError>)
        ensures
            r is Ok <==> valid_marker(*old(self), *position),
            r is Err ==> *final(self) == *old(self),
            !valid_page(*old(self), position.0) ==> r is Err && r->Err_0
                == AddressError::InvalidPage,
            valid_page(*old(self), position.0) && !valid_layer(
                *old(self),
                (position.0, position.1),
            ) ==> r is Err && r->Err_0 == AddressError::InvalidLayer,
            valid_layer(*old(self), (position.0, position.1)) && !valid_marker(
                *old(self),
                *position,
            ) ==> r is Err && r->Err_0 == AddressError::InvalidPosition,
            r is Ok ==> r->Ok_0 == (
                position.0,
                position.1,
                old(self).pages@[position.0 as int].layers@[
                    position.1 as int
                ].drawables@.len() as usize,
            ) && drawable_appended(
                *old(self),
                *final(self),
                (position.0, position.1),
                PdfDrawable {
                    at: old(self).pages@[position.0 as int].layers@[position.1 as int].drawables@[
                        position.2 as int
                    ].at,
                    kind: PdfDrawableKind::Text { text, font, font_size },
                },
            ),
    {
        if position.0 >= self.pages.len() {
            return Err(AddressError::InvalidPage);
        }
        if position.1 >= self.pages[position.0].layers.len() {
            return Err(AddressError::InvalidLayer);
        }
        if position.2 >= self.pages[position.0].layers[position.1].drawables.len() {
            return Err(AddressError::InvalidPosition);
        }
        let at = self.pages[position.0].layers[position.1].drawables[position.2].at;
        let slot = self.pages[position.0].layers[position.1].drawables.len();
        self.pages[position.0].layers[position.1].drawables.push(
            PdfDrawable { at, kind: PdfDrawableKind::Text { text, font, font_size } },
        );
        Ok((position.0, position.1, slot))
    }

    /// Appends a polyline drawable to the addressed layer and returns the
    /// created drawable's address. The drawable's placement point is the
    /// first path point, or the origin for an empty path. Fails with
    /// `InvalidLayer` exactly when the layer address's page or layer
    /// component is out of range, leaving the document unchanged.
    pub fn add_line(
        &mut self,
        points: Vec<(PdfMarker, bool)>,
        layer: &PdfLayerIndex,
        outline: Option<&Outline>,
        fill: Option<&Fill>,
    ) -> (r: Result<PdfMarkerIndex, AddressError>)
        ensures
            r is Ok <==> valid_layer(*old(self), *layer),
            r is Err ==> r->Err_0 == AddressError::InvalidLayer && *final(self) == *old(self),
            r is Ok ==> r->Ok_0 == (
                layer.0,
                layer.1,
                old(self).pages@[layer.0 as int].layers@[layer.1 as int].drawables@.len() as usize,
            ) && drawable_appended(
                *old(self),
                *final(self),
                *layer,
                PdfDrawable {
                    at: if points@.len() > 0 {
                        points@[0].0
                    } else {
                        PdfMarker { x: Mm { thousandths: 0 }, y: Mm { thousandths: 0 } }
                    },
                    kind: PdfDrawableKind::Line {
                        points,
                        outline: copied_outline(outline),
                        fill: copied_fill(fill),
                    },
                },
            ),
    {
        if layer.0 >= self.pages.len() || layer.1 >= self.pages[layer.0].layers.len() {
            return Err(AddressError::InvalidLayer);
        }
        let at = if points.len() > 0 {
            points[0].0
        } else {
            PdfMarker { x: Mm { thousandths: 0 }, y: Mm { thousandths: 0 } }
        };
        let outline_v = match outline {
            Option::Some(o) => Option::Some(*o),
            Option::None => Option::None,
        };
        let fill_v = match fill {
            Option::Some(f) => Option::Some(*f),
            Option::None => Option::None,
        };
        let slot = self.pages[layer.0].layers[layer.1].drawables.len();
        self.pages[layer.0].layers[layer.1].drawables.push(
            PdfDrawable {
                at,
                kind: PdfDrawableKind::Line { points, outline: outline_v, fill: fill_v },
            },
        );
        Ok((layer.0, layer.1, slot))
    }

    /// Appends a placement of a registered vector asset at the addressed
    /// position's placement point, scaled to the requested size, and returns
    /// the created drawable's address. The registry reference is not
    /// validated here; a dangling one is caught when the document is saved.
    /// Fails with the first failing link of the position address, leaving
    /// the document unchanged.
    pub fn add_svg_at(
        &mut self,
        svg_data_index: &SvgIndex,
        width: Mm,
        height: Mm,
        position: &PdfMarkerIndex,
    ) -> (r: Result<PdfMarkerIndex, AddressError>)
        ensures
            r is Ok <==> valid_marker(*old(self), *position),
            r is Err ==> *final(self) == *old(self),
            !valid_page(*old(self), position.0) ==> r is Err && r->Err_0
                == AddressError::InvalidPage,
            valid_page(*old(self), position.0) && !valid_layer(
                *old(self),
                (position.0, position.1),
            ) ==> r is Err && r->Err_0 == AddressError::InvalidLayer,
            valid_layer(*old(self), (position.0, position.1)) && !valid_marker(
                *old(self),
                *position,
            ) ==> r is Err && r->Err_0 == AddressError::InvalidPosition,
            r is Ok ==> r->Ok_0 == (
                position.0,
                position.1,
                old(self).pages@[position.0 as int].layers@[
                    position.1 as int
                ].drawables@.len() as usize,
            ) && drawable_appended(
                *old(self),
                *final(self),
                (position.0, position.1),
                PdfDrawable {
                    at: old(self).pages@[position.0 as int].layers@[position.1 as int].drawables@[
                        position.2 as int
                    ].at,
                    kind: PdfDrawableKind::Vector { asset: *svg_data_index, width, height },
                },
            ),
    {
        if position.0 >= self.pages.len() {
            return Err(AddressError::InvalidPage);
        }
        if position.1 >= self.pages[position.0].layers.len() {
            return Err(AddressError::InvalidLayer);
        }
        if position.2 >= self.pages[position.0].layers[position.1].drawables.len() {
            return Err(AddressError::InvalidPosition);
        }
        let at = self.pages[position.0].layers[position.1].drawables[position.2].at;
        let slot = self.pages[position.0].layers[position.1].drawables.len();
        self.pages[position.0].layers[position.1].drawables.push(
            PdfDrawable {
                at,
                kind: PdfDrawableKind::Vector { asset: *svg_data_index, width, height },
            },
        );
        Ok((position.0, position.1, slot))
    }

    /// Resolves a page address. Fails with `InvalidPage` exactly when the
    /// address is out of range.
    pub fn get_page(&self, page: &PdfPageIndex) -> (r: Result<&PdfPage, AddressError>)
        ensures
            r is Ok <==> valid_page(*self, *page),
            r is Err ==> r->Err_0 == AddressError::InvalidPage,
            r is Ok ==> *r->Ok_0 == self.pages@[*page as int],
    {
        if *page < self.pages.len() {
            Ok(&self.pages[*page])
        } else {
            Err(AddressError::InvalidPage)
        }
    }

    /// Resolves a layer address, validating each link in turn: a failing page
    /// link yields `InvalidPage` whatever the layer component, then a failing
    /// layer link yields `InvalidLayer`.
    pub fn get_layer(&self, layer: &PdfLayerIndex) -> (r: Result<&PdfLayer, AddressError>)
        ensures
            r is Ok <==> valid_layer(*self, *layer),
            !valid_page(*self, layer.0) ==> r is Err && r->Err_0 == AddressError::InvalidPage,
            valid_page(*self, layer.0) && !valid_layer(*self, *layer) ==> r is Err && r->Err_0
                == AddressError::InvalidLayer,
            r is Ok ==> *r->Ok_0 == self.pages@[layer.0 as int].layers@[layer.1 as int],
    {
        if layer.0 >= self.pages.len() {
            return Err(AddressError::InvalidPage);
        }
        if layer.1 >= self.pages[layer.0].layers.len() {
            return Err(AddressError::InvalidLayer);
        }
        Ok(&self.pages[layer.0].layers[layer.1])
    }

    /// Resolves a position address, validating each link in turn: a failing
    /// page link yields `InvalidPage` whatever the other components, then
    /// `InvalidLayer`, then `InvalidPosition`. On success returns the
    /// drawable's placement point.
    pub fn get_marker(&self, marker: &PdfMarkerIndex) -> (r: Result<&PdfMarker, AddressError>)
        ensures
            r is Ok <==> valid_marker(*self, *marker),
            !valid_page(*self, marker.0) ==> r is Err && r->Err_0 == AddressError::InvalidPage,
            valid_page(*self, marker.0) && !valid_layer(*self, (marker.0, marker.1)) ==> r is Err
                && r->Err_0 == AddressError::InvalidLayer,
            valid_layer(*self, (marker.0, marker.1)) && !valid_marker(*self, *marker) ==> r is Err
                && r->Err_0 == AddressError::InvalidPosition,
            r is Ok ==> *r->Ok_0 == self.pages@[marker.0 as int].layers@[marker.1 as int].drawables@[
                marker.2 as int
            ].at,
    {
        if marker.0 >= self.pages.len() {
            return Err(AddressError::InvalidPage);
        }
        if marker.1 >= self.pages[marker.0].layers.len() {
            return Err(AddressError::InvalidLayer);
        }
        if marker.2 >= self.pages[marker.0].layers[marker.1].drawables.len() {
            return Err(AddressError::InvalidPosition);
        }
        Ok(&self.pages[marker.0].layers[marker.1].drawables[marker.2].at)
    }

    /// Resolves a page address for mutation.
    pub fn get_mut_page(&mut self, page: &PdfPageIndex) -> (r: Result<&mut PdfPage, AddressError>)
        ensures
            r is Ok <==> valid_page(*old(self), *page),
            r is Err ==> r->Err_0 == AddressError::InvalidPage && *final(self) == *old(self),
            r is Ok ==> *r->Ok_0 == old(self).pages@[*page as int] && final(self).pages@ == old(
                self,
            ).pages@.update(*page as int, *final(r->Ok_0)) && same_meta(*old(self), *final(self)),
    {
        if *page < self.pages.len() {
            Ok(&mut self.pages[*page])
        } else {
            Err(AddressError::InvalidPage)
        }
    }

    /// Resolves a layer address for mutation, validating each link in turn
    /// as `get_layer` does.
    pub fn get_mut_layer(&mut self, layer: &PdfLayerIndex) -> (r: Result<
        &mut PdfLayer,
        AddressError,
    >)
        ensures
            r is Ok <==> valid_layer(*old(self), *layer),
            !valid_page(*old(self), layer.0) ==> r is Err && r->Err_0 == AddressError::InvalidPage,
            valid_page(*old(self), layer.0) && !valid_layer(*old(self), *layer) ==> r is Err
                && r->Err_0 == AddressError::InvalidLayer,
            r is Err ==> *final(self) == *old(self),
            r is Ok ==> *r->Ok_0 == old(self).pages@[layer.0 as int].layers@[layer.1 as int]
                && final(self).pages@.len() == old(self).pages@.len() && (forall|i: int|
                0 <= i < old(self).pages@.len() && i != layer.0 as int ==> final(self).pages@[i]
                    == old(self).pages@[i]) && final(self).pages@[layer.0 as int].width == old(
                self,
            ).pages@[layer.0 as int].width && final(self).pages@[layer.0 as int].height == old(
                self,
            ).pages@[layer.0 as int].height && final(self).pages@[layer.0 as int].layers@ == old(
                self,
            ).pages@[layer.0 as int].layers@.update(layer.1 as int, *final(r->Ok_0)) && same_meta(
                *old(self),
                *final(self),
            ),
    {
        if layer.0 >= self.pages.len() {
            return Err(AddressError::InvalidPage);
        }
        if layer.1 >= self.pages[layer.0].layers.len() {
            return Err(AddressError::InvalidLayer);
        }
        Ok(&mut self.pages[layer.0].layers[layer.1])
    }

    /// Resolves a position address for mutation, validating each link in
    /// turn as `get_marker` does. On success returns the drawable's
    /// placement point; what the drawable draws is untouched.
    pub fn get_mut_marker(&mut self, marker: &PdfMarkerIndex) -> (r: Result<
        &mut PdfMarker,
        AddressError,
    >)
        ensures
            r is Ok <==> valid_marker(*old(self), *marker),
            !valid_page(*old(self), marker.0) ==> r is Err && r->Err_0
                == AddressError::InvalidPage,
            valid_page(*old(self), marker.0) && !valid_layer(*old(self), (marker.0, marker.1))
                ==> r is Err && r->Err_0 == AddressError::InvalidLayer,
            valid_layer(*old(self), (marker.0, marker.1)) && !valid_marker(*old(self), *marker)
                ==> r is Err && r->Err_0 == AddressError::InvalidPosition,
            r is Err ==> *final(self) == *old(self),
            r is Ok ==> *r->Ok_0 == old(self).pages@[marker.0 as int].layers@[
                marker.1 as int
            ].drawables@[marker.2 as int].at && drawable_point_updated(
                *old(self),
                *final(self),
                *marker,
                *final(r->Ok_0),
            ),
    {
        if marker.0 >= self.pages.len() {
            return Err(AddressError::InvalidPage);
        }
        if marker.1 >= self.pages[marker.0].layers.len() {
            return Err(AddressError::InvalidLayer);
        }
        if marker.2 >= self.pages[marker.0].layers[marker.1].drawables.len() {
            return Err(AddressError::InvalidPosition);
        }
        Ok(&mut self.pages[marker.0].layers[marker.1].drawables[marker.2].at)
    }

    /// Sets the current marker address. Unconditional: the address is not
    /// validated here, so the cursor may point ahead of currently valid
    /// content; it is validated when it is later resolved.
    pub fn set_current_marker(&mut self, marker: &PdfMarkerIndex)
        ensures
            final(self).current_marker == *marker,
            final(self).pages == old(self).pages,
            final(self).title == old(self).title,
            final(self).creator == old(self).creator,
            final(self).contents == old(self).contents,
    {
        self.current_marker = *marker;
    }

    /// Consumes the document, handing out its registry and the placement
    /// point the current marker resolves to. The current marker must be a
    /// valid address.
    pub fn get_inner(self) -> (r: (Vec<PdfContent>, PdfMarker))
        requires
            valid_marker(self, self.current_marker),
        ensures
            r.0@ == self.contents@,
            r.1 == self.pages@[self.current_marker.0 as int].layers@[
                self.current_marker.1 as int
            ].drawables@[self.current_marker.2 as int].at,
    {
        let marker = self.pages[self.current_marker.0].layers[self.current_marker.1].drawables[
            self.current_marker.2
        ].at;
        (self.contents, marker)
    }
}

/// Law: a page address returned by page creation resolves successfully
/// against the document as the creation left it.
pub proof fn lemma_added_page_resolves(
    pre: PdfDocument,
    post: PdfDocument,
    width: Mm,
    height: Mm,
    idx: PdfPageIndex,
)
    requires
        page_added(pre, post, width, height, idx),
    ensures
        valid_page(post, idx),
{
}

/// Law: a layer address returned by layer creation resolves successfully
/// against the document as the creation left it.
pub proof fn lemma_added_layer_resolves(
    pre: PdfDocument,
    post: PdfDocument,
    l: PdfLayerIndex,
    name: Seq<char>,
)
    requires
        layer_added(pre, post, l, name),
    ensures
        valid_layer(post, l),
{
}

/// Law: a position address returned by appending a drawable resolves
/// successfully against the document as the append left it.
pub proof fn lemma_appended_drawable_resolves(
    pre: PdfDocument,
    post: PdfDocument,
    l: PdfLayerIndex,
    d: PdfDrawable,
    slot: usize,
)
    requires
        drawable_appended(pre, post, l, d),
        slot == pre.pages@[l.0 as int].layers@[l.1 as int].drawables@.len(),
    ensures
        valid_marker(post, (l.0, l.1, slot)),
{
}

/// Law: two successive registrations hand out distinct registry indices,
/// whatever the items hold — indices are assigned by position, never by
/// content, and never reused.
pub proof fn lemma_registered_indices_distinct(
    pre: PdfDocument,
    mid: PdfDocument,
    post: PdfDocument,
    first: PdfContentIndex,
    second: PdfContentIndex,
)
    requires
        content_added(pre, mid, first),
        content_added(mid, post, second),
    ensures
        first != second,
{
}

} // verus!
