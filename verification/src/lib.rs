//! A document-authoring library for paged, fixed-layout output.
//!
//! A [`document::PdfDocument`] owns an append-only tree of pages, layers and
//! positioned drawables, addressed by plain composite indices that are
//! validated on every resolution.  Deferred content (fonts, vector assets)
//! lives in an append-only registry and is referenced by stable indices.
//! Saving plans a self-consistent object graph — object identities, per-layer
//! content streams, deduplicated resource objects — and hands it to the
//! external object-graph writer, which assigns byte offsets and writes the
//! cross-reference index.

pub mod units;
pub mod errors;
pub mod content;
pub mod document;
pub mod encode;
pub mod graph;
pub mod emit;
