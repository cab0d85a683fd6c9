//! Tests of the serialization engine: planning, lowering, deduplication,
//! and the rendered container.

use printpdf::document::{PdfDocument, PdfMarker, FontIndex, SvgIndex, Outline};
use printpdf::units::{Mm, mm_to_pt};
use printpdf::graph::PdfPayload;
use printpdf::errors::SerializationError;

fn mm(thousandths: i64) -> Mm {
    Mm::from_thousandths(thousandths)
}

fn count_kinds(objects: &[PdfPayload]) -> (usize, usize, usize, usize) {
    let mut pages = 0;
    let mut streams = 0;
    let mut fonts = 0;
    let mut xobjects = 0;
    for o in objects.iter() {
        match o {
            PdfPayload::Page { .. } => pages += 1,
            PdfPayload::ContentStream { .. } => streams += 1,
            PdfPayload::FontResource { .. } => fonts += 1,
            PdfPayload::VectorResource { .. } => xobjects += 1,
            _ => {},
        }
    }
    (pages, streams, fonts, xobjects)
}

fn count_occurrences(haystack: &[u8], needle: &[u8]) -> usize {
    let mut n = 0;
    let mut i = 0;
    while i + needle.len() <= haystack.len() {
        if &haystack[i..i + needle.len()] == needle {
            n += 1;
        }
        i += 1;
    }
    n
}

#[test]
fn millimetre_to_point_conversion() {
    assert_eq!(mm_to_pt(mm(210_000)), 595);
    assert_eq!(mm_to_pt(mm(297_000)), 841);
    assert_eq!(mm_to_pt(mm(10_000)), 28);
    assert_eq!(mm_to_pt(mm(0)), 0);
    assert_eq!(mm_to_pt(mm(-10_000)), -28);
}

#[test]
fn scenario_basic_document() {
    let mut doc = PdfDocument::empty(String::from("T"), String::from("C"));
    let p0 = doc.add_page(mm(210_000), mm(297_000));
    assert_eq!(p0, 0);
    let l0 = doc.add_layer(String::from("L1"), &p0).unwrap();
    assert_eq!(l0, (0, 0));
    let m0 = doc.add_marker(mm(10_000), mm(20_000), &l0).unwrap();
    assert_eq!(m0, (0, 0, 0));
    let marker = doc.get_marker(&m0).unwrap();
    assert_eq!(marker.x.thousandths, 10_000);
    assert_eq!(marker.y.thousandths, 20_000);

    let g = doc.build_graph().unwrap();
    let (pages, streams, fonts, xobjects) = count_kinds(&g.objects);
    assert_eq!(pages, 1);
    assert_eq!(streams, 1);
    assert_eq!(fonts, 0);
    assert_eq!(xobjects, 0);
    // A bare marker lowers to no visible instruction.
    for o in g.objects.iter() {
        if let PdfPayload::ContentStream { bytes } = o {
            assert!(bytes.is_empty());
        }
    }

    let bytes = doc.save().unwrap();
    let parsed = lopdf::Document::load_mem(&bytes).unwrap();
    assert_eq!(parsed.get_pages().len(), 1);
}

#[test]
fn save_with_zero_pages_is_minimal_and_valid() {
    let doc = PdfDocument::empty(String::from("T"), String::from("C"));
    let g = doc.build_graph().unwrap();
    assert_eq!(g.objects.len(), 2);
    assert!(matches!(g.objects[0], PdfPayload::Catalog { pages: 2 }));
    match &g.objects[1] {
        PdfPayload::PageTree { kids } => assert!(kids.is_empty()),
        _ => panic!("slot 1 must hold the page tree"),
    }
    let bytes = doc.save().unwrap();
    let parsed = lopdf::Document::load_mem(&bytes).unwrap();
    assert!(parsed.catalog().is_ok());
    assert_eq!(parsed.get_pages().len(), 0);
}

#[test]
fn one_font_resource_object_per_registry_index() {
    let mut doc = PdfDocument::empty(String::from("T"), String::from("C"));
    let p = doc.add_page(mm(210_000), mm(297_000));
    let l = doc.add_layer(String::from("L1"), &p).unwrap();
    let m = doc.add_marker(mm(10_000), mm(20_000), &l).unwrap();
    let f = doc.add_font(vec![0u8, 1, 2]).unwrap();
    // Two drawables referencing the same registry index; each append returns
    // the created drawable's address.
    let t1 = doc.add_text(b"one".to_vec(), f, 12, &m).unwrap();
    let t2 = doc.add_text(b"two".to_vec(), f, 14, &m).unwrap();
    assert_eq!(t1, (0, 0, 1));
    assert_eq!(t2, (0, 0, 2));
    assert!(doc.get_marker(&t1).is_ok());
    assert!(doc.get_marker(&t2).is_ok());
    let g = doc.build_graph().unwrap();
    let (_, _, fonts, _) = count_kinds(&g.objects);
    assert_eq!(fonts, 1);
    // The registered font bytes are carried into the resource object.
    for o in g.objects.iter() {
        if let PdfPayload::FontResource { reg, data } = o {
            assert_eq!(*reg, 0);
            assert_eq!(data.as_slice(), [0u8, 1, 2].as_slice());
        }
    }
}

#[test]
fn distinct_registry_indices_give_distinct_resource_objects() {
    let mut doc = PdfDocument::empty(String::from("T"), String::from("C"));
    let p = doc.add_page(mm(210_000), mm(297_000));
    let l = doc.add_layer(String::from("L1"), &p).unwrap();
    let m = doc.add_marker(mm(10_000), mm(20_000), &l).unwrap();
    // Byte-identical font streams: no deduplication by content.
    let f1 = doc.add_font(vec![5u8, 5, 5]).unwrap();
    let f2 = doc.add_font(vec![5u8, 5, 5]).unwrap();
    doc.add_text(b"a".to_vec(), f1, 10, &m).unwrap();
    doc.add_text(b"b".to_vec(), f2, 10, &m).unwrap();
    let g = doc.build_graph().unwrap();
    let (_, _, fonts, _) = count_kinds(&g.objects);
    assert_eq!(fonts, 2);
}

#[test]
fn text_lowers_to_exact_instructions_with_one_font_reference_each() {
    let mut doc = PdfDocument::empty(String::from("T"), String::from("C"));
    let p = doc.add_page(mm(210_000), mm(297_000));
    let l = doc.add_layer(String::from("L1"), &p).unwrap();
    let m = doc.add_marker(mm(10_000), mm(20_000), &l).unwrap();
    let f = doc.add_font(vec![0u8]).unwrap();
    doc.add_text(b"Hi".to_vec(), f, 12, &m).unwrap();
    doc.add_text(b"Ho".to_vec(), f, 12, &m).unwrap();
    let g = doc.build_graph().unwrap();
    let mut found = false;
    for o in g.objects.iter() {
        if let PdfPayload::ContentStream { bytes } = o {
            assert_eq!(
                bytes.as_slice(),
                b"BT /F0 12 Tf 28 56 Td (Hi) Tj ET\nBT /F0 12 Tf 28 56 Td (Ho) Tj ET\n"
                    .as_slice(),
            );
            // Exactly one font selection per text drawable.
            assert_eq!(count_occurrences(bytes, b"/F0 12 Tf"), 2);
            found = true;
        }
    }
    assert!(found);
    let bytes = doc.save().unwrap();
    assert!(lopdf::Document::load_mem(&bytes).is_ok());
}

#[test]
fn text_strings_escape_delimiters() {
    let mut doc = PdfDocument::empty(String::from("T"), String::from("C"));
    let p = doc.add_page(mm(210_000), mm(297_000));
    let l = doc.add_layer(String::from("L1"), &p).unwrap();
    let m = doc.add_marker(mm(0), mm(0), &l).unwrap();
    let f = doc.add_font(vec![0u8]).unwrap();
    doc.add_text(b"(x)\\".to_vec(), f, 9, &m).unwrap();
    let g = doc.build_graph().unwrap();
    let mut found = false;
    for o in g.objects.iter() {
        if let PdfPayload::ContentStream { bytes } = o {
            assert_eq!(bytes.as_slice(), b"BT /F0 9 Tf 0 0 Td (\\(x\\)\\\\) Tj ET\n".as_slice());
            found = true;
        }
    }
    assert!(found);
}

#[test]
fn lines_lower_to_path_instructions() {
    let mut doc = PdfDocument::empty(String::from("T"), String::from("C"));
    let p = doc.add_page(mm(210_000), mm(297_000));
    let l = doc.add_layer(String::from("L1"), &p).unwrap();
    let points = vec![
        (PdfMarker { x: mm(0), y: mm(0) }, false),
        (PdfMarker { x: mm(10_000), y: mm(20_000) }, false),
    ];
    let outline = Outline { thickness: mm(1_000) };
    let created = doc.add_line(points, &l, Some(&outline), None).unwrap();
    assert_eq!(created, (0, 0, 0));
    let g = doc.build_graph().unwrap();
    let mut found = false;
    for o in g.objects.iter() {
        if let PdfPayload::ContentStream { bytes } = o {
            assert_eq!(bytes.as_slice(), b"2 w\n0 0 m\n28 56 l\nS\n".as_slice());
            found = true;
        }
    }
    assert!(found);
}

#[test]
fn vector_placement_lowers_to_transform_and_invocation() {
    let mut doc = PdfDocument::empty(String::from("T"), String::from("C"));
    let p = doc.add_page(mm(210_000), mm(297_000));
    let l = doc.add_layer(String::from("L1"), &p).unwrap();
    let m = doc.add_marker(mm(10_000), mm(20_000), &l).unwrap();
    let asset = doc.add_svg(b"0 0 m 1 1 l S\n".to_vec()).unwrap();
    let placed = doc.add_svg_at(&asset, mm(30_000), mm(40_000), &m).unwrap();
    assert_eq!(placed, (0, 0, 1));
    assert!(doc.get_marker(&placed).is_ok());
    let g = doc.build_graph().unwrap();
    let (pages, streams, fonts, xobjects) = count_kinds(&g.objects);
    assert_eq!((pages, streams, fonts, xobjects), (1, 1, 0, 1));
    for o in g.objects.iter() {
        match o {
            PdfPayload::ContentStream { bytes } => {
                assert_eq!(bytes.as_slice(), b"q 85 0 0 113 28 56 cm /X0 Do Q\n".as_slice());
            },
            PdfPayload::VectorResource { reg, content } => {
                assert_eq!(*reg, 0);
                assert_eq!(content.as_slice(), b"0 0 m 1 1 l S\n".as_slice());
            },
            _ => {},
        }
    }
    let bytes = doc.save().unwrap();
    assert!(lopdf::Document::load_mem(&bytes).is_ok());
}

#[test]
fn dangling_content_reference_fails_the_whole_save() {
    let mut doc = PdfDocument::empty(String::from("T"), String::from("C"));
    let p = doc.add_page(mm(210_000), mm(297_000));
    let l = doc.add_layer(String::from("L1"), &p).unwrap();
    let m = doc.add_marker(mm(0), mm(0), &l).unwrap();
    // The registry is empty: FontIndex(7) dangles. The mutation itself
    // succeeds; the reference is caught at save time.
    doc.add_text(b"x".to_vec(), FontIndex(7), 12, &m).unwrap();
    assert_eq!(doc.save().unwrap_err(), SerializationError::DanglingContentReference);
    assert_eq!(
        doc.build_graph().unwrap_err(),
        SerializationError::DanglingContentReference,
    );
    // A wrong-kind reference dangles too.
    let mut doc2 = PdfDocument::empty(String::from("T"), String::from("C"));
    let p2 = doc2.add_page(mm(210_000), mm(297_000));
    let l2 = doc2.add_layer(String::from("L1"), &p2).unwrap();
    let m2 = doc2.add_marker(mm(0), mm(0), &l2).unwrap();
    let asset = doc2.add_svg(b"S".to_vec()).unwrap();
    doc2.add_text(b"x".to_vec(), FontIndex(asset.0), 12, &m2).unwrap();
    assert_eq!(doc2.save().unwrap_err(), SerializationError::DanglingContentReference);
}

#[test]
fn saved_container_resolves_every_reference() {
    let mut doc = PdfDocument::empty(String::from("T"), String::from("C"));
    let p = doc.add_page(mm(210_000), mm(297_000));
    let l = doc.add_layer(String::from("ink"), &p).unwrap();
    let m = doc.add_marker(mm(15_000), mm(25_000), &l).unwrap();
    let f = doc.add_font(vec![1u8, 2]).unwrap();
    doc.add_text(b"hello".to_vec(), f, 11, &m).unwrap();
    let asset = doc.add_svg(b"0 0 m S\n".to_vec()).unwrap();
    doc.add_svg_at(&asset, mm(5_000), mm(5_000), &m).unwrap();
    let saved = doc.save().unwrap();
    let parsed = lopdf::Document::load_mem(&saved).unwrap();
    // Every reference in every parsed object must resolve.
    for (_, object) in parsed.objects.iter() {
        check_refs_resolve(&parsed, object);
    }
    assert_eq!(parsed.get_pages().len(), 1);
}

fn check_refs_resolve(parsed: &lopdf::Document, object: &lopdf::Object) {
    match object {
        lopdf::Object::Reference(id) => {
            assert!(parsed.get_object(*id).is_ok());
        },
        lopdf::Object::Array(items) => {
            for item in items.iter() {
                check_refs_resolve(parsed, item);
            }
        },
        lopdf::Object::Dictionary(dict) => {
            for (_, value) in dict.iter() {
                check_refs_resolve(parsed, value);
            }
        },
        lopdf::Object::Stream(stream) => {
            for (_, value) in stream.dict.iter() {
                check_refs_resolve(parsed, value);
            }
        },
        _ => {},
    }
}

#[test]
fn repeated_saves_leave_the_document_unchanged() {
    let mut doc = PdfDocument::empty(String::from("T"), String::from("C"));
    let p = doc.add_page(mm(210_000), mm(297_000));
    let l = doc.add_layer(String::from("L1"), &p).unwrap();
    let _ = doc.add_marker(mm(1_000), mm(1_000), &l).unwrap();
    let first = doc.save().unwrap();
    let second = doc.save().unwrap();
    assert_eq!(first, second);
    assert!(doc.get_layer(&l).is_ok());
}

#[test]
fn line_paint_operator_follows_outline_and_fill() {
    // A flagged point begins a new subpath; with no outline and no fill the
    // path ends unpainted, with fill alone it is filled.
    let mut doc = PdfDocument::empty(String::from("T"), String::from("C"));
    let p = doc.add_page(mm(210_000), mm(297_000));
    let l = doc.add_layer(String::from("L1"), &p).unwrap();
    let points = vec![
        (PdfMarker { x: mm(0), y: mm(0) }, false),
        (PdfMarker { x: mm(10_000), y: mm(0) }, false),
        (PdfMarker { x: mm(0), y: mm(10_000) }, true),
        (PdfMarker { x: mm(10_000), y: mm(10_000) }, false),
    ];
    doc.add_line(points.clone(), &l, None, None).unwrap();
    doc.add_line(points, &l, None, Some(&printpdf::document::Fill {})).unwrap();
    let g = doc.build_graph().unwrap();
    let mut found = false;
    for o in g.objects.iter() {
        if let PdfPayload::ContentStream { bytes } = o {
            assert_eq!(
                bytes.as_slice(),
                b"0 0 m\n28 0 l\n0 28 m\n28 28 l\nn\n0 0 m\n28 0 l\n0 28 m\n28 28 l\nf\n"
                    .as_slice(),
            );
            found = true;
        }
    }
    assert!(found);
}
