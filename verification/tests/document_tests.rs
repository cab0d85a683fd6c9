//! Tests of the document tree: addressing, validated resolution, the
//! registry, and the marker cursor.

use printpdf::document::{PdfDocument, PdfPage, FontIndex};
use printpdf::units::Mm;
use printpdf::errors::{AddressError, ContentError};

fn mm(thousandths: i64) -> Mm {
    Mm::from_thousandths(thousandths)
}

#[test]
fn new_document_holds_initial_page() {
    let page = PdfPage::new(mm(210_000), mm(297_000));
    let doc = PdfDocument::new(page, String::from("T"), String::from("C"));
    let got = doc.get_page(&0).unwrap();
    assert_eq!(got.width.thousandths, 210_000);
    assert_eq!(got.height.thousandths, 297_000);
    assert!(doc.get_page(&1).is_err());
}

#[test]
fn created_addresses_resolve_immediately() {
    let mut doc = PdfDocument::empty(String::from("T"), String::from("C"));
    let p = doc.add_page(mm(210_000), mm(297_000));
    assert!(doc.get_page(&p).is_ok());
    let l = doc.add_layer(String::from("L1"), &p).unwrap();
    assert!(doc.get_layer(&l).is_ok());
    let m = doc.add_marker(mm(10_000), mm(20_000), &l).unwrap();
    assert!(doc.get_marker(&m).is_ok());
}

#[test]
fn chained_additions_return_sequential_slots() {
    let mut doc = PdfDocument::empty(String::from("T"), String::from("C"));
    let p0 = doc.add_page(mm(210_000), mm(297_000));
    let p1 = doc.add_page(mm(100_000), mm(100_000));
    assert_eq!(p0, 0);
    assert_eq!(p1, 1);
    let l0 = doc.add_layer(String::from("a"), &p1).unwrap();
    let l1 = doc.add_layer(String::from("b"), &p1).unwrap();
    assert_eq!(l0, (1, 0));
    assert_eq!(l1, (1, 1));
    let m0 = doc.add_marker(mm(0), mm(0), &l1).unwrap();
    let m1 = doc.add_marker(mm(1_000), mm(2_000), &l1).unwrap();
    assert_eq!(m0, (1, 1, 0));
    assert_eq!(m1, (1, 1, 1));
}

#[test]
fn out_of_range_page_component_wins() {
    let mut doc = PdfDocument::empty(String::from("T"), String::from("C"));
    let p = doc.add_page(mm(210_000), mm(297_000));
    let l = doc.add_layer(String::from("L1"), &p).unwrap();
    let m = doc.add_marker(mm(0), mm(0), &l).unwrap();
    assert!(doc.get_marker(&m).is_ok());
    // The layer and position components would resolve on page 0; a bad page
    // component must still yield InvalidPage.
    assert_eq!(doc.get_layer(&(7, l.1)).unwrap_err(), AddressError::InvalidPage);
    assert_eq!(doc.get_marker(&(7, m.1, m.2)).unwrap_err(), AddressError::InvalidPage);
}

#[test]
fn resolution_reports_first_failing_link() {
    let mut doc = PdfDocument::empty(String::from("T"), String::from("C"));
    let p = doc.add_page(mm(210_000), mm(297_000));
    let l = doc.add_layer(String::from("L1"), &p).unwrap();
    assert_eq!(doc.get_layer(&(p, 5)).unwrap_err(), AddressError::InvalidLayer);
    assert_eq!(doc.get_marker(&(p, 5, 0)).unwrap_err(), AddressError::InvalidLayer);
    assert_eq!(doc.get_marker(&(p, l.1, 5)).unwrap_err(), AddressError::InvalidPosition);
}

#[test]
fn mutations_validate_their_addresses() {
    let mut doc = PdfDocument::empty(String::from("T"), String::from("C"));
    assert_eq!(
        doc.add_layer(String::from("L"), &0).unwrap_err(),
        AddressError::InvalidPage,
    );
    let p = doc.add_page(mm(210_000), mm(297_000));
    assert_eq!(
        doc.add_marker(mm(0), mm(0), &(p, 0)).unwrap_err(),
        AddressError::InvalidLayer,
    );
    assert_eq!(
        doc.add_marker(mm(0), mm(0), &(9, 0)).unwrap_err(),
        AddressError::InvalidLayer,
    );
    assert_eq!(
        doc.add_text(b"hi".to_vec(), FontIndex(0), 12, &(0, 0, 0)).unwrap_err(),
        AddressError::InvalidLayer,
    );
}

#[test]
fn get_marker_returns_the_placement_point() {
    let mut doc = PdfDocument::empty(String::from("T"), String::from("C"));
    let p = doc.add_page(mm(210_000), mm(297_000));
    let l = doc.add_layer(String::from("L1"), &p).unwrap();
    let m = doc.add_marker(mm(10_000), mm(20_000), &l).unwrap();
    let marker = doc.get_marker(&m).unwrap();
    assert_eq!(marker.x.thousandths, 10_000);
    assert_eq!(marker.y.thousandths, 20_000);
}

#[test]
fn mutable_resolution_updates_the_tree() {
    let mut doc = PdfDocument::empty(String::from("T"), String::from("C"));
    let p = doc.add_page(mm(210_000), mm(297_000));
    let l = doc.add_layer(String::from("L1"), &p).unwrap();
    let m = doc.add_marker(mm(1_000), mm(2_000), &l).unwrap();
    {
        let point = doc.get_mut_marker(&m).unwrap();
        point.x = mm(5_000);
    }
    assert_eq!(doc.get_marker(&m).unwrap().x.thousandths, 5_000);
    assert!(doc.get_mut_page(&9).is_err());
    assert!(doc.get_mut_layer(&(p, 9)).is_err());
}

#[test]
fn registering_identical_font_streams_gives_distinct_indices() {
    let mut doc = PdfDocument::empty(String::from("T"), String::from("C"));
    let bytes = vec![1u8, 2, 3, 4];
    let f1 = doc.add_font(bytes.clone()).unwrap();
    let f2 = doc.add_font(bytes).unwrap();
    assert_ne!(f1.0, f2.0);
    assert_eq!(f1.0, 0);
    assert_eq!(f2.0, 1);
}

#[test]
fn empty_content_streams_are_rejected() {
    let mut doc = PdfDocument::empty(String::from("T"), String::from("C"));
    assert_eq!(doc.add_font(Vec::new()).unwrap_err(), ContentError::FontParseFailed);
    assert_eq!(doc.add_svg(Vec::new()).unwrap_err(), ContentError::VectorParseFailed);
    // Nothing was registered by the failures.
    let f = doc.add_font(vec![9u8]).unwrap();
    assert_eq!(f.0, 0);
}

#[test]
fn current_marker_cursor_and_get_inner() {
    let mut doc = PdfDocument::empty(String::from("T"), String::from("C"));
    let p = doc.add_page(mm(210_000), mm(297_000));
    let l = doc.add_layer(String::from("L1"), &p).unwrap();
    let _ = doc.add_marker(mm(1_000), mm(1_000), &l).unwrap();
    let m = doc.add_marker(mm(7_000), mm(8_000), &l).unwrap();
    doc.set_current_marker(&m);
    let _ = doc.add_font(vec![1u8]).unwrap();
    let (contents, marker) = doc.get_inner();
    assert_eq!(contents.len(), 1);
    assert_eq!(marker.x.thousandths, 7_000);
    assert_eq!(marker.y.thousandths, 8_000);
}
