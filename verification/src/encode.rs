//! Lowering of drawables into content-stream bytes.
//!
//! Each layer's drawables are lowered, in order, into one drawing-instruction
//! stream: a bare marker lowers to nothing, a text run to a text-showing
//! instruction that selects its font resource by name, a polyline to path
//! instructions, and a vector placement to a transform and a reference to the
//! asset's resource object.  Lengths are converted to whole points here and
//! nowhere earlier; registered content is referenced by registry index, so
//! the stream is independent of the object identities a save pass assigns.

use vstd::prelude::*;
use crate::units::{Mm, pt_of, mm_to_pt};
use crate::document::{PdfMarker, PdfDrawable, PdfDrawableKind, PdfLayer, Outline, Fill};

verus! {

/// Decimal digits of `n`, most significant first.
pub open spec fn dec_digits(n: nat) -> Seq<u8>
    decreases n,
{
    if n < 10 {
        seq![(48 + n) as u8]
    } else {
        dec_digits(n / 10).push((48 + n % 10) as u8)
    }
}

/// Decimal rendering of an integer: digits, with a leading minus sign when
/// negative.
pub open spec fn int_bytes(v: int) -> Seq<u8> {
    if v < 0 {
        seq![45u8] + dec_digits((-v) as nat)
    } else {
        dec_digits(v as nat)
    }
}

/// A byte of a text string as it is written inside string delimiters: the
/// delimiters and the escape character are preceded by the escape character.
pub open spec fn esc_byte(b: u8) -> Seq<u8> {
    if b == 40 || b == 41 || b == 92 {
        seq![92u8, b]
    } else {
        seq![b]
    }
}

/// A whole text string as written inside string delimiters.
pub open spec fn escaped(s: Seq<u8>) -> Seq<u8>
    decreases s.len(),
{
    if s.len() == 0 {
        Seq::empty()
    } else {
        escaped(s.drop_last()) + esc_byte(s.last())
    }
}

/// Appends the decimal digits of `n`.
pub fn push_u64(out: &mut Vec<u8>, n: u64)
    ensures
        final(out)@ == old(out)@ + dec_digits(n as nat),
    decreases n,
{
    if n < 10 {
        out.push(48 + (n as u8));
    } else {
        push_u64(out, n / 10);
        out.push(48 + ((n % 10) as u8));
        assert(final(out)@ =~= old(out)@ + dec_digits(n as nat));
    }
}

/// Appends the decimal rendering of `v`.
pub fn push_i64(out: &mut Vec<u8>, v: i64)
    requires
        v > i64::MIN,
    ensures
        final(out)@ == old(out)@ + int_bytes(v as int),
{
    if v < 0 {
        out.push(45);
        push_u64(out, (-v) as u64);
        assert(final(out)@ =~= old(out)@ + int_bytes(v as int));
    } else {
        push_u64(out, v as u64);
    }
}

/// Appends `s` with string-delimiter escaping applied.
pub fn push_escaped(out: &mut Vec<u8>, s: &Vec<u8>)
    ensures
        final(out)@ == old(out)@ + escaped(s@),
{
    let ghost base = out@;
    let mut i: usize = 0;
    while i < s.len()
        invariant
            i <= s@.len(),
            out@ == base + escaped(s@.take(i as int)),
        decreases s@.len() - i,
    {
        let b = s[i];
        if b == 40 || b == 41 || b == 92 {
            out.push(92);
        }
        out.push(b);
        proof {
            assert(s@.take(i + 1 as int).drop_last() =~= s@.take(i as int));
            assert(s@.take(i + 1 as int).last() == s@[i as int]);
            assert(out@ =~= base + escaped(s@.take(i + 1 as int)));
        }
        i = i + 1;
    }
    proof {
        assert(s@.take(s@.len() as int) =~= s@);
    }
}

/// The text-showing instruction for a text run: begin text, select the font
/// resource named after the registry index at the given size, move to the
/// placement point, show the escaped string, end text.
pub open spec fn text_op_bytes(x: int, y: int, font_reg: nat, size: nat, text: Seq<u8>) -> Seq<u8> {
    seq![66u8, 84u8, 32u8, 47u8, 70u8]  // "BT /F"
        + dec_digits(font_reg) + seq![32u8] + dec_digits(size)
        + seq![32u8, 84u8, 102u8, 32u8]  // " Tf "
        + int_bytes(x) + seq![32u8] + int_bytes(y)
        + seq![32u8, 84u8, 100u8, 32u8, 40u8]  // " Td ("
        + escaped(text)
        + seq![41u8, 32u8, 84u8, 106u8, 32u8, 69u8, 84u8, 10u8]  // ") Tj ET\n"
}

/// One path point: its coordinates in points, then a move instruction when it
/// begins a subpath (the first point, or one whose flag is set), else a line
/// instruction.
pub open spec fn point_op_bytes(p: PdfMarker, new_subpath: bool) -> Seq<u8> {
    int_bytes(pt_of(p.x.thousandths as int)) + seq![32u8] + int_bytes(pt_of(p.y.thousandths as int))
        + (if new_subpath {
        seq![32u8, 109u8, 10u8]  // " m\n"
    } else {
        seq![32u8, 108u8, 10u8]  // " l\n"
    })
}

/// The path instructions of a polyline's points, in order.
pub open spec fn points_bytes(points: Seq<(PdfMarker, bool)>) -> Seq<u8>
    decreases points.len(),
{
    if points.len() == 0 {
        Seq::empty()
    } else {
        points_bytes(points.drop_last()) + point_op_bytes(
            points.last().0,
            points.len() == 1 || points.last().1,
        )
    }
}

/// The painting instruction closing a polyline: fill and stroke, fill only,
/// stroke only, or end the path without painting.
pub open spec fn paint_op_bytes(outline: Option<Outline>, fill: Option<Fill>) -> Seq<u8> {
    if outline is Some && fill is Some {
        seq![66u8, 10u8]  // "B\n"
    } else if fill is Some {
        seq![102u8, 10u8]  // "f\n"
    } else if outline is Some {
        seq![83u8, 10u8]  // "S\n"
    } else {
        seq![110u8, 10u8]  // "n\n"
    }
}

/// The instructions of a polyline: the stroke width when an outline is given,
/// the path, then the painting instruction.
pub open spec fn line_op_bytes(
    points: Seq<(PdfMarker, bool)>,
    outline: Option<Outline>,
    fill: Option<Fill>,
) -> Seq<u8> {
    (if outline is Some {
        int_bytes(pt_of(outline->0.thickness.thousandths as int)) + seq![32u8, 119u8, 10u8]  // " w\n"
    } else {
        Seq::empty()
    }) + points_bytes(points) + paint_op_bytes(outline, fill)
}

/// The instructions of a vector-asset placement: save graphics state, scale
/// to the requested size and translate to the placement point, invoke the
/// asset's resource object by the name derived from its registry index,
/// restore graphics state.
pub open spec fn vector_op_bytes(x: int, y: int, w: int, h: int, reg: nat) -> Seq<u8> {
    seq![113u8, 32u8]  // "q "
        + int_bytes(w) + seq![32u8, 48u8, 32u8, 48u8, 32u8]  // " 0 0 "
        + int_bytes(h) + seq![32u8] + int_bytes(x) + seq![32u8] + int_bytes(y)
        + seq![32u8, 99u8, 109u8, 32u8, 47u8, 88u8]  // " cm /X"
        + dec_digits(reg)
        + seq![32u8, 68u8, 111u8, 32u8, 81u8, 10u8]  // " Do Q\n"
}

/// What one drawable contributes to its layer's instruction stream.  A bare
/// marker contributes nothing: it is a position, not a visible instruction.
pub open spec fn drawable_bytes(d: PdfDrawable) -> Seq<u8> {
    match d.kind {
        PdfDrawableKind::Marker => Seq::empty(),
        PdfDrawableKind::Text { text, font, font_size } => text_op_bytes(
            pt_of(d.at.x.thousandths as int),
            pt_of(d.at.y.thousandths as int),
            font.0 as nat,
            font_size as nat,
            text@,
        ),
        PdfDrawableKind::Line { points, outline, fill } => line_op_bytes(points@, outline, fill),
        PdfDrawableKind::Vector { asset, width, height } => vector_op_bytes(
            pt_of(d.at.x.thousandths as int),
            pt_of(d.at.y.thousandths as int),
            pt_of(width.thousandths as int),
            pt_of(height.thousandths as int),
            asset.0 as nat,
        ),
    }
}

/// The concatenation, in order, of what each drawable of a sequence
/// contributes to the instruction stream.
pub open spec fn drawables_bytes(ds: Seq<PdfDrawable>) -> Seq<u8>
    decreases ds.len(),
{
    if ds.len() == 0 {
        Seq::empty()
    } else {
        drawables_bytes(ds.drop_last()) + drawable_bytes(ds.last())
    }
}

/// A layer's whole instruction stream: the concatenation, in insertion
/// order, of what each drawable contributes.
pub open spec fn layer_bytes(l: PdfLayer) -> Seq<u8> {
    drawables_bytes(l.drawables@)
}

/// Appends the text-showing instruction of a text drawable.
#[verifier::rlimit(60)]
fn lower_text(out: &mut Vec<u8>, at: PdfMarker, text: &Vec<u8>, font_reg: u64, font_size: u64)
    requires
        at.x.in_range(),
        at.y.in_range(),
    ensures
        final(out)@ == old(out)@ + text_op_bytes(
            pt_of(at.x.thousandths as int),
            pt_of(at.y.thousandths as int),
            font_reg as nat,
            font_size as nat,
            text@,
        ),
{
    let x = mm_to_pt(at.x);
    let y = mm_to_pt(at.y);
    let ghost s0 = out@;
    out.push(66);
    out.push(84);
    out.push(32);
    out.push(47);
    out.push(70);
    push_u64(out, font_reg);
    out.push(32);
    push_u64(out, font_size);
    assert(out@ =~= s0 + seq![66u8, 84u8, 32u8, 47u8, 70u8] + dec_digits(font_reg as nat)
        + seq![32u8] + dec_digits(font_size as nat));
    let ghost s1 = out@;
    out.push(32);
    out.push(84);
    out.push(102);
    out.push(32);
    push_i64(out, x);
    out.push(32);
    push_i64(out, y);
    assert(out@ =~= s1 + seq![32u8, 84u8, 102u8, 32u8] + int_bytes(x as int) + seq![32u8]
        + int_bytes(y as int));
    let ghost s2 = out@;
    out.push(32);
    out.push(84);
    out.push(100);
    out.push(32);
    out.push(40);
    push_escaped(out, text);
    assert(out@ =~= s2 + seq![32u8, 84u8, 100u8, 32u8, 40u8] + escaped(text@));
    let ghost s3 = out@;
    out.push(41);
    out.push(32);
    out.push(84);
    out.push(106);
    out.push(32);
    out.push(69);
    out.push(84);
    out.push(10);
    assert(out@ =~= s3 + seq![41u8, 32u8, 84u8, 106u8, 32u8, 69u8, 84u8, 10u8]);
    assert(out@ =~= old(out)@ + text_op_bytes(
        pt_of(at.x.thousandths as int),
        pt_of(at.y.thousandths as int),
        font_reg as nat,
        font_size as nat,
        text@,
    ));
}

/// Appends the path and painting instructions of a polyline drawable.
#[verifier::rlimit(60)]
fn lower_line(
    out: &mut Vec<u8>,
    points: &Vec<(PdfMarker, bool)>,
    outline: &Option<Outline>,
    fill: &Option<Fill>,
)
    requires
        forall|k: int|
            0 <= k < points@.len() ==> (#[trigger] points@[k]).0.x.in_range()
                && points@[k].0.y.in_range(),
        *outline is Some ==> outline->0.thickness.in_range(),
    ensures
        final(out)@ == old(out)@ + line_op_bytes(points@, *outline, *fill),
{
    let ghost base = out@;
    match outline {
        Option::Some(o) => {
            push_i64(out, mm_to_pt(o.thickness));
            out.push(32);
            out.push(119);
            out.push(10);
        },
        Option::None => {},
    }
    let ghost head = out@;
    assert(head =~= base + (if *outline is Some {
        int_bytes(pt_of(outline->0.thickness.thousandths as int)) + seq![
            32u8,
            119u8,
            10u8,
        ]
    } else {
        Seq::<u8>::empty()
    }));
    let mut i: usize = 0;
    while i < points.len()
        invariant
            i <= points@.len(),
            out@ == head + points_bytes(points@.take(i as int)),
            forall|k: int|
                0 <= k < points@.len() ==> (#[trigger] points@[k]).0.x.in_range()
                    && points@[k].0.y.in_range(),
        decreases points@.len() - i,
    {
        let p = points[i].0;
        let flag = points[i].1;
        push_i64(out, mm_to_pt(p.x));
        out.push(32);
        push_i64(out, mm_to_pt(p.y));
        out.push(32);
        if i == 0 || flag {
            out.push(109);
        } else {
            out.push(108);
        }
        out.push(10);
        proof {
            assert(points@.take(i + 1 as int).drop_last() =~= points@.take(i as int));
            assert(points@.take(i + 1 as int).last() == points@[i as int]);
            assert(out@ =~= head + points_bytes(points@.take(i + 1 as int)));
        }
        i = i + 1;
    }
    assert(points@.take(points@.len() as int) =~= points@);
    let stroke = match outline {
        Option::Some(_) => true,
        Option::None => false,
    };
    let filled = match fill {
        Option::Some(_) => true,
        Option::None => false,
    };
    if stroke && filled {
        out.push(66);
    } else if filled {
        out.push(102);
    } else if stroke {
        out.push(83);
    } else {
        out.push(110);
    }
    out.push(10);
    assert(out@ =~= old(out)@ + line_op_bytes(points@, *outline, *fill));
}

/// Appends the transform and invocation instructions of a vector placement.
#[verifier::rlimit(100)]
fn lower_vector(out: &mut Vec<u8>, at: PdfMarker, asset_reg: u64, width: Mm, height: Mm)
    requires
        at.x.in_range(),
        at.y.in_range(),
        width.in_range(),
        height.in_range(),
    ensures
        final(out)@ == old(out)@ + vector_op_bytes(
            pt_of(at.x.thousandths as int),
            pt_of(at.y.thousandths as int),
            pt_of(width.thousandths as int),
            pt_of(height.thousandths as int),
            asset_reg as nat,
        ),
{
    let x = mm_to_pt(at.x);
    let y = mm_to_pt(at.y);
    let w = mm_to_pt(width);
    let h = mm_to_pt(height);
    let ghost s0 = out@;
    out.push(113);
    out.push(32);
    push_i64(out, w);
    out.push(32);
    out.push(48);
    out.push(32);
    out.push(48);
    out.push(32);
    push_i64(out, h);
    assert(out@ =~= s0 + seq![113u8, 32u8] + int_bytes(w as int) + seq![
        32u8,
        48u8,
        32u8,
        48u8,
        32u8,
    ] + int_bytes(h as int));
    let ghost s1 = out@;
    out.push(32);
    push_i64(out, x);
    out.push(32);
    push_i64(out, y);
    assert(out@ =~= s1 + seq![32u8] + int_bytes(x as int) + seq![32u8] + int_bytes(
        y as int,
    ));
    let ghost s2 = out@;
    out.push(32);
    out.push(99);
    out.push(109);
    out.push(32);
    out.push(47);
    out.push(88);
    push_u64(out, asset_reg);
    assert(out@ =~= s2 + seq![32u8, 99u8, 109u8, 32u8, 47u8, 88u8] + dec_digits(
        asset_reg as nat,
    ));
    let ghost s3 = out@;
    out.push(32);
    out.push(68);
    out.push(111);
    out.push(32);
    out.push(81);
    out.push(10);
    assert(out@ =~= s3 + seq![32u8, 68u8, 111u8, 32u8, 81u8, 10u8]);
    assert(out@ =~= old(out)@ + vector_op_bytes(
        pt_of(at.x.thousandths as int),
        pt_of(at.y.thousandths as int),
        pt_of(width.thousandths as int),
        pt_of(height.thousandths as int),
        asset_reg as nat,
    ));
}

/// Appends the instructions of one drawable.
pub fn lower_drawable(out: &mut Vec<u8>, d: &PdfDrawable)
    requires
        drawable_bounded(*d),
    ensures
        final(out)@ == old(out)@ + drawable_bytes(*d),
{
    match &d.kind {
        PdfDrawableKind::Marker => {
            assert(out@ =~= old(out)@ + drawable_bytes(*d));
        },
        PdfDrawableKind::Text { text, font, font_size } => {
            lower_text(out, d.at, text, font.0 as u64, *font_size);
        },
        PdfDrawableKind::Line { points, outline, fill } => {
            lower_line(out, points, outline, fill);
        },
        PdfDrawableKind::Vector { asset, width, height } => {
            lower_vector(out, d.at, asset.0 as u64, *width, *height);
        },
    }
}

/// Whether every length a layer's drawables hold is small enough for the
/// point conversion.
pub open spec fn layer_bounded(l: PdfLayer) -> bool {
    forall|k: int| 0 <= k < l.drawables@.len() ==> drawable_bounded(#[trigger] l.drawables@[k])
}

/// Lowers a whole layer into its instruction stream.
pub fn lower_layer(l: &PdfLayer) -> (r: Vec<u8>)
    requires
        layer_bounded(*l),
    ensures
        r@ == layer_bytes(*l),
{
    let mut out: Vec<u8> = Vec::new();
    let mut k: usize = 0;
    while k < l.drawables.len()
        invariant
            k <= l.drawables@.len(),
            out@ == drawables_bytes(l.drawables@.take(k as int)),
            layer_bounded(*l),
        decreases l.drawables@.len() - k,
    {
        lower_drawable(&mut out, &l.drawables[k]);
        proof {
            assert(l.drawables@.take(k + 1 as int).drop_last() =~= l.drawables@.take(k as int));
            assert(l.drawables@.take(k + 1 as int).last() == l.drawables@[k as int]);
        }
        k = k + 1;
    }
    assert(l.drawables@.take(l.drawables@.len() as int) =~= l.drawables@);
    out
}

/// Whether every length a drawable holds is small enough for the point
/// conversion.
pub open spec fn drawable_bounded(d: PdfDrawable) -> bool {
    &&& d.at.x.in_range()
    &&& d.at.y.in_range()
    &&& match d.kind {
        PdfDrawableKind::Marker => true,
        PdfDrawableKind::Text { .. } => true,
        PdfDrawableKind::Line { points, outline, .. } => (forall|i: int|
            0 <= i < points@.len() ==> (#[trigger] points@[i]).0.x.in_range()
                && points@[i].0.y.in_range()) && (outline is Some
            ==> outline->0.thickness.in_range()),
        PdfDrawableKind::Vector { width, height, .. } => width.in_range() && height.in_range(),
    }
}

} // verus!
