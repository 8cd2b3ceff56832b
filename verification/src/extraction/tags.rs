//! Tag identifiers and the lookups that the classifier makes in a DICOM
//! object.
//!
//! A DICOM object is a value of the `dicom-object` crate and is opaque here.
//! What it holds is spoken of through a few names: the element stored under
//! a tag, and what an element gives when it is read as text, as a list of
//! texts, as an integer or as a sequence of nested objects.

use crate::error::MammocatError;
use crate::text::{opt_view, opt_views, split, split_on, trim, trim_each, trimmed, views};
use dicom_core::header::DataElement;
use dicom_core::Tag;
use dicom_object::mem::InMemElement;
use dicom_object::InMemDicomObject;
use dicom_object::StandardDataDictionary;
use vstd::prelude::*;

verus! {

/// A tag identifier: group number, then element number.
pub type TagId = (u16, u16);

// Core image tags
pub const IMAGE_TYPE: TagId = (0x0008, 0x0008);

pub const MODALITY: TagId = (0x0008, 0x0060);

pub const NUMBER_OF_FRAMES: TagId = (0x0028, 0x0008);

pub const PHOTOMETRIC_INTERPRETATION: TagId = (0x0028, 0x0004);

// Image geometry tags
pub const ROWS: TagId = (0x0028, 0x0010);

pub const COLUMNS: TagId = (0x0028, 0x0011);

pub const BITS_STORED: TagId = (0x0028, 0x0101);

pub const PIXEL_SPACING: TagId = (0x0028, 0x0030);

pub const IMAGER_PIXEL_SPACING: TagId = (0x0018, 0x1164);

// View position tags
pub const VIEW_POSITION: TagId = (0x0018, 0x5101);

pub const VIEW_CODE_SEQUENCE: TagId = (0x0054, 0x0220);

pub const VIEW_MODIFIER_CODE_SEQUENCE: TagId = (0x0054, 0x0222);

pub const CODE_MEANING: TagId = (0x0008, 0x0104);

pub const FRAME_LATERALITY: TagId = (0x0020, 0x9072);

pub const FRAME_ANATOMY_SEQUENCE: TagId = (0x0020, 0x9071);

// Laterality tags
pub const LATERALITY: TagId = (0x0020, 0x0060);

pub const IMAGE_LATERALITY: TagId = (0x0020, 0x0062);

pub const PATIENT_ORIENTATION: TagId = (0x0020, 0x0020);

// Anatomical tags
pub const SHARED_FUNCTIONAL_GROUPS_SEQUENCE: TagId = (0x5200, 0x9229);

pub const BODY_PART_EXAMINED: TagId = (0x0018, 0x0015);

// Device and manufacturer tags
pub const MANUFACTURER_MODEL_NAME: TagId = (0x0008, 0x1090);

pub const MANUFACTURER: TagId = (0x0008, 0x0070);

pub const MANUFACTURER_MODEL_NUMBER: TagId = (0x0018, 0x1020);

pub const TRANSFER_SYNTAX_UID: TagId = (0x0002, 0x0010);

// Study and series identification tags
pub const STUDY_INSTANCE_UID: TagId = (0x0020, 0x000D);

pub const SERIES_INSTANCE_UID: TagId = (0x0020, 0x000E);

pub const SOP_INSTANCE_UID: TagId = (0x0008, 0x0018);

pub const SOP_CLASS_UID: TagId = (0x0008, 0x0016);

pub const STUDY_DATE: TagId = (0x0008, 0x0020);

pub const CONTENT_DATE: TagId = (0x0008, 0x0023);

pub const ACQUISITION_DATE: TagId = (0x0018, 0x1012);

// Description tags
pub const SERIES_DESCRIPTION: TagId = (0x0008, 0x103E);

pub const STUDY_DESCRIPTION: TagId = (0x0008, 0x1030);

pub const PERFORMED_PROCEDURE_STEP_DESCRIPTION: TagId = (0x0040, 0x0254);

// Patient tags
pub const PATIENT_NAME: TagId = (0x0010, 0x0010);

pub const PATIENT_ID: TagId = (0x0010, 0x0020);

pub const PATIENT_AGE: TagId = (0x0010, 0x1010);

pub const PATIENT_BIRTH_DATE: TagId = (0x0010, 0x0030);

pub const STUDY_ID: TagId = (0x0020, 0x0010);

// Institution tags
pub const INSTITUTION_NAME: TagId = (0x0008, 0x0080);

pub const INSTITUTION_ADDRESS: TagId = (0x0008, 0x0081);

// Breast-specific tags
pub const PADDLE_DESCRIPTION: TagId = (0x0018, 0x1405);

pub const BREAST_IMPLANT_PRESENT: TagId = (0x0028, 0x1300);

pub const BODY_PART_THICKNESS: TagId = (0x0018, 0x1075);

// Other tags
pub const PRESENTATION_INTENT_TYPE: TagId = (0x0008, 0x0068);

pub const ACCESSION_NUMBER: TagId = (0x0008, 0x0050);

/// The dictionary type that `dicom-object` gives its objects by default.
#[verifier::external_type_specification]
#[verifier::external_body]
pub struct ExStandardDataDictionary(StandardDataDictionary);

/// An in-memory DICOM object of `dicom-object`.
#[verifier::external_type_specification]
#[verifier::external_body]
#[verifier::reject_recursive_types(D)]
pub struct ExInMemDicomObject<D>(InMemDicomObject<D>);

/// A data element of `dicom-core`: a header and a value.
#[verifier::external_type_specification]
#[verifier::external_body]
#[verifier::reject_recursive_types(I)]
#[verifier::reject_recursive_types(P)]
pub struct ExDataElement<I, P>(DataElement<I, P>);

/// What `InMemDicomObject::element` finds under `tag`: the element stored
/// there, or nothing where the object stores none.
pub uninterp spec fn element_at(dcm: InMemDicomObject, tag: TagId) -> Option<InMemElement>;

/// What `DataElement::to_str` makes of an element: its value as one clean
/// string, or nothing where the value is not primitive.
pub uninterp spec fn element_text(e: InMemElement) -> Option<Seq<char>>;

/// What `DataElement::to_multi_str` makes of an element: its value as a
/// list of strings, or nothing where the value is not primitive.
pub uninterp spec fn element_texts(e: InMemElement) -> Option<Seq<Seq<char>>>;

/// What `DataElement::to_int::<i32>` makes of an element: its first value
/// as an integer, or nothing where there is no such integer.
pub uninterp spec fn element_i32(e: InMemElement) -> Option<i32>;

/// What `DataElement::to_int::<u16>` makes of an element: its first value
/// as an integer, or nothing where there is no such integer.
pub uninterp spec fn element_u16(e: InMemElement) -> Option<u16>;

/// What `DataElement::items` gives for an element: the nested objects of a
/// sequence value, or nothing where the value is no sequence.
pub uninterp spec fn element_items(e: InMemElement) -> Option<Seq<InMemDicomObject>>;

/// Calls `InMemDicomObject::element` and drops the error of a missing tag.
/// The contract names the element found; it claims nothing of which tags an
/// object holds.
#[verifier::external_body]
fn find_element<'a>(dcm: &'a InMemDicomObject, tag: TagId) -> (r: Option<&'a InMemElement>)
    ensures
        r is Some <==> element_at(*dcm, tag) is Some,
        r matches Some(e) ==> *e == element_at(*dcm, tag)->0,
{
    dcm.element(Tag::from(tag)).ok()
}

/// Calls `DataElement::to_str` and drops the conversion error. The contract
/// names the text; it claims nothing of its content.
#[verifier::external_body]
fn read_text(e: &InMemElement) -> (r: Option<String>)
    ensures
        opt_view(r) == element_text(*e),
{
    e.to_str().ok().map(|s| s.into_owned())
}

/// Calls `DataElement::to_multi_str` and drops the conversion error. The
/// contract names the list; it claims nothing of its content.
#[verifier::external_body]
fn read_texts(e: &InMemElement) -> (r: Option<Vec<String>>)
    ensures
        opt_views(r) == element_texts(*e),
{
    e.to_multi_str().ok().map(|s| s.into_owned())
}

/// Calls `DataElement::to_int` for `i32` and drops the conversion error.
/// The contract names the integer.
#[verifier::external_body]
fn read_i32(e: &InMemElement) -> (r: Option<i32>)
    ensures
        r == element_i32(*e),
{
    e.to_int::<i32>().ok()
}

/// Calls `DataElement::to_int` for `u16` and drops the conversion error.
/// The contract names the integer.
#[verifier::external_body]
fn read_u16(e: &InMemElement) -> (r: Option<u16>)
    ensures
        r == element_u16(*e),
{
    e.to_int::<u16>().ok()
}

/// Calls `DataElement::items`. The contract names the nested objects.
#[verifier::external_body]
fn read_items<'a>(e: &'a InMemElement) -> (r: Option<&'a [InMemDicomObject]>)
    ensures
        r is Some <==> element_items(*e) is Some,
        r matches Some(s) ==> s@ == element_items(*e)->0,
{
    e.items()
}

/// The trimmed text stored under `tag`, if the tag is present and its value
/// reads as text.
pub open spec fn string_value(dcm: InMemDicomObject, tag: TagId) -> Option<Seq<char>> {
    match element_at(dcm, tag) {
        Some(e) => match element_text(e) {
            Some(t) => Some(trimmed(t)),
            None => None,
        },
        None => None,
    }
}

/// The integer stored under `tag`, if the tag is present and its value
/// reads as an `i32`.
pub open spec fn int_value(dcm: InMemDicomObject, tag: TagId) -> Option<i32> {
    match element_at(dcm, tag) {
        Some(e) => element_i32(e),
        None => None,
    }
}

/// The integer stored under `tag`, if the tag is present and its value
/// reads as a `u16`.
pub open spec fn u16_value(dcm: InMemDicomObject, tag: TagId) -> Option<u16> {
    match element_at(dcm, tag) {
        Some(e) => element_u16(e),
        None => None,
    }
}

/// The pieces of a composite text: split at each backslash, each piece
/// trimmed.
pub open spec fn backslash_pieces(t: Seq<char>) -> Seq<Seq<char>> {
    split_on(t, '\\').map_values(|p: Seq<char>| trimmed(p))
}

/// The list of texts stored under `tag`: the element's own list where it
/// has one, else its single text split at backslashes.
pub open spec fn multi_string_value(dcm: InMemDicomObject, tag: TagId) -> Option<Seq<Seq<char>>> {
    match element_at(dcm, tag) {
        Some(e) => match element_texts(e) {
            Some(v) => Some(v),
            None => match element_text(e) {
                Some(t) => Some(backslash_pieces(t)),
                None => None,
            },
        },
        None => None,
    }
}

/// The nested objects stored under `tag`, if the tag is present and holds a
/// sequence.
pub open spec fn sequence_items(dcm: InMemDicomObject, tag: TagId) -> Option<
    Seq<InMemDicomObject>,
> {
    match element_at(dcm, tag) {
        Some(e) => element_items(e),
        None => None,
    }
}

/// The trimmed text stored under `tag`. `None` where the tag is absent or
/// its value does not read as text.
pub fn get_string_value(dcm: &InMemDicomObject, tag: TagId) -> (r: Option<String>)
    ensures
        opt_view(r) == string_value(*dcm, tag),
{
    match find_element(dcm, tag) {
        Some(e) => match read_text(e) {
            Some(t) => Some(trim(t.as_str()).to_owned()),
            None => None,
        },
        None => None,
    }
}

/// The integer stored under `tag`. `None` where the tag is absent or its
/// value does not read as an `i32`.
pub fn get_int_value(dcm: &InMemDicomObject, tag: TagId) -> (r: Option<i32>)
    ensures
        r == int_value(*dcm, tag),
{
    match find_element(dcm, tag) {
        Some(e) => read_i32(e),
        None => None,
    }
}

/// The list of texts stored under `tag`. Where the element gives no list,
/// its single text is split at backslashes and each piece trimmed. `None`
/// where the tag is absent or its value reads neither way.
pub fn get_multi_string_value(dcm: &InMemDicomObject, tag: TagId) -> (r: Option<Vec<String>>)
    ensures
        opt_views(r) == multi_string_value(*dcm, tag),
{
    match find_element(dcm, tag) {
        Some(e) => match read_texts(e) {
            Some(v) => Some(v),
            None => match read_text(e) {
                Some(t) => {
                    let pieces = split(t.as_str(), '\\');
                    Some(trim_each(&pieces))
                },
                None => None,
            },
        },
        None => None,
    }
}

/// The integer stored under `tag`. `None` where the tag is absent or its
/// value does not read as a `u16`.
pub fn get_u16_value(dcm: &InMemDicomObject, tag: TagId) -> (r: Option<u16>)
    ensures
        r == u16_value(*dcm, tag),
{
    match find_element(dcm, tag) {
        Some(e) => read_u16(e),
        None => None,
    }
}

/// The nested objects stored under `tag`. `None` where the tag is absent or
/// holds no sequence.
pub fn get_sequence_items<'a>(dcm: &'a InMemDicomObject, tag: TagId) -> (r: Option<
    &'a [InMemDicomObject],
>)
    ensures
        r is Some <==> sequence_items(*dcm, tag) is Some,
        r matches Some(s) ==> s@ == sequence_items(*dcm, tag)->0,
{
    match find_element(dcm, tag) {
        Some(e) => read_items(e),
        None => None,
    }
}

/// The code meanings of a run of sequence items, in order. An item without
/// a code meaning that reads as text adds nothing.
pub open spec fn meanings_of(items: Seq<InMemDicomObject>) -> Seq<Seq<char>>
    decreases items.len(),
{
    if items.len() == 0 {
        Seq::empty()
    } else {
        match string_value(items.last(), CODE_MEANING) {
            Some(m) => meanings_of(items.drop_last()).push(m),
            None => meanings_of(items.drop_last()),
        }
    }
}

/// The code meanings of the items of the sequence stored under `tag`; none
/// where the tag is absent or holds no sequence.
pub open spec fn sequence_meanings(dcm: InMemDicomObject, tag: TagId) -> Seq<Seq<char>> {
    match sequence_items(dcm, tag) {
        Some(items) => meanings_of(items),
        None => Seq::empty(),
    }
}

/// The code meanings of a run of sequence items, in order.
pub fn code_meanings(items: &[InMemDicomObject]) -> (r: Vec<String>)
    ensures
        views(r@) == meanings_of(items@),
{
    let mut out: Vec<String> = Vec::new();
    let mut k: usize = 0;
    assert(items@.take(0) =~= Seq::<InMemDicomObject>::empty());
    assert(views(out@) =~= Seq::<Seq<char>>::empty());
    while k < items.len()
        invariant
            k <= items.len(),
            views(out@) == meanings_of(items@.take(k as int)),
        decreases items.len() - k,
    {
        let ghost before = views(out@);
        assert(items@.take(k + 1).drop_last() =~= items@.take(k as int));
        assert(items@.take(k + 1).last() == items@[k as int]);
        if let Some(meaning) = get_string_value(&items[k], CODE_MEANING) {
            let ghost m = meaning@;
            out.push(meaning);
            assert(views(out@) =~= before.push(m));
        }
        k += 1;
    }
    assert(items@.take(k as int) =~= items@);
    out
}

/// The code meanings of the items of the sequence stored under `tag`.
pub fn get_code_meanings(dcm: &InMemDicomObject, tag: TagId) -> (r: Vec<String>)
    ensures
        views(r@) == sequence_meanings(*dcm, tag),
{
    match get_sequence_items(dcm, tag) {
        Some(items) => code_meanings(items),
        None => {
            let out: Vec<String> = Vec::new();
            assert(views(out@) =~= Seq::<Seq<char>>::empty());
            out
        },
    }
}

/// The hexadecimal digit of a value below sixteen, in uppercase.
pub open spec fn hex_digit(n: int) -> char {
    if n == 0 {
        '0'
    } else if n == 1 {
        '1'
    } else if n == 2 {
        '2'
    } else if n == 3 {
        '3'
    } else if n == 4 {
        '4'
    } else if n == 5 {
        '5'
    } else if n == 6 {
        '6'
    } else if n == 7 {
        '7'
    } else if n == 8 {
        '8'
    } else if n == 9 {
        '9'
    } else if n == 10 {
        'A'
    } else if n == 11 {
        'B'
    } else if n == 12 {
        'C'
    } else if n == 13 {
        'D'
    } else if n == 14 {
        'E'
    } else {
        'F'
    }
}

/// A 16-bit number as four hexadecimal digits.
pub open spec fn hex4(n: u16) -> Seq<char> {
    seq![
        hex_digit(n as int / 4096),
        hex_digit((n as int / 256) % 16),
        hex_digit((n as int / 16) % 16),
        hex_digit(n as int % 16),
    ]
}

/// The label of a tag, such as `(0028,0010)`.
pub open spec fn tag_label(tag: TagId) -> Seq<char> {
    seq!['('] + hex4(tag.0) + seq![','] + hex4(tag.1) + seq![')']
}

fn hex_digit_text(n: u16) -> (r: &'static str)
    requires
        n < 16,
    ensures
        r@ == seq![hex_digit(n as int)],
{
    proof {
        reveal_strlit("0");
        reveal_strlit("1");
        reveal_strlit("2");
        reveal_strlit("3");
        reveal_strlit("4");
        reveal_strlit("5");
        reveal_strlit("6");
        reveal_strlit("7");
        reveal_strlit("8");
        reveal_strlit("9");
        reveal_strlit("A");
        reveal_strlit("B");
        reveal_strlit("C");
        reveal_strlit("D");
        reveal_strlit("E");
        reveal_strlit("F");
    }
    let r = if n == 0 {
        "0"
    } else if n == 1 {
        "1"
    } else if n == 2 {
        "2"
    } else if n == 3 {
        "3"
    } else if n == 4 {
        "4"
    } else if n == 5 {
        "5"
    } else if n == 6 {
        "6"
    } else if n == 7 {
        "7"
    } else if n == 8 {
        "8"
    } else if n == 9 {
        "9"
    } else if n == 10 {
        "A"
    } else if n == 11 {
        "B"
    } else if n == 12 {
        "C"
    } else if n == 13 {
        "D"
    } else if n == 14 {
        "E"
    } else {
        "F"
    };
    assert(r@ =~= seq![hex_digit(n as int)]);
    r
}

fn append_hex4(out: &mut String, n: u16)
    ensures
        final(out)@ == old(out)@ + hex4(n),
{
    out.append(hex_digit_text(n / 4096));
    out.append(hex_digit_text((n / 256) % 16));
    out.append(hex_digit_text((n / 16) % 16));
    out.append(hex_digit_text(n % 16));
    assert(out@ =~= old(out)@ + hex4(n));
}

/// The label of a tag: its group and element numbers in hexadecimal, in
/// parentheses, such as `(0028,0010)`.
pub fn format_tag(tag: TagId) -> (r: String)
    ensures
        r@ == tag_label(tag),
{
    proof {
        reveal_strlit("(");
        reveal_strlit(",");
        reveal_strlit(")");
    }
    let mut out = "(".to_owned();
    append_hex4(&mut out, tag.0);
    out.append(",");
    append_hex4(&mut out, tag.1);
    out.append(")");
    assert(out@ =~= tag_label(tag));
    out
}

/// The trimmed text stored under a tag that the caller requires.
///
/// Fails with `TagNotFound` where the tag is absent, and with
/// `InvalidValue` where its value does not read as text; both errors carry
/// the label of the tag.
pub fn require_string_value(dcm: &InMemDicomObject, tag: TagId) -> (r: Result<
    String,
    MammocatError,
>)
    ensures
        match element_at(*dcm, tag) {
            None => r matches Err(MammocatError::TagNotFound(m)) && m@ == tag_label(tag),
            Some(e) => match element_text(e) {
                None => r matches Err(MammocatError::InvalidValue(m)) && m@ == tag_label(tag),
                Some(t) => r matches Ok(s) && s@ == trimmed(t),
            },
        },
        r is Ok <==> string_value(*dcm, tag) is Some,
{
    match find_element(dcm, tag) {
        None => Err(MammocatError::TagNotFound(format_tag(tag))),
        Some(e) => match read_text(e) {
            None => Err(MammocatError::InvalidValue(format_tag(tag))),
            Some(t) => Ok(trim(t.as_str()).to_owned()),
        },
    }
}

/// The integer stored under a tag that the caller requires.
///
/// Fails with `TagNotFound` where the tag is absent, and with
/// `InvalidValue` where its value does not read as an `i32`; both errors
/// carry the label of the tag.
pub fn require_int_value(dcm: &InMemDicomObject, tag: TagId) -> (r: Result<i32, MammocatError>)
    ensures
        match element_at(*dcm, tag) {
            None => r matches Err(MammocatError::TagNotFound(m)) && m@ == tag_label(tag),
            Some(e) => match element_i32(e) {
                None => r matches Err(MammocatError::InvalidValue(m)) && m@ == tag_label(tag),
                Some(n) => r == Ok::<i32, MammocatError>(n),
            },
        },
        r is Ok <==> int_value(*dcm, tag) is Some,
{
    match find_element(dcm, tag) {
        None => Err(MammocatError::TagNotFound(format_tag(tag))),
        Some(e) => match read_i32(e) {
            None => Err(MammocatError::InvalidValue(format_tag(tag))),
            Some(n) => Ok(n),
        },
    }
}

} // verus!
