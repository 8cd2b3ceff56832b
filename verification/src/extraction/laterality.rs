use super::tags::{
    get_sequence_items, get_string_value, sequence_items, string_value, FRAME_ANATOMY_SEQUENCE,
    FRAME_LATERALITY, IMAGE_LATERALITY, LATERALITY, SHARED_FUNCTIONAL_GROUPS_SEQUENCE,
};
use crate::error::MammocatError;
use crate::text::{equals, lowercase, opt_view, to_lowercase, trim, trimmed};
use crate::types::Laterality;
use dicom_object::InMemDicomObject;
use vstd::prelude::*;

verus! {

/// The side that a laterality code stands for: `l` is left, `r` is right,
/// anything else is unknown.
pub open spec fn code_side(code: Seq<char>) -> Laterality {
    if code == "l"@ {
        Laterality::Left
    } else if code == "r"@ {
        Laterality::Right
    } else {
        Laterality::Unknown
    }
}

/// The side that a laterality value stands for, once trimmed and put in
/// lowercase.
pub open spec fn parsed_side(value: Seq<char>) -> Laterality {
    code_side(lowercase(trimmed(value)))
}

/// The first of three optional values that is present and not empty.
pub open spec fn first_filled(
    first: Option<Seq<char>>,
    second: Option<Seq<char>>,
    third: Option<Seq<char>>,
) -> Option<Seq<char>> {
    if first is Some && first->0.len() > 0 {
        first
    } else if second is Some && second->0.len() > 0 {
        second
    } else if third is Some && third->0.len() > 0 {
        third
    } else {
        None
    }
}

/// The side that three sources give, in order of precedence: the first
/// source that is present and not empty decides; with none, the side is
/// unknown.
pub open spec fn side_from(
    image: Option<Seq<char>>,
    series: Option<Seq<char>>,
    frame: Option<Seq<char>>,
) -> Laterality {
    match first_filled(image, series, frame) {
        Some(value) => parsed_side(value),
        None => Laterality::Unknown,
    }
}

/// The first item of the sequence stored under `tag`, if there is one.
pub open spec fn first_item(dcm: InMemDicomObject, tag: (u16, u16)) -> Option<InMemDicomObject> {
    match sequence_items(dcm, tag) {
        Some(items) => if items.len() > 0 {
            Some(items[0])
        } else {
            None
        },
        None => None,
    }
}

/// The frame laterality of an object: the value found by going into the
/// first item of the shared functional groups, and there into the first item
/// of the frame anatomy.
pub open spec fn frame_laterality(dcm: InMemDicomObject) -> Option<Seq<char>> {
    match first_item(dcm, SHARED_FUNCTIONAL_GROUPS_SEQUENCE) {
        Some(group) => match first_item(group, FRAME_ANATOMY_SEQUENCE) {
            Some(anatomy) => string_value(anatomy, FRAME_LATERALITY),
            None => None,
        },
        None => None,
    }
}

/// The side that an object shows: decided by its image laterality, else by
/// its laterality, else by its frame laterality.
pub open spec fn side_of(dcm: InMemDicomObject) -> Laterality {
    side_from(
        string_value(dcm, IMAGE_LATERALITY),
        string_value(dcm, LATERALITY),
        frame_laterality(dcm),
    )
}

/// The side that a laterality code stands for. The code is taken as it is:
/// no trimming, no change of case.
pub fn laterality_of_code(code: &str) -> (r: Laterality)
    ensures
        r == code_side(code@),
{
    if equals(code, "l") {
        Laterality::Left
    } else if equals(code, "r") {
        Laterality::Right
    } else {
        Laterality::Unknown
    }
}

/// The side that a laterality value stands for: `L` and `R`, in either case
/// and with any surrounding whitespace, are left and right; the rest is
/// unknown.
pub fn parse_laterality_string(s: &str) -> (r: Laterality)
    ensures
        r == parsed_side(s@),
{
    let lower = to_lowercase(trim(s));
    laterality_of_code(lower.as_str())
}

/// The side that three sources give, in order of precedence. A source that
/// is absent or empty is passed over.
pub fn laterality_from_sources(
    image: &Option<String>,
    series: &Option<String>,
    frame: &Option<String>,
) -> (r: Laterality)
    ensures
        r == side_from(opt_view(*image), opt_view(*series), opt_view(*frame)),
{
    if let Some(value) = image {
        if !value.as_str().is_empty() {
            return parse_laterality_string(value.as_str());
        }
    }
    if let Some(value) = series {
        if !value.as_str().is_empty() {
            return parse_laterality_string(value.as_str());
        }
    }
    if let Some(value) = frame {
        if !value.as_str().is_empty() {
            return parse_laterality_string(value.as_str());
        }
    }
    Laterality::Unknown
}

/// The first item of the sequence stored under `tag`, if there is one.
fn first_sequence_item<'a>(dcm: &'a InMemDicomObject, tag: (u16, u16)) -> (r: Option<
    &'a InMemDicomObject,
>)
    ensures
        r is Some <==> first_item(*dcm, tag) is Some,
        r matches Some(item) ==> *item == first_item(*dcm, tag)->0,
{
    match get_sequence_items(dcm, tag) {
        Some(items) => if items.len() > 0 {
            Some(&items[0])
        } else {
            None
        },
        None => None,
    }
}

/// The frame laterality of an object, if it has one.
pub fn extract_frame_laterality(dcm: &InMemDicomObject) -> (r: Option<String>)
    ensures
        opt_view(r) == frame_laterality(*dcm),
{
    match first_sequence_item(dcm, SHARED_FUNCTIONAL_GROUPS_SEQUENCE) {
        Some(group) => match first_sequence_item(group, FRAME_ANATOMY_SEQUENCE) {
            Some(anatomy) => get_string_value(anatomy, FRAME_LATERALITY),
            None => None,
        },
        None => None,
    }
}

/// The side that an object shows. This never fails: an object without a
/// usable laterality has the side `Unknown`.
pub fn extract_laterality(dcm: &InMemDicomObject) -> (r: Result<Laterality, MammocatError>)
    ensures
        r matches Ok(side) && side == side_of(*dcm),
{
    let image = get_string_value(dcm, IMAGE_LATERALITY);
    let series = get_string_value(dcm, LATERALITY);
    let frame = extract_frame_laterality(dcm);
    Ok(laterality_from_sources(&image, &series, &frame))
}

/// A source that is present and not empty decides the side, whatever the
/// sources after it hold; sources before it that are absent or empty do not
/// matter.
pub proof fn lemma_earlier_source_wins(
    value: Seq<char>,
    second: Option<Seq<char>>,
    third: Option<Seq<char>>,
    other_second: Option<Seq<char>>,
    other_third: Option<Seq<char>>,
)
    requires
        value.len() > 0,
    ensures
        side_from(Some(value), second, third) == parsed_side(value),
        side_from(Some(value), second, third) == side_from(Some(value), other_second, other_third),
        side_from(None, Some(value), third) == parsed_side(value),
        side_from(Some(Seq::empty()), Some(value), third) == parsed_side(value),
        side_from(None, None, Some(value)) == parsed_side(value),
{
}

/// With no source that is present and not empty, the side is unknown.
pub proof fn lemma_no_source_is_unknown()
    ensures
        side_from(None, None, None) == Laterality::Unknown,
        side_from(Some(Seq::empty()), Some(Seq::empty()), Some(Seq::empty()))
            == Laterality::Unknown,
{
}

/// The image laterality of an object, where it is present and not empty,
/// decides its side whatever its laterality and frame laterality hold.
pub proof fn lemma_image_laterality_wins(dcm: InMemDicomObject, value: Seq<char>)
    requires
        string_value(dcm, IMAGE_LATERALITY) == Some(value),
        value.len() > 0,
    ensures
        side_of(dcm) == parsed_side(value),
{
}

/// Every laterality value stands for left, right or unknown, and for
/// nothing else.
pub proof fn lemma_parsed_side_is_left_right_or_unknown(value: Seq<char>)
    ensures
        parsed_side(value) == Laterality::Left || parsed_side(value) == Laterality::Right
            || parsed_side(value) == Laterality::Unknown,
{
}

} // verus!
