use super::tags::{
    get_code_meanings, get_string_value, sequence_meanings, string_value, PADDLE_DESCRIPTION,
    VIEW_MODIFIER_CODE_SEQUENCE, VIEW_POSITION,
};
use crate::text::{
    any_contains, any_has, contains, has_substring, lowercase, opt_view, to_lowercase, trim,
    trimmed, views,
};
use dicom_object::InMemDicomObject;
use vstd::prelude::*;

verus! {

/// A code meaning as the rules read it: trimmed and in lowercase.
pub open spec fn normal_form(meaning: Seq<char>) -> Seq<char> {
    lowercase(trimmed(meaning))
}

/// The view modifier code meanings at the top level of an object, each in
/// normal form.
pub open spec fn modifier_meanings(dcm: InMemDicomObject) -> Seq<Seq<char>> {
    sequence_meanings(dcm, VIEW_MODIFIER_CODE_SEQUENCE).map_values(|m: Seq<char>| normal_form(m))
}

/// The text of an optional field in lowercase.
pub open spec fn lowercase_opt(o: Option<Seq<char>>) -> Option<Seq<char>> {
    match o {
        Some(t) => Some(lowercase(t)),
        None => None,
    }
}

/// Whether an optional text is present and has `needle` as a substring.
pub open spec fn opt_has(o: Option<Seq<char>>, needle: Seq<char>) -> bool {
    o is Some && has_substring(o->0, needle)
}

/// The spot compression rule: the paddle description has `SPOT` or `SPT`
/// in capitals, or the view position, in lowercase, has `spot`, or a code
/// meaning in normal form has `spot compression`.
pub open spec fn spot_rule(
    paddle: Option<Seq<char>>,
    view_position_lower: Option<Seq<char>>,
    meanings: Seq<Seq<char>>,
) -> bool {
    ||| opt_has(paddle, "SPOT"@)
    ||| opt_has(paddle, "SPT"@)
    ||| opt_has(view_position_lower, "spot"@)
    ||| any_has(meanings, "spot compression"@)
}

/// The magnification rule: the paddle description has `MAG` in capitals,
/// or a code meaning in normal form has `magnification` or `magnified`.
pub open spec fn magnification_rule(paddle: Option<Seq<char>>, meanings: Seq<Seq<char>>) -> bool {
    ||| opt_has(paddle, "MAG"@)
    ||| any_has(meanings, "magnification"@)
    ||| any_has(meanings, "magnified"@)
}

/// The implant displaced rule: a code meaning in normal form has
/// `implant displaced`.
pub open spec fn implant_displaced_rule(meanings: Seq<Seq<char>>) -> bool {
    any_has(meanings, "implant displaced"@)
}

/// Whether an optional text is present and has `needle` as a substring.
fn opt_contains(o: &Option<String>, needle: &str) -> (r: bool)
    ensures
        r == opt_has(opt_view(*o), needle@),
{
    match o {
        Some(t) => contains(t.as_str(), needle),
        None => false,
    }
}

/// Each code meaning trimmed and in lowercase.
pub fn normalize_meanings(raw: &Vec<String>) -> (r: Vec<String>)
    ensures
        views(r@) == views(raw@).map_values(|m: Seq<char>| normal_form(m)),
{
    let mut out: Vec<String> = Vec::new();
    let mut k: usize = 0;
    while k < raw.len()
        invariant
            k <= raw.len(),
            out.len() == k,
            forall|i: int| 0 <= i < k ==> out@[i]@ == normal_form(raw@[i]@),
        decreases raw.len() - k,
    {
        out.push(to_lowercase(trim(raw[k].as_str())));
        k += 1;
    }
    assert(views(out@) =~= views(raw@).map_values(|m: Seq<char>| normal_form(m)));
    out
}

/// Whether the values say that the view is a spot compression view. The
/// paddle description is taken as it is; the view position and the code
/// meanings are taken to be in lowercase already.
pub fn spot_compression_from(
    paddle: &Option<String>,
    view_position_lower: &Option<String>,
    meanings: &Vec<String>,
) -> (r: bool)
    ensures
        r == spot_rule(opt_view(*paddle), opt_view(*view_position_lower), views(meanings@)),
{
    opt_contains(paddle, "SPOT") || opt_contains(paddle, "SPT") || opt_contains(
        view_position_lower,
        "spot",
    ) || any_contains(meanings, "spot compression")
}

/// Whether the values say that the view is a magnification view. The
/// paddle description is taken as it is; the code meanings are taken to be
/// in lowercase already.
pub fn magnified_from(paddle: &Option<String>, meanings: &Vec<String>) -> (r: bool)
    ensures
        r == magnification_rule(opt_view(*paddle), views(meanings@)),
{
    opt_contains(paddle, "MAG") || any_contains(meanings, "magnification") || any_contains(
        meanings,
        "magnified",
    )
}

/// Whether the code meanings, taken to be in lowercase already, say that
/// the implant was displaced for the view.
pub fn implant_displaced_from(meanings: &Vec<String>) -> (r: bool)
    ensures
        r == implant_displaced_rule(views(meanings@)),
{
    any_contains(meanings, "implant displaced")
}

/// The view modifier code meanings at the top level of an object, each
/// trimmed and in lowercase. An object without such codes gives none.
pub fn extract_view_modifier_meanings(dcm: &InMemDicomObject) -> (r: Vec<String>)
    ensures
        views(r@) == modifier_meanings(*dcm),
{
    let raw = get_code_meanings(dcm, VIEW_MODIFIER_CODE_SEQUENCE);
    normalize_meanings(&raw)
}

/// Whether the implant was displaced for the view of an object.
pub fn is_implant_displaced(dcm: &InMemDicomObject) -> (r: bool)
    ensures
        r == implant_displaced_rule(modifier_meanings(*dcm)),
{
    let meanings = extract_view_modifier_meanings(dcm);
    implant_displaced_from(&meanings)
}

/// Whether an object shows a spot compression view.
pub fn is_spot_compression(dcm: &InMemDicomObject) -> (r: bool)
    ensures
        r == spot_rule(
            string_value(*dcm, PADDLE_DESCRIPTION),
            lowercase_opt(string_value(*dcm, VIEW_POSITION)),
            modifier_meanings(*dcm),
        ),
{
    let paddle = get_string_value(dcm, PADDLE_DESCRIPTION);
    let view_position = match get_string_value(dcm, VIEW_POSITION) {
        Some(t) => Some(to_lowercase(t.as_str())),
        None => None,
    };
    let meanings = extract_view_modifier_meanings(dcm);
    spot_compression_from(&paddle, &view_position, &meanings)
}

/// Whether an object shows a magnification view.
pub fn is_magnified(dcm: &InMemDicomObject) -> (r: bool)
    ensures
        r == magnification_rule(string_value(*dcm, PADDLE_DESCRIPTION), modifier_meanings(*dcm)),
{
    let paddle = get_string_value(dcm, PADDLE_DESCRIPTION);
    let meanings = extract_view_modifier_meanings(dcm);
    magnified_from(&paddle, &meanings)
}

/// Without a paddle description, a view position and code meanings, no
/// modifier is found.
pub proof fn lemma_no_source_no_modifier()
    ensures
        !spot_rule(None, None, Seq::empty()),
        !magnification_rule(None, Seq::empty()),
        !implant_displaced_rule(Seq::empty()),
{
}

} // verus!
