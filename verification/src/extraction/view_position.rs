use super::tags::{
    get_code_meanings, get_sequence_items, get_string_value, sequence_items, sequence_meanings,
    string_value, VIEW_CODE_SEQUENCE, VIEW_MODIFIER_CODE_SEQUENCE, VIEW_POSITION,
};
use crate::error::MammocatError;
use crate::text::{
    alphanumeric, chars_of, has_lit, has_substring, has_word, has_word_lit, is_lit, lowercase,
    occurs_at, opt_view, to_lowercase, trim, trimmed, views, word_at,
};
use crate::types::ViewPosition;
use dicom_object::InMemDicomObject;
use vstd::prelude::*;

verus! {

/// Whether `s` names the cranio-caudal view.
pub open spec fn names_cc(s: Seq<char>) -> bool {
    s == "cranio-caudal"@ || s == "caudal-cranial"@ || s == "cc"@
}

/// Whether `s` names the latero-medial oblique view: by its abbreviation,
/// by one of its full names, or by speaking of `oblique` and `latero`.
pub open spec fn names_lmo(s: Seq<char>) -> bool {
    ||| s == "lmo"@
    ||| s == "latero-medial oblique"@
    ||| s == "lateral-medial oblique"@
    ||| (has_substring(s, "oblique"@) && has_substring(s, "latero"@))
}

/// Whether `s` names the medio-lateral oblique view: by its abbreviation,
/// by one of its full names, or by speaking of `oblique` and of `medio`, or
/// of `medial` without `latero`.
pub open spec fn names_mlo(s: Seq<char>) -> bool {
    ||| s == "mlo"@
    ||| s == "medio-lateral oblique"@
    ||| s == "medial-lateral oblique"@
    ||| (has_substring(s, "oblique"@) && has_substring(s, "medio"@))
    ||| (has_substring(s, "oblique"@) && has_substring(s, "medial"@) && !has_substring(
        s,
        "latero"@,
    ))
}

/// Whether `s` names the latero-medial view.
pub open spec fn names_lm(s: Seq<char>) -> bool {
    s == "latero-medial"@ || s == "lateral-medial"@ || s == "lm"@
}

/// Whether `s` names the medio-lateral view.
pub open spec fn names_ml(s: Seq<char>) -> bool {
    s == "medio-lateral"@ || s == "medial-lateral"@ || s == "ml"@
}

/// Whether `s` names the cranio-caudal view exaggerated laterally.
pub open spec fn names_xccl(s: Seq<char>) -> bool {
    has_substring(s, "exaggerated laterally"@) || s == "xccl"@
}

/// Whether `s` names the cranio-caudal view exaggerated medially.
pub open spec fn names_xccm(s: Seq<char>) -> bool {
    has_substring(s, "exaggerated medially"@) || s == "xccm"@
}

/// Whether `s` names the axillary tail view.
pub open spec fn names_at(s: Seq<char>) -> bool {
    has_substring(s, "axillary tail"@) || s == "at"@
}

/// Whether `s` names the cleavage view.
pub open spec fn names_cv(s: Seq<char>) -> bool {
    has_substring(s, "cleavage view"@) || has_substring(s, "valley-view"@) || s == "cv"@
}

/// The view that a trimmed lowercase string names. The names are tried in
/// a fixed order: CC, then LMO before MLO, then LM before ML, then the two
/// exaggerated views, the axillary tail and the cleavage view.
pub open spec fn strict_match(s: Seq<char>) -> Option<ViewPosition> {
    if names_cc(s) {
        Some(ViewPosition::Cc)
    } else if names_lmo(s) {
        Some(ViewPosition::Lmo)
    } else if names_mlo(s) {
        Some(ViewPosition::Mlo)
    } else if names_lm(s) {
        Some(ViewPosition::Lm)
    } else if names_ml(s) {
        Some(ViewPosition::Ml)
    } else if names_xccl(s) {
        Some(ViewPosition::Xccl)
    } else if names_xccm(s) {
        Some(ViewPosition::Xccm)
    } else if names_at(s) {
        Some(ViewPosition::At)
    } else if names_cv(s) {
        Some(ViewPosition::Cv)
    } else {
        None
    }
}

/// The view whose abbreviation stands in `s` as a whole word. The longer
/// and more specific abbreviations are tried first.
pub open spec fn word_match(s: Seq<char>) -> Option<ViewPosition> {
    if has_word(s, "xccl"@) {
        Some(ViewPosition::Xccl)
    } else if has_word(s, "xccm"@) {
        Some(ViewPosition::Xccm)
    } else if has_word(s, "mlo"@) {
        Some(ViewPosition::Mlo)
    } else if has_word(s, "lmo"@) {
        Some(ViewPosition::Lmo)
    } else if has_word(s, "cc"@) {
        Some(ViewPosition::Cc)
    } else if has_word(s, "ml"@) {
        Some(ViewPosition::Ml)
    } else if has_word(s, "lm"@) {
        Some(ViewPosition::Lm)
    } else if has_word(s, "at"@) {
        Some(ViewPosition::At)
    } else if has_word(s, "cv"@) {
        Some(ViewPosition::Cv)
    } else {
        None
    }
}

/// The view that a trimmed lowercase string stands for. In strict mode
/// only names count; in loose mode an abbreviation that stands in the
/// string as a whole word counts too, where no name matches.
pub open spec fn view_of_lower(s: Seq<char>, strict: bool) -> ViewPosition {
    match strict_match(s) {
        Some(v) => v,
        None => if strict {
            ViewPosition::Unknown
        } else {
            match word_match(s) {
                Some(v) => v,
                None => ViewPosition::Unknown,
            }
        },
    }
}

/// The view that a string stands for, once trimmed and put in lowercase.
pub open spec fn view_of(s: Seq<char>, strict: bool) -> ViewPosition {
    view_of_lower(lowercase(trimmed(s)), strict)
}

/// The highest view that a list of code meanings names, each read in
/// strict mode; `Unknown` for a list that names none.
pub open spec fn highest_named(meanings: Seq<Seq<char>>) -> ViewPosition
    decreases meanings.len(),
{
    if meanings.len() == 0 {
        ViewPosition::Unknown
    } else {
        highest_named(meanings.drop_last()).higher(view_of(meanings.last(), true))
    }
}

/// The view that the primary value stands for, read in loose mode;
/// `Unknown` where there is no primary value.
pub open spec fn primary_view(primary: Option<Seq<char>>) -> ViewPosition {
    match primary {
        Some(t) => view_of(t, false),
        None => ViewPosition::Unknown,
    }
}

/// The view that the sources resolve to: the highest, by rank, of the view
/// of the primary value, the views that the view codes name and the views
/// that the view modifier codes name.
pub open spec fn resolved_view(
    primary: Option<Seq<char>>,
    view_codes: Seq<Seq<char>>,
    modifier_codes: Seq<Seq<char>>,
) -> ViewPosition {
    primary_view(primary).higher(highest_named(view_codes)).higher(highest_named(modifier_codes))
}

/// The code meanings of the view modifier codes that are nested in a run of
/// view code items, item after item.
pub open spec fn nested_modifier_meanings(items: Seq<InMemDicomObject>) -> Seq<Seq<char>>
    decreases items.len(),
{
    if items.len() == 0 {
        Seq::empty()
    } else {
        nested_modifier_meanings(items.drop_last()) + sequence_meanings(
            items.last(),
            VIEW_MODIFIER_CODE_SEQUENCE,
        )
    }
}

/// All view modifier code meanings of an object: those at its top level,
/// then those nested in the items of its view code sequence.
pub open spec fn all_modifier_meanings(dcm: InMemDicomObject) -> Seq<Seq<char>> {
    sequence_meanings(dcm, VIEW_MODIFIER_CODE_SEQUENCE) + match sequence_items(
        dcm,
        VIEW_CODE_SEQUENCE,
    ) {
        Some(items) => nested_modifier_meanings(items),
        None => Seq::empty(),
    }
}

/// The view that an object shows.
pub open spec fn view_in(dcm: InMemDicomObject) -> ViewPosition {
    resolved_view(
        string_value(dcm, VIEW_POSITION),
        sequence_meanings(dcm, VIEW_CODE_SEQUENCE),
        all_modifier_meanings(dcm),
    )
}

fn chars_name_lmo(c: &Vec<char>) -> (r: bool)
    ensures
        r == names_lmo(c@),
{
    is_lit(c, "lmo") || is_lit(c, "latero-medial oblique") || is_lit(c, "lateral-medial oblique")
        || (has_lit(c, "oblique") && has_lit(c, "latero"))
}

fn chars_name_mlo(c: &Vec<char>) -> (r: bool)
    ensures
        r == names_mlo(c@),
{
    is_lit(c, "mlo") || is_lit(c, "medio-lateral oblique") || is_lit(c, "medial-lateral oblique")
        || (has_lit(c, "oblique") && has_lit(c, "medio")) || (has_lit(c, "oblique") && has_lit(
        c,
        "medial",
    ) && !has_lit(c, "latero"))
}

/// Whether a trimmed lowercase string names the latero-medial oblique view.
pub fn matches_lmo(s: &str) -> (r: bool)
    ensures
        r == names_lmo(s@),
{
    let c = chars_of(s);
    chars_name_lmo(&c)
}

/// Whether a trimmed lowercase string names the medio-lateral oblique view.
pub fn matches_mlo(s: &str) -> (r: bool)
    ensures
        r == names_mlo(s@),
{
    let c = chars_of(s);
    chars_name_mlo(&c)
}

/// The view that a trimmed lowercase string names, if it names one.
pub fn match_strict_patterns(s: &str) -> (r: Option<ViewPosition>)
    ensures
        r == strict_match(s@),
{
    let c = chars_of(s);
    if is_lit(&c, "cranio-caudal") || is_lit(&c, "caudal-cranial") || is_lit(&c, "cc") {
        return Some(ViewPosition::Cc);
    }
    if chars_name_lmo(&c) {
        return Some(ViewPosition::Lmo);
    }
    if chars_name_mlo(&c) {
        return Some(ViewPosition::Mlo);
    }
    if is_lit(&c, "latero-medial") || is_lit(&c, "lateral-medial") || is_lit(&c, "lm") {
        return Some(ViewPosition::Lm);
    }
    if is_lit(&c, "medio-lateral") || is_lit(&c, "medial-lateral") || is_lit(&c, "ml") {
        return Some(ViewPosition::Ml);
    }
    if has_lit(&c, "exaggerated laterally") || is_lit(&c, "xccl") {
        return Some(ViewPosition::Xccl);
    }
    if has_lit(&c, "exaggerated medially") || is_lit(&c, "xccm") {
        return Some(ViewPosition::Xccm);
    }
    if has_lit(&c, "axillary tail") || is_lit(&c, "at") {
        return Some(ViewPosition::At);
    }
    if has_lit(&c, "cleavage view") || has_lit(&c, "valley-view") || is_lit(&c, "cv") {
        return Some(ViewPosition::Cv);
    }
    None
}

/// The view whose abbreviation stands in a lowercase string as a whole
/// word, if there is one.
pub fn match_loose_patterns(s: &str) -> (r: Option<ViewPosition>)
    ensures
        r == word_match(s@),
{
    let c = chars_of(s);
    if has_word_lit(&c, "xccl") {
        Some(ViewPosition::Xccl)
    } else if has_word_lit(&c, "xccm") {
        Some(ViewPosition::Xccm)
    } else if has_word_lit(&c, "mlo") {
        Some(ViewPosition::Mlo)
    } else if has_word_lit(&c, "lmo") {
        Some(ViewPosition::Lmo)
    } else if has_word_lit(&c, "cc") {
        Some(ViewPosition::Cc)
    } else if has_word_lit(&c, "ml") {
        Some(ViewPosition::Ml)
    } else if has_word_lit(&c, "lm") {
        Some(ViewPosition::Lm)
    } else if has_word_lit(&c, "at") {
        Some(ViewPosition::At)
    } else if has_word_lit(&c, "cv") {
        Some(ViewPosition::Cv)
    } else {
        None
    }
}

/// The view that a trimmed lowercase string stands for.
pub fn view_from_lowercase(s: &str, strict: bool) -> (r: ViewPosition)
    ensures
        r == view_of_lower(s@, strict),
{
    if let Some(pos) = match_strict_patterns(s) {
        return pos;
    }
    if !strict {
        if let Some(pos) = match_loose_patterns(s) {
            return pos;
        }
    }
    ViewPosition::Unknown
}

/// The view that a string stands for. Case and surrounding whitespace do
/// not matter. In strict mode only names count; in loose mode an
/// abbreviation that stands in the string as a whole word counts too.
pub fn from_str(s: &str, strict: bool) -> (r: ViewPosition)
    ensures
        r == view_of(s@, strict),
{
    let lower = to_lowercase(trim(s));
    view_from_lowercase(lower.as_str(), strict)
}

/// The highest view that a list of code meanings names.
pub fn highest_view(meanings: &Vec<String>) -> (r: ViewPosition)
    ensures
        r == highest_named(views(meanings@)),
{
    let mut best = ViewPosition::Unknown;
    let mut k: usize = 0;
    assert(views(meanings@).take(0) =~= Seq::<Seq<char>>::empty());
    while k < meanings.len()
        invariant
            k <= meanings.len(),
            best == highest_named(views(meanings@).take(k as int)),
        decreases meanings.len() - k,
    {
        assert(views(meanings@).take(k + 1).drop_last() =~= views(meanings@).take(k as int));
        assert(views(meanings@).take(k + 1).last() == meanings@[k as int]@);
        best = best.max_with(from_str(meanings[k].as_str(), true));
        k += 1;
    }
    assert(views(meanings@).take(k as int) =~= views(meanings@));
    best
}

/// The view that the sources resolve to: the highest, by rank, of all the
/// views that they give.
pub fn resolve_view_position(
    primary: &Option<String>,
    view_codes: &Vec<String>,
    modifier_codes: &Vec<String>,
) -> (r: ViewPosition)
    ensures
        r == resolved_view(opt_view(*primary), views(view_codes@), views(modifier_codes@)),
{
    let first = match primary {
        Some(t) => from_str(t.as_str(), false),
        None => ViewPosition::Unknown,
    };
    first.max_with(highest_view(view_codes)).max_with(highest_view(modifier_codes))
}

/// The highest view that the view code sequence of an object names, if it
/// names one.
pub fn extract_from_view_code_sequence(dcm: &InMemDicomObject) -> (r: Option<ViewPosition>)
    ensures
        r == if highest_named(sequence_meanings(*dcm, VIEW_CODE_SEQUENCE))
            == ViewPosition::Unknown {
            None
        } else {
            Some(highest_named(sequence_meanings(*dcm, VIEW_CODE_SEQUENCE)))
        },
{
    let meanings = get_code_meanings(dcm, VIEW_CODE_SEQUENCE);
    let best = highest_view(&meanings);
    if best.is_unknown() {
        None
    } else {
        Some(best)
    }
}

/// All view modifier code meanings of an object: those at its top level,
/// then those nested in the items of its view code sequence.
pub fn extract_all_modifier_meanings(dcm: &InMemDicomObject) -> (r: Vec<String>)
    ensures
        views(r@) == all_modifier_meanings(*dcm),
{
    let mut out = get_code_meanings(dcm, VIEW_MODIFIER_CODE_SEQUENCE);
    if let Some(items) = get_sequence_items(dcm, VIEW_CODE_SEQUENCE) {
        let ghost top = views(out@);
        let mut k: usize = 0;
        assert(items@.take(0) =~= Seq::<InMemDicomObject>::empty());
        assert(top + nested_modifier_meanings(items@.take(0)) =~= top);
        while k < items.len()
            invariant
                k <= items.len(),
                views(out@) == top + nested_modifier_meanings(items@.take(k as int)),
            decreases items.len() - k,
        {
            assert(items@.take(k + 1).drop_last() =~= items@.take(k as int));
            assert(items@.take(k + 1).last() == items@[k as int]);
            let nested = get_code_meanings(&items[k], VIEW_MODIFIER_CODE_SEQUENCE);
            let ghost before = views(out@);
            let mut j: usize = 0;
            assert(nested@.take(0) =~= Seq::<String>::empty());
            assert(before + views(nested@.take(0)) =~= before);
            while j < nested.len()
                invariant
                    j <= nested.len(),
                    views(out@) == before + views(nested@.take(j as int)),
                decreases nested.len() - j,
            {
                let ghost prior = views(out@);
                out.push(nested[j].clone());
                assert(views(out@) =~= prior.push(nested@[j as int]@));
                assert(views(nested@.take(j + 1)) =~= views(nested@.take(j as int)).push(
                    nested@[j as int]@,
                ));
                assert(before + views(nested@.take(j + 1)) =~= (before + views(
                    nested@.take(j as int),
                )).push(nested@[j as int]@));
                j += 1;
            }
            assert(nested@.take(j as int) =~= nested@);
            assert(top + (nested_modifier_meanings(items@.take(k as int)) + views(nested@)) =~= (top
                + nested_modifier_meanings(items@.take(k as int))) + views(nested@));
            k += 1;
        }
        assert(items@.take(k as int) =~= items@);
    } else {
        assert(views(out@) + Seq::<Seq<char>>::empty() =~= views(out@));
    }
    out
}

/// The view that an object shows. This never fails: an object that names
/// no view has the view `Unknown`.
pub fn extract_view_position(dcm: &InMemDicomObject) -> (r: Result<ViewPosition, MammocatError>)
    ensures
        r matches Ok(v) && v == view_in(*dcm),
{
    let primary = get_string_value(dcm, VIEW_POSITION);
    let view_codes = get_code_meanings(dcm, VIEW_CODE_SEQUENCE);
    let modifier_codes = extract_all_modifier_meanings(dcm);
    Ok(resolve_view_position(&primary, &view_codes, &modifier_codes))
}

/// Loose mode extends strict mode: where strict mode knows the view, loose
/// mode gives the same view. Where no name matches, strict mode gives
/// `Unknown`, and loose mode gives the view of an abbreviation that stands
/// in the string as a whole word, if there is one.
pub proof fn lemma_loose_extends_strict(s: Seq<char>)
    ensures
        view_of_lower(s, true) != ViewPosition::Unknown ==> view_of_lower(s, false)
            == view_of_lower(s, true),
        strict_match(s) is None ==> view_of_lower(s, true) == ViewPosition::Unknown,
        strict_match(s) is None && word_match(s) is Some ==> view_of_lower(s, false)
            == word_match(s)->0,
{
}

/// LMO is tried before MLO and LM before ML: a string that names the
/// latero-medial oblique view resolves to it even where it also names the
/// medio-lateral oblique view, and likewise for the latero-medial and the
/// medio-lateral view.
pub proof fn lemma_latero_medial_first(s: Seq<char>)
    requires
        !names_cc(s),
    ensures
        names_lmo(s) ==> strict_match(s) == Some(ViewPosition::Lmo),
        !names_lmo(s) && names_mlo(s) ==> strict_match(s) == Some(ViewPosition::Mlo),
        !names_lmo(s) && !names_mlo(s) && names_lm(s) ==> strict_match(s) == Some(
            ViewPosition::Lm,
        ),
        !names_lmo(s) && !names_mlo(s) && !names_lm(s) && names_ml(s) ==> strict_match(s)
            == Some(ViewPosition::Ml),
{
}

/// The highest view that a list names is at least as high as the view of
/// each entry, and it is the view of one of the entries unless it is
/// `Unknown`.
pub proof fn lemma_highest_named(meanings: Seq<Seq<char>>)
    ensures
        forall|i: int|
            0 <= i < meanings.len() ==> highest_named(meanings).rank() >= (#[trigger] view_of(
                meanings[i],
                true,
            )).rank(),
        highest_named(meanings) == ViewPosition::Unknown || exists|i: int|
            0 <= i < meanings.len() && highest_named(meanings) == #[trigger] view_of(
                meanings[i],
                true,
            ),
    decreases meanings.len(),
{
    if meanings.len() > 0 {
        let head = meanings.drop_last();
        lemma_highest_named(head);
        let last = view_of(meanings.last(), true);
        assert forall|i: int| 0 <= i < meanings.len() implies highest_named(meanings).rank() >= (
        #[trigger] view_of(meanings[i], true)).rank() by {
            if i < head.len() {
                assert(head[i] == meanings[i]);
            }
        }
        if highest_named(meanings) != ViewPosition::Unknown {
            if highest_named(meanings) == last {
                assert(view_of(meanings[meanings.len() - 1], true) == last);
            } else {
                let i = choose|i: int|
                    0 <= i < head.len() && highest_named(head) == #[trigger] view_of(
                        head[i],
                        true,
                    );
                assert(head[i] == meanings[i]);
            }
        }
    }
}

/// Resolution picks the maximum: the resolved view is at least as high, by
/// rank, as the view that each source gives, and it is the view of one of
/// the sources unless it is `Unknown`.
pub proof fn lemma_resolved_view_is_highest(
    primary: Option<Seq<char>>,
    view_codes: Seq<Seq<char>>,
    modifier_codes: Seq<Seq<char>>,
)
    ensures
        resolved_view(primary, view_codes, modifier_codes).rank() >= primary_view(primary).rank(),
        forall|i: int|
            0 <= i < view_codes.len() ==> resolved_view(
                primary,
                view_codes,
                modifier_codes,
            ).rank() >= (#[trigger] view_of(view_codes[i], true)).rank(),
        forall|i: int|
            0 <= i < modifier_codes.len() ==> resolved_view(
                primary,
                view_codes,
                modifier_codes,
            ).rank() >= (#[trigger] view_of(modifier_codes[i], true)).rank(),
        ({
            let r = resolved_view(primary, view_codes, modifier_codes);
            ||| r == ViewPosition::Unknown
            ||| r == primary_view(primary)
            ||| exists|i: int|
                0 <= i < view_codes.len() && r == #[trigger] view_of(view_codes[i], true)
            ||| exists|i: int|
                0 <= i < modifier_codes.len() && r == #[trigger] view_of(modifier_codes[i], true)
        }),
{
    lemma_highest_named(view_codes);
    lemma_highest_named(modifier_codes);
}

/// A source that names a view of higher rank than every other source
/// decides the resolved view. So a primary value that stands for CC and a
/// modifier code that names the axillary tail resolve to the axillary tail.
pub proof fn lemma_higher_modifier_code_wins(
    primary: Option<Seq<char>>,
    view_codes: Seq<Seq<char>>,
    modifier_codes: Seq<Seq<char>>,
    at: int,
)
    requires
        0 <= at < modifier_codes.len(),
        primary_view(primary).rank() <= view_of(modifier_codes[at], true).rank(),
        forall|i: int|
            0 <= i < view_codes.len() ==> (#[trigger] view_of(view_codes[i], true)).rank()
                <= view_of(modifier_codes[at], true).rank(),
        forall|i: int|
            0 <= i < modifier_codes.len() ==> (#[trigger] view_of(
                modifier_codes[i],
                true,
            )).rank() <= view_of(modifier_codes[at], true).rank(),
    ensures
        resolved_view(primary, view_codes, modifier_codes) == view_of(modifier_codes[at], true),
{
    lemma_resolved_view_is_highest(primary, view_codes, modifier_codes);
    let r = resolved_view(primary, view_codes, modifier_codes);
    let top = view_of(modifier_codes[at], true);
    assert(r.rank() >= top.rank());
    ViewPosition::lemma_rank_and_groups(r, top);
    ViewPosition::lemma_rank_and_groups(top, r);
}

/// `latero-medial oblique` names the latero-medial oblique view, not the
/// medio-lateral oblique one, and `latero-medial` names the latero-medial
/// view, not the medio-lateral one.
pub proof fn lemma_latero_medial_examples()
    ensures
        strict_match("latero-medial oblique"@) == Some(ViewPosition::Lmo),
        strict_match("latero-medial"@) == Some(ViewPosition::Lm),
{
    reveal_strlit("latero-medial oblique");
    reveal_strlit("latero-medial");
    reveal_strlit("cranio-caudal");
    reveal_strlit("caudal-cranial");
    reveal_strlit("cc");
    reveal_strlit("lmo");
    reveal_strlit("lateral-medial oblique");
    reveal_strlit("mlo");
    reveal_strlit("medio-lateral oblique");
    reveal_strlit("medial-lateral oblique");
    reveal_strlit("oblique");
    let long = "latero-medial oblique"@;
    let short = "latero-medial"@;
    assert(long[0] != "cranio-caudal"@[0]);
    assert(long.len() != "caudal-cranial"@.len());
    assert(!names_cc(long));
    assert(short[0] != "cranio-caudal"@[0]);
    assert(!names_cc(short));
    assert forall|at: int| !occurs_at(short, "oblique"@, at) by {
        if occurs_at(short, "oblique"@, at) {
            let found = short.subrange(at, at + 7);
            assert(found[1] == 'b');
            assert(short[at + 1] == 'b');
        }
    }
    assert(!has_substring(short, "oblique"@));
    assert(short.len() == 13);
    assert("lmo"@.len() == 3 && "mlo"@.len() == 3);
    assert("latero-medial oblique"@.len() == 21 && "lateral-medial oblique"@.len() == 22);
    assert("medio-lateral oblique"@.len() == 21 && "medial-lateral oblique"@.len() == 22);
    assert(!names_lmo(short));
    assert(!names_mlo(short));
    assert(names_lm(short));
}

/// Strict mode does not know `some cc view`: the abbreviation stands in
/// it, but the string is no name. Loose mode reads it as the cranio-caudal
/// view, given that the space is no alphanumeric character.
pub proof fn lemma_embedded_abbreviation_example()
    ensures
        view_of_lower("some cc view"@, true) == ViewPosition::Unknown,
        !alphanumeric(' ') ==> view_of_lower("some cc view"@, false) == ViewPosition::Cc,
{
    let s = "some cc view"@;
    reveal_strlit("some cc view");
    reveal_strlit("cranio-caudal");
    reveal_strlit("caudal-cranial");
    reveal_strlit("cc");
    reveal_strlit("lmo");
    reveal_strlit("latero-medial oblique");
    reveal_strlit("lateral-medial oblique");
    reveal_strlit("mlo");
    reveal_strlit("medio-lateral oblique");
    reveal_strlit("medial-lateral oblique");
    reveal_strlit("latero-medial");
    reveal_strlit("lateral-medial");
    reveal_strlit("lm");
    reveal_strlit("medio-lateral");
    reveal_strlit("medial-lateral");
    reveal_strlit("ml");
    reveal_strlit("xccl");
    reveal_strlit("xccm");
    reveal_strlit("at");
    reveal_strlit("cv");
    reveal_strlit("oblique");
    reveal_strlit("exaggerated laterally");
    reveal_strlit("exaggerated medially");
    reveal_strlit("axillary tail");
    reveal_strlit("cleavage view");
    reveal_strlit("valley-view");
    assert(s.len() == 12);
    assert forall|at: int| !occurs_at(s, "oblique"@, at) by {
        if occurs_at(s, "oblique"@, at) {
            assert(s.subrange(at, at + 7)[1] == 'b');
            assert(s[at + 1] == 'b');
        }
    }
    assert forall|at: int| !occurs_at(s, "valley-view"@, at) by {
        if occurs_at(s, "valley-view"@, at) {
            assert(s.subrange(at, at + 11)[1] == 'a');
            assert(s[at + 1] == 'a');
        }
    }
    assert(!names_cc(s));
    assert(!names_lmo(s));
    assert(!names_mlo(s));
    assert(!names_lm(s));
    assert(!names_ml(s));
    assert(!names_xccl(s));
    assert(!names_xccm(s));
    assert(!names_at(s));
    assert(!names_cv(s));
    assert(strict_match(s) is None);
    assert forall|at: int| !word_at(s, "xccl"@, at) by {
        if occurs_at(s, "xccl"@, at) {
            assert(s.subrange(at, at + 4)[0] == 'x');
            assert(s[at] == 'x');
        }
    }
    assert forall|at: int| !word_at(s, "xccm"@, at) by {
        if occurs_at(s, "xccm"@, at) {
            assert(s.subrange(at, at + 4)[0] == 'x');
            assert(s[at] == 'x');
        }
    }
    assert forall|at: int| !word_at(s, "mlo"@, at) by {
        if occurs_at(s, "mlo"@, at) {
            assert(s.subrange(at, at + 3)[1] == 'l');
            assert(s[at + 1] == 'l');
        }
    }
    assert forall|at: int| !word_at(s, "lmo"@, at) by {
        if occurs_at(s, "lmo"@, at) {
            assert(s.subrange(at, at + 3)[0] == 'l');
            assert(s[at] == 'l');
        }
    }
    if !alphanumeric(' ') {
        assert(s.subrange(5, 7) =~= "cc"@);
        assert(s[4] == ' ' && s[7] == ' ');
        assert(word_at(s, "cc"@, 5));
        assert(has_word(s, "cc"@));
        assert(word_match(s) == Some(ViewPosition::Cc));
    }
}

} // verus!
