use super::tags::{
    get_int_value, get_multi_string_value, get_string_value, int_value, multi_string_value,
    string_value, IMAGE_TYPE, MANUFACTURER_MODEL_NAME, MODALITY, NUMBER_OF_FRAMES,
    SERIES_DESCRIPTION,
};
use crate::error::MammocatError;
use crate::text::{
    any_contains, any_has, contains, equals, has_substring, lowercase, lowercase_each,
    occurs_at, opt_view, opt_views, to_lowercase, views,
};
use crate::types::{ImageType, ImageTypeView, MammogramType};
use dicom_object::InMemDicomObject;
use vstd::prelude::*;

verus! {

/// The image type that a list of values decomposes into: the first value is
/// the pixel derivation, the second the examination role, the third the
/// flavor, the rest the extras. Missing leading values are empty.
pub open spec fn image_type_of(values: Option<Seq<Seq<char>>>) -> ImageTypeView {
    match values {
        None => ImageTypeView {
            pixels: Seq::empty(),
            exam: Seq::empty(),
            flavor: None,
            extras: None,
        },
        Some(v) => ImageTypeView {
            pixels: if v.len() > 0 {
                v[0]
            } else {
                Seq::empty()
            },
            exam: if v.len() > 1 {
                v[1]
            } else {
                Seq::empty()
            },
            flavor: if v.len() > 2 {
                Some(v[2])
            } else {
                None
            },
            extras: if v.len() > 3 {
                Some(v.skip(3))
            } else {
                None
            },
        },
    }
}

/// Whether a lowercase series description marks a synthetic view.
pub open spec fn marks_synthetic_series(series: Seq<char>) -> bool {
    series.len() > 0 && (has_substring(series, "s-view"@) || has_substring(series, "c-view"@))
}

/// The legacy machine rule: a derived primary image of the model
/// `fdr-3000aws` is synthetic unless it is a post-contrast image.
pub open spec fn legacy_machine_rule(
    pixels: Seq<char>,
    exam: Seq<char>,
    flavor: Seq<char>,
    machine: Seq<char>,
) -> bool {
    pixels == "derived"@ && exam == "primary"@ && machine == "fdr-3000aws"@ && flavor
        != "post_contrast"@
}

/// The type of a single-frame image with a usable image type, decided by
/// markers in fields that are already in lowercase. The rules apply in this
/// order, and the first that matches decides:
/// the film flag gives film; a synthetic marker in the series description
/// gives synthetic; `original` in the pixel derivation gives FFDM;
/// `tomo_2d` in the flavor or `generated_2d` in an extra gives synthetic;
/// the legacy machine rule gives synthetic; all else is FFDM.
pub open spec fn type_by_markers(
    pixels: Seq<char>,
    exam: Seq<char>,
    flavor: Seq<char>,
    extras: Seq<Seq<char>>,
    machine: Seq<char>,
    series: Seq<char>,
    is_sfm: bool,
) -> MammogramType {
    if is_sfm {
        MammogramType::Sfm
    } else if marks_synthetic_series(series) {
        MammogramType::Synth
    } else if has_substring(pixels, "original"@) {
        MammogramType::Ffdm
    } else if has_substring(flavor, "tomo_2d"@) {
        MammogramType::Synth
    } else if any_has(extras, "generated_2d"@) {
        MammogramType::Synth
    } else if legacy_machine_rule(pixels, exam, flavor, machine) {
        MammogramType::Synth
    } else {
        MammogramType::Ffdm
    }
}

/// The text of an optional field; an absent field counts as empty.
pub open spec fn text_or_empty(o: Option<Seq<char>>) -> Seq<char> {
    match o {
        Some(t) => t,
        None => Seq::empty(),
    }
}

/// The extras of an image type; absent extras count as none.
pub open spec fn extras_or_none(o: Option<Seq<Seq<char>>>) -> Seq<Seq<char>> {
    match o {
        Some(e) => e,
        None => Seq::empty(),
    }
}

/// Whether the modality stops the classification: it does when it is
/// checked, present and not `MG`.
pub open spec fn modality_rejected(modality: Option<Seq<char>>, ignore_modality: bool) -> bool {
    !ignore_modality && modality is Some && modality->0 != "MG"@
}

/// The type of an image whose modality is accepted. More than one frame
/// means tomosynthesis. An image type without pixel derivation or
/// examination role is not enough to go by, and the image then counts as
/// FFDM. Otherwise the markers decide, compared in lowercase.
pub open spec fn type_of(
    frames: int,
    image_type: ImageTypeView,
    machine: Option<Seq<char>>,
    series: Option<Seq<char>>,
    is_sfm: bool,
) -> MammogramType {
    if frames > 1 {
        MammogramType::Tomo
    } else if !image_type.valid() {
        MammogramType::Ffdm
    } else {
        type_by_markers(
            lowercase(image_type.pixels),
            lowercase(image_type.exam),
            lowercase(text_or_empty(image_type.flavor)),
            extras_or_none(image_type.extras).map_values(|e: Seq<char>| lowercase(e)),
            lowercase(text_or_empty(machine)),
            lowercase(text_or_empty(series)),
            is_sfm,
        )
    }
}

/// The message of the error for a modality other than `MG`.
pub open spec fn modality_message(modality: Seq<char>) -> Seq<char> {
    "Expected modality=MG, found "@ + modality
}

/// The number of frames of an object; one where the object does not say.
pub open spec fn frames_of(dcm: InMemDicomObject) -> int {
    match int_value(dcm, NUMBER_OF_FRAMES) {
        Some(n) => n as int,
        None => 1,
    }
}

/// The image type of an object.
pub open spec fn image_type_in(dcm: InMemDicomObject) -> ImageTypeView {
    image_type_of(multi_string_value(dcm, IMAGE_TYPE))
}

/// The type of an object whose modality is accepted.
pub open spec fn type_in(dcm: InMemDicomObject, is_sfm: bool) -> MammogramType {
    type_of(
        frames_of(dcm),
        image_type_in(dcm),
        string_value(dcm, MANUFACTURER_MODEL_NAME),
        string_value(dcm, SERIES_DESCRIPTION),
        is_sfm,
    )
}

/// The type of a single-frame image with a usable image type, decided by
/// markers in fields that the caller has put in lowercase.
pub fn classify_by_markers(
    pixels: &str,
    exam: &str,
    flavor: &str,
    extras: &Vec<String>,
    machine: &str,
    series: &str,
    is_sfm: bool,
) -> (r: MammogramType)
    ensures
        r == type_by_markers(pixels@, exam@, flavor@, views(extras@), machine@, series@, is_sfm),
{
    if is_sfm {
        return MammogramType::Sfm;
    }
    if !series.is_empty() && (contains(series, "s-view") || contains(series, "c-view")) {
        return MammogramType::Synth;
    }
    if contains(pixels, "original") {
        return MammogramType::Ffdm;
    }
    if contains(flavor, "tomo_2d") {
        return MammogramType::Synth;
    }
    if any_contains(extras, "generated_2d") {
        return MammogramType::Synth;
    }
    if equals(pixels, "derived") && equals(exam, "primary") && equals(machine, "fdr-3000aws")
        && !equals(flavor, "post_contrast") {
        return MammogramType::Synth;
    }
    MammogramType::Ffdm
}

/// The text of an optional field in lowercase; an absent field is empty.
fn lowercase_or_empty(o: &Option<String>) -> (r: String)
    ensures
        r@ == lowercase(text_or_empty(opt_view(*o))),
{
    match o {
        Some(t) => to_lowercase(t.as_str()),
        None => {
            proof {
                reveal_strlit("");
                assert(""@ =~= Seq::<char>::empty());
            }
            to_lowercase("")
        },
    }
}

/// Classifies an image from the values of its metadata.
///
/// Fails with an extraction error where the modality is checked, present
/// and not `MG`. Otherwise the result is the type that the frame count, the
/// image type and the markers give.
pub fn classify_mammogram_type(
    modality: &Option<String>,
    frames: i32,
    image_type: &ImageType,
    machine: &Option<String>,
    series: &Option<String>,
    is_sfm: bool,
    ignore_modality: bool,
) -> (r: Result<MammogramType, MammocatError>)
    ensures
        modality_rejected(opt_view(*modality), ignore_modality) ==> (r matches Err(
            MammocatError::ExtractionError(m),
        ) && m@ == modality_message(modality->0@)),
        !modality_rejected(opt_view(*modality), ignore_modality) ==> (r matches Ok(t) && t
            == type_of(frames as int, image_type@, opt_view(*machine), opt_view(*series), is_sfm)),
{
    if !ignore_modality {
        if let Some(m) = modality {
            if !equals(m.as_str(), "MG") {
                let message = "Expected modality=MG, found ".to_owned().concat(m.as_str());
                return Err(MammocatError::ExtractionError(message));
            }
        }
    }
    if frames > 1 {
        return Ok(MammogramType::Tomo);
    }
    if !image_type.is_valid() {
        return Ok(MammogramType::Ffdm);
    }
    let pixels = to_lowercase(image_type.pixels.as_str());
    let exam = to_lowercase(image_type.exam.as_str());
    let flavor = lowercase_or_empty(&image_type.flavor);
    let extras = match &image_type.extras {
        Some(e) => lowercase_each(e),
        None => Vec::new(),
    };
    let machine_lower = lowercase_or_empty(machine);
    let series_lower = lowercase_or_empty(series);
    proof {
        assert(views(extras@) =~= extras_or_none(image_type@.extras).map_values(
            |e: Seq<char>| lowercase(e),
        ));
    }
    Ok(
        classify_by_markers(
            pixels.as_str(),
            exam.as_str(),
            flavor.as_str(),
            &extras,
            machine_lower.as_str(),
            series_lower.as_str(),
            is_sfm,
        ),
    )
}

/// The image type that a list of values decomposes into.
pub fn image_type_from_values(values: &Option<Vec<String>>) -> (r: ImageType)
    ensures
        r@ == image_type_of(opt_views(*values)),
{
    match values {
        None => ImageType::new(String::new(), String::new(), None, None),
        Some(v) => {
            let pixels = if v.len() > 0 {
                v[0].clone()
            } else {
                String::new()
            };
            let exam = if v.len() > 1 {
                v[1].clone()
            } else {
                String::new()
            };
            let flavor = if v.len() > 2 {
                Some(v[2].clone())
            } else {
                None
            };
            let extras = if v.len() > 3 {
                let mut rest: Vec<String> = Vec::new();
                let mut k: usize = 3;
                while k < v.len()
                    invariant
                        3 <= k <= v.len(),
                        rest.len() == k - 3,
                        forall|i: int| 0 <= i < rest.len() ==> rest@[i]@ == v@[i + 3]@,
                    decreases v.len() - k,
                {
                    rest.push(v[k].clone());
                    k += 1;
                }
                assert(views(rest@) =~= views(v@).skip(3));
                Some(rest)
            } else {
                None
            };
            ImageType::new(pixels, exam, flavor, extras)
        },
    }
}

/// The image type of an object. An object without the field has an image
/// type whose parts are all empty or absent.
pub fn extract_image_type(dcm: &InMemDicomObject) -> (r: ImageType)
    ensures
        r@ == image_type_in(*dcm),
{
    let values = get_multi_string_value(dcm, IMAGE_TYPE);
    image_type_from_values(&values)
}

/// Classifies an object, checking that its modality, where it states one,
/// is `MG`.
pub fn extract_mammogram_type(dcm: &InMemDicomObject, is_sfm: bool) -> (r: Result<
    MammogramType,
    MammocatError,
>)
    ensures
        modality_rejected(string_value(*dcm, MODALITY), false) ==> (r matches Err(
            MammocatError::ExtractionError(m),
        ) && m@ == modality_message(string_value(*dcm, MODALITY)->0)),
        !modality_rejected(string_value(*dcm, MODALITY), false) ==> (r matches Ok(t) && t
            == type_in(*dcm, is_sfm)),
{
    extract_mammogram_type_impl(dcm, is_sfm, false)
}

/// Classifies an object. With `ignore_modality` the modality is not looked
/// at; without it, a modality other than `MG` is an extraction error.
pub fn extract_mammogram_type_impl(
    dcm: &InMemDicomObject,
    is_sfm: bool,
    ignore_modality: bool,
) -> (r: Result<MammogramType, MammocatError>)
    ensures
        modality_rejected(string_value(*dcm, MODALITY), ignore_modality) ==> (r matches Err(
            MammocatError::ExtractionError(m),
        ) && m@ == modality_message(string_value(*dcm, MODALITY)->0)),
        !modality_rejected(string_value(*dcm, MODALITY), ignore_modality) ==> (r matches Ok(t)
            && t == type_in(*dcm, is_sfm)),
{
    let modality = get_string_value(dcm, MODALITY);
    let frames = match get_int_value(dcm, NUMBER_OF_FRAMES) {
        Some(n) => n,
        None => 1,
    };
    let image_type = extract_image_type(dcm);
    let machine = get_string_value(dcm, MANUFACTURER_MODEL_NAME);
    let series = get_string_value(dcm, SERIES_DESCRIPTION);
    classify_mammogram_type(
        &modality,
        frames,
        &image_type,
        &machine,
        &series,
        is_sfm,
        ignore_modality,
    )
}

/// An image of more than one frame is tomosynthesis, whatever its other
/// fields hold.
pub proof fn lemma_multi_frame_is_tomo(
    frames: int,
    image_type: ImageTypeView,
    machine: Option<Seq<char>>,
    series: Option<Seq<char>>,
    is_sfm: bool,
)
    requires
        frames > 1,
    ensures
        type_of(frames, image_type, machine, series, is_sfm) == MammogramType::Tomo,
{
}

/// The film flag makes a single-frame image with a usable image type a
/// film image, whatever markers its fields hold.
pub proof fn lemma_film_flag_wins(
    frames: int,
    image_type: ImageTypeView,
    machine: Option<Seq<char>>,
    series: Option<Seq<char>>,
)
    requires
        frames <= 1,
        image_type.valid(),
    ensures
        type_of(frames, image_type, machine, series, true) == MammogramType::Sfm,
{
}

/// Without the film flag and without a synthetic marker in the series
/// description, `original` in the pixel derivation gives FFDM, and, failing
/// that, `tomo_2d` in the flavor gives a synthetic view.
pub proof fn lemma_marker_precedence(
    pixels: Seq<char>,
    exam: Seq<char>,
    flavor: Seq<char>,
    extras: Seq<Seq<char>>,
    machine: Seq<char>,
    series: Seq<char>,
)
    requires
        !marks_synthetic_series(series),
    ensures
        has_substring(pixels, "original"@) ==> type_by_markers(
            pixels,
            exam,
            flavor,
            extras,
            machine,
            series,
            false,
        ) == MammogramType::Ffdm,
        !has_substring(pixels, "original"@) && has_substring(flavor, "tomo_2d"@)
            ==> type_by_markers(pixels, exam, flavor, extras, machine, series, false)
            == MammogramType::Synth,
{
}

/// A classification never gives `Unknown`, and gives tomosynthesis exactly
/// for the images of more than one frame.
pub proof fn lemma_type_is_known(
    frames: int,
    image_type: ImageTypeView,
    machine: Option<Seq<char>>,
    series: Option<Seq<char>>,
    is_sfm: bool,
)
    ensures
        type_of(frames, image_type, machine, series, is_sfm) != MammogramType::Unknown,
        type_of(frames, image_type, machine, series, is_sfm) == MammogramType::Tomo <==> frames
            > 1,
{
}

/// With nothing else to go by, an original primary image is FFDM, and a
/// derived primary image with the flavor `tomo_2d` is a synthetic view,
/// unless the film flag is set.
pub proof fn lemma_marker_examples()
    ensures
        type_by_markers(
            "original"@,
            "primary"@,
            Seq::empty(),
            Seq::empty(),
            Seq::empty(),
            Seq::empty(),
            false,
        ) == MammogramType::Ffdm,
        type_by_markers(
            "derived"@,
            "primary"@,
            "tomo_2d"@,
            Seq::empty(),
            Seq::empty(),
            Seq::empty(),
            false,
        ) == MammogramType::Synth,
        type_by_markers(
            "derived"@,
            "primary"@,
            "tomo_2d"@,
            Seq::empty(),
            Seq::empty(),
            Seq::empty(),
            true,
        ) == MammogramType::Sfm,
{
    reveal_strlit("original");
    reveal_strlit("derived");
    reveal_strlit("tomo_2d");
    let original = "original"@;
    let flavor = "tomo_2d"@;
    assert(original.subrange(0, 8) =~= original);
    assert(occurs_at(original, original, 0));
    assert(flavor.subrange(0, 7) =~= flavor);
    assert(occurs_at(flavor, flavor, 0));
    assert forall|at: int| !occurs_at("derived"@, original, at) by {}
}

} // verus!
