use crate::error::MammocatError;
use crate::extraction::laterality::{extract_laterality, side_of};
use crate::extraction::mammo_type::{
    extract_image_type, extract_mammogram_type, image_type_in, modality_message,
    modality_rejected, type_in,
};
use crate::extraction::tags::{
    get_int_value, get_string_value, int_value, string_value, BREAST_IMPLANT_PRESENT,
    MANUFACTURER, MANUFACTURER_MODEL_NAME, MODALITY, NUMBER_OF_FRAMES, PADDLE_DESCRIPTION,
    PRESENTATION_INTENT_TYPE, SOP_CLASS_UID, VIEW_POSITION,
};
use crate::extraction::view_modifiers::{
    implant_displaced_rule, is_implant_displaced, is_magnified, is_spot_compression,
    lowercase_opt, magnification_rule, modifier_meanings, spot_rule,
};
use crate::extraction::view_position::{extract_view_position, view_in};
use crate::text::{equals, opt_view, to_lowercase, to_uppercase, uppercase};
use crate::types::image_type::clone_opt_string;
use crate::types::{
    ImageType, ImageTypeView, Laterality, MammogramType, MammogramView, ViewPosition,
};
use dicom_object::InMemDicomObject;
use vstd::prelude::*;

verus! {

/// What is known of one mammogram.
#[derive(Debug, PartialEq)]
pub struct MammogramMetadata {
    /// The imaging technique.
    pub mammogram_type: MammogramType,
    /// The side of the breast.
    pub laterality: Laterality,
    /// The projection.
    pub view_position: ViewPosition,
    /// The decomposed image type field.
    pub image_type: ImageType,
    /// Whether the image is meant for processing, not for presentation.
    pub is_for_processing: bool,
    /// Whether a breast implant is present.
    pub has_implant: bool,
    /// Whether this is a spot compression view.
    pub is_spot_compression: bool,
    /// Whether this is a magnification view.
    pub is_magnified: bool,
    /// Whether the implant was displaced for this view.
    pub is_implant_displaced: bool,
    /// The name of the manufacturer.
    pub manufacturer: Option<String>,
    /// The name of the manufacturer's model.
    pub model: Option<String>,
    /// The number of frames; at least one in metadata that was extracted.
    pub number_of_frames: i32,
    /// Whether the image is a secondary capture.
    pub is_secondary_capture: bool,
    /// The modality code.
    pub modality: Option<String>,
}

/// What a `MammogramMetadata` holds, with texts as sequences of characters.
pub ghost struct MetadataView {
    pub mammogram_type: MammogramType,
    pub laterality: Laterality,
    pub view_position: ViewPosition,
    pub image_type: ImageTypeView,
    pub is_for_processing: bool,
    pub has_implant: bool,
    pub is_spot_compression: bool,
    pub is_magnified: bool,
    pub is_implant_displaced: bool,
    pub manufacturer: Option<Seq<char>>,
    pub model: Option<Seq<char>>,
    pub number_of_frames: int,
    pub is_secondary_capture: bool,
    pub modality: Option<Seq<char>>,
}

impl View for MammogramMetadata {
    type V = MetadataView;

    open spec fn view(&self) -> MetadataView {
        MetadataView {
            mammogram_type: self.mammogram_type,
            laterality: self.laterality,
            view_position: self.view_position,
            image_type: self.image_type@,
            is_for_processing: self.is_for_processing,
            has_implant: self.has_implant,
            is_spot_compression: self.is_spot_compression,
            is_magnified: self.is_magnified,
            is_implant_displaced: self.is_implant_displaced,
            manufacturer: opt_view(self.manufacturer),
            model: opt_view(self.model),
            number_of_frames: self.number_of_frames as int,
            is_secondary_capture: self.is_secondary_capture,
            modality: opt_view(self.modality),
        }
    }
}

impl MetadataView {
    /// Whether the metadata is consistent: it has at least one frame.
    pub open spec fn well_formed(self) -> bool {
        self.number_of_frames >= 1
    }

    /// The side and the projection of the image.
    pub open spec fn mammogram_view(self) -> MammogramView {
        MammogramView { laterality: self.laterality, view: self.view_position }
    }
}

impl Clone for MammogramMetadata {
    fn clone(&self) -> (r: Self)
        ensures
            r@ == self@,
    {
        MammogramMetadata {
            mammogram_type: self.mammogram_type,
            laterality: self.laterality,
            view_position: self.view_position,
            image_type: self.image_type.clone(),
            is_for_processing: self.is_for_processing,
            has_implant: self.has_implant,
            is_spot_compression: self.is_spot_compression,
            is_magnified: self.is_magnified,
            is_implant_displaced: self.is_implant_displaced,
            manufacturer: clone_opt_string(&self.manufacturer),
            model: clone_opt_string(&self.model),
            number_of_frames: self.number_of_frames,
            is_secondary_capture: self.is_secondary_capture,
            modality: clone_opt_string(&self.modality),
        }
    }
}

impl MammogramMetadata {
    /// The side and the projection of the image.
    pub fn mammogram_view(&self) -> (r: MammogramView)
        ensures
            r == self@.mammogram_view(),
    {
        MammogramView::new(self.laterality, self.view_position)
    }

    /// Whether the projection is CC or MLO.
    pub fn is_standard_view(&self) -> (r: bool)
        ensures
            r == self.view_position.standard(),
    {
        self.view_position.is_standard_view()
    }

    /// Whether the image is a 2D image, that is, not tomosynthesis.
    pub fn is_2d(&self) -> (r: bool)
        ensures
            r == (self.mammogram_type != MammogramType::Tomo),
    {
        !matches!(self.mammogram_type, MammogramType::Tomo)
    }
}

/// The SOP class of secondary capture image storage.
pub open spec fn secondary_capture_class() -> Seq<char> {
    "1.2.840.10008.5.1.4.1.1.7"@
}

/// Whether a presentation intent, in lowercase, is "for processing".
pub open spec fn for_processing_rule(intent_lower: Option<Seq<char>>) -> bool {
    intent_lower == Some("for processing"@)
}

/// Whether an implant indicator, in uppercase, is "YES".
pub open spec fn implant_rule(indicator_upper: Option<Seq<char>>) -> bool {
    indicator_upper == Some("YES"@)
}

/// Whether a SOP class is that of secondary capture image storage.
pub open spec fn secondary_capture_rule(sop_class: Option<Seq<char>>) -> bool {
    sop_class == Some(secondary_capture_class())
}

/// The text of an optional field in uppercase.
pub open spec fn uppercase_opt(o: Option<Seq<char>>) -> Option<Seq<char>> {
    match o {
        Some(t) => Some(uppercase(t)),
        None => None,
    }
}

/// The number of frames that metadata records for a count read from an
/// object: the count itself, but one where it is absent or below one.
pub open spec fn recorded_frames(count: Option<i32>) -> int {
    match count {
        Some(n) => if n >= 1 {
            n as int
        } else {
            1
        },
        None => 1,
    }
}

/// Whether an optional text is present and equal to `lit`.
fn opt_equals(o: &Option<String>, lit: &str) -> (r: bool)
    ensures
        r == (opt_view(*o) == Some(lit@)),
{
    match o {
        Some(t) => equals(t.as_str(), lit),
        None => false,
    }
}

/// Whether a presentation intent, given in lowercase, is "for processing".
pub fn intent_is_for_processing(intent_lower: &Option<String>) -> (r: bool)
    ensures
        r == for_processing_rule(opt_view(*intent_lower)),
{
    opt_equals(intent_lower, "for processing")
}

/// Whether an implant indicator, given in uppercase, is "YES".
pub fn indicator_is_yes(indicator_upper: &Option<String>) -> (r: bool)
    ensures
        r == implant_rule(opt_view(*indicator_upper)),
{
    opt_equals(indicator_upper, "YES")
}

/// Whether a SOP class is that of secondary capture image storage.
pub fn class_is_secondary_capture(sop_class: &Option<String>) -> (r: bool)
    ensures
        r == secondary_capture_rule(opt_view(*sop_class)),
{
    opt_equals(sop_class, "1.2.840.10008.5.1.4.1.1.7")
}

/// The number of frames that metadata records for a count read from an
/// object.
pub fn frames_to_record(count: Option<i32>) -> (r: i32)
    ensures
        r == recorded_frames(count),
        r >= 1,
{
    match count {
        Some(n) => if n >= 1 {
            n
        } else {
            1
        },
        None => 1,
    }
}

/// The metadata of an object whose modality is accepted.
pub open spec fn metadata_in(dcm: InMemDicomObject, is_sfm: bool) -> MetadataView {
    MetadataView {
        mammogram_type: type_in(dcm, is_sfm),
        laterality: side_of(dcm),
        view_position: view_in(dcm),
        image_type: image_type_in(dcm),
        is_for_processing: for_processing_rule(
            lowercase_opt(string_value(dcm, PRESENTATION_INTENT_TYPE)),
        ),
        has_implant: implant_rule(uppercase_opt(string_value(dcm, BREAST_IMPLANT_PRESENT))),
        is_spot_compression: spot_rule(
            string_value(dcm, PADDLE_DESCRIPTION),
            lowercase_opt(string_value(dcm, VIEW_POSITION)),
            modifier_meanings(dcm),
        ),
        is_magnified: magnification_rule(
            string_value(dcm, PADDLE_DESCRIPTION),
            modifier_meanings(dcm),
        ),
        is_implant_displaced: implant_displaced_rule(modifier_meanings(dcm)),
        manufacturer: string_value(dcm, MANUFACTURER),
        model: string_value(dcm, MANUFACTURER_MODEL_NAME),
        number_of_frames: recorded_frames(int_value(dcm, NUMBER_OF_FRAMES)),
        is_secondary_capture: secondary_capture_rule(string_value(dcm, SOP_CLASS_UID)),
        modality: string_value(dcm, MODALITY),
    }
}

/// Extracts the metadata of a mammogram from a DICOM object.
pub struct MammogramExtractor;

impl MammogramExtractor {
    /// The metadata of an object.
    ///
    /// Fails with an extraction error where the object states a modality
    /// other than `MG`, and only then.
    pub fn extract(dcm: &InMemDicomObject) -> (r: Result<MammogramMetadata, MammocatError>)
        ensures
            modality_rejected(string_value(*dcm, MODALITY), false) ==> (r matches Err(
                MammocatError::ExtractionError(m),
            ) && m@ == modality_message(string_value(*dcm, MODALITY)->0)),
            !modality_rejected(string_value(*dcm, MODALITY), false) ==> (r matches Ok(d) && d@
                == metadata_in(*dcm, false) && d@.well_formed()),
    {
        Self::extract_with_options(dcm, false)
    }

    /// The metadata of an object, where `is_sfm` says that the image is a
    /// film image.
    ///
    /// Fails with an extraction error where the object states a modality
    /// other than `MG`, and only then.
    pub fn extract_with_options(dcm: &InMemDicomObject, is_sfm: bool) -> (r: Result<
        MammogramMetadata,
        MammocatError,
    >)
        ensures
            modality_rejected(string_value(*dcm, MODALITY), false) ==> (r matches Err(
                MammocatError::ExtractionError(m),
            ) && m@ == modality_message(string_value(*dcm, MODALITY)->0)),
            !modality_rejected(string_value(*dcm, MODALITY), false) ==> (r matches Ok(d) && d@
                == metadata_in(*dcm, is_sfm) && d@.well_formed()),
    {
        let mammogram_type = match extract_mammogram_type(dcm, is_sfm) {
            Ok(t) => t,
            Err(e) => {
                return Err(e);
            },
        };
        let laterality = match extract_laterality(dcm) {
            Ok(side) => side,
            Err(e) => {
                return Err(e);
            },
        };
        let view_position = match extract_view_position(dcm) {
            Ok(v) => v,
            Err(e) => {
                return Err(e);
            },
        };
        Ok(
            MammogramMetadata {
                mammogram_type,
                laterality,
                view_position,
                image_type: extract_image_type(dcm),
                is_for_processing: Self::extract_for_processing(dcm),
                has_implant: Self::extract_implant_status(dcm),
                is_spot_compression: is_spot_compression(dcm),
                is_magnified: is_magnified(dcm),
                is_implant_displaced: is_implant_displaced(dcm),
                manufacturer: get_string_value(dcm, MANUFACTURER),
                model: get_string_value(dcm, MANUFACTURER_MODEL_NAME),
                number_of_frames: frames_to_record(get_int_value(dcm, NUMBER_OF_FRAMES)),
                is_secondary_capture: Self::extract_secondary_capture(dcm),
                modality: get_string_value(dcm, MODALITY),
            },
        )
    }

    /// Whether the presentation intent of an object is "for processing",
    /// in any case.
    pub fn extract_for_processing(dcm: &InMemDicomObject) -> (r: bool)
        ensures
            r == for_processing_rule(lowercase_opt(string_value(*dcm, PRESENTATION_INTENT_TYPE))),
    {
        let intent = match get_string_value(dcm, PRESENTATION_INTENT_TYPE) {
            Some(t) => Some(to_lowercase(t.as_str())),
            None => None,
        };
        intent_is_for_processing(&intent)
    }

    /// Whether an object says that a breast implant is present: its
    /// indicator is "YES", in any case.
    pub fn extract_implant_status(dcm: &InMemDicomObject) -> (r: bool)
        ensures
            r == implant_rule(uppercase_opt(string_value(*dcm, BREAST_IMPLANT_PRESENT))),
    {
        let indicator = match get_string_value(dcm, BREAST_IMPLANT_PRESENT) {
            Some(t) => Some(to_uppercase(t.as_str())),
            None => None,
        };
        indicator_is_yes(&indicator)
    }

    /// Whether an object is a secondary capture: its SOP class is that of
    /// secondary capture image storage.
    pub fn extract_secondary_capture(dcm: &InMemDicomObject) -> (r: bool)
        ensures
            r == secondary_capture_rule(string_value(*dcm, SOP_CLASS_UID)),
    {
        let sop_class = get_string_value(dcm, SOP_CLASS_UID);
        class_is_secondary_capture(&sop_class)
    }
}

} // verus!
