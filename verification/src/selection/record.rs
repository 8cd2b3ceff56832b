use crate::api::{metadata_in, MammogramExtractor, MammogramMetadata, MetadataView};
use crate::error::MammocatError;
use crate::extraction::mammo_type::{modality_message, modality_rejected};
use crate::extraction::tags::{
    get_string_value, get_u16_value, string_value, u16_value, COLUMNS, MODALITY, ROWS,
    SOP_INSTANCE_UID, STUDY_INSTANCE_UID,
};
use crate::extraction::view_modifiers::{is_implant_displaced, is_magnified, is_spot_compression};
use crate::text::{equals, less_than, lex_less, opt_view};
use crate::types::image_type::clone_opt_string;
use crate::types::PreferenceOrder;
use dicom_object::InMemDicomObject;
use std::cmp::Ordering;
use std::path::PathBuf;
use vstd::prelude::*;
use vstd::std_specs::cmp::{PartialEqSpecImpl, PartialOrdSpecImpl};

verus! {

/// A file path of the standard library. It is carried along and never
/// looked into.
#[verifier::external_type_specification]
#[verifier::external_body]
pub struct ExPathBuf(PathBuf);

/// `PathBuf::clone` gives a path equal to the one cloned.
pub assume_specification[ <PathBuf as Clone>::clone ](path: &PathBuf) -> (r: PathBuf)
    ensures
        r == *path,
;

/// One mammogram of a study: where it comes from, what is known of it, and
/// the fields that a selection compares.
#[derive(Debug)]
pub struct MammogramRecord {
    /// Where the image comes from.
    pub file_path: PathBuf,
    /// What is known of the image.
    pub metadata: MammogramMetadata,
    /// The identifier of the study.
    pub study_instance_uid: Option<String>,
    /// The identifier of the image.
    pub sop_instance_uid: Option<String>,
    /// The number of pixel rows.
    pub rows: Option<u16>,
    /// The number of pixel columns.
    pub columns: Option<u16>,
    /// Whether the implant was displaced for this view.
    pub is_implant_displaced: bool,
    /// Whether this is a spot compression view.
    pub is_spot_compression: bool,
    /// Whether this is a magnification view.
    pub is_magnified: bool,
}

/// What a `MammogramRecord` holds, with texts as sequences of characters.
pub ghost struct RecordView {
    pub file_path: PathBuf,
    pub metadata: MetadataView,
    pub study_instance_uid: Option<Seq<char>>,
    pub sop_instance_uid: Option<Seq<char>>,
    pub rows: Option<u16>,
    pub columns: Option<u16>,
    pub is_implant_displaced: bool,
    pub is_spot_compression: bool,
    pub is_magnified: bool,
}

impl View for MammogramRecord {
    type V = RecordView;

    open spec fn view(&self) -> RecordView {
        RecordView {
            file_path: self.file_path,
            metadata: self.metadata@,
            study_instance_uid: opt_view(self.study_instance_uid),
            sop_instance_uid: opt_view(self.sop_instance_uid),
            rows: self.rows,
            columns: self.columns,
            is_implant_displaced: self.is_implant_displaced,
            is_spot_compression: self.is_spot_compression,
            is_magnified: self.is_magnified,
        }
    }
}

impl RecordView {
    /// The number of pixels of the image where both dimensions are known.
    pub open spec fn image_area(self) -> Option<int> {
        match (self.rows, self.columns) {
            (Some(r), Some(c)) => Some(r * c),
            _ => None,
        }
    }

    /// The number of pixels of the image; zero where a dimension is
    /// missing.
    pub open spec fn area(self) -> int {
        match self.image_area() {
            Some(a) => a,
            None => 0,
        }
    }

    /// Whether the view is CC or MLO.
    pub open spec fn standard(self) -> bool {
        self.metadata.view_position.standard()
    }

    /// Whether the view is neither a spot compression nor a magnification
    /// view.
    pub open spec fn plain(self) -> bool {
        !self.is_spot_compression && !self.is_magnified
    }

    /// Whether both records state a study and state the same one.
    pub open spec fn same_study(self, other: RecordView) -> bool {
        self.study_instance_uid is Some && other.study_instance_uid == self.study_instance_uid
    }

    /// Whether both records state an image identifier and that of `self`
    /// comes first in lexicographic order.
    pub open spec fn identifier_first(self, other: RecordView) -> bool {
        self.sop_instance_uid is Some && other.sop_instance_uid is Some && lex_less(
            self.sop_instance_uid->0,
            other.sop_instance_uid->0,
        )
    }

    /// Whether `self` is preferred to `other` under `order`. Six criteria
    /// are consulted in turn, and the first on which the two records differ
    /// decides:
    ///
    /// 1. a standard view is preferred to a non-standard one;
    /// 2. a view that is neither spot compression nor magnification is
    ///    preferred to one that is;
    /// 3. within one study, an implant displaced view is preferred to one
    ///    that is not;
    /// 4. the lower rank of the type under `order` is preferred;
    /// 5. the larger image area is preferred, a missing dimension counting
    ///    as area zero;
    /// 6. the image identifier that comes first is preferred, where both
    ///    records have one.
    pub open spec fn preferred_to(self, other: RecordView, order: PreferenceOrder) -> bool {
        if self.standard() != other.standard() {
            self.standard()
        } else if self.plain() != other.plain() {
            self.plain()
        } else if self.same_study(other) && self.is_implant_displaced
            != other.is_implant_displaced {
            self.is_implant_displaced
        } else if order.rank(self.metadata.mammogram_type) != order.rank(
            other.metadata.mammogram_type,
        ) {
            order.rank(self.metadata.mammogram_type) < order.rank(other.metadata.mammogram_type)
        } else if self.area() != other.area() {
            self.area() > other.area()
        } else {
            self.identifier_first(other)
        }
    }
}

/// The record of an object whose modality is accepted.
pub open spec fn record_in(path: PathBuf, dcm: InMemDicomObject) -> RecordView {
    let metadata = metadata_in(dcm, false);
    RecordView {
        file_path: path,
        metadata: metadata,
        study_instance_uid: string_value(dcm, STUDY_INSTANCE_UID),
        sop_instance_uid: string_value(dcm, SOP_INSTANCE_UID),
        rows: u16_value(dcm, ROWS),
        columns: u16_value(dcm, COLUMNS),
        is_implant_displaced: metadata.is_implant_displaced,
        is_spot_compression: metadata.is_spot_compression,
        is_magnified: metadata.is_magnified,
    }
}

impl Clone for MammogramRecord {
    fn clone(&self) -> (r: Self)
        ensures
            r@ == self@,
    {
        MammogramRecord {
            file_path: self.file_path.clone(),
            metadata: self.metadata.clone(),
            study_instance_uid: clone_opt_string(&self.study_instance_uid),
            sop_instance_uid: clone_opt_string(&self.sop_instance_uid),
            rows: self.rows,
            columns: self.columns,
            is_implant_displaced: self.is_implant_displaced,
            is_spot_compression: self.is_spot_compression,
            is_magnified: self.is_magnified,
        }
    }
}

impl MammogramRecord {
    /// The record of an object that was read from `path`.
    ///
    /// Fails with an extraction error where the object states a modality
    /// other than `MG`, and only then.
    pub fn from_dicom(path: PathBuf, dcm: &InMemDicomObject) -> (r: Result<Self, MammocatError>)
        ensures
            modality_rejected(string_value(*dcm, MODALITY), false) ==> (r matches Err(
                MammocatError::ExtractionError(m),
            ) && m@ == modality_message(string_value(*dcm, MODALITY)->0)),
            !modality_rejected(string_value(*dcm, MODALITY), false) ==> (r matches Ok(rec)
                && rec@ == record_in(path, *dcm) && rec@.metadata.well_formed()),
    {
        let metadata = match MammogramExtractor::extract(dcm) {
            Ok(m) => m,
            Err(e) => {
                return Err(e);
            },
        };
        Ok(
            Self {
                file_path: path,
                metadata,
                study_instance_uid: get_string_value(dcm, STUDY_INSTANCE_UID),
                sop_instance_uid: get_string_value(dcm, SOP_INSTANCE_UID),
                rows: get_u16_value(dcm, ROWS),
                columns: get_u16_value(dcm, COLUMNS),
                is_implant_displaced: is_implant_displaced(dcm),
                is_spot_compression: is_spot_compression(dcm),
                is_magnified: is_magnified(dcm),
            },
        )
    }

    /// The number of pixels of the image: rows times columns. `None` where
    /// a dimension is missing.
    pub fn image_area(&self) -> (r: Option<u32>)
        ensures
            r is Some <==> self@.image_area() is Some,
            r matches Some(a) ==> a == self@.image_area()->0,
    {
        match (self.rows, self.columns) {
            (Some(r), Some(c)) => {
                assert(r * c <= 0xffff * 0xffff) by (nonlinear_arith)
                    requires
                        r <= 0xffff,
                        c <= 0xffff,
                ;
                Some(r as u32 * c as u32)
            },
            _ => None,
        }
    }

    /// The number of pixels of the image; zero where a dimension is
    /// missing.
    fn area_or_zero(&self) -> (r: u32)
        ensures
            r == self@.area(),
    {
        match self.image_area() {
            Some(a) => a,
            None => 0,
        }
    }

    /// Whether both records state a study and state the same one.
    fn in_same_study(&self, other: &MammogramRecord) -> (r: bool)
        ensures
            r == self@.same_study(other@),
    {
        match (&self.study_instance_uid, &other.study_instance_uid) {
            (Some(a), Some(b)) => equals(a.as_str(), b.as_str()),
            _ => false,
        }
    }

    /// Whether this record is preferred to `other` under `order`.
    pub fn is_preferred_to_with_order(
        &self,
        other: &MammogramRecord,
        order: PreferenceOrder,
    ) -> (r: bool)
        ensures
            r == self@.preferred_to(other@, order),
    {
        let standard = self.metadata.is_standard_view();
        if standard != other.metadata.is_standard_view() {
            return standard;
        }
        let plain = !self.is_spot_compression && !self.is_magnified;
        if plain != (!other.is_spot_compression && !other.is_magnified) {
            return plain;
        }
        if self.in_same_study(other) && self.is_implant_displaced != other.is_implant_displaced {
            return self.is_implant_displaced;
        }
        let rank = order.preference_value(&self.metadata.mammogram_type);
        let other_rank = order.preference_value(&other.metadata.mammogram_type);
        if rank != other_rank {
            return rank < other_rank;
        }
        let area = self.area_or_zero();
        let other_area = other.area_or_zero();
        if area != other_area {
            return area > other_area;
        }
        match (&self.sop_instance_uid, &other.sop_instance_uid) {
            (Some(a), Some(b)) => less_than(a.as_str(), b.as_str()),
            _ => false,
        }
    }

    /// Whether this record is preferred to `other` when the types are
    /// ranked in their own order, tomosynthesis first.
    pub fn is_preferred_to(&self, other: &MammogramRecord) -> (r: bool)
        ensures
            r == self@.preferred_to(other@, PreferenceOrder::TomoFirst),
    {
        self.is_preferred_to_with_order(other, PreferenceOrder::TomoFirst)
    }
}

/// Two records count as equal when they state the same image identifier,
/// or both state none.
impl PartialEq for MammogramRecord {
    fn eq(&self, other: &Self) -> (r: bool) {
        match (&self.sop_instance_uid, &other.sop_instance_uid) {
            (Some(a), Some(b)) => equals(a.as_str(), b.as_str()),
            (None, None) => true,
            _ => false,
        }
    }
}

impl PartialEqSpecImpl for MammogramRecord {
    open spec fn obeys_eq_spec() -> bool {
        true
    }

    open spec fn eq_spec(&self, other: &Self) -> bool {
        self@.sop_instance_uid == other@.sop_instance_uid
    }
}

/// Records are ordered by preference: the preferred record is the lesser.
impl PartialOrd for MammogramRecord {
    fn partial_cmp(&self, other: &Self) -> (r: Option<Ordering>) {
        if self.is_preferred_to(other) {
            Some(Ordering::Less)
        } else if other.is_preferred_to(self) {
            Some(Ordering::Greater)
        } else {
            Some(Ordering::Equal)
        }
    }
}

impl PartialOrdSpecImpl for MammogramRecord {
    open spec fn obeys_partial_cmp_spec() -> bool {
        true
    }

    open spec fn partial_cmp_spec(&self, other: &Self) -> Option<Ordering> {
        if self@.preferred_to(other@, PreferenceOrder::TomoFirst) {
            Some(Ordering::Less)
        } else if other@.preferred_to(self@, PreferenceOrder::TomoFirst) {
            Some(Ordering::Greater)
        } else {
            Some(Ordering::Equal)
        }
    }
}

/// The lexicographic order is strict: nothing comes before itself, and of
/// two sequences at most one comes before the other.
pub proof fn lemma_lex_less_is_asymmetric(a: Seq<char>, b: Seq<char>)
    ensures
        !lex_less(a, a),
        !(lex_less(a, b) && lex_less(b, a)),
    decreases a.len(),
{
    if a.len() > 0 {
        lemma_lex_less_is_asymmetric(a.drop_first(), a.drop_first());
        if b.len() > 0 {
            lemma_lex_less_is_asymmetric(a.drop_first(), b.drop_first());
        }
    }
}

/// No record is preferred to itself, and of two records at most one is
/// preferred to the other, under every order.
pub proof fn lemma_preference_is_asymmetric(a: RecordView, b: RecordView, order: PreferenceOrder)
    ensures
        !a.preferred_to(a, order),
        !(a.preferred_to(b, order) && b.preferred_to(a, order)),
{
    if a.sop_instance_uid is Some {
        lemma_lex_less_is_asymmetric(a.sop_instance_uid->0, a.sop_instance_uid->0);
        if b.sop_instance_uid is Some {
            lemma_lex_less_is_asymmetric(a.sop_instance_uid->0, b.sop_instance_uid->0);
        }
    }
}

/// Each criterion decides as soon as the criteria before it are level: a
/// standard view beats a non-standard one outright; among views that are
/// level on the first three criteria the lower rank wins; among views that
/// are level on the first four the larger area wins.
pub proof fn lemma_preference_tiers(a: RecordView, b: RecordView, order: PreferenceOrder)
    ensures
        a.standard() && !b.standard() ==> a.preferred_to(b, order),
        a.standard() == b.standard() && a.plain() && !b.plain() ==> a.preferred_to(b, order),
        a.standard() == b.standard() && a.plain() == b.plain() && a.same_study(b)
            && a.is_implant_displaced && !b.is_implant_displaced ==> a.preferred_to(b, order),
        a.standard() == b.standard() && a.plain() == b.plain() && !(a.same_study(b)
            && a.is_implant_displaced != b.is_implant_displaced) && order.rank(
            a.metadata.mammogram_type,
        ) < order.rank(b.metadata.mammogram_type) ==> a.preferred_to(b, order),
        a.standard() == b.standard() && a.plain() == b.plain() && !(a.same_study(b)
            && a.is_implant_displaced != b.is_implant_displaced) && a.metadata.mammogram_type
            == b.metadata.mammogram_type && a.area() > b.area() ==> a.preferred_to(b, order),
        a.sop_instance_uid is None || b.sop_instance_uid is None ==> !a.identifier_first(b),
{
}

/// The lexicographic order is transitive.
pub proof fn lemma_lex_less_is_transitive(a: Seq<char>, b: Seq<char>, c: Seq<char>)
    requires
        lex_less(a, b),
        lex_less(b, c),
    ensures
        lex_less(a, c),
    decreases a.len(),
{
    if a.len() > 0 && b.len() > 0 && c.len() > 0 {
        if a.first() == b.first() && b.first() == c.first() {
            lemma_lex_less_is_transitive(a.drop_first(), b.drop_first(), c.drop_first());
        }
    }
}

/// Among records of one study, and among records that state no study,
/// preference is transitive. Together with its asymmetry this makes it a
/// strict order there. Across studies it need not be transitive, because
/// the implant displaced criterion applies within a study only.
pub proof fn lemma_preference_is_transitive_within_a_study(
    a: RecordView,
    b: RecordView,
    c: RecordView,
    order: PreferenceOrder,
)
    requires
        a.study_instance_uid == b.study_instance_uid,
        b.study_instance_uid == c.study_instance_uid,
        a.preferred_to(b, order),
        b.preferred_to(c, order),
    ensures
        a.preferred_to(c, order),
{
    if a.identifier_first(b) && b.identifier_first(c) {
        lemma_lex_less_is_transitive(
            a.sop_instance_uid->0,
            b.sop_instance_uid->0,
            c.sop_instance_uid->0,
        );
    }
}

} // verus!
