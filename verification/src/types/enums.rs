use crate::text::{
    chars_of, has_lit, has_substring, is_lit, lowercase, to_lowercase, to_uppercase, trim,
    trimmed, uppercase,
};
use std::cmp::Ordering;
use vstd::prelude::*;
use vstd::std_specs::cmp::PartialOrdSpecImpl;

verus! {

/// Sentinel value for an unknown variant.
pub const UNKNOWN: i32 = -1;

/// A strategy for ranking mammogram types during selection. A lower rank is
/// more preferred.
#[derive(Debug, Clone, Copy, PartialEq, Eq, Hash, Structural)]
pub enum PreferenceOrder {
    /// FFDM, then synthetic 2D, then tomosynthesis, then film.
    Default,
    /// Tomosynthesis, then FFDM, then synthetic 2D, then film.
    TomoFirst,
}

impl Default for PreferenceOrder {
    fn default() -> (r: Self)
        ensures
            r == PreferenceOrder::Default,
    {
        PreferenceOrder::Default
    }
}

impl PreferenceOrder {
    /// The rank of a mammogram type under this strategy, from 1 (most
    /// preferred) to 5. `Unknown` ranks last under every strategy.
    pub open spec fn rank(self, mammo_type: MammogramType) -> int {
        match self {
            PreferenceOrder::Default => match mammo_type {
                MammogramType::Ffdm => 1,
                MammogramType::Synth => 2,
                MammogramType::Tomo => 3,
                MammogramType::Sfm => 4,
                MammogramType::Unknown => 5,
            },
            PreferenceOrder::TomoFirst => match mammo_type {
                MammogramType::Tomo => 1,
                MammogramType::Ffdm => 2,
                MammogramType::Synth => 3,
                MammogramType::Sfm => 4,
                MammogramType::Unknown => 5,
            },
        }
    }

    /// The rank of `mammo_type` under this strategy.
    pub fn preference_value(&self, mammo_type: &MammogramType) -> (r: i32)
        ensures
            r == self.rank(*mammo_type),
    {
        match self {
            PreferenceOrder::Default => match mammo_type {
                MammogramType::Unknown => 5,
                MammogramType::Ffdm => 1,
                MammogramType::Synth => 2,
                MammogramType::Tomo => 3,
                MammogramType::Sfm => 4,
            },
            PreferenceOrder::TomoFirst => match mammo_type {
                MammogramType::Unknown => 5,
                MammogramType::Tomo => 1,
                MammogramType::Ffdm => 2,
                MammogramType::Synth => 3,
                MammogramType::Sfm => 4,
            },
        }
    }

    /// Every strategy ranks `Unknown` strictly after every known type, and
    /// gives distinct types distinct ranks.
    pub proof fn lemma_rank_properties(self, a: MammogramType, b: MammogramType)
        ensures
            1 <= self.rank(a) <= 5,
            self.rank(a) == 5 <==> a == MammogramType::Unknown,
            self.rank(a) == self.rank(b) <==> a == b,
    {
    }
}

/// The imaging technique of a mammogram.
#[derive(Debug, Clone, Copy, PartialEq, Eq, Hash, Structural)]
pub enum MammogramType {
    Unknown,
    /// Tomosynthesis (3D).
    Tomo,
    /// Full-field digital mammography.
    Ffdm,
    /// Synthetic 2D view computed from tomosynthesis.
    Synth,
    /// Screen-film mammography.
    Sfm,
}

impl MammogramType {
    /// The display name of the type.
    pub open spec fn name(self) -> Seq<char> {
        match self {
            MammogramType::Unknown => "unknown"@,
            MammogramType::Tomo => "tomo"@,
            MammogramType::Ffdm => "ffdm"@,
            MammogramType::Synth => "s-view"@,
            MammogramType::Sfm => "sfm"@,
        }
    }

    /// The position of the type in its own order of preference; `Unknown`
    /// has position 0 but is preferred to nothing.
    pub open spec fn position(self) -> int {
        match self {
            MammogramType::Unknown => 0,
            MammogramType::Tomo => 1,
            MammogramType::Ffdm => 2,
            MammogramType::Synth => 3,
            MammogramType::Sfm => 4,
        }
    }

    /// Whether `self` is preferred to `other`: a known type is preferred to
    /// `Unknown`, and among known types the lower position wins.
    pub open spec fn preferred_to(self, other: MammogramType) -> bool {
        if self == MammogramType::Unknown {
            false
        } else if other == MammogramType::Unknown {
            true
        } else {
            self.position() < other.position()
        }
    }

    /// The type that a lowercase description stands for.
    pub open spec fn parse_lower(s: Seq<char>) -> MammogramType {
        if has_substring(s, "tomo"@) {
            MammogramType::Tomo
        } else if has_substring(s, "view"@) || has_substring(s, "synth"@) {
            MammogramType::Synth
        } else if has_substring(s, "2d"@) || has_substring(s, "ffdm"@) {
            MammogramType::Ffdm
        } else if has_substring(s, "sfm"@) {
            MammogramType::Sfm
        } else {
            MammogramType::Unknown
        }
    }

    /// Whether the type is `Unknown`.
    pub fn is_unknown(&self) -> (r: bool)
        ensures
            r == (*self == MammogramType::Unknown),
    {
        matches!(self, MammogramType::Unknown)
    }

    /// The display name of the type.
    pub fn simple_name(&self) -> (r: &'static str)
        ensures
            r@ == self.name(),
    {
        match self {
            MammogramType::Unknown => "unknown",
            MammogramType::Tomo => "tomo",
            MammogramType::Ffdm => "ffdm",
            MammogramType::Synth => "s-view",
            MammogramType::Sfm => "sfm",
        }
    }

    /// The display name of the type, as an owned string.
    pub fn to_string(&self) -> (r: String)
        ensures
            r@ == self.name(),
    {
        self.simple_name().to_owned()
    }

    fn value(&self) -> (r: i32)
        ensures
            r == self.position(),
    {
        match self {
            MammogramType::Unknown => 0,
            MammogramType::Tomo => 1,
            MammogramType::Ffdm => 2,
            MammogramType::Synth => 3,
            MammogramType::Sfm => 4,
        }
    }

    /// Whether this type is preferred to `other` when the best mammogram of
    /// a collection is chosen.
    pub fn is_preferred_to(&self, other: &MammogramType) -> (r: bool)
        ensures
            r == self.preferred_to(*other),
    {
        if self.is_unknown() {
            false
        } else if other.is_unknown() {
            true
        } else {
            self.value() < other.value()
        }
    }

    /// The most preferred type of a non-empty list: it occurs in the list
    /// and no type of the list is preferred to it.
    pub fn get_best(types: &[MammogramType]) -> (r: MammogramType)
        requires
            types.len() > 0,
        ensures
            types@.contains(r),
            forall|i: int| 0 <= i < types.len() ==> !types@[i].preferred_to(r),
    {
        let mut best = types[0];
        let mut k: usize = 1;
        while k < types.len()
            invariant
                1 <= k <= types.len(),
                types@.contains(best),
                forall|i: int| 0 <= i < k ==> !types@[i].preferred_to(best),
            decreases types.len() - k,
        {
            if types[k].is_preferred_to(&best) {
                best = types[k];
            }
            k += 1;
        }
        best
    }

    /// The type that a lowercase description stands for.
    pub fn from_lowercase(s: &str) -> (r: MammogramType)
        ensures
            r == MammogramType::parse_lower(s@),
    {
        let c = chars_of(s);
        if has_lit(&c, "tomo") {
            MammogramType::Tomo
        } else if has_lit(&c, "view") || has_lit(&c, "synth") {
            MammogramType::Synth
        } else if has_lit(&c, "2d") || has_lit(&c, "ffdm") {
            MammogramType::Ffdm
        } else if has_lit(&c, "sfm") {
            MammogramType::Sfm
        } else {
            MammogramType::Unknown
        }
    }

    /// The type that a description stands for, whatever its case.
    pub fn from_str(s: &str) -> (r: MammogramType)
        ensures
            r == MammogramType::parse_lower(lowercase(s@)),
    {
        let lower = to_lowercase(s);
        MammogramType::from_lowercase(lower.as_str())
    }

    /// Preference is a strict total order on the known types, with
    /// `Unknown` after all of them: it is irreflexive, asymmetric and
    /// transitive, and of two distinct types one is preferred.
    pub proof fn lemma_preference_is_strict_total(
        a: MammogramType,
        b: MammogramType,
        c: MammogramType,
    )
        ensures
            !a.preferred_to(a),
            !(a.preferred_to(b) && b.preferred_to(a)),
            a.preferred_to(b) && b.preferred_to(c) ==> a.preferred_to(c),
            a != b ==> a.preferred_to(b) || b.preferred_to(a),
            a.preferred_to(b) <==> PreferenceOrder::TomoFirst.rank(a) < PreferenceOrder::TomoFirst.rank(b),
    {
    }
}

impl PartialOrd for MammogramType {
    fn partial_cmp(&self, other: &Self) -> (r: Option<Ordering>) {
        if self.is_preferred_to(other) {
            Some(Ordering::Less)
        } else if other.is_preferred_to(self) {
            Some(Ordering::Greater)
        } else {
            Some(Ordering::Equal)
        }
    }
}

impl PartialOrdSpecImpl for MammogramType {
    open spec fn obeys_partial_cmp_spec() -> bool {
        true
    }

    open spec fn partial_cmp_spec(&self, other: &Self) -> Option<Ordering> {
        if self.preferred_to(*other) {
            Some(Ordering::Less)
        } else if other.preferred_to(*self) {
            Some(Ordering::Greater)
        } else {
            Some(Ordering::Equal)
        }
    }
}

/// The side of the breast that an image shows.
#[derive(Debug, Clone, Copy, PartialEq, Eq, Hash, Structural)]
pub enum Laterality {
    Unknown,
    /// The image has no side, as for a view of both breasts taken as one.
    NoSide,
    Left,
    Right,
    Bilateral,
}

impl Laterality {
    /// The one-letter form of the side, where it has one.
    pub open spec fn short_name(self) -> Seq<char> {
        match self {
            Laterality::Left => "l"@,
            Laterality::Right => "r"@,
            Laterality::Bilateral => "bilateral"@,
            Laterality::NoSide => "none"@,
            Laterality::Unknown => ""@,
        }
    }

    /// The display name of the side.
    pub open spec fn name(self) -> Seq<char> {
        match self {
            Laterality::Left => "left"@,
            Laterality::Right => "right"@,
            Laterality::Bilateral => "bilateral"@,
            Laterality::NoSide => "none"@,
            Laterality::Unknown => "unknown"@,
        }
    }

    /// Whether the side is left or right.
    pub open spec fn unilateral(self) -> bool {
        self == Laterality::Left || self == Laterality::Right
    }

    /// The other side of a unilateral value; `Unknown` for the rest.
    pub open spec fn other_side(self) -> Laterality {
        match self {
            Laterality::Left => Laterality::Right,
            Laterality::Right => Laterality::Left,
            _ => Laterality::Unknown,
        }
    }

    /// The side that a trimmed lowercase description stands for.
    pub open spec fn parse_lower(s: Seq<char>) -> Laterality {
        if s == "none"@ {
            Laterality::NoSide
        } else if has_substring(s, "bi"@) {
            Laterality::Bilateral
        } else if has_substring(s, "r"@) || has_substring(s, "d"@) {
            Laterality::Right
        } else if has_substring(s, "l"@) || has_substring(s, "e"@) {
            Laterality::Left
        } else {
            Laterality::Unknown
        }
    }

    /// The combination of two sides: `Unknown` gives way to anything, `NoSide`
    /// to a side, two different sides make `Bilateral`, and `Bilateral`
    /// absorbs everything but `Unknown`.
    pub open spec fn combined(self, other: Laterality) -> Laterality {
        if self == Laterality::Unknown {
            other
        } else if other == Laterality::Unknown {
            self
        } else if self == Laterality::Bilateral || other == Laterality::Bilateral {
            Laterality::Bilateral
        } else if self.unilateral() && other.unilateral() {
            if self != other {
                Laterality::Bilateral
            } else {
                self
            }
        } else if self.unilateral() {
            self
        } else if other.unilateral() {
            other
        } else {
            Laterality::NoSide
        }
    }

    /// Whether the side is `Unknown`.
    pub fn is_unknown(&self) -> (r: bool)
        ensures
            r == (*self == Laterality::Unknown),
    {
        matches!(self, Laterality::Unknown)
    }

    /// Whether the side is left or right.
    pub fn is_unilateral(&self) -> (r: bool)
        ensures
            r == self.unilateral(),
    {
        matches!(self, Laterality::Left | Laterality::Right)
    }

    /// Whether the side is `Unknown` or `NoSide`.
    pub fn is_unknown_or_none(&self) -> (r: bool)
        ensures
            r == (*self == Laterality::Unknown || *self == Laterality::NoSide),
    {
        matches!(self, Laterality::Unknown | Laterality::NoSide)
    }

    /// The other side of a unilateral value; `Unknown` for the rest.
    pub fn opposite(&self) -> (r: Self)
        ensures
            r == self.other_side(),
    {
        match self {
            Laterality::Left => Laterality::Right,
            Laterality::Right => Laterality::Left,
            _ => Laterality::Unknown,
        }
    }

    /// The one-letter form of the side, where it has one.
    pub fn short_str(&self) -> (r: &'static str)
        ensures
            r@ == self.short_name(),
    {
        match self {
            Laterality::Left => "l",
            Laterality::Right => "r",
            Laterality::Bilateral => "bilateral",
            Laterality::NoSide => "none",
            Laterality::Unknown => "",
        }
    }

    /// The display name of the side.
    pub fn simple_name(&self) -> (r: &'static str)
        ensures
            r@ == self.name(),
    {
        match self {
            Laterality::Left => "left",
            Laterality::Right => "right",
            Laterality::Bilateral => "bilateral",
            Laterality::NoSide => "none",
            Laterality::Unknown => "unknown",
        }
    }

    /// The display name of the side, as an owned string.
    pub fn to_string(&self) -> (r: String)
        ensures
            r@ == self.name(),
    {
        self.simple_name().to_owned()
    }

    /// The side that a trimmed lowercase description stands for.
    pub fn from_lowercase(s: &str) -> (r: Laterality)
        ensures
            r == Laterality::parse_lower(s@),
    {
        let c = chars_of(s);
        if is_lit(&c, "none") {
            Laterality::NoSide
        } else if has_lit(&c, "bi") {
            Laterality::Bilateral
        } else if has_lit(&c, "r") || has_lit(&c, "d") {
            Laterality::Right
        } else if has_lit(&c, "l") || has_lit(&c, "e") {
            Laterality::Left
        } else {
            Laterality::Unknown
        }
    }

    /// The side that a free-text description stands for, whatever its case
    /// and surrounding whitespace.
    pub fn from_str(s: &str) -> (r: Laterality)
        ensures
            r == Laterality::parse_lower(lowercase(trimmed(s@))),
    {
        let lower = to_lowercase(trim(s));
        Laterality::from_lowercase(lower.as_str())
    }

    /// The combination of two sides.
    pub fn reduce(self, other: Self) -> (r: Self)
        ensures
            r == self.combined(other),
    {
        if self.is_unknown() {
            return other;
        }
        if other.is_unknown() {
            return self;
        }
        if matches!(self, Laterality::Bilateral) || matches!(other, Laterality::Bilateral) {
            return Laterality::Bilateral;
        }
        if self.is_unilateral() && other.is_unilateral() {
            if self != other {
                return Laterality::Bilateral;
            }
            return self;
        }
        if self.is_unilateral() {
            return self;
        }
        if other.is_unilateral() {
            return other;
        }
        Laterality::NoSide
    }

    /// Combining sides is commutative, associative and idempotent, and
    /// `Unknown` is its neutral element.
    pub proof fn lemma_combined_is_a_join(a: Laterality, b: Laterality, c: Laterality)
        ensures
            a.combined(b) == b.combined(a),
            a.combined(b).combined(c) == a.combined(b.combined(c)),
            a.combined(a) == a,
            a.combined(Laterality::Unknown) == a,
    {
    }

    /// Two different sides combine to `Bilateral`; a side combined with
    /// `Unknown` or `NoSide` stays; `Bilateral` absorbs every known value.
    pub proof fn lemma_combined_cases(a: Laterality, b: Laterality)
        ensures
            a.unilateral() && b.unilateral() && a != b ==> a.combined(b) == Laterality::Bilateral,
            a.unilateral() && (b == Laterality::Unknown || b == Laterality::NoSide) ==> a.combined(b)
                == a,
            a == Laterality::Bilateral && b != Laterality::Unknown ==> a.combined(b)
                == Laterality::Bilateral,
    {
    }
}

/// The projection of an image. The variants are declared in ascending order
/// of their ordinal.
#[derive(Debug, Clone, Copy, PartialEq, Eq, Hash, PartialOrd, Ord, Structural)]
pub enum ViewPosition {
    Unknown,
    /// Cranio-caudal exaggerated laterally.
    Xccl,
    /// Cranio-caudal exaggerated medially.
    Xccm,
    /// Cranio-caudal.
    Cc,
    /// Medio-lateral oblique.
    Mlo,
    /// Medio-lateral.
    Ml,
    /// Latero-medial oblique.
    Lmo,
    /// Latero-medial.
    Lm,
    /// Axillary tail.
    At,
    /// Cleavage view.
    Cv,
}

impl ViewPosition {
    /// The place of the view in the fixed order of views, from 0 for
    /// `Unknown` to 9 for the cleavage view.
    pub open spec fn rank(self) -> int {
        match self {
            ViewPosition::Unknown => 0,
            ViewPosition::Xccl => 1,
            ViewPosition::Xccm => 2,
            ViewPosition::Cc => 3,
            ViewPosition::Mlo => 4,
            ViewPosition::Ml => 5,
            ViewPosition::Lmo => 6,
            ViewPosition::Lm => 7,
            ViewPosition::At => 8,
            ViewPosition::Cv => 9,
        }
    }

    /// Whether the view is one of the two standard views, CC and MLO.
    pub open spec fn standard(self) -> bool {
        self == ViewPosition::Cc || self == ViewPosition::Mlo
    }

    /// Whether the view belongs to the oblique and lateral group.
    pub open spec fn mlo_like(self) -> bool {
        self == ViewPosition::Mlo || self == ViewPosition::Ml || self == ViewPosition::Lmo || self
            == ViewPosition::Lm
    }

    /// Whether the view belongs to the cranio-caudal group.
    pub open spec fn cc_like(self) -> bool {
        self == ViewPosition::Cc || self == ViewPosition::Xccl || self == ViewPosition::Xccm
    }

    /// The abbreviation of the view; empty for `Unknown`.
    pub open spec fn name(self) -> Seq<char> {
        match self {
            ViewPosition::Unknown => ""@,
            ViewPosition::Xccl => "xccl"@,
            ViewPosition::Xccm => "xccm"@,
            ViewPosition::Cc => "cc"@,
            ViewPosition::Mlo => "mlo"@,
            ViewPosition::Ml => "ml"@,
            ViewPosition::Lmo => "lmo"@,
            ViewPosition::Lm => "lm"@,
            ViewPosition::At => "at"@,
            ViewPosition::Cv => "cv"@,
        }
    }

    /// The view with the higher rank of the two.
    pub open spec fn higher(self, other: ViewPosition) -> ViewPosition {
        if other.rank() > self.rank() {
            other
        } else {
            self
        }
    }

    /// Whether the view is `Unknown`.
    pub fn is_unknown(&self) -> (r: bool)
        ensures
            r == (*self == ViewPosition::Unknown),
    {
        matches!(self, ViewPosition::Unknown)
    }

    /// Whether the view is one of the two standard views, CC and MLO.
    pub fn is_standard_view(&self) -> (r: bool)
        ensures
            r == self.standard(),
    {
        matches!(self, ViewPosition::Cc | ViewPosition::Mlo)
    }

    /// Whether the view belongs to the oblique and lateral group.
    pub fn is_mlo_like(&self) -> (r: bool)
        ensures
            r == self.mlo_like(),
    {
        matches!(self, ViewPosition::Mlo | ViewPosition::Ml | ViewPosition::Lmo | ViewPosition::Lm)
    }

    /// Whether the view belongs to the cranio-caudal group.
    pub fn is_cc_like(&self) -> (r: bool)
        ensures
            r == self.cc_like(),
    {
        matches!(self, ViewPosition::Cc | ViewPosition::Xccl | ViewPosition::Xccm)
    }

    /// The abbreviation of the view; empty for `Unknown`.
    pub fn short_str(&self) -> (r: &'static str)
        ensures
            r@ == self.name(),
    {
        match self {
            ViewPosition::Unknown => "",
            ViewPosition::Xccl => "xccl",
            ViewPosition::Xccm => "xccm",
            ViewPosition::Cc => "cc",
            ViewPosition::Mlo => "mlo",
            ViewPosition::Ml => "ml",
            ViewPosition::Lmo => "lmo",
            ViewPosition::Lm => "lm",
            ViewPosition::At => "at",
            ViewPosition::Cv => "cv",
        }
    }

    /// The display name of the view, which is its abbreviation.
    pub fn simple_name(&self) -> (r: &'static str)
        ensures
            r@ == self.name(),
    {
        self.short_str()
    }

    /// The display name of the view, as an owned string.
    pub fn to_string(&self) -> (r: String)
        ensures
            r@ == self.name(),
    {
        self.short_str().to_owned()
    }

    /// The place of the view in the fixed order of views.
    pub fn ordinal(&self) -> (r: u8)
        ensures
            r == self.rank(),
    {
        match self {
            ViewPosition::Unknown => 0,
            ViewPosition::Xccl => 1,
            ViewPosition::Xccm => 2,
            ViewPosition::Cc => 3,
            ViewPosition::Mlo => 4,
            ViewPosition::Ml => 5,
            ViewPosition::Lmo => 6,
            ViewPosition::Lm => 7,
            ViewPosition::At => 8,
            ViewPosition::Cv => 9,
        }
    }

    /// The view with the higher rank of the two.
    pub fn max_with(self, other: ViewPosition) -> (r: ViewPosition)
        ensures
            r == self.higher(other),
    {
        if other.ordinal() > self.ordinal() {
            other
        } else {
            self
        }
    }

    /// The rank orders the views totally, with `Unknown` lowest; the
    /// standard views are in exactly one group each, and the two groups
    /// are disjoint.
    pub proof fn lemma_rank_and_groups(a: ViewPosition, b: ViewPosition)
        ensures
            a.rank() == b.rank() <==> a == b,
            0 <= a.rank() <= 9,
            a.rank() == 0 <==> a == ViewPosition::Unknown,
            a.standard() ==> (a.mlo_like() != a.cc_like()),
            !(a.mlo_like() && a.cc_like()),
            a.higher(b).rank() >= a.rank() && a.higher(b).rank() >= b.rank(),
            a.higher(b) == a || a.higher(b) == b,
    {
    }
}

/// The photometric interpretation of the pixel data.
#[derive(Debug, Clone, Copy, PartialEq, Eq, Hash, Structural)]
pub enum PhotometricInterpretation {
    Unknown,
    Monochrome1,
    Monochrome2,
    PaletteColor,
    Rgb,
    Hsv,
    Argb,
    Cmyk,
    YbrFull,
    YbrFull422,
    YbrPartial422,
    YbrPartial420,
    YbrIct,
    YbrRct,
}

impl PhotometricInterpretation {
    /// The defined term of the interpretation.
    pub open spec fn name(self) -> Seq<char> {
        match self {
            PhotometricInterpretation::Unknown => "UNKNOWN"@,
            PhotometricInterpretation::Monochrome1 => "MONOCHROME1"@,
            PhotometricInterpretation::Monochrome2 => "MONOCHROME2"@,
            PhotometricInterpretation::PaletteColor => "PALETTE COLOR"@,
            PhotometricInterpretation::Rgb => "RGB"@,
            PhotometricInterpretation::Hsv => "HSV"@,
            PhotometricInterpretation::Argb => "ARGB"@,
            PhotometricInterpretation::Cmyk => "CMYK"@,
            PhotometricInterpretation::YbrFull => "YBR_FULL"@,
            PhotometricInterpretation::YbrFull422 => "YBR_FULL_422"@,
            PhotometricInterpretation::YbrPartial422 => "YBR_PARTIAL_422"@,
            PhotometricInterpretation::YbrPartial420 => "YBR_PARTIAL_420"@,
            PhotometricInterpretation::YbrIct => "YBR_ICT"@,
            PhotometricInterpretation::YbrRct => "YBR_RCT"@,
        }
    }

    /// Whether the interpretation has a single grey channel.
    pub open spec fn monochrome(self) -> bool {
        self == PhotometricInterpretation::Monochrome1 || self
            == PhotometricInterpretation::Monochrome2
    }

    /// The interpretation whose defined term is `s`, taken in the order in
    /// which the terms are listed; `Unknown` where `s` is none of them.
    pub open spec fn parse_upper(s: Seq<char>) -> PhotometricInterpretation {
        if s == "MONOCHROME1"@ {
            PhotometricInterpretation::Monochrome1
        } else if s == "MONOCHROME2"@ {
            PhotometricInterpretation::Monochrome2
        } else if s == "PALETTE COLOR"@ {
            PhotometricInterpretation::PaletteColor
        } else if s == "RGB"@ {
            PhotometricInterpretation::Rgb
        } else if s == "HSV"@ {
            PhotometricInterpretation::Hsv
        } else if s == "ARGB"@ {
            PhotometricInterpretation::Argb
        } else if s == "CMYK"@ {
            PhotometricInterpretation::Cmyk
        } else if s == "YBR_FULL"@ {
            PhotometricInterpretation::YbrFull
        } else if s == "YBR_FULL_422"@ {
            PhotometricInterpretation::YbrFull422
        } else if s == "YBR_PARTIAL_422"@ {
            PhotometricInterpretation::YbrPartial422
        } else if s == "YBR_PARTIAL_420"@ {
            PhotometricInterpretation::YbrPartial420
        } else if s == "YBR_ICT"@ {
            PhotometricInterpretation::YbrIct
        } else if s == "YBR_RCT"@ {
            PhotometricInterpretation::YbrRct
        } else {
            PhotometricInterpretation::Unknown
        }
    }

    /// Whether the interpretation has a single grey channel.
    pub fn is_monochrome(&self) -> (r: bool)
        ensures
            r == self.monochrome(),
    {
        matches!(
            self,
            PhotometricInterpretation::Monochrome1 | PhotometricInterpretation::Monochrome2
        )
    }

    /// Whether low values are shown bright.
    pub fn is_inverted(&self) -> (r: bool)
        ensures
            r == (*self == PhotometricInterpretation::Monochrome1),
    {
        matches!(self, PhotometricInterpretation::Monochrome1)
    }

    /// The number of colour channels: one for the monochrome
    /// interpretations, three for the rest.
    pub fn num_channels(&self) -> (r: usize)
        ensures
            r == if self.monochrome() { 1usize } else { 3usize },
    {
        if self.is_monochrome() {
            1
        } else {
            3
        }
    }

    /// The defined term of the interpretation.
    pub fn to_string(&self) -> (r: String)
        ensures
            r@ == self.name(),
    {
        let name = match self {
            PhotometricInterpretation::Unknown => "UNKNOWN",
            PhotometricInterpretation::Monochrome1 => "MONOCHROME1",
            PhotometricInterpretation::Monochrome2 => "MONOCHROME2",
            PhotometricInterpretation::PaletteColor => "PALETTE COLOR",
            PhotometricInterpretation::Rgb => "RGB",
            PhotometricInterpretation::Hsv => "HSV",
            PhotometricInterpretation::Argb => "ARGB",
            PhotometricInterpretation::Cmyk => "CMYK",
            PhotometricInterpretation::YbrFull => "YBR_FULL",
            PhotometricInterpretation::YbrFull422 => "YBR_FULL_422",
            PhotometricInterpretation::YbrPartial422 => "YBR_PARTIAL_422",
            PhotometricInterpretation::YbrPartial420 => "YBR_PARTIAL_420",
            PhotometricInterpretation::YbrIct => "YBR_ICT",
            PhotometricInterpretation::YbrRct => "YBR_RCT",
        };
        name.to_owned()
    }

    /// The interpretation whose defined term is the uppercase string `s`.
    pub fn from_uppercase(s: &str) -> (r: PhotometricInterpretation)
        ensures
            r == PhotometricInterpretation::parse_upper(s@),
    {
        let c = chars_of(s);
        if is_lit(&c, "MONOCHROME1") {
            PhotometricInterpretation::Monochrome1
        } else if is_lit(&c, "MONOCHROME2") {
            PhotometricInterpretation::Monochrome2
        } else if is_lit(&c, "PALETTE COLOR") {
            PhotometricInterpretation::PaletteColor
        } else if is_lit(&c, "RGB") {
            PhotometricInterpretation::Rgb
        } else if is_lit(&c, "HSV") {
            PhotometricInterpretation::Hsv
        } else if is_lit(&c, "ARGB") {
            PhotometricInterpretation::Argb
        } else if is_lit(&c, "CMYK") {
            PhotometricInterpretation::Cmyk
        } else if is_lit(&c, "YBR_FULL") {
            PhotometricInterpretation::YbrFull
        } else if is_lit(&c, "YBR_FULL_422") {
            PhotometricInterpretation::YbrFull422
        } else if is_lit(&c, "YBR_PARTIAL_422") {
            PhotometricInterpretation::YbrPartial422
        } else if is_lit(&c, "YBR_PARTIAL_420") {
            PhotometricInterpretation::YbrPartial420
        } else if is_lit(&c, "YBR_ICT") {
            PhotometricInterpretation::YbrIct
        } else if is_lit(&c, "YBR_RCT") {
            PhotometricInterpretation::YbrRct
        } else {
            PhotometricInterpretation::Unknown
        }
    }

    /// The interpretation that a defined term stands for, whatever its case.
    pub fn from_str(s: &str) -> (r: PhotometricInterpretation)
        ensures
            r == PhotometricInterpretation::parse_upper(uppercase(s@)),
    {
        let upper = to_uppercase(s);
        PhotometricInterpretation::from_uppercase(upper.as_str())
    }
}

} // verus!
