use super::enums::MammogramType;
use vstd::prelude::*;

verus! {

/// A set of mammogram types.
#[derive(Debug, Clone, Copy, PartialEq, Eq, Hash, Structural)]
pub struct TypeSet {
    unknown: bool,
    tomo: bool,
    ffdm: bool,
    synth: bool,
    sfm: bool,
}

impl View for TypeSet {
    type V = Set<MammogramType>;

    closed spec fn view(&self) -> Set<MammogramType> {
        Set::new(
            |t: MammogramType|
                match t {
                    MammogramType::Unknown => self.unknown,
                    MammogramType::Tomo => self.tomo,
                    MammogramType::Ffdm => self.ffdm,
                    MammogramType::Synth => self.synth,
                    MammogramType::Sfm => self.sfm,
                },
        )
    }
}

impl TypeSet {
    /// The empty set.
    pub fn new() -> (r: Self)
        ensures
            r@ == Set::<MammogramType>::empty(),
    {
        let r = TypeSet { unknown: false, tomo: false, ffdm: false, synth: false, sfm: false };
        assert(r@ =~= Set::<MammogramType>::empty());
        r
    }

    /// Whether `t` is in the set.
    pub fn contains(&self, t: &MammogramType) -> (r: bool)
        ensures
            r == self@.contains(*t),
    {
        match t {
            MammogramType::Unknown => self.unknown,
            MammogramType::Tomo => self.tomo,
            MammogramType::Ffdm => self.ffdm,
            MammogramType::Synth => self.synth,
            MammogramType::Sfm => self.sfm,
        }
    }

    /// Adds `t` to the set. Returns whether it was not there before.
    pub fn insert(&mut self, t: MammogramType) -> (r: bool)
        ensures
            final(self)@ == old(self)@.insert(t),
            r == !old(self)@.contains(t),
    {
        let was = self.contains(&t);
        match t {
            MammogramType::Unknown => {
                self.unknown = true;
            },
            MammogramType::Tomo => {
                self.tomo = true;
            },
            MammogramType::Ffdm => {
                self.ffdm = true;
            },
            MammogramType::Synth => {
                self.synth = true;
            },
            MammogramType::Sfm => {
                self.sfm = true;
            },
        }
        assert(self@ =~= old(self)@.insert(t));
        !was
    }

    /// The number of types in the set.
    pub fn len(&self) -> (r: usize)
        ensures
            self@.finite(),
            r == self@.len(),
    {
        let mut n: usize = 0;
        let ghost mut seen = Set::<MammogramType>::empty();
        if self.unknown {
            n += 1;
            proof {
                seen = seen.insert(MammogramType::Unknown);
            }
        }
        if self.tomo {
            n += 1;
            proof {
                seen = seen.insert(MammogramType::Tomo);
            }
        }
        if self.ffdm {
            n += 1;
            proof {
                seen = seen.insert(MammogramType::Ffdm);
            }
        }
        if self.synth {
            n += 1;
            proof {
                seen = seen.insert(MammogramType::Synth);
            }
        }
        if self.sfm {
            n += 1;
            proof {
                seen = seen.insert(MammogramType::Sfm);
            }
        }
        assert(seen =~= self@);
        n
    }

    /// Whether the set holds no type.
    pub fn is_empty(&self) -> (r: bool)
        ensures
            r == (self@ == Set::<MammogramType>::empty()),
    {
        let r = !(self.unknown || self.tomo || self.ffdm || self.synth || self.sfm);
        proof {
            if r {
                assert(self@ =~= Set::<MammogramType>::empty());
            } else {
                assert(self@.contains(MammogramType::Unknown) || self@.contains(
                    MammogramType::Tomo,
                ) || self@.contains(MammogramType::Ffdm) || self@.contains(MammogramType::Synth)
                    || self@.contains(MammogramType::Sfm));
            }
        }
        r
    }
}

/// Which records take part in a selection. A record that fails one of the
/// enabled rules is left out altogether.
#[derive(Debug, Clone, Copy, PartialEq, Eq, Structural)]
pub struct FilterConfig {
    /// The types that are let through. `None` lets every type through.
    pub allowed_types: Option<TypeSet>,
    /// Leave out records with a breast implant.
    pub exclude_implants: bool,
    /// Leave out records whose view is neither CC nor MLO.
    pub exclude_non_standard_views: bool,
    /// Leave out records meant for processing, not for presentation.
    pub exclude_for_processing: bool,
    /// Leave out secondary capture images.
    pub exclude_secondary_capture: bool,
    /// Leave out records whose modality is not mammography.
    pub exclude_non_mg_modality: bool,
    /// Require that all selected views come from one modality group, 2D or
    /// tomosynthesis.
    pub require_common_modality: bool,
}

impl Default for FilterConfig {
    /// Every type is allowed; images for processing, secondary captures and
    /// other modalities are left out.
    fn default() -> (r: Self)
        ensures
            r == (FilterConfig {
                allowed_types: None,
                exclude_implants: false,
                exclude_non_standard_views: false,
                exclude_for_processing: true,
                exclude_secondary_capture: true,
                exclude_non_mg_modality: true,
                require_common_modality: false,
            }),
    {
        Self {
            allowed_types: None,
            exclude_implants: false,
            exclude_non_standard_views: false,
            exclude_for_processing: true,
            exclude_secondary_capture: true,
            exclude_non_mg_modality: true,
            require_common_modality: false,
        }
    }
}

impl FilterConfig {
    /// The configuration that leaves nothing out.
    pub fn permissive() -> (r: Self)
        ensures
            r == (FilterConfig {
                allowed_types: None,
                exclude_implants: false,
                exclude_non_standard_views: false,
                exclude_for_processing: false,
                exclude_secondary_capture: false,
                exclude_non_mg_modality: false,
                require_common_modality: false,
            }),
    {
        Self {
            allowed_types: None,
            exclude_implants: false,
            exclude_non_standard_views: false,
            exclude_for_processing: false,
            exclude_secondary_capture: false,
            exclude_non_mg_modality: false,
            require_common_modality: false,
        }
    }

    /// The same configuration with `types` as the allowed types.
    pub fn with_allowed_types(self, types: TypeSet) -> (r: Self)
        ensures
            r == (FilterConfig { allowed_types: Some(types), ..self }),
    {
        let mut c = self;
        c.allowed_types = Some(types);
        c
    }

    /// The same configuration with the implant rule set to `exclude`.
    pub fn exclude_implants(self, exclude: bool) -> (r: Self)
        ensures
            r == (FilterConfig { exclude_implants: exclude, ..self }),
    {
        let mut c = self;
        c.exclude_implants = exclude;
        c
    }

    /// The same configuration with the standard-view rule set to `exclude`.
    pub fn exclude_non_standard_views(self, exclude: bool) -> (r: Self)
        ensures
            r == (FilterConfig { exclude_non_standard_views: exclude, ..self }),
    {
        let mut c = self;
        c.exclude_non_standard_views = exclude;
        c
    }

    /// The same configuration with the for-processing rule set to `exclude`.
    pub fn exclude_for_processing(self, exclude: bool) -> (r: Self)
        ensures
            r == (FilterConfig { exclude_for_processing: exclude, ..self }),
    {
        let mut c = self;
        c.exclude_for_processing = exclude;
        c
    }

    /// The same configuration with the secondary-capture rule set to
    /// `exclude`.
    pub fn exclude_secondary_capture(self, exclude: bool) -> (r: Self)
        ensures
            r == (FilterConfig { exclude_secondary_capture: exclude, ..self }),
    {
        let mut c = self;
        c.exclude_secondary_capture = exclude;
        c
    }

    /// The same configuration with the modality rule set to `exclude`.
    pub fn exclude_non_mg_modality(self, exclude: bool) -> (r: Self)
        ensures
            r == (FilterConfig { exclude_non_mg_modality: exclude, ..self }),
    {
        let mut c = self;
        c.exclude_non_mg_modality = exclude;
        c
    }

    /// The same configuration with the common-modality requirement set to
    /// `require`.
    pub fn require_common_modality(self, require: bool) -> (r: Self)
        ensures
            r == (FilterConfig { require_common_modality: require, ..self }),
    {
        let mut c = self;
        c.require_common_modality = require;
        c
    }
}

} // verus!
