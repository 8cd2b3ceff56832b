//! Classification and ranking of mammograms from their DICOM metadata.
//!
//! The crate has two parts. The classifier reads the metadata of one image
//! and decides its imaging technique, its side, its view and its view
//! modifiers. The selection takes the records of a study and chooses, for
//! each of the four standard views, the record that is preferred.
//!
//! Every function carries a contract that Verus proves. The rules are
//! stated as specification functions over sequences of characters, so that
//! each rule can be read, and reasoned about, apart from the code that
//! carries it out. What is taken on trust is named where it stands: the
//! lookups in a DICOM object in [`extraction::tags`], and the case folding
//! and character classes of the standard library in [`text`].

pub mod api;
pub mod error;
pub mod extraction;
pub mod files;
pub mod selection;
pub mod text;
pub mod types;

pub use api::{MammogramExtractor, MammogramMetadata};
pub use error::MammocatError;
pub use selection::{
    get_preferred_views, get_preferred_views_filtered, get_preferred_views_with_order,
    MammogramRecord, PreferredViews,
};
pub use types::{
    standard_mammo_views, FilterConfig, ImageType, Laterality, MammogramType, MammogramView,
    PhotometricInterpretation, PreferenceOrder, TypeSet, ViewPosition,
};
