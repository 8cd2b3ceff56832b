//! The closed sets of values that describe a mammogram, and the
//! configuration of a selection.

pub mod enums;
pub mod filter;
pub mod image_type;
pub mod view;

pub use enums::{
    Laterality, MammogramType, PhotometricInterpretation, PreferenceOrder, ViewPosition, UNKNOWN,
};
pub use filter::{FilterConfig, TypeSet};
pub use image_type::{ImageType, ImageTypeView};
pub use view::{standard_mammo_views, MammogramView};
