//! The rules that classify one mammogram from its metadata.

pub mod laterality;
pub mod mammo_type;
pub mod tags;
pub mod view_modifiers;
pub mod view_position;

pub use laterality::extract_laterality;
pub use mammo_type::{extract_image_type, extract_mammogram_type};
pub use view_modifiers::{
    extract_view_modifier_meanings, is_implant_displaced, is_magnified, is_spot_compression,
};
pub use view_position::{extract_view_position, from_str as parse_view_position};
