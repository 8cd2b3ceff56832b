//! The choice of the best mammogram for each of the four standard views.

pub mod record;
pub mod views;

pub use record::MammogramRecord;
pub use views::{
    get_preferred_views, get_preferred_views_filtered, get_preferred_views_with_order,
    PreferredViews,
};
