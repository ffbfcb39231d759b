//! Scroll-wheel routing for a one-axis scroll mask, and the JSON schemas
//! of the colour and shadow values that the components store.
pub mod json;
pub mod schema;
pub mod pixels;
pub mod scrollable_mask;
