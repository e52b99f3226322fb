//! What the controllers share.

pub mod component_images;
