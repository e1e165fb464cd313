pub mod point;
pub mod largest;
pub mod summary;
