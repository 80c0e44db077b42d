//! The four concrete transformations.

pub mod cleaner;
pub mod exploder;
pub mod flattener;
pub mod merger;
