//! Lenses: purely functional access to, and update of, a field nested in an
//! immutable data structure, with verified contracts and laws.

pub mod derive;
pub mod expression;
pub mod lenses;
pub mod naming;
pub mod path;
pub mod text;

pub use crate::lenses::{
    compose, modify, mutate_with_fn, vec_lens, vec_lens_from_marker, ComposedLens, Lens, RefLens,
    ValueLens, VecLens,
};
pub use crate::path::{LensPath, LensPathElement};
