//! Rewrites shell scripts so that each distinct `spack load` runs once.
pub mod ast;
pub mod emit;
pub mod fingerprint;
pub mod pattern;
pub mod rewrite;
pub mod serializable;
pub mod text;
pub mod transform;
