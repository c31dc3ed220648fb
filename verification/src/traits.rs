//! The three small traits every element deals in: rendering to LaTeX
//! text, accepting children, and accepting options.

use vstd::prelude::*;
use crate::component::Component;
use crate::errors::TexResult;

verus! {

/// Rendering to LaTeX source text. Every implementation in this crate
/// promises that the result equals the type's `spec_render` model, so
/// rendering is a pure function of the value.
pub trait AsLatex {
    fn to_string(&self) -> String;
}

/// Accepting children. Containers append; the tagged union additionally
/// enforces the structural-rank policy before delegating.
pub trait Populate {
    fn attach(&mut self, other: Component) -> TexResult<()>;

    fn attach_vec(&mut self, other: Vec<Component>) -> TexResult<()>;
}

/// Accepting a free-form option string.
pub trait Opt {
    fn add_option(&mut self, opt: &str);
}

} // verus!
