//! The error taxonomy of the library.

use vstd::prelude::*;
use crate::strutil::spec_dec;
use crate::strutil::dec_string;

verus! {

/// Everything that can go wrong while assembling a document.
///
/// - `ArgLen`: a command was invoked with the wrong number of arguments.
/// - `RankMismatch(child, parent)`: a child of rank `child` was attached
///   to a container of higher structural significance `parent`.
/// - `WhatEven`: catch-all with a free-text diagnostic.
/// - `TraitUnimplemented`: attachment was attempted on a leaf variant that
///   has no children; carries the variant's name.
/// - `VariantUndefined`: a literal did not name any variant.
/// - `LabelUndefined`: a label lookup missed.
/// - `Undefined`: a named registry lookup missed.
#[derive(Debug, Clone, PartialEq)]
pub enum TexError {
    ArgLen,
    RankMismatch(u8, u8),
    WhatEven(String),
    TraitUnimplemented(String),
    VariantUndefined,
    LabelUndefined,
    Undefined,
}

/// The result type of every fallible operation of the library.
pub type TexResult<T> = Result<T, TexError>;

impl TexError {
    /// The text of the human-readable diagnostic for this error.
    pub open spec fn spec_message(self) -> Seq<char> {
        match self {
            TexError::ArgLen => "Incorrect number of arguments."@,
            TexError::RankMismatch(a, b) => "Rank mismatch: "@ + spec_dec(a as nat) + " < "@
                + spec_dec(b as nat) + "."@,
            TexError::WhatEven(s) => s@,
            TexError::Undefined => "Object not defined."@,
            TexError::VariantUndefined => "The literal you provided does not correspond to a Variant. Please refer to the documentation for the list of valid literals."@,
            TexError::LabelUndefined => "The label you provided does not exist."@,
            TexError::TraitUnimplemented(s) => s@
                + " does not implement the trait you desire (probably Populate)."@,
        }
    }

    /// A human-readable diagnostic for this error.
    pub fn message(&self) -> (r: String)
        ensures
            r@ == self.spec_message(),
    {
        match self {
            TexError::ArgLen => String::from_str("Incorrect number of arguments."),
            TexError::RankMismatch(a, b) => {
                let mut r = String::from_str("Rank mismatch: ");
                r.append(dec_string(*a as usize).as_str());
                r.append(" < ");
                r.append(dec_string(*b as usize).as_str());
                r.append(".");
                proof {
                    assert(r@ =~= self.spec_message());
                }
                r
            },
            TexError::WhatEven(s) => s.clone(),
            TexError::Undefined => String::from_str("Object not defined."),
            TexError::VariantUndefined => String::from_str(
                "The literal you provided does not correspond to a Variant. Please refer to the documentation for the list of valid literals.",
            ),
            TexError::LabelUndefined => String::from_str("The label you provided does not exist."),
            TexError::TraitUnimplemented(s) => {
                let mut r = s.clone();
                r.append(" does not implement the trait you desire (probably Populate).");
                proof {
                    assert(r@ =~= self.spec_message());
                }
                r
            },
        }
    }
}

} // verus!
