//! The `\input{}` directive.

use vstd::prelude::*;

verus! {

/// An `\input{}` directive pulling in another LaTeX file by name.
#[derive(Debug, Clone)]
pub struct Input {
    pub name: String,
}

impl Input {
    /// The LaTeX text of this directive.
    pub open spec fn spec_render(self) -> Seq<char> {
        "\\input{"@ + self.name@ + "}"@
    }
}


impl Input {
    /// Renders this directive to LaTeX text.
    pub(crate) fn render(&self) -> (r: String)
        ensures
            r@ == self.spec_render(),
    {
        let mut r = String::from_str("\\input{");
        r.append(self.name.as_str());
        r.append("}");
        proof {
            assert(r@ =~= self.spec_render());
        }
        r
    }
}

impl crate::traits::AsLatex for Input {
    /// Renders this directive; the result is exactly `spec_render`.
    fn to_string(&self) -> (r: String)
        ensures
            r@ == self.spec_render(),
    {
        self.render()
    }
}

} // verus!
