//! LaTeX packages with their option lists.

use vstd::prelude::*;
use crate::strutil::spec_comma_list;
use crate::strutil::comma_list;

verus! {

/// A `\usepackage` entry: a package name and its free-form options.
#[derive(Debug, Clone)]
pub struct Package {
    pub name: String,
    pub opt: Vec<String>,
}

impl Package {
    /// The `\usepackage` line, with each option followed by a comma.
    pub open spec fn spec_render(self) -> Seq<char> {
        "\\usepackage["@ + spec_comma_list(self.opt@.map_values(|o: String| o@)) + "]{"@
            + self.name@ + "}\n"@
    }

    /// A package with no options yet.
    pub fn new(name: &str) -> (r: Self)
        ensures
            r.name@ == name@,
            r.opt@ == Seq::<String>::empty(),
    {
        Self { name: String::from_str(name), opt: Vec::new() }
    }

    /// Renders the `\usepackage` line.
    pub(crate) fn render(&self) -> (r: String)
        ensures
            r@ == self.spec_render(),
    {
        let mut r = String::from_str("\\usepackage[");
        let opts = comma_list(&self.opt);
        r.append(opts.as_str());
        r.append("]{");
        r.append(self.name.as_str());
        r.append("}\n");
        proof {
            assert(r@ =~= self.spec_render());
        }
        r
    }
}

impl crate::traits::AsLatex for Package {
    /// Renders this package line; the result is exactly `spec_render`.
    fn to_string(&self) -> (r: String)
        ensures
            r@ == self.spec_render(),
    {
        self.render()
    }
}

impl crate::traits::Opt for Package {
    /// Appends one option string.
    fn add_option(&mut self, opt: &str)
        ensures
            final(self).name == old(self).name,
            final(self).opt@.len() == old(self).opt@.len() + 1,
            final(self).opt@.drop_last() == old(self).opt@,
            final(self).opt@.last()@ == opt@,
    {
        self.opt.push(String::from_str(opt));
        proof {
            assert(self.opt@.drop_last() =~= old(self).opt@);
        }
    }
}

} // verus!
