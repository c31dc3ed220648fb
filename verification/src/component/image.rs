//! Embedded images.

use vstd::prelude::*;
use crate::strutil::spec_comma_list;
use crate::strutil::comma_list;

verus! {

/// An `\includegraphics` directive with an option list. Enable graphics
/// support on the document before attaching one.
#[derive(Debug, Clone)]
pub struct Image {
    pub path: String,
    pub opt: Vec<String>,
}

impl Image {
    /// The LaTeX text of this image: the embed directive with each option
    /// followed by a comma.
    pub open spec fn spec_render(self) -> Seq<char> {
        "\\includegraphics["@ + spec_comma_list(self.opt@.map_values(|o: String| o@)) + "]{"@
            + self.path@ + "} \n"@
    }

    pub fn new(path: &str) -> (r: Self)
        ensures
            r.path@ == path@,
            r.opt@ == Seq::<String>::empty(),
    {
        Self { path: String::from_str(path), opt: Vec::new() }
    }

    pub fn with_options(path: &str, opt: Vec<String>) -> (r: Self)
        ensures
            r.path@ == path@,
            r.opt == opt,
    {
        Self { path: String::from_str(path), opt }
    }
}


impl Image {
    /// Renders this image to LaTeX text.
    pub(crate) fn render(&self) -> (r: String)
        ensures
            r@ == self.spec_render(),
    {
        let mut r = String::from_str("\\includegraphics[");
        let opts = comma_list(&self.opt);
        r.append(opts.as_str());
        r.append("]{");
        r.append(self.path.as_str());
        r.append("} \n");
        proof {
            assert(r@ =~= self.spec_render());
        }
        r
    }
}

impl crate::traits::AsLatex for Image {
    /// Renders this image; the result is exactly `spec_render`.
    fn to_string(&self) -> (r: String)
        ensures
            r@ == self.spec_render(),
    {
        self.render()
    }
}

impl crate::traits::Opt for Image {
    /// Appends one option string.
    fn add_option(&mut self, opt: &str)
        ensures
            final(self).path == old(self).path,
            final(self).opt@.len() == old(self).opt@.len() + 1,
            final(self).opt@.drop_last() == old(self).opt@,
            final(self).opt@.last()@ == opt@,
    {
        self.opt.push(String::from_str(opt));
        proof {
            assert(self.opt@.drop_last() =~= old(self).opt@);
        }
    }
}

} // verus!
