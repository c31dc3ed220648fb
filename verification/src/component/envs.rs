//! Generic environments, lists, and figures.

use vstd::prelude::*;
use crate::component::Component;
use crate::errors::TexResult;
use crate::component::spec_render_components;
use crate::component::spec_render_items;
use crate::component::image::Image;
use crate::strutil::spec_join;
use crate::strutil::join_strings;
use crate::component::render_components;
use crate::component::render_items;

verus! {

/// A generic `\begin{...} ... \end{...}` environment with an option list.
#[derive(Debug)]
pub struct Environment {
    pub name: String,
    pub components: Vec<Component>,
    pub opt: Vec<String>,
}

impl Environment {
    /// The LaTeX text of this environment: begin line with the options,
    /// the children, end line.
    pub open spec fn spec_render(self) -> Seq<char>
        decreases self,
    {
        "\\begin{"@ + self.name@ + "}["@ + spec_join(
            self.opt@.map_values(|o: String| o@),
            ", "@,
        ) + "] \n "@ + spec_render_components(self.components@) + " \n \\end{"@ + self.name@
            + "} \n "@
    }

    pub fn new(name: &str) -> (r: Self)
        ensures
            r.name@ == name@,
            r.components@ == Seq::<Component>::empty(),
            r.opt@ == Seq::<String>::empty(),
    {
        Self { name: String::from_str(name), components: Vec::new(), opt: Vec::new() }
    }
}

/// The two list shapes: bulleted and numbered.
#[derive(Debug, Clone, PartialEq, Eq, Structural)]
pub enum ListType {
    Itemize,
    Enumerate,
}

impl ListType {
    /// The environment name of this list shape.
    pub open spec fn spec_name(self) -> Seq<char> {
        match self {
            ListType::Itemize => "itemize"@,
            ListType::Enumerate => "enumerate"@,
        }
    }

    /// The environment name of this list shape.
    pub fn as_str(&self) -> (r: &'static str)
        ensures
            r@ == self.spec_name(),
    {
        match self {
            ListType::Itemize => "itemize",
            ListType::Enumerate => "enumerate",
        }
    }
}

/// An itemized or enumerated list: each child is rendered as one item.
#[derive(Debug)]
pub struct List {
    pub items: Vec<Component>,
    pub typ: ListType,
    pub opt: Vec<String>,
}

impl List {
    /// The LaTeX text of this list: an itemize or enumerate environment
    /// with the options, each child preceded by an item marker.
    pub open spec fn spec_render(self) -> Seq<char>
        decreases self,
    {
        "\\begin{"@ + self.typ.spec_name() + "}["@ + spec_join(
            self.opt@.map_values(|o: String| o@),
            ", "@,
        ) + "] \n "@ + spec_render_items(self.items@) + " \n \\end{"@ + self.typ.spec_name()
            + "} \n "@
    }

    pub fn new(typ: ListType) -> (r: Self)
        ensures
            r.items@ == Seq::<Component>::empty(),
            r.typ == typ,
            r.opt@ == Seq::<String>::empty(),
    {
        Self { items: Vec::new(), typ, opt: Vec::new() }
    }

    pub fn with_items(typ: ListType, items: Vec<Component>) -> (r: Self)
        ensures
            r.items == items,
            r.typ == typ,
            r.opt@ == Seq::<String>::empty(),
    {
        Self { items, typ, opt: Vec::new() }
    }
}

/// A floating figure: a centered image with a caption and placement
/// options.
#[derive(Debug, Clone)]
pub struct Figure {
    pub img: Image,
    pub caption: String,
    pub opt: Vec<String>,
}

impl Figure {
    /// The LaTeX text of this figure: a figure environment holding the
    /// centered image and the caption.
    pub open spec fn spec_render(self) -> Seq<char> {
        "\\begin{figure}["@ + spec_join(self.opt@.map_values(|o: String| o@), ", "@)
            + "] \n \\centering \n "@ + self.img.spec_render() + " \n \\caption{"@ + self.caption@
            + "} \n \\end{figure} "@
    }

    /// A figure over the given image and caption.
    pub fn new(img: Image, caption: &str) -> (r: Self)
        ensures
            r.img == img,
            r.caption@ == caption@,
            r.opt@ == Seq::<String>::empty(),
    {
        Self { img, caption: String::from_str(caption), opt: Vec::new() }
    }
}


impl Environment {
    /// Renders this environment to LaTeX text.
    pub(crate) fn render(&self) -> (r: String)
        ensures
            r@ == self.spec_render(),
        decreases *self,
    {
        let mut r = String::from_str("\\begin{");
        r.append(self.name.as_str());
        r.append("}[");
        let opts = join_strings(&self.opt, ", ");
        r.append(opts.as_str());
        r.append("] \n ");
        let comps = render_components(&self.components);
        r.append(comps.as_str());
        r.append(" \n \\end{");
        r.append(self.name.as_str());
        r.append("} \n ");
        proof {
            assert(r@ =~= self.spec_render());
        }
        r
    }
}

impl crate::traits::AsLatex for Environment {
    /// Renders this environment; the result is exactly `spec_render`.
    fn to_string(&self) -> (r: String)
        ensures
            r@ == self.spec_render(),
    {
        self.render()
    }
}

impl crate::traits::Opt for Environment {
    /// Appends one option string.
    fn add_option(&mut self, opt: &str)
        ensures
            final(self).name == old(self).name,
            final(self).components == old(self).components,
            final(self).opt@.len() == old(self).opt@.len() + 1,
            final(self).opt@.drop_last() == old(self).opt@,
            final(self).opt@.last()@ == opt@,
    {
        self.opt.push(String::from_str(opt));
        proof {
            assert(self.opt@.drop_last() =~= old(self).opt@);
        }
    }
}

impl List {
    /// Renders this list to LaTeX text.
    pub(crate) fn render(&self) -> (r: String)
        ensures
            r@ == self.spec_render(),
        decreases *self,
    {
        let mut r = String::from_str("\\begin{");
        r.append(self.typ.as_str());
        r.append("}[");
        let opts = join_strings(&self.opt, ", ");
        r.append(opts.as_str());
        r.append("] \n ");
        let comps = render_items(&self.items);
        r.append(comps.as_str());
        r.append(" \n \\end{");
        r.append(self.typ.as_str());
        r.append("} \n ");
        proof {
            assert(r@ =~= self.spec_render());
        }
        r
    }
}

impl crate::traits::AsLatex for List {
    /// Renders this list; the result is exactly `spec_render`.
    fn to_string(&self) -> (r: String)
        ensures
            r@ == self.spec_render(),
    {
        self.render()
    }
}

impl crate::traits::Opt for List {
    /// Appends one option string.
    fn add_option(&mut self, opt: &str)
        ensures
            final(self).items == old(self).items,
            final(self).typ == old(self).typ,
            final(self).opt@.len() == old(self).opt@.len() + 1,
            final(self).opt@.drop_last() == old(self).opt@,
            final(self).opt@.last()@ == opt@,
    {
        self.opt.push(String::from_str(opt));
        proof {
            assert(self.opt@.drop_last() =~= old(self).opt@);
        }
    }
}

impl Figure {
    /// Renders this figure to LaTeX text.
    pub(crate) fn render(&self) -> (r: String)
        ensures
            r@ == self.spec_render(),
    {
        let mut r = String::from_str("\\begin{figure}[");
        let opts = join_strings(&self.opt, ", ");
        r.append(opts.as_str());
        r.append("] \n \\centering \n ");
        let img = self.img.render();
        r.append(img.as_str());
        r.append(" \n \\caption{");
        r.append(self.caption.as_str());
        r.append("} \n \\end{figure} ");
        proof {
            assert(r@ =~= self.spec_render());
        }
        r
    }
}

impl crate::traits::AsLatex for Figure {
    /// Renders this figure; the result is exactly `spec_render`.
    fn to_string(&self) -> (r: String)
        ensures
            r@ == self.spec_render(),
    {
        self.render()
    }
}

impl crate::traits::Opt for Figure {
    /// Appends one option string.
    fn add_option(&mut self, opt: &str)
        ensures
            final(self).img == old(self).img,
            final(self).caption == old(self).caption,
            final(self).opt@.len() == old(self).opt@.len() + 1,
            final(self).opt@.drop_last() == old(self).opt@,
            final(self).opt@.last()@ == opt@,
    {
        self.opt.push(String::from_str(opt));
        proof {
            assert(self.opt@.drop_last() =~= old(self).opt@);
        }
    }
}


impl crate::traits::Populate for Environment {
    /// Appends one child; the rank policy is enforced one level up, at
    /// the tagged union.
    fn attach(&mut self, other: Component) -> (r: TexResult<()>)
        ensures
            r is Ok,
            final(self).name == old(self).name,
            final(self).opt == old(self).opt,
            final(self).components@ == old(self).components@.push(other),
    {
        self.components.push(other);
        Ok(())
    }

    /// Appends a batch of children in order.
    fn attach_vec(&mut self, other: Vec<Component>) -> (r: TexResult<()>)
        ensures
            r is Ok,
            final(self).name == old(self).name,
            final(self).opt == old(self).opt,
            final(self).components@ == old(self).components@ + other@,
    {
        let mut incoming = other;
        self.components.append(&mut incoming);
        Ok(())
    }
}

impl crate::traits::Populate for List {
    /// Appends one child; the rank policy is enforced one level up, at
    /// the tagged union.
    fn attach(&mut self, other: Component) -> (r: TexResult<()>)
        ensures
            r is Ok,
            final(self).typ == old(self).typ,
            final(self).opt == old(self).opt,
            final(self).items@ == old(self).items@.push(other),
    {
        self.items.push(other);
        Ok(())
    }

    /// Appends a batch of children in order.
    fn attach_vec(&mut self, other: Vec<Component>) -> (r: TexResult<()>)
        ensures
            r is Ok,
            final(self).typ == old(self).typ,
            final(self).opt == old(self).opt,
            final(self).items@ == old(self).items@ + other@,
    {
        let mut incoming = other;
        self.items.append(&mut incoming);
        Ok(())
    }
}

} // verus!
