//! The sectioning containers (part, chapter, section, subsection) and the
//! flowing-text containers (paragraph, line).

use vstd::prelude::*;
use crate::component::Component;
use crate::errors::TexResult;
use crate::component::spec_render_components;
use crate::component::render_components;
use crate::strutil::all_whitespace;
use crate::escape;
use crate::spec_escape;
use crate::spec_escape_set;
use crate::strutil::spec_all_whitespace;

verus! {

/// `\part{}`: only meaningful for the book document class.
#[derive(Debug)]
pub struct Part {
    pub name: String,
    pub components: Vec<Component>,
}

impl Part {
    /// The LaTeX text of this part: its heading, then its children.
    pub open spec fn spec_render(self) -> Seq<char>
        decreases self,
    {
        "\\part{"@ + self.name@ + "} \n "@ + spec_render_components(self.components@) + " \n "@
    }

    /// A new, empty part; the name has the reserved characters escaped.
    pub fn new(name: &str) -> (r: Self)
        ensures
            r.name@ == spec_escape(name@, spec_escape_set(None)),
            r.components@ == Seq::<Component>::empty(),
    {
        Self { name: escape(name, None), components: Vec::new() }
    }

    /// A part over the given children; the name has the reserved
    /// characters escaped.
    pub fn with_components(name: &str, components: Vec<Component>) -> (r: Self)
        ensures
            r.name@ == spec_escape(name@, spec_escape_set(None)),
            r.components == components,
    {
        Self { name: escape(name, None), components }
    }
}

/// `\chapter{}`: only meaningful for the book document class.
#[derive(Debug)]
pub struct Chapter {
    pub name: String,
    pub components: Vec<Component>,
}

impl Chapter {
    /// The LaTeX text of this chapter: its heading, then its children.
    pub open spec fn spec_render(self) -> Seq<char>
        decreases self,
    {
        "\\chapter{"@ + self.name@ + "} \n "@ + spec_render_components(self.components@) + " \n "@
    }

    /// A new, empty chapter; the name has the reserved characters escaped.
    pub fn new(name: &str) -> (r: Self)
        ensures
            r.name@ == spec_escape(name@, spec_escape_set(None)),
            r.components@ == Seq::<Component>::empty(),
    {
        Self { name: escape(name, None), components: Vec::new() }
    }

    /// A chapter over the given children; the name has the reserved
    /// characters escaped.
    pub fn with_components(name: &str, components: Vec<Component>) -> (r: Self)
        ensures
            r.name@ == spec_escape(name@, spec_escape_set(None)),
            r.components == components,
    {
        Self { name: escape(name, None), components }
    }
}

/// `\section{}`: the major partitioning device within a document.
#[derive(Debug)]
pub struct Section {
    pub name: String,
    pub components: Vec<Component>,
}

impl Section {
    /// The LaTeX text of this section: its heading, then its children.
    pub open spec fn spec_render(self) -> Seq<char>
        decreases self,
    {
        "\\section{"@ + self.name@ + "} \n "@ + spec_render_components(self.components@) + " \n "@
    }

    /// A new, empty section; the name has the reserved characters escaped.
    pub fn new(name: &str) -> (r: Self)
        ensures
            r.name@ == spec_escape(name@, spec_escape_set(None)),
            r.components@ == Seq::<Component>::empty(),
    {
        Self { name: escape(name, None), components: Vec::new() }
    }

    /// A section over the given children; the name has the reserved
    /// characters escaped.
    pub fn with_components(name: &str, components: Vec<Component>) -> (r: Self)
        ensures
            r.name@ == spec_escape(name@, spec_escape_set(None)),
            r.components == components,
    {
        Self { name: escape(name, None), components }
    }
}

/// `\subsection{}`.
#[derive(Debug)]
pub struct Subsection {
    pub name: String,
    pub components: Vec<Component>,
}

impl Subsection {
    /// The LaTeX text of this subsection: its heading, then its children.
    pub open spec fn spec_render(self) -> Seq<char>
        decreases self,
    {
        "\\subsection{"@ + self.name@ + "} \n "@ + spec_render_components(self.components@)
            + " \n "@
    }

    /// A new, empty subsection; the name has the reserved characters
    /// escaped.
    pub fn new(name: &str) -> (r: Self)
        ensures
            r.name@ == spec_escape(name@, spec_escape_set(None)),
            r.components@ == Seq::<Component>::empty(),
    {
        Self { name: escape(name, None), components: Vec::new() }
    }

    /// A subsection over the given children; the name has the reserved
    /// characters escaped.
    pub fn with_components(name: &str, components: Vec<Component>) -> (r: Self)
        ensures
            r.name@ == spec_escape(name@, spec_escape_set(None)),
            r.components == components,
    {
        Self { name: escape(name, None), components }
    }
}

/// A block of text bracketed by blank lines: a LaTeX paragraph.
#[derive(Debug)]
pub struct Paragraph {
    pub components: Vec<Component>,
}

impl Paragraph {
    /// The LaTeX text of this paragraph: its children between blank lines.
    pub open spec fn spec_render(self) -> Seq<char>
        decreases self,
    {
        "\n\n "@ + spec_render_components(self.components@) + " \n\n "@
    }

    pub fn new() -> (r: Self)
        ensures
            r.components@ == Seq::<Component>::empty(),
    {
        Self { components: Vec::new() }
    }

    pub fn with_components(components: Vec<Component>) -> (r: Self)
        ensures
            r.components == components,
    {
        Self { components }
    }
}

/// A line terminated by a line break within the document. A line whose
/// children render to nothing but white space renders as a bare newline
/// instead of the terminated form.
#[derive(Debug)]
pub struct Line {
    pub components: Vec<Component>,
}

impl Line {
    /// The LaTeX text of this line: its children followed by a line-break
    /// command, or a bare newline when the children render to only white
    /// space.
    pub open spec fn spec_render(self) -> Seq<char>
        decreases self,
    {
        if spec_all_whitespace(spec_render_components(self.components@)) {
            "\n"@
        } else {
            spec_render_components(self.components@) + " \\\\\n"@
        }
    }

    pub fn new() -> (r: Self)
        ensures
            r.components@ == Seq::<Component>::empty(),
    {
        Self { components: Vec::new() }
    }

    pub fn with_components(components: Vec<Component>) -> (r: Self)
        ensures
            r.components == components,
    {
        Self { components }
    }
}


impl Part {
    /// Renders this part to LaTeX text.
    pub(crate) fn render(&self) -> (r: String)
        ensures
            r@ == self.spec_render(),
        decreases *self,
    {
        let mut r = String::from_str("\\part{");
        r.append(self.name.as_str());
        r.append("} \n ");
        let comps = render_components(&self.components);
        r.append(comps.as_str());
        r.append(" \n ");
        proof {
            assert(r@ =~= self.spec_render());
        }
        r
    }
}

impl crate::traits::AsLatex for Part {
    /// Renders this part; the result is exactly `spec_render`.
    fn to_string(&self) -> (r: String)
        ensures
            r@ == self.spec_render(),
    {
        self.render()
    }
}


impl Chapter {
    /// Renders this chapter to LaTeX text.
    pub(crate) fn render(&self) -> (r: String)
        ensures
            r@ == self.spec_render(),
        decreases *self,
    {
        let mut r = String::from_str("\\chapter{");
        r.append(self.name.as_str());
        r.append("} \n ");
        let comps = render_components(&self.components);
        r.append(comps.as_str());
        r.append(" \n ");
        proof {
            assert(r@ =~= self.spec_render());
        }
        r
    }
}

impl crate::traits::AsLatex for Chapter {
    /// Renders this chapter; the result is exactly `spec_render`.
    fn to_string(&self) -> (r: String)
        ensures
            r@ == self.spec_render(),
    {
        self.render()
    }
}


impl Section {
    /// Renders this section to LaTeX text.
    pub(crate) fn render(&self) -> (r: String)
        ensures
            r@ == self.spec_render(),
        decreases *self,
    {
        let mut r = String::from_str("\\section{");
        r.append(self.name.as_str());
        r.append("} \n ");
        let comps = render_components(&self.components);
        r.append(comps.as_str());
        r.append(" \n ");
        proof {
            assert(r@ =~= self.spec_render());
        }
        r
    }
}

impl crate::traits::AsLatex for Section {
    /// Renders this section; the result is exactly `spec_render`.
    fn to_string(&self) -> (r: String)
        ensures
            r@ == self.spec_render(),
    {
        self.render()
    }
}


impl Subsection {
    /// Renders this subsection to LaTeX text.
    pub(crate) fn render(&self) -> (r: String)
        ensures
            r@ == self.spec_render(),
        decreases *self,
    {
        let mut r = String::from_str("\\subsection{");
        r.append(self.name.as_str());
        r.append("} \n ");
        let comps = render_components(&self.components);
        r.append(comps.as_str());
        r.append(" \n ");
        proof {
            assert(r@ =~= self.spec_render());
        }
        r
    }
}

impl crate::traits::AsLatex for Subsection {
    /// Renders this subsection; the result is exactly `spec_render`.
    fn to_string(&self) -> (r: String)
        ensures
            r@ == self.spec_render(),
    {
        self.render()
    }
}


impl Paragraph {
    /// Renders this paragraph to LaTeX text.
    pub(crate) fn render(&self) -> (r: String)
        ensures
            r@ == self.spec_render(),
        decreases *self,
    {
        let mut r = String::from_str("\n\n ");
        let comps = render_components(&self.components);
        r.append(comps.as_str());
        r.append(" \n\n ");
        proof {
            assert(r@ =~= self.spec_render());
        }
        r
    }
}

impl crate::traits::AsLatex for Paragraph {
    /// Renders this paragraph; the result is exactly `spec_render`.
    fn to_string(&self) -> (r: String)
        ensures
            r@ == self.spec_render(),
    {
        self.render()
    }
}

impl Line {
    /// Renders this line to LaTeX text: a bare newline when the children
    /// render to only white space, the terminated form otherwise.
    pub(crate) fn render(&self) -> (r: String)
        ensures
            r@ == self.spec_render(),
        decreases *self,
    {
        let mut comps = render_components(&self.components);
        if all_whitespace(comps.as_str()) {
            String::from_str("\n")
        } else {
            comps.append(" \\\\\n");
            comps
        }
    }
}

impl crate::traits::AsLatex for Line {
    /// Renders this line; the result is exactly `spec_render`.
    fn to_string(&self) -> (r: String)
        ensures
            r@ == self.spec_render(),
    {
        self.render()
    }
}


impl crate::traits::Populate for Part {
    /// Appends one child; the rank policy is enforced one level up, at
    /// the tagged union.
    fn attach(&mut self, other: Component) -> (r: TexResult<()>)
        ensures
            r is Ok,
            final(self).name == old(self).name,
            final(self).components@ == old(self).components@.push(other),
    {
        self.components.push(other);
        Ok(())
    }

    /// Appends a batch of children in order.
    fn attach_vec(&mut self, other: Vec<Component>) -> (r: TexResult<()>)
        ensures
            r is Ok,
            final(self).name == old(self).name,
            final(self).components@ == old(self).components@ + other@,
    {
        let mut incoming = other;
        self.components.append(&mut incoming);
        Ok(())
    }
}

impl crate::traits::Populate for Chapter {
    /// Appends one child; the rank policy is enforced one level up, at
    /// the tagged union.
    fn attach(&mut self, other: Component) -> (r: TexResult<()>)
        ensures
            r is Ok,
            final(self).name == old(self).name,
            final(self).components@ == old(self).components@.push(other),
    {
        self.components.push(other);
        Ok(())
    }

    /// Appends a batch of children in order.
    fn attach_vec(&mut self, other: Vec<Component>) -> (r: TexResult<()>)
        ensures
            r is Ok,
            final(self).name == old(self).name,
            final(self).components@ == old(self).components@ + other@,
    {
        let mut incoming = other;
        self.components.append(&mut incoming);
        Ok(())
    }
}

impl crate::traits::Populate for Section {
    /// Appends one child; the rank policy is enforced one level up, at
    /// the tagged union.
    fn attach(&mut self, other: Component) -> (r: TexResult<()>)
        ensures
            r is Ok,
            final(self).name == old(self).name,
            final(self).components@ == old(self).components@.push(other),
    {
        self.components.push(other);
        Ok(())
    }

    /// Appends a batch of children in order.
    fn attach_vec(&mut self, other: Vec<Component>) -> (r: TexResult<()>)
        ensures
            r is Ok,
            final(self).name == old(self).name,
            final(self).components@ == old(self).components@ + other@,
    {
        let mut incoming = other;
        self.components.append(&mut incoming);
        Ok(())
    }
}

impl crate::traits::Populate for Subsection {
    /// Appends one child; the rank policy is enforced one level up, at
    /// the tagged union.
    fn attach(&mut self, other: Component) -> (r: TexResult<()>)
        ensures
            r is Ok,
            final(self).name == old(self).name,
            final(self).components@ == old(self).components@.push(other),
    {
        self.components.push(other);
        Ok(())
    }

    /// Appends a batch of children in order.
    fn attach_vec(&mut self, other: Vec<Component>) -> (r: TexResult<()>)
        ensures
            r is Ok,
            final(self).name == old(self).name,
            final(self).components@ == old(self).components@ + other@,
    {
        let mut incoming = other;
        self.components.append(&mut incoming);
        Ok(())
    }
}

impl crate::traits::Populate for Paragraph {
    /// Appends one child; the rank policy is enforced one level up, at
    /// the tagged union.
    fn attach(&mut self, other: Component) -> (r: TexResult<()>)
        ensures
            r is Ok,
            final(self).components@ == old(self).components@.push(other),
    {
        self.components.push(other);
        Ok(())
    }

    /// Appends a batch of children in order.
    fn attach_vec(&mut self, other: Vec<Component>) -> (r: TexResult<()>)
        ensures
            r is Ok,
            final(self).components@ == old(self).components@ + other@,
    {
        let mut incoming = other;
        self.components.append(&mut incoming);
        Ok(())
    }
}

impl crate::traits::Populate for Line {
    /// Appends one child; the rank policy is enforced one level up, at
    /// the tagged union.
    fn attach(&mut self, other: Component) -> (r: TexResult<()>)
        ensures
            r is Ok,
            final(self).components@ == old(self).components@.push(other),
    {
        self.components.push(other);
        Ok(())
    }

    /// Appends a batch of children in order.
    fn attach_vec(&mut self, other: Vec<Component>) -> (r: TexResult<()>)
        ensures
            r is Ok,
            final(self).components@ == old(self).components@ + other@,
    {
        let mut incoming = other;
        self.components.append(&mut incoming);
        Ok(())
    }
}


/// A line whose children render to nothing but white space renders as a
/// bare newline, not the normal terminated form.
pub proof fn lemma_line_whitespace_collapses(l: Line)
    requires
        spec_all_whitespace(spec_render_components(l.components@)),
    ensures
        l.spec_render() == "\n"@,
{
}

} // verus!
