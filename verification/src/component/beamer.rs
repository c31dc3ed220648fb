//! Slide-show containers: frames and blocks.

use vstd::prelude::*;
use crate::component::Component;
use crate::errors::TexResult;
use crate::component::spec_render_components;
use crate::component::render_components;

verus! {

/// A titled box on a slide.
#[derive(Debug)]
pub struct Block {
    pub title: String,
    pub components: Vec<Component>,
}

impl Block {
    /// The LaTeX text of this block: a `block` environment holding the
    /// children.
    pub open spec fn spec_render(self) -> Seq<char>
        decreases self,
    {
        "\\begin{block}{"@ + self.title@ + "} \n "@ + spec_render_components(self.components@)
            + " \\end{block} \n "@
    }

    pub fn new(title: &str) -> (r: Self)
        ensures
            r.title@ == title@,
            r.components@ == Seq::<Component>::empty(),
    {
        Self { title: String::from_str(title), components: Vec::new() }
    }

    pub fn new_untitled() -> (r: Self)
        ensures
            r.title@ == Seq::<char>::empty(),
            r.components@ == Seq::<Component>::empty(),
    {
        let r = Self::new("");
        proof {
            reveal_strlit("");
            assert(r.title@ =~= Seq::<char>::empty());
        }
        r
    }

    pub fn untitled_with_components(components: Vec<Component>) -> (r: Self)
        ensures
            r.title@ == Seq::<char>::empty(),
            r.components == components,
    {
        let r = Self::with_components("", components);
        proof {
            reveal_strlit("");
            assert(r.title@ =~= Seq::<char>::empty());
        }
        r
    }

    pub fn with_components(title: &str, components: Vec<Component>) -> (r: Self)
        ensures
            r.title@ == title@,
            r.components == components,
    {
        Self { title: String::from_str(title), components }
    }
}

/// One slide of a slide-show document.
#[derive(Debug)]
pub struct Frame {
    pub title: String,
    pub components: Vec<Component>,
}

impl Frame {
    /// The LaTeX text of this frame: a `frame` environment holding the
    /// children.
    pub open spec fn spec_render(self) -> Seq<char>
        decreases self,
    {
        "\\begin{frame}{"@ + self.title@ + "} \n "@ + spec_render_components(self.components@)
            + " \\end{frame} \n "@
    }

    pub fn new(title: &str) -> (r: Self)
        ensures
            r.title@ == title@,
            r.components@ == Seq::<Component>::empty(),
    {
        Self { title: String::from_str(title), components: Vec::new() }
    }

    pub fn new_untitled() -> (r: Self)
        ensures
            r.title@ == Seq::<char>::empty(),
            r.components@ == Seq::<Component>::empty(),
    {
        let r = Self::new("");
        proof {
            reveal_strlit("");
            assert(r.title@ =~= Seq::<char>::empty());
        }
        r
    }

    pub fn untitled_with_components(components: Vec<Component>) -> (r: Self)
        ensures
            r.title@ == Seq::<char>::empty(),
            r.components == components,
    {
        let r = Self::with_components("", components);
        proof {
            reveal_strlit("");
            assert(r.title@ =~= Seq::<char>::empty());
        }
        r
    }

    pub fn with_components(title: &str, components: Vec<Component>) -> (r: Self)
        ensures
            r.title@ == title@,
            r.components == components,
    {
        Self { title: String::from_str(title), components }
    }
}


impl Block {
    /// Renders this block to LaTeX text.
    pub(crate) fn render(&self) -> (r: String)
        ensures
            r@ == self.spec_render(),
        decreases *self,
    {
        let mut r = String::from_str("\\begin{block}{");
        r.append(self.title.as_str());
        r.append("} \n ");
        let comps = render_components(&self.components);
        r.append(comps.as_str());
        r.append(" \\end{block} \n ");
        proof {
            assert(r@ =~= self.spec_render());
        }
        r
    }
}

impl crate::traits::AsLatex for Block {
    /// Renders this block; the result is exactly `spec_render`.
    fn to_string(&self) -> (r: String)
        ensures
            r@ == self.spec_render(),
    {
        self.render()
    }
}

impl Frame {
    /// Renders this frame to LaTeX text.
    pub(crate) fn render(&self) -> (r: String)
        ensures
            r@ == self.spec_render(),
        decreases *self,
    {
        let mut r = String::from_str("\\begin{frame}{");
        r.append(self.title.as_str());
        r.append("} \n ");
        let comps = render_components(&self.components);
        r.append(comps.as_str());
        r.append(" \\end{frame} \n ");
        proof {
            assert(r@ =~= self.spec_render());
        }
        r
    }
}

impl crate::traits::AsLatex for Frame {
    /// Renders this frame; the result is exactly `spec_render`.
    fn to_string(&self) -> (r: String)
        ensures
            r@ == self.spec_render(),
    {
        self.render()
    }
}


impl crate::traits::Populate for Frame {
    /// Appends one child; the rank policy is enforced one level up, at
    /// the tagged union.
    fn attach(&mut self, other: Component) -> (r: TexResult<()>)
        ensures
            r is Ok,
            final(self).title == old(self).title,
            final(self).components@ == old(self).components@.push(other),
    {
        self.components.push(other);
        Ok(())
    }

    /// Appends a batch of children in order.
    fn attach_vec(&mut self, other: Vec<Component>) -> (r: TexResult<()>)
        ensures
            r is Ok,
            final(self).title == old(self).title,
            final(self).components@ == old(self).components@ + other@,
    {
        let mut incoming = other;
        self.components.append(&mut incoming);
        Ok(())
    }
}

impl crate::traits::Populate for Block {
    /// Appends one child; the rank policy is enforced one level up, at
    /// the tagged union.
    fn attach(&mut self, other: Component) -> (r: TexResult<()>)
        ensures
            r is Ok,
            final(self).title == old(self).title,
            final(self).components@ == old(self).components@.push(other),
    {
        self.components.push(other);
        Ok(())
    }

    /// Appends a batch of children in order.
    fn attach_vec(&mut self, other: Vec<Component>) -> (r: TexResult<()>)
        ensures
            r is Ok,
            final(self).title == old(self).title,
            final(self).components@ == old(self).components@ + other@,
    {
        let mut incoming = other;
        self.components.append(&mut incoming);
        Ok(())
    }
}

} // verus!
