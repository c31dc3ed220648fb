//! The tagged union wrapping every document element, its structural-rank
//! policy, and the recursive rendering model.

pub mod beamer;
pub mod builtin;
pub mod envs;
pub mod hierarchy;
pub mod image;
pub mod misc;
pub mod table;
pub mod textchunk;

use vstd::prelude::*;
use crate::component::beamer::Block;
use crate::component::beamer::Frame;
use crate::component::builtin::Builtin;
use crate::component::envs::Environment;
use crate::component::envs::Figure;
use crate::component::envs::List;
use crate::component::hierarchy::Chapter;
use crate::component::hierarchy::Line;
use crate::component::hierarchy::Paragraph;
use crate::component::hierarchy::Part;
use crate::component::hierarchy::Section;
use crate::component::hierarchy::Subsection;
use crate::component::image::Image;
use crate::component::misc::Input;
use crate::component::table::Row;
use crate::component::table::Table;
use crate::component::textchunk::TextChunk;
use crate::label::Label;
use crate::label::Reference;
use crate::errors::TexError;
use crate::errors::TexResult;
use crate::traits::Populate;

verus! {

/// One of the document element variants. Almost everything that goes into
/// a document is wrapped in this union before being stored as a child.
#[derive(Debug)]
pub enum Component {
    Part(Part),
    Chapter(Chapter),
    Section(Section),
    Subsection(Subsection),
    Paragraph(Paragraph),
    Line(Line),
    Frame(Frame),
    Block(Block),
    Input(Input),
    Environment(Environment),
    List(List),
    Figure(Figure),
    TextChunk(TextChunk),
    Command(String),
    Image(Image),
    Table(Table),
    Row(Row),
    Builtin(Builtin),
    Label(Label),
    Reference(Reference),
}

impl Component {
    /// The structural rank of each variant: 0 is the most structurally
    /// significant (a part), 10 the least (most leaves). A container may
    /// only accept children whose rank is at least its own.
    pub open spec fn spec_rank(self) -> u8 {
        match self {
            Component::Part(_) => 0,
            Component::Chapter(_) => 1,
            Component::Section(_) => 2,
            Component::Subsection(_) => 3,
            Component::Paragraph(_) => 5,
            Component::Line(_) => 10,
            Component::Frame(_) => 4,
            Component::Block(_) => 5,
            Component::Input(_) => 9,
            Component::Environment(_) => 8,
            Component::List(_) => 7,
            Component::Figure(_) => 8,
            Component::TextChunk(_) => 10,
            Component::Command(_) => 10,
            Component::Image(_) => 10,
            Component::Table(_) => 7,
            Component::Row(_) => 10,
            Component::Builtin(_) => 10,
            Component::Label(_) => 10,
            Component::Reference(_) => 10,
        }
    }

    /// The structural rank of this component.
    pub fn rank(&self) -> (r: u8)
        ensures
            r == self.spec_rank(),
    {
        match self {
            Component::Part(_) => 0,
            Component::Chapter(_) => 1,
            Component::Section(_) => 2,
            Component::Subsection(_) => 3,
            Component::Paragraph(_) => 5,
            Component::Line(_) => 10,
            Component::Frame(_) => 4,
            Component::Block(_) => 5,
            Component::Input(_) => 9,
            Component::Environment(_) => 8,
            Component::List(_) => 7,
            Component::Figure(_) => 8,
            Component::TextChunk(_) => 10,
            Component::Command(_) => 10,
            Component::Image(_) => 10,
            Component::Table(_) => 7,
            Component::Row(_) => 10,
            Component::Builtin(_) => 10,
            Component::Label(_) => 10,
            Component::Reference(_) => 10,
        }
    }

    /// The LaTeX text of this component: each leaf formats itself, each
    /// container recurses into its children.
    pub open spec fn spec_render(self) -> Seq<char>
        decreases self,
    {
        match self {
            Component::Part(x) => x.spec_render(),
            Component::Chapter(x) => x.spec_render(),
            Component::Section(x) => x.spec_render(),
            Component::Subsection(x) => x.spec_render(),
            Component::Paragraph(x) => x.spec_render(),
            Component::Line(x) => x.spec_render(),
            Component::Frame(x) => x.spec_render(),
            Component::Block(x) => x.spec_render(),
            Component::Input(x) => x.spec_render(),
            Component::Environment(x) => x.spec_render(),
            Component::List(x) => x.spec_render(),
            Component::Figure(x) => x.spec_render(),
            Component::TextChunk(x) => x.spec_render(),
            Component::Command(s) => s@,
            Component::Image(x) => x.spec_render(),
            Component::Table(x) => x.spec_render(),
            Component::Row(x) => x.spec_render(),
            Component::Builtin(x) => x.spec_render(),
            Component::Label(x) => x.spec_render(),
            Component::Reference(x) => x.spec_render(),
        }
    }
}

/// The concatenation of the renderings of `s`, in order.
pub open spec fn spec_render_components(s: Seq<Component>) -> Seq<char>
    decreases s,
{
    if s.len() == 0 {
        Seq::empty()
    } else {
        spec_render_components(s.drop_last()) + s.last().spec_render()
    }
}

/// The renderings of `s` joined with `sep` between adjacent ones.
pub open spec fn spec_join_rendered(s: Seq<Component>, sep: Seq<char>) -> Seq<char>
    decreases s,
{
    if s.len() == 0 {
        Seq::empty()
    } else if s.len() == 1 {
        s[0].spec_render()
    } else {
        spec_join_rendered(s.drop_last(), sep) + sep + s.last().spec_render()
    }
}

/// The renderings of `s`, each preceded by an item marker and followed by
/// a newline, concatenated in order.
pub open spec fn spec_render_items(s: Seq<Component>) -> Seq<char>
    decreases s,
{
    if s.len() == 0 {
        Seq::empty()
    } else {
        spec_render_items(s.drop_last()) + "\t\\item "@ + s.last().spec_render() + "\n"@
    }
}

impl Component {
    /// Renders this component to LaTeX text.
    pub(crate) fn render(&self) -> (r: String)
        ensures
            r@ == self.spec_render(),
        decreases *self,
    {
        match self {
            Component::Part(x) => x.render(),
            Component::Chapter(x) => x.render(),
            Component::Section(x) => x.render(),
            Component::Subsection(x) => x.render(),
            Component::Paragraph(x) => x.render(),
            Component::Line(x) => x.render(),
            Component::Frame(x) => x.render(),
            Component::Block(x) => x.render(),
            Component::Input(x) => x.render(),
            Component::Environment(x) => x.render(),
            Component::List(x) => x.render(),
            Component::Figure(x) => x.render(),
            Component::TextChunk(x) => x.render(),
            Component::Command(s) => s.clone(),
            Component::Image(x) => x.render(),
            Component::Table(x) => x.render(),
            Component::Row(x) => x.render(),
            Component::Builtin(x) => x.render(),
            Component::Label(x) => x.render(),
            Component::Reference(x) => x.render(),
        }
    }
}

impl crate::traits::AsLatex for Component {
    /// Renders this component; the result is exactly `spec_render`.
    fn to_string(&self) -> (r: String)
        ensures
            r@ == self.spec_render(),
    {
        self.render()
    }
}

/// Renders every component of `v` and concatenates the results in order.
pub(crate) fn render_components(v: &Vec<Component>) -> (r: String)
    ensures
        r@ == spec_render_components(v@),
    decreases v@,
{
    let mut r = String::new();
    let n = v.len();
    let mut i: usize = 0;
    while i < n
        invariant
            n == v@.len(),
            i <= n,
            r@ == spec_render_components(v@.take(i as int)),
        decreases n - i,
    {
        proof {
            assert(decreases_to!(v@ => v@[i as int]));
        }
        let piece = v[i].render();
        r.append(piece.as_str());
        proof {
            assert(v@.take(i + 1).drop_last() =~= v@.take(i as int));
            assert(v@.take(i + 1).last() == v@[i as int]);
            assert(r@ =~= spec_render_components(v@.take(i + 1)));
        }
        i = i + 1;
    }
    proof {
        assert(v@.take(n as int) =~= v@);
    }
    r
}

/// Renders every component of `v`, each preceded by an item marker and
/// followed by a newline.
pub(crate) fn render_items(v: &Vec<Component>) -> (r: String)
    ensures
        r@ == spec_render_items(v@),
    decreases v@,
{
    let mut r = String::new();
    let n = v.len();
    let mut i: usize = 0;
    while i < n
        invariant
            n == v@.len(),
            i <= n,
            r@ == spec_render_items(v@.take(i as int)),
        decreases n - i,
    {
        proof {
            assert(decreases_to!(v@ => v@[i as int]));
        }
        r.append("\t\\item ");
        let piece = v[i].render();
        r.append(piece.as_str());
        r.append("\n");
        proof {
            assert(v@.take(i + 1).drop_last() =~= v@.take(i as int));
            assert(v@.take(i + 1).last() == v@[i as int]);
            assert(r@ =~= spec_render_items(v@.take(i + 1)));
        }
        i = i + 1;
    }
    proof {
        assert(v@.take(n as int) =~= v@);
    }
    r
}

/// When `parts` holds exactly the renderings of `cells`, joining `parts`
/// with a separator gives the joined rendering of `cells`.
pub proof fn lemma_join_rendered(cells: Seq<Component>, parts: Seq<Seq<char>>, sep: Seq<char>)
    requires
        parts.len() == cells.len(),
        forall|i: int| 0 <= i < cells.len() ==> parts[i] == #[trigger] cells[i].spec_render(),
    ensures
        crate::strutil::spec_join(parts, sep) == spec_join_rendered(cells, sep),
    decreases cells.len(),
{
    if cells.len() == 1 {
        assert(parts[0] == cells[0].spec_render());
    } else if cells.len() > 1 {
        assert forall|i: int|
            0 <= i < cells.drop_last().len() implies parts.drop_last()[i]
            == #[trigger] cells.drop_last()[i].spec_render() by {
            assert(cells.drop_last()[i] == cells[i]);
            assert(parts[i] == cells[i].spec_render());
        }
        lemma_join_rendered(cells.drop_last(), parts.drop_last(), sep);
        assert(parts.last() == cells[cells.len() - 1].spec_render());
    }
}

impl Component {
    /// Whether this variant is a leaf that cannot hold children: such a
    /// variant refuses every attachment.
    pub open spec fn is_leaf(self) -> bool {
        match self {
            Component::Input(_) => true,
            Component::Command(_) => true,
            Component::Image(_) => true,
            Component::Builtin(_) => true,
            Component::Label(_) => true,
            Component::Reference(_) => true,
            Component::Figure(_) => true,
            _ => false,
        }
    }

    /// The name of this component's variant, as reported in attachment
    /// errors on leaves.
    pub open spec fn spec_variant_name(self) -> Seq<char> {
        match self {
            Component::Part(_) => "Part"@,
            Component::Chapter(_) => "Chapter"@,
            Component::Section(_) => "Section"@,
            Component::Subsection(_) => "Subsection"@,
            Component::Paragraph(_) => "Paragraph"@,
            Component::Line(_) => "Line"@,
            Component::Frame(_) => "Frame"@,
            Component::Block(_) => "Block"@,
            Component::Input(_) => "Input"@,
            Component::Environment(_) => "Environment"@,
            Component::List(_) => "List"@,
            Component::Figure(_) => "Figure"@,
            Component::TextChunk(_) => "TextChunk"@,
            Component::Command(_) => "Command"@,
            Component::Image(_) => "Image"@,
            Component::Table(_) => "Table"@,
            Component::Row(_) => "Row"@,
            Component::Builtin(_) => "Builtin"@,
            Component::Label(_) => "Label"@,
            Component::Reference(_) => "Reference"@,
        }
    }
}

/// How a successful single attachment changes a parent: the child is
/// appended to the parent's child sequence (a text-chunk parent instead
/// concatenates the child chunk's body), and every other field is kept.
pub open spec fn spec_attached(pre: Component, child: Component, post: Component) -> bool {
    match (pre, post) {
        (Component::Part(a), Component::Part(b)) => b.name == a.name && b.components@
            == a.components@.push(child),
        (Component::Chapter(a), Component::Chapter(b)) => b.name == a.name && b.components@
            == a.components@.push(child),
        (Component::Section(a), Component::Section(b)) => b.name == a.name && b.components@
            == a.components@.push(child),
        (Component::Subsection(a), Component::Subsection(b)) => b.name == a.name && b.components@
            == a.components@.push(child),
        (Component::Paragraph(a), Component::Paragraph(b)) => b.components@
            == a.components@.push(child),
        (Component::Line(a), Component::Line(b)) => b.components@ == a.components@.push(child),
        (Component::Frame(a), Component::Frame(b)) => b.title == a.title && b.components@
            == a.components@.push(child),
        (Component::Block(a), Component::Block(b)) => b.title == a.title && b.components@
            == a.components@.push(child),
        (Component::Environment(a), Component::Environment(b)) => b.name == a.name && b.opt
            == a.opt && b.components@ == a.components@.push(child),
        (Component::List(a), Component::List(b)) => b.typ == a.typ && b.opt == a.opt && b.items@
            == a.items@.push(child),
        (Component::Table(a), Component::Table(b)) => b.col == a.col && b.head == a.head && b.rows@
            == a.rows@.push(child),
        (Component::Row(a), Component::Row(b)) => b.cells@ == a.cells@.push(child),
        (Component::TextChunk(a), Component::TextChunk(b)) => match child {
            Component::TextChunk(c) => b.typ == a.typ && b.body@ == a.body@ + c.body@,
            _ => false,
        },
        _ => false,
    }
}

/// How a successful batch attachment changes a parent: the children are
/// appended to the parent's child sequence in order (a text-chunk parent
/// instead concatenates the child chunks' bodies), and every other field
/// is kept.
pub open spec fn spec_attached_many(pre: Component, children: Seq<Component>, post: Component) -> bool {
    match (pre, post) {
        (Component::Part(a), Component::Part(b)) => b.name == a.name && b.components@
            == a.components@ + children,
        (Component::Chapter(a), Component::Chapter(b)) => b.name == a.name && b.components@
            == a.components@ + children,
        (Component::Section(a), Component::Section(b)) => b.name == a.name && b.components@
            == a.components@ + children,
        (Component::Subsection(a), Component::Subsection(b)) => b.name == a.name && b.components@
            == a.components@ + children,
        (Component::Paragraph(a), Component::Paragraph(b)) => b.components@ == a.components@
            + children,
        (Component::Line(a), Component::Line(b)) => b.components@ == a.components@ + children,
        (Component::Frame(a), Component::Frame(b)) => b.title == a.title && b.components@
            == a.components@ + children,
        (Component::Block(a), Component::Block(b)) => b.title == a.title && b.components@
            == a.components@ + children,
        (Component::Environment(a), Component::Environment(b)) => b.name == a.name && b.opt
            == a.opt && b.components@ == a.components@ + children,
        (Component::List(a), Component::List(b)) => b.typ == a.typ && b.opt == a.opt && b.items@
            == a.items@ + children,
        (Component::Table(a), Component::Table(b)) => b.col == a.col && b.head == a.head && b.rows@
            == a.rows@ + children,
        (Component::Row(a), Component::Row(b)) => b.cells@ == a.cells@ + children,
        (Component::TextChunk(a), Component::TextChunk(b)) => spec_all_chunks(children) && b.typ
            == a.typ && b.body@ == a.body@ + spec_chunk_bodies(children),
        _ => false,
    }
}

/// Whether every component of `s` is a text chunk.
pub open spec fn spec_all_chunks(s: Seq<Component>) -> bool {
    forall|i: int| 0 <= i < s.len() ==> (#[trigger] s[i]) is TextChunk
}

/// The concatenation of the bodies of the text chunks of `s`, in order.
pub open spec fn spec_chunk_bodies(s: Seq<Component>) -> Seq<char>
    decreases s.len(),
{
    if s.len() == 0 {
        Seq::empty()
    } else {
        spec_chunk_bodies(s.drop_last()) + (match s.last() {
            Component::TextChunk(c) => c.body@,
            _ => Seq::empty(),
        })
    }
}

/// No variant's rank passes ten.
pub proof fn lemma_rank_bound(c: Component)
    ensures
        c.spec_rank() <= 10,
{
}

/// The index of the first component of `s` that is not a text chunk, or
/// `s.len()` when every component is one.
pub open spec fn spec_first_non_chunk(s: Seq<Component>) -> int
    decreases s.len(),
{
    if s.len() == 0 {
        0
    } else if !(s[0] is TextChunk) {
        0
    } else {
        1 + spec_first_non_chunk(s.drop_first())
    }
}

/// A few consequences of the definition of [`spec_first_non_chunk`]: the
/// result never passes the length, it points at a non-chunk when one
/// exists at all, and everything before it is a chunk.
pub proof fn lemma_first_non_chunk(s: Seq<Component>)
    ensures
        0 <= spec_first_non_chunk(s) <= s.len(),
        spec_first_non_chunk(s) < s.len() ==> !(s[spec_first_non_chunk(s)] is TextChunk),
        forall|j: int| 0 <= j < spec_first_non_chunk(s) ==> (#[trigger] s[j]) is TextChunk,
        spec_first_non_chunk(s) == s.len() ==> spec_all_chunks(s),
    decreases s.len(),
{
    if s.len() > 0 && s[0] is TextChunk {
        lemma_first_non_chunk(s.drop_first());
        assert forall|j: int|
            0 <= j < spec_first_non_chunk(s) implies (#[trigger] s[j]) is TextChunk by {
            if j > 0 {
                assert(s.drop_first()[j - 1] == s[j]);
            }
        }
    }
}

/// When everything before index `i` is a chunk and `s[i]` is not, the
/// first non-chunk is exactly at `i`.
pub proof fn lemma_first_non_chunk_at(s: Seq<Component>, i: int)
    requires
        0 <= i < s.len(),
        !(s[i] is TextChunk),
        forall|j: int| 0 <= j < i ==> (#[trigger] s[j]) is TextChunk,
    ensures
        spec_first_non_chunk(s) == i,
    decreases s.len(),
{
    if i > 0 {
        assert forall|j: int| 0 <= j < i - 1 implies (#[trigger] s.drop_first()[j]) is TextChunk by {
            assert(s.drop_first()[j] == s[j + 1]);
        }
        assert(s.drop_first()[i - 1] == s[i]);
        lemma_first_non_chunk_at(s.drop_first(), i - 1);
    }
}

/// The index of the first component of `s` whose rank is below `parent`,
/// or `s.len()` when every component's rank is at least `parent`.
pub open spec fn spec_first_rank_violation(s: Seq<Component>, parent: u8) -> int
    decreases s.len(),
{
    if s.len() == 0 {
        0
    } else if s[0].spec_rank() < parent {
        0
    } else {
        1 + spec_first_rank_violation(s.drop_first(), parent)
    }
}

/// A few consequences of the definition of [`spec_first_rank_violation`]:
/// the result never passes the length, it points at a violation when one
/// exists at all, and nothing before it violates.
pub proof fn lemma_first_rank_violation(s: Seq<Component>, parent: u8)
    ensures
        0 <= spec_first_rank_violation(s, parent) <= s.len(),
        spec_first_rank_violation(s, parent) < s.len() ==> s[spec_first_rank_violation(
            s,
            parent,
        )].spec_rank() < parent,
        forall|j: int|
            0 <= j < spec_first_rank_violation(s, parent) ==> (#[trigger] s[j]).spec_rank()
                >= parent,
    decreases s.len(),
{
    if s.len() > 0 && s[0].spec_rank() >= parent {
        lemma_first_rank_violation(s.drop_first(), parent);
        assert forall|j: int|
            0 <= j < spec_first_rank_violation(s, parent) implies (#[trigger] s[j]).spec_rank()
            >= parent by {
            if j > 0 {
                assert(s.drop_first()[j - 1] == s[j]);
            }
        }
    }
}

/// When nothing before index `i` violates and `s[i]` violates, the first
/// violation is exactly at `i`.
pub proof fn lemma_first_rank_violation_at(s: Seq<Component>, parent: u8, i: int)
    requires
        0 <= i < s.len(),
        s[i].spec_rank() < parent,
        forall|j: int| 0 <= j < i ==> (#[trigger] s[j]).spec_rank() >= parent,
    ensures
        spec_first_rank_violation(s, parent) == i,
    decreases s.len(),
{
    if i > 0 {
        assert forall|j: int|
            0 <= j < i - 1 implies (#[trigger] s.drop_first()[j]).spec_rank() >= parent by {
            assert(s.drop_first()[j] == s[j + 1]);
        }
        assert(s.drop_first()[i - 1] == s[i]);
        lemma_first_rank_violation_at(s.drop_first(), parent, i - 1);
    }
}

impl crate::traits::Populate for Component {
    /// Attaches one child under the structural-rank policy: fails with
    /// `RankMismatch` when the child's rank is below the parent's, with
    /// `TraitUnimplemented` when the parent is a leaf, and with
    /// `RankMismatch` when a text-chunk parent is handed anything but a
    /// text chunk; otherwise the child is appended (or, for a text-chunk
    /// parent, its body concatenated). On failure the parent is unchanged.
    fn attach(&mut self, other: Component) -> (r: TexResult<()>)
        ensures
            ({
                let pre = *old(self);
                let post = *final(self);
                if other.spec_rank() < pre.spec_rank() {
                    &&& r matches Err(e) && e == TexError::RankMismatch(
                        other.spec_rank(),
                        pre.spec_rank(),
                    )
                    &&& post == pre
                } else if pre.is_leaf() {
                    &&& r matches Err(e) && e matches TexError::TraitUnimplemented(nm) && nm@
                        == pre.spec_variant_name()
                    &&& post == pre
                } else if pre is TextChunk && !(other is TextChunk) {
                    &&& r matches Err(e) && e == TexError::RankMismatch(other.spec_rank(), 10)
                    &&& post == pre
                } else {
                    &&& r is Ok
                    &&& spec_attached(pre, other, post)
                }
            }),
    {
        let self_rank = self.rank();
        let other_rank = other.rank();
        if self_rank > other_rank {
            return Err(TexError::RankMismatch(other_rank, self_rank));
        }
        match self {
            Component::Part(x) => x.attach(other),
            Component::Chapter(x) => x.attach(other),
            Component::Section(x) => x.attach(other),
            Component::Subsection(x) => x.attach(other),
            Component::Paragraph(x) => x.attach(other),
            Component::Line(x) => x.attach(other),
            Component::Frame(x) => x.attach(other),
            Component::Block(x) => x.attach(other),
            Component::Environment(x) => x.attach(other),
            Component::List(x) => x.attach(other),
            Component::Table(x) => x.attach(other),
            Component::Row(x) => x.attach(other),
            Component::TextChunk(x) => x.attach(other),
            Component::Input(_) => Err(TexError::TraitUnimplemented(String::from_str("Input"))),
            Component::Command(_) => Err(
                TexError::TraitUnimplemented(String::from_str("Command")),
            ),
            Component::Image(_) => Err(TexError::TraitUnimplemented(String::from_str("Image"))),
            Component::Figure(_) => Err(TexError::TraitUnimplemented(String::from_str("Figure"))),
            Component::Builtin(_) => Err(
                TexError::TraitUnimplemented(String::from_str("Builtin")),
            ),
            Component::Label(_) => Err(TexError::TraitUnimplemented(String::from_str("Label"))),
            Component::Reference(_) => Err(
                TexError::TraitUnimplemented(String::from_str("Reference")),
            ),
        }
    }

    /// Attaches a batch of children atomically: an empty batch fails, a
    /// batch holding any child whose rank is below the parent's fails with
    /// `RankMismatch` naming the first such child's rank, a leaf parent
    /// fails with `TraitUnimplemented`, and a text-chunk parent fails
    /// unless every child is a text chunk. On any failure the parent is
    /// unchanged; on success all children are appended in order.
    fn attach_vec(&mut self, other: Vec<Component>) -> (r: TexResult<()>)
        ensures
            ({
                let pre = *old(self);
                let post = *final(self);
                let v = spec_first_rank_violation(other@, pre.spec_rank());
                if other@.len() == 0 {
                    &&& r matches Err(e) && e matches TexError::WhatEven(m) && m@
                        == "cannot attach an empty batch of children"@
                    &&& post == pre
                } else if v < other@.len() {
                    &&& r matches Err(e) && e == TexError::RankMismatch(
                        other@[v].spec_rank(),
                        pre.spec_rank(),
                    )
                    &&& post == pre
                } else if pre.is_leaf() {
                    &&& r matches Err(e) && e matches TexError::TraitUnimplemented(nm) && nm@
                        == pre.spec_variant_name()
                    &&& post == pre
                } else if pre is TextChunk && !spec_all_chunks(other@) {
                    &&& r matches Err(e) && e == TexError::RankMismatch(10, 10)
                    &&& post == pre
                } else {
                    &&& r is Ok
                    &&& spec_attached_many(pre, other@, post)
                }
            }),
    {
        if other.len() == 0 {
            return Err(
                TexError::WhatEven(String::from_str("cannot attach an empty batch of children")),
            );
        }
        let self_rank = self.rank();
        let n = other.len();
        let mut i: usize = 0;
        while i < n
            invariant
                n == other@.len(),
                i <= n,
                self_rank == self.spec_rank(),
                forall|j: int| 0 <= j < i ==> (#[trigger] other@[j]).spec_rank() >= self_rank,
            decreases n - i,
        {
            let child_rank = other[i].rank();
            if child_rank < self_rank {
                proof {
                    lemma_first_rank_violation_at(other@, self_rank, i as int);
                }
                return Err(TexError::RankMismatch(child_rank, self_rank));
            }
            i = i + 1;
        }
        proof {
            lemma_first_rank_violation(other@, self_rank);
        }
        match self {
            Component::Part(x) => x.attach_vec(other),
            Component::Chapter(x) => x.attach_vec(other),
            Component::Section(x) => x.attach_vec(other),
            Component::Subsection(x) => x.attach_vec(other),
            Component::Paragraph(x) => x.attach_vec(other),
            Component::Line(x) => x.attach_vec(other),
            Component::Frame(x) => x.attach_vec(other),
            Component::Block(x) => x.attach_vec(other),
            Component::Environment(x) => x.attach_vec(other),
            Component::List(x) => x.attach_vec(other),
            Component::Table(x) => x.attach_vec(other),
            Component::Row(x) => x.attach_vec(other),
            Component::TextChunk(x) => {
                proof {
                    assert(self_rank == 10);
                    lemma_first_non_chunk(other@);
                    assert forall|j: int|
                        0 <= j < other@.len() implies (#[trigger] other@[j]).spec_rank() == 10 by {
                        lemma_rank_bound(other@[j]);
                    }
                }
                x.attach_vec(other)
            },
            Component::Input(_) => Err(TexError::TraitUnimplemented(String::from_str("Input"))),
            Component::Command(_) => Err(
                TexError::TraitUnimplemented(String::from_str("Command")),
            ),
            Component::Image(_) => Err(TexError::TraitUnimplemented(String::from_str("Image"))),
            Component::Figure(_) => Err(TexError::TraitUnimplemented(String::from_str("Figure"))),
            Component::Builtin(_) => Err(
                TexError::TraitUnimplemented(String::from_str("Builtin")),
            ),
            Component::Label(_) => Err(TexError::TraitUnimplemented(String::from_str("Label"))),
            Component::Reference(_) => Err(
                TexError::TraitUnimplemented(String::from_str("Reference")),
            ),
        }
    }
}

/// Renders every component of `v` and hands the pieces back in order.
pub(crate) fn render_each(v: &Vec<Component>) -> (r: Vec<String>)
    ensures
        r@.len() == v@.len(),
        forall|i: int| 0 <= i < v@.len() ==> r@[i]@ == #[trigger] v@[i].spec_render(),
    decreases v@,
{
    let mut r: Vec<String> = Vec::new();
    let n = v.len();
    let mut i: usize = 0;
    while i < n
        invariant
            n == v@.len(),
            i <= n,
            r@.len() == i,
            forall|j: int| 0 <= j < i ==> r@[j]@ == #[trigger] v@[j].spec_render(),
        decreases n - i,
    {
        proof {
            assert(decreases_to!(v@ => v@[i as int]));
        }
        let piece = v[i].render();
        r.push(piece);
        i = i + 1;
    }
    r
}

} // verus!
