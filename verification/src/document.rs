//! The root aggregate: a document owns its class, packages, macros,
//! metadata and top-level components, and renders them in a fixed order.

mod doc_class;
mod metadata;
mod package;

pub use doc_class::DocumentClass;
pub use doc_class::DocumentClassType;
pub use doc_class::spec_class_type_of;
pub use metadata::Metadata;
pub use package::Package;

use vstd::prelude::*;
use crate::commands::Command;
use crate::component::Component;
use crate::component::spec_render_components;
use crate::component::render_components;
use crate::errors::TexError;
use crate::errors::TexResult;
use crate::strutil::spec_braced_comma_list;
use crate::strutil::braced_comma_list;
use crate::strutil::str_eq;

verus! {

/// The concatenation of the `\usepackage` lines of `s`, in order.
pub open spec fn spec_render_packages(s: Seq<Package>) -> Seq<char>
    decreases s.len(),
{
    if s.len() == 0 {
        Seq::empty()
    } else {
        spec_render_packages(s.drop_last()) + s.last().spec_render()
    }
}

/// The concatenation of the `\newcommand` declarations of `s`, each
/// followed by a space and a newline, in order.
pub open spec fn spec_render_commands(s: Seq<Command>) -> Seq<char>
    decreases s.len(),
{
    if s.len() == 0 {
        Seq::empty()
    } else {
        spec_render_commands(s.drop_last()) + s.last().spec_declare() + " \n"@
    }
}

/// The `\graphicspath` directive for the given search paths, or nothing
/// when no search path was ever set.
pub open spec fn spec_render_gpath(g: Option<Vec<String>>) -> Seq<char> {
    match g {
        Some(p) => "\\graphicspath{"@ + spec_braced_comma_list(p@.map_values(|s: String| s@))
            + "} \n"@,
        None => Seq::empty(),
    }
}

/// The rendering of the automatically generated title-page frame of a
/// slide-show document.
pub open spec fn spec_title_frame() -> Seq<char> {
    "\\begin{frame}{} \n \\titlepage  \\end{frame} \n "@
}

/// The rendering of the automatically generated table-of-contents frame
/// of a slide-show document.
pub open spec fn spec_toc_frame() -> Seq<char> {
    "\\begin{frame}{} \n \\tableofcontents  \\end{frame} \n "@
}

/// What a document emits right after the body opens: for the slide-show
/// class a title-page frame and, when the table of contents is enabled, a
/// table-of-contents frame, each followed by a newline; for every other
/// class a bare newline.
pub open spec fn spec_beamer_preamble(md: Metadata) -> Seq<char> {
    if md.class.typ is Beamer {
        spec_title_frame() + "\n"@ + (if md.tableofcontents {
            spec_toc_frame()
        } else {
            Seq::empty()
        }) + "\n"@
    } else {
        "\n"@
    }
}

/// The index of the first command of `s` named `name`, or `s.len()` when
/// no command has that name.
pub open spec fn spec_find_command(s: Seq<Command>, name: Seq<char>) -> int
    decreases s.len(),
{
    if s.len() == 0 {
        0
    } else if s[0].name@ == name {
        0
    } else {
        1 + spec_find_command(s.drop_first(), name)
    }
}

/// A few consequences of the definition of [`spec_find_command`]: the
/// result never passes the length, it points at a command with the name
/// when one exists at all, and nothing before it has the name.
pub proof fn lemma_find_command(s: Seq<Command>, name: Seq<char>)
    ensures
        0 <= spec_find_command(s, name) <= s.len(),
        spec_find_command(s, name) < s.len() ==> s[spec_find_command(s, name)].name@ == name,
        forall|j: int| 0 <= j < spec_find_command(s, name) ==> (#[trigger] s[j]).name@ != name,
    decreases s.len(),
{
    if s.len() > 0 && s[0].name@ != name {
        lemma_find_command(s.drop_first(), name);
        assert forall|j: int|
            0 <= j < spec_find_command(s, name) implies (#[trigger] s[j]).name@ != name by {
            if j > 0 {
                assert(s.drop_first()[j - 1] == s[j]);
            }
        }
    }
}

/// When nothing before index `i` has the name and `s[i]` has it, the
/// first command with the name is exactly at `i`.
pub proof fn lemma_find_command_at(s: Seq<Command>, name: Seq<char>, i: int)
    requires
        0 <= i < s.len(),
        s[i].name@ == name,
        forall|j: int| 0 <= j < i ==> (#[trigger] s[j]).name@ != name,
    ensures
        spec_find_command(s, name) == i,
    decreases s.len(),
{
    if i > 0 {
        assert forall|j: int|
            0 <= j < i - 1 implies (#[trigger] s.drop_first()[j]).name@ != name by {
            assert(s.drop_first()[j] == s[j + 1]);
        }
        assert(s.drop_first()[i - 1] == s[i]);
        lemma_find_command_at(s.drop_first(), name, i - 1);
    }
}

/// The king of the land: documents are where everything starts. Owns the
/// metadata, the package list, the named-macro registry (insertion order,
/// last declaration wins) and the top-level components.
#[derive(Debug)]
pub struct Document {
    pub packages: Vec<Package>,
    pub metadata: Metadata,
    pub components: Vec<Component>,
    pub commands: Vec<Command>,
    pub img: bool,
    pub href: bool,
    pub scratch: bool,
    pub graphics_path: Option<Vec<String>>,
}

impl Document {
    /// Well-formedness of the macro registry: names are unique, so the
    /// registry behaves as an insertion-ordered map.
    pub open spec fn wf(self) -> bool {
        forall|i: int, j: int|
            0 <= i < j < self.commands@.len() ==> (#[trigger] self.commands@[i].name@) != (
            #[trigger] self.commands@[j].name@)
    }

    /// The full rendering, in fixed order: the class line, the packages,
    /// the macro declarations in registration order, the graphics path,
    /// the body opening, the slide-show preamble, the metadata block
    /// (suppressed in scratch mode), the components, and the body close.
    pub open spec fn spec_render(self) -> Seq<char> {
        self.metadata.class.spec_render() + "\n"@ + spec_render_packages(self.packages@) + "\n"@
            + spec_render_commands(self.commands@) + "\n"@ + spec_render_gpath(self.graphics_path)
            + "\\begin{document}\n"@ + spec_beamer_preamble(self.metadata) + (if !self.scratch {
            self.metadata.spec_render()
        } else {
            "\n"@
        }) + "\n"@ + spec_render_components(self.components@) + "\n\\end{document}"@
    }

    /// A new document of the given class, titled "title" by "author",
    /// with the two default packages (graphics and cross-linking
    /// support) already registered; each can be revoked individually.
    pub fn new(class: DocumentClass) -> (r: Self)
        ensures
            r.metadata.class == class,
            r.metadata.title@ == "title"@,
            r.metadata.author@.len() == 1,
            r.metadata.author@[0]@ == "author"@,
            r.metadata.maketitle,
            !r.metadata.tableofcontents,
            !r.metadata.date,
            r.packages@.len() == 2,
            r.packages@[0].name@ == "graphicx"@,
            r.packages@[0].opt@ == Seq::<String>::empty(),
            r.packages@[1].name@ == "hyperref"@,
            r.packages@[1].opt@ == Seq::<String>::empty(),
            r.components@ == Seq::<Component>::empty(),
            r.commands@ == Seq::<Command>::empty(),
            r.img,
            r.href,
            !r.scratch,
            r.graphics_path is None,
            r.wf(),
    {
        let author: [&str; 1] = ["author"];
        let mut out = Self {
            packages: Vec::new(),
            metadata: Metadata::new(class, "title", author.as_slice()),
            components: Vec::new(),
            commands: Vec::new(),
            img: true,
            href: true,
            scratch: false,
            graphics_path: None,
        };
        out.new_package(Package::new("graphicx"));
        out.new_package(Package::new("hyperref"));
        out
    }

    /// Looks the named macro up: the first (and, in a well-formed
    /// document, only) command with that name, or `Undefined` when none
    /// has it.
    pub fn get_command(&self, cmd: &str) -> (r: TexResult<Command>)
        ensures
            ({
                let idx = spec_find_command(self.commands@, cmd@);
                if idx < self.commands@.len() {
                    r matches Ok(c) && c == self.commands@[idx]
                } else {
                    r == Err::<Command, TexError>(TexError::Undefined)
                }
            }),
    {
        let n = self.commands.len();
        let mut i: usize = 0;
        while i < n
            invariant
                n == self.commands@.len(),
                i <= n,
                forall|j: int| 0 <= j < i ==> (#[trigger] self.commands@[j]).name@ != cmd@,
            decreases n - i,
        {
            if str_eq(self.commands[i].name.as_str(), cmd) {
                proof {
                    lemma_find_command_at(self.commands@, cmd@, i as int);
                }
                let found = &self.commands[i];
                return Ok(
                    Command {
                        name: found.name.clone(),
                        nargs: found.nargs,
                        def: found.def.clone(),
                    },
                );
            }
            i = i + 1;
        }
        proof {
            lemma_find_command(self.commands@, cmd@);
        }
        Err(TexError::Undefined)
    }

    /// Marks the document as a scratch fragment: the metadata block is
    /// suppressed entirely when rendering.
    pub fn scratch(&mut self)
        ensures
            *final(self) == (Document { scratch: true, ..*old(self) }),
    {
        self.scratch = true;
    }

    /// Registers a macro under its name: a name collision overwrites the
    /// earlier declaration in place (last declaration wins), keeping its
    /// position; a new name is appended. Registry well-formedness is
    /// preserved.
    pub fn new_command(&mut self, c: Command)
        ensures
            ({
                let idx = spec_find_command(old(self).commands@, c.name@);
                if idx < old(self).commands@.len() {
                    final(self).commands@ == old(self).commands@.update(idx, c)
                } else {
                    final(self).commands@ == old(self).commands@.push(c)
                }
            }),
            final(self).packages == old(self).packages,
            final(self).metadata == old(self).metadata,
            final(self).components == old(self).components,
            final(self).img == old(self).img,
            final(self).href == old(self).href,
            final(self).scratch == old(self).scratch,
            final(self).graphics_path == old(self).graphics_path,
            old(self).wf() ==> final(self).wf(),
    {
        let n = self.commands.len();
        let mut i: usize = 0;
        while i < n
            invariant
                *self == *old(self),
                n == self.commands@.len(),
                i <= n,
                forall|j: int| 0 <= j < i ==> (#[trigger] self.commands@[j]).name@ != c.name@,
            decreases n - i,
        {
            if str_eq(self.commands[i].name.as_str(), c.name.as_str()) {
                proof {
                    lemma_find_command_at(self.commands@, c.name@, i as int);
                }
                let ghost pre = *self;
                self.commands.set(i, c);
                proof {
                    if pre.wf() {
                        assert forall|a: int, b: int|
                            0 <= a < b < self.commands@.len() implies (
                        #[trigger] self.commands@[a].name@) != (
                        #[trigger] self.commands@[b].name@) by {
                            assert(pre.commands@[a].name@ != pre.commands@[b].name@);
                        }
                    }
                }
                return ;
            }
            i = i + 1;
        }
        proof {
            lemma_find_command(self.commands@, c.name@);
        }
        let ghost pre = *self;
        self.commands.push(c);
        proof {
            if pre.wf() {
                assert forall|a: int, b: int|
                    0 <= a < b < self.commands@.len() implies (
                #[trigger] self.commands@[a].name@) != (#[trigger] self.commands@[b].name@) by {
                    if b < pre.commands@.len() {
                        assert(pre.commands@[a].name@ != pre.commands@[b].name@);
                    } else {
                        assert(pre.commands@[a].name@ != c.name@);
                    }
                }
            }
        }
    }

    /// Appends one top-level component; the document has no rank ceiling
    /// of its own, so this always succeeds.
    pub fn new_component(&mut self, new: Component)
        ensures
            final(self).components@ == old(self).components@.push(new),
            final(self).packages == old(self).packages,
            final(self).metadata == old(self).metadata,
            final(self).commands == old(self).commands,
            final(self).img == old(self).img,
            final(self).href == old(self).href,
            final(self).scratch == old(self).scratch,
            final(self).graphics_path == old(self).graphics_path,
    {
        self.components.push(new);
    }

    /// Sets the title and the author list.
    pub fn set_md(&mut self, title: &str, author: &[&str])
        ensures
            final(self).metadata.title@ == title@,
            final(self).metadata.author@.len() == author@.len(),
            forall|i: int|
                0 <= i < author@.len() ==> final(self).metadata.author@[i]@ == (
                #[trigger] author@[i])@,
            final(self).metadata.class == old(self).metadata.class,
            final(self).metadata.maketitle == old(self).metadata.maketitle,
            final(self).metadata.tableofcontents == old(self).metadata.tableofcontents,
            final(self).metadata.date == old(self).metadata.date,
            final(self).packages == old(self).packages,
            final(self).components == old(self).components,
            final(self).commands == old(self).commands,
            final(self).img == old(self).img,
            final(self).href == old(self).href,
            final(self).scratch == old(self).scratch,
            final(self).graphics_path == old(self).graphics_path,
    {
        self.metadata.title = String::from_str(title);
        let mut authors: Vec<String> = Vec::new();
        let n = author.len();
        let mut i: usize = 0;
        while i < n
            invariant
                n == author@.len(),
                i <= n,
                authors@.len() == i,
                forall|j: int| 0 <= j < i ==> authors@[j]@ == (#[trigger] author@[j])@,
            decreases n - i,
        {
            authors.push(String::from_str(author[i]));
            i = i + 1;
        }
        self.metadata.author = authors;
    }

    /// Registers one more package; duplicates are kept and emitted again.
    pub fn new_package(&mut self, new: Package)
        ensures
            final(self).packages@ == old(self).packages@.push(new),
            final(self).metadata == old(self).metadata,
            final(self).components == old(self).components,
            final(self).commands == old(self).commands,
            final(self).img == old(self).img,
            final(self).href == old(self).href,
            final(self).scratch == old(self).scratch,
            final(self).graphics_path == old(self).graphics_path,
    {
        self.packages.push(new);
    }

    /// Enables graphics support: registers the graphics package once
    /// more and replaces the image search path list with the given base
    /// path.
    pub fn enable_graphicx(&mut self, path: &str)
        ensures
            final(self).img,
            final(self).packages@.len() == old(self).packages@.len() + 1,
            final(self).packages@.drop_last() == old(self).packages@,
            final(self).packages@.last().name@ == "graphicx"@,
            final(self).packages@.last().opt@ == Seq::<String>::empty(),
            final(self).graphics_path matches Some(p) && p@.len() == 1 && p@[0]@ == path@,
            final(self).metadata == old(self).metadata,
            final(self).components == old(self).components,
            final(self).commands == old(self).commands,
            final(self).href == old(self).href,
            final(self).scratch == old(self).scratch,
    {
        self.img = true;
        self.packages.push(Package::new("graphicx"));
        let mut paths: Vec<String> = Vec::new();
        paths.push(String::from_str(path));
        self.graphics_path = Some(paths);
        proof {
            assert(self.packages@.drop_last() =~= old(self).packages@);
        }
    }

    /// Disables graphics support: every package named `graphicx` is
    /// removed, however often it was registered, and the image search
    /// path list is cleared.
    pub fn disable_graphicx(&mut self)
        ensures
            !final(self).img,
            final(self).packages@ == old(self).packages@.filter(
                |p: Package| p.name@ != "graphicx"@,
            ),
            forall|i: int|
                0 <= i < final(self).packages@.len()
                    ==> (#[trigger] final(self).packages@[i]).name@ != "graphicx"@,
            final(self).graphics_path is None,
            final(self).metadata == old(self).metadata,
            final(self).components == old(self).components,
            final(self).commands == old(self).commands,
            final(self).href == old(self).href,
            final(self).scratch == old(self).scratch,
    {
        self.img = false;
        remove_packages_named(&mut self.packages, "graphicx");
        self.graphics_path = None;
    }

    /// Enables cross-link support: registers the hyperref package once
    /// more.
    pub fn enable_hyperref(&mut self)
        ensures
            final(self).href,
            final(self).packages@.len() == old(self).packages@.len() + 1,
            final(self).packages@.drop_last() == old(self).packages@,
            final(self).packages@.last().name@ == "hyperref"@,
            final(self).packages@.last().opt@ == Seq::<String>::empty(),
            final(self).metadata == old(self).metadata,
            final(self).components == old(self).components,
            final(self).commands == old(self).commands,
            final(self).img == old(self).img,
            final(self).scratch == old(self).scratch,
            final(self).graphics_path == old(self).graphics_path,
    {
        self.href = true;
        self.packages.push(Package::new("hyperref"));
        proof {
            assert(self.packages@.drop_last() =~= old(self).packages@);
        }
    }

    /// Disables cross-link support: every package named `hyperref` is
    /// removed, however often it was registered.
    pub fn disable_hyperref(&mut self)
        ensures
            !final(self).href,
            final(self).packages@ == old(self).packages@.filter(
                |p: Package| p.name@ != "hyperref"@,
            ),
            forall|i: int|
                0 <= i < final(self).packages@.len()
                    ==> (#[trigger] final(self).packages@[i]).name@ != "hyperref"@,
            final(self).metadata == old(self).metadata,
            final(self).components == old(self).components,
            final(self).commands == old(self).commands,
            final(self).img == old(self).img,
            final(self).scratch == old(self).scratch,
            final(self).graphics_path == old(self).graphics_path,
    {
        self.href = false;
        remove_packages_named(&mut self.packages, "hyperref");
    }

    /// Appends one more image search path. Graphics support must have
    /// been enabled first: calling this with no base path set is a caller
    /// error.
    pub fn push_gpath(&mut self, path: &str)
        requires
            old(self).graphics_path is Some,
        ensures
            final(self).graphics_path matches Some(p) && old(self).graphics_path matches Some(q)
                && p@.len() == q@.len() + 1 && p@.drop_last() == q@ && p@.last()@ == path@,
            final(self).packages == old(self).packages,
            final(self).metadata == old(self).metadata,
            final(self).components == old(self).components,
            final(self).commands == old(self).commands,
            final(self).img == old(self).img,
            final(self).href == old(self).href,
            final(self).scratch == old(self).scratch,
    {
        match &mut self.graphics_path {
            Some(paths) => {
                paths.push(String::from_str(path));
                proof {
                    assert(paths@.drop_last() =~= old(self).graphics_path->0@);
                }
            },
            None => {
                proof {
                    assert(false);
                }
            },
        }
    }

    /// Renders the whole document.
    pub(crate) fn render(&self) -> (r: String)
        ensures
            r@ == self.spec_render(),
    {
        let mut r = self.metadata.class.render();
        r.append("\n");
        let pkgs = render_packages(&self.packages);
        r.append(pkgs.as_str());
        r.append("\n");
        let cmds = render_commands(&self.commands);
        r.append(cmds.as_str());
        r.append("\n");
        match &self.graphics_path {
            Some(paths) => {
                r.append("\\graphicspath{");
                let braced = braced_comma_list(paths);
                r.append(braced.as_str());
                r.append("} \n");
            },
            None => {},
        }
        r.append("\\begin{document}\n");
        proof {
            assert(r@ =~= self.metadata.class.spec_render() + "\n"@ + spec_render_packages(
                self.packages@,
            ) + "\n"@ + spec_render_commands(self.commands@) + "\n"@ + spec_render_gpath(
                self.graphics_path,
            ) + "\\begin{document}\n"@);
        }
        if self.metadata.class.typ == DocumentClassType::Beamer {
            r.append("\\begin{frame}{} \n \\titlepage  \\end{frame} \n ");
            r.append("\n");
            if self.metadata.tableofcontents {
                r.append("\\begin{frame}{} \n \\tableofcontents  \\end{frame} \n ");
            }
            r.append("\n");
        } else {
            r.append("\n");
        }
        if !self.scratch {
            let md = self.metadata.render();
            r.append(md.as_str());
        } else {
            r.append("\n");
        }
        r.append("\n");
        let body = render_components(&self.components);
        r.append(body.as_str());
        r.append("\n\\end{document}");
        proof {
            assert(r@ =~= self.spec_render());
        }
        r
    }
}

impl crate::traits::AsLatex for Document {
    /// Renders this document; the result is exactly `spec_render`, so
    /// rendering the same unmodified document twice yields identical
    /// output.
    fn to_string(&self) -> (r: String)
        ensures
            r@ == self.spec_render(),
    {
        self.render()
    }
}

impl crate::traits::Opt for Document {
    /// Appends one option string to the document class.
    fn add_option(&mut self, opt: &str)
        ensures
            final(self).metadata.class.typ == old(self).metadata.class.typ,
            final(self).metadata.class.opt@.len() == old(self).metadata.class.opt@.len() + 1,
            final(self).metadata.class.opt@.drop_last() == old(self).metadata.class.opt@,
            final(self).metadata.class.opt@.last()@ == opt@,
            final(self).metadata.title == old(self).metadata.title,
            final(self).metadata.author == old(self).metadata.author,
            final(self).metadata.maketitle == old(self).metadata.maketitle,
            final(self).metadata.tableofcontents == old(self).metadata.tableofcontents,
            final(self).metadata.date == old(self).metadata.date,
            final(self).packages == old(self).packages,
            final(self).components == old(self).components,
            final(self).commands == old(self).commands,
            final(self).img == old(self).img,
            final(self).href == old(self).href,
            final(self).scratch == old(self).scratch,
            final(self).graphics_path == old(self).graphics_path,
    {
        self.metadata.class.opt.push(String::from_str(opt));
        proof {
            assert(self.metadata.class.opt@.drop_last() =~= old(self).metadata.class.opt@);
        }
    }
}

impl crate::traits::Populate for Document {
    /// Appends one top-level component; always succeeds, since the
    /// document has no rank ceiling of its own.
    fn attach(&mut self, other: Component) -> (r: TexResult<()>)
        ensures
            r is Ok,
            final(self).components@ == old(self).components@.push(other),
            final(self).packages == old(self).packages,
            final(self).metadata == old(self).metadata,
            final(self).commands == old(self).commands,
            final(self).img == old(self).img,
            final(self).href == old(self).href,
            final(self).scratch == old(self).scratch,
            final(self).graphics_path == old(self).graphics_path,
    {
        self.new_component(other);
        Ok(())
    }

    /// Appends a batch of top-level components in order; always succeeds.
    fn attach_vec(&mut self, other: Vec<Component>) -> (r: TexResult<()>)
        ensures
            r is Ok,
            final(self).components@ == old(self).components@ + other@,
            final(self).packages == old(self).packages,
            final(self).metadata == old(self).metadata,
            final(self).commands == old(self).commands,
            final(self).img == old(self).img,
            final(self).href == old(self).href,
            final(self).scratch == old(self).scratch,
            final(self).graphics_path == old(self).graphics_path,
    {
        let mut incoming = other;
        self.components.append(&mut incoming);
        Ok(())
    }
}

/// Renders the `\usepackage` line of every package of `v`, concatenated
/// in order.
fn render_packages(v: &Vec<Package>) -> (r: String)
    ensures
        r@ == spec_render_packages(v@),
{
    let mut r = String::new();
    let n = v.len();
    let mut i: usize = 0;
    while i < n
        invariant
            n == v@.len(),
            i <= n,
            r@ == spec_render_packages(v@.take(i as int)),
        decreases n - i,
    {
        let piece = v[i].render();
        r.append(piece.as_str());
        proof {
            assert(v@.take(i + 1).drop_last() =~= v@.take(i as int));
            assert(v@.take(i + 1).last() == v@[i as int]);
            assert(r@ =~= spec_render_packages(v@.take(i + 1)));
        }
        i = i + 1;
    }
    proof {
        assert(v@.take(n as int) =~= v@);
    }
    r
}

/// Renders the `\newcommand` declaration of every command of `v`, each
/// followed by a space and a newline, concatenated in order.
fn render_commands(v: &Vec<Command>) -> (r: String)
    ensures
        r@ == spec_render_commands(v@),
{
    let mut r = String::new();
    let n = v.len();
    let mut i: usize = 0;
    while i < n
        invariant
            n == v@.len(),
            i <= n,
            r@ == spec_render_commands(v@.take(i as int)),
        decreases n - i,
    {
        let piece = v[i].declare();
        r.append(piece.as_str());
        r.append(" \n");
        proof {
            assert(v@.take(i + 1).drop_last() =~= v@.take(i as int));
            assert(v@.take(i + 1).last() == v@[i as int]);
            assert(r@ =~= spec_render_commands(v@.take(i + 1)));
        }
        i = i + 1;
    }
    proof {
        assert(v@.take(n as int) =~= v@);
    }
    r
}

/// Removes every package with the given name, keeping the others in
/// their original order.
fn remove_packages_named(pkgs: &mut Vec<Package>, name: &str)
    ensures
        final(pkgs)@ == old(pkgs)@.filter(|p: Package| p.name@ != name@),
        forall|i: int|
            0 <= i < final(pkgs)@.len() ==> (#[trigger] final(pkgs)@[i]).name@ != name@,
{
    let ghost pred = |p: Package| p.name@ != name@;
    let ghost orig = pkgs@;
    let mut stack: Vec<Package> = Vec::new();
    while pkgs.len() > 0
        invariant
            pkgs@.len() <= orig.len(),
            orig.take(pkgs@.len() as int) == pkgs@,
            stack@ == orig.skip(pkgs@.len() as int).reverse(),
        decreases pkgs@.len(),
    {
        let ghost k = pkgs@.len() as int;
        let p = match pkgs.pop() {
            Some(p) => p,
            None => {
                proof {
                    assert(false);
                }
                Package::new("")
            },
        };
        stack.push(p);
        proof {
            assert(orig.take(k - 1) =~= pkgs@);
            assert(stack@ =~= orig.skip(k - 1).reverse());
        }
    }
    proof {
        assert(orig.take(0) =~= Seq::<Package>::empty());
        assert(orig.skip(0) =~= orig);
        assert(pkgs@ =~= Seq::<Package>::empty());
        reveal(Seq::filter);
        assert(pkgs@.filter(pred) =~= pkgs@);
    }
    let ghost total = orig.len() as int;
    while stack.len() > 0
        invariant
            pred == (|p: Package| p.name@ != name@),
            total == orig.len(),
            stack@.len() <= total,
            stack@ == orig.skip(total - stack@.len()).reverse(),
            pkgs@ == orig.take(total - stack@.len()).filter(pred),
        decreases stack@.len(),
    {
        let ghost k = total - stack@.len() as int;
        let p = match stack.pop() {
            Some(p) => p,
            None => {
                proof {
                    assert(false);
                }
                Package::new("")
            },
        };
        proof {
            assert(orig.skip(k).reverse().last() == orig[k]);
            assert(stack@ =~= orig.skip(k + 1).reverse());
            assert(orig.take(k + 1).drop_last() =~= orig.take(k));
            assert(orig.take(k + 1).last() == orig[k]);
            reveal(Seq::filter);
        }
        if !str_eq(p.name.as_str(), name) {
            pkgs.push(p);
        }
        proof {
            assert(pkgs@ =~= orig.take(k + 1).filter(pred));
        }
    }
    proof {
        assert(orig.take(total) =~= orig);
        assert forall|i: int|
            0 <= i < pkgs@.len() implies (#[trigger] pkgs@[i]).name@ != name@ by {
            orig.lemma_filter_pred(pred, i);
        }
    }
}


/// Rendering is a pure function of the document: any two renderings of
/// the same unmodified document are byte-for-byte identical.
pub proof fn lemma_render_deterministic(d: &Document, first: &String, second: &String)
    requires
        first@ == d.spec_render(),
        second@ == d.spec_render(),
    ensures
        first@ == second@,
{
}

/// A slide-show document with the table of contents enabled emits
/// exactly two automatically generated frames right after the body
/// opens, the title-page frame and then the table-of-contents frame,
/// before the metadata block and any user-attached content.
pub proof fn lemma_beamer_toc_preamble(d: Document)
    requires
        d.metadata.class.typ is Beamer,
        d.metadata.tableofcontents,
    ensures
        d.spec_render() == d.metadata.class.spec_render() + "\n"@ + spec_render_packages(
            d.packages@,
        ) + "\n"@ + spec_render_commands(d.commands@) + "\n"@ + spec_render_gpath(
            d.graphics_path,
        ) + "\\begin{document}\n"@ + spec_title_frame() + "\n"@ + spec_toc_frame() + "\n"@ + (
        if !d.scratch {
            d.metadata.spec_render()
        } else {
            "\n"@
        }) + "\n"@ + spec_render_components(d.components@) + "\n\\end{document}"@,
{
    assert(d.spec_render() =~= d.metadata.class.spec_render() + "\n"@ + spec_render_packages(
        d.packages@,
    ) + "\n"@ + spec_render_commands(d.commands@) + "\n"@ + spec_render_gpath(d.graphics_path)
        + "\\begin{document}\n"@ + spec_title_frame() + "\n"@ + spec_toc_frame() + "\n"@ + (
    if !d.scratch {
        d.metadata.spec_render()
    } else {
        "\n"@
    }) + "\n"@ + spec_render_components(d.components@) + "\n\\end{document}"@);
}

} // verus!
