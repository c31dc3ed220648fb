//! Document metadata: class, title, authors, and the presentation flags.

use vstd::prelude::*;
use crate::document::doc_class::DocumentClass;
use crate::document::doc_class::DocumentClassType;
use crate::strutil::spec_join;
use crate::strutil::join_display;

verus! {

/// Title, authors and presentation flags of a document.
///
/// `maketitle` emits the title block, `tableofcontents` the table of
/// contents, and `date` the current date.
#[derive(Debug, Clone)]
pub struct Metadata {
    pub class: DocumentClass,
    pub title: String,
    pub author: Vec<String>,
    pub maketitle: bool,
    pub tableofcontents: bool,
    pub date: bool,
}

impl Metadata {
    /// The title and author declaration lines shared by every class.
    pub open spec fn spec_title_author(self) -> Seq<char> {
        "\\title{"@ + self.title@ + "}\n\\author{"@ + spec_join(
            self.author@.map_values(|a: String| a@),
            "\\\\ \\and "@,
        ) + "}\n"@
    }

    /// The metadata block: for the slide-show class only a date command
    /// may follow the title and authors; for every other class the date,
    /// title block and table of contents each appear on their own line
    /// when their flag is set.
    pub open spec fn spec_render(self) -> Seq<char> {
        if self.class.typ is Beamer {
            self.spec_title_author() + "\n"@ + (if self.date {
                "\\date{\\today}"@
            } else {
                Seq::empty()
            }) + "\n"@
        } else {
            self.spec_title_author() + "\n"@ + (if self.date {
                "\\today"@
            } else {
                Seq::empty()
            }) + "\n"@ + (if self.maketitle {
                "\\maketitle"@
            } else {
                Seq::empty()
            }) + "\n"@ + (if self.tableofcontents {
                "\\tableofcontents"@
            } else {
                Seq::empty()
            }) + "\n"@
        }
    }

    /// Metadata over the given class, title and authors; the title block
    /// is enabled by default, the table of contents and the date are not.
    pub fn new(class: DocumentClass, title: &str, author: &[&str]) -> (r: Self)
        ensures
            r.class == class,
            r.title@ == title@,
            r.author@.len() == author@.len(),
            forall|i: int| 0 <= i < author@.len() ==> r.author@[i]@ == (#[trigger] author@[i])@,
            r.maketitle,
            !r.tableofcontents,
            !r.date,
    {
        let mut authors: Vec<String> = Vec::new();
        let n = author.len();
        let mut i: usize = 0;
        while i < n
            invariant
                n == author@.len(),
                i <= n,
                authors@.len() == i,
                forall|j: int| 0 <= j < i ==> authors@[j]@ == (#[trigger] author@[j])@,
            decreases n - i,
        {
            authors.push(String::from_str(author[i]));
            i = i + 1;
        }
        Self {
            class,
            title: String::from_str(title),
            author: authors,
            maketitle: true,
            tableofcontents: false,
            date: false,
        }
    }

    /// Renders the metadata block.
    pub(crate) fn render(&self) -> (r: String)
        ensures
            r@ == self.spec_render(),
    {
        let mut r = String::from_str("\\title{");
        r.append(self.title.as_str());
        r.append("}\n\\author{");
        let authors = join_display(&self.author, "\\\\ \\and ");
        r.append(authors.as_str());
        r.append("}\n");
        proof {
            assert(r@ =~= self.spec_title_author());
        }
        if self.class.typ == DocumentClassType::Beamer {
            r.append("\n");
            if self.date {
                r.append("\\date{\\today}");
            }
            r.append("\n");
        } else {
            r.append("\n");
            if self.date {
                r.append("\\today");
            }
            r.append("\n");
            if self.maketitle {
                r.append("\\maketitle");
            }
            r.append("\n");
            if self.tableofcontents {
                r.append("\\tableofcontents");
            }
            r.append("\n");
        }
        proof {
            assert(r@ =~= self.spec_render());
        }
        r
    }
}

impl crate::traits::AsLatex for Metadata {
    /// Renders this metadata block; the result is exactly `spec_render`.
    fn to_string(&self) -> (r: String)
        ensures
            r@ == self.spec_render(),
    {
        self.render()
    }
}

} // verus!
