//! The top-level document class.

use vstd::prelude::*;
use crate::strutil::spec_comma_list;
use crate::strutil::comma_list;
use crate::strutil::str_eq;

verus! {

/// The closed set of supported document classes. Nothing prevents, say, a
/// `\part{}` inside a document of the part class; LaTeX itself will
/// complain.
#[derive(Debug, Clone, PartialEq, Eq, Structural)]
pub enum DocumentClassType {
    Article,
    Amsart,
    Part,
    Report,
    Book,
    Beamer,
}

/// The document class named by a literal; unrecognized literals fall back
/// to the article class.
pub open spec fn spec_class_type_of(s: Seq<char>) -> DocumentClassType {
    if s == "article"@ {
        DocumentClassType::Article
    } else if s == "part"@ {
        DocumentClassType::Part
    } else if s == "book"@ {
        DocumentClassType::Book
    } else if s == "report"@ {
        DocumentClassType::Report
    } else if s == "amsart"@ {
        DocumentClassType::Amsart
    } else if s == "beamer"@ {
        DocumentClassType::Beamer
    } else {
        DocumentClassType::Article
    }
}

impl DocumentClassType {
    /// The class name as it appears in the `\documentclass` line.
    pub open spec fn spec_name(self) -> Seq<char> {
        match self {
            DocumentClassType::Article => "article"@,
            DocumentClassType::Part => "part"@,
            DocumentClassType::Report => "report"@,
            DocumentClassType::Book => "book"@,
            DocumentClassType::Amsart => "amsart"@,
            DocumentClassType::Beamer => "beamer"@,
        }
    }

    /// The class name as it appears in the `\documentclass` line.
    pub fn as_str(&self) -> (r: &'static str)
        ensures
            r@ == self.spec_name(),
    {
        match self {
            DocumentClassType::Article => "article",
            DocumentClassType::Part => "part",
            DocumentClassType::Report => "report",
            DocumentClassType::Book => "book",
            DocumentClassType::Amsart => "amsart",
            DocumentClassType::Beamer => "beamer",
        }
    }
}

impl From<&str> for DocumentClassType {
    fn from(value: &str) -> (r: Self) {
        if str_eq(value, "article") {
            DocumentClassType::Article
        } else if str_eq(value, "part") {
            DocumentClassType::Part
        } else if str_eq(value, "book") {
            DocumentClassType::Book
        } else if str_eq(value, "report") {
            DocumentClassType::Report
        } else if str_eq(value, "amsart") {
            DocumentClassType::Amsart
        } else if str_eq(value, "beamer") {
            DocumentClassType::Beamer
        } else {
            DocumentClassType::Article
        }
    }
}

impl vstd::std_specs::convert::FromSpecImpl<&str> for DocumentClassType {
    open spec fn obeys_from_spec() -> bool {
        true
    }

    open spec fn from_spec(v: &str) -> DocumentClassType {
        spec_class_type_of(v@)
    }
}

/// A document class together with its free-form option list.
#[derive(Debug, Clone)]
pub struct DocumentClass {
    pub typ: DocumentClassType,
    pub opt: Vec<String>,
}

impl DocumentClass {
    /// The `\documentclass` line, with each option followed by a comma.
    pub open spec fn spec_render(self) -> Seq<char> {
        "\\documentclass["@ + spec_comma_list(self.opt@.map_values(|o: String| o@)) + "]{"@
            + self.typ.spec_name() + "}"@
    }

    /// A class named by a literal, with no options yet.
    pub fn new(typ: &str) -> (r: Self)
        ensures
            r.typ == spec_class_type_of(typ@),
            r.opt@ == Seq::<String>::empty(),
    {
        Self { typ: DocumentClassType::from(typ), opt: Vec::new() }
    }

    /// Renders the `\documentclass` line.
    pub(crate) fn render(&self) -> (r: String)
        ensures
            r@ == self.spec_render(),
    {
        let mut r = String::from_str("\\documentclass[");
        let opts = comma_list(&self.opt);
        r.append(opts.as_str());
        r.append("]{");
        r.append(self.typ.as_str());
        r.append("}");
        proof {
            assert(r@ =~= self.spec_render());
        }
        r
    }
}

impl crate::traits::AsLatex for DocumentClass {
    /// Renders this class line; the result is exactly `spec_render`.
    fn to_string(&self) -> (r: String)
        ensures
            r@ == self.spec_render(),
    {
        self.render()
    }
}

impl crate::traits::Opt for DocumentClass {
    /// Appends one option string.
    fn add_option(&mut self, opt: &str)
        ensures
            final(self).typ == old(self).typ,
            final(self).opt@.len() == old(self).opt@.len() + 1,
            final(self).opt@.drop_last() == old(self).opt@,
            final(self).opt@.last()@ == opt@,
    {
        self.opt.push(String::from_str(opt));
        proof {
            assert(self.opt@.drop_last() =~= old(self).opt@);
        }
    }
}

} // verus!
