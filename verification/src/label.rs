//! Cross-reference labels and references, constructed by splitting an
//! input string on its first colon into a category prefix and identifier.

use vstd::prelude::*;
use crate::strutil::spec_find_char;
use crate::strutil::find_char;
use crate::strutil::lemma_find_char;
use crate::strutil::str_eq;

verus! {

/// A `\label{...}` target, by cross-reference category.
#[derive(Debug, Clone, PartialEq, Eq, Hash)]
pub enum Label {
    Standard(String),
    Chapter(String),
    Section(String),
    Subsection(String),
    Equation(String),
    Table(String),
    Figure(String),
    Code(String),
    Item(String),
    Algorithm(String),
}

/// A `~\ref{...}` use site, by cross-reference category.
#[derive(Debug, Clone, PartialEq, Eq)]
pub enum Reference {
    Standard(String),
    Chapter(String),
    Section(String),
    Subsection(String),
    Equation(String),
    Table(String),
    Figure(String),
    Code(String),
    Item(String),
    Algorithm(String),
}

/// The position of the category prefix of `input`: the index of its first
/// colon, or zero when it has none (so the prefix is then empty).
pub open spec fn spec_prefix_end(input: Seq<char>) -> int {
    if spec_find_char(input, ':') == input.len() {
        0
    } else {
        spec_find_char(input, ':') as int
    }
}

/// Whether the category prefix of `input` names one of the recognized
/// cross-reference categories.
pub open spec fn spec_prefix_recognized(input: Seq<char>) -> bool {
    spec_parse_tag_raw(input.take(spec_prefix_end(input))) is Some
}

/// The tag named by a recognized category prefix.
pub open spec fn spec_parse_tag_raw(typ: Seq<char>) -> Option<Seq<char>> {
    if typ == "ch"@ || typ == "sec"@ || typ == "subsec"@ || typ == "eq"@ || typ == "tab"@ || typ
        == "fig"@ || typ == "lst"@ || typ == "itm"@ || typ == "alg"@ {
        Some(typ)
    } else {
        None
    }
}

/// The category tag that parsing `input` yields: its recognized prefix, or
/// `"std"` when the prefix is not recognized.
pub open spec fn spec_parse_tag(input: Seq<char>) -> Seq<char> {
    if spec_prefix_recognized(input) {
        input.take(spec_prefix_end(input))
    } else {
        "std"@
    }
}

/// The identifier that parsing `input` yields: the text after the first
/// colon when the prefix is recognized, or the entire original input when
/// it is not.
pub open spec fn spec_parse_ident(input: Seq<char>) -> Seq<char> {
    if spec_prefix_recognized(input) {
        input.skip(spec_prefix_end(input) + 1)
    } else {
        input
    }
}

impl Label {
    /// The category tag this label renders with.
    pub open spec fn spec_tag(self) -> Seq<char> {
        match self {
            Label::Standard(_) => "std"@,
            Label::Chapter(_) => "ch"@,
            Label::Section(_) => "sec"@,
            Label::Subsection(_) => "subsec"@,
            Label::Equation(_) => "eq"@,
            Label::Table(_) => "tab"@,
            Label::Figure(_) => "fig"@,
            Label::Code(_) => "lst"@,
            Label::Item(_) => "itm"@,
            Label::Algorithm(_) => "alg"@,
        }
    }

    /// The free-text identifier this label carries.
    pub open spec fn spec_ident(self) -> Seq<char> {
        match self {
            Label::Standard(s) => s@,
            Label::Chapter(s) => s@,
            Label::Section(s) => s@,
            Label::Subsection(s) => s@,
            Label::Equation(s) => s@,
            Label::Table(s) => s@,
            Label::Figure(s) => s@,
            Label::Code(s) => s@,
            Label::Item(s) => s@,
            Label::Algorithm(s) => s@,
        }
    }

    /// The LaTeX text of this label.
    pub open spec fn spec_render(self) -> Seq<char> {
        " \\label{"@ + self.spec_tag() + ":"@ + self.spec_ident() + "} \n"@
    }

    /// Splits `value` on its first colon into a category prefix and an
    /// identifier. An unrecognized prefix (including the empty one) falls
    /// back to the standard category with the entire original string as
    /// the identifier.
    pub fn parse(value: &str) -> (l: Label)
        ensures
            l.spec_tag() == spec_parse_tag(value@),
            l.spec_ident() == spec_parse_ident(value@),
    {
        let n = value.unicode_len();
        let f = find_char(value, ':');
        proof {
            lemma_find_char(value@, ':');
            reveal_strlit("ch");
            reveal_strlit("sec");
            reveal_strlit("subsec");
            reveal_strlit("eq");
            reveal_strlit("tab");
            reveal_strlit("fig");
            reveal_strlit("lst");
            reveal_strlit("itm");
            reveal_strlit("alg");
        }
        let q: usize = if f == n {
            0
        } else {
            f
        };
        let typ = value.substring_char(0, q);
        proof {
            assert(typ@ =~= value@.take(q as int));
        }
        if str_eq(typ, "ch") {
            Label::Chapter(suffix_after(value, q, n))
        } else if str_eq(typ, "sec") {
            Label::Section(suffix_after(value, q, n))
        } else if str_eq(typ, "subsec") {
            Label::Subsection(suffix_after(value, q, n))
        } else if str_eq(typ, "eq") {
            Label::Equation(suffix_after(value, q, n))
        } else if str_eq(typ, "tab") {
            Label::Table(suffix_after(value, q, n))
        } else if str_eq(typ, "fig") {
            Label::Figure(suffix_after(value, q, n))
        } else if str_eq(typ, "lst") {
            Label::Code(suffix_after(value, q, n))
        } else if str_eq(typ, "itm") {
            Label::Item(suffix_after(value, q, n))
        } else if str_eq(typ, "alg") {
            Label::Algorithm(suffix_after(value, q, n))
        } else {
            Label::Standard(value.to_owned())
        }
    }
}

/// The text after the colon of an input whose prefix was recognized, as
/// an owned identifier.
fn suffix_after(value: &str, q: usize, n: usize) -> (r: String)
    requires
        n == value@.len(),
        q as int == spec_prefix_end(value@),
        spec_prefix_recognized(value@),
    ensures
        r@ == value@.skip(q + 1),
{
    proof {
        lemma_find_char(value@, ':');
        reveal_strlit("ch");
        reveal_strlit("sec");
        reveal_strlit("subsec");
        reveal_strlit("eq");
        reveal_strlit("tab");
        reveal_strlit("fig");
        reveal_strlit("lst");
        reveal_strlit("itm");
        reveal_strlit("alg");
        assert(value@.take(q as int).len() == q);
        assert(q > 0);
        assert(q + 1 <= n);
    }
    let r = value.substring_char(q + 1, n).to_owned();
    proof {
        assert(r@ =~= value@.skip(q + 1));
    }
    r
}

impl Reference {
    /// The category tag this reference renders with.
    pub open spec fn spec_tag(self) -> Seq<char> {
        match self {
            Reference::Standard(_) => "std"@,
            Reference::Chapter(_) => "ch"@,
            Reference::Section(_) => "sec"@,
            Reference::Subsection(_) => "subsec"@,
            Reference::Equation(_) => "eq"@,
            Reference::Table(_) => "tab"@,
            Reference::Figure(_) => "fig"@,
            Reference::Code(_) => "lst"@,
            Reference::Item(_) => "itm"@,
            Reference::Algorithm(_) => "alg"@,
        }
    }

    /// The free-text identifier this reference carries.
    pub open spec fn spec_ident(self) -> Seq<char> {
        match self {
            Reference::Standard(s) => s@,
            Reference::Chapter(s) => s@,
            Reference::Section(s) => s@,
            Reference::Subsection(s) => s@,
            Reference::Equation(s) => s@,
            Reference::Table(s) => s@,
            Reference::Figure(s) => s@,
            Reference::Code(s) => s@,
            Reference::Item(s) => s@,
            Reference::Algorithm(s) => s@,
        }
    }

    /// The LaTeX text of this reference.
    pub open spec fn spec_render(self) -> Seq<char> {
        "~\\ref{"@ + self.spec_tag() + ":"@ + self.spec_ident() + "} \n"@
    }

    /// Splits `value` on its first colon, exactly as [`Label::parse`] does.
    pub fn parse(value: &str) -> (l: Reference)
        ensures
            l.spec_tag() == spec_parse_tag(value@),
            l.spec_ident() == spec_parse_ident(value@),
    {
        let n = value.unicode_len();
        let f = find_char(value, ':');
        proof {
            lemma_find_char(value@, ':');
            reveal_strlit("ch");
            reveal_strlit("sec");
            reveal_strlit("subsec");
            reveal_strlit("eq");
            reveal_strlit("tab");
            reveal_strlit("fig");
            reveal_strlit("lst");
            reveal_strlit("itm");
            reveal_strlit("alg");
        }
        let q: usize = if f == n {
            0
        } else {
            f
        };
        let typ = value.substring_char(0, q);
        proof {
            assert(typ@ =~= value@.take(q as int));
        }
        if str_eq(typ, "ch") {
            Reference::Chapter(suffix_after(value, q, n))
        } else if str_eq(typ, "sec") {
            Reference::Section(suffix_after(value, q, n))
        } else if str_eq(typ, "subsec") {
            Reference::Subsection(suffix_after(value, q, n))
        } else if str_eq(typ, "eq") {
            Reference::Equation(suffix_after(value, q, n))
        } else if str_eq(typ, "tab") {
            Reference::Table(suffix_after(value, q, n))
        } else if str_eq(typ, "fig") {
            Reference::Figure(suffix_after(value, q, n))
        } else if str_eq(typ, "lst") {
            Reference::Code(suffix_after(value, q, n))
        } else if str_eq(typ, "itm") {
            Reference::Item(suffix_after(value, q, n))
        } else if str_eq(typ, "alg") {
            Reference::Algorithm(suffix_after(value, q, n))
        } else {
            Reference::Standard(value.to_owned())
        }
    }
}


impl Label {
    /// Renders this label to LaTeX text.
    pub(crate) fn render(&self) -> (r: String)
        ensures
            r@ == self.spec_render(),
    {
        let tag: &'static str = match self {
            Label::Standard(_) => "std",
            Label::Chapter(_) => "ch",
            Label::Section(_) => "sec",
            Label::Subsection(_) => "subsec",
            Label::Equation(_) => "eq",
            Label::Table(_) => "tab",
            Label::Figure(_) => "fig",
            Label::Code(_) => "lst",
            Label::Item(_) => "itm",
            Label::Algorithm(_) => "alg",
        };
        let ident: &String = match self {
            Label::Standard(s) => s,
            Label::Chapter(s) => s,
            Label::Section(s) => s,
            Label::Subsection(s) => s,
            Label::Equation(s) => s,
            Label::Table(s) => s,
            Label::Figure(s) => s,
            Label::Code(s) => s,
            Label::Item(s) => s,
            Label::Algorithm(s) => s,
        };
        let mut r = String::from_str(" \\label{");
        r.append(tag);
        r.append(":");
        r.append(ident.as_str());
        r.append("} \n");
        proof {
            assert(r@ =~= self.spec_render());
        }
        r
    }
}

impl crate::traits::AsLatex for Label {
    /// Renders this label; the result is exactly `spec_render`.
    fn to_string(&self) -> (r: String)
        ensures
            r@ == self.spec_render(),
    {
        self.render()
    }
}

impl Reference {
    /// Renders this reference to LaTeX text.
    pub(crate) fn render(&self) -> (r: String)
        ensures
            r@ == self.spec_render(),
    {
        let tag: &'static str = match self {
            Reference::Standard(_) => "std",
            Reference::Chapter(_) => "ch",
            Reference::Section(_) => "sec",
            Reference::Subsection(_) => "subsec",
            Reference::Equation(_) => "eq",
            Reference::Table(_) => "tab",
            Reference::Figure(_) => "fig",
            Reference::Code(_) => "lst",
            Reference::Item(_) => "itm",
            Reference::Algorithm(_) => "alg",
        };
        let ident: &String = match self {
            Reference::Standard(s) => s,
            Reference::Chapter(s) => s,
            Reference::Section(s) => s,
            Reference::Subsection(s) => s,
            Reference::Equation(s) => s,
            Reference::Table(s) => s,
            Reference::Figure(s) => s,
            Reference::Code(s) => s,
            Reference::Item(s) => s,
            Reference::Algorithm(s) => s,
        };
        let mut r = String::from_str("~\\ref{");
        r.append(tag);
        r.append(":");
        r.append(ident.as_str());
        r.append("} \n");
        proof {
            assert(r@ =~= self.spec_render());
        }
        r
    }
}

impl crate::traits::AsLatex for Reference {
    /// Renders this reference; the result is exactly `spec_render`.
    fn to_string(&self) -> (r: String)
        ensures
            r@ == self.spec_render(),
    {
        self.render()
    }
}

} // verus!
