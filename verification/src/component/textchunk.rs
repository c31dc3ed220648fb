//! Formatted text spans, the most common leaf component.

use vstd::prelude::*;
use crate::strutil::str_eq;
use crate::component::Component;
use crate::component::spec_all_chunks;
use crate::component::spec_chunk_bodies;
use crate::component::spec_first_non_chunk;
use crate::component::lemma_first_non_chunk;
use crate::component::lemma_first_non_chunk_at;
use crate::errors::TexError;
use crate::errors::TexResult;

verus! {

/// The treatment applied to a chunk of text when it is rendered: plain
/// text, the common font switches, the math styles, the two math
/// delimiters, a brace scope, verbatim, or strikethrough.
#[derive(Debug, Clone, PartialEq, Eq, Structural)]
pub enum TextType {
    Normal,
    Bold,
    Italic,
    Teletype,
    MathBold,
    MathCal,
    MathBb,
    MathRm,
    Underlined,
    InlineMath,
    DisplayMath,
    Scope,
    Verbatim,
    Strikethrough,
}

/// The text treatment named by a literal; unrecognized literals fall back
/// to the normal treatment.
pub open spec fn spec_text_type_of(s: Seq<char>) -> TextType {
    if s == "normal"@ {
        TextType::Normal
    } else if s == "italic"@ || s == "emph"@ {
        TextType::Italic
    } else if s == "bold"@ || s == "strongemph"@ {
        TextType::Bold
    } else if s == "teletype"@ || s == "tt"@ {
        TextType::Teletype
    } else if s == "mathbold"@ || s == "mbf"@ {
        TextType::MathBold
    } else if s == "mathcal"@ || s == "mcal"@ {
        TextType::MathCal
    } else if s == "mathbb"@ || s == "mbb"@ {
        TextType::MathBb
    } else if s == "mathrm"@ || s == "mrm"@ {
        TextType::MathRm
    } else if s == "underline"@ {
        TextType::Underlined
    } else if s == "inline"@ || s == "math"@ || s == "dollar"@ {
        TextType::InlineMath
    } else if s == "display"@ || s == "dollardollar"@ {
        TextType::DisplayMath
    } else if s == "scope"@ {
        TextType::Scope
    } else if s == "verbatim"@ {
        TextType::Verbatim
    } else if s == "strikethrough"@ || s == "ss"@ {
        TextType::Strikethrough
    } else {
        TextType::Normal
    }
}

impl From<&str> for TextType {
    fn from(value: &str) -> (r: Self) {
        if str_eq(value, "normal") {
            TextType::Normal
        } else if str_eq(value, "italic") || str_eq(value, "emph") {
            TextType::Italic
        } else if str_eq(value, "bold") || str_eq(value, "strongemph") {
            TextType::Bold
        } else if str_eq(value, "teletype") || str_eq(value, "tt") {
            TextType::Teletype
        } else if str_eq(value, "mathbold") || str_eq(value, "mbf") {
            TextType::MathBold
        } else if str_eq(value, "mathcal") || str_eq(value, "mcal") {
            TextType::MathCal
        } else if str_eq(value, "mathbb") || str_eq(value, "mbb") {
            TextType::MathBb
        } else if str_eq(value, "mathrm") || str_eq(value, "mrm") {
            TextType::MathRm
        } else if str_eq(value, "underline") {
            TextType::Underlined
        } else if str_eq(value, "inline") || str_eq(value, "math") || str_eq(value, "dollar") {
            TextType::InlineMath
        } else if str_eq(value, "display") || str_eq(value, "dollardollar") {
            TextType::DisplayMath
        } else if str_eq(value, "scope") {
            TextType::Scope
        } else if str_eq(value, "verbatim") {
            TextType::Verbatim
        } else if str_eq(value, "strikethrough") || str_eq(value, "ss") {
            TextType::Strikethrough
        } else {
            TextType::Normal
        }
    }
}

impl vstd::std_specs::convert::FromSpecImpl<&str> for TextType {
    open spec fn obeys_from_spec() -> bool {
        true
    }

    open spec fn from_spec(v: &str) -> TextType {
        spec_text_type_of(v@)
    }
}

/// A chunk of raw text together with its treatment. Typically a
/// `Paragraph` or `Line` holds a sequence of these.
#[derive(Debug, Clone)]
pub struct TextChunk {
    pub body: String,
    pub typ: TextType,
}

impl TextChunk {
    /// The LaTeX text of this chunk: the body wrapped in the template of
    /// its treatment.
    pub open spec fn spec_render(self) -> Seq<char> {
        match self.typ {
            TextType::Normal => self.body@ + " "@,
            TextType::Italic => "\\textit{"@ + self.body@ + "} "@,
            TextType::Bold => "\\textbf{"@ + self.body@ + "} "@,
            TextType::Teletype => "\\texttt{"@ + self.body@ + "} "@,
            TextType::MathBold => "\\mathbf{"@ + self.body@ + "} "@,
            TextType::MathCal => "\\mathcal{"@ + self.body@ + "} "@,
            TextType::MathBb => "\\mathbb{"@ + self.body@ + "} "@,
            TextType::MathRm => "\\mathrm{"@ + self.body@ + "} "@,
            TextType::Underlined => "\\underline{"@ + self.body@ + "} "@,
            TextType::InlineMath => "\\("@ + self.body@ + "\\)"@,
            TextType::DisplayMath => "\\["@ + self.body@ + "\\]"@,
            TextType::Scope => "\\{"@ + self.body@ + "\\}"@,
            TextType::Verbatim => "\\verb|"@ + self.body@ + "|"@,
            TextType::Strikethrough => "\\sout{"@ + self.body@ + "} "@,
        }
    }

    pub fn new(body: &str, typ: TextType) -> (r: Self)
        ensures
            r.body@ == body@,
            r.typ == typ,
    {
        Self { body: String::from_str(body), typ }
    }

    /// A chunk of plain, untreated text.
    pub fn raw(body: &str) -> (r: Self)
        ensures
            r.body@ == body@,
            r.typ == TextType::Normal,
    {
        Self { body: String::from_str(body), typ: TextType::Normal }
    }

    pub fn set_type(&mut self, typ: TextType)
        ensures
            final(self).typ == typ,
            final(self).body == old(self).body,
    {
        self.typ = typ;
    }
}


impl TextChunk {
    /// Renders this chunk to LaTeX text.
    pub(crate) fn render(&self) -> (r: String)
        ensures
            r@ == self.spec_render(),
    {
        let r = match self.typ {
            TextType::Normal => {
                let mut r = self.body.clone();
                r.append(" ");
                r
            },
            TextType::Italic => wrap_spaced("\\textit{", &self.body),
            TextType::Bold => wrap_spaced("\\textbf{", &self.body),
            TextType::Teletype => wrap_spaced("\\texttt{", &self.body),
            TextType::MathBold => wrap_spaced("\\mathbf{", &self.body),
            TextType::MathCal => wrap_spaced("\\mathcal{", &self.body),
            TextType::MathBb => wrap_spaced("\\mathbb{", &self.body),
            TextType::MathRm => wrap_spaced("\\mathrm{", &self.body),
            TextType::Underlined => wrap_spaced("\\underline{", &self.body),
            TextType::InlineMath => {
                let mut r = String::from_str("\\(");
                r.append(self.body.as_str());
                r.append("\\)");
                r
            },
            TextType::DisplayMath => {
                let mut r = String::from_str("\\[");
                r.append(self.body.as_str());
                r.append("\\]");
                r
            },
            TextType::Scope => {
                let mut r = String::from_str("\\{");
                r.append(self.body.as_str());
                r.append("\\}");
                r
            },
            TextType::Verbatim => {
                let mut r = String::from_str("\\verb|");
                r.append(self.body.as_str());
                r.append("|");
                r
            },
            TextType::Strikethrough => wrap_spaced("\\sout{", &self.body),
        };
        proof {
            assert(r@ =~= self.spec_render());
        }
        r
    }
}

/// The body wrapped in `open ... } ` with a trailing space.
fn wrap_spaced(open_part: &str, body: &String) -> (r: String)
    ensures
        r@ == open_part@ + body@ + "} "@,
{
    let mut r = String::from_str(open_part);
    r.append(body.as_str());
    r.append("} ");
    r
}

impl crate::traits::AsLatex for TextChunk {
    /// Renders this chunk; the result is exactly `spec_render`.
    fn to_string(&self) -> (r: String)
        ensures
            r@ == self.spec_render(),
    {
        self.render()
    }
}


impl crate::traits::Populate for TextChunk {
    /// Concatenates the body of a text-chunk child onto this chunk; any
    /// other child is refused and the chunk is unchanged.
    fn attach(&mut self, other: Component) -> (r: TexResult<()>)
        ensures
            ({
                let pre = *old(self);
                let post = *final(self);
                match other {
                    Component::TextChunk(c) => r is Ok && post.typ == pre.typ && post.body@
                        == pre.body@ + c.body@,
                    _ => (r matches Err(e) && e == TexError::RankMismatch(other.spec_rank(), 10))
                        && post == pre,
                }
            }),
    {
        match other {
            Component::TextChunk(ch) => {
                self.body.append(ch.body.as_str());
                Ok(())
            },
            _ => Err(TexError::RankMismatch(other.rank(), 10)),
        }
    }

    /// Concatenates the bodies of a batch of text-chunk children, in
    /// order and atomically: if any child is not a text chunk, the first
    /// such child is reported and the chunk is unchanged.
    fn attach_vec(&mut self, other: Vec<Component>) -> (r: TexResult<()>)
        ensures
            ({
                let pre = *old(self);
                let post = *final(self);
                if spec_all_chunks(other@) {
                    &&& r is Ok
                    &&& post.typ == pre.typ
                    &&& post.body@ == pre.body@ + spec_chunk_bodies(other@)
                } else {
                    &&& r matches Err(e) && e == TexError::RankMismatch(
                        other@[spec_first_non_chunk(other@)].spec_rank(),
                        10,
                    )
                    &&& spec_first_non_chunk(other@) < other@.len()
                    &&& post == pre
                }
            }),
    {
        let n = other.len();
        let mut i: usize = 0;
        while i < n
            invariant
                n == other@.len(),
                i <= n,
                forall|j: int| 0 <= j < i ==> (#[trigger] other@[j]) is TextChunk,
            decreases n - i,
        {
            let chunk_like = match &other[i] {
                Component::TextChunk(_) => true,
                _ => false,
            };
            if !chunk_like {
                proof {
                    lemma_first_non_chunk_at(other@, i as int);
                }
                return Err(TexError::RankMismatch(other[i].rank(), 10));
            }
            i = i + 1;
        }
        proof {
            lemma_first_non_chunk(other@);
        }
        let mut k: usize = 0;
        while k < n
            invariant
                n == other@.len(),
                k <= n,
                spec_all_chunks(other@),
                self.typ == old(self).typ,
                self.body@ == old(self).body@ + spec_chunk_bodies(other@.take(k as int)),
            decreases n - k,
        {
            match &other[k] {
                Component::TextChunk(ch) => {
                    self.body.append(ch.body.as_str());
                },
                _ => {
                    proof {
                        assert(false);
                    }
                },
            }
            proof {
                assert(other@.take(k + 1).drop_last() =~= other@.take(k as int));
                assert(other@.take(k + 1).last() == other@[k as int]);
                assert(self.body@ =~= old(self).body@ + spec_chunk_bodies(other@.take(k + 1)));
            }
            k = k + 1;
        }
        proof {
            assert(other@.take(n as int) =~= other@);
        }
        Ok(())
    }
}

} // verus!
