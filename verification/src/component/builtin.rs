//! Built-in math operators with fixed rendering templates.

use vstd::prelude::*;
use crate::component::textchunk::TextChunk;
use crate::strutil::push_char;

verus! {

/// The closed set of built-in math-operator shapes. Each operand is a
/// [`TextChunk`], rendered through its own treatment first, so a built-in
/// composes with any text treatment.
#[derive(Debug, Clone)]
pub enum BuiltinType {
    EnsureMath(TextChunk),
    Sin(TextChunk),
    Cos(TextChunk),
    Tan(TextChunk),
    Log(TextChunk),
    Ln(TextChunk),
    Lg(TextChunk),
    Sum(TextChunk, TextChunk),
    Prod(TextChunk, TextChunk),
    Arg(TextChunk),
    Min(TextChunk),
    Max(TextChunk),
    Character(String),
    Surround(char, TextChunk, char),
}

impl BuiltinType {
    /// The LaTeX text of this operator shape.
    pub open spec fn spec_render(self) -> Seq<char> {
        match self {
            BuiltinType::EnsureMath(s) => "\\ensuremath{"@ + s.spec_render() + "}"@,
            BuiltinType::Sin(s) => "\\sin{"@ + s.spec_render() + "}"@,
            BuiltinType::Cos(s) => "\\cos{"@ + s.spec_render() + "}"@,
            BuiltinType::Tan(s) => "\\tan{"@ + s.spec_render() + "}"@,
            BuiltinType::Log(s) => "\\log{"@ + s.spec_render() + "}"@,
            BuiltinType::Ln(s) => "\\ln{"@ + s.spec_render() + "}"@,
            BuiltinType::Lg(s) => "\\lg{"@ + s.spec_render() + "}"@,
            BuiltinType::Sum(down, up) => "\\sum_{"@ + down.spec_render() + "}^{"@
                + up.spec_render() + "}"@,
            BuiltinType::Prod(down, up) => "\\prod_{"@ + down.spec_render() + "}^{"@
                + up.spec_render() + "}"@,
            BuiltinType::Arg(s) => "\\arg{"@ + s.spec_render() + "}"@,
            BuiltinType::Min(s) => "\\min{"@ + s.spec_render() + "}"@,
            BuiltinType::Max(s) => "\\max{"@ + s.spec_render() + "}"@,
            BuiltinType::Character(s) => "\\"@ + s@,
            BuiltinType::Surround(left, content, right) => "\\left"@ + seq![left] + " "@
                + content.spec_render() + " \\right"@ + seq![right],
        }
    }
}

/// A built-in math operator, such as a named function or an escaped
/// character.
#[derive(Debug, Clone)]
pub struct Builtin {
    pub typ: BuiltinType,
}

impl Builtin {
    /// The LaTeX text of this built-in: the text of its operator shape.
    pub open spec fn spec_render(self) -> Seq<char> {
        self.typ.spec_render()
    }

    pub fn new(typ: BuiltinType) -> (r: Self)
        ensures
            r.typ == typ,
    {
        Self { typ }
    }
}


impl BuiltinType {
    /// Renders this operator shape to LaTeX text.
    pub(crate) fn render(&self) -> (r: String)
        ensures
            r@ == self.spec_render(),
    {
        let r = match self {
            BuiltinType::EnsureMath(s) => wrap_operand("\\ensuremath{", s),
            BuiltinType::Sin(s) => wrap_operand("\\sin{", s),
            BuiltinType::Cos(s) => wrap_operand("\\cos{", s),
            BuiltinType::Tan(s) => wrap_operand("\\tan{", s),
            BuiltinType::Log(s) => wrap_operand("\\log{", s),
            BuiltinType::Ln(s) => wrap_operand("\\ln{", s),
            BuiltinType::Lg(s) => wrap_operand("\\lg{", s),
            BuiltinType::Sum(down, up) => wrap_bounds("\\sum_{", down, up),
            BuiltinType::Prod(down, up) => wrap_bounds("\\prod_{", down, up),
            BuiltinType::Arg(s) => wrap_operand("\\arg{", s),
            BuiltinType::Min(s) => wrap_operand("\\min{", s),
            BuiltinType::Max(s) => wrap_operand("\\max{", s),
            BuiltinType::Character(s) => {
                let mut r = String::from_str("\\");
                r.append(s.as_str());
                r
            },
            BuiltinType::Surround(left, content, right) => {
                let mut r = String::from_str("\\left");
                push_char(&mut r, *left);
                r.append(" ");
                let c = content.render();
                r.append(c.as_str());
                r.append(" \\right");
                push_char(&mut r, *right);
                proof {
                    assert(r@ =~= "\\left"@ + seq![*left] + " "@ + content.spec_render()
                        + " \\right"@ + seq![*right]);
                }
                r
            },
        };
        proof {
            assert(r@ =~= self.spec_render());
        }
        r
    }
}

/// The rendered operand wrapped in `open ... }`.
fn wrap_operand(open_part: &str, operand: &TextChunk) -> (r: String)
    ensures
        r@ == open_part@ + operand.spec_render() + "}"@,
{
    let mut r = String::from_str(open_part);
    let s = operand.render();
    r.append(s.as_str());
    r.append("}");
    r
}

/// The rendered lower and upper operands in `open ... }^{ ... }`.
fn wrap_bounds(open_part: &str, down: &TextChunk, up: &TextChunk) -> (r: String)
    ensures
        r@ == open_part@ + down.spec_render() + "}^{"@ + up.spec_render() + "}"@,
{
    let mut r = String::from_str(open_part);
    let d = down.render();
    r.append(d.as_str());
    r.append("}^{");
    let u = up.render();
    r.append(u.as_str());
    r.append("}");
    r
}

impl Builtin {
    /// Renders this built-in to LaTeX text.
    pub(crate) fn render(&self) -> (r: String)
        ensures
            r@ == self.spec_render(),
    {
        self.typ.render()
    }
}

impl crate::traits::AsLatex for Builtin {
    /// Renders this built-in; the result is exactly `spec_render`.
    fn to_string(&self) -> (r: String)
        ensures
            r@ == self.spec_render(),
    {
        self.render()
    }
}

} // verus!
