//! User-declared LaTeX macros: a name, a fixed argument count, and a raw
//! body template.

use vstd::prelude::*;
use crate::errors::TexError;
use crate::errors::TexResult;
use crate::strutil::spec_dec;
use crate::strutil::dec_string;

verus! {

/// A LaTeX macro declaration.
///
/// - `name`: name of the macro.
/// - `nargs`: number of arguments it takes.
/// - `def`: its raw LaTeX body, with positional `#n` placeholders.
///
/// Declares as `\newcommand{\<name>}[<nargs>]{<def>}`.
#[derive(Debug, Clone)]
pub struct Command {
    pub name: String,
    pub nargs: usize,
    pub def: String,
}

/// The concatenation of `"{" + part + "}"` for every part, in order.
pub open spec fn spec_braced_args(parts: Seq<Seq<char>>) -> Seq<char>
    decreases parts.len(),
{
    if parts.len() == 0 {
        Seq::empty()
    } else {
        spec_braced_args(parts.drop_last()) + "{"@ + parts.last() + "}"@
    }
}

impl Command {
    /// The text of an invocation of this command with the given arguments.
    pub open spec fn spec_call(self, args: Seq<Seq<char>>) -> Seq<char> {
        "\\"@ + self.name@ + spec_braced_args(args)
    }

    /// The text of the `\newcommand` declaration of this command.
    pub open spec fn spec_declare(self) -> Seq<char> {
        "\\newcommand{\\"@ + self.name@ + "}["@ + spec_dec(self.nargs as nat) + "]{"@ + self.def@
            + "} "@
    }

    /// Makes a new command; it only becomes usable within a document after
    /// registering it there.
    pub fn new(name: &str, nargs: usize, def: &str) -> (r: Self)
        ensures
            r.name@ == name@,
            r.nargs == nargs,
            r.def@ == def@,
    {
        Self { name: String::from_str(name), nargs, def: String::from_str(def) }
    }

    /// Invokes the command: fails exactly when the number of supplied
    /// arguments differs from the declared count, and otherwise produces
    /// the invocation text with each argument substituted once, in order.
    pub fn call(&self, args: Vec<&str>) -> (r: TexResult<String>)
        ensures
            match r {
                Ok(s) => args@.len() == self.nargs && s@ == self.spec_call(
                    args@.map_values(|a: &str| a@),
                ),
                Err(e) => args@.len() != self.nargs && e == TexError::ArgLen,
            },
    {
        if args.len() != self.nargs {
            return Err(TexError::ArgLen);
        }
        let ghost mapped = args@.map_values(|a: &str| a@);
        let mut r = String::from_str("\\");
        r.append(self.name.as_str());
        let n = args.len();
        let mut i: usize = 0;
        while i < n
            invariant
                n == args@.len(),
                mapped == args@.map_values(|a: &str| a@),
                i <= n,
                r@ == "\\"@ + self.name@ + spec_braced_args(mapped.take(i as int)),
            decreases n - i,
        {
            r.append("{");
            r.append(args[i]);
            r.append("}");
            proof {
                assert(mapped.take(i + 1).drop_last() =~= mapped.take(i as int));
                assert(mapped.take(i + 1).last() == mapped[i as int]);
                assert(r@ =~= "\\"@ + self.name@ + spec_braced_args(mapped.take(i + 1)));
            }
            i = i + 1;
        }
        proof {
            assert(mapped.take(n as int) =~= mapped);
        }
        Ok(r)
    }

    /// The `\newcommand` declaration of this command.
    pub fn declare(&self) -> (r: String)
        ensures
            r@ == self.spec_declare(),
    {
        let mut r = String::from_str("\\newcommand{\\");
        r.append(self.name.as_str());
        r.append("}[");
        r.append(dec_string(self.nargs).as_str());
        r.append("]{");
        r.append(self.def.as_str());
        r.append("} ");
        proof {
            assert(r@ =~= self.spec_declare());
        }
        r
    }
}

} // verus!
