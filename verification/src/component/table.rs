//! Tables and their rows.

use vstd::prelude::*;
use crate::component::Component;
use crate::errors::TexResult;
use crate::component::spec_render_components;
use crate::component::spec_join_rendered;
use crate::component::render_components;
use crate::component::render_each;
use crate::component::lemma_join_rendered;
use crate::strutil::join_display;

verus! {

/// One table row: a sequence of cell components joined with `&`. Any
/// component may be a cell; rows perform no rank check.
#[derive(Debug)]
pub struct Row {
    pub cells: Vec<Component>,
}

impl Row {
    /// The LaTeX text of this row: the cells joined with the column
    /// separator and closed with a row terminator.
    pub open spec fn spec_render(self) -> Seq<char>
        decreases self,
    {
        spec_join_rendered(self.cells@, " & "@) + " \\\\ \n"@
    }

    pub fn new() -> (r: Self)
        ensures
            r.cells@ == Seq::<Component>::empty(),
    {
        Self { cells: Vec::new() }
    }

    pub fn with_cells(cells: Vec<Component>) -> (r: Self)
        ensures
            r.cells == cells,
    {
        Self { cells }
    }
}

/// The column-specification text for a table of `n` centered columns:
/// a pipe, then `n` repetitions of `c|`.
pub open spec fn spec_colspec(n: nat) -> Seq<char>
    decreases n,
{
    if n == 0 {
        "|"@
    } else {
        spec_colspec((n - 1) as nat) + "c|"@
    }
}

/// A `tabular` environment: a fixed column count, a distinguished header
/// row, and a sequence of body rows. Rendering does not check that row
/// cell counts match the declared column count.
#[derive(Debug)]
pub struct Table {
    pub col: usize,
    pub rows: Vec<Component>,
    pub head: Row,
}

impl Table {
    /// The LaTeX text of this table: the column specification, the header
    /// row between rules, then the body rows.
    pub open spec fn spec_render(self) -> Seq<char>
        decreases self,
    {
        "\\begin{tabular}{"@ + spec_colspec(self.col as nat) + "} \n \\hline \n "@
            + self.head.spec_render() + " \n \\hline \n "@ + spec_render_components(self.rows@)
            + " \\hline \\end{tabular} "@
    }

    pub fn new(col: usize, head: Row) -> (r: Self)
        ensures
            r.col == col,
            r.rows@ == Seq::<Component>::empty(),
            r.head == head,
    {
        Self { col, rows: Vec::new(), head }
    }

    pub fn with_rows(col: usize, head: Row, rows: Vec<Component>) -> (r: Self)
        ensures
            r.col == col,
            r.rows == rows,
            r.head == head,
    {
        Self { col, rows, head }
    }
}


impl Row {
    /// Renders this row to LaTeX text.
    pub(crate) fn render(&self) -> (r: String)
        ensures
            r@ == self.spec_render(),
        decreases *self,
    {
        proof {
            assert(decreases_to!(*self => self.cells@));
        }
        let parts = render_each(&self.cells);
        let mut r = join_display(&parts, " & ");
        proof {
            assert forall|i: int| 0 <= i < self.cells@.len() implies parts@.map_values(
                |p: String| p@,
            )[i] == #[trigger] self.cells@[i].spec_render() by {
                assert(parts@[i]@ == self.cells@[i].spec_render());
            }
            lemma_join_rendered(self.cells@, parts@.map_values(|p: String| p@), " & "@);
        }
        r.append(" \\\\ \n");
        proof {
            assert(r@ =~= self.spec_render());
        }
        r
    }
}

impl crate::traits::AsLatex for Row {
    /// Renders this row; the result is exactly `spec_render`.
    fn to_string(&self) -> (r: String)
        ensures
            r@ == self.spec_render(),
    {
        self.render()
    }
}

/// Renders the column specification for `col` centered columns.
fn colspec(col: usize) -> (r: String)
    ensures
        r@ == spec_colspec(col as nat),
{
    let mut r = String::from_str("|");
    let mut i: usize = 0;
    while i < col
        invariant
            i <= col,
            r@ == spec_colspec(i as nat),
        decreases col - i,
    {
        r.append("c|");
        i = i + 1;
    }
    r
}

impl Table {
    /// Renders this table to LaTeX text.
    pub(crate) fn render(&self) -> (r: String)
        ensures
            r@ == self.spec_render(),
        decreases *self,
    {
        let mut r = String::from_str("\\begin{tabular}{");
        let cols = colspec(self.col);
        r.append(cols.as_str());
        r.append("} \n \\hline \n ");
        let head = self.head.render();
        r.append(head.as_str());
        r.append(" \n \\hline \n ");
        let rows = render_components(&self.rows);
        r.append(rows.as_str());
        r.append(" \\hline \\end{tabular} ");
        proof {
            assert(r@ =~= self.spec_render());
        }
        r
    }
}

impl crate::traits::AsLatex for Table {
    /// Renders this table; the result is exactly `spec_render`.
    fn to_string(&self) -> (r: String)
        ensures
            r@ == self.spec_render(),
    {
        self.render()
    }
}


impl crate::traits::Populate for Row {
    /// Appends one child; the rank policy is enforced one level up, at
    /// the tagged union.
    fn attach(&mut self, other: Component) -> (r: TexResult<()>)
        ensures
            r is Ok,
            final(self).cells@ == old(self).cells@.push(other),
    {
        self.cells.push(other);
        Ok(())
    }

    /// Appends a batch of children in order.
    fn attach_vec(&mut self, other: Vec<Component>) -> (r: TexResult<()>)
        ensures
            r is Ok,
            final(self).cells@ == old(self).cells@ + other@,
    {
        let mut incoming = other;
        self.cells.append(&mut incoming);
        Ok(())
    }
}

impl crate::traits::Populate for Table {
    /// Appends one child; the rank policy is enforced one level up, at
    /// the tagged union.
    fn attach(&mut self, other: Component) -> (r: TexResult<()>)
        ensures
            r is Ok,
            final(self).col == old(self).col,
            final(self).head == old(self).head,
            final(self).rows@ == old(self).rows@.push(other),
    {
        self.rows.push(other);
        Ok(())
    }

    /// Appends a batch of children in order.
    fn attach_vec(&mut self, other: Vec<Component>) -> (r: TexResult<()>)
        ensures
            r is Ok,
            final(self).col == old(self).col,
            final(self).head == old(self).head,
            final(self).rows@ == old(self).rows@ + other@,
    {
        let mut incoming = other;
        self.rows.append(&mut incoming);
        Ok(())
    }
}

} // verus!
