//! Conversions wrapping each concrete element type in the tagged union.

use vstd::prelude::*;
use crate::component::Component;
use crate::component::beamer::Block;
use crate::component::beamer::Frame;
use crate::component::builtin::Builtin;
use crate::component::envs::Environment;
use crate::component::envs::Figure;
use crate::component::envs::List;
use crate::component::hierarchy::Chapter;
use crate::component::hierarchy::Line;
use crate::component::hierarchy::Paragraph;
use crate::component::hierarchy::Part;
use crate::component::hierarchy::Section;
use crate::component::hierarchy::Subsection;
use crate::component::image::Image;
use crate::component::misc::Input;
use crate::component::table::Row;
use crate::component::table::Table;
use crate::component::textchunk::TextChunk;
use crate::label::Label;
use crate::label::Reference;

verus! {

impl From<Part> for Component {
    fn from(value: Part) -> (r: Self) {
        Component::Part(value)
    }
}

impl vstd::std_specs::convert::FromSpecImpl<Part> for Component {
    open spec fn obeys_from_spec() -> bool {
        true
    }

    open spec fn from_spec(v: Part) -> Component {
        Component::Part(v)
    }
}

impl From<Chapter> for Component {
    fn from(value: Chapter) -> (r: Self) {
        Component::Chapter(value)
    }
}

impl vstd::std_specs::convert::FromSpecImpl<Chapter> for Component {
    open spec fn obeys_from_spec() -> bool {
        true
    }

    open spec fn from_spec(v: Chapter) -> Component {
        Component::Chapter(v)
    }
}

impl From<Section> for Component {
    fn from(value: Section) -> (r: Self) {
        Component::Section(value)
    }
}

impl vstd::std_specs::convert::FromSpecImpl<Section> for Component {
    open spec fn obeys_from_spec() -> bool {
        true
    }

    open spec fn from_spec(v: Section) -> Component {
        Component::Section(v)
    }
}

impl From<Subsection> for Component {
    fn from(value: Subsection) -> (r: Self) {
        Component::Subsection(value)
    }
}

impl vstd::std_specs::convert::FromSpecImpl<Subsection> for Component {
    open spec fn obeys_from_spec() -> bool {
        true
    }

    open spec fn from_spec(v: Subsection) -> Component {
        Component::Subsection(v)
    }
}

impl From<Paragraph> for Component {
    fn from(value: Paragraph) -> (r: Self) {
        Component::Paragraph(value)
    }
}

impl vstd::std_specs::convert::FromSpecImpl<Paragraph> for Component {
    open spec fn obeys_from_spec() -> bool {
        true
    }

    open spec fn from_spec(v: Paragraph) -> Component {
        Component::Paragraph(v)
    }
}

impl From<Line> for Component {
    fn from(value: Line) -> (r: Self) {
        Component::Line(value)
    }
}

impl vstd::std_specs::convert::FromSpecImpl<Line> for Component {
    open spec fn obeys_from_spec() -> bool {
        true
    }

    open spec fn from_spec(v: Line) -> Component {
        Component::Line(v)
    }
}

impl From<Frame> for Component {
    fn from(value: Frame) -> (r: Self) {
        Component::Frame(value)
    }
}

impl vstd::std_specs::convert::FromSpecImpl<Frame> for Component {
    open spec fn obeys_from_spec() -> bool {
        true
    }

    open spec fn from_spec(v: Frame) -> Component {
        Component::Frame(v)
    }
}

impl From<Block> for Component {
    fn from(value: Block) -> (r: Self) {
        Component::Block(value)
    }
}

impl vstd::std_specs::convert::FromSpecImpl<Block> for Component {
    open spec fn obeys_from_spec() -> bool {
        true
    }

    open spec fn from_spec(v: Block) -> Component {
        Component::Block(v)
    }
}

impl From<Input> for Component {
    fn from(value: Input) -> (r: Self) {
        Component::Input(value)
    }
}

impl vstd::std_specs::convert::FromSpecImpl<Input> for Component {
    open spec fn obeys_from_spec() -> bool {
        true
    }

    open spec fn from_spec(v: Input) -> Component {
        Component::Input(v)
    }
}

impl From<Environment> for Component {
    fn from(value: Environment) -> (r: Self) {
        Component::Environment(value)
    }
}

impl vstd::std_specs::convert::FromSpecImpl<Environment> for Component {
    open spec fn obeys_from_spec() -> bool {
        true
    }

    open spec fn from_spec(v: Environment) -> Component {
        Component::Environment(v)
    }
}

impl From<List> for Component {
    fn from(value: List) -> (r: Self) {
        Component::List(value)
    }
}

impl vstd::std_specs::convert::FromSpecImpl<List> for Component {
    open spec fn obeys_from_spec() -> bool {
        true
    }

    open spec fn from_spec(v: List) -> Component {
        Component::List(v)
    }
}

impl From<Figure> for Component {
    fn from(value: Figure) -> (r: Self) {
        Component::Figure(value)
    }
}

impl vstd::std_specs::convert::FromSpecImpl<Figure> for Component {
    open spec fn obeys_from_spec() -> bool {
        true
    }

    open spec fn from_spec(v: Figure) -> Component {
        Component::Figure(v)
    }
}

impl From<TextChunk> for Component {
    fn from(value: TextChunk) -> (r: Self) {
        Component::TextChunk(value)
    }
}

impl vstd::std_specs::convert::FromSpecImpl<TextChunk> for Component {
    open spec fn obeys_from_spec() -> bool {
        true
    }

    open spec fn from_spec(v: TextChunk) -> Component {
        Component::TextChunk(v)
    }
}

impl From<Image> for Component {
    fn from(value: Image) -> (r: Self) {
        Component::Image(value)
    }
}

impl vstd::std_specs::convert::FromSpecImpl<Image> for Component {
    open spec fn obeys_from_spec() -> bool {
        true
    }

    open spec fn from_spec(v: Image) -> Component {
        Component::Image(v)
    }
}

impl From<Table> for Component {
    fn from(value: Table) -> (r: Self) {
        Component::Table(value)
    }
}

impl vstd::std_specs::convert::FromSpecImpl<Table> for Component {
    open spec fn obeys_from_spec() -> bool {
        true
    }

    open spec fn from_spec(v: Table) -> Component {
        Component::Table(v)
    }
}

impl From<Row> for Component {
    fn from(value: Row) -> (r: Self) {
        Component::Row(value)
    }
}

impl vstd::std_specs::convert::FromSpecImpl<Row> for Component {
    open spec fn obeys_from_spec() -> bool {
        true
    }

    open spec fn from_spec(v: Row) -> Component {
        Component::Row(v)
    }
}

impl From<Builtin> for Component {
    fn from(value: Builtin) -> (r: Self) {
        Component::Builtin(value)
    }
}

impl vstd::std_specs::convert::FromSpecImpl<Builtin> for Component {
    open spec fn obeys_from_spec() -> bool {
        true
    }

    open spec fn from_spec(v: Builtin) -> Component {
        Component::Builtin(v)
    }
}

impl From<Label> for Component {
    fn from(value: Label) -> (r: Self) {
        Component::Label(value)
    }
}

impl vstd::std_specs::convert::FromSpecImpl<Label> for Component {
    open spec fn obeys_from_spec() -> bool {
        true
    }

    open spec fn from_spec(v: Label) -> Component {
        Component::Label(v)
    }
}

impl From<Reference> for Component {
    fn from(value: Reference) -> (r: Self) {
        Component::Reference(value)
    }
}

impl vstd::std_specs::convert::FromSpecImpl<Reference> for Component {
    open spec fn obeys_from_spec() -> bool {
        true
    }

    open spec fn from_spec(v: Reference) -> Component {
        Component::Reference(v)
    }
}

} // verus!
