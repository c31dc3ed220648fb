use rust_texas::component::Component;
use rust_texas::component::beamer::Block;
use rust_texas::component::beamer::Frame;
use rust_texas::component::builtin::Builtin;
use rust_texas::component::builtin::BuiltinType;
use rust_texas::component::envs::Environment;
use rust_texas::component::envs::Figure;
use rust_texas::component::envs::List;
use rust_texas::component::envs::ListType;
use rust_texas::component::hierarchy::Chapter;
use rust_texas::component::hierarchy::Line;
use rust_texas::component::hierarchy::Paragraph;
use rust_texas::component::hierarchy::Part;
use rust_texas::component::hierarchy::Section;
use rust_texas::component::hierarchy::Subsection;
use rust_texas::component::image::Image;
use rust_texas::component::misc::Input;
use rust_texas::component::table::Row;
use rust_texas::component::table::Table;
use rust_texas::component::textchunk::TextChunk;
use rust_texas::component::textchunk::TextType;
use rust_texas::label::Label;
use rust_texas::label::Reference;
use rust_texas::traits::AsLatex;
use rust_texas::traits::Populate;
use rust_texas::escape;
use rust_texas::traits::Opt;

fn chunk(text: &str) -> Component {
    Component::TextChunk(TextChunk::new(text, TextType::Normal))
}

#[test]
fn rank_is_total_over_every_variant() {
    let variants: Vec<(Component, u8)> = vec![
        (Component::Part(Part::new("p")), 0),
        (Component::Chapter(Chapter::new("c")), 1),
        (Component::Section(Section::new("s")), 2),
        (Component::Subsection(Subsection::new("s")), 3),
        (Component::Paragraph(Paragraph::new()), 5),
        (Component::Line(Line::new()), 10),
        (Component::Frame(Frame::new("f")), 4),
        (Component::Block(Block::new("b")), 5),
        (Component::Input(Input { name: String::from("i") }), 9),
        (Component::Environment(Environment::new("e")), 8),
        (Component::List(List::new(ListType::Itemize)), 7),
        (
            Component::Figure(Figure {
                img: Image::new("img.png"),
                caption: String::from("cap"),
                opt: vec![],
            }),
            8,
        ),
        (Component::TextChunk(TextChunk::raw("t")), 10),
        (Component::Command(String::from("\\cmd")), 10),
        (Component::Image(Image::new("img.png")), 10),
        (Component::Table(Table::new(1, Row::new())), 7),
        (Component::Row(Row::new()), 10),
        (Component::Builtin(Builtin::new(BuiltinType::Character(String::from("phi")))), 10),
        (Component::Label(Label::parse("x")), 10),
        (Component::Reference(Reference::parse("x")), 10),
    ];
    for (component, expected) in &variants {
        assert_eq!(component.rank(), *expected);
    }
}

#[test]
fn text_treatments_render_to_their_templates() {
    assert_eq!(TextChunk::new("x", TextType::Normal).to_string(), "x ");
    assert_eq!(TextChunk::new("x", TextType::Bold).to_string(), "\\textbf{x} ");
    assert_eq!(TextChunk::new("x", TextType::Italic).to_string(), "\\textit{x} ");
    assert_eq!(TextChunk::new("x", TextType::Teletype).to_string(), "\\texttt{x} ");
    assert_eq!(TextChunk::new("x", TextType::MathBb).to_string(), "\\mathbb{x} ");
    assert_eq!(TextChunk::new("x", TextType::InlineMath).to_string(), "\\(x\\)");
    assert_eq!(TextChunk::new("x", TextType::DisplayMath).to_string(), "\\[x\\]");
    assert_eq!(TextChunk::new("x", TextType::Scope).to_string(), "\\{x\\}");
    assert_eq!(TextChunk::new("x", TextType::Verbatim).to_string(), "\\verb|x|");
    assert_eq!(TextChunk::new("x", TextType::Strikethrough).to_string(), "\\sout{x} ");
}

#[test]
fn builtins_render_their_operands_through_the_operand_treatment() {
    let phi = Builtin::new(BuiltinType::Character(String::from("phi")));
    assert_eq!(phi.to_string(), "\\phi");
    let sum = Builtin::new(BuiltinType::Sum(
        TextChunk::new("i=0", TextType::Normal),
        TextChunk::new("n", TextType::MathRm),
    ));
    assert_eq!(sum.to_string(), "\\sum_{i=0 }^{\\mathrm{n} }");
    let surround = Builtin::new(BuiltinType::Surround('(', TextChunk::raw("y"), ')'));
    assert_eq!(surround.to_string(), "\\left( y  \\right)");
    let sin = Builtin::new(BuiltinType::Sin(TextChunk::raw("t")));
    assert_eq!(sin.to_string(), "\\sin{t }");
}

#[test]
fn labels_and_references_render_with_their_category_prefix() {
    assert_eq!(Label::parse("fig:plot1").to_string(), " \\label{fig:plot1} \n");
    assert_eq!(Label::parse("plain").to_string(), " \\label{std:plain} \n");
    assert_eq!(Reference::parse("eq:euler").to_string(), "~\\ref{eq:euler} \n");
    assert_eq!(Reference::parse("nope").to_string(), "~\\ref{std:nope} \n");
}

#[test]
fn row_cells_are_joined_with_the_column_separator() {
    let row = Row::with_cells(vec![chunk("a"), chunk("b"), chunk("c")]);
    assert_eq!(row.to_string(), "a  & b  & c  \\\\ \n");
    let single = Row::with_cells(vec![chunk("a")]);
    assert_eq!(single.to_string(), "a  \\\\ \n");
    let empty = Row::new();
    assert_eq!(empty.to_string(), " \\\\ \n");
}

#[test]
fn table_renders_column_spec_and_rows() {
    let head = Row::with_cells(vec![chunk("h1"), chunk("h2")]);
    let body = Row::with_cells(vec![chunk("a"), chunk("b")]);
    let table = Table::with_rows(2, head, vec![Component::Row(body)]);
    assert_eq!(
        table.to_string(),
        "\\begin{tabular}{|c|c|} \n \\hline \n h1  & h2  \\\\ \n \n \\hline \n a  & b  \\\\ \n \\hline \\end{tabular} "
    );
}

#[test]
fn line_of_only_whitespace_children_renders_as_bare_newline() {
    let mut blank = Line::new();
    blank.attach(chunk("   ")).unwrap();
    blank.attach(chunk("\t")).unwrap();
    assert_eq!(blank.to_string(), "\n");

    let empty = Line::new();
    assert_eq!(empty.to_string(), "\n");

    let mut full = Line::new();
    full.attach(chunk("words")).unwrap();
    assert_eq!(full.to_string(), "words  \\\\\n");
}

#[test]
fn environment_and_list_render_their_options_joined() {
    let mut env = Environment::new("align");
    env.add_option("a");
    env.add_option("b");
    env.attach(chunk("x")).unwrap();
    assert_eq!(env.to_string(), "\\begin{align}[a, b] \n x  \n \\end{align} \n ");

    let mut list = List::new(ListType::Enumerate);
    list.attach(chunk("one")).unwrap();
    list.attach(chunk("two")).unwrap();
    assert_eq!(
        list.to_string(),
        "\\begin{enumerate}[] \n \t\\item one \n\t\\item two \n \n \\end{enumerate} \n "
    );
}

#[test]
fn image_and_figure_render_options_and_caption() {
    let img = Image::with_options("shot.png", vec![String::from("width=5cm")]);
    assert_eq!(img.to_string(), "\\includegraphics[width=5cm, ]{shot.png} \n");

    let fig = Figure { img: Image::new("p.png"), caption: String::from("cap"), opt: vec![] };
    assert_eq!(
        fig.to_string(),
        "\\begin{figure}[] \n \\centering \n \\includegraphics[]{p.png} \n \n \\caption{cap} \n \\end{figure} "
    );
}

#[test]
fn sectioning_containers_escape_their_names() {
    let part = Part::new("a_b");
    assert_eq!(part.to_string(), "\\part{a\\_b} \n  \n ");
    let section = Section::new("50% of $");
    assert_eq!(section.to_string(), "\\section{50\\% of \\$} \n  \n ");
    let chapter = Chapter::new("plain");
    assert_eq!(chapter.to_string(), "\\chapter{plain} \n  \n ");
}

#[test]
fn escape_handles_default_and_custom_sets() {
    assert_eq!(escape("a_b^c#d", None), "a\\_b\\^c\\#d");
    assert_eq!(escape("{x}", None), "\\{x\\}");
    assert_eq!(escape("a&b%c$d", None), "a\\&b\\%c\\$d");
    assert_eq!(escape("a_b", Some(&['&'])), "a_b");
    assert_eq!(escape("a&b", Some(&['&'])), "a\\&b");
    assert_eq!(escape("", None), "");
}

#[test]
fn paragraph_and_frame_render_around_children() {
    let mut para = Paragraph::new();
    para.attach(chunk("text")).unwrap();
    assert_eq!(para.to_string(), "\n\n text  \n\n ");

    let mut frame = Frame::new("Slide");
    frame.attach(chunk("body")).unwrap();
    assert_eq!(frame.to_string(), "\\begin{frame}{Slide} \n body  \\end{frame} \n ");

    let block = Block::new_untitled();
    assert_eq!(block.to_string(), "\\begin{block}{} \n  \\end{block} \n ");
}

#[test]
fn input_renders_by_name() {
    let input = Input { name: String::from("preamble") };
    assert_eq!(input.to_string(), "\\input{preamble}");
}
