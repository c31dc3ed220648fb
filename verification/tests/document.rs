use rust_texas::commands::Command;
use rust_texas::component::Component;
use rust_texas::component::beamer::Frame;
use rust_texas::component::hierarchy::Section;
use rust_texas::component::textchunk::TextChunk;
use rust_texas::component::textchunk::TextType;
use rust_texas::document::Document;
use rust_texas::document::DocumentClass;
use rust_texas::document::DocumentClassType;
use rust_texas::document::Package;
use rust_texas::errors::TexError;
use rust_texas::label::Label;
use rust_texas::traits::AsLatex;
use rust_texas::traits::Opt;
use rust_texas::traits::Populate;

fn chunk(text: &str) -> Component {
    Component::TextChunk(TextChunk::new(text, TextType::Normal))
}

#[test]
fn new_document_registers_the_two_default_packages() {
    let doc = Document::new(DocumentClass::new("article"));
    assert_eq!(doc.packages.len(), 2);
    assert_eq!(doc.packages[0].name, "graphicx");
    assert_eq!(doc.packages[1].name, "hyperref");
    assert!(doc.graphics_path.is_none());
}

#[test]
fn empty_article_renders_in_the_fixed_order() {
    let doc = Document::new(DocumentClass::new("article"));
    let mut expected = String::new();
    expected.push_str("\\documentclass[]{article}\n");
    expected.push_str("\\usepackage[]{graphicx}\n\\usepackage[]{hyperref}\n\n");
    expected.push_str("\n");
    expected.push_str("\\begin{document}\n");
    expected.push_str("\n");
    expected.push_str("\\title{title}\n\\author{author}\n\n\n\\maketitle\n\n");
    expected.push_str("\n");
    expected.push_str("\n\\end{document}");
    assert_eq!(doc.to_string(), expected);
}

#[test]
fn scratch_mode_suppresses_the_metadata_block() {
    let mut doc = Document::new(DocumentClass::new("article"));
    doc.scratch();
    let rendered = doc.to_string();
    assert!(!rendered.contains("\\maketitle"));
    assert!(!rendered.contains("\\title{"));
}

#[test]
fn rendering_twice_yields_byte_identical_output() {
    let mut doc = Document::new(DocumentClass::new("book"));
    doc.set_md("My Book", &["First Author", "Second Author"]);
    doc.new_command(Command::new("brak", 1, "\\ensuremath{\\left(#1\\right)}"));
    let mut section = Component::Section(Section::new("one"));
    section.attach(chunk("text")).unwrap();
    doc.new_component(section);
    assert_eq!(doc.to_string(), doc.to_string());
}

#[test]
fn authors_are_joined_with_the_and_separator() {
    let mut doc = Document::new(DocumentClass::new("article"));
    doc.set_md("t", &["alice", "bob"]);
    let rendered = doc.to_string();
    assert!(rendered.contains("\\author{alice\\\\ \\and bob}"));
}

#[test]
fn beamer_with_toc_emits_the_two_auto_frames_before_user_content() {
    let mut doc = Document::new(DocumentClass::new("beamer"));
    doc.metadata.tableofcontents = true;
    let mut user = Frame::new("User Slide");
    user.attach(chunk("body")).unwrap();
    doc.new_component(Component::Frame(user));

    let rendered = doc.to_string();
    let body_start = rendered.find("\\begin{document}").unwrap();
    let title_frame = rendered.find("\\titlepage").unwrap();
    let toc_frame = rendered.find("\\begin{frame}{} \n \\tableofcontents").unwrap();
    let user_frame = rendered.find("\\begin{frame}{User Slide}").unwrap();
    assert!(body_start < title_frame);
    assert!(title_frame < toc_frame);
    assert!(toc_frame < user_frame);
    assert_eq!(rendered.matches("\\titlepage").count(), 1);
}

#[test]
fn beamer_with_toc_renders_the_exact_preamble() {
    let mut doc = Document::new(DocumentClass::new("beamer"));
    doc.metadata.tableofcontents = true;
    let mut expected = String::new();
    expected.push_str("\\documentclass[]{beamer}\n");
    expected.push_str("\\usepackage[]{graphicx}\n\\usepackage[]{hyperref}\n\n");
    expected.push_str("\n");
    expected.push_str("\\begin{document}\n");
    expected.push_str("\\begin{frame}{} \n \\titlepage  \\end{frame} \n \n");
    expected.push_str("\\begin{frame}{} \n \\tableofcontents  \\end{frame} \n \n");
    expected.push_str("\\title{title}\n\\author{author}\n\n\n");
    expected.push_str("\n");
    expected.push_str("\n\\end{document}");
    assert_eq!(doc.to_string(), expected);
}

#[test]
fn beamer_without_toc_emits_only_the_title_frame() {
    let doc = Document::new(DocumentClass::new("beamer"));
    let rendered = doc.to_string();
    assert!(rendered.contains("\\titlepage"));
    assert!(!rendered.contains("\\begin{frame}{} \n \\tableofcontents"));
}

#[test]
fn disabling_graphics_removes_every_instance_of_the_package() {
    let mut doc = Document::new(DocumentClass::new("article"));
    doc.enable_graphicx("../img");
    doc.enable_graphicx("more");
    doc.disable_graphicx();
    assert!(!doc.to_string().contains("graphicx"));

    doc.enable_graphicx("again");
    assert!(doc.to_string().contains("graphicx"));
    doc.disable_graphicx();
    assert!(!doc.to_string().contains("graphicx"));
    assert!(doc.graphics_path.is_none());
}

#[test]
fn disabling_hyperref_keeps_the_other_packages() {
    let mut doc = Document::new(DocumentClass::new("article"));
    doc.new_package(Package::new("parskip"));
    doc.disable_hyperref();
    let rendered = doc.to_string();
    assert!(!rendered.contains("hyperref"));
    assert!(rendered.contains("\\usepackage[]{graphicx}"));
    assert!(rendered.contains("\\usepackage[]{parskip}"));
}

#[test]
fn duplicate_packages_are_emitted_twice() {
    let mut doc = Document::new(DocumentClass::new("article"));
    doc.new_package(Package::new("parskip"));
    doc.new_package(Package::new("parskip"));
    assert_eq!(doc.to_string().matches("\\usepackage[]{parskip}").count(), 2);
}

#[test]
fn package_options_render_inside_the_brackets() {
    let mut doc = Document::new(DocumentClass::new("article"));
    let mut parskip = Package::new("parskip");
    parskip.add_option("parfill");
    doc.new_package(parskip);
    assert!(doc.to_string().contains("\\usepackage[parfill, ]{parskip}"));
}

#[test]
fn graphics_path_renders_each_path_braced() {
    let mut doc = Document::new(DocumentClass::new("article"));
    doc.enable_graphicx("../img");
    doc.push_gpath("../more");
    assert!(doc.to_string().contains("\\graphicspath{{../img}, {../more}, } \n"));
}

#[test]
fn get_command_finds_registered_macros_and_misses_cleanly() {
    let mut doc = Document::new(DocumentClass::new("article"));
    doc.new_command(Command::new("brak", 1, "\\ensuremath{\\left(#1\\right)}"));

    let found = doc.get_command("brak").unwrap();
    assert_eq!(found.name, "brak");
    assert_eq!(found.nargs, 1);
    assert_eq!(found.call(vec!["there"]).unwrap(), "\\brak{there}");

    assert_eq!(doc.get_command("missing").unwrap_err(), TexError::Undefined);
}

#[test]
fn redeclaring_a_macro_overwrites_in_place() {
    let mut doc = Document::new(DocumentClass::new("article"));
    doc.new_command(Command::new("a", 1, "first"));
    doc.new_command(Command::new("b", 1, "second"));
    doc.new_command(Command::new("a", 2, "third"));

    assert_eq!(doc.commands.len(), 2);
    let a = doc.get_command("a").unwrap();
    assert_eq!(a.nargs, 2);
    assert_eq!(a.def, "third");

    let rendered = doc.to_string();
    let a_pos = rendered.find("\\newcommand{\\a}[2]{third}").unwrap();
    let b_pos = rendered.find("\\newcommand{\\b}[1]{second}").unwrap();
    assert!(a_pos < b_pos);
    assert!(!rendered.contains("first"));
}

#[test]
fn command_invocations_embed_as_components() {
    let mut doc = Document::new(DocumentClass::new("article"));
    doc.new_command(Command::new("brak", 1, "\\ensuremath{\\left(#1\\right)}"));
    let mut section = Component::Section(Section::new("one"));
    let call = doc.get_command("brak").unwrap().call(vec!["hello"]).unwrap();
    section.attach(Component::Command(call)).unwrap();
    doc.new_component(section);
    assert!(doc.to_string().contains("\\section{one} \n \\brak{hello} \n "));
}

#[test]
fn document_class_options_render_in_the_class_line() {
    let mut doc = Document::new(DocumentClass::new("report"));
    doc.add_option("12pt");
    assert!(doc.to_string().starts_with("\\documentclass[12pt, ]{report}\n"));
}

#[test]
fn date_flag_adds_the_date_to_the_metadata_block() {
    let mut doc = Document::new(DocumentClass::new("article"));
    doc.metadata.date = true;
    assert!(doc.to_string().contains("\\today"));

    let mut slides = Document::new(DocumentClass::new("beamer"));
    slides.metadata.date = true;
    assert!(slides.to_string().contains("\\date{\\today}"));
}

#[test]
fn unknown_class_literals_fall_back_to_article() {
    let doc = Document::new(DocumentClass::new(""));
    assert!(doc.to_string().starts_with("\\documentclass[]{article}"));
    assert_eq!(DocumentClassType::from("beamer"), DocumentClassType::Beamer);
    assert_eq!(DocumentClassType::from("gibberish"), DocumentClassType::Article);
}

#[test]
fn label_parse_splits_on_the_first_colon() {
    assert_eq!(Label::parse("fig:plot1"), Label::Figure(String::from("plot1")));
    assert_eq!(Label::parse("plot1"), Label::Standard(String::from("plot1")));
    assert_eq!(Label::parse("x"), Label::Standard(String::from("x")));
    assert_eq!(Label::parse(""), Label::Standard(String::from("")));
    assert_eq!(Label::parse(":abc"), Label::Standard(String::from(":abc")));
    assert_eq!(Label::parse("std:x"), Label::Standard(String::from("std:x")));
    assert_eq!(Label::parse("subsec:deep"), Label::Subsection(String::from("deep")));
    assert_eq!(Label::parse("ch:a:b"), Label::Chapter(String::from("a:b")));
}

#[test]
fn text_type_literals_cover_aliases_and_fall_back_to_normal() {
    assert_eq!(TextType::from("bold"), TextType::Bold);
    assert_eq!(TextType::from("strongemph"), TextType::Bold);
    assert_eq!(TextType::from("inline"), TextType::InlineMath);
    assert_eq!(TextType::from("dollar"), TextType::InlineMath);
    assert_eq!(TextType::from("ss"), TextType::Strikethrough);
    assert_eq!(TextType::from("nonsense"), TextType::Normal);
}

#[test]
fn attach_vec_on_a_document_accepts_any_batch() {
    let mut doc = Document::new(DocumentClass::new("book"));
    doc.attach_vec(vec![
        Component::Section(Section::new("a")),
        chunk("loose text"),
    ])
    .unwrap();
    assert_eq!(doc.components.len(), 2);
    doc.attach_vec(vec![]).unwrap();
    assert_eq!(doc.components.len(), 2);
}
