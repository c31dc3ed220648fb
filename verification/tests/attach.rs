use rust_texas::commands::Command;
use rust_texas::component::Component;
use rust_texas::component::hierarchy::Chapter;
use rust_texas::component::hierarchy::Part;
use rust_texas::component::hierarchy::Section;
use rust_texas::component::image::Image;
use rust_texas::component::textchunk::TextChunk;
use rust_texas::component::textchunk::TextType;
use rust_texas::errors::TexError;
use rust_texas::label::Label;
use rust_texas::traits::AsLatex;
use rust_texas::traits::Populate;

fn chunk(text: &str) -> Component {
    Component::TextChunk(TextChunk::new(text, TextType::Normal))
}

#[test]
fn attach_succeeds_exactly_when_child_rank_is_at_least_parent_rank() {
    let mut part = Component::Part(Part::new("p"));
    assert!(part.attach(Component::Chapter(Chapter::new("c"))).is_ok());
    assert!(part.attach(chunk("t")).is_ok());

    let mut section = Component::Section(Section::new("s"));
    let refused = section.attach(Component::Part(Part::new("p")));
    assert_eq!(refused, Err(TexError::RankMismatch(0, 2)));
    let refused = section.attach(Component::Chapter(Chapter::new("c")));
    assert_eq!(refused, Err(TexError::RankMismatch(1, 2)));
    assert!(section.attach(Component::Section(Section::new("inner"))).is_ok());
}

#[test]
fn attach_on_a_leaf_variant_reports_the_missing_capability() {
    let mut image = Component::Image(Image::new("i.png"));
    let refused = image.attach(chunk("t"));
    assert_eq!(refused, Err(TexError::TraitUnimplemented(String::from("Image"))));

    let mut label = Component::Label(Label::parse("fig:f"));
    let refused = label.attach(chunk("t"));
    assert_eq!(refused, Err(TexError::TraitUnimplemented(String::from("Label"))));
}

#[test]
fn text_chunk_attach_concatenates_bodies_exactly() {
    let mut chunk_parent = Component::TextChunk(TextChunk::new("Hello", TextType::Normal));
    chunk_parent.attach(chunk(", world")).unwrap();
    match &chunk_parent {
        Component::TextChunk(t) => assert_eq!(t.body, "Hello, world"),
        _ => panic!(),
    }
    assert_eq!(chunk_parent.to_string(), "Hello, world ");
}

#[test]
fn text_chunk_attach_refuses_any_other_variant() {
    let mut chunk_parent = Component::TextChunk(TextChunk::new("Hello", TextType::Normal));
    let refused = chunk_parent.attach(Component::Label(Label::parse("x")));
    assert_eq!(refused, Err(TexError::RankMismatch(10, 10)));
    assert_eq!(chunk_parent.to_string(), "Hello ");
}

#[test]
fn attach_vec_appends_the_whole_batch_in_order() {
    let mut part = Component::Part(Part::new("p"));
    part.attach_vec(vec![
        Component::Chapter(Chapter::new("one")),
        Component::Chapter(Chapter::new("two")),
    ])
    .unwrap();
    match &part {
        Component::Part(p) => assert_eq!(p.components.len(), 2),
        _ => panic!(),
    }
    assert_eq!(
        part.to_string(),
        "\\part{p} \n \\chapter{one} \n  \n \\chapter{two} \n  \n  \n "
    );
}

#[test]
fn attach_vec_is_atomic_on_a_rank_violation() {
    let mut section = Component::Section(Section::new("s"));
    section.attach(chunk("kept")).unwrap();
    let before = section.to_string();

    let refused = section.attach_vec(vec![
        chunk("fine"),
        Component::Part(Part::new("violates")),
        chunk("fine too"),
    ]);
    assert_eq!(refused, Err(TexError::RankMismatch(0, 2)));

    match &section {
        Component::Section(s) => assert_eq!(s.components.len(), 1),
        _ => panic!(),
    }
    assert_eq!(section.to_string(), before);
}

#[test]
fn attach_vec_of_an_empty_batch_fails_without_mutation() {
    let mut part = Component::Part(Part::new("p"));
    let refused = part.attach_vec(vec![]);
    assert_eq!(
        refused,
        Err(TexError::WhatEven(String::from("cannot attach an empty batch of children")))
    );
    match &part {
        Component::Part(p) => assert_eq!(p.components.len(), 0),
        _ => panic!(),
    }
}

#[test]
fn text_chunk_attach_vec_is_atomic_over_mixed_batches() {
    let mut chunk_parent = Component::TextChunk(TextChunk::new("a", TextType::Normal));
    chunk_parent
        .attach_vec(vec![chunk("b"), chunk("c")])
        .unwrap();
    assert_eq!(chunk_parent.to_string(), "abc ");

    let refused = chunk_parent.attach_vec(vec![chunk("d"), Component::Row(
        rust_texas::component::table::Row::new(),
    )]);
    assert_eq!(refused, Err(TexError::RankMismatch(10, 10)));
    assert_eq!(chunk_parent.to_string(), "abc ");
}

#[test]
fn command_call_enforces_its_arity_exactly() {
    let brak = Command::new("brak", 1, "\\ensuremath{\\left(#1\\right)}");
    assert_eq!(brak.call(vec![]), Err(TexError::ArgLen));
    assert_eq!(brak.call(vec!["a", "b"]), Err(TexError::ArgLen));
    assert_eq!(brak.call(vec!["hello"]), Ok(String::from("\\brak{hello}")));

    let pair = Command::new("pair", 2, "#1 and #2");
    assert_eq!(pair.call(vec!["x", "y"]), Ok(String::from("\\pair{x}{y}")));
}

#[test]
fn command_declare_renders_the_newcommand_line() {
    let brak = Command::new("brak", 1, "\\ensuremath{\\left(#1\\right)}");
    assert_eq!(
        brak.declare(),
        "\\newcommand{\\brak}[1]{\\ensuremath{\\left(#1\\right)}} "
    );
    let wide = Command::new("wide", 12, "#1");
    assert_eq!(wide.declare(), "\\newcommand{\\wide}[12]{#1} ");
}

#[test]
fn errors_carry_readable_messages() {
    assert_eq!(
        TexError::RankMismatch(3, 1).message(),
        "Rank mismatch: 3 < 1."
    );
    assert_eq!(TexError::ArgLen.message(), "Incorrect number of arguments.");
    assert_eq!(TexError::Undefined.message(), "Object not defined.");
    assert_eq!(
        TexError::TraitUnimplemented(String::from("Image")).message(),
        "Image does not implement the trait you desire (probably Populate)."
    );
}
