use rust_texas::component::Component;
use rust_texas::component::builtin::Builtin;
use rust_texas::component::builtin::BuiltinType;
use rust_texas::component::envs::List;
use rust_texas::component::envs::ListType;
use rust_texas::component::hierarchy::Chapter;
use rust_texas::component::hierarchy::Part;
use rust_texas::component::hierarchy::Section;
use rust_texas::component::hierarchy::Paragraph;
use rust_texas::component::textchunk::TextChunk;
use rust_texas::component::textchunk::TextType;
use rust_texas::document::Document;
use rust_texas::document::DocumentClass;
use rust_texas::traits::AsLatex;
use rust_texas::traits::Populate;

#[test]
fn deeply_nested_tree_renders_inside_out() {
    let sentence = "This is a test sentence.";
    let mut list = Component::List(List::new(ListType::Itemize));
    list.attach(Component::TextChunk(TextChunk::raw(sentence))).unwrap();
    list.attach(Component::TextChunk(TextChunk::raw(sentence))).unwrap();

    let mut para = Component::Paragraph(Paragraph::new());
    para.attach(list).unwrap();

    let mut sec = Component::Section(Section::new("test2"));
    sec.attach(para).unwrap();

    let mut chap = Component::Chapter(Chapter::new("test1"));
    chap.attach(sec).unwrap();

    let mut part = Component::Part(Part::new("test0"));
    part.attach(chap).unwrap();

    let list_tex = format!(
        "\\begin{{itemize}}[] \n \t\\item {s}\n\t\\item {s}\n \n \\end{{itemize}} \n ",
        s = format!("{sentence} ")
    );
    let para_tex = format!("\n\n {list_tex} \n\n ");
    let sec_tex = format!("\\section{{test2}} \n {para_tex} \n ");
    let chap_tex = format!("\\chapter{{test1}} \n {sec_tex} \n ");
    let part_tex = format!("\\part{{test0}} \n {chap_tex} \n ");
    assert_eq!(part.to_string(), part_tex);
}

#[test]
fn scratch_fragment_with_an_inline_builtin_renders_exactly() {
    let mut doc = Document::new(DocumentClass::new(""));
    doc.scratch();
    let phi = Builtin::new(BuiltinType::Character(String::from("phi")));
    doc.attach(Component::TextChunk(TextChunk::new(&phi.to_string(), TextType::InlineMath)))
        .unwrap();
    assert_eq!(
        doc.to_string(),
        "\\documentclass[]{article}\n\\usepackage[]{graphicx}\n\\usepackage[]{hyperref}\n\n\n\\begin{document}\n\n\n\n\\(\\phi\\)\n\\end{document}"
    );
}

#[test]
fn batch_attachment_builds_the_same_tree_as_single_attachments() {
    let mut one_by_one = Component::Part(Part::new("p"));
    one_by_one.attach(Component::Chapter(Chapter::new("c1"))).unwrap();
    one_by_one.attach(Component::Chapter(Chapter::new("c2"))).unwrap();

    let mut batched = Component::Part(Part::new("p"));
    batched
        .attach_vec(vec![
            Component::Chapter(Chapter::new("c1")),
            Component::Chapter(Chapter::new("c2")),
        ])
        .unwrap();

    assert_eq!(one_by_one.to_string(), batched.to_string());
}
