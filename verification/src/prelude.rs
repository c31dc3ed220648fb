//! One import for the whole construction surface of the library.

pub use crate::commands::Command;
pub use crate::component::Component;
pub use crate::component::beamer::Block;
pub use crate::component::beamer::Frame;
pub use crate::component::builtin::Builtin;
pub use crate::component::builtin::BuiltinType;
pub use crate::component::envs::Environment;
pub use crate::component::envs::Figure;
pub use crate::component::envs::List;
pub use crate::component::envs::ListType;
pub use crate::component::hierarchy::Chapter;
pub use crate::component::hierarchy::Line;
pub use crate::component::hierarchy::Paragraph;
pub use crate::component::hierarchy::Part;
pub use crate::component::hierarchy::Section;
pub use crate::component::hierarchy::Subsection;
pub use crate::component::image::Image;
pub use crate::component::misc::Input;
pub use crate::component::table::Row;
pub use crate::component::table::Table;
pub use crate::component::textchunk::TextChunk;
pub use crate::component::textchunk::TextType;
pub use crate::document::Document;
pub use crate::document::DocumentClass;
pub use crate::document::DocumentClassType;
pub use crate::document::Metadata;
pub use crate::document::Package;
pub use crate::errors::TexError;
pub use crate::errors::TexResult;
pub use crate::label::Label;
pub use crate::label::Reference;
pub use crate::traits::AsLatex;
pub use crate::traits::Opt;
pub use crate::traits::Populate;
pub use crate::escape;
