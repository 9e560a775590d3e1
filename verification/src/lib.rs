//! Documentation extractor for a library of named function definitions:
//! harvests doc comments attached to definitions, parses them into
//! structured entries, and renders those entries as lightweight markup
//! or as an XML manual section.

pub mod collect;
pub mod commonmark;
pub mod docbook;
pub mod entry;
pub mod events;
pub mod harvest;
pub mod parse;
pub mod text;

pub use collect::assemble_entries;
pub use collect::collect_entry_information;
pub use collect::collect_lambda_args;
pub use collect::retrieve_doc_item;
pub use collect::Binding;
pub use collect::Lambda;
pub use collect::Param;
pub use collect::PatEntry;
pub use commonmark::render_document;
pub use commonmark::write_heading;
pub use entry::Argument;
pub use entry::DocComment;
pub use entry::DocItem;
pub use entry::ManualEntry;
pub use entry::SingleArg;
pub use harvest::retrieve_doc_comment;
pub use harvest::Token;
pub use harvest::TokenKind;
pub use parse::parse_doc_comment;
