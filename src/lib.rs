//! Tabbed Markdown viewer state: the open documents, the active tab, the
//! status line and the text scale of the document area, with the decisions
//! that the viewer's actions make on them.

pub mod paths;
pub mod scale;
pub mod tabs;
pub mod laws;
