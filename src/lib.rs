//! HTML templates lowered to chunks, with their meaning proved.
//!
//! A parsed template is a tree of `node::Node`s whose host expressions are named by
//! ids. `lower::lower` turns it into literal chunks and holes, and proves that the
//! chunks render `lower::html`, the template's HTML, whatever text the expressions
//! produce. At run time each hole is evaluated once, through `IntoHyperText` or
//! `IntoAttrText`, and `lower::render` concatenates the chunks. `diag::check` reports
//! the problems of a template beside its lowered form; `laws` states what holds of
//! every template.

pub mod attr;
pub mod config;
pub mod diag;
pub mod headers;
pub mod hyper;
pub mod inline;
pub mod laws;
pub mod lower;
pub mod node;
pub mod view;

pub use attr::IntoAttrText;
pub use hyper::HyperText;
pub use hyper::IntoHyperText;
pub use view::encode_text;
pub use view::IntoView;
