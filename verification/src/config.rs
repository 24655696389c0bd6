use vstd::prelude::*;

verus! {

/// A candidate text body: a title and the content that goes under it.
/// Read-only once loaded; every file generated from it copies its fields.
pub struct ContentTemplate {
    pub title: String,
    pub content: String,
}

/// The in-memory generation config: which years and departments make up the
/// directory tree, and which templates the files are drawn from.
/// The `authors` list is carried but never read by the generation logic,
/// which stamps a fixed author name instead.
pub struct ConfigModel {
    pub years: Vec<u16>,
    pub departments: Vec<String>,
    pub authors: Vec<String>,
    pub texts: Vec<ContentTemplate>,
}

} // verus!
