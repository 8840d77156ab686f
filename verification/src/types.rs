//! Domain values shared by the feed payloads and the keymap actions.
use vstd::prelude::*;

verus! {

/// A feed category, such as `rust`.
#[derive(Debug, PartialEq, Eq, Hash)]
pub struct Category {
    name: String,
}

impl Category {
    /// A category with the given name.
    pub fn new(name: &str) -> (c: Category)
        ensures
            c@ == name@,
    {
        Category { name: name.to_owned() }
    }

    /// The name of this category.
    pub fn as_str(&self) -> (s: &str)
        ensures
            s@ == self@,
    {
        self.name.as_str()
    }
}

impl Clone for Category {
    fn clone(&self) -> (c: Self)
        ensures
            c == *self,
    {
        Category { name: self.name.clone() }
    }
}

impl View for Category {
    type V = Seq<char>;

    open spec fn view(&self) -> Seq<char> {
        self.name_view()
    }
}

impl Category {
    /// The characters of the category name.
    pub closed spec fn name_view(&self) -> Seq<char> {
        self.name@
    }
}

/// Format of a feed.
#[allow(non_camel_case_types)]
#[derive(Debug, Clone, Copy, PartialEq, Eq, Hash, Structural)]
pub enum FeedType {
    Atom,
    JSON,
    RSS0,
    RSS1,
    RSS2,
}

/// How strongly a feed is wanted.
#[derive(Debug, Clone, Copy, PartialEq, Eq, Hash, Structural)]
pub enum Requirement {
    Must,
    Should,
    May,
}

/// Where a page of results ends.
#[derive(Debug, Clone, PartialEq, Eq)]
pub struct PageInfo {
    pub has_next_page: bool,
    pub end_cursor: Option<String>,
}

/// Metadata of one entry of a feed.
#[derive(Debug, Clone, PartialEq, Eq)]
pub struct EntryMeta {
    pub title: Option<String>,
    pub published: Option<String>,
    pub updated: Option<String>,
    pub summary: Option<String>,
}

/// A link of a feed.
#[derive(Debug, Clone, PartialEq, Eq)]
pub struct Link {
    pub href: String,
    pub rel: Option<String>,
    pub media_type: Option<String>,
    pub title: Option<String>,
}

/// A subscribed feed as exported and imported.
#[derive(Debug, Clone, PartialEq, Eq)]
pub struct ExportedFeed {
    pub title: Option<String>,
    pub url: String,
    pub requirement: Option<Requirement>,
    pub category: Option<Category>,
}

} // verus!
