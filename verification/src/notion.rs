//! The records exchanged with the link database and kept in the two local
//! documents, each with the mathematical value that contracts speak of.
//!
//! Strings are compared by their characters, so every record has a deep
//! view in which each `String` is a `Seq<char>` and each `Vec` a `Seq`.

use vstd::prelude::*;

verus! {

/// One saved link of the catalog.
#[derive(Debug, PartialEq, Eq)]
pub struct NotionLink {
    pub link_id: String,
    pub url: String,
    pub title: String,
}

/// What a [`NotionLink`] holds.
pub struct LinkView {
    pub link_id: Seq<char>,
    pub url: Seq<char>,
    pub title: Seq<char>,
}

impl DeepView for NotionLink {
    type V = LinkView;

    open spec fn deep_view(&self) -> LinkView {
        LinkView { link_id: self.link_id@, url: self.url@, title: self.title@ }
    }
}

impl Clone for NotionLink {
    fn clone(&self) -> (copy: Self)
        ensures
            copy.deep_view() == self.deep_view(),
    {
        NotionLink {
            link_id: self.link_id.clone(),
            url: self.url.clone(),
            title: self.title.clone(),
        }
    }
}

/// The text of one fragment of a title.
#[derive(Debug, Clone, PartialEq, Eq)]
pub struct Content {
    pub content: String,
}

impl DeepView for Content {
    type V = Seq<char>;

    open spec fn deep_view(&self) -> Seq<char> {
        self.content@
    }
}

/// One fragment of a title.
#[derive(Debug, Clone, PartialEq, Eq)]
pub struct Title {
    pub text: Content,
}

impl DeepView for Title {
    type V = Seq<char>;

    open spec fn deep_view(&self) -> Seq<char> {
        self.text.deep_view()
    }
}

/// The `Name` property of a database row: its title, in fragments.
#[derive(Debug, Clone, PartialEq, Eq)]
pub struct Name {
    pub title: Vec<Title>,
}

impl DeepView for Name {
    type V = Seq<Seq<char>>;

    open spec fn deep_view(&self) -> Seq<Seq<char>> {
        self.title.deep_view()
    }
}

/// The `URL` property of a database row.
#[derive(Debug, Clone, PartialEq, Eq)]
pub struct Url {
    pub url: String,
}

impl DeepView for Url {
    type V = Seq<char>;

    open spec fn deep_view(&self) -> Seq<char> {
        self.url@
    }
}

/// The properties of a database row that the digest reads.
#[derive(Debug, Clone, PartialEq, Eq)]
pub struct Properties {
    pub url: Url,
    pub name: Name,
}

/// One row of the link database, as a query returns it.
#[derive(Debug, Clone, PartialEq, Eq)]
pub struct NotionResult {
    pub link_id: String,
    pub properties: Properties,
}

/// What a [`NotionResult`] holds: its id, its URL and the fragments of its
/// title.
pub struct ResultView {
    pub link_id: Seq<char>,
    pub url: Seq<char>,
    pub titles: Seq<Seq<char>>,
}

impl DeepView for NotionResult {
    type V = ResultView;

    open spec fn deep_view(&self) -> ResultView {
        ResultView {
            link_id: self.link_id@,
            url: self.properties.url.deep_view(),
            titles: self.properties.name.deep_view(),
        }
    }
}

/// One page of a query's answer.
#[derive(Debug, Clone, PartialEq, Eq)]
pub struct NotionPage {
    pub results: Vec<NotionResult>,
    pub has_more: bool,
    pub next_cursor: Option<String>,
}

/// What a [`NotionPage`] holds.
pub struct PageView {
    pub results: Seq<ResultView>,
    pub has_more: bool,
    pub next_cursor: Option<Seq<char>>,
}

impl DeepView for NotionPage {
    type V = PageView;

    open spec fn deep_view(&self) -> PageView {
        PageView {
            results: self.results.deep_view(),
            has_more: self.has_more,
            next_cursor: self.next_cursor.deep_view(),
        }
    }
}

/// The pages of one query, in the order in which they were answered.
#[derive(Debug, Clone, PartialEq, Eq)]
pub struct NotionPages {
    pub pages: Vec<NotionPage>,
}

impl DeepView for NotionPages {
    type V = Seq<PageView>;

    open spec fn deep_view(&self) -> Seq<PageView> {
        self.pages.deep_view()
    }
}

/// One sort criterion of a query.
#[derive(Debug, Clone, PartialEq, Eq)]
pub struct Sort {
    pub property: String,
    pub direction: String,
}

/// What a [`Sort`] holds.
pub struct SortView {
    pub property: Seq<char>,
    pub direction: Seq<char>,
}

impl DeepView for Sort {
    type V = SortView;

    open spec fn deep_view(&self) -> SortView {
        SortView { property: self.property@, direction: self.direction@ }
    }
}

/// The body of a query. The cursor is left out of the first request of a
/// query and names the place to go on from in each later one.
#[derive(Debug, Clone, PartialEq, Eq)]
pub struct Params {
    pub sorts: Vec<Sort>,
    pub start_cursor: Option<String>,
}

/// What a [`Params`] holds.
pub struct ParamsView {
    pub sorts: Seq<SortView>,
    pub start_cursor: Option<Seq<char>>,
}

impl DeepView for Params {
    type V = ParamsView;

    open spec fn deep_view(&self) -> ParamsView {
        ParamsView {
            sorts: self.sorts.deep_view(),
            start_cursor: self.start_cursor.deep_view(),
        }
    }
}

/// The record that a link went out in a digest: the link's id and the time,
/// in seconds since the epoch, written in decimal.
#[derive(Debug, PartialEq, Eq)]
pub struct SentLink {
    pub id: String,
    pub sent_at: String,
}

/// What a [`SentLink`] holds.
pub struct SentView {
    pub id: Seq<char>,
    pub sent_at: Seq<char>,
}

impl DeepView for SentLink {
    type V = SentView;

    open spec fn deep_view(&self) -> SentView {
        SentView { id: self.id@, sent_at: self.sent_at@ }
    }
}

impl Clone for SentLink {
    fn clone(&self) -> (copy: Self)
        ensures
            copy.deep_view() == self.deep_view(),
    {
        SentLink { id: self.id.clone(), sent_at: self.sent_at.clone() }
    }
}

} // verus!
