//! Building the catalog from the link database, page by page.
//!
//! The database is queried by the caller. This module says what to ask
//! ([`notion_query`], [`query_params`]), turns each row into a link
//! ([`link_of`]) and decides, after every answer, whether to ask again,
//! to stop with the catalog or to give up ([`Ingest::advance`]).

use vstd::prelude::*;
use vstd::string::StringExecFns;

use crate::config::{Environment, EnvironmentView};
use crate::error::{ConfigVar, DigestError};
use crate::http::{is_served, served};
use crate::notion::{
    LinkView, NotionLink, NotionPage, NotionPages, NotionResult, PageView, Params, ParamsView,
    ResultView, Sort, SortView,
};

verus! {

/// The link that a row stands for. Its title is the first fragment of the
/// row's title, and empty where the row's title has no fragment.
pub open spec fn project(row: ResultView) -> LinkView {
    LinkView {
        link_id: row.link_id,
        url: row.url,
        title: if row.titles.len() > 0 {
            row.titles[0]
        } else {
            Seq::empty()
        },
    }
}

/// The links that a page's rows stand for, in the page's order.
pub open spec fn project_all(rows: Seq<ResultView>) -> Seq<LinkView> {
    rows.map_values(|row: ResultView| project(row))
}

/// The catalog that a sequence of pages amounts to: the links of the first
/// page, then those of the second, and so on.
pub open spec fn catalog_of(pages: Seq<PageView>) -> Seq<LinkView>
    decreases pages.len(),
{
    if pages.len() == 0 {
        Seq::empty()
    } else {
        catalog_of(pages.drop_last()) + project_all(pages.last().results)
    }
}

/// The body of a query: newest rows first, from `cursor` on where there is
/// one.
pub open spec fn params_from(cursor: Option<Seq<char>>) -> ParamsView {
    ParamsView {
        sorts: seq![SortView { property: "Created"@, direction: "descending"@ }],
        start_cursor: cursor,
    }
}

/// The address that queries of the database `database_id` go to.
pub open spec fn query_url(database_id: Seq<char>) -> Seq<char> {
    "https://api.notion.com/v1/databases/"@ + database_id + "/query"@
}

/// The link that a row stands for.
pub fn link_of(row: &NotionResult) -> (link: NotionLink)
    ensures
        link.deep_view() == project(row.deep_view()),
{
    let title = if row.properties.name.title.len() > 0 {
        row.properties.name.title[0].text.content.clone()
    } else {
        String::new()
    };
    NotionLink { link_id: row.link_id.clone(), url: row.properties.url.url.clone(), title }
}

/// The links that the rows of a page stand for, in the page's order.
pub fn links_of(rows: &Vec<NotionResult>) -> (links: Vec<NotionLink>)
    ensures
        links.deep_view() == project_all(rows.deep_view()),
{
    let mut links: Vec<NotionLink> = Vec::new();
    let mut done: usize = 0;
    while done < rows.len()
        invariant
            done <= rows.len(),
            links.deep_view() == project_all(rows.deep_view()).take(done as int),
        decreases rows.len() - done,
    {
        let ghost before = links.deep_view();
        let link = link_of(&rows[done]);
        let ghost added = link.deep_view();
        links.push(link);
        done = done + 1;
        assert(links.deep_view() =~= before.push(added));
        assert(project_all(rows.deep_view()).take(done as int) =~= before.push(added));
    }
    assert(project_all(rows.deep_view()).take(done as int) =~= project_all(rows.deep_view()));
    links
}

/// The body of a query that goes on from `cursor`, or of the first query
/// where there is none.
pub fn query_params(cursor: Option<String>) -> (params: Params)
    ensures
        params.deep_view() == params_from(cursor.deep_view()),
{
    let mut sorts: Vec<Sort> = Vec::new();
    sorts.push(
        Sort { property: String::from_str("Created"), direction: String::from_str("descending") },
    );
    let params = Params { sorts, start_cursor: cursor };
    assert(params.deep_view().sorts =~= params_from(cursor.deep_view()).sorts);
    params
}

/// One query, ready to be sent: a `POST` of `params` to `url`, authorised
/// by the bearer token.
#[derive(Debug, Clone, PartialEq, Eq)]
pub struct NotionQuery {
    pub url: String,
    pub bearer: String,
    pub params: Params,
}

/// What a [`NotionQuery`] holds.
pub struct QueryView {
    pub url: Seq<char>,
    pub bearer: Seq<char>,
    pub params: ParamsView,
}

impl DeepView for NotionQuery {
    type V = QueryView;

    open spec fn deep_view(&self) -> QueryView {
        QueryView { url: self.url@, bearer: self.bearer@, params: self.params.deep_view() }
    }
}

/// The query that asks the configured database for `params`.
///
/// The token is looked up first, then the database: the first of the two
/// that is not set is reported as `ConfigMissing`.
pub open spec fn query_for(env: EnvironmentView, params: ParamsView) -> Result<
    QueryView,
    DigestError,
> {
    match (env.notion_api_key, env.notion_database_id) {
        (Some(key), Some(database)) => Ok(
            QueryView { url: query_url(database), bearer: key, params },
        ),
        (Some(_), None) => Err(DigestError::ConfigMissing(ConfigVar::NotionDatabaseId)),
        (None, _) => Err(DigestError::ConfigMissing(ConfigVar::NotionApiKey)),
    }
}

/// What a query that may be missing a variable holds.
pub open spec fn query_view(query: Result<NotionQuery, DigestError>) -> Result<
    QueryView,
    DigestError,
> {
    match query {
        Ok(query) => Ok(query.deep_view()),
        Err(error) => Err(error),
    }
}

/// The query that asks the configured database for `params`.
pub fn notion_query(env: &Environment, params: Params) -> (query: Result<NotionQuery, DigestError>)
    ensures
        query_view(query) == query_for(env.deep_view(), params.deep_view()),
{
    let bearer = match env.require(ConfigVar::NotionApiKey) {
        Ok(key) => key,
        Err(missing) => {
            return Err(missing);
        },
    };
    let database = match env.require(ConfigVar::NotionDatabaseId) {
        Ok(id) => id,
        Err(missing) => {
            return Err(missing);
        },
    };
    let url = String::from_str("https://api.notion.com/v1/databases/").concat(
        database.as_str(),
    ).concat("/query");
    Ok(NotionQuery { url, bearer, params })
}

/// What came back for one query.
#[derive(Debug, Clone, PartialEq, Eq)]
pub enum PageReply {
    /// A page.
    Page(NotionPage),
    /// The database could not be reached, or answered with an error.
    TransportFailed,
    /// The answer could not be read as a page.
    DecodeFailed,
}

/// What a [`PageReply`] holds.
pub enum ReplyView {
    Page(PageView),
    TransportFailed,
    DecodeFailed,
}

impl DeepView for PageReply {
    type V = ReplyView;

    open spec fn deep_view(&self) -> ReplyView {
        match self {
            PageReply::Page(page) => ReplyView::Page(page.deep_view()),
            PageReply::TransportFailed => ReplyView::TransportFailed,
            PageReply::DecodeFailed => ReplyView::DecodeFailed,
        }
    }
}

/// What an answer of the link database amounts to, given its HTTP status
/// and its body as far as it could be read as a page: a failed query
/// where the status is not one of 200 to 299, whatever the body; else the
/// page, or a failure to decode where the body is no page.
pub open spec fn reply_for(status: u16, decoded: Option<PageView>) -> ReplyView {
    if !served(status) {
        ReplyView::TransportFailed
    } else {
        match decoded {
            Some(page) => ReplyView::Page(page),
            None => ReplyView::DecodeFailed,
        }
    }
}

/// What an answer of the link database amounts to. A query that got no
/// answer at all is a `PageReply::TransportFailed`.
pub fn page_reply(status: u16, decoded: Option<NotionPage>) -> (reply: PageReply)
    ensures
        reply.deep_view() == reply_for(status, decoded.deep_view()),
{
    if !is_served(status) {
        return PageReply::TransportFailed;
    }
    match decoded {
        Some(page) => PageReply::Page(page),
        None => PageReply::DecodeFailed,
    }
}

/// What to do after an answer.
#[derive(Debug, Clone, PartialEq, Eq)]
pub enum IngestAction {
    /// Ask again, with these parameters.
    Query(Params),
    /// The database is exhausted: this is the catalog.
    Finished(Vec<NotionLink>),
    /// Give up. Nothing is to be kept.
    Failed(DigestError),
}

/// What an [`IngestAction`] holds.
pub enum IngestActionView {
    Query(ParamsView),
    Finished(Seq<LinkView>),
    Failed(DigestError),
}

impl DeepView for IngestAction {
    type V = IngestActionView;

    open spec fn deep_view(&self) -> IngestActionView {
        match self {
            IngestAction::Query(params) => IngestActionView::Query(params.deep_view()),
            IngestAction::Finished(catalog) => IngestActionView::Finished(catalog.deep_view()),
            IngestAction::Failed(error) => IngestActionView::Failed(*error),
        }
    }
}

/// The pages that an ingest was answered with so far. The links gathered
/// from them are `catalog_of` these pages.
#[derive(Debug, PartialEq, Eq)]
pub struct Ingest {
    pages: NotionPages,
    links: Vec<NotionLink>,
}

/// A page that announces more pages names the cursor to go on from.
pub open spec fn well_formed(page: PageView) -> bool {
    page.has_more ==> page.next_cursor is Some
}

/// The pages after one more answer, and what to do next.
///
/// A failed query and a page that announces more without a cursor end the
/// ingest and leave the pages as they were. Any other page is taken in;
/// the ingest then goes on from the page's cursor, or is finished where
/// the page announces no more.
pub open spec fn ingest_step(pages: Seq<PageView>, reply: ReplyView) -> (
    Seq<PageView>,
    IngestActionView,
) {
    match reply {
        ReplyView::TransportFailed => (
            pages,
            IngestActionView::Failed(DigestError::IngestTransport),
        ),
        ReplyView::DecodeFailed => (pages, IngestActionView::Failed(DigestError::IngestDecode)),
        ReplyView::Page(page) => if !well_formed(page) {
            (pages, IngestActionView::Failed(DigestError::IngestProtocol))
        } else if page.has_more {
            (pages.push(page), IngestActionView::Query(params_from(page.next_cursor)))
        } else {
            (pages.push(page), IngestActionView::Finished(catalog_of(pages.push(page))))
        },
    }
}

/// Taking in one more page appends its links to the catalog.
pub proof fn lemma_catalog_of_push(pages: Seq<PageView>, page: PageView)
    ensures
        catalog_of(pages.push(page)) == catalog_of(pages) + project_all(page.results),
{
    assert(pages.push(page).drop_last() =~= pages);
}

/// The same links, copied.
fn copy_links(links: &Vec<NotionLink>) -> (copy: Vec<NotionLink>)
    ensures
        copy.deep_view() == links.deep_view(),
{
    let mut copy: Vec<NotionLink> = Vec::new();
    let mut done: usize = 0;
    while done < links.len()
        invariant
            done <= links.len(),
            copy.deep_view() == links.deep_view().take(done as int),
        decreases links.len() - done,
    {
        let ghost before = copy.deep_view();
        let link = links[done].clone();
        let ghost added = link.deep_view();
        copy.push(link);
        done = done + 1;
        assert(copy.deep_view() =~= before.push(added));
        assert(links.deep_view().take(done as int) =~= before.push(added));
    }
    assert(links.deep_view().take(done as int) =~= links.deep_view());
    copy
}

impl Ingest {
    #[verifier::type_invariant]
    spec fn gathered(&self) -> bool {
        self.links.deep_view() == catalog_of(self.pages.deep_view())
    }

    /// The pages that the ingest was answered with so far.
    pub closed spec fn pages_view(&self) -> Seq<PageView> {
        self.pages.deep_view()
    }

    /// An ingest that has not asked yet, and the parameters of its first
    /// query: they name no cursor.
    pub fn begin() -> (start: (Ingest, Params))
        ensures
            start.0.pages_view() == Seq::<PageView>::empty(),
            start.1.deep_view() == params_from(None),
    {
        let pages = NotionPages { pages: Vec::new() };
        let links: Vec<NotionLink> = Vec::new();
        assert(pages.deep_view() =~= Seq::<PageView>::empty());
        assert(links.deep_view() =~= catalog_of(pages.deep_view()));
        (Ingest { pages, links }, query_params(None))
    }

    /// The pages that the ingest was answered with so far.
    pub fn pages(&self) -> (pages: &NotionPages)
        ensures
            pages.deep_view() == self.pages_view(),
    {
        &self.pages
    }

    /// The links gathered so far.
    pub fn links(&self) -> (links: &Vec<NotionLink>)
        ensures
            links.deep_view() == catalog_of(self.pages_view()),
    {
        proof {
            use_type_invariant(self);
        }
        &self.links
    }

    /// Takes in the answer to the last query and says what to do next.
    pub fn advance(self, reply: PageReply) -> (step: (Ingest, IngestAction))
        ensures
            (step.0.pages_view(), step.1.deep_view()) == ingest_step(
                self.pages_view(),
                reply.deep_view(),
            ),
    {
        proof {
            use_type_invariant(&self);
        }
        match reply {
            PageReply::TransportFailed => (
                self,
                IngestAction::Failed(DigestError::IngestTransport),
            ),
            PageReply::DecodeFailed => (self, IngestAction::Failed(DigestError::IngestDecode)),
            PageReply::Page(page) => {
                let cursor = match &page.next_cursor {
                    Some(text) => Some(text.clone()),
                    None => None,
                };
                if page.has_more && cursor.is_none() {
                    return (self, IngestAction::Failed(DigestError::IngestProtocol));
                }
                let ghost before = self.pages.deep_view();
                let ghost taken = page.deep_view();
                let has_more = page.has_more;
                let mut found = links_of(&page.results);
                let Ingest { mut pages, mut links } = self;
                let ghost gathered = links.deep_view();
                links.append(&mut found);
                pages.pages.push(page);
                proof {
                    lemma_catalog_of_push(before, taken);
                    assert(pages.deep_view() =~= before.push(taken));
                    assert(links.deep_view() =~= gathered + project_all(taken.results));
                }
                let action = if has_more {
                    IngestAction::Query(query_params(cursor))
                } else {
                    IngestAction::Finished(copy_links(&links))
                };
                (Ingest { pages, links }, action)
            },
        }
    }
}

/// The links gathered depend on the pages alone: two ingests that were
/// answered with the same pages do the same after the same answer, and
/// where they finish, they finish with the same catalog.
pub proof fn lemma_ingest_is_determined(first: Ingest, second: Ingest, reply: ReplyView)
    requires
        first.pages_view() == second.pages_view(),
    ensures
        ingest_step(first.pages_view(), reply) == ingest_step(second.pages_view(), reply),
{
}

/// An ingest that is answered with well-formed pages, of which only the
/// last announces no more, asks again after each page but the last, each
/// time with the cursor that the page named, and finishes after the last
/// with the catalog of all pages.
pub proof fn lemma_ingest_run(pages: Seq<PageView>, upto: int)
    requires
        0 <= upto < pages.len(),
        forall|i: int| 0 <= i < pages.len() ==> well_formed(#[trigger] pages[i]),
        forall|i: int|
            0 <= i < pages.len() ==> (#[trigger] pages[i].has_more <==> i + 1 < pages.len()),
    ensures
        ingest_step(pages.take(upto), ReplyView::Page(pages[upto])) == if upto + 1 < pages.len() {
            (pages.take(upto + 1), IngestActionView::Query(params_from(pages[upto].next_cursor)))
        } else {
            (pages, IngestActionView::Finished(catalog_of(pages)))
        },
{
    assert(pages.take(upto).push(pages[upto]) =~= pages.take(upto + 1));
    if upto + 1 == pages.len() {
        assert(pages.take(upto + 1) =~= pages);
    }
}

} // verus!
