//! One run, from the catalog to the mail, as a sequence of steps.
//!
//! A [`Step`] says what the caller is to do next and holds what the run
//! needs afterwards. The caller does it and hands the outcome, with what
//! the step held, to the function that belongs to that step; it gets the
//! next step back. A run starts with [`start`] and ends with
//! [`Step::Exit`].
//!
//! The links of a digest are recorded as sent before the digest is
//! rendered and mailed, whether or not their pages could be fetched: a run
//! that fails after that does not send the same links again. Where no
//! page could be fetched the digest holds no link and is mailed all the
//! same.
//!
//! The sent-log is read once in a run, for the selection. What is written
//! after the selection is that log, with the new records in front.

use vstd::prelude::*;

use crate::config::{Environment, EnvironmentView};
use crate::enrich::{
    build_email_body, enrich_all, enriched_all, lemma_all_failed_none_kept,
    lemma_digest_links_were_selected, page_of, shows, shows_one_of, successes, EmailLink,
    EmailView,
};
use crate::error::DigestError;
use crate::ingest::{
    ingest_step, notion_query, params_from, query_for, Ingest, IngestAction, IngestActionView,
    NotionQuery, PageReply, QueryView, ReplyView,
};
use crate::mail::{
    dispatched, mail_outcome, report_outcome, MailReport, MailRequest, MailRequestView, Mailer,
    MailerView, mailer_for,
};
use crate::notion::{LinkView, NotionLink, PageView, Params, ParamsView, SentLink, SentView};
use crate::select::{
    is_selection, lemma_selection_avoids_sent, lemma_spent_catalog_empty_selection, select_links,
    sent_ids,
};
use crate::store::{
    append_sent, catalog_exists, load_catalog, load_sent, loaded_catalog, loaded_log,
    record_sent_links, saved, sent_records, Stored,
};

verus! {

/// What the caller is to do next.
#[derive(Debug, PartialEq, Eq)]
pub enum Step {
    /// Read the catalog's file. Go on with [`on_catalog_read`].
    ReadCatalog,
    /// Send `query` to the link database. Go on with [`on_page`].
    FetchPage { ingest: Ingest, query: NotionQuery },
    /// Write `catalog` to the catalog's file, in place of what it held. Go
    /// on with [`on_catalog_saved`].
    SaveCatalog { catalog: Vec<NotionLink> },
    /// Read the sent-log's file. Go on with [`on_sent_read`].
    ReadSent { catalog: Vec<NotionLink> },
    /// Fetch the page of each link of `selected`, and read the clock. Go
    /// on with [`on_fetched`].
    Enrich { selected: Vec<NotionLink>, log: Vec<SentLink> },
    /// Write `log` to the sent-log's file, in place of what it held. Go on
    /// with [`on_sent_saved`].
    SaveSent { log: Vec<SentLink>, links: Vec<EmailLink> },
    /// Render the digest of `links`. Go on with [`on_rendered`].
    Render { links: Vec<EmailLink> },
    /// Send `request`. Go on with [`on_mailed`].
    Send { request: MailRequest },
    /// The run is over.
    Exit(Result<(), DigestError>),
}

/// What a [`Step`] holds.
pub enum StepView {
    ReadCatalog,
    FetchPage { pages: Seq<PageView>, query: QueryView },
    SaveCatalog { catalog: Seq<LinkView> },
    ReadSent { catalog: Seq<LinkView> },
    Enrich { selected: Seq<LinkView>, log: Seq<SentView> },
    SaveSent { log: Seq<SentView>, links: Seq<EmailView> },
    Render { links: Seq<EmailView> },
    Send { request: MailRequestView },
    Exit(Result<(), DigestError>),
}

impl DeepView for Step {
    type V = StepView;

    open spec fn deep_view(&self) -> StepView {
        match self {
            Step::ReadCatalog => StepView::ReadCatalog,
            Step::FetchPage { ingest, query } => StepView::FetchPage {
                pages: ingest.pages_view(),
                query: query.deep_view(),
            },
            Step::SaveCatalog { catalog } => StepView::SaveCatalog { catalog: catalog.deep_view() },
            Step::ReadSent { catalog } => StepView::ReadSent { catalog: catalog.deep_view() },
            Step::Enrich { selected, log } => StepView::Enrich {
                selected: selected.deep_view(),
                log: log.deep_view(),
            },
            Step::SaveSent { log, links } => StepView::SaveSent {
                log: log.deep_view(),
                links: links.deep_view(),
            },
            Step::Render { links } => StepView::Render { links: links.deep_view() },
            Step::Send { request } => StepView::Send { request: request.deep_view() },
            Step::Exit(outcome) => StepView::Exit(*outcome),
        }
    }
}

/// The step that asks the link database for `params`, or the end of the
/// run where a variable that the query needs is not set.
pub open spec fn ask(env: EnvironmentView, pages: Seq<PageView>, params: ParamsView) -> StepView {
    match query_for(env, params) {
        Ok(query) => StepView::FetchPage { pages, query },
        Err(missing) => StepView::Exit(Err(missing)),
    }
}

/// What follows the reading of the catalog's file. A catalog that is
/// there is used as it is; only where there is no file the link database
/// is asked, from its first page on.
pub open spec fn after_catalog_read(
    env: EnvironmentView,
    document: Stored<Vec<NotionLink>>,
) -> StepView {
    if document is Absent {
        ask(env, Seq::empty(), params_from(None))
    } else {
        match loaded_catalog(document) {
            Ok(catalog) => StepView::ReadSent { catalog },
            Err(error) => StepView::Exit(Err(error)),
        }
    }
}

/// What follows an answer of the link database: the next query, the
/// saving of the catalog once the database is exhausted, or the end of
/// the run, before anything was written.
pub open spec fn after_page(
    env: EnvironmentView,
    pages: Seq<PageView>,
    reply: ReplyView,
) -> StepView {
    match ingest_step(pages, reply) {
        (taken, IngestActionView::Query(params)) => ask(env, taken, params),
        (_, IngestActionView::Finished(catalog)) => StepView::SaveCatalog { catalog },
        (_, IngestActionView::Failed(error)) => StepView::Exit(Err(error)),
    }
}

/// What follows the saving of a document: `then`, or the end of the run
/// where it was not written.
pub open spec fn after_saved(written: bool, then: StepView) -> StepView {
    if written {
        then
    } else {
        StepView::Exit(Err(DigestError::StoreIO))
    }
}

/// What follows the selection: the run ends, with nothing written and
/// nothing sent, where no link was selected.
pub open spec fn after_selection(selected: Seq<LinkView>, log: Seq<SentView>) -> StepView {
    if selected.len() == 0 {
        StepView::Exit(Ok(()))
    } else {
        StepView::Enrich { selected, log }
    }
}

/// What follows the fetching of the selected links' pages, at `now_secs`
/// seconds since the epoch: every selected link is recorded as sent,
/// ahead of the log's earlier records, and the links that could be
/// enriched make the digest.
pub open spec fn after_fetched(
    selected: Seq<LinkView>,
    log: Seq<SentView>,
    fetched: Seq<Option<Seq<char>>>,
    now_secs: nat,
) -> StepView {
    StepView::SaveSent {
        log: sent_records(selected, now_secs) + log,
        links: successes(enriched_all(selected, fetched)),
    }
}

/// What follows the rendering of the digest: its dispatch.
pub open spec fn after_rendered(mailer: MailerView, document: Seq<char>) -> StepView {
    match dispatched(mailer, document) {
        Ok(request) => StepView::Send { request },
        Err(missing) => StepView::Exit(Err(missing)),
    }
}

/// The way in which this run's digest goes out, and the run's first step.
pub fn start(env: &Environment) -> (begun: (Mailer, Step))
    ensures
        begun.0.deep_view() == mailer_for(env.deep_view()),
        begun.1.deep_view() == StepView::ReadCatalog,
{
    (Mailer::select(env), Step::ReadCatalog)
}

/// The step that asks the link database for `params`.
fn ask_for(env: &Environment, ingest: Ingest, params: Params) -> (step: Step)
    ensures
        step.deep_view() == ask(env.deep_view(), ingest.pages_view(), params.deep_view()),
{
    match notion_query(env, params) {
        Ok(query) => Step::FetchPage { ingest, query },
        Err(missing) => Step::Exit(Err(missing)),
    }
}

/// Goes on after [`Step::ReadCatalog`], with what reading the catalog's
/// file came to.
pub fn on_catalog_read(env: &Environment, document: Stored<Vec<NotionLink>>) -> (step: Step)
    ensures
        step.deep_view() == after_catalog_read(env.deep_view(), document),
{
    if !catalog_exists(&document) {
        let (ingest, params) = Ingest::begin();
        return ask_for(env, ingest, params);
    }
    match load_catalog(document) {
        Ok(catalog) => Step::ReadSent { catalog },
        Err(error) => Step::Exit(Err(error)),
    }
}

/// Goes on after [`Step::FetchPage`], with the step's ingest and the
/// answer to its query.
pub fn on_page(env: &Environment, ingest: Ingest, reply: PageReply) -> (step: Step)
    ensures
        step.deep_view() == after_page(env.deep_view(), ingest.pages_view(), reply.deep_view()),
{
    let (ingest, action) = ingest.advance(reply);
    match action {
        IngestAction::Query(params) => ask_for(env, ingest, params),
        IngestAction::Finished(catalog) => Step::SaveCatalog { catalog },
        IngestAction::Failed(error) => Step::Exit(Err(error)),
    }
}

/// Goes on after [`Step::SaveCatalog`], with the step's catalog and
/// whether it was written.
pub fn on_catalog_saved(catalog: Vec<NotionLink>, written: bool) -> (step: Step)
    ensures
        step.deep_view() == after_saved(
            written,
            StepView::ReadSent { catalog: catalog.deep_view() },
        ),
{
    match saved(written) {
        Ok(()) => Step::ReadSent { catalog },
        Err(error) => Step::Exit(Err(error)),
    }
}

/// Goes on with a selection that was made.
pub fn on_selection(selected: Vec<NotionLink>, log: Vec<SentLink>) -> (step: Step)
    ensures
        step.deep_view() == after_selection(selected.deep_view(), log.deep_view()),
{
    if selected.len() == 0 {
        Step::Exit(Ok(()))
    } else {
        Step::Enrich { selected, log }
    }
}

/// `step` follows some selection from the catalog's links that `log` does
/// not record, as [`after_selection`] says.
pub open spec fn follows_a_selection(
    step: StepView,
    catalog: Seq<LinkView>,
    log: Seq<SentView>,
) -> bool {
    exists|selected: Seq<LinkView>|
        #![trigger is_selection(selected, catalog, log)]
        is_selection(selected, catalog, log) && step == after_selection(selected, log)
}

/// Goes on after [`Step::ReadSent`], with the step's catalog and what
/// reading the sent-log's file came to: selects the links of the digest.
///
/// Which links are selected is left to chance. Whatever they are, they
/// are a selection from the catalog's unsent links, and the run goes on
/// as [`after_selection`] says.
pub fn on_sent_read(catalog: &Vec<NotionLink>, document: Stored<Vec<SentLink>>) -> (step: Step)
    ensures
        match loaded_log(document) {
            Ok(log) => follows_a_selection(step.deep_view(), catalog.deep_view(), log),
            Err(error) => step.deep_view() == StepView::Exit(Err(error)),
        },
{
    match load_sent(document) {
        Ok(log) => {
            let ghost read = log.deep_view();
            let selected = select_links(catalog, &log);
            let ghost drawn = selected.deep_view();
            let step = on_selection(selected, log);
            assert(is_selection(drawn, catalog.deep_view(), read));
            step
        },
        Err(error) => Step::Exit(Err(error)),
    }
}

/// Goes on after [`Step::Enrich`], with the step's links and log, the
/// pages that were fetched and the time: `fetched[i]` is the text of the
/// page of `selected[i]`, or `None` where it could not be fetched in
/// time, and `now_secs` is the time in seconds since the epoch.
pub fn on_fetched(
    selected: &Vec<NotionLink>,
    log: Vec<SentLink>,
    fetched: &Vec<Option<String>>,
    now_secs: u64,
) -> (step: Step)
    ensures
        step.deep_view() == after_fetched(
            selected.deep_view(),
            log.deep_view(),
            fetched.deep_view(),
            now_secs as nat,
        ),
{
    let records = record_sent_links(selected, now_secs);
    let links = build_email_body(enrich_all(selected, fetched));
    Step::SaveSent { log: append_sent(log, records), links }
}

/// Goes on after [`Step::SaveSent`], with the step's links and whether the
/// log was written.
pub fn on_sent_saved(links: Vec<EmailLink>, written: bool) -> (step: Step)
    ensures
        step.deep_view() == after_saved(written, StepView::Render { links: links.deep_view() }),
{
    match saved(written) {
        Ok(()) => Step::Render { links },
        Err(error) => Step::Exit(Err(error)),
    }
}

/// Goes on after [`Step::Render`], with the run's mailer and the digest
/// as it was rendered.
pub fn on_rendered(mailer: &Mailer, document: String) -> (step: Step)
    ensures
        step.deep_view() == after_rendered(mailer.deep_view(), document@),
{
    match mailer.dispatch(document) {
        Ok(request) => Step::Send { request },
        Err(missing) => Step::Exit(Err(missing)),
    }
}

/// Goes on after [`Step::Send`], with the caller's report: the run ends,
/// well where the digest was accepted.
pub fn on_mailed(report: MailReport) -> (step: Step)
    ensures
        step.deep_view() == StepView::Exit(report_outcome(report)),
{
    Step::Exit(mail_outcome(report))
}

/// A run over a catalog that holds no link, or none that was not sent
/// before, ends after the selection: nothing is selected, nothing is
/// recorded and nothing is mailed.
pub proof fn lemma_nothing_unsent_ends_run(
    selected: Seq<LinkView>,
    catalog: Seq<LinkView>,
    log: Seq<SentView>,
)
    requires
        is_selection(selected, catalog, log),
        forall|i: int|
            0 <= i < catalog.len() ==> sent_ids(log).contains((#[trigger] catalog[i]).link_id),
    ensures
        selected.len() == 0,
        after_selection(selected, log) == StepView::Exit(Ok(())),
{
    lemma_spent_catalog_empty_selection(selected, catalog, log);
}

/// Where none of the selected links' pages could be fetched, the links
/// are recorded as sent all the same; the digest that is rendered once
/// the log is written holds no link, and it is dispatched like any other.
pub proof fn lemma_nothing_fetched_still_mails(
    selected: Seq<LinkView>,
    log: Seq<SentView>,
    fetched: Seq<Option<Seq<char>>>,
    now_secs: nat,
    mailer: MailerView,
    document: Seq<char>,
)
    requires
        forall|at: int| 0 <= at < selected.len() ==> page_of(fetched, at) is None,
    ensures
        after_fetched(selected, log, fetched, now_secs) == (StepView::SaveSent {
            log: sent_records(selected, now_secs) + log,
            links: Seq::empty(),
        }),
        after_saved(true, StepView::Render { links: Seq::empty() }) == (StepView::Render {
            links: Seq::empty(),
        }),
        dispatched(mailer, document) is Ok ==> after_rendered(mailer, document) is Send,
{
    lemma_all_failed_none_kept(enriched_all(selected, fetched));
    assert(successes(enriched_all(selected, fetched)) =~= Seq::<EmailView>::empty());
}

/// Whatever the fetching came to, the log that is written next records
/// every selected link, and behind these records it holds every record
/// that it held before.
pub proof fn lemma_selected_links_are_recorded(
    selected: Seq<LinkView>,
    log: Seq<SentView>,
    fetched: Seq<Option<Seq<char>>>,
    now_secs: nat,
)
    ensures
        ({
            let written = sent_records(selected, now_secs) + log;
            &&& after_fetched(selected, log, fetched, now_secs) is SaveSent
            &&& after_fetched(selected, log, fetched, now_secs)->SaveSent_log == written
            &&& written.len() == selected.len() + log.len()
            &&& forall|i: int|
                0 <= i < selected.len() ==> (#[trigger] written[i]).id == selected[i].link_id
            &&& forall|i: int|
                0 <= i < log.len() ==> written[selected.len() + i] == #[trigger] log[i]
        }),
{
}

/// `shown` shows a link of the catalog that the sent-log does not record.
pub open spec fn shows_unsent(
    shown: EmailView,
    catalog: Seq<LinkView>,
    log: Seq<SentView>,
) -> bool {
    exists|at: int|
        0 <= at < catalog.len() && #[trigger] shows(shown, catalog[at]) && !sent_ids(log).contains(
            catalog[at].link_id,
        )
}

/// Every link of a digest shows a link of the catalog that the sent-log,
/// as it was read for the selection, does not record.
pub proof fn lemma_digest_links_are_fresh(
    selected: Seq<LinkView>,
    catalog: Seq<LinkView>,
    log: Seq<SentView>,
    fetched: Seq<Option<Seq<char>>>,
    now_secs: nat,
)
    requires
        is_selection(selected, catalog, log),
    ensures
        ({
            let links = successes(enriched_all(selected, fetched));
            &&& after_fetched(selected, log, fetched, now_secs) is SaveSent
            &&& after_fetched(selected, log, fetched, now_secs)->SaveSent_links == links
            &&& forall|i: int|
                0 <= i < links.len() ==> shows_unsent(#[trigger] links[i], catalog, log)
        }),
{
    let links = successes(enriched_all(selected, fetched));
    lemma_digest_links_were_selected(selected, fetched);
    lemma_selection_avoids_sent(selected, catalog, log);
    assert forall|i: int| 0 <= i < links.len() implies shows_unsent(
        #[trigger] links[i],
        catalog,
        log,
    ) by {
        let shown = links[i];
        assert(shows_one_of(shown, selected));
        let from = choose|from: int|
            0 <= from < selected.len() && #[trigger] shows(shown, selected[from]);
        assert(catalog.contains(selected[from]));
        let at = choose|at: int| 0 <= at < catalog.len() && catalog[at] == selected[from];
        assert(shows(shown, catalog[at]));
    }
}

} // verus!
