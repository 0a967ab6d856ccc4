//! Enriching a link with what its page says of itself: the Open Graph
//! description and image.
//!
//! The caller fetches the pages, all at once if it likes, and hands each
//! page's text over. A link whose page could not be fetched, or could not
//! be searched, is left out of the digest; the others keep their order.

use scraper::error::SelectorErrorKind;
use scraper::{Html, Selector};
use vstd::prelude::*;
use vstd::string::StringExecFns;

use crate::error::DigestError;
use crate::notion::{LinkView, NotionLink};

verus! {

/// How long the caller should wait for a page, in seconds. A page that
/// takes longer counts as not fetched.
pub const FETCH_TIMEOUT_SECS: u64 = 15;

/// A link as the digest shows it.
#[derive(Debug, PartialEq, Eq)]
pub struct EmailLink {
    pub title: String,
    pub url: String,
    pub description: String,
    pub image_url: String,
}

/// What an [`EmailLink`] holds.
pub struct EmailView {
    pub title: Seq<char>,
    pub url: Seq<char>,
    pub description: Seq<char>,
    pub image_url: Seq<char>,
}

impl DeepView for EmailLink {
    type V = EmailView;

    open spec fn deep_view(&self) -> EmailView {
        EmailView {
            title: self.title@,
            url: self.url@,
            description: self.description@,
            image_url: self.image_url@,
        }
    }
}

impl Clone for EmailLink {
    fn clone(&self) -> (copy: Self)
        ensures
            copy.deep_view() == self.deep_view(),
    {
        EmailLink {
            title: self.title.clone(),
            url: self.url.clone(),
            description: self.description.clone(),
            image_url: self.image_url.clone(),
        }
    }
}

/// The error of `Selector::parse` of scraper. It is handed on unread:
/// nothing is claimed of what it holds.
#[verifier::external_type_specification]
#[verifier::external_body]
pub struct ExSelectorErrorKind(SelectorErrorKind);

/// Whether `Selector::parse` of scraper takes `selector` as a group of CSS
/// selectors.
pub uninterp spec fn selector_parses(selector: Seq<char>) -> bool;

/// What a search of the HTML document `document` for `selector` comes to:
/// `None` where no element matches; else what the first match that
/// `Html::select` of scraper yields holds for the attribute `attr`, which
/// is `None` where it has no such attribute. Meant where
/// `selector_parses(selector)`.
pub uninterp spec fn first_match_attr(
    document: Seq<char>,
    selector: Seq<char>,
    attr: Seq<char>,
) -> Option<Option<Seq<char>>>;

/// Parses `document` with `Html::parse_document` and `selector` with
/// `Selector::parse`, both of scraper, and reads `attr` with
/// `Element::attr` from the first element that `Html::select` yields.
///
/// The contract claims that the selector's error comes back exactly where
/// the selector does not parse, and that the outcome depends on the three
/// texts alone. Parsing a document does not fail: what is no HTML is
/// mended or skipped.
#[verifier::external_body]
fn select_first_attr(document: &str, selector: &str, attr: &str) -> (found: Result<
    Option<Option<String>>,
    SelectorErrorKind,
>)
    ensures
        found is Ok <==> selector_parses(selector@),
        found matches Ok(lookup) ==> lookup.deep_view() == first_match_attr(
            document@,
            selector@,
            attr@,
        ),
{
    let parsed = Selector::parse(selector)?;
    let html = Html::parse_document(document);
    match html.select(&parsed).next() {
        Some(element) => Ok(Some(element.value().attr(attr).map(String::from))),
        None => Ok(None),
    }
}

/// The selector of the `meta` element that carries the Open Graph
/// attribute `og_attribute`.
pub open spec fn og_selector(og_attribute: Seq<char>) -> Seq<char> {
    "meta[property='og:"@ + og_attribute + "']"@
}

/// What a search amounts to: the attribute's text where an element
/// matched and has the attribute, the empty text otherwise.
pub open spec fn text_found(found: Option<Option<Seq<char>>>) -> Seq<char> {
    match found {
        Some(Some(text)) => text,
        _ => Seq::empty(),
    }
}

/// What a page says for the Open Graph attribute `og_attribute`: the
/// `content` of the first `meta` element whose `property` is `og:` and the
/// attribute's name.
pub open spec fn og_attribute_of(document: Seq<char>, og_attribute: Seq<char>) -> Seq<char> {
    text_found(first_match_attr(document, og_selector(og_attribute), "content"@))
}

/// Whether a page can be searched for its description and its image.
pub open spec fn searchable() -> bool {
    selector_parses(og_selector("description"@)) && selector_parses(og_selector("image"@))
}

/// The link `link` as the digest shows it, given what fetching its page
/// came to: `None` where the page could not be fetched.
pub open spec fn enriched(link: LinkView, fetched: Option<Seq<char>>) -> Result<
    EmailView,
    DigestError,
> {
    match fetched {
        None => Err(DigestError::EnrichFetch),
        Some(document) => if searchable() {
            Ok(
                EmailView {
                    title: link.title,
                    url: link.url,
                    description: og_attribute_of(document, "description"@),
                    image_url: og_attribute_of(document, "image"@),
                },
            )
        } else {
            Err(DigestError::EnrichParse)
        },
    }
}

/// What a search amounts to: the attribute's text where an element
/// matched and has the attribute, the empty text otherwise.
pub fn content_or_empty(found: Option<Option<String>>) -> (text: String)
    ensures
        text@ == text_found(found.deep_view()),
{
    match found {
        Some(Some(text)) => text,
        _ => String::new(),
    }
}

/// What the page `document` says for the Open Graph attribute
/// `og_attribute`; empty where it says nothing. `EnrichParse` exactly
/// where the attribute's name makes no selector.
pub fn get_og_attribute(document: &str, og_attribute: &str) -> (value: Result<String, DigestError>)
    ensures
        match value {
            Ok(text) => selector_parses(og_selector(og_attribute@)) && text@ == og_attribute_of(
                document@,
                og_attribute@,
            ),
            Err(error) => !selector_parses(og_selector(og_attribute@)) && error
                == DigestError::EnrichParse,
        },
{
    let selector = String::from_str("meta[property='og:").concat(og_attribute).concat("']");
    match select_first_attr(document, selector.as_str(), "content") {
        Ok(found) => Ok(content_or_empty(found)),
        Err(_) => Err(DigestError::EnrichParse),
    }
}

/// The description and the image that the page `document` names for
/// itself, each empty where the page names none.
pub fn get_description_and_image_url(document: &str) -> (found: Result<
    (String, String),
    DigestError,
>)
    ensures
        match found {
            Ok((description, image)) => {
                &&& searchable()
                &&& description@ == og_attribute_of(document@, "description"@)
                &&& image@ == og_attribute_of(document@, "image"@)
            },
            Err(error) => !searchable() && error == DigestError::EnrichParse,
        },
{
    let description = match get_og_attribute(document, "description") {
        Ok(text) => text,
        Err(error) => {
            return Err(error);
        },
    };
    let image = match get_og_attribute(document, "image") {
        Ok(text) => text,
        Err(error) => {
            return Err(error);
        },
    };
    Ok((description, image))
}

/// `outcome` is what enriching came to, in the model.
pub open spec fn outcome_view(outcome: Result<EmailLink, DigestError>) -> Result<
    EmailView,
    DigestError,
> {
    match outcome {
        Ok(link) => Ok(link.deep_view()),
        Err(error) => Err(error),
    }
}

impl EmailLink {
    /// The link as the digest shows it, given what fetching its page came
    /// to: `None` where the page could not be fetched, which gives
    /// `EnrichFetch`.
    pub fn new(link: &NotionLink, fetched: Option<&str>) -> (made: Result<EmailLink, DigestError>)
        ensures
            outcome_view(made) == enriched(
                link.deep_view(),
                match fetched {
                    Some(document) => Some(document@),
                    None => None,
                },
            ),
    {
        let document = match fetched {
            Some(document) => document,
            None => {
                return Err(DigestError::EnrichFetch);
            },
        };
        match get_description_and_image_url(document) {
            Ok((description, image_url)) => Ok(
                EmailLink {
                    title: link.title.clone(),
                    url: link.url.clone(),
                    description,
                    image_url,
                },
            ),
            Err(error) => Err(error),
        }
    }
}

/// The links that were enriched, in the order of the outcomes; those that
/// failed are left out.
pub open spec fn successes(outcomes: Seq<Result<EmailView, DigestError>>) -> Seq<EmailView>
    decreases outcomes.len(),
{
    if outcomes.len() == 0 {
        Seq::empty()
    } else {
        match outcomes.last() {
            Ok(link) => successes(outcomes.drop_last()).push(link),
            Err(_) => successes(outcomes.drop_last()),
        }
    }
}

/// What a list of outcomes holds.
pub open spec fn outcomes_view(outcomes: Seq<Result<EmailLink, DigestError>>) -> Seq<
    Result<EmailView, DigestError>,
> {
    outcomes.map_values(|outcome: Result<EmailLink, DigestError>| outcome_view(outcome))
}

/// The links of the digest: those that were enriched, in the order of the
/// outcomes.
pub fn build_email_body(outcomes: Vec<Result<EmailLink, DigestError>>) -> (links: Vec<EmailLink>)
    ensures
        links.deep_view() == successes(outcomes_view(outcomes@)),
{
    let ghost all = outcomes_view(outcomes@);
    let mut links: Vec<EmailLink> = Vec::new();
    let mut done: usize = 0;
    assert(all.take(0) =~= Seq::<Result<EmailView, DigestError>>::empty());
    while done < outcomes.len()
        invariant
            done <= outcomes.len(),
            all == outcomes_view(outcomes@),
            links.deep_view() == successes(all.take(done as int)),
        decreases outcomes.len() - done,
    {
        let ghost before = links.deep_view();
        assert(all.take(done + 1).drop_last() =~= all.take(done as int));
        match &outcomes[done] {
            Ok(link) => {
                links.push(link.clone());
                assert(links.deep_view() =~= before.push(outcomes[done as int]->Ok_0.deep_view()));
            },
            Err(_) => {},
        }
        done = done + 1;
    }
    assert(all.take(done as int) =~= all);
    links
}

/// Where every link failed to be enriched, the digest holds no link.
pub proof fn lemma_all_failed_none_kept(outcomes: Seq<Result<EmailView, DigestError>>)
    requires
        forall|i: int| 0 <= i < outcomes.len() ==> (#[trigger] outcomes[i]) is Err,
    ensures
        successes(outcomes).len() == 0,
    decreases outcomes.len(),
{
    if outcomes.len() > 0 {
        lemma_all_failed_none_kept(outcomes.drop_last());
    }
}

/// Every link of the digest was enriched, and no more links than were
/// tried are in it.
pub proof fn lemma_successes_were_enriched(outcomes: Seq<Result<EmailView, DigestError>>)
    ensures
        successes(outcomes).len() <= outcomes.len(),
        forall|i: int|
            0 <= i < successes(outcomes).len() ==> outcomes.contains(
                Ok(#[trigger] successes(outcomes)[i]),
            ),
    decreases outcomes.len(),
{
    if outcomes.len() > 0 {
        let rest = outcomes.drop_last();
        lemma_successes_were_enriched(rest);
        assert forall|i: int| 0 <= i < successes(outcomes).len() implies outcomes.contains(
            Ok(#[trigger] successes(outcomes)[i]),
        ) by {
            if i < successes(rest).len() {
                let at = choose|at: int|
                    0 <= at < rest.len() && rest[at] == Ok::<EmailView, DigestError>(
                        successes(rest)[i],
                    );
                assert(outcomes[at] == rest[at]);
            } else {
                assert(outcomes[outcomes.len() - 1] == outcomes.last());
            }
        }
    }
}

/// A page that names no description, or no image, gives the empty text
/// for it: so it is where no `meta` element matches, and where the one
/// that matches has no `content`.
pub proof fn lemma_absent_attribute_is_empty(document: Seq<char>, og_attribute: Seq<char>)
    ensures
        text_found(None) == Seq::<char>::empty(),
        text_found(Some(None)) == Seq::<char>::empty(),
        !(first_match_attr(document, og_selector(og_attribute), "content"@) matches Some(Some(_)))
            ==> og_attribute_of(document, og_attribute) == Seq::<char>::empty(),
{
}

/// The page that was handed over for the link at place `at`: none where
/// no page was handed over for that place.
pub open spec fn page_of(fetched: Seq<Option<Seq<char>>>, at: int) -> Option<Seq<char>> {
    if 0 <= at < fetched.len() {
        fetched[at]
    } else {
        None
    }
}

/// What enriching each link of `selected` comes to, given the pages that
/// were fetched for them, place by place.
pub open spec fn enriched_all(selected: Seq<LinkView>, fetched: Seq<Option<Seq<char>>>) -> Seq<
    Result<EmailView, DigestError>,
> {
    Seq::new(selected.len(), |at: int| enriched(selected[at], page_of(fetched, at)))
}

/// Enriches each link of `selected` with the page fetched for it:
/// `fetched[i]` is the text of the page of `selected[i]`, or `None` where
/// fetching it failed. A link without a place in `fetched` counts as not
/// fetched.
pub fn enrich_all(selected: &Vec<NotionLink>, fetched: &Vec<Option<String>>) -> (outcomes: Vec<
    Result<EmailLink, DigestError>,
>)
    ensures
        outcomes_view(outcomes@) == enriched_all(selected.deep_view(), fetched.deep_view()),
{
    let ghost want = enriched_all(selected.deep_view(), fetched.deep_view());
    let mut outcomes: Vec<Result<EmailLink, DigestError>> = Vec::new();
    let mut done: usize = 0;
    while done < selected.len()
        invariant
            done <= selected.len(),
            want == enriched_all(selected.deep_view(), fetched.deep_view()),
            outcomes_view(outcomes@) == want.take(done as int),
        decreases selected.len() - done,
    {
        let ghost before = outcomes_view(outcomes@);
        let page: Option<&str> = if done < fetched.len() {
            match &fetched[done] {
                Some(text) => Some(text.as_str()),
                None => None,
            }
        } else {
            None
        };
        let outcome = EmailLink::new(&selected[done], page);
        let ghost added = outcome_view(outcome);
        outcomes.push(outcome);
        done = done + 1;
        assert(outcomes_view(outcomes@) =~= before.push(added));
        assert(want.take(done as int) =~= before.push(added));
    }
    assert(want.take(done as int) =~= want);
    outcomes
}

/// `shown` is `link` as a digest shows it: it has the link's title and
/// URL.
pub open spec fn shows(shown: EmailView, link: LinkView) -> bool {
    shown.title == link.title && shown.url == link.url
}

/// `shown` shows one of the links of `selected`.
pub open spec fn shows_one_of(shown: EmailView, selected: Seq<LinkView>) -> bool {
    exists|at: int| 0 <= at < selected.len() && #[trigger] shows(shown, selected[at])
}

/// Every link of the digest shows one of the selected links.
pub proof fn lemma_digest_links_were_selected(
    selected: Seq<LinkView>,
    fetched: Seq<Option<Seq<char>>>,
)
    ensures
        forall|i: int|
            0 <= i < successes(enriched_all(selected, fetched)).len() ==> shows_one_of(
                #[trigger] successes(enriched_all(selected, fetched))[i],
                selected,
            ),
{
    let outcomes = enriched_all(selected, fetched);
    let links = successes(outcomes);
    lemma_successes_were_enriched(outcomes);
    assert forall|i: int| 0 <= i < links.len() implies shows_one_of(
        #[trigger] links[i],
        selected,
    ) by {
        assert(outcomes.contains(Ok(links[i])));
        let at = choose|at: int|
            0 <= at < outcomes.len() && outcomes[at] == Ok::<EmailView, DigestError>(links[i]);
        assert(shows(links[i], selected[at]));
    }
}

} // verus!
