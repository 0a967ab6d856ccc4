//! The two local documents: the catalog and the log of links sent.
//!
//! The caller reads and writes the files and turns their text into records
//! and back. This module says what a document that was read amounts to
//! ([`load_catalog`], [`load_sent`]) and what the log holds after a digest
//! ([`record_sent_links`], [`append_sent`]): the new records come first.
//!
//! A sent-log that is malformed ends the run with `StoreCorrupt`; it is
//! not reset. An empty file counts as an empty log.

use vstd::prelude::*;
use vstd::string::StringExecFns;

use crate::error::DigestError;
use crate::notion::{LinkView, NotionLink, SentLink, SentView};
use crate::select::{is_selection, lemma_selection_avoids_sent, sent_ids};

verus! {

/// Where the catalog is kept, in the working directory.
pub const NOTION_LINKS_FILENAME: &'static str = "notion_links.json";

/// Where the log of links sent is kept, in the working directory.
pub const SENT_NOTION_LINKS_FILENAME: &'static str = "sent_notion_links.json";

/// What reading a document came to.
#[derive(Debug, Clone, PartialEq, Eq)]
pub enum Stored<T> {
    /// There is no such file.
    Absent,
    /// The file is there and holds nothing.
    Empty,
    /// The file is there and could not be read.
    Unreadable,
    /// The file's text is not the document that it should be.
    Malformed,
    /// The file's text is this document.
    Parsed(T),
}

/// Whether the catalog's file is there, so that the link database need
/// not be asked.
pub fn catalog_exists(document: &Stored<Vec<NotionLink>>) -> (exists: bool)
    ensures
        exists == !(document is Absent),
{
    match document {
        Stored::Absent => false,
        _ => true,
    }
}

/// What a catalog that was read amounts to: `StoreCorrupt` where the file
/// does not hold a catalog, `StoreIO` where it could not be read.
pub open spec fn loaded_catalog(document: Stored<Vec<NotionLink>>) -> Result<
    Seq<LinkView>,
    DigestError,
> {
    match document {
        Stored::Parsed(links) => Ok(links.deep_view()),
        Stored::Empty | Stored::Malformed => Err(DigestError::StoreCorrupt),
        Stored::Absent | Stored::Unreadable => Err(DigestError::StoreIO),
    }
}

/// What a sent-log that was read amounts to: the empty log where there is
/// no file or the file holds nothing, `StoreCorrupt` where the file's text
/// is no log, `StoreIO` where it could not be read.
pub open spec fn loaded_log(document: Stored<Vec<SentLink>>) -> Result<Seq<SentView>, DigestError> {
    match document {
        Stored::Parsed(records) => Ok(records.deep_view()),
        Stored::Absent | Stored::Empty => Ok(Seq::empty()),
        Stored::Malformed => Err(DigestError::StoreCorrupt),
        Stored::Unreadable => Err(DigestError::StoreIO),
    }
}

/// The catalog that was read.
pub fn load_catalog(document: Stored<Vec<NotionLink>>) -> (catalog: Result<
    Vec<NotionLink>,
    DigestError,
>)
    ensures
        match loaded_catalog(document) {
            Ok(links) => catalog matches Ok(read) && read.deep_view() == links,
            Err(error) => catalog == Err::<Vec<NotionLink>, DigestError>(error),
        },
{
    match document {
        Stored::Parsed(links) => Ok(links),
        Stored::Empty => Err(DigestError::StoreCorrupt),
        Stored::Malformed => Err(DigestError::StoreCorrupt),
        Stored::Absent => Err(DigestError::StoreIO),
        Stored::Unreadable => Err(DigestError::StoreIO),
    }
}

/// The sent-log that was read.
pub fn load_sent(document: Stored<Vec<SentLink>>) -> (log: Result<Vec<SentLink>, DigestError>)
    ensures
        match loaded_log(document) {
            Ok(records) => log matches Ok(read) && read.deep_view() == records,
            Err(error) => log == Err::<Vec<SentLink>, DigestError>(error),
        },
{
    match document {
        Stored::Parsed(records) => Ok(records),
        Stored::Absent | Stored::Empty => {
            let records: Vec<SentLink> = Vec::new();
            assert(records.deep_view() =~= Seq::<SentView>::empty());
            Ok(records)
        },
        Stored::Malformed => Err(DigestError::StoreCorrupt),
        Stored::Unreadable => Err(DigestError::StoreIO),
    }
}

/// What writing a document came to: `StoreIO` where it failed.
pub fn saved(written: bool) -> (outcome: Result<(), DigestError>)
    ensures
        outcome == if written {
            Ok::<(), DigestError>(())
        } else {
            Err::<(), DigestError>(DigestError::StoreIO)
        },
{
    if written {
        Ok(())
    } else {
        Err(DigestError::StoreIO)
    }
}

/// The character that stands for a digit.
pub open spec fn digit_char(digit: nat) -> char {
    if digit == 0 {
        '0'
    } else if digit == 1 {
        '1'
    } else if digit == 2 {
        '2'
    } else if digit == 3 {
        '3'
    } else if digit == 4 {
        '4'
    } else if digit == 5 {
        '5'
    } else if digit == 6 {
        '6'
    } else if digit == 7 {
        '7'
    } else if digit == 8 {
        '8'
    } else {
        '9'
    }
}

/// A number written in decimal, without leading zeros.
pub open spec fn decimal_text(n: nat) -> Seq<char>
    decreases n,
{
    if n < 10 {
        seq![digit_char(n)]
    } else {
        decimal_text(n / 10).push(digit_char(n % 10))
    }
}

/// One digit, written.
fn digit_text(digit: u64) -> (text: &'static str)
    requires
        digit < 10,
    ensures
        text@ == seq![digit_char(digit as nat)],
{
    proof {
        reveal_strlit("0");
        reveal_strlit("1");
        reveal_strlit("2");
        reveal_strlit("3");
        reveal_strlit("4");
        reveal_strlit("5");
        reveal_strlit("6");
        reveal_strlit("7");
        reveal_strlit("8");
        reveal_strlit("9");
    }
    let text = if digit == 0 {
        "0"
    } else if digit == 1 {
        "1"
    } else if digit == 2 {
        "2"
    } else if digit == 3 {
        "3"
    } else if digit == 4 {
        "4"
    } else if digit == 5 {
        "5"
    } else if digit == 6 {
        "6"
    } else if digit == 7 {
        "7"
    } else if digit == 8 {
        "8"
    } else {
        "9"
    };
    assert(text@ =~= seq![digit_char(digit as nat)]);
    text
}

/// A number written in decimal, without leading zeros.
pub fn decimal(n: u64) -> (text: String)
    ensures
        text@ == decimal_text(n as nat),
    decreases n,
{
    if n < 10 {
        String::from_str(digit_text(n))
    } else {
        let mut text = decimal(n / 10);
        text.append(digit_text(n % 10));
        assert(text@ =~= decimal_text(n as nat));
        text
    }
}

/// The records that say that `links` went out at `now_secs` seconds since
/// the epoch: one for each link, in the links' order.
pub open spec fn sent_records(links: Seq<LinkView>, now_secs: nat) -> Seq<SentView> {
    links.map_values(
        |link: LinkView| SentView { id: link.link_id, sent_at: decimal_text(now_secs) },
    )
}

/// The records that say that `sent_links` went out at `now_secs` seconds
/// since the epoch.
pub fn record_sent_links(sent_links: &Vec<NotionLink>, now_secs: u64) -> (records: Vec<SentLink>)
    ensures
        records.deep_view() == sent_records(sent_links.deep_view(), now_secs as nat),
{
    let sent_at = decimal(now_secs);
    let mut records: Vec<SentLink> = Vec::new();
    let mut done: usize = 0;
    while done < sent_links.len()
        invariant
            done <= sent_links.len(),
            sent_at@ == decimal_text(now_secs as nat),
            records.deep_view() == sent_records(sent_links.deep_view(), now_secs as nat).take(
                done as int,
            ),
        decreases sent_links.len() - done,
    {
        let ghost before = records.deep_view();
        let record = SentLink { id: sent_links[done].link_id.clone(), sent_at: sent_at.clone() };
        let ghost added = record.deep_view();
        records.push(record);
        done = done + 1;
        assert(records.deep_view() =~= before.push(added));
        assert(sent_records(sent_links.deep_view(), now_secs as nat).take(done as int)
            =~= before.push(added));
    }
    assert(sent_records(sent_links.deep_view(), now_secs as nat).take(done as int)
        =~= sent_records(sent_links.deep_view(), now_secs as nat));
    records
}

/// The log after `new` was recorded: the new records first, then the log
/// as it was.
pub fn append_sent(prior: Vec<SentLink>, new: Vec<SentLink>) -> (log: Vec<SentLink>)
    ensures
        log.deep_view() == new.deep_view() + prior.deep_view(),
{
    let mut log = new;
    let mut rest = prior;
    let ghost first = log.deep_view();
    log.append(&mut rest);
    assert(log.deep_view() =~= first + prior.deep_view());
    log
}

/// Recording leaves the log's earlier records as they were, behind the new
/// ones: every id that the log held, it still holds.
pub proof fn lemma_append_keeps_prior(prior: Seq<SentView>, new: Seq<SentView>)
    ensures
        forall|i: int| 0 <= i < prior.len() ==> (new + prior)[new.len() + i] == prior[i],
        forall|i: int|
            0 <= i < prior.len() ==> sent_ids(new + prior).contains((#[trigger] prior[i]).id),
{
    assert forall|i: int| 0 <= i < prior.len() implies sent_ids(new + prior).contains(
        (#[trigger] prior[i]).id,
    ) by {
        assert(sent_ids(new + prior)[new.len() + i] == prior[i].id);
    }
}

/// Once a digest's links are recorded, the log holds the id of each.
pub proof fn lemma_recorded_links_are_logged(
    links: Seq<LinkView>,
    now_secs: nat,
    prior: Seq<SentView>,
)
    ensures
        forall|i: int|
            0 <= i < links.len() ==> sent_ids(sent_records(links, now_secs) + prior).contains(
                (#[trigger] links[i]).link_id,
            ),
{
    let log = sent_records(links, now_secs) + prior;
    assert forall|i: int| 0 <= i < links.len() implies sent_ids(log).contains(
        (#[trigger] links[i]).link_id,
    ) by {
        assert(sent_ids(log)[i] == links[i].link_id);
    }
}

/// A link that went out in a digest, and was recorded, is in no later
/// selection.
pub proof fn lemma_recorded_links_stay_out(
    links: Seq<LinkView>,
    now_secs: nat,
    prior: Seq<SentView>,
    later: Seq<LinkView>,
    catalog: Seq<LinkView>,
)
    requires
        is_selection(later, catalog, sent_records(links, now_secs) + prior),
    ensures
        forall|i: int, j: int|
            0 <= i < links.len() && 0 <= j < later.len() ==> (#[trigger] links[i]).link_id != (
            #[trigger] later[j]).link_id,
{
    lemma_recorded_links_are_logged(links, now_secs, prior);
    lemma_selection_avoids_sent(later, catalog, sent_records(links, now_secs) + prior);
}

} // verus!
