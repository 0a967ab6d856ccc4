//! The ways in which a run can fail.

use vstd::prelude::*;
use vstd::string::StringExecFns;

verus! {

/// A variable of the environment that some step cannot do without.
#[derive(Debug, Clone, Copy, PartialEq, Eq, Structural)]
pub enum ConfigVar {
    NotionApiKey,
    NotionDatabaseId,
    SendgridApiKey,
    FromAddress,
    ToAddress,
}

impl ConfigVar {
    /// The variable's name in the environment.
    pub open spec fn name_text(self) -> Seq<char> {
        match self {
            ConfigVar::NotionApiKey => "NOTION_API_KEY"@,
            ConfigVar::NotionDatabaseId => "NOTION_DATABASE_ID"@,
            ConfigVar::SendgridApiKey => "SENDGRID_API_KEY"@,
            ConfigVar::FromAddress => "FROM_ADDRESS"@,
            ConfigVar::ToAddress => "TO_ADDRESS"@,
        }
    }

    /// The variable's name in the environment.
    pub fn name(&self) -> (name: &'static str)
        ensures
            name@ == self.name_text(),
    {
        match self {
            ConfigVar::NotionApiKey => "NOTION_API_KEY",
            ConfigVar::NotionDatabaseId => "NOTION_DATABASE_ID",
            ConfigVar::SendgridApiKey => "SENDGRID_API_KEY",
            ConfigVar::FromAddress => "FROM_ADDRESS",
            ConfigVar::ToAddress => "TO_ADDRESS",
        }
    }
}

/// Why a step failed.
#[derive(Debug, Clone, Copy, PartialEq, Eq, Structural)]
pub enum DigestError {
    /// A required variable was not set when it was first needed.
    ConfigMissing(ConfigVar),
    /// A local document could not be read or written.
    StoreIO,
    /// A local document does not hold what it should.
    StoreCorrupt,
    /// The link database could not be reached, or refused.
    IngestTransport,
    /// The link database answered with something that is no page.
    IngestDecode,
    /// A page announced more pages and named no cursor.
    IngestProtocol,
    /// A link's page could not be fetched.
    EnrichFetch,
    /// A link's page could not be searched.
    EnrichParse,
    /// The mail service could not be reached, or refused.
    MailerRemote,
    /// The local relay did not take the message.
    MailerLocal,
}

impl DigestError {
    /// Whether the run ends with this failure. Failing to enrich one link
    /// only leaves that link out of the digest.
    pub open spec fn fatal(self) -> bool {
        !(self is EnrichFetch) && !(self is EnrichParse)
    }

    /// Whether the run ends with this failure.
    pub fn is_fatal(&self) -> (fatal: bool)
        ensures
            fatal == self.fatal(),
    {
        match self {
            DigestError::EnrichFetch => false,
            DigestError::EnrichParse => false,
            _ => true,
        }
    }

    /// The line that reports this failure.
    pub open spec fn message_text(self) -> Seq<char> {
        match self {
            DigestError::ConfigMissing(var) => "environment variable not set: "@ + var.name_text(),
            DigestError::StoreIO => "a local document could not be read or written"@,
            DigestError::StoreCorrupt => "a local document is malformed"@,
            DigestError::IngestTransport => "the link database could not be queried"@,
            DigestError::IngestDecode => "the link database sent an unreadable page"@,
            DigestError::IngestProtocol => {
                "the link database announced more pages without a cursor"@
            },
            DigestError::EnrichFetch => "a link's page could not be fetched"@,
            DigestError::EnrichParse => "a link's page could not be searched"@,
            DigestError::MailerRemote => "the mail service did not accept the digest"@,
            DigestError::MailerLocal => "the local relay did not accept the digest"@,
        }
    }

    /// The line that reports this failure.
    pub fn message(&self) -> (line: String)
        ensures
            line@ == self.message_text(),
            one_line(line@),
    {
        proof {
            lemma_message_is_one_line(*self);
        }
        match self {
            DigestError::ConfigMissing(var) => {
                String::from_str("environment variable not set: ").concat(var.name())
            },
            DigestError::StoreIO => String::from_str(
                "a local document could not be read or written",
            ),
            DigestError::StoreCorrupt => String::from_str("a local document is malformed"),
            DigestError::IngestTransport => String::from_str(
                "the link database could not be queried",
            ),
            DigestError::IngestDecode => String::from_str(
                "the link database sent an unreadable page",
            ),
            DigestError::IngestProtocol => String::from_str(
                "the link database announced more pages without a cursor",
            ),
            DigestError::EnrichFetch => String::from_str("a link's page could not be fetched"),
            DigestError::EnrichParse => String::from_str("a link's page could not be searched"),
            DigestError::MailerRemote => String::from_str(
                "the mail service did not accept the digest",
            ),
            DigestError::MailerLocal => String::from_str(
                "the local relay did not accept the digest",
            ),
        }
    }
}

/// `text` is one line: it holds no line feed.
pub open spec fn one_line(text: Seq<char>) -> bool {
    forall|i: int| 0 <= i < text.len() ==> text[i] != '\n'
}

/// The name of a variable is one line.
proof fn lemma_name_is_one_line(var: ConfigVar)
    ensures
        one_line(var.name_text()),
{
    reveal_strlit("NOTION_API_KEY");
    reveal_strlit("NOTION_DATABASE_ID");
    reveal_strlit("SENDGRID_API_KEY");
    reveal_strlit("FROM_ADDRESS");
    reveal_strlit("TO_ADDRESS");
}

/// Every failure is reported in one line.
pub proof fn lemma_message_is_one_line(error: DigestError)
    ensures
        one_line(error.message_text()),
{
    match error {
        DigestError::ConfigMissing(var) => {
            reveal_strlit("environment variable not set: ");
            lemma_name_is_one_line(var);
        },
        DigestError::StoreIO => {
            reveal_strlit("a local document could not be read or written");
        },
        DigestError::StoreCorrupt => {
            reveal_strlit("a local document is malformed");
        },
        DigestError::IngestTransport => {
            reveal_strlit("the link database could not be queried");
        },
        DigestError::IngestDecode => {
            reveal_strlit("the link database sent an unreadable page");
        },
        DigestError::IngestProtocol => {
            reveal_strlit("the link database announced more pages without a cursor");
        },
        DigestError::EnrichFetch => {
            reveal_strlit("a link's page could not be fetched");
        },
        DigestError::EnrichParse => {
            reveal_strlit("a link's page could not be searched");
        },
        DigestError::MailerRemote => {
            reveal_strlit("the mail service did not accept the digest");
        },
        DigestError::MailerLocal => {
            reveal_strlit("the local relay did not accept the digest");
        },
    }
}

} // verus!
