//! Handing the digest over for mailing, through the mail service or
//! through the local relay.
//!
//! Which of the two is decided once, by [`Mailer::select`]. What is to be
//! sent is computed by [`Mailer::dispatch`]; sending it is the caller's
//! part, and [`mail_outcome`] says what its report amounts to.

use vstd::prelude::*;
use vstd::string::StringExecFns;

use crate::config::{Environment, EnvironmentView};
use crate::error::{ConfigVar, DigestError};
use crate::http::{is_served, served};

verus! {

/// An address, as the mail service wants it.
#[derive(Debug, Clone, PartialEq, Eq)]
pub struct EmailAddress {
    pub email: String,
}

impl DeepView for EmailAddress {
    type V = Seq<char>;

    open spec fn deep_view(&self) -> Seq<char> {
        self.email@
    }
}

/// The recipients of one copy of a message.
#[derive(Debug, Clone, PartialEq, Eq)]
pub struct Personalization {
    pub to: Vec<EmailAddress>,
}

impl DeepView for Personalization {
    type V = Seq<Seq<char>>;

    open spec fn deep_view(&self) -> Seq<Seq<char>> {
        self.to.deep_view()
    }
}

/// One body of a message, with its media type.
#[derive(Debug, Clone, PartialEq, Eq)]
pub struct MailContent {
    pub content_type: String,
    pub value: String,
}

/// What a [`MailContent`] holds.
pub struct MailContentView {
    pub content_type: Seq<char>,
    pub value: Seq<char>,
}

impl DeepView for MailContent {
    type V = MailContentView;

    open spec fn deep_view(&self) -> MailContentView {
        MailContentView { content_type: self.content_type@, value: self.value@ }
    }
}

/// A message, as the mail service wants it.
#[derive(Debug, Clone, PartialEq, Eq)]
pub struct MailPayload {
    pub personalizations: Vec<Personalization>,
    pub from: EmailAddress,
    pub subject: String,
    pub content: Vec<MailContent>,
}

/// What a [`MailPayload`] holds.
pub struct MailPayloadView {
    pub personalizations: Seq<Seq<Seq<char>>>,
    pub from: Seq<char>,
    pub subject: Seq<char>,
    pub content: Seq<MailContentView>,
}

impl DeepView for MailPayload {
    type V = MailPayloadView;

    open spec fn deep_view(&self) -> MailPayloadView {
        MailPayloadView {
            personalizations: self.personalizations.deep_view(),
            from: self.from.deep_view(),
            subject: self.subject@,
            content: self.content.deep_view(),
        }
    }
}

/// A request to the mail service: a `POST` of `payload`, as JSON, to
/// `url`, authorised by the bearer token.
#[derive(Debug, Clone, PartialEq, Eq)]
pub struct HttpMail {
    pub url: String,
    pub bearer: String,
    pub content_type: String,
    pub payload: MailPayload,
}

/// What an [`HttpMail`] holds.
pub struct HttpMailView {
    pub url: Seq<char>,
    pub bearer: Seq<char>,
    pub content_type: Seq<char>,
    pub payload: MailPayloadView,
}

impl DeepView for HttpMail {
    type V = HttpMailView;

    open spec fn deep_view(&self) -> HttpMailView {
        HttpMailView {
            url: self.url@,
            bearer: self.bearer@,
            content_type: self.content_type@,
            payload: self.payload.deep_view(),
        }
    }
}

/// One message for the relay at `host` and `port`, which is spoken to in
/// plain text and without signing in.
#[derive(Debug, Clone, PartialEq, Eq)]
pub struct SmtpMail {
    pub host: String,
    pub port: u16,
    pub from: String,
    pub to: String,
    pub subject: String,
    pub content_type: String,
    pub body: String,
}

/// What an [`SmtpMail`] holds.
pub struct SmtpMailView {
    pub host: Seq<char>,
    pub port: u16,
    pub from: Seq<char>,
    pub to: Seq<char>,
    pub subject: Seq<char>,
    pub content_type: Seq<char>,
    pub body: Seq<char>,
}

impl DeepView for SmtpMail {
    type V = SmtpMailView;

    open spec fn deep_view(&self) -> SmtpMailView {
        SmtpMailView {
            host: self.host@,
            port: self.port,
            from: self.from@,
            to: self.to@,
            subject: self.subject@,
            content_type: self.content_type@,
            body: self.body@,
        }
    }
}

/// What is to be sent, and how.
#[derive(Debug, Clone, PartialEq, Eq)]
pub enum MailRequest {
    Http(HttpMail),
    Smtp(SmtpMail),
}

/// What a [`MailRequest`] holds.
pub enum MailRequestView {
    Http(HttpMailView),
    Smtp(SmtpMailView),
}

impl DeepView for MailRequest {
    type V = MailRequestView;

    open spec fn deep_view(&self) -> MailRequestView {
        match self {
            MailRequest::Http(mail) => MailRequestView::Http(mail.deep_view()),
            MailRequest::Smtp(mail) => MailRequestView::Smtp(mail.deep_view()),
        }
    }
}

/// What the mail service is spoken to with, as the environment held it.
/// A variable that was not set is missed only when a digest is dispatched.
#[derive(Debug, Clone, PartialEq, Eq)]
pub struct HttpMailConfig {
    pub api_key: Option<String>,
    pub from_address: Option<String>,
    pub to_address: Option<String>,
}

/// What an [`HttpMailConfig`] holds.
pub struct HttpMailConfigView {
    pub api_key: Option<Seq<char>>,
    pub from_address: Option<Seq<char>>,
    pub to_address: Option<Seq<char>>,
}

impl DeepView for HttpMailConfig {
    type V = HttpMailConfigView;

    open spec fn deep_view(&self) -> HttpMailConfigView {
        HttpMailConfigView {
            api_key: self.api_key.deep_view(),
            from_address: self.from_address.deep_view(),
            to_address: self.to_address.deep_view(),
        }
    }
}

/// Where the local relay listens.
#[derive(Debug, Clone, PartialEq, Eq)]
pub struct SmtpConfig {
    pub host: String,
    pub port: u16,
}

/// What an [`SmtpConfig`] holds.
pub struct SmtpConfigView {
    pub host: Seq<char>,
    pub port: u16,
}

impl DeepView for SmtpConfig {
    type V = SmtpConfigView;

    open spec fn deep_view(&self) -> SmtpConfigView {
        SmtpConfigView { host: self.host@, port: self.port }
    }
}

/// The way in which digests go out.
#[derive(Debug, Clone, PartialEq, Eq)]
pub enum Mailer {
    /// Through the mail service, over HTTP.
    HttpMail(HttpMailConfig),
    /// Through the local relay, over SMTP.
    Smtp(SmtpConfig),
}

/// What a [`Mailer`] holds.
pub enum MailerView {
    HttpMail(HttpMailConfigView),
    Smtp(SmtpConfigView),
}

impl DeepView for Mailer {
    type V = MailerView;

    open spec fn deep_view(&self) -> MailerView {
        match self {
            Mailer::HttpMail(config) => MailerView::HttpMail(config.deep_view()),
            Mailer::Smtp(config) => MailerView::Smtp(config.deep_view()),
        }
    }
}

/// The port of the local relay.
pub const SMTP_PORT: u16 = 1025;

/// The mailer that an environment asks for: the mail service where
/// `USE_SENDGRID` is set, whatever it holds, and the local relay where it
/// is not.
pub open spec fn mailer_for(env: EnvironmentView) -> MailerView {
    if env.use_sendgrid is Some {
        MailerView::HttpMail(
            HttpMailConfigView {
                api_key: env.sendgrid_api_key,
                from_address: env.from_address,
                to_address: env.to_address,
            },
        )
    } else {
        MailerView::Smtp(SmtpConfigView { host: "127.0.0.1"@, port: SMTP_PORT })
    }
}

/// The message that the mail service is asked to send: one copy, to one
/// recipient, with one body, which is HTML.
pub open spec fn payload_for(from: Seq<char>, to: Seq<char>, body: Seq<char>) -> MailPayloadView {
    MailPayloadView {
        personalizations: seq![seq![to]],
        from,
        subject: "Notion Digest"@,
        content: seq![MailContentView { content_type: "text/html"@, value: body }],
    }
}

/// What dispatching `body` through `mailer` asks the caller to send.
///
/// The mail service needs its key, the sender and the recipient: the
/// first of these that was not set, in this order, is reported as
/// `ConfigMissing`. The local relay needs nothing from the environment.
pub open spec fn dispatched(mailer: MailerView, body: Seq<char>) -> Result<
    MailRequestView,
    DigestError,
> {
    match mailer {
        MailerView::HttpMail(config) => match (
            config.api_key,
            config.from_address,
            config.to_address,
        ) {
            (None, _, _) => Err(DigestError::ConfigMissing(ConfigVar::SendgridApiKey)),
            (Some(_), None, _) => Err(DigestError::ConfigMissing(ConfigVar::FromAddress)),
            (Some(_), Some(_), None) => Err(DigestError::ConfigMissing(ConfigVar::ToAddress)),
            (Some(key), Some(from), Some(to)) => Ok(
                MailRequestView::Http(
                    HttpMailView {
                        url: "https://api.sendgrid.com/v3/mail/send"@,
                        bearer: key,
                        content_type: "application/json"@,
                        payload: payload_for(from, to, body),
                    },
                ),
            ),
        },
        MailerView::Smtp(config) => Ok(
            MailRequestView::Smtp(
                SmtpMailView {
                    host: config.host,
                    port: config.port,
                    from: "notion@example.com"@,
                    to: "recipient@example.com"@,
                    subject: "Notion digest"@,
                    content_type: "text/html"@,
                    body,
                },
            ),
        ),
    }
}

/// What a request that may have failed holds.
pub open spec fn request_view(request: Result<MailRequest, DigestError>) -> Result<
    MailRequestView,
    DigestError,
> {
    match request {
        Ok(request) => Ok(request.deep_view()),
        Err(error) => Err(error),
    }
}

/// A copy of a setting.
fn copy_setting(setting: &Option<String>) -> (copy: Option<String>)
    ensures
        copy.deep_view() == setting.deep_view(),
{
    match setting {
        Some(text) => Some(text.clone()),
        None => None,
    }
}

/// The setting's value, or that `var` is missing.
fn setting_or_missing(setting: &Option<String>, var: ConfigVar) -> (value: Result<
    String,
    DigestError,
>)
    ensures
        match setting {
            Some(text) => value matches Ok(copy) && copy@ == text@,
            None => value == Err::<String, DigestError>(DigestError::ConfigMissing(var)),
        },
{
    match setting {
        Some(text) => Ok(text.clone()),
        None => Err(DigestError::ConfigMissing(var)),
    }
}

/// The message that the mail service is asked to send.
pub fn mail_payload(from: String, to: String, body: String) -> (payload: MailPayload)
    ensures
        payload.deep_view() == payload_for(from@, to@, body@),
{
    let mut recipients: Vec<EmailAddress> = Vec::new();
    recipients.push(EmailAddress { email: to });
    let mut personalizations: Vec<Personalization> = Vec::new();
    personalizations.push(Personalization { to: recipients });
    let mut content: Vec<MailContent> = Vec::new();
    content.push(MailContent { content_type: String::from_str("text/html"), value: body });
    let payload = MailPayload {
        personalizations,
        from: EmailAddress { email: from },
        subject: String::from_str("Notion Digest"),
        content,
    };
    proof {
        let want = payload_for(from@, to@, body@);
        assert(payload.personalizations@[0].deep_view() =~= seq![to@]);
        assert(payload.deep_view().personalizations =~= want.personalizations);
        assert(payload.deep_view().content =~= want.content);
    }
    payload
}

impl Mailer {
    /// The mailer that the environment asks for. No variable is missed
    /// here.
    pub fn select(env: &Environment) -> (mailer: Mailer)
        ensures
            mailer.deep_view() == mailer_for(env.deep_view()),
    {
        if env.uses_mail_service() {
            Mailer::HttpMail(
                HttpMailConfig {
                    api_key: copy_setting(&env.sendgrid_api_key),
                    from_address: copy_setting(&env.from_address),
                    to_address: copy_setting(&env.to_address),
                },
            )
        } else {
            Mailer::Smtp(SmtpConfig { host: String::from_str("127.0.0.1"), port: SMTP_PORT })
        }
    }

    /// What is to be sent so that the digest `body` goes out.
    pub fn dispatch(&self, body: String) -> (request: Result<MailRequest, DigestError>)
        ensures
            request_view(request) == dispatched(self.deep_view(), body@),
    {
        match self {
            Mailer::HttpMail(config) => {
                let bearer = match setting_or_missing(&config.api_key, ConfigVar::SendgridApiKey) {
                    Ok(key) => key,
                    Err(missing) => {
                        return Err(missing);
                    },
                };
                let from = match setting_or_missing(&config.from_address, ConfigVar::FromAddress) {
                    Ok(address) => address,
                    Err(missing) => {
                        return Err(missing);
                    },
                };
                let to = match setting_or_missing(&config.to_address, ConfigVar::ToAddress) {
                    Ok(address) => address,
                    Err(missing) => {
                        return Err(missing);
                    },
                };
                Ok(
                    MailRequest::Http(
                        HttpMail {
                            url: String::from_str("https://api.sendgrid.com/v3/mail/send"),
                            bearer,
                            content_type: String::from_str("application/json"),
                            payload: mail_payload(from, to, body),
                        },
                    ),
                )
            },
            Mailer::Smtp(config) => Ok(
                MailRequest::Smtp(
                    SmtpMail {
                        host: config.host.clone(),
                        port: config.port,
                        from: String::from_str("notion@example.com"),
                        to: String::from_str("recipient@example.com"),
                        subject: String::from_str("Notion digest"),
                        content_type: String::from_str("text/html"),
                        body,
                    },
                ),
            ),
        }
    }
}

/// What the caller reports of a request that it was asked to send.
#[derive(Debug, Clone, Copy, PartialEq, Eq, Structural)]
pub enum MailReport {
    /// The mail service answered, with this status.
    HttpStatus(u16),
    /// The mail service could not be reached.
    HttpFailed,
    /// The relay took the message.
    SmtpAccepted,
    /// The relay could not be reached, or did not take the message.
    SmtpFailed,
}

/// What a report amounts to. The mail service accepted the digest where
/// its status is one of 200 to 299.
pub open spec fn report_outcome(report: MailReport) -> Result<(), DigestError> {
    match report {
        MailReport::HttpStatus(status) => if served(status) {
            Ok(())
        } else {
            Err(DigestError::MailerRemote)
        },
        MailReport::HttpFailed => Err(DigestError::MailerRemote),
        MailReport::SmtpAccepted => Ok(()),
        MailReport::SmtpFailed => Err(DigestError::MailerLocal),
    }
}

/// What a report amounts to: `MailerRemote` where the mail service did not
/// accept the digest, `MailerLocal` where the relay did not.
pub fn mail_outcome(report: MailReport) -> (outcome: Result<(), DigestError>)
    ensures
        outcome == report_outcome(report),
{
    match report {
        MailReport::HttpStatus(status) => if is_served(status) {
            Ok(())
        } else {
            Err(DigestError::MailerRemote)
        },
        MailReport::HttpFailed => Err(DigestError::MailerRemote),
        MailReport::SmtpAccepted => Ok(()),
        MailReport::SmtpFailed => Err(DigestError::MailerLocal),
    }
}

/// The environment variable `USE_SENDGRID` alone decides how a digest
/// goes out: where it is set, a dispatch asks for a request to the mail
/// service or misses a variable, and never asks for the relay; where it
/// is not set, a dispatch asks for one message to the relay at
/// `127.0.0.1`, port 1025, and never for the mail service.
pub proof fn lemma_mailer_switch(env: EnvironmentView, body: Seq<char>)
    ensures
        env.use_sendgrid is Some ==> !(dispatched(mailer_for(env), body) matches Ok(
            MailRequestView::Smtp(_),
        )),
        env.use_sendgrid is None ==> (dispatched(mailer_for(env), body) matches Ok(
            MailRequestView::Smtp(mail),
        ) && mail.host == "127.0.0.1"@ && mail.port == 1025 && mail.body == body),
{
}

} // verus!
