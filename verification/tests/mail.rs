use notion_digest::config::Environment;
use notion_digest::error::{ConfigVar, DigestError};
use notion_digest::mail::{
    mail_outcome, mail_payload, EmailAddress, HttpMail, HttpMailConfig, MailContent, MailPayload,
    MailReport, MailRequest, Mailer, Personalization, SmtpConfig, SmtpMail, SMTP_PORT,
};

fn env(use_sendgrid: Option<&str>, key: Option<&str>, from: Option<&str>, to: Option<&str>) -> Environment {
    Environment {
        notion_api_key: None,
        notion_database_id: None,
        use_sendgrid: use_sendgrid.map(|v| v.to_string()),
        sendgrid_api_key: key.map(|v| v.to_string()),
        from_address: from.map(|v| v.to_string()),
        to_address: to.map(|v| v.to_string()),
    }
}

fn payload(from: &str, to: &str, body: &str) -> MailPayload {
    MailPayload {
        personalizations: vec![Personalization { to: vec![EmailAddress { email: to.to_string() }] }],
        from: EmailAddress { email: from.to_string() },
        subject: "Notion Digest".to_string(),
        content: vec![MailContent { content_type: "text/html".to_string(), value: body.to_string() }],
    }
}

#[test]
fn the_payload_has_one_recipient_and_one_html_body() {
    let got = mail_payload("me@example.com".to_string(), "you@example.com".to_string(), "<p>hi</p>".to_string());
    assert_eq!(got, payload("me@example.com", "you@example.com", "<p>hi</p>"));
}

#[test]
fn mailer_switch() {
    let with = env(Some("1"), Some("key"), Some("me@example.com"), Some("you@example.com"));
    let request = Mailer::select(&with).dispatch("<p>digest</p>".to_string());
    assert_eq!(
        request,
        Ok(MailRequest::Http(HttpMail {
            url: "https://api.sendgrid.com/v3/mail/send".to_string(),
            bearer: "key".to_string(),
            content_type: "application/json".to_string(),
            payload: payload("me@example.com", "you@example.com", "<p>digest</p>"),
        }))
    );
    let without = env(None, Some("key"), Some("me@example.com"), Some("you@example.com"));
    let request = Mailer::select(&without).dispatch("<p>digest</p>".to_string());
    assert_eq!(
        request,
        Ok(MailRequest::Smtp(SmtpMail {
            host: "127.0.0.1".to_string(),
            port: 1025,
            from: "notion@example.com".to_string(),
            to: "recipient@example.com".to_string(),
            subject: "Notion digest".to_string(),
            content_type: "text/html".to_string(),
            body: "<p>digest</p>".to_string(),
        }))
    );
}

#[test]
fn the_variable_counts_by_presence_not_by_value() {
    for value in ["", "0", "false", "no"] {
        let chosen = Mailer::select(&env(Some(value), None, None, None));
        assert!(matches!(chosen, Mailer::HttpMail(_)));
    }
    assert_eq!(
        Mailer::select(&env(None, None, None, None)),
        Mailer::Smtp(SmtpConfig { host: "127.0.0.1".to_string(), port: SMTP_PORT })
    );
    assert_eq!(SMTP_PORT, 1025);
}

#[test]
fn selecting_the_mail_service_misses_no_variable() {
    assert_eq!(
        Mailer::select(&env(Some("1"), None, Some("f"), None)),
        Mailer::HttpMail(HttpMailConfig {
            api_key: None,
            from_address: Some("f".to_string()),
            to_address: None
        })
    );
}

#[test]
fn a_dispatch_misses_the_first_unset_variable() {
    let body = || "<p/>".to_string();
    assert_eq!(
        Mailer::select(&env(Some("1"), None, None, None)).dispatch(body()),
        Err(DigestError::ConfigMissing(ConfigVar::SendgridApiKey))
    );
    assert_eq!(
        Mailer::select(&env(Some("1"), None, Some("f"), Some("t"))).dispatch(body()),
        Err(DigestError::ConfigMissing(ConfigVar::SendgridApiKey))
    );
    assert_eq!(
        Mailer::select(&env(Some("1"), Some("k"), None, None)).dispatch(body()),
        Err(DigestError::ConfigMissing(ConfigVar::FromAddress))
    );
    assert_eq!(
        Mailer::select(&env(Some("1"), Some("k"), Some("f"), None)).dispatch(body()),
        Err(DigestError::ConfigMissing(ConfigVar::ToAddress))
    );
}

#[test]
fn the_relay_needs_nothing_from_the_environment() {
    let request = Mailer::select(&env(None, None, None, None)).dispatch(String::new());
    assert!(matches!(request, Ok(MailRequest::Smtp(_))));
}

#[test]
fn the_mail_service_accepts_with_a_2xx_status() {
    assert_eq!(mail_outcome(MailReport::HttpStatus(200)), Ok(()));
    assert_eq!(mail_outcome(MailReport::HttpStatus(202)), Ok(()));
    assert_eq!(mail_outcome(MailReport::HttpStatus(299)), Ok(()));
    assert_eq!(mail_outcome(MailReport::HttpStatus(199)), Err(DigestError::MailerRemote));
    assert_eq!(mail_outcome(MailReport::HttpStatus(300)), Err(DigestError::MailerRemote));
    assert_eq!(mail_outcome(MailReport::HttpStatus(401)), Err(DigestError::MailerRemote));
    assert_eq!(mail_outcome(MailReport::HttpStatus(0)), Err(DigestError::MailerRemote));
    assert_eq!(mail_outcome(MailReport::HttpStatus(u16::MAX)), Err(DigestError::MailerRemote));
    assert_eq!(mail_outcome(MailReport::HttpFailed), Err(DigestError::MailerRemote));
}

#[test]
fn the_relay_accepts_or_fails_locally() {
    assert_eq!(mail_outcome(MailReport::SmtpAccepted), Ok(()));
    assert_eq!(mail_outcome(MailReport::SmtpFailed), Err(DigestError::MailerLocal));
}
