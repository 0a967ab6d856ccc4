use notion_digest::config::Environment;
use notion_digest::error::{ConfigVar, DigestError};

fn all_errors() -> Vec<DigestError> {
    vec![
        DigestError::ConfigMissing(ConfigVar::NotionApiKey),
        DigestError::ConfigMissing(ConfigVar::ToAddress),
        DigestError::StoreIO,
        DigestError::StoreCorrupt,
        DigestError::IngestTransport,
        DigestError::IngestDecode,
        DigestError::IngestProtocol,
        DigestError::EnrichFetch,
        DigestError::EnrichParse,
        DigestError::MailerRemote,
        DigestError::MailerLocal,
    ]
}

#[test]
fn variables_have_their_names() {
    assert_eq!(ConfigVar::NotionApiKey.name(), "NOTION_API_KEY");
    assert_eq!(ConfigVar::NotionDatabaseId.name(), "NOTION_DATABASE_ID");
    assert_eq!(ConfigVar::SendgridApiKey.name(), "SENDGRID_API_KEY");
    assert_eq!(ConfigVar::FromAddress.name(), "FROM_ADDRESS");
    assert_eq!(ConfigVar::ToAddress.name(), "TO_ADDRESS");
}

#[test]
fn only_enrichment_failures_are_not_fatal() {
    for error in all_errors() {
        let expected = !matches!(error, DigestError::EnrichFetch | DigestError::EnrichParse);
        assert_eq!(error.is_fatal(), expected);
    }
}

#[test]
fn every_failure_is_reported_in_one_line() {
    for error in all_errors() {
        let line = error.message();
        assert!(!line.is_empty());
        assert!(!line.contains('\n'));
    }
}

#[test]
fn a_missing_variable_is_named() {
    assert_eq!(
        DigestError::ConfigMissing(ConfigVar::SendgridApiKey).message(),
        "environment variable not set: SENDGRID_API_KEY"
    );
    assert_eq!(DigestError::StoreCorrupt.message(), "a local document is malformed");
}

#[test]
fn a_required_variable_is_found_or_missed() {
    let env = Environment {
        notion_api_key: Some("k".to_string()),
        notion_database_id: None,
        use_sendgrid: Some(String::new()),
        sendgrid_api_key: Some("s".to_string()),
        from_address: Some("f@example.com".to_string()),
        to_address: None,
    };
    assert_eq!(env.require(ConfigVar::NotionApiKey), Ok("k".to_string()));
    assert_eq!(
        env.require(ConfigVar::NotionDatabaseId),
        Err(DigestError::ConfigMissing(ConfigVar::NotionDatabaseId))
    );
    assert_eq!(env.require(ConfigVar::SendgridApiKey), Ok("s".to_string()));
    assert_eq!(env.require(ConfigVar::FromAddress), Ok("f@example.com".to_string()));
    assert_eq!(
        env.require(ConfigVar::ToAddress),
        Err(DigestError::ConfigMissing(ConfigVar::ToAddress))
    );
}

#[test]
fn the_mail_service_is_chosen_by_presence_alone() {
    let mut env = Environment {
        notion_api_key: None,
        notion_database_id: None,
        use_sendgrid: None,
        sendgrid_api_key: None,
        from_address: None,
        to_address: None,
    };
    assert!(!env.uses_mail_service());
    env.use_sendgrid = Some(String::new());
    assert!(env.uses_mail_service());
    env.use_sendgrid = Some("false".to_string());
    assert!(env.uses_mail_service());
}
