//! The configuration of a run: what the environment held when the run began.

use vstd::prelude::*;

use crate::error::{ConfigVar, DigestError};

verus! {

/// The variables of the environment that a run looks at, each `None` where
/// the variable was not set.
#[derive(Debug, Clone, PartialEq, Eq)]
pub struct Environment {
    pub notion_api_key: Option<String>,
    pub notion_database_id: Option<String>,
    pub use_sendgrid: Option<String>,
    pub sendgrid_api_key: Option<String>,
    pub from_address: Option<String>,
    pub to_address: Option<String>,
}

/// What an [`Environment`] holds.
pub struct EnvironmentView {
    pub notion_api_key: Option<Seq<char>>,
    pub notion_database_id: Option<Seq<char>>,
    pub use_sendgrid: Option<Seq<char>>,
    pub sendgrid_api_key: Option<Seq<char>>,
    pub from_address: Option<Seq<char>>,
    pub to_address: Option<Seq<char>>,
}

impl EnvironmentView {
    /// The value of a required variable, if it was set.
    pub open spec fn value(self, var: ConfigVar) -> Option<Seq<char>> {
        match var {
            ConfigVar::NotionApiKey => self.notion_api_key,
            ConfigVar::NotionDatabaseId => self.notion_database_id,
            ConfigVar::SendgridApiKey => self.sendgrid_api_key,
            ConfigVar::FromAddress => self.from_address,
            ConfigVar::ToAddress => self.to_address,
        }
    }

}

impl DeepView for Environment {
    type V = EnvironmentView;

    open spec fn deep_view(&self) -> EnvironmentView {
        EnvironmentView {
            notion_api_key: self.notion_api_key.deep_view(),
            notion_database_id: self.notion_database_id.deep_view(),
            use_sendgrid: self.use_sendgrid.deep_view(),
            sendgrid_api_key: self.sendgrid_api_key.deep_view(),
            from_address: self.from_address.deep_view(),
            to_address: self.to_address.deep_view(),
        }
    }
}

/// What `found` holds, copied, or that `var` is missing.
fn value_or_missing(found: &Option<String>, var: ConfigVar) -> (value: Result<String, DigestError>)
    ensures
        match found {
            Some(text) => value matches Ok(copy) && copy@ == text@,
            None => value == Err::<String, DigestError>(DigestError::ConfigMissing(var)),
        },
{
    match found {
        Some(text) => Ok(text.clone()),
        None => Err(DigestError::ConfigMissing(var)),
    }
}

impl Environment {
    /// The value of a variable that the step at hand cannot do without:
    /// `ConfigMissing`, naming the variable, exactly when it was not set.
    pub fn require(&self, var: ConfigVar) -> (value: Result<String, DigestError>)
        ensures
            match self.deep_view().value(var) {
                Some(text) => value matches Ok(copy) && copy@ == text,
                None => value == Err::<String, DigestError>(DigestError::ConfigMissing(var)),
            },
    {
        match var {
            ConfigVar::NotionApiKey => value_or_missing(&self.notion_api_key, var),
            ConfigVar::NotionDatabaseId => value_or_missing(&self.notion_database_id, var),
            ConfigVar::SendgridApiKey => value_or_missing(&self.sendgrid_api_key, var),
            ConfigVar::FromAddress => value_or_missing(&self.from_address, var),
            ConfigVar::ToAddress => value_or_missing(&self.to_address, var),
        }
    }

    /// Whether mail goes out through the mail service. The variable's
    /// presence decides, whatever it holds.
    pub fn uses_mail_service(&self) -> (chosen: bool)
        ensures
            chosen == self.deep_view().use_sendgrid.is_some(),
    {
        self.use_sendgrid.is_some()
    }
}

} // verus!
