//! The builder of a session, and the decisions around its network calls: which settings are
//! required, how the engine-URL lookup's answer reads, and which statements select the
//! database and engine.
use vstd::prelude::*;
use crate::error::FireboltError;
use crate::headers::{ensure_trailing_slash, fix_schema, with_scheme, with_trailing_slash};
use crate::json::{JsonView, field_of, json_document, read_document};
use crate::text::{join, owned};

verus! {

/// The settings of a session to build.
#[derive(Debug)]
pub struct FireboltClientFactory {
    client_id: Option<String>,
    client_secret: Option<String>,
    database_name: Option<String>,
    engine_name: Option<String>,
    account_name: Option<String>,
    api_endpoint: String,
}

/// The mathematical form of the builder's settings.
pub struct FactoryView {
    pub client_id: Option<Seq<char>>,
    pub client_secret: Option<Seq<char>>,
    pub database_name: Option<Seq<char>>,
    pub engine_name: Option<Seq<char>>,
    pub account_name: Option<Seq<char>>,
    pub api_endpoint: Seq<char>,
}

pub open spec fn opt_view(o: Option<String>) -> Option<Seq<char>> {
    match o {
        Some(s) => Some(s@),
        None => None,
    }
}

impl View for FireboltClientFactory {
    type V = FactoryView;

    closed spec fn view(&self) -> FactoryView {
        FactoryView {
            client_id: opt_view(self.client_id),
            client_secret: opt_view(self.client_secret),
            database_name: opt_view(self.database_name),
            engine_name: opt_view(self.engine_name),
            account_name: opt_view(self.account_name),
            api_endpoint: self.api_endpoint@,
        }
    }
}

/// A builder with nothing set, aimed at the public API endpoint.
pub open spec fn empty_factory() -> FactoryView {
    FactoryView {
        client_id: None,
        client_secret: None,
        database_name: None,
        engine_name: None,
        account_name: None,
        api_endpoint: "https://api.firebolt.io"@,
    }
}

/// The answer of an engine-URL lookup: for status 200, the `engineUrl` string of the JSON
/// body with a trailing slash and a scheme; for 404, an unknown account; else the body as a
/// query error.
pub open spec fn engine_url_outcome(status: u16, body: Seq<char>) -> Result<Seq<char>, crate::client::ErrorKind> {
    if status == 200 {
        match json_document(body) {
            Some(doc) => match field_of(doc, "engineUrl"@) {
                Some(JsonView::Str(u)) => Ok(with_scheme(with_trailing_slash(u))),
                _ => Err(crate::client::ErrorKind::Query),
            },
            None => Err(crate::client::ErrorKind::Query),
        }
    } else if status == 404 {
        Err(crate::client::ErrorKind::Configuration)
    } else {
        Err(crate::client::ErrorKind::Query)
    }
}

impl FireboltClientFactory {
    /// A builder with nothing set.
    pub fn new() -> (r: FireboltClientFactory)
        ensures
            r@ == empty_factory(),
    {
        FireboltClientFactory {
            client_id: None,
            client_secret: None,
            database_name: None,
            engine_name: None,
            account_name: None,
            api_endpoint: owned("https://api.firebolt.io"),
        }
    }

    pub fn with_credentials(self, client_id: String, client_secret: String) -> (r: FireboltClientFactory)
        ensures
            r@ == (FactoryView {
                client_id: Some(client_id@),
                client_secret: Some(client_secret@),
                ..self@
            }),
    {
        FireboltClientFactory { client_id: Some(client_id), client_secret: Some(client_secret), ..self }
    }

    pub fn with_database(self, database_name: String) -> (r: FireboltClientFactory)
        ensures
            r@ == (FactoryView { database_name: Some(database_name@), ..self@ }),
    {
        FireboltClientFactory { database_name: Some(database_name), ..self }
    }

    pub fn with_engine(self, engine_name: String) -> (r: FireboltClientFactory)
        ensures
            r@ == (FactoryView { engine_name: Some(engine_name@), ..self@ }),
    {
        FireboltClientFactory { engine_name: Some(engine_name), ..self }
    }

    pub fn with_account(self, account_name: String) -> (r: FireboltClientFactory)
        ensures
            r@ == (FactoryView { account_name: Some(account_name@), ..self@ }),
    {
        FireboltClientFactory { account_name: Some(account_name), ..self }
    }

    pub fn database_name(&self) -> (r: Option<&String>)
        ensures
            match r {
                Some(v) => self@.database_name == Some(v@),
                None => self@.database_name is None,
            },
    {
        self.database_name.as_ref()
    }

    pub fn engine_name(&self) -> (r: Option<&String>)
        ensures
            match r {
                Some(v) => self@.engine_name == Some(v@),
                None => self@.engine_name is None,
            },
    {
        self.engine_name.as_ref()
    }

    /// The client id, client secret and account name, in that order of need: a configuration
    /// error names the first one missing.
    pub fn required_settings(&self) -> (r: Result<(String, String, String), FireboltError>)
        ensures
            match r {
                Ok((id, secret, account)) => self@.client_id == Some(id@) && self@.client_secret
                    == Some(secret@) && self@.account_name == Some(account@),
                Err(e) => e is Configuration && (self@.client_id is None || self@.client_secret is None
                    || self@.account_name is None),
            },
    {
        let client_id = match &self.client_id {
            Some(v) => v.clone(),
            None => {
                return Err(FireboltError::Configuration(String::from_str("client_id is required")));
            },
        };
        let client_secret = match &self.client_secret {
            Some(v) => v.clone(),
            None => {
                return Err(FireboltError::Configuration(String::from_str("client_secret is required")));
            },
        };
        let account_name = match &self.account_name {
            Some(v) => v.clone(),
            None => {
                return Err(FireboltError::Configuration(String::from_str("account_name is required")));
            },
        };
        Ok((client_id, client_secret, account_name))
    }
}

/// The API endpoint that a configured value names, `https://` added where it names no scheme.
pub fn api_endpoint_from(configured: &str) -> (r: String)
    ensures
        r@ == with_scheme(configured@),
{
    fix_schema(configured)
}

/// Reads the answer of an engine-URL lookup for `account_name`: see `engine_url_outcome`.
pub fn engine_url_from_response(account_name: &str, status: u16, body: String) -> (r: Result<String, FireboltError>)
    ensures
        match r {
            Ok(u) => engine_url_outcome(status, body@) == Ok::<Seq<char>, crate::client::ErrorKind>(u@),
            Err(e) => engine_url_outcome(status, body@) == Err::<Seq<char>, crate::client::ErrorKind>(
                crate::client::kind_of(e),
            ),
        },
{
    if status == 200 {
        let doc = match read_document(body.as_str()) {
            Some(d) => d,
            None => {
                return Err(FireboltError::Query(String::from_str("Failed to parse engine URL response")));
            },
        };
        let url = match doc.get("engineUrl") {
            Some(v) => match v.as_str() {
                Some(s) => s,
                None => {
                    return Err(FireboltError::Query(String::from_str("Missing engineUrl field in response")));
                },
            },
            None => {
                return Err(FireboltError::Query(String::from_str("Missing engineUrl field in response")));
            },
        };
        let with_slash = ensure_trailing_slash(url);
        Ok(fix_schema(with_slash.as_str()))
    } else if status == 404 {
        let m = join("Account '", account_name);
        Err(FireboltError::Configuration(join(m.as_str(), "' not found")))
    } else {
        Err(FireboltError::Query(body))
    }
}

/// The statement that selects a database.
pub fn use_database_sql(database_name: &str) -> (r: String)
    ensures
        r@ == "USE DATABASE \""@ + database_name@ + "\""@,
{
    let head = join("USE DATABASE \"", database_name);
    join(head.as_str(), "\"")
}

/// The statement that selects an engine.
pub fn use_engine_sql(engine_name: &str) -> (r: String)
    ensures
        r@ == "USE ENGINE \""@ + engine_name@ + "\""@,
{
    let head = join("USE ENGINE \"", engine_name);
    join(head.as_str(), "\"")
}

/// What a setup statement selects.
#[derive(Debug, Clone, Copy, PartialEq, Eq, Structural)]
pub enum SetupTarget {
    Database,
    Engine,
}

/// The configuration error that a failed setup statement becomes, naming what it selects and
/// carrying the message of its cause.
pub fn setup_error(target: SetupTarget, cause: &FireboltError) -> (r: FireboltError)
    ensures
        r matches FireboltError::Configuration(m) && m@ == (match target {
            SetupTarget::Database => "Failed to set database: "@,
            SetupTarget::Engine => "Failed to set engine: "@,
        }) + cause.text()@,
{
    let cause_text = cause.message();
    match target {
        SetupTarget::Database => FireboltError::Configuration(join("Failed to set database: ", cause_text.as_str())),
        SetupTarget::Engine => FireboltError::Configuration(join("Failed to set engine: ", cause_text.as_str())),
    }
}

} // verus!
