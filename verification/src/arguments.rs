//! The closed command vocabulary of the client, the per-invocation
//! parameter bag, and the resolution of the app id a device operation runs
//! under.

use vstd::prelude::*;
use crate::config::Config;
use crate::errors::{CliError, ValidationKind};
use crate::util::str_eq;

verus! {

/// The four CRUD verbs the client knows. The set is closed.
#[allow(non_camel_case_types)]
#[derive(Clone, Copy, Debug, PartialEq, Eq, Structural)]
pub enum Verbs {
    create,
    delete,
    edit,
    get,
}

/// The two resource kinds the registry hosts. The set is closed.
#[allow(non_camel_case_types)]
#[derive(Clone, Copy, Debug, PartialEq, Eq, Structural)]
pub enum Resources {
    device,
    app,
}

/// The flags an invocation may carry.
#[allow(non_camel_case_types)]
#[derive(Clone, Copy, Debug, PartialEq, Eq, Structural)]
pub enum Parameters {
    url,
    id,
    data,
    config,
    filename,
    command,
}

/// The top-level commands beside the CRUD verbs.
#[allow(non_camel_case_types)]
#[derive(Clone, Copy, Debug, PartialEq, Eq, Structural)]
pub enum Other_commands {
    login,
    token,
    version,
    send,
}

/// The token each verb is written as.
pub open spec fn spec_verb_str(v: Verbs) -> Seq<char> {
    match v {
        Verbs::create => "create"@,
        Verbs::delete => "delete"@,
        Verbs::edit => "edit"@,
        Verbs::get => "get"@,
    }
}

/// The verb a token names, if any.
pub open spec fn spec_verb_from_str(s: Seq<char>) -> Option<Verbs> {
    if s == "create"@ {
        Some(Verbs::create)
    } else if s == "delete"@ {
        Some(Verbs::delete)
    } else if s == "edit"@ {
        Some(Verbs::edit)
    } else if s == "get"@ {
        Some(Verbs::get)
    } else {
        None
    }
}

/// The token each resource kind is written as.
pub open spec fn spec_resource_str(r: Resources) -> Seq<char> {
    match r {
        Resources::device => "device"@,
        Resources::app => "app"@,
    }
}

/// The resource kind a token names, if any.
pub open spec fn spec_resource_from_str(s: Seq<char>) -> Option<Resources> {
    if s == "device"@ {
        Some(Resources::device)
    } else if s == "app"@ {
        Some(Resources::app)
    } else {
        None
    }
}

impl Verbs {
    pub fn from_str(s: &str) -> (r: Option<Verbs>)
        ensures
            r == spec_verb_from_str(s@),
    {
        if str_eq(s, "create") {
            Some(Verbs::create)
        } else if str_eq(s, "delete") {
            Some(Verbs::delete)
        } else if str_eq(s, "edit") {
            Some(Verbs::edit)
        } else if str_eq(s, "get") {
            Some(Verbs::get)
        } else {
            None
        }
    }

    pub fn as_str(&self) -> (r: &'static str)
        ensures
            r@ == spec_verb_str(*self),
    {
        match self {
            Verbs::create => "create",
            Verbs::delete => "delete",
            Verbs::edit => "edit",
            Verbs::get => "get",
        }
    }
}

impl Resources {
    pub fn from_str(s: &str) -> (r: Option<Resources>)
        ensures
            r == spec_resource_from_str(s@),
    {
        if str_eq(s, "device") {
            Some(Resources::device)
        } else if str_eq(s, "app") {
            Some(Resources::app)
        } else {
            None
        }
    }

    pub fn as_str(&self) -> (r: &'static str)
        ensures
            r@ == spec_resource_str(*self),
    {
        match self {
            Resources::device => "device",
            Resources::app => "app",
        }
    }
}

impl Parameters {
    pub fn as_str(&self) -> (r: &'static str)
        ensures
            self is url ==> r@ == "url"@,
            self is id ==> r@ == "id"@,
            self is data ==> r@ == "data"@,
            self is config ==> r@ == "config"@,
            self is filename ==> r@ == "filename"@,
            self is command ==> r@ == "command"@,
    {
        match self {
            Parameters::url => "url",
            Parameters::id => "id",
            Parameters::data => "data",
            Parameters::config => "config",
            Parameters::filename => "filename",
            Parameters::command => "command",
        }
    }
}

impl Other_commands {
    pub fn as_str(&self) -> (r: &'static str)
        ensures
            self is login ==> r@ == "login"@,
            self is token ==> r@ == "token"@,
            self is version ==> r@ == "version"@,
            self is send ==> r@ == "send"@,
    {
        match self {
            Other_commands::login => "login",
            Other_commands::token => "token",
            Other_commands::version => "version",
            Other_commands::send => "send",
        }
    }
}

/// The command vocabulary is closed and unambiguous: every verb and every
/// resource kind is recovered from its own token, so distinct verbs and
/// distinct resource kinds never share a token.
pub proof fn lemma_tokens_round_trip(v: Verbs, r: Resources)
    ensures
        spec_verb_from_str(spec_verb_str(v)) == Some(v),
        spec_resource_from_str(spec_resource_str(r)) == Some(r),
{
    reveal_strlit("create");
    reveal_strlit("delete");
    reveal_strlit("edit");
    reveal_strlit("get");
    reveal_strlit("device");
    reveal_strlit("app");
    assert("create"@.len() == 6 && "delete"@.len() == 6 && "edit"@.len() == 4 && "get"@.len()
        == 3);
    assert("device"@.len() == 6 && "app"@.len() == 3);
    assert("create"@[0] == 'c' && "delete"@[0] == 'd');
}

/// The values an invocation hands the router, already lifted off the
/// command line.
pub struct Params {
    pub id: Option<String>,
    pub data: Option<String>,
    pub app: Option<String>,
    pub filename: Option<String>,
    pub url: Option<String>,
    pub config_path: Option<String>,
    pub command: Option<String>,
}

/// The mathematical value of a [`Params`].
pub struct ParamsV {
    pub id: Option<Seq<char>>,
    pub data: Option<Seq<char>>,
    pub app: Option<Seq<char>>,
    pub filename: Option<Seq<char>>,
    pub url: Option<Seq<char>>,
    pub config_path: Option<Seq<char>>,
    pub command: Option<Seq<char>>,
}

impl View for Params {
    type V = ParamsV;

    open spec fn view(&self) -> ParamsV {
        ParamsV {
            id: self.id.deep_view(),
            data: self.data.deep_view(),
            app: self.app.deep_view(),
            filename: self.filename.deep_view(),
            url: self.url.deep_view(),
            config_path: self.config_path.deep_view(),
            command: self.command.deep_view(),
        }
    }
}

/// The app id a device operation resolves to: the explicit flag when one
/// was given, else the configured default app, else a validation failure.
pub open spec fn spec_get_app_id(flag: Option<Seq<char>>, default_app: Option<Seq<char>>) -> Result<
    Seq<char>,
    CliError,
> {
    match flag {
        Some(a) => Ok(a),
        None => match default_app {
            Some(d) => Ok(d),
            None => Err(CliError::ValidationError { kind: ValidationKind::MissingApp }),
        },
    }
}

/// Resolves the app id for a device operation. The explicit flag always
/// wins over the configured default; with neither present the operation
/// fails here, before any request exists.
pub fn get_app_id<'a>(params: &'a Params, config: &'a Config) -> (r: Result<&'a String, CliError>)
    ensures
        r matches Ok(a) ==> spec_get_app_id(params@.app, config@.default_app) == Ok::<
            Seq<char>,
            CliError,
        >(a@),
        r matches Err(e) ==> spec_get_app_id(params@.app, config@.default_app) == Err::<
            Seq<char>,
            CliError,
        >(e),
{
    match &params.app {
        Some(a) => Ok(a),
        None => match &config.default_app {
            Some(d) => Ok(d),
            None => Err(CliError::ValidationError { kind: ValidationKind::MissingApp }),
        },
    }
}

/// Flag precedence: an explicit `--app` always wins over the configured
/// default app; the default is used exactly when no flag was given; and
/// with neither present the resolution fails with the missing-app error.
pub proof fn lemma_app_resolution(flag: Option<Seq<char>>, default_app: Option<Seq<char>>)
    ensures
        flag matches Some(a) ==> spec_get_app_id(flag, default_app) == Ok::<Seq<char>, CliError>(
            a,
        ),
        flag is None ==> (default_app matches Some(d) ==> spec_get_app_id(flag, default_app)
            == Ok::<Seq<char>, CliError>(d)),
        flag is None && default_app is None ==> spec_get_app_id(flag, default_app) == Err::<
            Seq<char>,
            CliError,
        >(CliError::ValidationError { kind: ValidationKind::MissingApp }),
{
}

} // verus!
