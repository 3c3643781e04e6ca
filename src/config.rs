//! Names and paths: the socket, the daemon executable, the backend names and
//! the model file each backend loads.

use vstd::prelude::*;

use crate::error::Error;
use crate::model::BackendKind;
use crate::text::text_eq;

verus! {

/// Where the daemon listens.
pub const SOCKET_PATH: &'static str = "/tmp/threadrunner.sock";

/// The daemon executable's file name, next to the client's.
pub const DAEMON_EXE_NAME: &'static str = "threadrunner-daemon";

/// The model path the dummy backend is given: it reads no file.
pub const DUMMY_MODEL_PATH: &'static str = "/dev/null";

/// The model file under the home directory that the native backend loads by default.
pub const BUNDLED_MODEL: &'static str = ".threadrunner/models/llama2-7b.Q4_K_M.gguf";

/// Failures to find the paths the programs need.
#[derive(Debug, PartialEq, Eq)]
pub enum ConfigError {
    HomeDirectoryNotFound,
    CurrentExeNotFound,
}

impl ConfigError {
    /// The error as one line of text.
    pub fn describe(&self) -> (r: &'static str)
        ensures
            *self == ConfigError::HomeDirectoryNotFound ==> r@ == "Failed to determine home directory"@,
            *self == ConfigError::CurrentExeNotFound ==> r@
                == "Failed to determine current executable path"@,
    {
        match self {
            ConfigError::HomeDirectoryNotFound => "Failed to determine home directory",
            ConfigError::CurrentExeNotFound => "Failed to determine current executable path",
        }
    }
}

/// Failures to derive the daemon executable's path.
#[derive(Debug, PartialEq, Eq)]
pub enum PathError {
    InvalidExePath(String),
    DaemonExeResolution,
}

impl PathError {
    /// The error as one line of text.
    pub fn describe(&self) -> (r: String)
        ensures
            self matches PathError::InvalidExePath(p) ==> r@ == "Invalid executable path: "@ + p@,
            self is DaemonExeResolution ==> r@ == "Failed to resolve daemon executable path"@,
    {
        match self {
            PathError::InvalidExePath(p) => "Invalid executable path: ".to_owned().concat(p.as_str()),
            PathError::DaemonExeResolution => "Failed to resolve daemon executable path".to_owned(),
        }
    }
}

/// The socket the client connects to.
pub fn socket_path() -> (r: String)
    ensures
        r@ == SOCKET_PATH@,
{
    SOCKET_PATH.to_owned()
}

/// The name of each backend kind.
pub open spec fn backend_name(kind: BackendKind) -> Seq<char> {
    match kind {
        BackendKind::Dummy => "dummy"@,
        BackendKind::Native => "native"@,
    }
}

/// The kind a name selects, if any.
pub open spec fn kind_named(name: Seq<char>) -> Option<BackendKind> {
    if name == "dummy"@ {
        Some(BackendKind::Dummy)
    } else if name == "native"@ {
        Some(BackendKind::Native)
    } else {
        None
    }
}

/// The name of a backend kind.
pub fn kind_name(kind: BackendKind) -> (r: &'static str)
    ensures
        r@ == backend_name(kind),
{
    match kind {
        BackendKind::Dummy => "dummy",
        BackendKind::Native => "native",
    }
}

/// The backend used when none is named: the richest one.
pub fn default_backend() -> (r: &'static str)
    ensures
        r@ == backend_name(BackendKind::Native),
{
    "native"
}

/// The names of all backends, in order.
pub fn available_backends() -> (r: Vec<&'static str>)
    ensures
        r@.len() == 2,
        r@[0]@ == backend_name(BackendKind::Dummy),
        r@[1]@ == backend_name(BackendKind::Native),
{
    let mut backends: Vec<&'static str> = Vec::new();
    backends.push("dummy");
    backends.push("native");
    backends
}

/// Validates the client's `--backend` argument, which must be a name exactly.
pub fn parse_backend(backend: &str) -> (r: Result<BackendKind, Error>)
    ensures
        kind_named(backend@) matches Some(k) ==> r == Ok::<BackendKind, Error>(k),
        kind_named(backend@) is None ==> r == Err::<BackendKind, Error>(Error::Unknown),
{
    if text_eq(backend, "dummy") {
        Ok(BackendKind::Dummy)
    } else if text_eq(backend, "native") {
        Ok(BackendKind::Native)
    } else {
        Err(Error::Unknown)
    }
}

/// What `str::to_lowercase` gives for a text.
pub uninterp spec fn lower_of(s: Seq<char>) -> Seq<char>;

/// Relies on `str::to_lowercase`: the lower-case mapping of each character,
/// which depends on the characters alone.
#[verifier::external_body]
fn lowercase(s: &str) -> (r: String)
    ensures
        r@ == lower_of(s@),
{
    s.to_lowercase()
}

/// Selects a backend from an already lower-cased name; an unknown name is a
/// load failure that lists the available names.
pub fn parse_backend_lowered(lowered: &str) -> (r: Result<BackendKind, Error>)
    ensures
        kind_named(lowered@) matches Some(k) ==> r == Ok::<BackendKind, Error>(k),
        kind_named(lowered@) is None ==> (r matches Err(Error::ModelLoad(m)) && m@
            == "unknown backend '"@ + lowered@ + "'; available backends: dummy, native"@),
{
    if text_eq(lowered, "dummy") {
        Ok(BackendKind::Dummy)
    } else if text_eq(lowered, "native") {
        Ok(BackendKind::Native)
    } else {
        Err(
            Error::ModelLoad(
                "unknown backend '".to_owned().concat(lowered).concat(
                    "'; available backends: dummy, native",
                ),
            ),
        )
    }
}

/// Selects a backend from the daemon's environment setting, ignoring case.
pub fn parse_backend_env(backend: &str) -> (r: Result<BackendKind, Error>)
    ensures
        kind_named(lower_of(backend@)) matches Some(k) ==> r == Ok::<BackendKind, Error>(k),
        kind_named(lower_of(backend@)) is None ==> (r matches Err(Error::ModelLoad(m)) && m@
            == "unknown backend '"@ + lower_of(backend@) + "'; available backends: dummy, native"@),
{
    let lowered = lowercase(backend);
    parse_backend_lowered(lowered.as_str())
}

/// The backend the daemon runs: the environment's choice, else the default.
pub fn get_backend_kind(setting: Option<&str>) -> (r: Result<BackendKind, Error>)
    ensures
        setting is None ==> r == Ok::<BackendKind, Error>(BackendKind::Native),
        setting is Some && kind_named(lower_of(setting->Some_0@)) is Some ==> r == Ok::<
            BackendKind,
            Error,
        >(kind_named(lower_of(setting->Some_0@))->Some_0),
        setting is Some && kind_named(lower_of(setting->Some_0@)) is None ==> (r matches Err(
            Error::ModelLoad(m),
        ) && m@ == "unknown backend '"@ + lower_of(setting->Some_0@)
            + "'; available backends: dummy, native"@),
{
    match setting {
        Some(s) => parse_backend_env(s),
        None => Ok(BackendKind::Native),
    }
}

/// `home` joined with a relative path.
pub open spec fn joined(home: Seq<char>, rel: Seq<char>) -> Seq<char> {
    if home.len() > 0 && home.last() == '/' {
        home + rel
    } else {
        home + "/"@ + rel
    }
}

/// The native backend's default model file under the home directory.
pub fn default_model_path(home: Option<&str>) -> (r: Result<String, Error>)
    ensures
        home is Some ==> r is Ok && r->Ok_0@ == joined(home->Some_0@, BUNDLED_MODEL@),
        home is None ==> r is Err && r->Err_0 is ModelLoad,
{
    match home {
        Some(h) => {
            let n = h.unicode_len();
            if n > 0 && h.get_char(n - 1) == '/' {
                Ok(h.to_owned().concat(BUNDLED_MODEL))
            } else {
                Ok(h.to_owned().concat("/").concat(BUNDLED_MODEL))
            }
        },
        None => Err(Error::ModelLoad("could not determine home directory".to_owned())),
    }
}

/// The model file a backend kind loads: none for the dummy, else the
/// environment's override or the default under the home directory.
pub fn get_model_path(kind: BackendKind, override_path: Option<&str>, home: Option<&str>) -> (r:
    Result<String, Error>)
    ensures
        kind == BackendKind::Dummy ==> r is Ok && r->Ok_0@ == DUMMY_MODEL_PATH@,
        kind == BackendKind::Native && override_path is Some ==> r is Ok && r->Ok_0@
            == override_path->Some_0@,
        kind == BackendKind::Native && override_path is None && home is Some ==> r is Ok
            && r->Ok_0@ == joined(home->Some_0@, BUNDLED_MODEL@),
        kind == BackendKind::Native && override_path is None && home is None ==> r is Err
            && r->Err_0 is ModelLoad,
{
    match kind {
        BackendKind::Dummy => Ok(DUMMY_MODEL_PATH.to_owned()),
        BackendKind::Native => match override_path {
            Some(o) => Ok(o.to_owned()),
            None => default_model_path(home),
        },
    }
}

} // verus!
