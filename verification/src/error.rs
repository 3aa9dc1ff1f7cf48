//! The library's error type. Every failure reaches the interface as a stable
//! code and a readable message.

use vstd::prelude::*;

verus! {

/// Errors of the launcher. Failures of outside machinery (file system,
/// TOML, JSON, HTTP) carry the text of the underlying error.
#[derive(Debug)]
pub enum AetherError {
    Io(String),
    TomlSer(String),
    TomlDe(String),
    Json(String),
    Http(String),
    NotFound(String),
    InvalidState(String),
    NotImplemented(String),
    HashMismatch { path: String, expected: String, actual: String },
}

/// The stable code under which an error reaches the interface.
pub open spec fn error_code(e: AetherError) -> Seq<char> {
    match e {
        AetherError::Io(_) => "IO"@,
        AetherError::TomlSer(_) => "TOML"@,
        AetherError::TomlDe(_) => "TOML"@,
        AetherError::Json(_) => "JSON"@,
        AetherError::Http(_) => "HTTP"@,
        AetherError::NotFound(_) => "NOT_FOUND"@,
        AetherError::InvalidState(_) => "INVALID_STATE"@,
        AetherError::NotImplemented(_) => "NOT_IMPLEMENTED"@,
        AetherError::HashMismatch { .. } => "HASH_MISMATCH"@,
    }
}

/// The readable message of an error.
pub open spec fn error_message(e: AetherError) -> Seq<char> {
    match e {
        AetherError::Io(m) => "error de E/S: "@ + m@,
        AetherError::TomlSer(m) => "error al serializar TOML: "@ + m@,
        AetherError::TomlDe(m) => "error al leer TOML: "@ + m@,
        AetherError::Json(m) => "error JSON: "@ + m@,
        AetherError::Http(m) => "error HTTP: "@ + m@,
        AetherError::NotFound(m) => "recurso no encontrado: "@ + m@,
        AetherError::InvalidState(m) => "estado invalido: "@ + m@,
        AetherError::NotImplemented(m) => "no implementado: "@ + m@,
        AetherError::HashMismatch { path, .. } => "hash SHA1 invalido para "@ + path@,
    }
}

fn prefixed(prefix: &str, m: &String) -> (r: String)
    ensures
        r@ == prefix@ + m@,
{
    let mut r = prefix.to_owned();
    r.append(m.as_str());
    r
}

impl AetherError {
    pub fn code(&self) -> (r: &'static str)
        ensures
            r@ == error_code(*self),
    {
        match self {
            AetherError::Io(_) => "IO",
            AetherError::TomlSer(_) => "TOML",
            AetherError::TomlDe(_) => "TOML",
            AetherError::Json(_) => "JSON",
            AetherError::Http(_) => "HTTP",
            AetherError::NotFound(_) => "NOT_FOUND",
            AetherError::InvalidState(_) => "INVALID_STATE",
            AetherError::NotImplemented(_) => "NOT_IMPLEMENTED",
            AetherError::HashMismatch { .. } => "HASH_MISMATCH",
        }
    }

    pub fn message(&self) -> (r: String)
        ensures
            r@ == error_message(*self),
    {
        match self {
            AetherError::Io(m) => prefixed("error de E/S: ", m),
            AetherError::TomlSer(m) => prefixed("error al serializar TOML: ", m),
            AetherError::TomlDe(m) => prefixed("error al leer TOML: ", m),
            AetherError::Json(m) => prefixed("error JSON: ", m),
            AetherError::Http(m) => prefixed("error HTTP: ", m),
            AetherError::NotFound(m) => prefixed("recurso no encontrado: ", m),
            AetherError::InvalidState(m) => prefixed("estado invalido: ", m),
            AetherError::NotImplemented(m) => prefixed("no implementado: ", m),
            AetherError::HashMismatch { path, .. } => prefixed("hash SHA1 invalido para ", path),
        }
    }
}

/// An error whose message is `prefix` followed by `detail`.
pub fn msg(prefix: &str, detail: &str) -> (r: String)
    ensures
        r@ == prefix@ + detail@,
{
    let mut r = prefix.to_owned();
    r.append(detail);
    r
}

} // verus!
