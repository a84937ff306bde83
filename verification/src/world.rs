//! The compiler's host-environment model: one resolvable in-memory main
//! document, a permanently empty auxiliary-file table, and a frozen clock.
//!
//! The embedded compiler asks its host to resolve sources, auxiliary files
//! and the current date. This crate answers those questions over plain
//! values; the thin shim that speaks the compiler's own interface converts
//! its identifiers to [`FileKey`] values and back.

use vstd::prelude::*;
use vstd::string::*;

verus! {

/// Identifies a logical file independently of any real filesystem: an
/// optional package namespace (always absent for the main document) and a
/// virtual path.
pub struct FileKey {
    pub package: Option<String>,
    pub path: String,
}

impl FileKey {
    /// Two keys identify the same file: same namespace, same path.
    pub open spec fn same_spec(&self, other: &FileKey) -> bool {
        &&& match (self.package, other.package) {
            (Option::None, Option::None) => true,
            (Option::Some(a), Option::Some(b)) => a@ == b@,
            _ => false,
        }
        &&& self.path@ == other.path@
    }

    /// Does this key identify the same file as `other`?
    pub fn same_key(&self, other: &FileKey) -> (b: bool)
        ensures
            b == self.same_spec(other),
    {
        let ns_eq = match (&self.package, &other.package) {
            (Option::None, Option::None) => true,
            (Option::Some(a), Option::Some(b)) => a.eq(b),
            _ => false,
        };
        ns_eq && self.path.eq(&other.path)
    }
}

/// A failed lookup, carrying the virtual path that was asked for, so that
/// the compiler can report it.
pub struct NotFound {
    pub path: String,
}

/// The main document: the substituted template text under its fixed key.
pub struct MainSource {
    pub key: FileKey,
    pub text: String,
}

/// The virtual path under which the main document is registered.
pub open spec fn main_path() -> Seq<char> {
    "main.typ"@
}

/// The host environment for one compilation: the main document alone. The
/// auxiliary-file table is permanently empty, so it needs no field; every
/// auxiliary lookup fails.
pub struct EngineWorld {
    pub main: MainSource,
}

impl EngineWorld {
    /// A fresh environment around the given (already substituted) source
    /// text, registered under the main document's fixed key.
    pub fn new(source_text: String) -> (w: EngineWorld)
        ensures
            w.main.text@ == source_text@,
            w.main.key.package is None,
            w.main.key.path@ == main_path(),
    {
        let path = String::from_str("main.typ");
        EngineWorld {
            main: MainSource { key: FileKey { package: Option::None, path }, text: source_text },
        }
    }

    /// Source lookup: succeeds with the main document's text exactly when
    /// the queried key is the main document's key; any other key fails with
    /// not-found, carrying the queried path.
    pub fn source(&self, key: &FileKey) -> (r: Result<String, NotFound>)
        ensures
            self.main.key.same_spec(key) ==> (r matches Ok(text) && text@ == self.main.text@),
            !self.main.key.same_spec(key) ==> (r matches Err(e) && e.path@ == key.path@),
    {
        if self.main.key.same_key(key) {
            Ok(self.main.text.clone())
        } else {
            Err(NotFound { path: key.path.clone() })
        }
    }

    /// Auxiliary-file lookup: the table is permanently empty, so every
    /// lookup fails with not-found, carrying the queried path.
    pub fn file(&self, key: &FileKey) -> (r: Result<Vec<u8>, NotFound>)
        ensures
            r matches Err(e) && e.path@ == key.path@,
    {
        Err(NotFound { path: key.path.clone() })
    }

    /// The current date as seen by compiled documents: a fixed constant,
    /// whatever offset is requested. Wall-clock time is deliberately not
    /// exposed.
    pub fn today(&self, offset: Option<i64>) -> (r: Option<EngineDate>)
        ensures
            r == Some(EngineDate { year: 2025, month: 1, day: 1 }),
    {
        Some(EngineDate { year: 2025, month: 1, day: 1 })
    }
}

/// A calendar date as plain values, for handing to the compiler's clock
/// interface.
#[derive(Clone, Copy, PartialEq, Eq, Structural, Debug)]
pub struct EngineDate {
    pub year: i32,
    pub month: u8,
    pub day: u8,
}

} // verus!
