//! Failures of loading the catalog, and which files the catalog is loaded
//! from.

use crate::text::{chars_of, ends_with, ends_with_chars};
use vstd::prelude::*;
use vstd::string::*;

verus! {

/// Why a definition could not be loaded.
#[derive(Debug, Clone, PartialEq)]
pub enum Error {
    /// The path does not name a file that ends in `.json`.
    NotAJsonFile(String),
    /// Reading failed; the text says how.
    IoError(String),
    /// The content is no definition; the text says why.
    DeserializationError(String),
}

/// Mathematical model of [`Error`].
pub ghost enum ErrorModel {
    NotAJsonFile(Seq<char>),
    IoError(Seq<char>),
    DeserializationError(Seq<char>),
}

impl View for Error {
    type V = ErrorModel;

    open spec fn view(&self) -> ErrorModel {
        match *self {
            Error::NotAJsonFile(p) => ErrorModel::NotAJsonFile(p@),
            Error::IoError(e) => ErrorModel::IoError(e@),
            Error::DeserializationError(t) => ErrorModel::DeserializationError(t@),
        }
    }
}

/// The message of an error.
pub open spec fn error_text(e: ErrorModel) -> Seq<char> {
    match e {
        ErrorModel::NotAJsonFile(p) => "the provided PathBuf \""@ + p + "\" is not a json-file"@,
        ErrorModel::IoError(e) => "nested io error: "@ + e,
        ErrorModel::DeserializationError(t) => t,
    }
}

impl Error {
    /// The message of the error.
    pub fn to_text(&self) -> (s: String)
        ensures
            s@ == error_text(self@),
    {
        match self {
            Error::NotAJsonFile(p) => {
                let mut s = String::from_str("the provided PathBuf \"");
                s.append(p.as_str());
                s.append("\" is not a json-file");
                s
            },
            Error::IoError(e) => {
                let mut s = String::from_str("nested io error: ");
                s.append(e.as_str());
                s
            },
            Error::DeserializationError(t) => t.clone(),
        }
    }

    /// The error for content that is no definition, `detail` saying why.
    pub fn deserialization(detail: &str) -> (e: Error)
        ensures
            e@ == ErrorModel::DeserializationError(
                "failed to deserialize a file as model_configuraton: "@ + detail@,
            ),
    {
        let mut s = String::from_str("failed to deserialize a file as model_configuraton: ");
        s.append(detail);
        Error::DeserializationError(s)
    }
}

/// The lower-case form of an ASCII letter; any other character as it is.
pub open spec fn ascii_lower(c: char) -> char {
    if 'A' <= c <= 'Z' {
        ((c as u8) + 32) as char
    } else {
        c
    }
}

/// A text with its ASCII letters in lower case.
pub open spec fn ascii_lowercase(s: Seq<char>) -> Seq<char> {
    Seq::new(s.len(), |i: int| ascii_lower(s[i]))
}

/// Whether a directory entry is loaded as a definition: a file whose name
/// ends in `.json`, in any letter case.
pub open spec fn is_catalog_entry(file_name: Seq<char>, is_file: bool) -> bool {
    is_file && ends_with(ascii_lowercase(file_name), ".json"@)
}

/// The lower-case form of an ASCII letter; any other character as it is.
pub fn ascii_lower_char(c: char) -> (r: char)
    ensures
        r == ascii_lower(c),
{
    if 'A' <= c && c <= 'Z' {
        ((c as u8) + 32) as char
    } else {
        c
    }
}

/// Whether a directory entry is to be loaded as a definition.
pub fn selects_catalog_entry(file_name: &str, is_file: bool) -> (r: bool)
    ensures
        r == is_catalog_entry(file_name@, is_file),
{
    if !is_file {
        return false;
    }
    let name = chars_of(file_name);
    let mut lower: Vec<char> = Vec::new();
    let mut i: usize = 0;
    while i < name.len()
        invariant
            i <= name.len(),
            lower@ == ascii_lowercase(name@).take(i as int),
        decreases name.len() - i,
    {
        lower.push(ascii_lower_char(name[i]));
        assert(lower@ =~= ascii_lowercase(name@).take(i + 1));
        i += 1;
    }
    assert(ascii_lowercase(name@).take(i as int) =~= ascii_lowercase(name@));
    ends_with_chars(&lower, &chars_of(".json"))
}

/// Checks that a path may be loaded as a definition: it must name a file,
/// and the file's name must end in `.json`. Fails with
/// [`Error::NotAJsonFile`], carrying the path, exactly if it does not.
pub fn check_json_file(path: &str, file_name: &str, is_file: bool) -> (r: Result<(), Error>)
    ensures
        r is Ok <==> is_file && ends_with(file_name@, ".json"@),
        r is Err ==> r->Err_0@ == ErrorModel::NotAJsonFile(path@),
{
    if !is_file || !ends_with_chars(&chars_of(file_name), &chars_of(".json")) {
        Err(Error::NotAJsonFile(String::from_str(path)))
    } else {
        Ok(())
    }
}

} // verus!
