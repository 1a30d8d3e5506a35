//! What can go wrong while the settings are put together.
use vstd::prelude::*;

verus! {

/// The reason for which no settings could be made.
#[derive(Debug, PartialEq, Eq)]
pub enum SettingsError {
    /// A settings file could not be read or understood. `path` is the file's
    /// path where it is known, `cause` says what went wrong.
    FileParse { path: Option<String>, cause: String },
    /// Any other failure, in words.
    Message(String),
    /// No source gives a value for the setting at this path.
    MissingValue(String),
}

/// `String::push_str`: appends `tail` to the end of `text`.
#[verifier::external_body]
fn push_str(text: &mut String, tail: &str)
    ensures
        final(text)@ == old(text)@ + tail@,
{
    text.push_str(tail)
}

/// The text that describes `error`.
pub open spec fn description(error: SettingsError) -> Seq<char> {
    match error {
        SettingsError::FileParse { path, cause } => "FileParse "@ + cause@ + match path {
            Some(path) => " in "@ + path@,
            None => Seq::empty(),
        },
        SettingsError::Message(msg) => msg@,
        SettingsError::MissingValue(path) => "Missing settings value at "@ + path@,
    }
}

/// Whether `error` says that the setting at `path` is missing.
pub open spec fn is_missing_value(error: SettingsError, path: Seq<char>) -> bool {
    error matches SettingsError::MissingValue(missing) && missing@ == path
}

/// Whether `result` is what `expected` asks for: the value itself, or the
/// error for the path of the setting that is missing.
pub open spec fn settles<T>(result: Result<T, SettingsError>, expected: Result<T, Seq<char>>) -> bool {
    match expected {
        Ok(value) => result == Ok::<T, SettingsError>(value),
        Err(path) => result matches Err(error) && is_missing_value(error, path),
    }
}

impl SettingsError {
    /// Describes the error in words.
    pub fn to_string(&self) -> (text: String)
        ensures
            text@ == description(*self),
    {
        match self {
            SettingsError::FileParse { path, cause } => {
                let mut text = "FileParse ".to_owned();
                push_str(&mut text, cause.as_str());
                if let Some(path) = path {
                    push_str(&mut text, " in ");
                    push_str(&mut text, path.as_str());
                    assert(text@ =~= "FileParse "@ + cause@ + (" in "@ + path@));
                } else {
                    assert(text@ =~= "FileParse "@ + cause@ + Seq::<char>::empty());
                }
                text
            },
            SettingsError::Message(msg) => msg.clone(),
            SettingsError::MissingValue(path) => {
                let mut text = "Missing settings value at ".to_owned();
                push_str(&mut text, path.as_str());
                text
            },
        }
    }

    /// The error for the setting at `path`, for which no source has a value.
    pub fn missing(path: &str) -> (error: Self)
        ensures
            is_missing_value(error, path@),
    {
        SettingsError::MissingValue(path.to_owned())
    }
}

} // verus!
