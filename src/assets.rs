//! Locations of the program's assets and the failures of saving a model.
use vstd::prelude::*;

verus! {

#[verifier::external_type_specification]
#[verifier::external_body]
pub struct ExJsonError(serde_json::Error);

#[verifier::external_type_specification]
#[verifier::external_body]
pub struct ExIoErrorKind(std::io::ErrorKind);

#[verifier::external_type_specification]
#[verifier::external_body]
pub struct ExPathBuf(std::path::PathBuf);

/// The directory that holds samples and saved models.
pub const ASSETS_PATH: &'static str = "assets";

/// Why saving a model failed.
#[derive(Debug)]
pub enum SaveNetworkError {
    /// Writing or opening the file failed.
    IO(std::io::Error),
    /// The encoder failed for a reason of its own.
    Serialization(serde_json::Error),
    /// The text was malformed, truncated or did not fit the expected structure.
    Data,
    /// Any other failure.
    Unknown,
}

/// The kinds of failure the JSON encoder tells apart.
#[derive(Debug, Clone, Copy, PartialEq, Eq, Structural)]
pub enum JsonCategory {
    Io,
    Syntax,
    Data,
    Eof,
}

/// What a JSON failure of `category` becomes when it carries no I/O failure:
/// malformed, truncated or ill-typed text is a corrupt file, anything else is
/// unknown.
pub open spec fn category_error(category: JsonCategory) -> SaveNetworkError {
    match category {
        JsonCategory::Data | JsonCategory::Syntax | JsonCategory::Eof => SaveNetworkError::Data,
        JsonCategory::Io => SaveNetworkError::Unknown,
    }
}

impl SaveNetworkError {
    /// Classifies a JSON failure from its parts: an underlying I/O failure
    /// wins; otherwise syntax, end-of-input and data failures are `Data`, so
    /// that a corrupt file is told apart from an unknown failure.
    pub fn from_json_parts(io: Option<std::io::Error>, category: JsonCategory) -> (r: SaveNetworkError)
        ensures
            io matches Some(e) ==> r == SaveNetworkError::IO(e),
            io is None ==> r == category_error(category),
    {
        match io {
            Some(e) => SaveNetworkError::IO(e),
            None => match category {
                JsonCategory::Data | JsonCategory::Syntax | JsonCategory::Eof => SaveNetworkError::Data,
                JsonCategory::Io => SaveNetworkError::Unknown,
            },
        }
    }

    /// Classifies a failure of the JSON encoder.
    pub fn from_json_error(error: serde_json::Error) -> (r: SaveNetworkError)
        ensures
            r is IO || r is Data || r is Unknown,
    {
        let io = match json_io_error_kind(&error) {
            Some(kind) => Some(io_error_from_kind(kind)),
            None => None,
        };
        let category = json_category(&error);
        SaveNetworkError::from_json_parts(io, category)
    }
}

impl From<std::io::Error> for SaveNetworkError {
    fn from(error: std::io::Error) -> (r: SaveNetworkError)
        ensures
            r == SaveNetworkError::IO(error),
    {
        SaveNetworkError::IO(error)
    }
}

impl vstd::std_specs::convert::FromSpecImpl<std::io::Error> for SaveNetworkError {
    open spec fn obeys_from_spec() -> bool {
        true
    }

    open spec fn from_spec(error: std::io::Error) -> SaveNetworkError {
        SaveNetworkError::IO(error)
    }
}

/// Relies on serde_json::Error::io_error_kind: the kind of the underlying
/// I/O failure, if the failure came from one.
#[verifier::external_body]
fn json_io_error_kind(e: &serde_json::Error) -> Option<std::io::ErrorKind> {
    e.io_error_kind()
}

/// Relies on serde_json::Error::classify: which kind of failure it was.
#[verifier::external_body]
fn json_category(e: &serde_json::Error) -> JsonCategory {
    match e.classify() {
        serde_json::error::Category::Io => JsonCategory::Io,
        serde_json::error::Category::Syntax => JsonCategory::Syntax,
        serde_json::error::Category::Data => JsonCategory::Data,
        serde_json::error::Category::Eof => JsonCategory::Eof,
    }
}

/// Relies on std's `From<io::ErrorKind> for io::Error`: an error of that kind.
#[verifier::external_body]
fn io_error_from_kind(kind: std::io::ErrorKind) -> std::io::Error {
    std::io::Error::from(kind)
}

/// Relies on `From<&str> for PathBuf`: the path that the text names.
#[verifier::external_body]
fn path_of(s: &str) -> std::path::PathBuf {
    std::path::PathBuf::from(s)
}

/// Relies on PathBuf::push: extends the path with `s`.
#[verifier::external_body]
fn push_path(path: &mut std::path::PathBuf, s: &str) {
    path.push(s)
}

/// The path of the asset `file_name` inside the assets directory.
pub fn get_asset_path(file_name: &str) -> std::path::PathBuf {
    let mut path = path_of(ASSETS_PATH);
    push_path(&mut path, file_name);
    path
}

} // verus!
