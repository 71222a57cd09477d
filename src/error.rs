use vstd::prelude::*;

use crate::text::{decimal, decimal_text, owned};

verus! {

/// Everything that ends a command early.
#[derive(Debug)]
pub enum PluginError {
    /// Only plugins hosted as repositories can be installed.
    NonRepositoryPlugin,
    /// The repository address is not a well-formed URL.
    InvalidUrl,
    /// The URL does not point at the supported hosting service.
    UnsupportedHost,
    /// The URL path is not exactly `/owner/name`.
    MalformedRepositoryPath,
    /// The hosting service refused the request for its rate limit;
    /// `reset_at` is when the limit resets (epoch seconds) if the response
    /// said so, and `checked_at` when the response was read.
    RateLimited { reset_at: Option<i64>, checked_at: i64 },
    /// The hosting service answered with a status that is neither a success
    /// nor a rate limit.
    UnexpectedStatus { code: u16 },
    /// The request did not reach the hosting service or its answer was lost.
    NetworkFailure,
    /// The repository metadata did not name a default branch.
    BadRepositoryMetadata,
    /// The snapshot is not a readable tar+gzip stream.
    ArchiveReadFailure,
    /// The Plugins directory does not exist.
    PluginsRootNotFound,
    /// A plugin of that name is already installed.
    PluginAlreadyInstalled { name: String },
    /// A file or directory could not be created, written or removed.
    FileWriteFailure { path: String },
    /// The Plugins directory could not be listed.
    DirectoryReadFailure,
    /// A plugin's `info.json` could not be read or parsed.
    MetadataParseFailure,
    /// No installed plugin has that folder name.
    PluginNotFound { name: String },
    /// The default data directory is unknown on this operating system.
    UnsupportedPlatform,
    /// The environment variable the default data directory is read from is unset.
    MissingEnvironmentVariable { variable: String },
}

/// A number of seconds in words, in pretty_duration's expanded format.
pub uninterp spec fn pretty_duration_text(secs: nat) -> Seq<char>;

/// Relies on pretty_duration::pretty_duration, in its expanded format, to
/// put `secs` in words (`5 minutes`); the wording depends on the number
/// alone.
#[verifier::external_body]
fn pretty_seconds(secs: u64) -> (r: String)
    ensures
        r@ == pretty_duration_text(secs as nat),
{
    let options = pretty_duration::PrettyDurationOptions {
        output_format: Some(pretty_duration::PrettyDurationOutputFormat::Expanded),
        singular_labels: None,
        plural_labels: None,
    };
    pretty_duration::pretty_duration(&std::time::Duration::from_secs(secs), Some(options))
}

/// The seconds until a rate limit resets; a reset time already past counts
/// as zero.
pub open spec fn resets_in(reset_at: i64, checked_at: i64) -> nat {
    if reset_at > checked_at {
        (reset_at - checked_at) as nat
    } else {
        0
    }
}

/// The rate-limit message, with the time until the reset in words where
/// it is known.
pub open spec fn rate_limit_text(resets_in_words: Option<Seq<char>>) -> Seq<char> {
    "GitHub API rate limit reached!"@ + match resets_in_words {
        Some(w) => " Resets in "@ + w,
        None => Seq::<char>::empty(),
    }
}

/// The message that reports an error to the user.
pub open spec fn error_text(e: PluginError) -> Seq<char> {
    match e {
        PluginError::NonRepositoryPlugin => "Non repo plugins are not currently supported!"@,
        PluginError::InvalidUrl => "Invalid URL"@,
        PluginError::UnsupportedHost => "Invalid GitHub repository URL"@,
        PluginError::MalformedRepositoryPath => "Invalid GitHub repository URL"@,
        PluginError::RateLimited { reset_at, checked_at } => rate_limit_text(
            match reset_at {
                Some(t) => Some(pretty_duration_text(resets_in(t, checked_at))),
                None => None,
            },
        ),
        PluginError::UnexpectedStatus { code } => "GitHub API returned an unexpected status code: "@
            + decimal(code as nat),
        PluginError::NetworkFailure => "There was an error reaching the GitHub API"@,
        PluginError::BadRepositoryMetadata => "There was an error parsing the GitHub API response"@,
        PluginError::ArchiveReadFailure => "There was an error reading the repository tarball"@,
        PluginError::PluginsRootNotFound => "Plugins folder not found in Chatterino folder"@,
        PluginError::PluginAlreadyInstalled { name } => "A plugin with the name "@ + name@
            + " is already installed."@,
        PluginError::FileWriteFailure { path } => "There was an error writing "@ + path@,
        PluginError::DirectoryReadFailure => "Could not read Plugins/ folder"@,
        PluginError::MetadataParseFailure => "There was an error parsing the info.json plugin file"@,
        PluginError::PluginNotFound { name } => "Plugin '"@ + name@ + "' not found."@,
        PluginError::UnsupportedPlatform => "Unsupported OS, cannot locate Chatterino folder. Please use --path instead."@,
        PluginError::MissingEnvironmentVariable { variable } => "Could not read "@ + variable@
            + " environment variable. Please use --path instead."@,
    }
}

/// The rate-limit message, given the time until the reset in words where
/// it is known.
pub fn rate_limit_message(resets_in_words: Option<&str>) -> (r: String)
    ensures
        r@ == rate_limit_text(
            match resets_in_words {
                Some(w) => Some(w@),
                None => None,
            },
        ),
{
    let mut r = owned("GitHub API rate limit reached!");
    match resets_in_words {
        Some(w) => {
            let ghost head = r@;
            r.append(" Resets in ");
            r.append(w);
            assert(r@ =~= head + (" Resets in "@ + w@));
        },
        None => {
            assert(r@ =~= r@ + Seq::<char>::empty());
        },
    }
    r
}

/// `a`, `b` and `c` in sequence.
fn join3(a: &str, b: &str, c: &str) -> (r: String)
    ensures
        r@ == a@ + b@ + c@,
{
    let mut r = owned(a);
    r.append(b);
    r.append(c);
    r
}

impl PluginError {
    /// The message that reports this error to the user.
    pub fn message(&self) -> (r: String)
        ensures
            r@ == error_text(*self),
    {
        match self {
            PluginError::NonRepositoryPlugin => owned("Non repo plugins are not currently supported!"),
            PluginError::InvalidUrl => owned("Invalid URL"),
            PluginError::UnsupportedHost => owned("Invalid GitHub repository URL"),
            PluginError::MalformedRepositoryPath => owned("Invalid GitHub repository URL"),
            PluginError::RateLimited { reset_at, checked_at } => match reset_at {
                Some(t) => {
                    let secs: u64 = if *t > *checked_at {
                        (*t as i128 - *checked_at as i128) as u64
                    } else {
                        0
                    };
                    let words = pretty_seconds(secs);
                    rate_limit_message(Some(words.as_str()))
                },
                None => rate_limit_message(None),
            },
            PluginError::UnexpectedStatus { code } => {
                let mut r = owned("GitHub API returned an unexpected status code: ");
                let digits = decimal_text(*code as u64);
                r.append(digits.as_str());
                r
            },
            PluginError::NetworkFailure => owned("There was an error reaching the GitHub API"),
            PluginError::BadRepositoryMetadata => owned("There was an error parsing the GitHub API response"),
            PluginError::ArchiveReadFailure => owned("There was an error reading the repository tarball"),
            PluginError::PluginsRootNotFound => owned("Plugins folder not found in Chatterino folder"),
            PluginError::PluginAlreadyInstalled { name } => join3(
                "A plugin with the name ",
                name.as_str(),
                " is already installed.",
            ),
            PluginError::FileWriteFailure { path } => {
                let mut r = owned("There was an error writing ");
                r.append(path.as_str());
                r
            },
            PluginError::DirectoryReadFailure => owned("Could not read Plugins/ folder"),
            PluginError::MetadataParseFailure => owned("There was an error parsing the info.json plugin file"),
            PluginError::PluginNotFound { name } => join3("Plugin '", name.as_str(), "' not found."),
            PluginError::UnsupportedPlatform => owned(
                "Unsupported OS, cannot locate Chatterino folder. Please use --path instead.",
            ),
            PluginError::MissingEnvironmentVariable { variable } => join3(
                "Could not read ",
                variable.as_str(),
                " environment variable. Please use --path instead.",
            ),
        }
    }
}

} // verus!
