//! The configuration model and the resolution of where a configuration is
//! read from.
use vstd::prelude::*;
use crate::text::{has_prefix, same_text, starts_with, strip_marker, text_after};

verus! {

/// Environment variable that forces which binary of a platform entry runs.
pub const HASHBANG_BINARY: &'static str = "HASHBANG_BINARY";

/// Environment variable that locates the configuration: `data:` for inline
/// markup, `file:` for a local file, anything else is a URL.
pub const HASHBANG_CONFIG_URL: &'static str = "HASHBANG_CONFIG_URL";

/// Marker of inline configuration markup.
pub const DATA_SCHEME: &'static str = "data:";

/// Marker of a local configuration file.
pub const FILE_SCHEME: &'static str = "file:";

/// File name that stands for "the script that is running", in shebang use.
pub const CURRENT_SCRIPT: &'static str = ".";

/// Where an archive is downloaded from.
#[derive(Debug, Clone)]
pub enum ArchiveSource {
    /// The serialised form of a parsed URL.
    Url(String),
}

/// One declarative step that turns downloaded bytes into a runnable file.
#[derive(Debug, Clone)]
pub enum ExtractStep {
    /// Mark the file executable and record the name it is kept under.
    MakeExecutable(String),
    /// Replace the payload with its zstd decompression.
    ZstdDecompress,
}

/// An archive: where it comes from and how it is extracted into the cache.
#[derive(Debug, Clone)]
pub struct ArchiveConfig {
    pub source: ArchiveSource,
    pub extract_steps: Vec<ExtractStep>,
}

/// A runnable binary of an extracted archive.
#[derive(Debug, Clone)]
pub struct BinaryConfig {
    /// Name of the archive, in the same platform entry, that provides it.
    pub provided_by: String,
    /// Path of the binary inside the archive's cache directory.
    pub sub_path: Option<String>,
}

/// What to do on the platforms that `target_spec` matches.
#[derive(Debug, Clone)]
pub struct PlatformConfig {
    /// A target triple or a `cfg(...)` expression.
    pub target_spec: String,
    /// Archives by name.
    pub archives: Vec<(String, ArchiveConfig)>,
    /// Binaries by name.
    pub binaries: Vec<(String, BinaryConfig)>,
}

/// Top-level configuration.
#[derive(Debug, Clone)]
pub struct Config {
    /// Short name of the configuration, such as "buck2".
    pub name: String,
    /// Platform entries; the first whose expression matches is used.
    pub platforms: Vec<PlatformConfig>,
}

/// Whether no name occurs twice among the keys of `entries`.
pub open spec fn keys_unique<T>(entries: Seq<(String, T)>) -> bool {
    forall|i: int, j: int|
        0 <= i < entries.len() && 0 <= j < entries.len() && i != j ==> entries[i].0@
            != entries[j].0@
}

impl PlatformConfig {
    /// Archive and binary names are each unique, as map keys are.
    pub open spec fn wf(&self) -> bool {
        keys_unique(self.archives@) && keys_unique(self.binaries@)
    }
}

} // verus!

verus! {

/// What `url::Url::parse` makes of a text: its serialisation when the text
/// is an absolute URL.
pub uninterp spec fn url_serialization(s: Seq<char>) -> Option<Seq<char>>;

#[verifier::external_type_specification]
#[verifier::external_body]
pub struct ExUrlParseError(url::ParseError);

/// Relies on `url::Url::parse`, whose result depends on the text alone; an
/// accepted URL is handed back in its serialised form.
#[verifier::external_body]
fn parse_url(s: &str) -> (r: Result<String, url::ParseError>)
    ensures
        r is Ok <==> url_serialization(s@) is Some,
        r matches Ok(u) ==> url_serialization(s@) == Some(u@),
{
    url::Url::parse(s).map(String::from)
}

impl ArchiveSource {
    /// The source's text is the serialisation of a URL, and parsing it
    /// again gives it back unchanged.
    pub open spec fn wf(&self) -> bool {
        match self {
            ArchiveSource::Url(u) => url_serialization(u@) == Some(u@),
        }
    }

    /// The source at the URL `s`, held in its serialised form. Fails when
    /// `s` is not a URL, or when its serialisation does not parse back to
    /// itself.
    pub fn from_url(s: &str) -> (r: Result<ArchiveSource, ConfigError>)
        ensures
            r is Ok <==> (url_serialization(s@) matches Some(u) && url_serialization(u) == Some(u)),
            r matches Ok(a) ==> a.wf() && Some(a->Url_0@) == url_serialization(s@),
            r is Err ==> r == Err::<ArchiveSource, ConfigError>(ConfigError::InvalidUrl),
    {
        let u = match parse_url(s) {
            Ok(u) => u,
            Err(_) => return Err(ConfigError::InvalidUrl),
        };
        match parse_url(u.as_str()) {
            Ok(v) => {
                if same_text(u.as_str(), v.as_str()) {
                    Ok(ArchiveSource::Url(u))
                } else {
                    Err(ConfigError::InvalidUrl)
                }
            },
            Err(_) => Err(ConfigError::InvalidUrl),
        }
    }
}

/// Where configuration markup is read from.
#[derive(Debug, Clone)]
pub enum ConfigSource {
    /// The markup itself.
    Inline(String),
    /// A local file path.
    File(String),
    /// A URL to fetch with HTTP GET.
    Remote(String),
}

/// Why the configuration's location cannot be resolved.
#[derive(Debug, Clone, Copy, PartialEq, Eq)]
pub enum ConfigError {
    /// `file:.` was given, but no script path came as first argument.
    MissingScriptPath,
    /// The location is neither inline nor a file, and does not parse as a URL.
    InvalidUrl,
}

/// The text after the one `file:` marker: the local file path, before the
/// current-script convention is applied.
pub open spec fn file_location(location: Seq<char>) -> Seq<char> {
    text_after(location, FILE_SCHEME@.len() as int)
}

/// Resolves the configuration location `config_url` against the process's
/// positional arguments `args`. The flag is script mode: the first argument
/// is the running script, whose path was taken as the configuration file.
pub fn load_config(args: &Vec<String>, config_url: &str) -> (r: Result<(ConfigSource, bool), ConfigError>)
    ensures
        has_prefix(config_url@, DATA_SCHEME@) ==> (r matches Ok((ConfigSource::Inline(t), sm))
            && t@ == text_after(config_url@, DATA_SCHEME@.len() as int) && !sm),
        !has_prefix(config_url@, DATA_SCHEME@) && has_prefix(config_url@, FILE_SCHEME@)
            && file_location(config_url@) == CURRENT_SCRIPT@ ==> if args@.len() > 0 {
            r matches Ok((ConfigSource::File(f), sm)) && f@ == args@[0]@ && sm
        } else {
            r == Err::<(ConfigSource, bool), ConfigError>(ConfigError::MissingScriptPath)
        },
        !has_prefix(config_url@, DATA_SCHEME@) && has_prefix(config_url@, FILE_SCHEME@)
            && file_location(config_url@) != CURRENT_SCRIPT@ ==> (r matches Ok(
            (ConfigSource::File(f), sm),
        ) && f@ == file_location(config_url@) && !sm),
        !has_prefix(config_url@, DATA_SCHEME@) && !has_prefix(config_url@, FILE_SCHEME@) ==> match url_serialization(config_url@) {
            Some(u) => r matches Ok((ConfigSource::Remote(t), sm)) && t@ == u && !sm,
            None => r == Err::<(ConfigSource, bool), ConfigError>(ConfigError::InvalidUrl),
        },
{
    if starts_with(config_url, DATA_SCHEME) {
        return Ok((ConfigSource::Inline(strip_marker(config_url, DATA_SCHEME)), false));
    }
    if starts_with(config_url, FILE_SCHEME) {
        let path = strip_marker(config_url, FILE_SCHEME);
        if same_text(path.as_str(), CURRENT_SCRIPT) {
            if args.len() == 0 {
                return Err(ConfigError::MissingScriptPath);
            }
            return Ok((ConfigSource::File(args[0].clone()), true));
        }
        return Ok((ConfigSource::File(path), false));
    }
    match parse_url(config_url) {
        Ok(u) => Ok((ConfigSource::Remote(u), false)),
        Err(_) => Err(ConfigError::InvalidUrl),
    }
}

} // verus!
