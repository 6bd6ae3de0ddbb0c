//! Content-addressed cache locations.
use vstd::prelude::*;
use crate::config::{ArchiveSource, BinaryConfig};
use crate::text::{join_path, joined};

verus! {

/// Directory under the cache root that holds everything of this launcher.
pub const CACHE_SUBDIR: &'static str = "hashbang";

/// The lowercase hex SHA-256 digest of a text's UTF-8 bytes.
pub uninterp spec fn sha256_hex(s: Seq<char>) -> Seq<char>;

/// Sixty-four lowercase hexadecimal digits, the text form of a SHA-256 digest.
pub open spec fn is_hex_digest(s: Seq<char>) -> bool {
    &&& s.len() == 64
    &&& forall|i: int| 0 <= i < s.len() ==> ('0' <= #[trigger] s[i] <= '9' || 'a' <= s[i] <= 'f')
}

/// Relies on `sha256::digest` on a `&str`: `hex::encode` of the 32-byte
/// SHA-256 of its bytes, a function of the text alone.
#[verifier::external_body]
fn sha256_digest(s: &str) -> (r: String)
    ensures
        r@ == sha256_hex(s@),
        is_hex_digest(r@),
{
    sha256::digest(s)
}

/// Relies on `directories::BaseDirs`: the platform's per-user cache root
/// when a home directory can be found, `Some(None)` when that root is not
/// UTF-8, and `None` when no home directory is known.
#[verifier::external_body]
fn user_cache_root() -> (r: Option<Option<String>>) {
    match directories::BaseDirs::new() {
        Some(dirs) => Some(dirs.cache_dir().to_str().map(String::from)),
        None => None,
    }
}

/// Why no cache directory can be chosen.
#[derive(Debug, Clone, Copy, PartialEq, Eq)]
pub enum CacheError {
    /// No override was given and no home directory is known.
    NoHomeDirectory,
    /// No override was given and the user's cache root is not UTF-8.
    NonUtf8CacheRoot,
}

/// The text an archive source is identified by in the cache.
pub open spec fn source_identity(source: ArchiveSource) -> Seq<char> {
    match source {
        ArchiveSource::Url(u) => u@,
    }
}

/// `base/hashbang/<config name>/<digest of the source>`.
pub open spec fn cache_dir_for(base: Seq<char>, config_name: Seq<char>, source: ArchiveSource) -> Seq<char> {
    joined(joined(joined(base, CACHE_SUBDIR@), config_name), sha256_hex(source_identity(source)))
}

/// The cache directory of an archive under the cache root `base`.
pub fn archive_cache_dir(base: &str, config_name: &str, archive_source: &ArchiveSource) -> (r: String)
    ensures
        r@ == cache_dir_for(base@, config_name@, *archive_source),
        is_hex_digest(sha256_hex(source_identity(*archive_source))),
{
    let dir = join_path(base, CACHE_SUBDIR);
    let dir = join_path(dir.as_str(), config_name);
    let digest = match archive_source {
        ArchiveSource::Url(u) => sha256_digest(u.as_str()),
    };
    join_path(dir.as_str(), digest.as_str())
}

/// The cache directory of a source ends with the digest of the source's
/// identity, whatever the root and configuration name: the same source is
/// always found under the same digest.
pub proof fn lemma_cache_dir_ends_with_digest(base: Seq<char>, config_name: Seq<char>, source: ArchiveSource)
    requires
        is_hex_digest(sha256_hex(source_identity(source))),
    ensures
        ({
            let d = cache_dir_for(base, config_name, source);
            let h = sha256_hex(source_identity(source));
            d.len() >= 64 && d.subrange(d.len() - 64, d.len() as int) == h
        }),
{
    let h = sha256_hex(source_identity(source));
    assert('0' <= h[0] <= '9' || 'a' <= h[0] <= 'f');
    let d = cache_dir_for(base, config_name, source);
    assert(d.subrange(d.len() - 64, d.len() as int) =~= h);
}

/// The cache directory of an archive: under `cache_override` when given,
/// else under the user's cache root. The directory itself is not created.
pub fn get_cache_dir(cache_override: Option<String>, config_name: &str, archive_source: &ArchiveSource) -> (r: Result<String, CacheError>)
    ensures
        cache_override matches Some(base) ==> r matches Ok(d) && d@ == cache_dir_for(
            base@,
            config_name@,
            *archive_source,
        ),
        cache_override is None ==> match r {
            Ok(d) => exists|base: Seq<char>| d@ == cache_dir_for(base, config_name@, *archive_source),
            Err(e) => e == CacheError::NoHomeDirectory || e == CacheError::NonUtf8CacheRoot,
        },
        r is Ok ==> is_hex_digest(sha256_hex(source_identity(*archive_source))),
{
    let base = match cache_override {
        Some(base) => base,
        None => match user_cache_root() {
            Some(Some(root)) => root,
            Some(None) => return Err(CacheError::NonUtf8CacheRoot),
            None => return Err(CacheError::NoHomeDirectory),
        },
    };
    Ok(archive_cache_dir(base.as_str(), config_name, archive_source))
}

/// The path of `binary_name` in `cache_dir`: at its `sub_path` when the
/// binary declares one, else under its own name.
pub fn get_binary_path(cache_dir: &str, binary_name: &str, binary_config: &BinaryConfig) -> (r: String)
    ensures
        r@ == joined(
            cache_dir@,
            match binary_config.sub_path {
                Some(p) => p@,
                None => binary_name@,
            },
        ),
{
    match &binary_config.sub_path {
        Some(sub_path) => join_path(cache_dir, sub_path.as_str()),
        None => join_path(cache_dir, binary_name),
    }
}

} // verus!
