//! Which binary runs, and the launch plan built from a configuration.
use vstd::prelude::*;
use crate::cache::{cache_dir_for, get_binary_path, get_cache_dir, CacheError};
use crate::config::{keys_unique, ArchiveConfig, BinaryConfig, Config, PlatformConfig};
use crate::platform::{outcomes_for, select_platform_index, selection, PlatformError};
use crate::text::{file_name, file_name_of, joined, same_text};

verus! {

/// The launcher's own program name; invoked under it, the binary to run
/// cannot be inferred from the invocation.
pub const LAUNCHER_NAME: &'static str = "hashbang";

/// Why no binary name can be determined.
#[derive(Debug, Clone, Copy, PartialEq, Eq)]
pub enum BinaryError {
    /// Invoked as the launcher itself, with several binaries to choose from.
    Ambiguous,
    /// The invocation path has no final component.
    NoBaseName,
    /// No invocation path is known.
    NoInvocationName,
}

/// The name of the binary to run, as a value: the override, else the only
/// binary of the platform entry, else the final component of the
/// invocation path.
pub open spec fn binary_name_for(
    name_override: Option<Seq<char>>,
    invoked_as: Option<Seq<char>>,
    binaries: Seq<(String, BinaryConfig)>,
) -> Result<Seq<char>, BinaryError> {
    match name_override {
        Some(b) => Ok(b),
        None => if binaries.len() == 1 {
            Ok(binaries[0].0@)
        } else {
            match invoked_as {
                None => Err(BinaryError::NoInvocationName),
                Some(p) => match file_name_of(p) {
                    None => Err(BinaryError::NoBaseName),
                    Some(n) => if n == LAUNCHER_NAME@ {
                        Err(BinaryError::Ambiguous)
                    } else {
                        Ok(n)
                    },
                },
            }
        },
    }
}

/// The view of an optional text.
pub open spec fn opt_view(o: Option<String>) -> Option<Seq<char>> {
    match o {
        Some(s) => Some(s@),
        None => None,
    }
}

/// The view of a text result.
pub open spec fn result_view<E>(r: Result<String, E>) -> Result<Seq<char>, E> {
    match r {
        Ok(s) => Ok(s@),
        Err(e) => Err(e),
    }
}

/// Which binary of `platform_config` runs: the override wins; else a sole
/// binary is used whatever the invocation; else the final component of
/// the invocation path names it, unless that is the launcher itself.
pub fn get_binary_name(
    binary_name_override: Option<String>,
    invoked_as: Option<String>,
    platform_config: &PlatformConfig,
) -> (r: Result<String, BinaryError>)
    ensures
        result_view(r) == binary_name_for(
            opt_view(binary_name_override),
            opt_view(invoked_as),
            platform_config.binaries@,
        ),
{
    if let Some(binary_name) = binary_name_override {
        return Ok(binary_name);
    }
    if platform_config.binaries.len() == 1 {
        return Ok(platform_config.binaries[0].0.clone());
    }
    match invoked_as {
        None => Err(BinaryError::NoInvocationName),
        Some(path) => match file_name(path.as_str()) {
            None => Err(BinaryError::NoBaseName),
            Some(base_name) => {
                if same_text(base_name.as_str(), LAUNCHER_NAME) {
                    Err(BinaryError::Ambiguous)
                } else {
                    Ok(base_name)
                }
            },
        },
    }
}

/// Whether some entry is keyed `name`.
pub open spec fn has_key<T>(entries: Seq<(String, T)>, name: Seq<char>) -> bool {
    exists|j: int| 0 <= j < entries.len() && entries[j].0@ == name
}

/// Whether `i` is the index of the first entry keyed `name`.
pub open spec fn is_first_key<T>(entries: Seq<(String, T)>, name: Seq<char>, i: int) -> bool {
    &&& 0 <= i < entries.len()
    &&& entries[i].0@ == name
    &&& forall|j: int| 0 <= j < i ==> entries[j].0@ != name
}

/// Where keys are unique, as in a well-formed platform entry, an entry
/// keyed `name` is the first such entry: lookups find the only one.
pub proof fn lemma_unique_key_is_first<T>(entries: Seq<(String, T)>, name: Seq<char>, i: int)
    requires
        keys_unique(entries),
        0 <= i < entries.len(),
        entries[i].0@ == name,
    ensures
        is_first_key(entries, name, i),
{
}

/// Finds the first entry keyed `name`.
pub fn find_key<T>(entries: &Vec<(String, T)>, name: &str) -> (r: Option<usize>)
    ensures
        match r {
            Some(i) => is_first_key(entries@, name@, i as int),
            None => !has_key(entries@, name@),
        },
{
    let mut i: usize = 0;
    while i < entries.len()
        invariant
            i <= entries@.len(),
            forall|j: int| 0 <= j < i ==> entries@[j].0@ != name@,
        decreases entries@.len() - i,
    {
        if same_text(entries[i].0.as_str(), name) {
            return Some(i);
        }
        i = i + 1;
    }
    None
}

/// Why a launch cannot be planned.
#[derive(Debug, Clone, Copy, PartialEq, Eq)]
pub enum LaunchError {
    /// No platform entry applies to the target.
    Platform(PlatformError),
    /// No binary name can be determined.
    Binary(BinaryError),
    /// The platform entry has no binary of the determined name.
    UnknownBinary,
    /// The binary names an archive that its platform entry lacks.
    MissingArchive,
    /// No cache directory can be chosen.
    Cache(CacheError),
}

/// Everything decided before the cache is consulted.
#[derive(Debug, Clone)]
pub struct LaunchPlan {
    /// Index of the selected platform entry in the configuration.
    pub platform: usize,
    /// Name of the binary to run.
    pub binary_name: String,
    /// Index of that binary in the platform entry's binaries.
    pub binary: usize,
    /// Index of the archive that provides it in the platform entry's archives.
    pub archive: usize,
    /// The archive's cache directory.
    pub cache_dir: String,
    /// Where the binary is in the cache directory.
    pub binary_path: String,
}

/// What the launch plan is, given that the platform entry at index `pi`
/// was selected: the platform error, if any, comes first.
pub open spec fn plan_is_sound(
    config: Config,
    pi: int,
    name: Seq<char>,
    cache_override: Option<String>,
    plan: LaunchPlan,
) -> bool {
    let p = config.platforms@[pi];
    let b = p.binaries@[plan.binary as int].1;
    &&& plan.platform == pi
    &&& plan.binary_name@ == name
    &&& is_first_key(p.binaries@, name, plan.binary as int)
    &&& is_first_key(p.archives@, b.provided_by@, plan.archive as int)
    &&& (cache_override matches Some(base) ==> plan.cache_dir@ == cache_dir_for(
        base@,
        config.name@,
        p.archives@[plan.archive as int].1.source,
    ))
    &&& (cache_override is None ==> exists|base: Seq<char>|
        plan.cache_dir@ == cache_dir_for(base, config.name@, p.archives@[plan.archive as int].1.source))
    &&& plan.binary_path@ == joined(
        plan.cache_dir@,
        match b.sub_path {
            Some(sp) => sp@,
            None => name,
        },
    )
}

/// Decides, from the configuration and the invocation, which platform
/// entry, binary and archive apply, and where the binary is cached.
pub fn plan_launch(
    config: &Config,
    target: &str,
    binary_override: Option<String>,
    invoked_as: Option<String>,
    cache_override: Option<String>,
) -> (r: Result<LaunchPlan, LaunchError>)
    ensures
        match selection(outcomes_for(config.platforms@, target@)) {
            Err(e) => r == Err::<LaunchPlan, LaunchError>(LaunchError::Platform(e)),
            Ok(pi) => {
                let p = config.platforms@[pi as int];
                match binary_name_for(opt_view(binary_override), opt_view(invoked_as), p.binaries@) {
                    Err(e) => r == Err::<LaunchPlan, LaunchError>(LaunchError::Binary(e)),
                    Ok(name) => if !has_key(p.binaries@, name) {
                        r == Err::<LaunchPlan, LaunchError>(LaunchError::UnknownBinary)
                    } else {
                        match r {
                            Ok(plan) => plan_is_sound(*config, pi as int, name, cache_override, plan),
                            Err(LaunchError::MissingArchive) => forall|j: int|
                                is_first_key(p.binaries@, name, j) ==> !has_key(
                                    p.archives@,
                                    p.binaries@[j].1.provided_by@,
                                ),
                            Err(LaunchError::Cache(_)) => cache_override is None && forall|j: int|
                                is_first_key(p.binaries@, name, j) ==> has_key(
                                    p.archives@,
                                    p.binaries@[j].1.provided_by@,
                                ),
                            Err(_) => false,
                        }
                    },
                }
            },
        },
{
    let pi = match select_platform_index(&config.platforms, target) {
        Ok(i) => i,
        Err(e) => return Err(LaunchError::Platform(e)),
    };
    let platform = &config.platforms[pi];
    let binary_name = match get_binary_name(binary_override, invoked_as, platform) {
        Ok(n) => n,
        Err(e) => return Err(LaunchError::Binary(e)),
    };
    let bi = match find_key(&platform.binaries, binary_name.as_str()) {
        Some(i) => i,
        None => return Err(LaunchError::UnknownBinary),
    };
    let binary_config = &platform.binaries[bi].1;
    let ai = match find_key(&platform.archives, binary_config.provided_by.as_str()) {
        Some(i) => i,
        None => return Err(LaunchError::MissingArchive),
    };
    let archive_config: &ArchiveConfig = &platform.archives[ai].1;
    let cache_dir = match get_cache_dir(cache_override, config.name.as_str(), &archive_config.source) {
        Ok(d) => d,
        Err(e) => return Err(LaunchError::Cache(e)),
    };
    let binary_path = get_binary_path(cache_dir.as_str(), binary_name.as_str(), binary_config);
    Ok(LaunchPlan { platform: pi, binary_name, binary: bi, archive: ai, cache_dir, binary_path })
}

} // verus!
