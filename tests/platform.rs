use hashbang::binary::{get_binary_name, plan_launch, BinaryError, LaunchError};
use hashbang::config::{ArchiveConfig, ArchiveSource, BinaryConfig, Config, ExtractStep, PlatformConfig};
use hashbang::platform::{select_from_outcomes, select_platform, select_platform_index, PlatformError};

const LINUX: &str = "x86_64-unknown-linux-gnu";

fn platform(spec: &str, binaries: &[&str]) -> PlatformConfig {
    PlatformConfig {
        target_spec: spec.to_string(),
        archives: vec![(
            "tool_zst".to_string(),
            ArchiveConfig {
                source: ArchiveSource::Url(format!("https://example.com/{}.zst", spec)),
                extract_steps: vec![ExtractStep::ZstdDecompress, ExtractStep::MakeExecutable("tool".to_string())],
            },
        )],
        binaries: binaries
            .iter()
            .map(|b| (b.to_string(), BinaryConfig { provided_by: "tool_zst".to_string(), sub_path: None }))
            .collect(),
    }
}

#[test]
fn first_match_wins_on_outcomes() {
    assert_eq!(select_from_outcomes(&vec![Some(Some(true)), Some(Some(true))]), Ok(0));
    assert_eq!(select_from_outcomes(&vec![Some(Some(false)), Some(Some(true)), None]), Ok(1));
}

#[test]
fn no_match_and_invalid_are_distinct() {
    assert_eq!(select_from_outcomes(&vec![Some(Some(false)), Some(Some(false))]), Err(PlatformError::NoMatch));
    assert_eq!(select_from_outcomes(&vec![]), Err(PlatformError::NoMatch));
    assert_eq!(select_from_outcomes(&vec![Some(Some(false)), Some(None)]), Err(PlatformError::Undecidable(1)));
    assert_eq!(select_from_outcomes(&vec![None, Some(Some(true))]), Err(PlatformError::Unparsable(0)));
}

#[test]
fn first_matching_platform_is_selected() {
    let platforms = vec![platform("x86_64-apple-darwin", &["tool"]), platform(LINUX, &["tool"]), platform("cfg(unix)", &["tool"])];
    assert_eq!(select_platform_index(&platforms, LINUX), Ok(1));
    let p = select_platform(&platforms, LINUX).unwrap();
    assert_eq!(p.target_spec, LINUX);
}

#[test]
fn cfg_expression_matches() {
    let platforms = vec![platform("cfg(windows)", &["tool"]), platform("cfg(all(unix, target_arch = \"x86_64\"))", &["tool"])];
    assert_eq!(select_platform_index(&platforms, LINUX), Ok(1));
}

#[test]
fn unparsable_expression_is_reported() {
    let platforms = vec![platform("cfg(", &["tool"]), platform(LINUX, &["tool"])];
    assert_eq!(select_platform_index(&platforms, LINUX), Err(PlatformError::Unparsable(0)));
}

#[test]
fn no_matching_platform_is_reported() {
    let platforms = vec![platform("x86_64-apple-darwin", &["tool"])];
    assert_eq!(select_platform_index(&platforms, LINUX), Err(PlatformError::NoMatch));
}

#[test]
fn override_wins() {
    let p = platform(LINUX, &["a", "b"]);
    assert_eq!(get_binary_name(Some("b".to_string()), Some("/x/a".to_string()), &p), Ok("b".to_string()));
}

#[test]
fn sole_binary_is_used() {
    let p = platform(LINUX, &["buck2"]);
    assert_eq!(get_binary_name(None, Some("/usr/bin/hashbang".to_string()), &p), Ok("buck2".to_string()));
}

#[test]
fn invocation_name_chooses() {
    let p = platform(LINUX, &["a", "b"]);
    assert_eq!(get_binary_name(None, Some("/usr/local/bin/b".to_string()), &p), Ok("b".to_string()));
}

#[test]
fn launcher_name_is_ambiguous() {
    let p = platform(LINUX, &["a", "b"]);
    assert_eq!(get_binary_name(None, Some("/usr/bin/hashbang".to_string()), &p), Err(BinaryError::Ambiguous));
}

#[test]
fn missing_invocation_name() {
    let p = platform(LINUX, &["a", "b"]);
    assert_eq!(get_binary_name(None, None, &p), Err(BinaryError::NoInvocationName));
    assert_eq!(get_binary_name(None, Some("/".to_string()), &p), Err(BinaryError::NoBaseName));
}

fn config() -> Config {
    Config { name: "tools".to_string(), platforms: vec![platform("x86_64-apple-darwin", &["tool"]), platform(LINUX, &["tool"])] }
}

#[test]
fn launch_plan_for_matching_platform() {
    let plan = plan_launch(&config(), LINUX, None, Some("/usr/bin/hashbang".to_string()), Some("/tmp/c".to_string())).unwrap();
    assert_eq!(plan.platform, 1);
    assert_eq!(plan.binary_name, "tool");
    assert_eq!(plan.binary, 0);
    assert_eq!(plan.archive, 0);
    let digest = sha_of(&format!("https://example.com/{}.zst", LINUX));
    assert_eq!(plan.cache_dir, format!("/tmp/c/hashbang/tools/{}", digest));
    assert_eq!(plan.binary_path, format!("/tmp/c/hashbang/tools/{}/tool", digest));
}

fn sha_of(s: &str) -> String {
    hashbang::cache::archive_cache_dir("", "", &ArchiveSource::Url(s.to_string()))
        .rsplit('/')
        .next()
        .unwrap()
        .to_string()
}

#[test]
fn launch_plan_errors() {
    let c = config();
    assert_eq!(plan_launch(&c, "aarch64-unknown-linux-gnu", None, None, None).unwrap_err(), LaunchError::Platform(PlatformError::NoMatch));
    assert_eq!(plan_launch(&c, LINUX, Some("other".to_string()), None, None).unwrap_err(), LaunchError::UnknownBinary);
    let mut broken = config();
    broken.platforms[1].binaries[0].1.provided_by = "nothing".to_string();
    assert_eq!(plan_launch(&broken, LINUX, None, None, Some("/c".to_string())).unwrap_err(), LaunchError::MissingArchive);
    let mut two = config();
    two.platforms[1] = platform(LINUX, &["a", "b"]);
    assert_eq!(plan_launch(&two, LINUX, None, None, None).unwrap_err(), LaunchError::Binary(BinaryError::NoInvocationName));
}
