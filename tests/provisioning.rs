use std::collections::BTreeMap;

use cef_installer::error::ProvisionError;
use cef_installer::extraction::entry_target;
use cef_installer::platform::{
    archive_file_name, archive_url, check_response_status, platform_for_target, OptLevel,
    Platform,
};
use cef_installer::rewrite::{build_rules, compile_rules, destination_for, first_match, RewriteRule};
use cef_installer::rules::{build_destinations, rewrite_rules, DestinationSet, RuleText};
use cef_installer::sentinel::{build_sentinel, sentinel_contents, should_provision};

const VERSION: &str = "84.3.10+ga46056b+chromium-84.0.4147.105";

fn root() -> String {
    format!("cef_binary_{}_linux64", VERSION)
}

fn lib_and_headers() -> DestinationSet {
    DestinationSet {
        lib_dir: Some("/out/lib".to_string()),
        header_dir: Some("/out/include".to_string()),
        libcef_dll_src_dir: None,
        cmake_macros_dir: None,
    }
}

fn no_destinations() -> DestinationSet {
    DestinationSet { lib_dir: None, header_dir: None, libcef_dll_src_dir: None, cmake_macros_dir: None }
}

fn text(pattern: &str, template: &str) -> RuleText {
    RuleText { pattern: pattern.to_string(), template: template.to_string() }
}

/// Runs one extraction pass over an in-memory tree, as the unpacking step does on disk.
fn extract(tree: &mut BTreeMap<String, Vec<u8>>, rules: &Vec<RewriteRule>, entries: &[(String, Vec<u8>)]) {
    for (path, bytes) in entries {
        if let Some(dest) = destination_for(rules, path) {
            let exists = tree.contains_key(&dest);
            if let Some(target) = entry_target(Some(dest), exists) {
                tree.insert(target, bytes.clone());
            }
        }
    }
}

#[test]
fn platform_tokens() {
    assert_eq!(Platform::Windows.str(), "windows");
    assert_eq!(Platform::Linux.str(), "linux");
    assert_eq!(Platform::MacOS.str(), "macosx");
    assert_eq!(OptLevel::Debug.dir_name(), "Debug");
    assert_eq!(OptLevel::Release.dir_name(), "Release");
}

#[test]
fn target_names_map_to_platforms() {
    assert_eq!(platform_for_target("windows"), Ok(Platform::Windows));
    assert_eq!(platform_for_target("linux"), Ok(Platform::Linux));
    assert_eq!(platform_for_target("macos"), Ok(Platform::MacOS));
}

#[test]
fn unknown_target_is_unsupported() {
    assert_eq!(
        platform_for_target("freebsd"),
        Err(ProvisionError::PlatformUnsupported { token: "freebsd".to_string() })
    );
    assert_eq!(
        platform_for_target("macosx"),
        Err(ProvisionError::PlatformUnsupported { token: "macosx".to_string() })
    );
}

#[test]
fn archive_names() {
    assert_eq!(
        archive_file_name(VERSION, Platform::Linux),
        "cef_binary_84.3.10+ga46056b+chromium-84.0.4147.105_linux64.tar.bz2"
    );
    assert_eq!(archive_file_name("1.2", Platform::Windows), "cef_binary_1.2_windows64.tar.bz2");
    assert_eq!(archive_file_name("1.2", Platform::MacOS), "cef_binary_1.2_macosx64.tar.bz2");
}

#[test]
fn archive_url_is_percent_encoded() {
    let name = archive_file_name(VERSION, Platform::Linux);
    assert_eq!(
        archive_url(&name),
        "http://opensource.spotify.com/cefbuilds/cef_binary_84.3.10%2Bga46056b%2Bchromium-84.0.4147.105_linux64.tar.bz2"
    );
    assert_eq!(archive_url("a b/~é"), "http://opensource.spotify.com/cefbuilds/a%20b%2F~%C3%A9");
    assert_eq!(archive_url(""), "http://opensource.spotify.com/cefbuilds/");
}

#[test]
fn only_status_200_delivers() {
    assert_eq!(check_response_status(200), Ok(()));
    assert_eq!(check_response_status(404), Err(ProvisionError::Transport { status: 404 }));
    assert_eq!(check_response_status(204), Err(ProvisionError::Transport { status: 204 }));
    assert_eq!(check_response_status(500), Err(ProvisionError::Transport { status: 500 }));
}

#[test]
fn linux_rule_table() {
    let rules = rewrite_rules(Platform::Linux, OptLevel::Release, &lib_and_headers());
    assert_eq!(
        rules,
        vec![
            text(r"^[^/]+/Release/([^/]+\.(so|bin))$", "/out/lib/${1}"),
            text(r"^[^/]+/Release/(swiftshader/[^/]+\.so)$", "/out/lib/${1}"),
            text(r"^[^/]+/Resources/icudtl\.dat$", "/out/lib/icudtl.dat"),
            text(r"^[^/]+/Resources/((locales/)?[^/]+\.pak)$", "/out/lib/${1}"),
            text(r"^[^/]+/include/(.+\.h)", "/out/include/${1}"),
        ]
    );
}

#[test]
fn windows_rule_table() {
    let dests = DestinationSet {
        lib_dir: Some("C:/lib".to_string()),
        header_dir: None,
        libcef_dll_src_dir: None,
        cmake_macros_dir: Some("C:/cmake".to_string()),
    };
    let rules = rewrite_rules(Platform::Windows, OptLevel::Debug, &dests);
    assert_eq!(
        rules,
        vec![
            text(r"^[^/]+/Debug/([^/]+\.(lib|dll|bin))$", "C:/lib/${1}"),
            text(r"^[^/]+/Debug/(swiftshader/[^/]+\.dll)$", "C:/lib/${1}"),
            text(r"^[^/]+/Resources/icudtl\.dat$", "C:/lib/icudtl.dat"),
            text(r"^[^/]+/Resources/((locales/)?[^/]+\.pak)$", "C:/lib/${1}"),
            text(r"^[^/]+/cmake/(.+)", "C:/cmake/${1}"),
        ]
    );
}

#[test]
fn macos_rule_table() {
    let dests = build_destinations(Platform::MacOS, "/out/lib", "/out/proj");
    let rules = rewrite_rules(Platform::MacOS, OptLevel::Release, &dests);
    assert_eq!(
        rules,
        vec![
            text(r"^[^/]+/Release/(Chromium Embedded Framework\.framework/.+)$", "/out/lib/${1}"),
            text(r"^[^/]+/include/(.+\.h)", "/out/proj/include/${1}"),
            text(r"^[^/]+/libcef_dll/(.+)", "/out/proj/libcef_dll/${1}"),
            text(r"^[^/]+/cmake/(.+)", "/out/proj/cmake/${1}"),
        ]
    );
}

#[test]
fn empty_destination_set_has_no_rules() {
    assert!(rewrite_rules(Platform::Linux, OptLevel::Release, &no_destinations()).is_empty());
    let rules = build_rules(Platform::Linux, OptLevel::Release, &no_destinations()).unwrap();
    assert_eq!(destination_for(&rules, &format!("{}/Release/libcef.so", root())), None);
}

#[test]
fn build_destinations_per_platform() {
    assert_eq!(
        build_destinations(Platform::Linux, "/out/lib", "/out/proj"),
        DestinationSet {
            lib_dir: Some("/out/lib".to_string()),
            header_dir: None,
            libcef_dll_src_dir: None,
            cmake_macros_dir: None,
        }
    );
    assert_eq!(
        build_destinations(Platform::MacOS, "/out/lib", "/out/proj"),
        DestinationSet {
            lib_dir: Some("/out/lib".to_string()),
            header_dir: Some("/out/proj/include".to_string()),
            libcef_dll_src_dir: Some("/out/proj/libcef_dll".to_string()),
            cmake_macros_dir: Some("/out/proj/cmake".to_string()),
        }
    );
}

#[test]
fn compiled_rules_keep_their_text() {
    let rules = build_rules(Platform::Linux, OptLevel::Release, &lib_and_headers()).unwrap();
    assert_eq!(rules.len(), 5);
    assert_eq!(rules[2].pattern(), r"^[^/]+/Resources/icudtl\.dat$");
    assert_eq!(rules[2].template(), "/out/lib/icudtl.dat");
    assert_eq!(rules[4].template(), "/out/include/${1}");
}

#[test]
fn invalid_pattern_is_reported() {
    let texts = vec![text("^ok$", "/a"), text("(unclosed", "/b")];
    assert!(matches!(compile_rules(&texts), Err(ProvisionError::InvalidPattern)));
}

#[test]
fn linux_scenario_extracts_exactly_the_expected_files() {
    let rules = build_rules(Platform::Linux, OptLevel::Release, &lib_and_headers()).unwrap();
    let r = root();
    let cases = [
        (format!("{}/Release/libcef.so", r), Some("/out/lib/libcef.so")),
        (format!("{}/Release/swiftshader/libEGL.so", r), Some("/out/lib/swiftshader/libEGL.so")),
        (format!("{}/Resources/icudtl.dat", r), Some("/out/lib/icudtl.dat")),
        (format!("{}/Resources/locales/en-US.pak", r), Some("/out/lib/locales/en-US.pak")),
        (format!("{}/include/cef_version.h", r), Some("/out/include/cef_version.h")),
        (format!("{}/Debug/libcef.so", r), None),
        (format!("{}/README.txt", r), None),
        (format!("{}/libcef_dll/wrapper/cef_closure_task.cc", r), None),
        (format!("{}/cmake/cef_macros.cmake", r), None),
        (format!("{}/Release/swiftshader/libEGL.dll", r), None),
    ];
    for (path, expected) in cases.iter() {
        assert_eq!(destination_for(&rules, path).as_deref(), *expected, "entry {}", path);
    }

    let entries: Vec<(String, Vec<u8>)> =
        cases.iter().enumerate().map(|(i, (p, _))| (p.clone(), vec![i as u8])).collect();
    let mut tree = BTreeMap::new();
    extract(&mut tree, &rules, &entries);
    let written: Vec<&str> = tree.keys().map(|k| k.as_str()).collect();
    assert_eq!(
        written,
        vec![
            "/out/include/cef_version.h",
            "/out/lib/icudtl.dat",
            "/out/lib/libcef.so",
            "/out/lib/locales/en-US.pak",
            "/out/lib/swiftshader/libEGL.so",
        ]
    );
}

#[test]
fn header_pattern_is_not_anchored_at_the_end() {
    let rules = build_rules(Platform::Linux, OptLevel::Release, &lib_and_headers()).unwrap();
    assert_eq!(
        destination_for(&rules, "cef/include/internal/a.h.in").as_deref(),
        Some("/out/include/internal/a.h.in")
    );
    assert_eq!(destination_for(&rules, "cef/include/internal/a.hpp").as_deref(), Some("/out/include/internal/a.hpp"));
    assert_eq!(destination_for(&rules, "cef/include/readme.txt"), None);
}

#[test]
fn earliest_matching_rule_wins() {
    let texts = vec![
        text(r"^a/(.+)$", "/first/${1}"),
        text(r"^a/(b/.+)$", "/second/${1}"),
        text(r"^(.+)$", "/third/${1}"),
    ];
    let rules = compile_rules(&texts).unwrap();
    assert_eq!(destination_for(&rules, "a/b/c").as_deref(), Some("/first/b/c"));
    assert_eq!(destination_for(&rules, "z/b/c").as_deref(), Some("/third/z/b/c"));

    let reordered = compile_rules(&vec![texts[1].clone(), texts[0].clone(), texts[2].clone()]).unwrap();
    assert_eq!(destination_for(&reordered, "a/b/c").as_deref(), Some("/second/b/c"));
    assert_eq!(destination_for(&reordered, "a/c").as_deref(), Some("/first/c"));
}

#[test]
fn unmatched_entry_has_no_destination() {
    let rules = compile_rules(&vec![text(r"^keep/(.+)$", "/out/${1}")]).unwrap();
    assert_eq!(destination_for(&rules, "drop/x"), None);
    let mut tree = BTreeMap::new();
    extract(&mut tree, &rules, &[("drop/x".to_string(), vec![1]), ("other".to_string(), vec![2])]);
    assert!(tree.is_empty());
}

#[test]
fn second_extraction_pass_changes_nothing() {
    let rules = build_rules(Platform::Linux, OptLevel::Release, &lib_and_headers()).unwrap();
    let r = root();
    let entries = vec![
        (format!("{}/Release/libcef.so", r), vec![1u8]),
        (format!("{}/Resources/icudtl.dat", r), vec![2u8]),
        (format!("{}/Resources/icudtl.dat", r), vec![3u8]),
        (format!("{}/README.txt", r), vec![4u8]),
    ];
    let mut once = BTreeMap::new();
    once.insert("/out/lib/libcef.so".to_string(), vec![9u8]);
    extract(&mut once, &rules, &entries);
    let mut twice = once.clone();
    extract(&mut twice, &rules, &entries);
    assert_eq!(once, twice);
    assert_eq!(once.get("/out/lib/libcef.so"), Some(&vec![9u8]));
    assert_eq!(once.get("/out/lib/icudtl.dat"), Some(&vec![2u8]));
    assert_eq!(once.len(), 2);
}

#[test]
fn sentinel_text() {
    assert_eq!(sentinel_contents(VERSION, "/a", "/l", None), format!("{};/a;/l;", VERSION));
    assert_eq!(sentinel_contents("1", "/a", "/l", Some("/p")), "1;/a;/l;/p");
    assert_eq!(build_sentinel("1", Platform::Linux, "/a", "/l", "/p"), "1;/a;/l;");
    assert_eq!(build_sentinel("1", Platform::Windows, "/a", "/l", "/p"), "1;/a;/l;");
    assert_eq!(build_sentinel("1", Platform::MacOS, "/a", "/l", "/p"), "1;/a;/l;/p");
}

#[test]
fn sentinel_equality_decides_provisioning() {
    let fresh = sentinel_contents(VERSION, "/cache", "/out/lib", None);
    assert!(should_provision(&fresh, None));
    assert!(!should_provision(&fresh, Some(&fresh)));
    let bumped = sentinel_contents("84.3.11+ga46056b+chromium-84.0.4147.105", "/cache", "/out/lib", None);
    assert!(should_provision(&fresh, Some(&bumped)));
    let moved = sentinel_contents(VERSION, "/cache", "/other/lib", None);
    assert!(should_provision(&fresh, Some(&moved)));
    assert!(should_provision(&fresh, Some(&format!("{}\n", fresh))));
    assert!(should_provision(&fresh, Some("")));
}

#[test]
fn first_match_picks_the_earliest() {
    assert_eq!(first_match(&vec![false, true, true]), Some(1));
    assert_eq!(first_match(&vec![true, true]), Some(0));
    assert_eq!(first_match(&vec![false, false, false]), None);
    assert_eq!(first_match(&vec![]), None);
}

#[test]
fn existing_files_win() {
    assert_eq!(entry_target(Some("/out/a".to_string()), false).as_deref(), Some("/out/a"));
    assert_eq!(entry_target(Some("/out/a".to_string()), true), None);
    assert_eq!(entry_target(None, false), None);
    assert_eq!(entry_target(None, true), None);
}

#[test]
fn rule_table_compiles_on_every_platform() {
    let all = DestinationSet {
        lib_dir: Some("/l".to_string()),
        header_dir: Some("/h".to_string()),
        libcef_dll_src_dir: Some("/s".to_string()),
        cmake_macros_dir: Some("/c".to_string()),
    };
    for platform in [Platform::Windows, Platform::Linux, Platform::MacOS] {
        for opt in [OptLevel::Debug, OptLevel::Release] {
            let rules = build_rules(platform, opt, &all).unwrap();
            assert_eq!(rules.len(), rewrite_rules(platform, opt, &all).len());
        }
    }
}
