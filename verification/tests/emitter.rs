//! Tests of directive rendering, target classification, and the full
//! emission run.

use template_rs::emitter::{
    advisory_warnings, cfg_directive, emit_all, emit_build_metadata, emit_git_info,
    env_directive, flag_directives, is_musl_target, BuildEnv,
};
use template_rs::git::{branch_of, revision_of, tag_of, HeadProbe, RefProbe};
use template_rs::toolchain::FeatureFlags;

#[test]
fn directives_have_the_build_script_shape() {
    assert_eq!(env_directive("VERSION", "1.0"), "cargo:rustc-env=VERSION=1.0");
    assert_eq!(cfg_directive("nightly"), "cargo:rustc-cfg=nightly");
}

#[test]
fn flag_directives_keep_the_fixed_order() {
    let all = FeatureFlags { nightly: true, beta: true, stable: true, msrv: true };
    let lines = flag_directives(&all);
    assert_eq!(
        lines,
        vec![
            String::from("cargo:rustc-cfg=nightly"),
            String::from("cargo:rustc-cfg=beta"),
            String::from("cargo:rustc-cfg=stable"),
            String::from("cargo:rustc-cfg=msrv"),
        ]
    );

    let only_msrv = FeatureFlags { nightly: false, beta: false, stable: false, msrv: true };
    assert_eq!(flag_directives(&only_msrv), vec![String::from("cargo:rustc-cfg=msrv")]);

    let none = FeatureFlags { nightly: false, beta: false, stable: false, msrv: false };
    assert!(flag_directives(&none).is_empty());
}

#[test]
fn musl_classification_is_a_substring_test() {
    assert!(is_musl_target("x86_64-unknown-linux-musl"));
    assert!(is_musl_target("musl"));
    assert!(is_musl_target("xmuslx"));
    assert!(!is_musl_target("x86_64-unknown-linux-gnu"));
    assert!(!is_musl_target("mus"));
    assert!(!is_musl_target(""));
}

#[test]
fn musl_target_gets_one_reassuring_advisory() {
    let target = String::from("x86_64-unknown-linux-musl");
    let lines = advisory_warnings(&target, false, &None);
    assert_eq!(
        lines,
        vec![String::from(
            "cargo:warning=Building for musl target: x86_64-unknown-linux-musl. Expect a fully static binary."
        )]
    );
}

#[test]
fn explicit_non_musl_target_gets_two_warnings() {
    let target = String::from("x86_64-unknown-linux-gnu");
    let lines = advisory_warnings(&target, true, &None);
    assert_eq!(lines.len(), 2);
    assert_eq!(
        lines[0],
        "cargo:warning=Detected non-musl target: x86_64-unknown-linux-gnu. "
    );
    assert_eq!(
        lines[1],
        "cargo:warning=Fully static linking with glibc may be problematic."
    );
}

#[test]
fn implicit_target_choice_adds_a_recommendation() {
    let target = String::from("x86_64-unknown-linux-gnu");

    let offered = advisory_warnings(&target, false, &Some(true));
    assert_eq!(offered.len(), 3);
    assert!(offered[2].starts_with("cargo:warning=Consider using musl"));

    let missing = advisory_warnings(&target, false, &Some(false));
    assert_eq!(missing.len(), 3);
    assert!(missing[2].starts_with("cargo:warning=If you need a fully static binary"));

    let unknown = advisory_warnings(&target, false, &None);
    assert_eq!(unknown.len(), 3);
    assert!(unknown[2].starts_with("cargo:warning=If you need a fully static binary"));
}

#[test]
fn emission_publishes_every_constant() {
    let env = BuildEnv {
        version: Some(String::from("9.9.9")),
        target: Some(String::from("x86_64-unknown-linux-gnu")),
        explicit_target: true,
        git_head_exists: false,
        user_primary: Some(String::from("alice")),
        user_secondary: None,
        user_query: None,
        musl_in_list: None,
    };
    let lines = emit_all(&env);
    assert_eq!(lines[0], "cargo:rerun-if-changed=build.rs");
    assert_eq!(lines[1], "cargo:rustc-env=VERSION=9.9.9");
    assert!(lines.iter().any(|l| l == "cargo:rustc-env=BUILD_USER=alice"));
    assert!(lines.iter().any(|l| l.starts_with("cargo:rustc-env=BUILD_GIT_REVISION=")));
    assert!(lines.iter().any(|l| l.starts_with("cargo:rustc-env=BUILD_GIT_BRANCH=")));
    assert!(lines.iter().any(|l| l.starts_with("cargo:rustc-env=BUILD_DATE=") && l.ends_with(" UTC")));
    assert!(lines.iter().any(|l| l.starts_with("cargo:rustc-env=TOOLCHAIN=")));
    assert!(!lines.iter().any(|l| l == "cargo:rerun-if-changed=.git/HEAD"));
    // The compiler-identity flag appears exactly when the nightly flag does.
    let nightly_compiler = lines.iter().any(|l| l == "cargo:rustc-cfg=nightly_compiler");
    let nightly = lines.iter().any(|l| l == "cargo:rustc-cfg=nightly");
    assert_eq!(nightly_compiler, nightly);
}

#[test]
fn head_file_presence_adds_a_rerun_trigger() {
    let env = BuildEnv {
        version: None,
        target: None,
        explicit_target: true,
        git_head_exists: true,
        user_primary: Some(String::from("alice")),
        user_secondary: None,
        user_query: None,
        musl_in_list: None,
    };
    let lines = emit_all(&env);
    assert_eq!(lines[1], "cargo:rustc-env=VERSION=unknown");
    assert_eq!(lines[2], "cargo:rerun-if-changed=.git/HEAD");
}

#[test]
fn git_info_directives_have_the_right_keys() {
    let lines = emit_git_info();
    assert_eq!(lines.len(), 2);
    assert!(lines[0].starts_with("cargo:rustc-env=BUILD_GIT_REVISION="));
    assert!(lines[1].starts_with("cargo:rustc-env=BUILD_GIT_BRANCH="));
}

#[test]
fn build_metadata_directives_publish_date_and_user() {
    let lines = emit_build_metadata(&Some(String::from("alice")), &None, &None);
    assert_eq!(lines.len(), 2);
    assert!(lines[0].starts_with("cargo:rustc-env=BUILD_DATE="));
    assert!(lines[0].ends_with(" UTC"));
    assert_eq!(lines[1], "cargo:rustc-env=BUILD_USER=alice");
}

#[test]
fn emission_for_musl_target_ends_with_the_reassurance() {
    let env = BuildEnv {
        version: Some(String::from("1.0.0")),
        target: Some(String::from("x86_64-unknown-linux-musl")),
        explicit_target: false,
        git_head_exists: false,
        user_primary: Some(String::from("alice")),
        user_secondary: None,
        user_query: None,
        musl_in_list: None,
    };
    let lines = emit_all(&env);
    assert_eq!(
        lines.last().unwrap(),
        "cargo:warning=Building for musl target: x86_64-unknown-linux-musl. Expect a fully static binary."
    );
    assert!(!lines.iter().any(|l| l.starts_with("cargo:warning=Detected non-musl")));
}

#[test]
fn fresh_repository_falls_back_everywhere() {
    // A freshly initialized repository has a head that resolves to no
    // commit and names no born branch: every derived value degrades.
    assert_eq!(revision_of(&HeadProbe::Unresolved), "unknown");
    assert_eq!(branch_of(&RefProbe::Detached), "HEAD");
    assert_eq!(tag_of("1.2.3", &None), "1.2.3");
}
