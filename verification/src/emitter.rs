//! Metadata emission: renders the build-script directives that publish the
//! inspected metadata as environment constants, conditional flags, re-run
//! triggers, and static-linking advisories.

use vstd::prelude::*;
use crate::git::{branch, branch_text, head_probe_wf, revision, revision_text, HeadProbe, RefProbe};
use crate::stamp::{
    build_date, date_parts_wf, resolve_user, resolved_user_text, timestamp_text, DateParts,
};
use crate::toolchain::{
    detect_compiler, report_flags, report_text, FeatureFlags, ToolchainQuery,
};

verus! {

/// A directive that sets an environment constant for the compiled program.
pub open spec fn env_directive_text(key: Seq<char>, value: Seq<char>) -> Seq<char> {
    "cargo:rustc-env="@ + key + "="@ + value
}

/// A directive that switches a conditional compilation flag on.
pub open spec fn cfg_directive_text(flag: Seq<char>) -> Seq<char> {
    "cargo:rustc-cfg="@ + flag
}

/// Renders an environment-constant directive.
pub fn env_directive(key: &str, value: &str) -> (r: String)
    ensures
        r@ == env_directive_text(key@, value@),
{
    let mut out = String::from_str("cargo:rustc-env=");
    out.append(key);
    out.append("=");
    out.append(value);
    proof {
        assert(out@ =~= env_directive_text(key@, value@));
    }
    out
}

/// Renders a conditional-flag directive.
pub fn cfg_directive(flag: &str) -> (r: String)
    ensures
        r@ == cfg_directive_text(flag@),
{
    let mut out = String::from_str("cargo:rustc-cfg=");
    out.append(flag);
    proof {
        assert(out@ =~= cfg_directive_text(flag@));
    }
    out
}

/// The conditional-flag directives a flag derivation yields, in the fixed
/// order nightly, beta, stable, msrv; an unset flag yields no line.
pub open spec fn flag_directive_texts(f: FeatureFlags) -> Seq<Seq<char>> {
    (if f.nightly {
        seq![cfg_directive_text("nightly"@)]
    } else {
        Seq::empty()
    }) + (if f.beta {
        seq![cfg_directive_text("beta"@)]
    } else {
        Seq::empty()
    }) + (if f.stable {
        seq![cfg_directive_text("stable"@)]
    } else {
        Seq::empty()
    }) + (if f.msrv {
        seq![cfg_directive_text("msrv"@)]
    } else {
        Seq::empty()
    })
}

/// Renders the conditional-flag directives of a flag derivation.
pub fn flag_directives(f: &FeatureFlags) -> (r: Vec<String>)
    ensures
        r.deep_view() == flag_directive_texts(*f),
{
    let mut out: Vec<String> = Vec::new();
    if f.nightly {
        out.push(cfg_directive("nightly"));
    }
    if f.beta {
        out.push(cfg_directive("beta"));
    }
    if f.stable {
        out.push(cfg_directive("stable"));
    }
    if f.msrv {
        out.push(cfg_directive("msrv"));
    }
    proof {
        assert(out.deep_view() =~~= flag_directive_texts(*f));
    }
    out
}

/// The compiler-identity directive set only on nightly toolchains, ahead
/// of the toolchain descriptor.
pub open spec fn nightly_compiler_texts(f: FeatureFlags) -> Seq<Seq<char>> {
    if f.nightly {
        seq![cfg_directive_text("nightly_compiler"@)]
    } else {
        Seq::empty()
    }
}

/// The needle that classifies a target triple as musl-based.
pub open spec fn musl_chars() -> Seq<char> {
    seq!['m', 'u', 's', 'l']
}

/// Whether the target triple names the musl libc family.
pub open spec fn target_is_musl(t: Seq<char>) -> bool {
    exists|i: int| 0 <= i && i + 4 <= t.len() && #[trigger] t.subrange(i, i + 4) =~= musl_chars()
}

/// Decides whether a target triple names the musl libc family.
pub fn is_musl_target(t: &str) -> (r: bool)
    ensures
        r == target_is_musl(t@),
{
    let n = t.unicode_len();
    if n < 4 {
        return false;
    }
    let mut i: usize = 0;
    while i <= n - 4
        invariant
            n == t@.len(),
            4 <= n,
            i <= n - 3,
            forall|j: int| 0 <= j < i ==> !(#[trigger] t@.subrange(j, j + 4) =~= musl_chars()),
        decreases n - i,
    {
        let c0 = t.get_char(i);
        let c1 = t.get_char(i + 1);
        let c2 = t.get_char(i + 2);
        let c3 = t.get_char(i + 3);
        if c0 == 'm' && c1 == 'u' && c2 == 's' && c3 == 'l' {
            proof {
                assert(t@.subrange(i as int, i as int + 4) =~= musl_chars());
            }
            return true;
        }
        proof {
            let j = i as int;
            assert(t@.subrange(j, j + 4)[0] == t@[j]);
            assert(t@.subrange(j, j + 4)[1] == t@[j + 1]);
            assert(t@.subrange(j, j + 4)[2] == t@[j + 2]);
            assert(t@.subrange(j, j + 4)[3] == t@[j + 3]);
        }
        i += 1;
    }
    false
}

/// The advisory that recommends the musl target when the compiler offers it.
pub open spec fn consider_musl_text() -> Seq<char> {
    "cargo:warning=Consider using musl for a reliably static binary:\n  cargo build --target=x86_64-unknown-linux-musl"@
}

/// The advisory that explains how to install the musl target.
pub open spec fn install_musl_text() -> Seq<char> {
    "cargo:warning=If you need a fully static binary, install the musl target:\n  rustup target add x86_64-unknown-linux-musl\nThen build with:\n  cargo build --target=x86_64-unknown-linux-musl"@
}

/// The static-linking advisories for a target: one reassuring line for a
/// musl target; otherwise two warning lines, plus a recommendation when no
/// explicit build target was chosen. `musl_in_list` says whether the
/// compiler's target list is known to offer the musl target; when that is
/// unknown, the installation advice is given.
pub open spec fn advisory_texts(
    target: Seq<char>,
    explicit_target: bool,
    musl_in_list: Option<bool>,
) -> Seq<Seq<char>> {
    if target_is_musl(target) {
        seq![
            "cargo:warning=Building for musl target: "@ + target
                + ". Expect a fully static binary."@,
        ]
    } else {
        let base = seq![
            "cargo:warning=Detected non-musl target: "@ + target + ". "@,
            "cargo:warning=Fully static linking with glibc may be problematic."@,
        ];
        if explicit_target {
            base
        } else if musl_in_list == Option::Some(true) {
            base.push(consider_musl_text())
        } else {
            base.push(install_musl_text())
        }
    }
}

/// Renders the static-linking advisories for a target.
pub fn advisory_warnings(target: &String, explicit_target: bool, musl_in_list: &Option<
    bool,
>) -> (r: Vec<String>)
    ensures
        r.deep_view() == advisory_texts(target@, explicit_target, *musl_in_list),
{
    let mut out: Vec<String> = Vec::new();
    if is_musl_target(target.as_str()) {
        let mut line = String::from_str("cargo:warning=Building for musl target: ");
        line.append(target.as_str());
        line.append(". Expect a fully static binary.");
        out.push(line);
    } else {
        let mut first = String::from_str("cargo:warning=Detected non-musl target: ");
        first.append(target.as_str());
        first.append(". ");
        out.push(first);
        out.push(String::from_str("cargo:warning=Fully static linking with glibc may be problematic."));
        if !explicit_target {
            if let Option::Some(true) = musl_in_list {
                out.push(
                    String::from_str(
                        "cargo:warning=Consider using musl for a reliably static binary:\n  cargo build --target=x86_64-unknown-linux-musl",
                    ),
                );
            } else {
                out.push(
                    String::from_str(
                        "cargo:warning=If you need a fully static binary, install the musl target:\n  rustup target add x86_64-unknown-linux-musl\nThen build with:\n  cargo build --target=x86_64-unknown-linux-musl",
                    ),
                );
            }
        }
    }
    proof {
        assert(out.deep_view() =~~= advisory_texts(target@, explicit_target, *musl_in_list));
    }
    out
}

/// Inspects the repository and renders the two directives that publish
/// the revision and the branch.
pub fn emit_git_info() -> (r: Vec<String>)
    ensures
        exists|hp: HeadProbe, rp: RefProbe|
            head_probe_wf(&hp) && r.deep_view() == seq![
                env_directive_text("BUILD_GIT_REVISION"@, revision_text(&hp)),
                env_directive_text("BUILD_GIT_BRANCH"@, branch_text(&rp)),
            ],
{
    let rev = revision();
    let br = branch();
    let mut out: Vec<String> = Vec::new();
    out.push(env_directive("BUILD_GIT_REVISION", rev.as_str()));
    out.push(env_directive("BUILD_GIT_BRANCH", br.as_str()));
    proof {
        let hp = choose|p: HeadProbe| head_probe_wf(&p) && rev@ == revision_text(&p);
        let rp = choose|p: RefProbe| br@ == branch_text(&p);
        assert(out.deep_view() =~~= seq![
            env_directive_text("BUILD_GIT_REVISION"@, revision_text(&hp)),
            env_directive_text("BUILD_GIT_BRANCH"@, branch_text(&rp)),
        ]);
    }
    out
}

/// Reads the clock, resolves the build user from the given identity
/// sources, and renders the two directives that publish them.
pub fn emit_build_metadata(
    primary: &Option<String>,
    secondary: &Option<String>,
    query: &Option<String>,
) -> (r: Vec<String>)
    ensures
        exists|dp: DateParts|
            date_parts_wf(&dp) && r.deep_view() == seq![
                env_directive_text("BUILD_DATE"@, timestamp_text(&dp)),
                env_directive_text(
                    "BUILD_USER"@,
                    resolved_user_text(primary, secondary, query),
                ),
            ],
{
    let date = build_date();
    let user = resolve_user(primary, secondary, query);
    let mut out: Vec<String> = Vec::new();
    out.push(env_directive("BUILD_DATE", date.as_str()));
    out.push(env_directive("BUILD_USER", user.as_str()));
    proof {
        let dp = choose|p: DateParts| date_parts_wf(&p) && date@ == timestamp_text(&p);
        assert(out.deep_view() =~~= seq![
            env_directive_text("BUILD_DATE"@, timestamp_text(&dp)),
            env_directive_text(
                "BUILD_USER"@,
                resolved_user_text(primary, secondary, query),
            ),
        ]);
    }
    out
}

/// The snapshot of the build environment that the emitter reads: the
/// package version, the target triple, whether a build target was chosen
/// explicitly, whether the repository head file exists, the identity
/// sources, and whether the compiler's target list offers musl.
pub struct BuildEnv {
    pub version: Option<String>,
    pub target: Option<String>,
    pub explicit_target: bool,
    pub git_head_exists: bool,
    pub user_primary: Option<String>,
    pub user_secondary: Option<String>,
    pub user_query: Option<String>,
    pub musl_in_list: Option<bool>,
}

/// The package version, or the sentinel when it is absent.
pub open spec fn version_fallback_text(o: &Option<String>) -> Seq<char> {
    match o {
        Option::Some(v) => v@,
        Option::None => "unknown"@,
    }
}

/// The target triple text, empty when absent.
pub open spec fn target_text(o: &Option<String>) -> Seq<char> {
    match o {
        Option::Some(t) => t@,
        Option::None => Seq::empty(),
    }
}

/// Every directive one emission run publishes, for given inspection
/// outcomes: the re-run triggers, the six environment constants, the
/// conditional flags, and the advisories, in the build script's order.
pub open spec fn emit_all_texts(
    env: &BuildEnv,
    hp: HeadProbe,
    rp: RefProbe,
    dp: DateParts,
    tq: Option<ToolchainQuery>,
) -> Seq<Seq<char>> {
    seq![
        "cargo:rerun-if-changed=build.rs"@,
        env_directive_text("VERSION"@, version_fallback_text(&env.version)),
    ] + (if env.git_head_exists {
        seq!["cargo:rerun-if-changed=.git/HEAD"@]
    } else {
        Seq::empty()
    }) + seq![
        env_directive_text("BUILD_GIT_REVISION"@, revision_text(&hp)),
        env_directive_text("BUILD_GIT_BRANCH"@, branch_text(&rp)),
        env_directive_text("BUILD_DATE"@, timestamp_text(&dp)),
        env_directive_text(
            "BUILD_USER"@,
            resolved_user_text(&env.user_primary, &env.user_secondary, &env.user_query),
        ),
    ] + nightly_compiler_texts(report_flags(tq)) + seq![
        env_directive_text("TOOLCHAIN"@, report_text(tq)),
    ] + flag_directive_texts(report_flags(tq)) + advisory_texts(
        target_text(&env.target),
        env.explicit_target,
        env.musl_in_list,
    )
}

/// Runs every inspector and renders the full directive list. No inspection
/// failure is fatal: each failed probe contributes its sentinel.
#[verifier::rlimit(60)]
pub fn emit_all(env: &BuildEnv) -> (r: Vec<String>)
    ensures
        exists|hp: HeadProbe, rp: RefProbe, dp: DateParts, tq: Option<ToolchainQuery>|
            head_probe_wf(&hp) && date_parts_wf(&dp) && r.deep_view() == emit_all_texts(
                env,
                hp,
                rp,
                dp,
                tq,
            ),
{
    let mut out: Vec<String> = Vec::new();
    out.push(String::from_str("cargo:rerun-if-changed=build.rs"));
    let version_line = match &env.version {
        Option::Some(v) => env_directive("VERSION", v.as_str()),
        Option::None => env_directive("VERSION", "unknown"),
    };
    out.push(version_line);
    if env.git_head_exists {
        out.push(String::from_str("cargo:rerun-if-changed=.git/HEAD"));
    }
    let rev = revision();
    out.push(env_directive("BUILD_GIT_REVISION", rev.as_str()));
    let br = branch();
    out.push(env_directive("BUILD_GIT_BRANCH", br.as_str()));
    let date = build_date();
    out.push(env_directive("BUILD_DATE", date.as_str()));
    let user = resolve_user(&env.user_primary, &env.user_secondary, &env.user_query);
    out.push(env_directive("BUILD_USER", user.as_str()));
    let report = detect_compiler();
    if report.1.nightly {
        out.push(cfg_directive("nightly_compiler"));
    }
    out.push(env_directive("TOOLCHAIN", report.0.as_str()));
    let mut flag_lines = flag_directives(&report.1);
    out.append(&mut flag_lines);
    let target = match &env.target {
        Option::Some(t) => t.clone(),
        Option::None => String::new(),
    };
    let mut advisories = advisory_warnings(&target, env.explicit_target, &env.musl_in_list);
    out.append(&mut advisories);
    proof {
        let hp = choose|p: HeadProbe| head_probe_wf(&p) && rev@ == revision_text(&p);
        let rp = choose|p: RefProbe| br@ == branch_text(&p);
        let dp = choose|p: DateParts| date_parts_wf(&p) && date@ == timestamp_text(&p);
        let tq = choose|o: Option<ToolchainQuery>|
            report.0@ == report_text(o) && report.1 == report_flags(o);
        assert(out.deep_view() =~~= emit_all_texts(env, hp, rp, dp, tq));
    }
    out
}

} // verus!
