//! Toolchain inspection: classifying the active compiler's release channel,
//! deriving the conditional feature flags, and formatting the toolchain
//! descriptor, degrading to a sentinel when the query fails.

use vstd::prelude::*;

verus! {

/// The release maturity tier of the detected compiler.
#[derive(Clone, Copy, Debug, PartialEq, Eq, Structural)]
pub enum Channel {
    Stable,
    Beta,
    Nightly,
    /// The channel could not be classified (a development build).
    Unknown,
}

/// What a successful toolchain query yields, as plain values.
pub struct ToolchainQuery {
    /// Semantic version components of the compiler.
    pub major: u64,
    pub minor: u64,
    pub patch: u64,
    /// The full semantic version as the compiler displays it.
    pub semver_text: String,
    /// The host target triple.
    pub host: String,
    /// The classified release channel.
    pub channel: Channel,
}

/// The conditional compile-time switches derived from a toolchain query.
#[derive(Clone, Copy, Debug, PartialEq, Eq, Structural)]
pub struct FeatureFlags {
    pub nightly: bool,
    pub beta: bool,
    pub stable: bool,
    pub msrv: bool,
}

/// Minimum supported compiler version: flags `msrv` from this version on.
pub const MSRV_MAJOR: u64 = 1;

pub const MSRV_MINOR: u64 = 67;

pub const MSRV_PATCH: u64 = 0;

/// Whether version `maj.min.pat` is at least `tmaj.tmin.tpat`.
pub open spec fn version_at_least(
    maj: int,
    min: int,
    pat: int,
    tmaj: int,
    tmin: int,
    tpat: int,
) -> bool {
    maj > tmaj || (maj == tmaj && (min > tmin || (min == tmin && pat >= tpat)))
}

/// The flags a toolchain query derives: one per matching channel, and the
/// minimum-version flag exactly when the version meets the threshold.
pub open spec fn flags_spec(q: &ToolchainQuery) -> FeatureFlags {
    FeatureFlags {
        nightly: q.channel is Nightly,
        beta: q.channel is Beta,
        stable: q.channel is Stable,
        msrv: version_at_least(
            q.major as int,
            q.minor as int,
            q.patch as int,
            MSRV_MAJOR as int,
            MSRV_MINOR as int,
            MSRV_PATCH as int,
        ),
    }
}

/// No flag is set; what a failed query derives.
pub open spec fn no_flags() -> FeatureFlags {
    FeatureFlags { nightly: false, beta: false, stable: false, msrv: false }
}

/// At most one of the three channel flags is set.
pub open spec fn flags_exclusive(f: FeatureFlags) -> bool {
    &&& !(f.nightly && f.beta)
    &&& !(f.nightly && f.stable)
    &&& !(f.beta && f.stable)
}

/// The display name of a channel.
pub open spec fn channel_text(c: Channel) -> Seq<char> {
    match c {
        Channel::Stable => "Stable"@,
        Channel::Beta => "Beta"@,
        Channel::Nightly => "Nightly"@,
        Channel::Unknown => "Unknown"@,
    }
}

/// The toolchain descriptor: version, host triple, and channel.
pub open spec fn descriptor_text(q: &ToolchainQuery) -> Seq<char> {
    q.semver_text@ + " "@ + q.host@ + " ("@ + channel_text(q.channel) + " channel)"@
}

/// The descriptor a query outcome yields: the sentinel on failure.
pub open spec fn report_text(o: Option<ToolchainQuery>) -> Seq<char> {
    match o {
        Option::None => "unknown"@,
        Option::Some(q) => descriptor_text(&q),
    }
}

/// The flags a query outcome yields: none on failure.
pub open spec fn report_flags(o: Option<ToolchainQuery>) -> FeatureFlags {
    match o {
        Option::None => no_flags(),
        Option::Some(q) => flags_spec(&q),
    }
}

/// Whether version `maj.min.pat` is at least `tmaj.tmin.tpat`.
pub fn version_meets(maj: u64, min: u64, pat: u64, tmaj: u64, tmin: u64, tpat: u64) -> (r: bool)
    ensures
        r == version_at_least(maj as int, min as int, pat as int, tmaj as int, tmin as int,
            tpat as int),
{
    maj > tmaj || (maj == tmaj && (min > tmin || (min == tmin && pat >= tpat)))
}

/// Derives the feature flags of a toolchain query.
pub fn flags_of(q: &ToolchainQuery) -> (f: FeatureFlags)
    ensures
        f == flags_spec(q),
{
    let nightly = matches!(q.channel, Channel::Nightly);
    let beta = matches!(q.channel, Channel::Beta);
    let stable = matches!(q.channel, Channel::Stable);
    let msrv = version_meets(q.major, q.minor, q.patch, MSRV_MAJOR, MSRV_MINOR, MSRV_PATCH);
    FeatureFlags { nightly, beta, stable, msrv }
}

/// The display name of a channel.
pub fn channel_name(c: Channel) -> (r: String)
    ensures
        r@ == channel_text(c),
{
    match c {
        Channel::Stable => String::from_str("Stable"),
        Channel::Beta => String::from_str("Beta"),
        Channel::Nightly => String::from_str("Nightly"),
        Channel::Unknown => String::from_str("Unknown"),
    }
}

/// Formats the toolchain descriptor of a successful query.
pub fn descriptor_of(q: &ToolchainQuery) -> (r: String)
    ensures
        r@ == descriptor_text(q),
{
    let mut out = q.semver_text.clone();
    out.append(" ");
    out.append(q.host.as_str());
    out.append(" (");
    let name = channel_name(q.channel);
    out.append(name.as_str());
    out.append(" channel)");
    proof {
        assert(out@ =~= descriptor_text(q));
    }
    out
}

/// Exactly the flag of the matching channel is set, never two.
pub proof fn lemma_channel_flags_exclusive(q: &ToolchainQuery)
    ensures
        flags_exclusive(flags_spec(q)),
        flags_spec(q).nightly || flags_spec(q).beta || flags_spec(q).stable <==> !(
        q.channel is Unknown),
{
}

/// The minimum-version flag depends on the version alone: two queries with
/// the same version triple derive it alike, whatever their channels.
pub proof fn lemma_msrv_independent_of_channel(q1: &ToolchainQuery, q2: &ToolchainQuery)
    requires
        q1.major == q2.major,
        q1.minor == q2.minor,
        q1.patch == q2.patch,
    ensures
        flags_spec(q1).msrv == flags_spec(q2).msrv,
{
}

/// Relies on `rustc_version::version_meta`: queries the active compiler
/// for its semantic version, host triple and release channel.
#[verifier::external_body]
fn query_toolchain() -> (r: Option<ToolchainQuery>) {
    let meta = rustc_version::version_meta().ok()?;
    let channel = match meta.channel {
        rustc_version::Channel::Stable => Channel::Stable,
        rustc_version::Channel::Beta => Channel::Beta,
        rustc_version::Channel::Nightly => Channel::Nightly,
        rustc_version::Channel::Dev => Channel::Unknown,
    };
    Some(ToolchainQuery {
        major: meta.semver.major,
        minor: meta.semver.minor,
        patch: meta.semver.patch,
        semver_text: meta.semver.to_string(),
        host: meta.host,
        channel,
    })
}

/// Queries the active compiler and returns the toolchain descriptor and
/// the derived feature flags; a failed query yields the sentinel
/// descriptor and no flags.
pub fn detect_compiler() -> (r: (String, FeatureFlags))
    ensures
        exists|o: Option<ToolchainQuery>| r.0@ == report_text(o) && r.1 == report_flags(o),
        flags_exclusive(r.1),
{
    match query_toolchain() {
        None => {
            let r = (String::from_str("unknown"), FeatureFlags {
                nightly: false,
                beta: false,
                stable: false,
                msrv: false,
            });
            proof {
                assert(r.0@ == report_text(Option::None) && r.1 == report_flags(Option::None));
            }
            r
        },
        Some(q) => {
            let descriptor = descriptor_of(&q);
            let flags = flags_of(&q);
            let r = (descriptor, flags);
            proof {
                assert(r.0@ == report_text(Option::Some(q)) && r.1 == report_flags(
                    Option::Some(q),
                ));
            }
            r
        },
    }
}

} // verus!
