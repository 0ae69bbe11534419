//! Repository inspection: the current head commit (full and abbreviated),
//! the current branch, and a tag-describe version string, each degrading
//! to a sentinel when the repository or its head is unavailable.

use vstd::prelude::*;

verus! {

/// The sentinel reported when a revision cannot be determined.
pub open spec fn unknown_text() -> Seq<char> {
    "unknown"@
}

/// The sentinel reported when no local branch is checked out.
pub open spec fn head_text() -> Seq<char> {
    "HEAD"@
}

/// Number of characters in the abbreviated revision.
pub open spec fn short_len() -> int {
    8
}

/// What inspecting the repository head yields: either a concrete commit,
/// or nothing (no repository, no commits yet, or an unresolvable head).
pub enum HeadProbe {
    /// No repository was found, or its head does not resolve to a commit.
    Unresolved,
    /// The head resolves to the commit with this full hexadecimal id.
    Resolved { hex: String },
}

/// Whether `c` is a lowercase hexadecimal digit.
pub open spec fn is_hex_digit(c: char) -> bool {
    ('0' <= c && c <= '9') || ('a' <= c && c <= 'f')
}

/// Whether every character of `s` is a lowercase hexadecimal digit.
pub open spec fn all_hex(s: Seq<char>) -> bool {
    forall|i: int| 0 <= i < s.len() ==> is_hex_digit(#[trigger] s[i])
}

/// A resolved head carries a full-length hexadecimal commit id.
pub open spec fn head_probe_wf(p: &HeadProbe) -> bool {
    match p {
        HeadProbe::Unresolved => true,
        HeadProbe::Resolved { hex } => hex@.len() == 40 && all_hex(hex@),
    }
}

/// A symbolic reference carries a non-empty short name.
pub open spec fn ref_probe_wf(p: &RefProbe) -> bool {
    match p {
        RefProbe::Symbolic { name, local } => name@.len() > 0,
        _ => true,
    }
}

/// What inspecting the head reference yields: no repository, a detached or
/// unborn head, or a symbolic reference with a short name and a category.
pub enum RefProbe {
    /// No repository was found.
    NoRepo,
    /// The head is detached or unborn: it names no reference.
    Detached,
    /// The head points at a named reference; `local` says whether that
    /// reference is a local branch rather than a tag or remote reference.
    Symbolic { name: String, local: bool },
}

/// The full revision text derived from a head inspection.
pub open spec fn revision_text(p: &HeadProbe) -> Seq<char> {
    match p {
        HeadProbe::Unresolved => unknown_text(),
        HeadProbe::Resolved { hex } => hex@,
    }
}

/// The abbreviated revision text derived from a head inspection.
pub open spec fn short_revision_text(p: &HeadProbe) -> Seq<char> {
    match p {
        HeadProbe::Unresolved => unknown_text(),
        HeadProbe::Resolved { hex } => hex@.subrange(0, short_len()),
    }
}

/// The branch text derived from a reference inspection: the short name for
/// a local branch, and the sentinel for everything else.
pub open spec fn branch_text(p: &RefProbe) -> Seq<char> {
    match p {
        RefProbe::Symbolic { name, local } => if *local {
            name@
        } else {
            head_text()
        },
        _ => head_text(),
    }
}

/// The full revision string for a given head state.
pub fn revision_of(p: &HeadProbe) -> (r: String)
    ensures
        r@ == revision_text(p),
{
    match p {
        HeadProbe::Unresolved => String::from_str("unknown"),
        HeadProbe::Resolved { hex } => hex.clone(),
    }
}

/// The abbreviated revision string for a given head state.
pub fn short_revision_of(p: &HeadProbe) -> (r: String)
    requires
        head_probe_wf(p),
    ensures
        r@ == short_revision_text(p),
{
    match p {
        HeadProbe::Unresolved => String::from_str("unknown"),
        HeadProbe::Resolved { hex } => hex.as_str().substring_char(0, 8).to_owned(),
    }
}

/// The branch string for a given reference state.
pub fn branch_of(p: &RefProbe) -> (r: String)
    ensures
        r@ == branch_text(p),
{
    match p {
        RefProbe::Symbolic { name, local } => if *local {
            name.clone()
        } else {
            String::from_str("HEAD")
        },
        _ => String::from_str("HEAD"),
    }
}

/// Without a repository, or at a head that resolves to no commit, both
/// revisions are the sentinel and the branch is the head sentinel.
pub proof fn lemma_missing_repository_sentinels()
    ensures
        revision_text(&HeadProbe::Unresolved) == unknown_text(),
        short_revision_text(&HeadProbe::Unresolved) == unknown_text(),
        branch_text(&RefProbe::NoRepo) == head_text(),
{
}

/// At a detached head pointing at a commit, the revision is that commit's
/// full id, while the branch is the sentinel, never the id or a tag name.
pub proof fn lemma_detached_head(hex: String)
    ensures
        revision_text(&HeadProbe::Resolved { hex }) == hex@,
        branch_text(&RefProbe::Detached) == head_text(),
{
}

/// A checked-out local branch is reported under exactly its short name;
/// a reference of any other category yields the sentinel instead.
pub proof fn lemma_local_branch_reported(name: String)
    ensures
        branch_text(&RefProbe::Symbolic { name, local: true }) == name@,
        branch_text(&RefProbe::Symbolic { name, local: false }) == head_text(),
{
}

/// The abbreviated revision is the sentinel exactly when the full revision
/// is, and is otherwise an eight-character prefix of it.
pub proof fn lemma_short_revision_prefix(p: &HeadProbe)
    requires
        head_probe_wf(p),
    ensures
        (short_revision_text(p) == unknown_text()) <==> (revision_text(p) == unknown_text()),
        short_revision_text(p) != unknown_text() ==> short_revision_text(p).len() == 8
            && short_revision_text(p) == revision_text(p).subrange(0, 8),
{
    reveal_strlit("unknown");
    match p {
        HeadProbe::Unresolved => {
        },
        HeadProbe::Resolved { hex } => {
            assert(short_revision_text(p).len() == 8);
            assert(revision_text(p).len() == 40);
        },
    }
}

#[verifier::external_type_specification]
#[verifier::external_body]
pub struct ExRepository(gix::Repository);

/// Relies on `gix::open`: opens the repository containing the current
/// working directory, if one is there and is readable.
#[verifier::external_body]
fn open_repo() -> (r: Option<gix::Repository>) {
    gix::open(".").ok()
}

/// Relies on `gix::Repository::head_commit` (which resolves the head to a
/// commit, failing on unborn or non-commit heads) and on
/// `gix_hash::oid::to_hex`, whose display of a SHA-1 id is its full
/// 40-character form in lowercase hexadecimal digits.
#[verifier::external_body]
fn head_commit_hex(repo: &gix::Repository) -> (r: Option<String>)
    ensures
        r is Some ==> r->0@.len() == 40 && all_hex(r->0@),
{
    repo.head_commit().ok().map(|commit| commit.id.to_hex().to_string())
}

/// Relies on `gix::Repository::head` and `gix::Head::try_peel_to_id`, which
/// follows symbolic references and tags to a concrete object id and yields
/// none on unborn heads, and on `gix_hash::oid::to_hex` as above.
#[verifier::external_body]
fn head_peeled_hex(repo: &gix::Repository) -> (r: Option<String>)
    ensures
        r is Some ==> r->0@.len() == 40 && all_hex(r->0@),
{
    let mut head = repo.head().ok()?;
    let id = head.try_peel_to_id().ok().flatten()?;
    Some(id.to_hex().to_string())
}

/// Relies on `gix::Repository::head`, `gix::Head::try_into_referent` (which
/// yields a reference only for symbolic heads), and
/// `gix_ref::FullName::category_and_short_name`; the flag records whether
/// the category is `gix_ref::Category::LocalBranch`. The short name is
/// never empty: gix-validate refuses empty reference names, so a
/// categorized full name always has characters after its prefix.
#[verifier::external_body]
fn head_referent(repo: &gix::Repository) -> (r: Option<(String, bool)>)
    ensures
        r matches Some(nb) ==> nb.0@.len() > 0,
{
    let head = repo.head().ok()?;
    let name = head.try_into_referent()?.name().to_owned();
    let (category, short_name) = name.category_and_short_name()?;
    Some((short_name.to_string(), matches!(category, gix::refs::Category::LocalBranch)))
}

/// Returns the full hexadecimal id of the current head commit, or the
/// sentinel when no repository is found or its head resolves to no commit.
pub fn revision() -> (r: String)
    ensures
        r@ == unknown_text() || (r@.len() == 40 && all_hex(r@)),
        exists|p: HeadProbe| head_probe_wf(&p) && r@ == revision_text(&p),
{
    let probe = match open_repo() {
        None => HeadProbe::Unresolved,
        Some(repo) => match head_commit_hex(&repo) {
            None => HeadProbe::Unresolved,
            Some(hex) => HeadProbe::Resolved { hex },
        },
    };
    proof {
        reveal_strlit("unknown");
    }
    revision_of(&probe)
}

/// Returns the eight-character abbreviation of the id the head peels to,
/// or the sentinel when no repository is found or the head is unborn.
pub fn short_revision() -> (r: String)
    ensures
        r@ == unknown_text() || (r@.len() == 8 && all_hex(r@)),
        exists|p: HeadProbe| head_probe_wf(&p) && r@ == short_revision_text(&p),
{
    let probe = match open_repo() {
        None => HeadProbe::Unresolved,
        Some(repo) => match head_peeled_hex(&repo) {
            None => HeadProbe::Unresolved,
            Some(hex) => HeadProbe::Resolved { hex },
        },
    };
    proof {
        reveal_strlit("unknown");
    }
    let r = short_revision_of(&probe);
    proof {
        match &probe {
            HeadProbe::Unresolved => {
            },
            HeadProbe::Resolved { hex } => {
                assert(r@ == hex@.subrange(0, 8));
                assert forall|i: int| 0 <= i < r@.len() implies is_hex_digit(r@[i]) by {
                    assert(r@[i] == hex@[i]);
                }
            },
        }
    }
    r
}

/// What a tag-describe inspection yields when a tag names the head: the
/// tag's short name, and how many commits lie between the tag and the head.
pub struct DescribeProbe {
    pub name: String,
    pub depth: u32,
}

/// A found tag carries a non-empty name.
pub open spec fn describe_probe_wf(probe: &Option<DescribeProbe>) -> bool {
    match probe {
        Option::Some(d) => d.name@.len() > 0,
        Option::None => true,
    }
}

/// The tag-derived version text: the tag name, marked dirty when commits
/// lie beyond the tag; the package version when no tag names the head or
/// the inspection failed.
pub open spec fn tag_text(package_version: Seq<char>, probe: &Option<DescribeProbe>) -> Seq<
    char,
> {
    match probe {
        Option::Some(d) => if d.depth > 0 {
            d.name@ + "-dirty"@
        } else {
            d.name@
        },
        Option::None => package_version,
    }
}

/// The tag-derived version string for a given describe inspection.
pub fn tag_of(package_version: &str, probe: &Option<DescribeProbe>) -> (r: String)
    ensures
        r@ == tag_text(package_version@, probe),
{
    match probe {
        Option::Some(d) => {
            let mut base = d.name.clone();
            if d.depth > 0 {
                base.append("-dirty");
            }
            base
        },
        Option::None => package_version.to_owned(),
    }
}

/// Relies on `gix::discover`, `gix::Head::peel_to_commit`, and the
/// describe platform of `gix::Commit` restricted to tag names with the id
/// fallback disabled (`try_format`): a formatted outcome then always
/// carries a matched tag name with the commit distance, and that name is
/// never empty, since gix-validate refuses empty reference names.
#[verifier::external_body]
fn describe_head() -> (r: Option<DescribeProbe>)
    ensures
        r matches Some(d) ==> d.name@.len() > 0,
{
    let repo = gix::discover(".").ok()?;
    let mut head = repo.head().ok()?;
    let commit = head.peel_to_commit().ok()?;
    let platform = commit.describe().names(gix::commit::describe::SelectRef::AllTags)
        .id_as_fallback(false);
    let fmt = platform.try_format().ok().flatten()?;
    let name = fmt.name.as_ref()?.to_string();
    Some(DescribeProbe { name, depth: fmt.depth })
}

/// Returns the tag-derived version of the current head: the nearest tag
/// name, or the given package version when the repository, its head, or a
/// tag cannot be resolved. The result is the package version or a
/// non-empty tag string, never a bare commit id.
pub fn tag(package_version: &str) -> (r: String)
    ensures
        exists|probe: Option<DescribeProbe>|
            describe_probe_wf(&probe) && r@ == tag_text(package_version@, &probe),
        r@ == package_version@ || r@.len() > 0,
{
    let probe = describe_head();
    let r = tag_of(package_version, &probe);
    proof {
        assert(describe_probe_wf(&probe) && r@ == tag_text(package_version@, &probe));
        match &probe {
            Option::Some(d) => {
                assert(r@.len() > 0);
            },
            Option::None => {
                assert(r@ == package_version@);
            },
        }
    }
    r
}

/// Returns the short name of the head reference when that reference is a
/// local branch, and the sentinel for detached heads, other reference
/// categories, and missing repositories.
pub fn branch() -> (r: String)
    ensures
        exists|p: RefProbe| ref_probe_wf(&p) && r@ == branch_text(&p),
        r@ == head_text() || r@.len() > 0,
{
    let probe = match open_repo() {
        None => RefProbe::NoRepo,
        Some(repo) => match head_referent(&repo) {
            None => RefProbe::Detached,
            Some((name, local)) => RefProbe::Symbolic { name, local },
        },
    };
    let r = branch_of(&probe);
    proof {
        assert(ref_probe_wf(&probe) && r@ == branch_text(&probe));
    }
    r
}

} // verus!
