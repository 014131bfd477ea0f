//! Version information of the web interface and of the core scripts.
use vstd::prelude::*;
use crate::text::{
    lemma_split_nonempty, same_text, split_chars, split_on, trim_newlines, trim_trailing_newlines,
};

verus! {

/// A tag, a branch and a commit hash.
#[derive(Debug, Default, Clone, PartialEq, Eq)]
pub struct Version {
    pub tag: String,
    pub branch: String,
    pub hash: String,
}

/// The text of each field of a version, as (tag, branch, hash).
pub open spec fn version_view(v: Option<Version>) -> Option<(Seq<char>, Seq<char>, Seq<char>)> {
    match v {
        Some(v) => Some((v.tag@, v.branch@, v.hash@)),
        None => None,
    }
}

/// The web version held in "TAG BRANCH COMMIT", trailing newlines aside.
pub open spec fn web_version_spec(s: Seq<char>) -> Option<(Seq<char>, Seq<char>, Seq<char>)> {
    let parts = split_on(trim_newlines(s), ' ');
    if parts.len() == 3 {
        Some((parts[0], parts[1], parts[2]))
    } else {
        None
    }
}

/// The hash of a `git describe` commit part: the part without its leading
/// "g", or nothing where the part does not start with a one-byte character.
pub open spec fn commit_hash(p: Seq<char>) -> Seq<char> {
    if p.len() > 0 && (p[0] as u32) < 128 {
        p.drop_first()
    } else {
        Seq::empty()
    }
}

/// The version held in `git describe` output "TAG-NUMBER-COMMIT" on `branch`;
/// the tag is kept only where NUMBER is "0", that is on the tagged commit.
pub open spec fn git_version_spec(git: Seq<char>, branch: Seq<char>) -> Option<
    (Seq<char>, Seq<char>, Seq<char>),
> {
    let parts = split_on(git, '-');
    if parts.len() == 3 {
        Some(
            (
                if parts[1] == "0"@ {
                    parts[0]
                } else {
                    Seq::empty()
                },
                branch,
                commit_hash(parts[2]),
            ),
        )
    } else {
        None
    }
}

/// Parse web version information from a string in the format
/// "TAG BRANCH COMMIT", ignoring trailing newlines.
pub fn parse_web_version(version_str: &str) -> (r: Option<Version>)
    ensures
        version_view(r) == web_version_spec(version_str@),
{
    let trimmed = trim_trailing_newlines(version_str);
    let parts = split_chars(trimmed, ' ');
    if parts.len() != 3 {
        return None;
    }
    proof {
        assert(parts@.map_values(|s: String| s@)[0] == parts@[0]@);
        assert(parts@.map_values(|s: String| s@)[1] == parts@[1]@);
        assert(parts@.map_values(|s: String| s@)[2] == parts@[2]@);
    }
    Some(Version { tag: parts[0].clone(), branch: parts[1].clone(), hash: parts[2].clone() })
}

/// The hash of a commit part of `git describe` output.
fn hash_of_commit(part: &str) -> (r: String)
    ensures
        r@ == commit_hash(part@),
{
    let n = part.unicode_len();
    if n > 0 && (part.get_char(0) as u32) < 128 {
        assert(part@.subrange(1, n as int) =~= part@.drop_first());
        part.substring_char(1, n).to_owned()
    } else {
        String::new()
    }
}

/// Parse version data from `git describe` output, "TAG-NUMBER-COMMIT".
pub fn parse_git_version(git_version: &str, branch: &str) -> (r: Option<Version>)
    ensures
        version_view(r) == git_version_spec(git_version@, branch@),
{
    let parts = split_chars(git_version, '-');
    if parts.len() != 3 {
        return None;
    }
    proof {
        assert(parts@.map_values(|s: String| s@)[0] == parts@[0]@);
        assert(parts@.map_values(|s: String| s@)[1] == parts@[1]@);
        assert(parts@.map_values(|s: String| s@)[2] == parts@[2]@);
    }
    // Only keep the tag on the tagged commit (0 commits after the tag)
    let tag = if same_text(parts[1].as_str(), "0") {
        parts[0].clone()
    } else {
        String::new()
    };
    Some(Version { tag, branch: branch.to_owned(), hash: hash_of_commit(parts[2].as_str()) })
}

/// Core version information from the contents of the local versions file and
/// the local branches file, each structured as "CORE WEB FTL".
pub fn read_core_version(local_versions: &str, local_branches: &str) -> (r: Option<Version>)
    ensures
        version_view(r) == git_version_spec(
            split_on(local_versions@, ' ')[0],
            split_on(local_branches@, ' ')[0],
        ),
{
    let versions = split_chars(local_versions, ' ');
    let branches = split_chars(local_branches, ' ');
    proof {
        lemma_split_nonempty(local_versions@, ' ');
        lemma_split_nonempty(local_branches@, ' ');
        assert(versions@.map_values(|s: String| s@)[0] == versions@[0]@);
        assert(branches@.map_values(|s: String| s@)[0] == branches@[0]@);
    }
    parse_git_version(versions[0].as_str(), branches[0].as_str())
}

} // verus!
