//! Decoration of repository records into the display lines the finder shows.

use vstd::prelude::*;

verus! {

/// Where a repository is hosted.
#[derive(Debug, Clone, Copy, PartialEq, Eq, Structural)]
pub enum RepoSource {
    GitHub,
    GitLab,
}

/// The marker appended to the name of a private repository.
pub open spec fn private_marker(is_private: bool) -> Seq<char> {
    if is_private {
        " 🔒"@
    } else {
        Seq::empty()
    }
}

/// The tag naming the host of a repository.
pub open spec fn source_tag(source: RepoSource) -> Seq<char> {
    match source {
        RepoSource::GitHub => " [GH]"@,
        RepoSource::GitLab => " [GL]"@,
    }
}

/// The decorated name: the name, the private marker, then the source tag.
pub open spec fn repo_name_text(name: Seq<char>, is_private: bool, source: RepoSource) -> Seq<char> {
    name + private_marker(is_private) + source_tag(source)
}

/// The full display line, given the description already trimmed and whether
/// anything is left of it.
pub open spec fn repository_text(
    name: Seq<char>,
    trimmed: Seq<char>,
    has_description: bool,
    is_fork: bool,
    is_private: bool,
    source: RepoSource,
) -> Seq<char> {
    let head = repo_name_text(name, is_private, source);
    if is_fork {
        if has_description {
            head + " (fork: "@ + trimmed + ")"@
        } else {
            head + " (fork)"@
        }
    } else if has_description {
        head + " ("@ + trimmed + ")"@
    } else {
        head
    }
}

/// Whether `c` has the Unicode White_Space property.
pub open spec fn is_white_space(c: char) -> bool {
    let u = c as u32;
    (0x09 <= u && u <= 0x0D) || u == 0x20 || u == 0x85 || u == 0xA0 || u == 0x1680
        || (0x2000 <= u && u <= 0x200A) || u == 0x2028 || u == 0x2029 || u == 0x202F
        || u == 0x205F || u == 0x3000
}

/// The text without its leading white space.
pub open spec fn trim_start_text(s: Seq<char>) -> Seq<char>
    decreases s.len(),
{
    if s.len() > 0 && is_white_space(s[0]) {
        trim_start_text(s.drop_first())
    } else {
        s
    }
}

/// The text without its trailing white space.
pub open spec fn trim_end_text(s: Seq<char>) -> Seq<char>
    decreases s.len(),
{
    if s.len() > 0 && is_white_space(s.last()) {
        trim_end_text(s.drop_last())
    } else {
        s
    }
}

/// The text without its leading and trailing white space.
pub open spec fn trimmed_text(s: Seq<char>) -> Seq<char> {
    trim_end_text(trim_start_text(s))
}

/// Relies on `str::trim`: the text with leading and trailing characters of
/// the Unicode White_Space property removed.
#[verifier::external_body]
fn trim_text(s: &str) -> (r: &str)
    ensures
        r@ == trimmed_text(s@),
{
    s.trim()
}

/// Formats a repository name with its private marker and its source tag.
/// Whether the repository is a fork does not show in the name.
pub fn format_repo_name(name: &str, _is_fork: bool, is_private: bool, source: RepoSource) -> (r: String)
    ensures
        r@ == repo_name_text(name@, is_private, source),
{
    let mut r = String::from_str(name);
    if is_private {
        r.append(" 🔒");
    }
    match source {
        RepoSource::GitHub => r.append(" [GH]"),
        RepoSource::GitLab => r.append(" [GL]"),
    }
    r
}

/// Builds the full display line from a description that has already been
/// trimmed; `has_description` says whether anything is left of it.
pub fn compose_repository(
    name: &str,
    trimmed: &str,
    has_description: bool,
    is_fork: bool,
    is_private: bool,
    source: RepoSource,
) -> (r: String)
    ensures
        r@ == repository_text(name@, trimmed@, has_description, is_fork, is_private, source),
{
    let mut r = format_repo_name(name, is_fork, is_private, source);
    if is_fork {
        if has_description {
            r.append(" (fork: ");
            r.append(trimmed);
            r.append(")");
        } else {
            r.append(" (fork)");
        }
    } else if has_description {
        r.append(" (");
        r.append(trimmed);
        r.append(")");
    }
    r
}

/// Formats a complete repository line: the decorated name, then the fork
/// note and the trimmed description in parentheses. A description that is
/// empty once trimmed counts as no description.
pub fn format_repository(
    name: &str,
    description: &str,
    is_fork: bool,
    is_private: bool,
    source: RepoSource,
) -> (r: String)
    ensures
        r@ == repository_text(
            name@,
            trimmed_text(description@),
            trimmed_text(description@).len() > 0,
            is_fork,
            is_private,
            source,
        ),
{
    let trimmed = trim_text(description);
    let has_description = !trimmed.is_empty();
    compose_repository(name, trimmed, has_description, is_fork, is_private, source)
}

} // verus!
