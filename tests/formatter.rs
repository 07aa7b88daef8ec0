use repo_finder::formatter::{compose_repository, format_repo_name, format_repository, RepoSource};

#[test]
fn test_format_repo_name() {
    assert_eq!(format_repo_name("normal-repo", false, false, RepoSource::GitHub), "normal-repo [GH]");
    assert_eq!(format_repo_name("normal-repo", false, false, RepoSource::GitLab), "normal-repo [GL]");
    assert_eq!(format_repo_name("forked-repo", true, false, RepoSource::GitHub), "forked-repo [GH]");
    assert_eq!(format_repo_name("private-repo", false, true, RepoSource::GitHub), "private-repo 🔒 [GH]");
    assert_eq!(format_repo_name("private-fork", true, true, RepoSource::GitLab), "private-fork 🔒 [GL]");
}

#[test]
fn test_format_repository() {
    assert_eq!(
        format_repository("web-app", "Frontend application", false, false, RepoSource::GitHub),
        "web-app [GH] (Frontend application)"
    );
    assert_eq!(
        format_repository("web-app", "Frontend application", false, false, RepoSource::GitLab),
        "web-app [GL] (Frontend application)"
    );
    assert_eq!(
        format_repository("forked-api", "Backend service", true, false, RepoSource::GitHub),
        "forked-api [GH] (fork: Backend service)"
    );
    assert_eq!(
        format_repository("mobile-app", "iOS client", false, true, RepoSource::GitHub),
        "mobile-app 🔒 [GH] (iOS client)"
    );
    assert_eq!(
        format_repository("game-demo", "Unity project", true, true, RepoSource::GitLab),
        "game-demo 🔒 [GL] (fork: Unity project)"
    );
    assert_eq!(
        format_repository("test-framework", "", false, false, RepoSource::GitHub),
        "test-framework [GH]"
    );
    assert_eq!(
        format_repository("private-fork", "", true, true, RepoSource::GitLab),
        "private-fork 🔒 [GL] (fork)"
    );
    assert_eq!(
        format_repository("whitespace-test", "  Description with extra spaces  ", false, false, RepoSource::GitHub),
        "whitespace-test [GH] (Description with extra spaces)"
    );
    assert_eq!(
        format_repository("just-fork", "", true, false, RepoSource::GitLab),
        "just-fork [GL] (fork)"
    );
}

#[test]
fn private_fork_with_padded_description() {
    assert_eq!(
        format_repository("repo", " X ", true, true, RepoSource::GitHub),
        "repo 🔒 [GH] (fork: X)"
    );
}

#[test]
fn compose_uses_the_given_trimmed_text() {
    assert_eq!(
        compose_repository("r", "d", true, false, false, RepoSource::GitLab),
        "r [GL] (d)"
    );
    assert_eq!(
        compose_repository("r", "d", false, true, true, RepoSource::GitHub),
        "r 🔒 [GH] (fork)"
    );
}

#[test]
fn trim_strips_tabs_and_newlines() {
    assert_eq!(
        format_repository("t", "\t lib \n", false, false, RepoSource::GitHub),
        "t [GH] (lib)"
    );
}

#[test]
fn blank_description_counts_as_none() {
    assert_eq!(format_repository("b", "   ", false, false, RepoSource::GitHub), "b [GH]");
    assert_eq!(format_repository("b", " \t ", true, false, RepoSource::GitLab), "b [GL] (fork)");
}

#[test]
fn trim_strips_unicode_white_space() {
    assert_eq!(
        format_repository("w", "\u{3000}desc\u{a0}\u{2028}", false, false, RepoSource::GitHub),
        "w [GH] (desc)"
    );
    assert_eq!(format_repository("w", "\u{85}\u{200a}", true, false, RepoSource::GitHub), "w [GH] (fork)");
}
