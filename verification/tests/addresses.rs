use notebook_ci::monitor::git_uri::{parse_git_uri, RefKind};
use notebook_ci::text::{i32_to_decimal, split_words, u64_to_decimal};

fn parsed(uri: &str) -> (String, String, String, String, RefKind) {
    let g = parse_git_uri(uri).expect("the address should parse");
    (g.protocol, g.repo, g.pathspec, g.reference, g.ref_kind)
}

#[test]
fn plain_repository_follows_head() {
    let (protocol, repo, pathspec, reference, kind) = parsed("https://github.com/org/repo");
    assert_eq!(protocol, "https");
    assert_eq!(repo, "github.com/org/repo");
    assert_eq!(pathspec, "");
    assert_eq!(reference, "HEAD");
    assert_eq!(kind, RefKind::Branch);
    assert_eq!(kind.name(), "branch");
}

#[test]
fn branch_with_pathspec() {
    let (protocol, repo, pathspec, reference, kind) =
        parsed("https://github.com/org/repo//src/app@branches/main");
    assert_eq!(protocol, "https");
    assert_eq!(repo, "github.com/org/repo");
    assert_eq!(pathspec, "src/app");
    assert_eq!(reference, "origin/main");
    assert_eq!(kind, RefKind::Branch);
}

#[test]
fn every_branches_prefix_is_replaced() {
    let (_, _, _, reference, kind) = parsed("http://host/r@branches/a/branches/b");
    assert_eq!(reference, "origin/a/origin/b");
    assert_eq!(kind, RefKind::Branch);
}

#[test]
fn tag_keeps_its_prefix() {
    let (protocol, repo, pathspec, reference, kind) =
        parsed("http://gitlab.local:8080/team/project@tags/v1-0");
    assert_eq!(protocol, "http");
    assert_eq!(repo, "gitlab.local:8080/team/project");
    assert_eq!(pathspec, "");
    assert_eq!(reference, "tags/v1-0");
    assert_eq!(kind, RefKind::Tag);
    assert_eq!(kind.name(), "tag");
}

#[test]
fn commit_in_hex() {
    let (_, repo, _, reference, kind) = parsed("https://github.com/org/repo.git@a1B2c3");
    assert_eq!(repo, "github.com/org/repo.git");
    assert_eq!(reference, "a1B2c3");
    assert_eq!(kind, RefKind::Commit);
    assert_eq!(kind.name(), "commit");
}

#[test]
fn pathspec_split_at_double_slash() {
    let (_, repo, pathspec, reference, _) = parsed("https://github.com//org");
    assert_eq!(repo, "github.com");
    assert_eq!(pathspec, "org");
    assert_eq!(reference, "HEAD");
}

#[test]
fn addresses_outside_the_pattern() {
    assert!(parse_git_uri("ftp://host/repo").is_none());
    assert!(parse_git_uri("https://").is_none());
    assert!(parse_git_uri("https://github.com/org/repo/").is_none());
    assert!(parse_git_uri("https://github.com/org/repo@").is_none());
    assert!(parse_git_uri("https://github.com/org/repo@branches/").is_none());
    assert!(parse_git_uri("https://github.com/org/repo@main").is_none());
    assert!(parse_git_uri("https://github.com/org/repo@a@b").is_none());
    assert!(parse_git_uri("https://github.com//org//x").is_none());
    assert!(parse_git_uri("https://github.com/org/repo@tags/v1.0").is_none());
    assert!(parse_git_uri("https://github..com/org").is_none());
}

#[test]
fn decimal_numbers() {
    assert_eq!(u64_to_decimal(0), "0");
    assert_eq!(u64_to_decimal(1234567890), "1234567890");
    assert_eq!(u64_to_decimal(u64::MAX), "18446744073709551615");
    assert_eq!(i32_to_decimal(-42), "-42");
    assert_eq!(i32_to_decimal(7), "7");
    assert_eq!(i32_to_decimal(i32::MIN), "-2147483648");
}

#[test]
fn words_are_split_on_spaces_only() {
    assert_eq!(split_words("  a b  c "), vec!["a", "b", "c"]);
    assert_eq!(split_words(""), Vec::<String>::new());
    assert_eq!(split_words("one\ttwo"), vec!["one\ttwo"]);
}
