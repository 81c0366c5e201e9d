use snippet_cache::snippet::{file_name_of, hash_git_option, hash_git_url, hash_path, SnippetFile};

#[test]
fn digest_is_first_eight_hex_chars_of_sha256() {
    // sha256("abc") = ba7816bf8f01cfea414140de5dae2223b00361a396177a9cb410ff61f20015ad
    assert_eq!(hash_git_url("abc"), "ba7816bf");
    // sha256("") = e3b0c44298fc1c149afbf4c8996fb92427ae41e4649b934ca495991b7852b855
    assert_eq!(hash_git_url(""), "e3b0c442");
}

#[test]
fn digest_has_fixed_width() {
    assert_eq!(hash_git_url("https://example.com/repo.git").len(), 8);
    assert_eq!(hash_path("src/lib.txt").len(), 8);
    assert_eq!(hash_git_option("branch", "main").len(), 8);
}

#[test]
fn option_digest_hashes_kind_dash_value() {
    assert_eq!(hash_git_option("branch", "main"), hash_path("branch-main"));
    assert_eq!(hash_git_option("tag", "v1.0"), hash_path("tag-v1.0"));
    assert_ne!(hash_git_option("branch", "main"), hash_git_option("tag", "main"));
}

#[test]
fn file_name_takes_final_component() {
    assert_eq!(file_name_of("src/lib.txt"), "lib.txt");
    assert_eq!(file_name_of("a/b/c.rs"), "c.rs");
    assert_eq!(file_name_of("noslash"), "noslash");
}

#[test]
fn file_name_placeholder_when_no_final_component() {
    assert_eq!(file_name_of(""), "unknown");
    assert_eq!(file_name_of("dir/"), "unknown");
    assert_eq!(file_name_of("/"), "unknown");
}

#[test]
fn prefix_joins_three_digests_and_file_name() {
    let url = "https://example.com/repo.git";
    let path = "src/lib.txt";
    let commit = "abcdef1234567890abcdef1234567890abcdef12";
    let s = SnippetFile::new(url, "branch", "main", path, commit);
    let expected_prefix = format!(
        "{}-{}-{}-{}",
        hash_git_url(url),
        hash_git_option("branch", "main"),
        hash_path(path),
        "lib.txt",
    );
    assert_eq!(s.prefix, expected_prefix);
    assert_eq!(s.commit_hash, commit);
    assert_eq!(s.full_name, format!("{}-{}.rs", expected_prefix, commit));
}

#[test]
fn derive_key_is_deterministic() {
    let a = SnippetFile::new("https://example.com/r.git", "tag", "v2", "a/b.txt", "1234abcd");
    let b = SnippetFile::new("https://example.com/r.git", "tag", "v2", "a/b.txt", "1234abcd");
    assert_eq!(a.prefix, b.prefix);
    assert_eq!(a.commit_hash, b.commit_hash);
    assert_eq!(a.full_name, b.full_name);
}

#[test]
fn prefix_is_independent_of_the_resolved_commit() {
    let a = SnippetFile::new("u", "branch", "main", "p/q.txt", "c1c1c1c1");
    let b = SnippetFile::new("u", "branch", "main", "p/q.txt", "c2c2c2c2");
    assert_eq!(a.prefix, b.prefix);
    assert_ne!(a.full_name, b.full_name);
}

#[test]
fn distinct_requests_give_distinct_prefixes() {
    let a = SnippetFile::new("u1", "branch", "main", "p.txt", "c");
    let b = SnippetFile::new("u2", "branch", "main", "p.txt", "c");
    assert_ne!(a.prefix, b.prefix);
    let c = SnippetFile::new("u1", "branch", "dev", "p.txt", "c");
    assert_ne!(a.prefix, c.prefix);
    let d = SnippetFile::new("u1", "branch", "main", "q.txt", "c");
    assert_ne!(a.prefix, d.prefix);
}
