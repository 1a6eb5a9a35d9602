use std::hash::Hasher;

use activity_report::support::{contributor_key, format_u64_hex, next_page_link, pages_needed,
    decode_readme_content, register_contributor, contains_name, commit_to_record, sha_serial,
    clip_head_tail};
use activity_report::records::Date;

#[test]
fn contributor_key_matches_the_reference_digest() {
    let mut hasher = twox_hash::XxHash64::with_seed(0);
    hasher.write("octocat/hello-world".as_bytes());
    let expected = format!("{:x}", hasher.finish());
    assert_eq!(contributor_key("octocat", "hello-world"), expected);
}

#[test]
fn contributor_key_depends_on_the_repository() {
    let a = contributor_key("octocat", "hello");
    let b = contributor_key("octocat", "world");
    assert_ne!(a, b);
    assert_eq!(a, contributor_key("octocat", "hello"));
}

#[test]
fn hex_formatting_matches_std() {
    for n in [0u64, 9, 10, 15, 16, 255, 4096, 0xdead_beef, u64::MAX] {
        assert_eq!(format_u64_hex(n), format!("{:x}", n));
    }
}

#[test]
fn next_page_link_finds_the_next_relation() {
    let header = "<https://api.github.com/repositories/1/contributors?page=2>; rel=\"next\", <https://api.github.com/repositories/1/contributors?page=5>; rel=\"last\"";
    let link = next_page_link(header).unwrap();
    assert_eq!(link, "https://api.github.com/repositories/1/contributors?page=2");
}

#[test]
fn next_page_link_absent_on_last_page() {
    let header = "<https://api.github.com/repositories/1/contributors?page=1>; rel=\"prev\", <https://api.github.com/repositories/1/contributors?page=1>; rel=\"first\"";
    assert!(next_page_link(header).is_none());
}

#[test]
fn pages_needed_rounds_up() {
    assert_eq!(pages_needed(0), 0);
    assert_eq!(pages_needed(1), 1);
    assert_eq!(pages_needed(30), 1);
    assert_eq!(pages_needed(31), 2);
    assert_eq!(pages_needed(90), 3);
}

#[test]
fn readme_decodes_base64_content() {
    // the GitHub readme endpoint returns base64 with embedded newlines.
    let encoded = base64::encode("# Title\nBody text");
    let wrapped = format!("{}\n{}", &encoded[..4], &encoded[4..]);
    let out = decode_readme_content(&wrapped).unwrap();
    assert_eq!(out, "Readme: # Title\nBody text");
}

#[test]
fn readme_rejects_malformed_base64() {
    assert!(decode_readme_content("!!!not-base64!!!").is_none());
}

#[test]
fn register_contributor_adds_only_new_names() {
    let (added, set) = register_contributor(vec!["alice".to_string()], "bob".to_string());
    assert!(added);
    assert_eq!(set, vec!["alice".to_string(), "bob".to_string()]);
    let (added_again, set2) = register_contributor(set, "bob".to_string());
    assert!(!added_again);
    assert_eq!(set2, vec!["alice".to_string(), "bob".to_string()]);
}

#[test]
fn contains_name_checks_membership() {
    let names = vec!["alice".to_string(), "bob".to_string()];
    assert!(contains_name(&names, &"bob".to_string()));
    assert!(!contains_name(&names, &"carol".to_string()));
}

#[test]
fn commit_to_record_filters_by_date() {
    let cutoff = Date { year: 2023, month: 8, day: 1 };
    let newer = Date { year: 2023, month: 8, day: 5 };
    let older = Date { year: 2023, month: 7, day: 20 };
    let gm = commit_to_record(
        "alice".to_string(),
        "fix parser".to_string(),
        "https://github.com/a/b/commit/abc123".to_string(),
        newer,
        cutoff,
    )
    .unwrap();
    assert_eq!(gm.name, "alice");
    assert_eq!(gm.tag_line, "fix parser");
    assert_eq!(gm.payload, "");
    assert!(
        commit_to_record(
            "alice".to_string(),
            "old change".to_string(),
            "u".to_string(),
            older,
            cutoff,
        )
        .is_none()
    );
}

#[test]
fn sha_serial_takes_five_chars_after_last_slash() {
    assert_eq!(sha_serial("https://github.com/a/b/commit/abcdef012345"), "abcde");
    assert_eq!(sha_serial("abc"), "abc");
    assert_eq!(sha_serial("x/y/"), "");
}

#[test]
fn clip_head_tail_keeps_short_texts() {
    assert_eq!(clip_head_tail("short", 180, 100, 80), "short");
}

#[test]
fn clip_head_tail_clips_long_texts() {
    let long: String = ('a'..='z').cycle().take(300).collect();
    let out = clip_head_tail(&long, 180, 100, 80);
    assert_eq!(out.len(), 180);
    assert_eq!(&out[..100], &long[..100]);
    assert_eq!(&out[100..], &long[220..]);
}
