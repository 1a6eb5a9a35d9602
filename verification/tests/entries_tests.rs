use activity_report::entries::{UserFields, format_user_entry, format_user_profile,
    format_repo_line, format_issue_entry, format_repo_search_entry, community_description,
    stars_order};
use activity_report::records::Date;
use activity_report::reports::{repo_name, about_message, addressee, placeholder_message,
    exploring_message, found_items_message, discussions_message, not_contributor_message,
    store_key_or_default, assemble_report};

fn sample_fields() -> UserFields {
    UserFields {
        name: Some("Alice A".to_string()),
        login: Some("alice".to_string()),
        url: Some("https://github.com/alice".to_string()),
        twitter: None,
        bio: Some("systems tinkerer".to_string()),
        company: None,
        location: Some("Berlin".to_string()),
        created_at: Some(Date { year: 2015, month: 3, day: 9 }),
        email: None,
    }
}

#[test]
fn user_entry_labels_present_fields() {
    let line = format_user_entry(&sample_fields());
    assert_eq!(
        line,
        "Name: Alice A, Login: alice, Url: https://github.com/alice,  Bio: systems tinkerer,  Location: Berlin, Created At: 2015-03-09, \n",
    );
}

#[test]
fn user_entry_drops_empty_bio() {
    let mut f = sample_fields();
    f.bio = Some(String::new());
    let line = format_user_entry(&f);
    assert!(!line.contains("Bio:"));
}

#[test]
fn user_profile_requires_a_login() {
    let mut f = sample_fields();
    let p = format_user_profile(&f).unwrap();
    assert!(p.starts_with("USER_profile: \n"));
    assert!(p.contains("Login: alice,"));
    f.login = None;
    assert!(format_user_profile(&f).is_none());
}

#[test]
fn repo_line_hides_zero_stars() {
    let with_stars = format_repo_line("proj", &Some("a tool".to_string()), 7, 123);
    assert_eq!(with_stars, "Repo: proj Description: a tool, Stars: 7 Commits: 123\n");
    let no_stars = format_repo_line("proj", &None, 0, 5);
    assert_eq!(no_stars, "Repo: proj   Commits: 5\n");
}

#[test]
fn issue_entry_clips_long_bodies() {
    let body: String = ('a'..='z').cycle().take(300).collect();
    let line = format_issue_entry(
        &Some("T".to_string()),
        &Some("https://u".to_string()),
        &Date { year: 2023, month: 8, day: 7 },
        &Some("alice".to_string()),
        &vec!["bob".to_string(), "carol".to_string()],
        &Some("OPEN".to_string()),
        &Some(body.clone()),
        &Some("MEMBER".to_string()),
    );
    assert!(line.contains("Title: T,"));
    assert!(line.contains("Assignees: bob, carol,"));
    assert!(line.contains(&body[..100]));
    assert!(line.contains(&body[220..]));
    assert!(!line.contains(&body[..120]));
    assert!(line.ends_with("Author Association: MEMBER\n"));
}

#[test]
fn repo_search_entry_shape() {
    let line = format_repo_search_entry(
        &Some("proj".to_string()),
        &Some("a small tool".to_string()),
        &Some("https://github.com/o/proj".to_string()),
        &Date { year: 2020, month: 1, day: 2 },
        &Some(12),
        &Some(3),
    );
    assert_eq!(
        line,
        "Name: proj, Description: a small tool, Url: https://github.com/o/proj Created At: 2020-01-02 Stars: 12, Forks: 3\n",
    );
}

#[test]
fn repo_search_entry_clips_long_description() {
    let desc: String = ('a'..='z').cycle().take(400).collect();
    let line = format_repo_search_entry(
        &Some("p".to_string()),
        &Some(desc.clone()),
        &None,
        &Date { year: 2020, month: 1, day: 2 },
        &None,
        &None,
    );
    assert!(line.contains(&desc[..180]));
    assert!(line.contains(&desc[280..]));
    assert!(!line.contains(&desc[..200]));
}

#[test]
fn stars_order_sorts_descending() {
    let stars = vec![5u64, 40, 0, 40, 7];
    let order = stars_order(&stars);
    let sorted: Vec<u64> = order.iter().map(|&i| stars[i]).collect();
    assert_eq!(sorted, vec![40, 40, 7, 5, 0]);
    let mut seen = order.clone();
    seen.sort();
    assert_eq!(seen, vec![0, 1, 2, 3, 4]);
}

#[test]
fn community_description_shape() {
    assert_eq!(community_description("great docs"), "Description: great docs");
}

#[test]
fn report_messages() {
    assert_eq!(repo_name("o", "r"), "o/r");
    assert_eq!(about_message("o", "r", "it does things"), "About o/r: it does things");
    assert_eq!(addressee(&Some("alice".to_string())), "alice's");
    assert_eq!(addressee(&None), "key community participants'");
    assert_eq!(placeholder_message(&None), "No useful data found, nothing to report");
    assert_eq!(
        placeholder_message(&Some("al".to_string())),
        "No useful data found for al, you may try `/search` to find out more about al",
    );
    assert_eq!(
        exploring_message("alice's", "o", "r"),
        "exploring alice's GitHub contributions to `o/r` project",
    );
    assert_eq!(
        not_contributor_message("al", "o", "r"),
        "al hasn't contributed code to o/r. Bot will try to find out al's other contributions.",
    );
    assert_eq!(store_key_or_default(None), "contributors");
    assert_eq!(store_key_or_default(Some("custom".to_string())), "custom");
}

#[test]
fn progress_lists_join_references() {
    let refs = vec!["https://a".to_string(), "https://b".to_string()];
    assert_eq!(
        found_items_message("commits", 2, &refs),
        "found 2 commits:\nhttps://a\nhttps://b",
    );
    assert_eq!(
        discussions_message(2, &refs),
        "2 discussions were referenced in analysis:\n https://a\nhttps://b",
    );
    assert_eq!(
        assemble_report(&vec!["part one".to_string(), "part two".to_string()]),
        "part one\npart two",
    );
}
