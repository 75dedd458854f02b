use student_check::cli::{parse_args, ARG_COUNT};
use student_check::input::parse_csv_file;
use student_check::outcome::{first_user_id, render_lines, result_files, verify_students, OutputSets};
use student_check::query::username_query;
use student_check::text::{is_whitespace, strip_whitespace, trimmed};

fn strings(v: &[&str]) -> Vec<String> {
    v.iter().map(|s| s.to_string()).collect()
}

fn answer(name: &str) -> Option<u64> {
    match name {
        "alice" => Some(17),
        "carol" => Some(42),
        _ => None,
    }
}

fn run(contents: &str) -> (String, String) {
    let results: Vec<(String, Option<u64>)> = parse_csv_file(contents)
        .into_iter()
        .map(|s| {
            let id = answer(&s);
            (s, id)
        })
        .collect();
    result_files(&results)
}

#[test]
fn scenario_alice_bob_carol() {
    let (found, not_found) = run("alice\nbob\ncarol");
    assert_eq!(found, "alice\ncarol\n");
    assert_eq!(not_found, "bob\n");
}

#[test]
fn token_whitespace_removed_everywhere() {
    assert_eq!(strip_whitespace("  abc\n123  "), "abc123");
}

#[test]
fn token_keeps_other_characters() {
    assert_eq!(strip_whitespace("a\tb\r\nc\u{a0}d\u{3000}e"), "abcde");
    assert_eq!(strip_whitespace(""), "");
    assert_eq!(strip_whitespace(" \n\t "), "");
    let t = strip_whitespace("x y\u{2028}z!");
    assert!(!t.chars().any(|c| c.is_whitespace()));
    assert_eq!(t, "xyz!");
}

#[test]
fn first_record_id_is_used() {
    assert_eq!(first_user_id(&vec![7, 3, 9]), Some(7));
    assert_eq!(first_user_id(&vec![5]), Some(5));
    assert_eq!(first_user_id(&vec![]), None);
}

#[test]
fn identifiers_trimmed_in_order() {
    let ids = parse_csv_file("  alice \r\nbob\n\tcarol\t\n");
    assert_eq!(ids, strings(&["alice", "bob", "carol"]));
}

#[test]
fn blank_lines_give_no_identifier() {
    let ids = parse_csv_file("\n  \nalice\n\n \t\nbob\n\n");
    assert_eq!(ids, strings(&["alice", "bob"]));
    assert_eq!(parse_csv_file(""), Vec::<String>::new());
    assert_eq!(parse_csv_file("\n\n"), Vec::<String>::new());
}

#[test]
fn inner_spaces_of_a_line_are_kept() {
    assert_eq!(parse_csv_file(" a b \nc"), strings(&["a b", "c"]));
}

#[test]
fn duplicate_identifiers_kept() {
    let ids = parse_csv_file("alice\nalice\nbob\nalice");
    assert_eq!(ids, strings(&["alice", "alice", "bob", "alice"]));
    let (found, not_found) = run("alice\nalice\nbob\nalice");
    assert_eq!(found, "alice\nalice\nalice\n");
    assert_eq!(not_found, "bob\n");
}

#[test]
fn every_identifier_lands_in_one_list() {
    let results = vec![
        ("a".to_string(), Some(1)),
        ("b".to_string(), None),
        ("c".to_string(), None),
        ("d".to_string(), Some(4)),
        ("e".to_string(), Some(5)),
    ];
    let sets = verify_students(&results);
    assert_eq!(sets.found.len() + sets.not_found.len(), results.len());
    assert_eq!(sets.found, strings(&["a", "d", "e"]));
    assert_eq!(sets.not_found, strings(&["b", "c"]));
}

#[test]
fn empty_results_give_empty_files() {
    let sets = verify_students(&vec![]);
    assert!(sets.found.is_empty());
    assert!(sets.not_found.is_empty());
    assert_eq!(render_lines(&sets.found), "");
}

#[test]
fn rerun_gives_identical_files() {
    let first = run("carol\nbob\nalice\ndave\n");
    let second = run("carol\nbob\nalice\ndave\n");
    assert_eq!(first, second);
    assert_eq!(first.0, "carol\nalice\n");
    assert_eq!(first.1, "bob\ndave\n");
}

#[test]
fn record_appends_to_one_list() {
    let mut sets = OutputSets::new();
    sets.record("x".to_string(), Some(3));
    sets.record("y".to_string(), None);
    sets.record("z".to_string(), Some(0));
    assert_eq!(sets.found, strings(&["x", "z"]));
    assert_eq!(sets.not_found, strings(&["y"]));
}

#[test]
fn render_one_name_per_line() {
    assert_eq!(render_lines(&strings(&["bob"])), "bob\n");
    assert_eq!(render_lines(&strings(&["a", "b c", "d"])), "a\nb c\nd\n");
}

#[test]
fn wrong_argument_count_asks_for_usage() {
    assert!(parse_args(&strings(&["prog"])).is_none());
    assert!(parse_args(&strings(&["prog", "students.csv", "token.git"])).is_none());
    assert!(parse_args(&strings(&["p", "a", "b", "c", "d", "e", "f"])).is_none());
    assert_eq!(ARG_COUNT, 6);
}

#[test]
fn five_arguments_name_the_files() {
    let inv = parse_args(&strings(&["prog", "x", "y", "z", "students.csv", "token.git"])).unwrap();
    assert_eq!(inv.identifiers_file, "students.csv");
    assert_eq!(inv.token_file, "token.git");
}

#[test]
fn whitespace_matches_std() {
    for c in ['\t', '\n', '\u{b}', '\u{c}', '\r', ' ', '\u{85}', '\u{a0}', '\u{1680}', '\u{2000}', '\u{200a}', '\u{2028}', '\u{2029}', '\u{202f}', '\u{205f}', '\u{3000}'] {
        assert!(is_whitespace(c));
    }
    for c in ['a', '0', '_', '\u{0}', '\u{200b}', '\u{feff}', '\u{180e}', 'é'] {
        assert!(!is_whitespace(c));
    }
    for u in 0u32..0x3100 {
        if let Some(c) = char::from_u32(u) {
            assert_eq!(is_whitespace(c), c.is_whitespace());
        }
    }
}

#[test]
fn trimmed_removes_both_ends() {
    let v: Vec<char> = " \t x y \r".chars().collect();
    assert_eq!(trimmed(&v), "x y");
    assert_eq!(trimmed(&vec![' ', ' ']), "");
    assert_eq!(trimmed(&vec![]), "");
}

#[test]
fn query_filters_by_the_username() {
    let q = username_query("alice");
    let shown = format!("{:?}", q);
    assert!(shown.contains("username: Some(\"alice\")"));
    assert!(shown.contains("search: None"));
    let other = format!("{:?}", username_query("bob"));
    assert!(other.contains("username: Some(\"bob\")"));
    assert_ne!(shown, other);
}

#[test]
fn result_files_match_sorted_lists() {
    let results = vec![("a".to_string(), None), ("b".to_string(), Some(2))];
    let sets = verify_students(&results);
    let (found, not_found) = result_files(&results);
    assert_eq!(found, render_lines(&sets.found));
    assert_eq!(not_found, render_lines(&sets.not_found));
    assert_eq!(found, "b\n");
    assert_eq!(not_found, "a\n");
}
