use note_store::scanner::{collect_matches, find_from, scan_entries, stands_at};
use note_store::{ContentRange, MediaEntry, MediaMatch, ScanResult};

fn entry(name: &str, path: &str) -> MediaEntry {
    MediaEntry { file_name: Some(name.to_string()), path: Some(path.to_string()) }
}

fn found(path: &str, position: usize, length: usize) -> MediaMatch {
    MediaMatch { filename: path.to_string(), position, length }
}

fn offsets(haystack: &[u8], needle: &[u8]) -> Vec<usize> {
    let mut matches: Vec<MediaMatch> = Vec::new();
    collect_matches(haystack, needle, &String::from("p"), &mut matches);
    matches.iter().map(|m| m.position).collect()
}

#[test]
fn scan_ignores_case_of_text_and_name() {
    let content = "Cat.PNG is cute, cat.png again";
    let result = scan_entries(content, &vec![entry("cat.png", "/r/media/cat.png")]);
    assert_eq!(
        result,
        ScanResult {
            matches: vec![found("/r/media/cat.png", 0, 7), found("/r/media/cat.png", 17, 7)],
            scanned_range: ContentRange { start: 0, end: 30 },
        }
    );
    assert_eq!(&content[17..24], "cat.png");
}

#[test]
fn scan_lowers_the_name_too() {
    let result = scan_entries("see cat.png", &vec![entry("CAT.Png", "/m/CAT.Png")]);
    assert_eq!(result.matches, vec![found("/m/CAT.Png", 4, 7)]);
}

#[test]
fn scan_reports_overlapping_matches() {
    let result = scan_entries("aaaa", &vec![entry("aa", "/r/media/aa")]);
    let positions: Vec<usize> = result.matches.iter().map(|m| m.position).collect();
    assert_eq!(positions, vec![0, 1, 2]);
    assert!(result.matches.iter().all(|m| m.length == 2 && m.filename == "/r/media/aa"));
    assert_eq!(result.scanned_range, ContentRange { start: 0, end: 4 });
}

#[test]
fn overlapping_occurrences_are_all_found() {
    assert_eq!(offsets(b"aaaa", b"aa"), vec![0, 1, 2]);
    assert_eq!(offsets(b"aaa", b"aa"), vec![0, 1]);
    assert_eq!(offsets(b"abababa", b"aba"), vec![0, 2, 4]);
}

#[test]
fn name_matches_inside_a_longer_name() {
    let result = scan_entries("banana.png", &vec![entry("a.png", "/m/a.png")]);
    assert_eq!(result.matches, vec![found("/m/a.png", 5, 5)]);
}

#[test]
fn scan_without_occurrence_finds_nothing() {
    let result = scan_entries("no media here", &vec![entry("cat.png", "/m/cat.png")]);
    assert_eq!(result.matches, Vec::<MediaMatch>::new());
    assert_eq!(result.scanned_range, ContentRange { start: 0, end: 13 });
}

#[test]
fn scan_of_empty_listing_covers_the_whole_text() {
    let result = scan_entries("héllo", &Vec::new());
    assert_eq!(result.matches, Vec::<MediaMatch>::new());
    assert_eq!(result.scanned_range, ContentRange { start: 0, end: 6 });
}

#[test]
fn matches_are_grouped_by_file_in_listing_order() {
    let listing = vec![entry("b.png", "/m/b.png"), entry("a.png", "/m/a.png")];
    let result = scan_entries("a.png b.png a.png", &listing);
    assert_eq!(
        result.matches,
        vec![found("/m/b.png", 6, 5), found("/m/a.png", 0, 5), found("/m/a.png", 12, 5)]
    );
}

#[test]
fn entries_that_are_not_text_are_passed_over() {
    let listing = vec![
        MediaEntry { file_name: None, path: Some("/m/x".to_string()) },
        MediaEntry { file_name: Some("x".to_string()), path: None },
        MediaEntry { file_name: None, path: None },
        entry("y", "/m/y"),
    ];
    let result = scan_entries("x y", &listing);
    assert_eq!(result.matches, vec![found("/m/y", 2, 1)]);
}

#[test]
fn length_is_that_of_the_lowered_name() {
    let name = "\u{130}.png";
    assert_eq!(name.len(), 6);
    let result = scan_entries("i\u{307}.png", &vec![entry(name, "/m/I.png")]);
    assert_eq!(result.matches, vec![found("/m/I.png", 0, 7)]);
    assert_eq!(result.scanned_range, ContentRange { start: 0, end: 7 });
}

#[test]
fn names_of_several_bytes_per_letter_are_found() {
    let result = scan_entries("É.png é.png", &vec![entry("é.png", "/m/é.png")]);
    assert_eq!(result.matches, vec![found("/m/é.png", 0, 6), found("/m/é.png", 7, 6)]);
}

#[test]
fn find_from_gives_the_first_offset_at_or_after_start() {
    assert_eq!(find_from(b"xxabxxab", b"ab", 0), Some(2));
    assert_eq!(find_from(b"xxabxxab", b"ab", 2), Some(2));
    assert_eq!(find_from(b"xxabxxab", b"ab", 3), Some(6));
    assert_eq!(find_from(b"xxabxxab", b"ab", 7), None);
    assert_eq!(find_from(b"xxabxxab", b"ab", 100), None);
    assert_eq!(find_from(b"ab", b"abc", 0), None);
    assert_eq!(find_from(b"", b"a", 0), None);
}

#[test]
fn stands_at_compares_bytes_in_place() {
    assert!(stands_at(b"hello", b"ell", 1));
    assert!(!stands_at(b"hello", b"ell", 0));
    assert!(!stands_at(b"hello", b"lo!", 3));
    assert!(stands_at(b"hello", b"lo", 3));
    assert!(!stands_at(b"hello", b"lo", 4));
    assert!(!stands_at(b"hello", b"o", usize::MAX));
}

#[test]
fn empty_needle_stands_at_every_offset() {
    assert_eq!(offsets(b"abc", b""), vec![0, 1, 2, 3]);
    assert_eq!(offsets(b"", b""), vec![0]);
    assert_eq!(find_from(b"abc", b"", 3), Some(3));
    assert_eq!(find_from(b"abc", b"", 4), None);
}

#[test]
fn collect_matches_appends_to_what_is_there() {
    let mut matches = vec![found("/m/old", 9, 3)];
    collect_matches(b"one two one", b"one", &String::from("/m/one"), &mut matches);
    assert_eq!(matches, vec![found("/m/old", 9, 3), found("/m/one", 0, 3), found("/m/one", 8, 3)]);
}
