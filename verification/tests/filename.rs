use rget::decimal::decimal_string;
use rget::filename::{extract_filename, fallback_filename, file_stem, resolve_filename};

fn seconds_now() -> u64 {
    std::time::SystemTime::now()
        .duration_since(std::time::UNIX_EPOCH)
        .map(|elapsed| elapsed.as_secs())
        .unwrap_or(0)
}

fn is_fallback(name: &str) -> bool {
    match name.strip_prefix("download_") {
        Some(digits) => !digits.is_empty() && digits.chars().all(|c| c.is_ascii_digit()),
        None => false,
    }
}

#[test]
fn last_segment_before_query_is_the_name() {
    assert_eq!(extract_filename("https://example.com/a/b/file.zip?x=1"), "file.zip");
}

#[test]
fn last_segment_without_query_is_the_name() {
    assert_eq!(extract_filename("https://example.com/a/b/file.zip"), "file.zip");
    assert_eq!(extract_filename("http://host/x"), "x");
    assert_eq!(extract_filename("/archive.tar.gz"), "archive.tar.gz");
}

#[test]
fn only_the_first_question_mark_cuts() {
    assert_eq!(extract_filename("https://example.com/file.zip?a=1?b=2"), "file.zip");
    assert_eq!(extract_filename("https://example.com/dir/file?next=/other/name"), "file");
}

#[test]
fn slash_inside_the_query_is_not_a_separator() {
    assert_eq!(extract_filename("https://example.com/a?b=/"), "a");
}

#[test]
fn host_is_the_name_when_nothing_follows_it() {
    assert_eq!(extract_filename("https://example.com"), "example.com");
    assert_eq!(extract_filename("https://example.com?x=1"), "example.com");
}

#[test]
fn nothing_is_decoded_or_trimmed() {
    assert_eq!(extract_filename("https://example.com/a%20b.txt"), "a%20b.txt");
    assert_eq!(extract_filename("https://example.com/name.txt "), "name.txt ");
    assert_eq!(extract_filename("https://example.com/a#frag"), "a#frag");
}

#[test]
fn names_beyond_ascii_are_kept() {
    assert_eq!(extract_filename("https://example.com/päth/файл.txt?x=ы"), "файл.txt");
    assert_eq!(extract_filename("https://例え.jp/資料/報告書.pdf"), "報告書.pdf");
}

#[test]
fn trailing_slash_gives_the_fallback() {
    let name = extract_filename("https://example.com/");
    assert!(is_fallback(&name), "{name}");
}

#[test]
fn trailing_slash_before_query_gives_the_fallback() {
    assert!(is_fallback(&extract_filename("https://example.com/dir/?x=1")));
    assert_eq!(resolve_filename("https://example.com/dir/?x=1", 5), "download_5");
}

#[test]
fn url_without_slash_gives_the_fallback() {
    assert!(is_fallback(&extract_filename("file.zip")));
    assert_eq!(resolve_filename("file.zip", 1700000000), "download_1700000000");
    assert_eq!(resolve_filename("file.zip?x=/y", 3), "download_3");
}

#[test]
fn empty_remainder_gives_the_fallback() {
    assert!(is_fallback(&extract_filename("")));
    assert!(is_fallback(&extract_filename("?x=1")));
    assert_eq!(resolve_filename("", 42), "download_42");
    assert_eq!(resolve_filename("?", 42), "download_42");
}

#[test]
fn fallback_holds_the_seconds_of_the_clock() {
    let before: u64 = seconds_now();
    let name = extract_filename("https://example.com/");
    let after: u64 = seconds_now();
    let digits = name.strip_prefix("download_").expect("prefix");
    let secs: u64 = digits.parse().expect("digits");
    assert!(before <= secs && secs <= after, "{before} <= {secs} <= {after}");
    assert!(secs > 1_000_000_000);
}

#[test]
fn resolver_is_exact_for_given_seconds() {
    assert_eq!(resolve_filename("https://example.com/", 0), "download_0");
    assert_eq!(resolve_filename("https://example.com/", 1700000000), "download_1700000000");
    assert_eq!(
        resolve_filename("https://example.com/", u64::MAX),
        "download_18446744073709551615"
    );
    assert_eq!(resolve_filename("https://example.com/a/b/file.zip?x=1", 99), "file.zip");
}

#[test]
fn same_url_same_second_same_name() {
    let url = "https://example.com/";
    assert_eq!(resolve_filename(url, 1234567), resolve_filename(url, 1234567));
    assert_ne!(resolve_filename(url, 1234567), resolve_filename(url, 1234568));
    let named = "https://example.com/file.bin";
    assert_eq!(extract_filename(named), extract_filename(named));
    assert_eq!(resolve_filename(named, 1), resolve_filename(named, 2));
}

#[test]
fn two_fallbacks_in_a_row_agree_unless_the_second_turned() {
    let before: u64 = seconds_now();
    let first = extract_filename("https://example.com/");
    let second = extract_filename("https://example.com/");
    let after: u64 = seconds_now();
    if before == after {
        assert_eq!(first, second);
    }
}

#[test]
fn resolved_name_is_never_empty() {
    for url in ["", "/", "//", "?", "a", "a/", "a/b", "https://example.com/x?y", "?/"] {
        assert!(!extract_filename(url).is_empty(), "{url}");
        assert!(!resolve_filename(url, 0).is_empty(), "{url}");
    }
}

#[test]
fn stem_is_the_segment_or_empty() {
    assert_eq!(file_stem("https://example.com/a/b/file.zip?x=1"), "file.zip");
    assert_eq!(file_stem("https://example.com/"), "");
    assert_eq!(file_stem("no-slash"), "");
    assert_eq!(file_stem(""), "");
    assert_eq!(file_stem("a/b/"), "");
    assert_eq!(file_stem("a/b/?c/d"), "");
    assert_eq!(file_stem("a//b"), "b");
}

#[test]
fn fallback_name_is_prefix_and_decimal() {
    assert_eq!(fallback_filename(0), "download_0");
    assert_eq!(fallback_filename(7), "download_7");
    assert_eq!(fallback_filename(10), "download_10");
    assert_eq!(fallback_filename(1700000000), "download_1700000000");
}

#[test]
fn decimal_notation_of_numbers() {
    assert_eq!(decimal_string(0), "0");
    assert_eq!(decimal_string(9), "9");
    assert_eq!(decimal_string(10), "10");
    assert_eq!(decimal_string(404), "404");
    assert_eq!(decimal_string(1000000), "1000000");
    assert_eq!(decimal_string(u64::MAX), "18446744073709551615");
    let mut n: u64 = 1;
    while n < u64::MAX / 7 {
        assert_eq!(decimal_string(n), n.to_string());
        n = n * 7 + 3;
    }
}
