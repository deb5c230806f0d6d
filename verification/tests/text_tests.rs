use wire_substrate::cross_graph::canonical_job_ref;
use wire_substrate::text::{
    split_words, trim, trim_char, trim_for_report, trim_report, trim_trailing_slashes,
};

#[test]
fn trimming_follows_unicode_white_space() {
    assert_eq!(trim("  a b \t\n"), "a b");
    assert_eq!(trim("\u{3000}x\u{2003}"), "x");
    assert_eq!(trim(""), "");
    assert_eq!(trim_char("--a-b--", '-'), "a-b");
    assert_eq!(trim_trailing_slashes("https://x///"), "https://x");
}

#[test]
fn words_split_on_white_space() {
    assert_eq!(split_words("  GET  /x\tHTTP/1.1 "), vec!["GET", "/x", "HTTP/1.1"]);
    assert!(split_words(" \n ").is_empty());
}

#[test]
fn report_text_is_flattened_and_cut() {
    assert_eq!(trim_for_report("a\nb", 10), "a b");
    assert_eq!(trim_for_report("abcdef", 3), "abc...");
}

#[test]
fn refused_job_refs_are_quoted_in_the_message() {
    assert_eq!(
        canonical_job_ref("bad \"ref\""),
        Err("job_ref=\"bad \\\"ref\\\"\" is not a canonical cross-graph ref".to_owned())
    );
    assert_eq!(
        canonical_job_ref("playful/123/compute/1"),
        Ok("playful/123/compute/1".to_owned())
    );
}

#[test]
fn report_excerpts_cut_after_300_bytes() {
    assert_eq!(trim_report("  short body \n"), "short body");
    let long = format!("  {}  ", "x".repeat(301));
    let cut = trim_report(&long);
    assert_eq!(cut.len(), 303);
    assert!(cut.ends_with("x..."));
    let exact = "y".repeat(300);
    assert_eq!(trim_report(&exact), exact);
    let wide = format!("{}é{}", "a".repeat(298), "b".repeat(10));
    assert_eq!(trim_report(&wide), format!("{}é...", "a".repeat(298)));
}
