use rsr::instance::{temp_file_name, ContentAction, RSRInstance, RewriteAction, RewriteEvent};
use rsr::pattern::Pattern;
use rsr::replacer::StringReplacer;
use rsr::text::trimmed;

fn pattern(src: &str) -> Pattern {
    match Pattern::new(src) {
        Ok(p) => p,
        Err(e) => panic!("pattern {} refused: {}", src, e.message),
    }
}

fn replacer(search: Option<&str>, replace: Option<&str>) -> StringReplacer {
    StringReplacer::new(search.map(pattern), replace.map(String::from))
}

fn instance(
    input: Option<&str>,
    output: Option<&str>,
    search: Option<&str>,
    replace: Option<&str>,
    prompt: bool,
) -> RSRInstance {
    RSRInstance::new(replacer(input, output), replacer(search, replace), prompt, false)
}

fn lines(v: &[&str]) -> Vec<String> {
    v.iter().map(|s| s.to_string()).collect()
}

#[test]
fn no_search_matches_everything_and_keeps_text() {
    let m = replacer(None, None);
    assert!(!m.has_search());
    assert!(!m.has_replace());
    for t in ["", "abc", "line with spaces\n"] {
        assert!(m.matches(t));
        assert_eq!(m.do_replace(t), t);
    }
}

#[test]
fn search_without_template_keeps_text() {
    let m = replacer(Some("foo"), None);
    assert!(m.has_search());
    assert!(!m.has_replace());
    assert!(m.matches("a foo b"));
    assert!(!m.matches("bar"));
    assert_eq!(m.do_replace("a foo b"), "a foo b");
    assert_eq!(m.do_replace("bar"), "bar");
}

#[test]
fn template_without_search_matches_everything() {
    let m = replacer(None, Some("X"));
    assert!(m.has_search());
    assert!(m.has_replace());
    assert!(m.matches("abc"));
    assert!(m.matches("x"));
    assert!(m.matches(""));
}

#[test]
fn replace_all_replaces_every_match() {
    let m = replacer(Some("o"), Some("0"));
    assert_eq!(m.do_replace("foo boo"), "f00 b00");
    assert_eq!(m.do_replace("xyz"), "xyz");
}

#[test]
fn replace_expands_capture_groups() {
    let m = replacer(Some(r"(\w+) (\w+)"), Some("$2 $1"));
    assert_eq!(m.do_replace("foo bar"), "bar foo");
    let named = replacer(Some(r"(?P<word>b\w+)"), Some("[${word}]"));
    assert_eq!(named.do_replace("foo bar"), "foo [bar]");
}

#[test]
fn invalid_pattern_is_refused() {
    match Pattern::new("foo(bar") {
        Ok(_) => panic!("an unclosed group compiled"),
        Err(e) => assert!(!e.message.is_empty()),
    }
    assert_eq!(pattern("a+b").as_str(), "a+b");
    assert!(pattern("a+b").is_match("xaab"));
}

#[test]
fn rewrite_reaches_a_fixed_point() {
    let m = replacer(Some("foo"), Some("bar"));
    let input = lines(&["foo foo\n", "nothing\n", "a foo"]);
    let once = m.rewrite_lines(&input);
    assert_eq!(once, lines(&["bar bar\n", "nothing\n", "a bar"]));
    let twice = m.rewrite_lines(&once);
    assert_eq!(twice, once);
}

#[test]
fn failures_discard_the_temporary_file() {
    let inst = instance(None, None, Some("foo"), Some("bar"), false);
    assert!(matches!(inst.rewrite_step(3, RewriteEvent::WriteFailed), RewriteAction::Discard));
    assert!(matches!(inst.rewrite_step(1, RewriteEvent::ReadFailed), RewriteAction::Discard));
    assert!(matches!(inst.rewrite_step(4, RewriteEvent::EndOfInput), RewriteAction::Commit));
}

#[test]
fn rewrite_step_writes_replacement_without_prompt() {
    let inst = instance(None, None, Some("foo"), Some("baz"), false);
    match inst.rewrite_step(1, RewriteEvent::LineRead("foo bar\n".to_string())) {
        RewriteAction::Write(s) => assert_eq!(s, "baz bar\n"),
        _ => panic!("expected a write"),
    }
    match inst.rewrite_step(2, RewriteEvent::LineRead("plain\n".to_string())) {
        RewriteAction::Write(s) => assert_eq!(s, "plain\n"),
        _ => panic!("expected a write"),
    }
}

#[test]
fn rewrite_step_asks_with_prompt() {
    let inst = instance(None, None, Some("foo"), Some("baz"), true);
    match inst.rewrite_step(7, RewriteEvent::LineRead("foo bar\n".to_string())) {
        RewriteAction::Confirm { line_number, original, replacement } => {
            assert_eq!(line_number, 7);
            assert_eq!(original, "foo bar\n");
            assert_eq!(replacement, "baz bar\n");
            assert_eq!(
                RewriteAction::answered_line(original.clone(), replacement.clone(), true),
                "baz bar\n"
            );
            assert_eq!(RewriteAction::answered_line(original, replacement, false), "foo bar\n");
        }
        _ => panic!("expected a question"),
    }
    match inst.rewrite_step(8, RewriteEvent::LineRead("unchanged\n".to_string())) {
        RewriteAction::Write(s) => assert_eq!(s, "unchanged\n"),
        _ => panic!("an unchanged line needs no question"),
    }
}

#[test]
fn renaming_report_to_summary() {
    let inst = instance(Some("report"), Some("summary"), None, None, false);
    let plan = inst.plan_file("report.txt").expect("the name matches");
    assert_eq!(plan.content, ContentAction::Nothing);
    assert_eq!(plan.rename_to, Some("summary.txt".to_string()));
    assert!(!plan.report_name);
    assert!(inst.plan_file("notes.txt").is_none());
}

#[test]
fn renaming_to_the_same_name_is_no_rename() {
    let inst = instance(Some("report"), Some("report"), None, None, false);
    let plan = inst.plan_file("report.txt").expect("the name matches");
    assert_eq!(plan.rename_to, None);
    assert!(plan.report_name);
}

#[test]
fn search_reports_matching_lines_in_order() {
    let inst = instance(None, None, Some("alpha"), None, false);
    let input = lines(&["alpha\n", "beta\n", "alpha again\n"]);
    let hits = inst.search_lines(&input);
    assert_eq!(hits.len(), 2);
    assert_eq!(hits[0].line_number, 1);
    assert_eq!(hits[0].text, "alpha");
    assert_eq!(hits[1].line_number, 3);
    assert_eq!(hits[1].text, "alpha again");
    assert_eq!(input, lines(&["alpha\n", "beta\n", "alpha again\n"]));
    assert!(inst.search_line(2, "beta\n").is_none());
}

#[test]
fn end_to_end_filter_and_rewrite() {
    let inst = instance(Some(r".*\.txt"), None, Some("foo"), Some("baz"), false);
    let a = inst.plan_file("a.txt").expect("a.txt is taken");
    assert_eq!(a.content, ContentAction::Rewrite);
    assert_eq!(a.rename_to, None);
    assert!(!a.report_name);
    assert!(inst.plan_file("b.log").is_none());
    let rewritten = inst.text_replacer.rewrite_lines(&lines(&["foo bar"]));
    assert_eq!(rewritten, lines(&["baz bar"]));
}

#[test]
fn content_action_follows_the_content_matcher() {
    let search = instance(None, None, Some("x"), None, false);
    assert_eq!(search.plan_file("f").expect("taken").content, ContentAction::Search);
    let nothing = instance(None, None, None, None, false);
    let plan = nothing.plan_file("f").expect("taken");
    assert_eq!(plan.content, ContentAction::Nothing);
    assert!(plan.report_name);
}

#[test]
fn temporary_file_name_has_suffix() {
    assert_eq!(temp_file_name("a.txt"), "a.txt.rsr_tmp");
    assert_eq!(temp_file_name(""), ".rsr_tmp");
}

#[test]
fn trimming_drops_outer_white_space() {
    assert_eq!(trimmed("  alpha again \n"), "alpha again");
    assert_eq!(trimmed("\t\n"), "");
}
