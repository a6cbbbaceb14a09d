use tap_setup::steps::{AddFormulaStep, CommitAndPushStep, ValidateTapStep};

#[test]
fn class_names_capitalize_each_word() {
    assert_eq!(AddFormulaStep::formula_class_name("my-cool_tap"), "MyCoolTap");
    assert_eq!(AddFormulaStep::formula_class_name("tools"), "Tools");
    assert_eq!(AddFormulaStep::formula_class_name("--a__b-"), "AB");
    assert_eq!(AddFormulaStep::formula_class_name("x2-9z"), "X29z");
    assert_eq!(AddFormulaStep::formula_class_name(""), "");
}

#[test]
fn stub_formula_names_its_class() {
    let text = AddFormulaStep::stub_formula("Tools");
    assert!(text.starts_with("class Tools < Formula\n  desc \""));
    assert!(text.contains("  license \"MIT\"\n"));
    assert!(text.ends_with("  end\nend\n"));
}

#[test]
fn names_derive_from_urls() {
    let d = |u: &str| AddFormulaStep::derive_name_from_url(u);
    assert_eq!(d("https://example.com/foo-1.2.3.tar.gz").as_deref(), Some("foo"));
    assert_eq!(d("https://x.org/dl/bar.zip?x=1#frag").as_deref(), Some("bar"));
    assert_eq!(d("https://x.org/tool-v2.tgz").as_deref(), Some("tool"));
    assert_eq!(d("https://x.org/my-tool.tar.xz").as_deref(), Some("my-tool"));
    assert_eq!(d("https://x.org/pkg.tar.bz2#a?b").as_deref(), Some("pkg"));
    assert_eq!(d("plain"), Some("plain".to_string()));
    assert_eq!(d("https://x.org/"), None);
    assert_eq!(d("https://x.org/-1.0.zip"), None);
}

#[test]
fn short_status_head_lines_parse() {
    let b = CommitAndPushStep::branch_status("## main...origin/main [ahead 2, behind 1]\n M x\n");
    assert_eq!((b.branch.as_str(), b.has_upstream, b.ahead, b.behind), ("main", true, 2, 1));
    let b = CommitAndPushStep::branch_status("## dev...origin/dev [behind 7]\n");
    assert_eq!((b.branch.as_str(), b.has_upstream, b.ahead, b.behind), ("dev", true, 0, 7));
    let b = CommitAndPushStep::branch_status("## main...origin/main\n");
    assert_eq!((b.branch.as_str(), b.has_upstream, b.ahead, b.behind), ("main", true, 0, 0));
    let b = CommitAndPushStep::branch_status("## main\n?? new\n");
    assert_eq!((b.branch.as_str(), b.has_upstream, b.ahead, b.behind), ("main", false, 0, 0));
    let b = CommitAndPushStep::branch_status("## x...y [ahead many]\n");
    assert_eq!((b.ahead, b.behind), (0, 0));
    let b = CommitAndPushStep::branch_status("");
    assert_eq!((b.branch.as_str(), b.has_upstream), ("", false));
}

#[test]
fn tap_lists_are_searched_line_by_line() {
    let list = "homebrew/core\n  acme/tools  \nother/x\n";
    assert!(ValidateTapStep::is_listed(list, "acme/tools"));
    assert!(!ValidateTapStep::is_listed(list, "acme/tool"));
    assert!(!ValidateTapStep::is_listed("", "acme/tools"));
}
