use log::LogLevelFilter;
use parity::basic;
use parity::logging::{is_readable, setup_log};

fn some(s: &str) -> Option<String> {
    Some(s.to_string())
}

#[test]
fn info_is_shown_unless_more_is_asked_for() {
    assert_eq!(setup_log(&None, &None).build().filter(), LogLevelFilter::Info);
    assert_eq!(setup_log(&some("debug"), &None).build().filter(), LogLevelFilter::Debug);
    assert_eq!(setup_log(&None, &some("trace")).build().filter(), LogLevelFilter::Trace);
    assert_eq!(setup_log(&some("trace"), &some("debug")).build().filter(), LogLevelFilter::Trace);
    assert_eq!(setup_log(&some("error"), &some("off")).build().filter(), LogLevelFilter::Info);
}

#[test]
fn basic_client_reads_its_directives_too() {
    assert_eq!(basic::setup::setup_log(&None, "").build().filter(), LogLevelFilter::Info);
    assert_eq!(basic::setup::setup_log(&None, "sync=debug").build().filter(), LogLevelFilter::Debug);
    assert_eq!(basic::setup::setup_log(&some("trace"), "").build().filter(), LogLevelFilter::Trace);
}

/// Groups nested in one another, each with two arms of two parts.
fn nested(depth: usize) -> String {
    format!("{}b{}", "(?:x|a".repeat(depth), ")+".repeat(depth))
}

#[test]
fn ordinary_texts_are_readable() {
    let texts = [
        "",
        "info",
        "info,parity=debug",
        "info/f.o",
        "/",
        "/(?:[0-9]{1,3}\\.){3}[0-9]{1,3}",
        "/\\d{4}-\\d{2}-\\d{2} (error|warning)s?: .*?",
        "/(?x) a \\n b # the end",
        "/(?x) \\\\ 1",
        "/(?x)\\101\\102 \\1x 2",
        "/(?x)\\#\n1",
        "/\\1 2",
        "/a{0,5}",
        "/(?:a{0,5}b){3}",
        "/(?:a{0,}b){3}",
        "/(?:a{10}){2}",
        "/a{0}",
        "/(?:a{0})*",
        "/a{0}(b){2}",
        "/(a{0})(b){2}",
        "/(a{0})b{2}",
        "/[({0}](b){2}",
        "/(\\x{0}a){2}",
        "/([{0}]a){2}",
        "/(\\{0\\}a){2}",
        "/(a{0}) {2}",
        "/(?x)(a) {2} b{0}",
        "/(?x:a b)\\1 2",
        "/((?x) a)\\1 2",
        "/(?x)(?- x)\\1 2",
        "/\\(?x\\1 2",
        "/[(?x]\\1 2",
        "/(?-u)[a-z]\\?+",
        "/(?-u)[a-z]\\*?",
        "/(?-u)[|*a]+",
        "/(?-u)[a]??b",
        "/(?-u:a)[b]**",
        "/(?-u)[[:alpha:]**]",
        "/(?P<name>[^]a-]+)|b",
        "/(?-u)[a-z]+?x",
        "/(?i)a*b",
        "/[a-z]**",
        "/*",
        "/)",
    ];
    for text in &texts {
        assert!(is_readable(text), "{}", text);
        setup_log(&None, &some(text));
        basic::setup::setup_log(&some(text), text);
    }
}

#[test]
fn a_second_slash_has_nothing_read() {
    assert!(is_readable("trace/(?x)\\ 1/"));
    let log = setup_log(&None, &some("trace/(?x)\\ 1/")).build();
    assert_eq!(log.filter(), LogLevelFilter::Info);
}

#[test]
fn broken_octal_escapes_are_not_readable() {
    for text in &[
        "/(?x)\\1 2",
        "/(?x)\\ 1",
        "/(?x)\\12 3",
        "/(?x)\\ #\n1",
        "/(?x)\\#\n\\1#\n2",
        "/(?ix-m:[a\\1 2])",
        "/(?x)\\\\\\1 2",
        "/(?x)\\ \\\\1 2",
        "debug,sync=trace/(?x)\\1\u{3000}2",
        "/((?x)a)b(?i:(?x)c\\1 2)",
        "/(?x:a(b) \\1 2)",
        "/(?x)[a-\\1 2]",
    ] {
        assert!(!is_readable(text), "{}", text);
    }
}

#[test]
fn counted_repetitions_of_nothing_are_not_readable() {
    for text in &[
        "/(?:(?:a{0}){4294967295}){4294967295}",
        "/(?:a{0}){2}",
        "/(a{ +00 , 0 }b){2}",
        "/(?x)((a{0,0}))# comment\n{2}",
        "/(?x)(a{0}) {2}",
        "/(a{0})(?i){2}",
        "/((a{0})(b)){2}",
        "/((b)a{0}(c)){2}",
        "/[)](a{0}[(]){2}",
        "/(\\)a{0}){2}",
        "/([]()]a{0}){2}",
        "/([[:alpha:](]a{0}){2}",
        "/([[:alfa:](a{0}){2}",
        "/([\\pL-[:alpha:](]a{0}){2}",
        "/([a-[:alpha:](a{0})]){2}",
        "/(?P<name>a{0}){2}",
    ] {
        assert!(!is_readable(text), "{}", text);
    }
}

#[test]
fn byte_classes_that_an_error_would_show_are_not_readable() {
    for text in &[
        "/(?-u)[\\x00--]**",
        "/(?-u)[\\x00--]|*",
        "/(?i-u)[\\x00--]+(?m)?",
        "/(?x)( ? - u )[\\x00--]?? +",
        "/(?-u:[\\x00--])|*",
        "/(?-u)[\\x00--]{1}?{2}",
    ] {
        assert!(!is_readable(text), "{}", text);
    }
}

#[test]
fn nesting_has_a_limit() {
    let at_limit = format!("/{}", nested(200));
    assert!(is_readable(&at_limit));
    setup_log(&None, &some(&at_limit));
    let malformed = format!("/{}*", nested(200));
    assert!(is_readable(&malformed));
    setup_log(&None, &some(&malformed));
    assert!(!is_readable(&format!("/{}", nested(201))));
    assert!(!is_readable(&format!("/{}", "(".repeat(100_000))));
    assert!(!is_readable(&format!("/{}", "(\\)".repeat(201))));
    assert!(!is_readable(&format!("/{}", "([)]".repeat(201))));
    assert!(is_readable(&format!("/{}", "(a)".repeat(1000))));
    assert!(is_readable(&format!("/{}", "\\d(a)".repeat(1000))));
    for class in &["[a]", "[[:alpha:]_-]", "[]()]", "[^]]", "[\\](]", "[a-[]", "[\\w-[:digit:](]"] {
        let text = format!("/{}{}", class, "(b)".repeat(300));
        assert!(is_readable(&text), "{}", class);
        setup_log(&None, &some(&text));
        let spaced = format!("/(?x){}{}", class, "( b )".repeat(300));
        assert!(is_readable(&spaced), "{}", class);
        setup_log(&None, &some(&spaced));
    }
}

#[test]
fn directives_take_effect_beside_a_pattern() {
    let log = setup_log(&None, &some("debug/(?:[0-9]{1,3}\\.){3}")).build();
    assert_eq!(log.filter(), LogLevelFilter::Debug);
    let log = setup_log(&None, &some("debug/(")).build();
    assert_eq!(log.filter(), LogLevelFilter::Debug);
}
