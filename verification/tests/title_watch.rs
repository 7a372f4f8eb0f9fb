use shell_bridge::title::observe_all;
use shell_bridge::title::title_matches;
use shell_bridge::title::TitleWatch;

#[test]
fn badge_title_issues_exact_request() {
    let mut w = TitleWatch::new();
    let r = w.observe("(3) New messages");
    assert!(r.is_some());
    assert_eq!(r.unwrap().title, "(3) New messages");
}

#[test]
fn plain_title_issues_nothing() {
    let mut w = TitleWatch::new();
    assert!(w.observe("Messenger").is_none());
}

#[test]
fn repeated_badge_title_suppressed() {
    let titles = vec![
        String::from("(1) New messages"),
        String::from("(1) New messages"),
        String::from("(2) New messages"),
        String::from("Messenger"),
        String::from("(2) New messages"),
    ];
    let issued = observe_all(&titles);
    let got: Vec<String> = issued.into_iter().map(|r| r.title).collect();
    assert_eq!(got, vec![String::from("(1) New messages"), String::from("(2) New messages")]);
}

#[test]
fn changed_badge_titles_each_issue() {
    let titles = vec![
        String::from("(1) a"),
        String::from("(2) b"),
        String::from("(1) a"),
    ];
    let issued = observe_all(&titles);
    let got: Vec<String> = issued.into_iter().map(|r| r.title).collect();
    assert_eq!(got, vec![String::from("(1) a"), String::from("(2) b"), String::from("(1) a")]);
}

#[test]
fn nonmatching_titles_issue_nothing() {
    let titles = vec![
        String::from(""),
        String::from("Messenger"),
        String::from("x(3) y"),
        String::from("( 3) z"),
    ];
    assert!(observe_all(&titles).is_empty());
}

#[test]
fn badge_pattern_accepts_leading_count() {
    assert!(title_matches("(3) New messages"));
    assert!(title_matches("(0)"));
    assert!(title_matches("(12) x"));
    assert!(title_matches("(999)(1)"));
}

#[test]
fn badge_pattern_rejects_everything_else() {
    assert!(!title_matches(""));
    assert!(!title_matches("Messenger"));
    assert!(!title_matches("("));
    assert!(!title_matches("()"));
    assert!(!title_matches("(12"));
    assert!(!title_matches("x(3) y"));
    assert!(!title_matches("( 3) y"));
    assert!(!title_matches("(a) y"));
}
