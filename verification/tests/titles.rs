use voteinfo::cantonal;
use voteinfo::geo::Subdivisions;
use voteinfo::national;
use voteinfo::outcome::Outcome;
use voteinfo::title::{find_title, is_blank_text, IssueTitle, Lang};

fn title(lang: Lang, text: &str) -> IssueTitle {
    IssueTitle { lang, text: text.to_string() }
}

fn empty_outcome() -> Outcome {
    Outcome {
        count_completed: false,
        yes_votes: 0,
        no_votes: 0,
        cast_ballot_papers: 0,
        eligible_voters: 0,
    }
}

fn national_issue(titles: Vec<IssueTitle>) -> national::Issue {
    national::Issue {
        issue_id: 1,
        display_order: 1,
        issue_title: titles,
        issue_completed: false,
        provisional: false,
        issue_accepted: false,
        issue_type_id: 1,
        main_issue_id: 0,
        reserve_info_text: None,
        double_majority: false,
        outcome_cantons: national::OutcomeCantons {
            yes_full_cantons: 0,
            no_full_cantons: 0,
            full_canton_count: 20,
            yes_half_cantons: 0,
            no_half_cantons: 0,
            half_canton_count: 6,
        },
        outcome: empty_outcome(),
        cantons: Vec::new(),
    }
}

fn cantonal_issue(titles: Vec<IssueTitle>) -> cantonal::Issue {
    cantonal::Issue {
        issue_id: 1,
        display_order: 1,
        issue_title: titles,
        issue_completed: false,
        issue_accepted: false,
        issue_type_id: 1,
        main_issue_id: None,
        outcome: empty_outcome(),
        subdivisions: Subdivisions::Absent,
    }
}

#[test]
fn national_title_skips_blank_text() {
    let issue = national_issue(vec![title(Lang::DE, "Vorlage A"), title(Lang::FR, "   ")]);
    assert_eq!(issue.get_title(Lang::FR), None);
    assert_eq!(issue.get_title(Lang::DE), Some("Vorlage A"));
    assert_eq!(issue.get_title(Lang::IT), None);
}

#[test]
fn cantonal_title_skips_blank_text() {
    let issue = cantonal_issue(vec![title(Lang::DE, "Vorlage A"), title(Lang::FR, "   ")]);
    assert_eq!(issue.get_title(Lang::FR), None);
    assert_eq!(issue.get_title(Lang::DE), Some("Vorlage A"));
    assert_eq!(issue.get_title(Lang::IT), None);
}

#[test]
fn first_title_of_a_language_wins() {
    let titles = vec![
        title(Lang::FR, "Objet"),
        title(Lang::DE, "Erste"),
        title(Lang::DE, "Zweite"),
    ];
    assert_eq!(find_title(&titles, Lang::DE), Some("Erste"));
    assert_eq!(find_title(&titles, Lang::FR), Some("Objet"));
}

#[test]
fn blank_title_gives_way_to_a_later_one() {
    let titles = vec![title(Lang::RM, ""), title(Lang::RM, "\t\n"), title(Lang::RM, "Project")];
    assert_eq!(find_title(&titles, Lang::RM), Some("Project"));
}

#[test]
fn no_titles_no_title() {
    assert_eq!(find_title(&Vec::new(), Lang::EN), None);
}

#[test]
fn title_with_white_space_around_is_kept_as_it_is() {
    let titles = vec![title(Lang::EN, "  Proposal  ")];
    assert_eq!(find_title(&titles, Lang::EN), Some("  Proposal  "));
}

#[test]
fn blank_texts() {
    assert!(is_blank_text(""));
    assert!(is_blank_text("   "));
    assert!(is_blank_text(" \t\r\n\u{a0}\u{3000}"));
    assert!(!is_blank_text("a"));
    assert!(!is_blank_text("  x  "));
    assert!(!is_blank_text("\u{200b}"));
}

#[test]
fn language_codes() {
    assert_eq!(Lang::DE.code(), "de");
    assert_eq!(Lang::FR.code(), "fr");
    assert_eq!(Lang::IT.code(), "it");
    assert_eq!(Lang::RM.code(), "rm");
    assert_eq!(Lang::EN.code(), "en");
    assert_eq!(Lang::from_code("rm"), Some(Lang::RM));
    assert_eq!(Lang::from_code("en"), Some(Lang::EN));
    assert_eq!(Lang::from_code("DE"), None);
    assert_eq!(Lang::from_code(""), None);
    for lang in [Lang::DE, Lang::FR, Lang::IT, Lang::RM, Lang::EN] {
        assert_eq!(Lang::from_code(lang.code()), Some(lang));
    }
}
