use voteinfo::text::{same_text, text_precedes_or_equals};

#[test]
fn same_text_compares_whole_strings() {
    assert!(same_text("", ""));
    assert!(same_text("resultat", "resultat"));
    assert!(!same_text("resultat", "resultate"));
    assert!(!same_text("resultat", "Resultat"));
    assert!(same_text("zählkreis", "zählkreis"));
    assert!(!same_text("zählkreis", "zahlkreis"));
}

#[test]
fn order_is_that_of_std_strings() {
    let samples = ["", "a", "ab", "b", "2023-09-24", "2024-09-22", "2024-9-22", "é", "z", "日本"];
    for a in samples {
        for b in samples {
            assert_eq!(text_precedes_or_equals(a, b), a <= b, "{:?} {:?}", a, b);
        }
    }
}

#[test]
fn prefix_comes_first() {
    assert!(text_precedes_or_equals("2024", "2024-09"));
    assert!(!text_precedes_or_equals("2024-09", "2024"));
    assert!(text_precedes_or_equals("2024", "2024"));
}
