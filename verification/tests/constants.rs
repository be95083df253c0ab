use webhook_gateway::constants::{
    contain_keywords, contains_ocr_patten, contains_rally_pattern, contains_time_spent_pattern,
};

#[test]
fn time_spent() {
    let s = "Thanks 3!";
    assert!(contains_time_spent_pattern(s));
    let s = "Thanks 0.4!";
    assert!(contains_time_spent_pattern(s));
    let s = "hi 26803fda-2e78-4d9f-931d-84b8261d6f7b";
    assert!(contains_rally_pattern(s));
}

#[test]
fn time_spent_pattern_variants() {
    assert!(contains_time_spent_pattern("thanks 2!"));
    assert!(contains_time_spent_pattern("well, Thanks\t1.25!"));
    assert!(contains_time_spent_pattern("Thanks 1.125! for the review"));
    assert!(!contains_time_spent_pattern("Thanks 1.1234!"));
    assert!(!contains_time_spent_pattern("Thanks 12!"));
    assert!(!contains_time_spent_pattern("Thanks  3!"));
    assert!(!contains_time_spent_pattern("Thanks 3"));
    assert!(!contains_time_spent_pattern("THANKS 3!"));
    assert!(!contains_time_spent_pattern("Thanks 3.!"));
    assert!(contains_time_spent_pattern("Thanks \u{0663}!"));
}

#[test]
fn ocr_keywords() {
    assert!(contains_ocr_patten("XT ABAs: T0, T15"));
    assert!(contains_ocr_patten("please, XT I'm running ABAs now"));
    assert!(!contains_ocr_patten("XT ABA: T0"));
    assert!(!contains_ocr_patten(""));
}

#[test]
fn keywords_are_either_kind() {
    assert!(contain_keywords("XT ABAs: T0"));
    assert!(contain_keywords("Thanks 3!"));
    assert!(!contain_keywords("looks fine"));
}

#[test]
fn rally_pattern() {
    assert!(!contains_rally_pattern("26803fda-2e78-4d9f-931d-84b8261d6f7"));
    assert!(contains_rally_pattern("{\"26803fda-2e78-4d9f-931d-84b8261d6f7b\": 1}"));
}

#[test]
fn unicode_classes() {
    assert!(contains_time_spent_pattern("Thanks\u{3000}3!"));
    assert!(contains_time_spent_pattern("thanks\u{2009}0.5!"));
    assert!(!contains_time_spent_pattern("Thanks\u{200B}3!"));
    assert!(contains_time_spent_pattern("Thanks 1.\u{0967}\u{0968}!"));
    assert!(!contains_time_spent_pattern("Thanks \u{00BD}!"));
}
