use syosetu_dl::cli::{
    default_from_value, is_affirmative, parse_from_answer, parse_to_answer, parse_usize,
    FromAnswer, Id, IdOverflow, ToAnswer,
};

#[test]
fn short_ids_are_accepted_unchanged() {
    let id = Id::parse("n9185fm").unwrap();
    assert_eq!(id.0, "n9185fm");
    let id = Id::parse("abcdefghij").unwrap();
    assert_eq!(id.0, "abcdefghij");
}

#[test]
fn overlong_id_is_rejected_with_the_limit() {
    let e = Id::parse("abcdefghijk").unwrap_err();
    assert_eq!(e, IdOverflow(10));
    assert_eq!(e.message(), "Id cannot be more than 10 characters");
}

#[test]
fn chapter_numbers_parse_as_decimal() {
    assert_eq!(parse_usize("123"), Some(123));
    assert_eq!(parse_usize("0"), Some(0));
    assert_eq!(parse_usize("+7"), Some(7));
    assert_eq!(parse_usize(""), None);
    assert_eq!(parse_usize("+"), None);
    assert_eq!(parse_usize("abc"), None);
    assert_eq!(parse_usize("12a"), None);
    assert_eq!(parse_usize("-3"), None);
    assert_eq!(parse_usize("18446744073709551615"), Some(usize::MAX));
    assert_eq!(parse_usize("18446744073709551616"), None);
    assert_eq!(parse_usize("99999999999999999999999999"), None);
}

#[test]
fn affirmative_answers_are_case_insensitive() {
    assert!(is_affirmative("y"));
    assert!(is_affirmative("Y"));
    assert!(is_affirmative("yes"));
    assert!(is_affirmative("YES"));
    assert!(is_affirmative("Yes"));
    assert!(!is_affirmative(""));
    assert!(!is_affirmative("n"));
    assert!(!is_affirmative("yep"));
}

#[test]
fn start_prompt_decisions() {
    assert_eq!(parse_from_answer(""), FromAnswer::DefaultStart);
    assert_eq!(parse_from_answer("0"), FromAnswer::Zero);
    assert_eq!(parse_from_answer("5"), FromAnswer::Chapter(5));
    assert_eq!(parse_from_answer("x"), FromAnswer::NotNumber);
}

#[test]
fn end_prompt_decisions() {
    assert_eq!(parse_to_answer("", 20), ToAnswer::AllChapters);
    assert_eq!(parse_to_answer("10", 20), ToAnswer::NotGreater);
    assert_eq!(parse_to_answer("20", 20), ToAnswer::NotGreater);
    assert_eq!(parse_to_answer("30", 20), ToAnswer::Chapter(30));
    assert_eq!(parse_to_answer("x", 20), ToAnswer::NotNumber);
}

#[test]
fn the_default_start_is_chapter_one() {
    assert_eq!(default_from_value(), 1);
}
