use syosetu_dl::fetch::{
    chapter_fetch_step, chapter_indices, precheck_range, resolve_range, ChapterStep, FetchOutcome,
    RangeError, ResolvedRange,
};

#[test]
fn missing_upper_bound_defaults_to_chapter_count() {
    let r = resolve_range(10, None, 50).unwrap();
    assert_eq!(r, ResolvedRange { from: 10, to: 50, beyond_count: false });
    let indices = chapter_indices(&r);
    assert_eq!(indices.len(), 41);
    assert_eq!(indices.first(), Some(&10));
    assert_eq!(indices.last(), Some(&50));
    let expected: Vec<usize> = (10..=50).collect();
    assert_eq!(indices, expected);
}

#[test]
fn inverted_range_fails_before_any_fetch() {
    assert_eq!(precheck_range(20, Some(10)).unwrap_err(), RangeError::FromAboveTo);
    assert_eq!(resolve_range(20, Some(10), 50).unwrap_err(), RangeError::FromAboveTo);
}

#[test]
fn precheck_needs_no_chapter_count() {
    assert!(precheck_range(10, None).is_ok());
    assert!(precheck_range(10, Some(10)).is_ok());
    assert!(precheck_range(10, Some(11)).is_ok());
    assert_eq!(precheck_range(11, Some(10)).unwrap_err(), RangeError::FromAboveTo);
}

#[test]
fn start_past_the_novel_fails() {
    assert_eq!(resolve_range(51, None, 50).unwrap_err(), RangeError::FromBeyondCount);
    assert_eq!(resolve_range(2, None, 1).unwrap_err(), RangeError::FromBeyondCount);
}

#[test]
fn upper_bound_past_the_novel_is_kept_with_warning() {
    let r = resolve_range(1, Some(60), 50).unwrap();
    assert_eq!(r, ResolvedRange { from: 1, to: 60, beyond_count: true });
}

#[test]
fn single_chapter_range_is_accepted() {
    let r = resolve_range(5, Some(5), 50).unwrap();
    assert_eq!(r, ResolvedRange { from: 5, to: 5, beyond_count: false });
    let indices = chapter_indices(&r);
    assert_eq!(indices, vec![5]);
}

#[test]
fn only_a_success_page_reaches_the_extractor() {
    assert_eq!(chapter_fetch_step(&FetchOutcome::Status(200)), ChapterStep::Extract);
    assert_eq!(
        chapter_fetch_step(&FetchOutcome::Status(503)),
        ChapterStep::Retry { backoff: false }
    );
    assert_eq!(
        chapter_fetch_step(&FetchOutcome::Status(404)),
        ChapterStep::Retry { backoff: false }
    );
}

#[test]
fn transport_failure_retries_with_backoff() {
    assert_eq!(chapter_fetch_step(&FetchOutcome::Transport), ChapterStep::Retry { backoff: true });
    assert_eq!(
        chapter_fetch_step(&FetchOutcome::BodyUnreadable),
        ChapterStep::Retry { backoff: false }
    );
}
