use syosetu_dl::data::{
    info_from_fields, metadata_status_check, parse_novel_response, FetchError, NovelInfo,
};

fn full_payload() -> &'static str {
    "[{\"allcount\":1},{\"title\":\"A Tale\",\"ncode\":\"N9185FM\",\"writer\":\"Someone\",\
     \"general_all_no\":50,\"novelupdated_at\":\"2020-01-02 03:04:05\"}]"
}

#[test]
fn full_payload_decodes_with_lowercased_code() {
    let info = parse_novel_response(full_payload()).unwrap();
    assert_eq!(info.title, "A Tale");
    assert_eq!(info.ncode, "n9185fm");
    assert_eq!(info.writer, "Someone");
    assert_eq!(info.chapter_count, 50);
    assert_eq!(info.updated_at, "2020-01-02 03:04:05");
}

#[test]
fn invalid_json_is_reported() {
    assert_eq!(parse_novel_response("not json").unwrap_err(), FetchError::InvalidJson);
    assert_eq!(parse_novel_response("").unwrap_err(), FetchError::InvalidJson);
}

#[test]
fn non_array_payload_is_invalid() {
    assert_eq!(parse_novel_response("{\"title\":\"x\"}").unwrap_err(), FetchError::InvalidJson);
}

#[test]
fn empty_array_means_not_found() {
    assert_eq!(parse_novel_response("[]").unwrap_err(), FetchError::NotFound);
}

#[test]
fn count_only_tail_means_not_found() {
    assert_eq!(parse_novel_response("[{\"allcount\":0}]").unwrap_err(), FetchError::NotFound);
}

#[test]
fn missing_field_means_not_found() {
    let body = "[{\"allcount\":1},{\"title\":\"A\",\"writer\":\"B\",\
         \"general_all_no\":3,\"novelupdated_at\":\"2020-01-02 03:04:05\"}]";
    assert_eq!(parse_novel_response(body).unwrap_err(), FetchError::NotFound);
}

#[test]
fn wrongly_typed_field_means_not_found() {
    let body = "[{\"title\":\"A\",\"ncode\":7,\"writer\":\"B\",\
         \"general_all_no\":3,\"novelupdated_at\":\"2020-01-02 03:04:05\"}]";
    assert_eq!(parse_novel_response(body).unwrap_err(), FetchError::NotFound);
}

#[test]
fn overlong_code_means_not_found() {
    let body = "[{\"title\":\"A\",\"ncode\":\"n12345678901\",\"writer\":\"B\",\
         \"general_all_no\":3,\"novelupdated_at\":\"2020-01-02 03:04:05\"}]";
    assert_eq!(parse_novel_response(body).unwrap_err(), FetchError::NotFound);
}

#[test]
fn overlong_timestamp_means_not_found() {
    let body = "[{\"title\":\"A\",\"ncode\":\"n1\",\"writer\":\"B\",\
         \"general_all_no\":3,\"novelupdated_at\":\"2020-01-02 03:04:05.000\"}]";
    assert_eq!(parse_novel_response(body).unwrap_err(), FetchError::NotFound);
}

#[test]
fn status_check_accepts_only_200() {
    assert!(metadata_status_check(200).is_ok());
    assert_eq!(metadata_status_check(404).unwrap_err(), FetchError::Status(404));
    assert_eq!(metadata_status_check(503).unwrap_err(), FetchError::Status(503));
}

#[test]
fn count_record_is_classified_first() {
    let r = info_from_fields(
        Some(String::from("T")),
        Some(String::from("n1")),
        Some(String::from("W")),
        Some(3),
        Some(String::from("2020-01-02 03:04:05")),
        Some(7),
    );
    match r {
        Some(NovelInfo::Meta(m)) => assert_eq!(m.count, 7),
        _ => panic!("expected the count-only record"),
    }
}

#[test]
fn incomplete_fields_classify_as_nothing() {
    let r = info_from_fields(None, None, None, None, None, None);
    assert!(r.is_none());
}
