use around_search::admission::AdmissionPolicy;
use around_search::meta::StreamType;
use around_search::context::{ContextParams, ContextRequest};
use around_search::dispatch::{combine_wait, AroundSearch, Phase, Step};
use around_search::errors::{translate, ErrorBody, ErrorCode, ExecutionError};
use around_search::merge::{average, merge, WindowResult};
use around_search::params::{
    build_default_sql, decode_param, normalize_transform, parse_int_or, split_list,
};
use around_search::payload::{read_payload, select_filters, str_eq, FieldValue};
use around_search::store::{Export, SqlitePipelineTable};
use around_search::window::{end_time, half_size, start_time, WindowQuery};

fn strings(v: &[&str]) -> Vec<String> {
    v.iter().map(|s| s.to_string()).collect()
}

fn no_params() -> ContextParams {
    ContextParams {
        key: None,
        size: None,
        timeout: None,
        sql: None,
        query_fn: None,
        regions: None,
        clusters: None,
        stream_type: None,
    }
}

fn result(hits: Vec<i64>, scan: usize, took: usize, ratio: usize) -> WindowResult<i64> {
    WindowResult {
        hits,
        scan_size: scan,
        took,
        cached_ratio: ratio,
        work_group: None,
        queue_wait: None,
    }
}

fn request(pivot: i64, size: i64) -> ContextRequest {
    let mut params = no_params();
    params.key = Some(pivot.to_string());
    params.size = Some(size.to_string());
    ContextRequest::build(
        "org".to_string(),
        "logs".to_string(),
        &params,
        &None,
        &Vec::new(),
        None,
    )
}

#[test]
fn halves_of_even_window_are_equal() {
    assert_eq!(half_size(10), 5);
    assert_eq!(half_size(0), 0);
    let fw = WindowQuery::forward("a".to_string(), 8, 0, &None, &vec![], &vec![], 0);
    let bw = WindowQuery::backward("b".to_string(), 8, 0, &None, &vec![], &vec![], 0);
    assert_eq!(fw.size, 4);
    assert_eq!(bw.size, 4);
}

#[test]
fn half_size_rounds_toward_zero() {
    assert_eq!(half_size(7), 3);
    assert_eq!(half_size(-3), -1);
    assert_eq!(half_size(-4), -2);
    assert_eq!(half_size(i64::MIN), i64::MIN / 2);
    assert_eq!(half_size(i64::MAX), i64::MAX / 2);
}

#[test]
fn window_bounds_saturate() {
    assert_eq!(start_time(0), -900_000_000);
    assert_eq!(end_time(0), 900_000_000);
    assert_eq!(start_time(i64::MIN + 5), i64::MIN);
    assert_eq!(end_time(i64::MAX - 5), i64::MAX);
}

#[test]
fn pivot_scenario_gives_both_ranges() {
    let req = request(1_000_000_000, 10);
    let (search, fw): (AroundSearch<i64>, WindowQuery) =
        AroundSearch::start(req, "t1".to_string(), None, None);
    assert_eq!(fw.size, 5);
    assert_eq!(fw.start_time, 1_000_000_000);
    assert_eq!(fw.end_time, 1_900_000_000);
    assert!(!fw.descending);
    match search.phase {
        Phase::AwaitingForward(bw) => {
            assert_eq!(bw.size, 5);
            assert_eq!(bw.start_time, 100_000_000);
            assert_eq!(bw.end_time, 1_000_000_000);
            assert!(bw.descending);
        }
        _ => panic!("the search must wait for the forward half"),
    }
}

#[test]
fn transform_gets_terminator() {
    let r = normalize_transform("filter(.level==\"error\")".to_string());
    assert_eq!(r, "filter(.level==\"error\") \n .");
}

#[test]
fn terminated_transform_is_kept() {
    assert_eq!(normalize_transform(". = 1\n.  ".to_string()), ". = 1\n.  ");
    assert_eq!(normalize_transform("".to_string()), " \n .");
}

#[test]
fn payload_scenario_overrides_pivot_and_skips_null() {
    let body = br#"{"_timestamp":1234567890,"host":"h1","level":null}"#;
    let (pivot, filters) = read_payload(body, &strings(&["host"]), 7);
    assert_eq!(pivot, 1234567890);
    assert_eq!(filters, vec![("host".to_string(), "h1".to_string())]);
    let (_, filters) = read_payload(body, &strings(&["host", "level", "_timestamp"]), 7);
    assert_eq!(filters, vec![("host".to_string(), "h1".to_string())]);
}

#[test]
fn malformed_payload_gives_no_filters() {
    let (pivot, filters) = read_payload(b"not json", &strings(&["host"]), 7);
    assert_eq!(pivot, 7);
    assert!(filters.is_empty());
    let (pivot, filters) = read_payload(b"[1,2]", &strings(&["host"]), 7);
    assert_eq!(pivot, 7);
    assert!(filters.is_empty());
}

#[test]
fn payload_values_become_text() {
    let body = br#"{"code":500,"ok":true,"name":"x"}"#;
    let (_, filters) = read_payload(body, &strings(&["name", "code", "ok", "gone"]), 0);
    assert_eq!(
        filters,
        vec![
            ("name".to_string(), "x".to_string()),
            ("code".to_string(), "500".to_string()),
            ("ok".to_string(), "true".to_string()),
        ]
    );
}

#[test]
fn select_filters_keeps_text_values_in_order() {
    let fields = strings(&["a", "_timestamp", "b", "c"]);
    let found = vec![
        FieldValue::Text("1".to_string()),
        FieldValue::Text("2".to_string()),
        FieldValue::Null,
        FieldValue::Missing,
    ];
    assert_eq!(select_filters(&fields, &found), vec![("a".to_string(), "1".to_string())]);
}

#[test]
fn overloaded_error_is_too_many_requests() {
    let req = request(0, 10);
    let (mut search, _fw): (AroundSearch<i64>, WindowQuery) =
        AroundSearch::start(req, "trace-9".to_string(), None, None);
    let err = ExecutionError::CancelQuery(ErrorCode { code: 20009, message: "cancelled".to_string() });
    match search.on_forward(Err(err)) {
        Step::Fail(r) => {
            assert_eq!(r.status, 429);
            match r.body {
                ErrorBody::Coded { code, trace_id, .. } => {
                    assert_eq!(code, 20009);
                    assert_eq!(trace_id, "trace-9");
                }
                _ => panic!("a coded body is expected"),
            }
        }
        _ => panic!("the forward failure must end the search"),
    }
    assert!(matches!(search.phase, Phase::Finished));
}

#[test]
fn overloaded_backward_error_is_too_many_requests() {
    let req = request(0, 10);
    let (mut search, _fw): (AroundSearch<i64>, WindowQuery) =
        AroundSearch::start(req, "trace-b".to_string(), None, None);
    assert!(matches!(search.on_forward(Ok(result(vec![1, 2], 1, 1, 0))), Step::Execute(_)));
    let err = ExecutionError::CancelQuery(ErrorCode { code: 20009, message: "busy".to_string() });
    match search.on_backward(Err(err)) {
        Step::Fail(r) => {
            assert_eq!(r.status, 429);
            assert!(matches!(r.body, ErrorBody::Coded { ref trace_id, .. } if trace_id == "trace-b"));
        }
        _ => panic!("the backward failure must end the search"),
    }
    assert!(matches!(search.phase, Phase::Finished));
}

#[test]
fn translation_of_each_error_kind() {
    let trace = "tr".to_string();
    let r = translate(ExecutionError::Coded(ErrorCode { code: 10001, message: "m".to_string() }), &trace);
    assert_eq!(r.status, 500);
    assert!(matches!(r.body, ErrorBody::Coded { code: 10001, .. }));
    let r = translate(ExecutionError::Other("boom".to_string()), &trace);
    assert_eq!(r.status, 500);
    match r.body {
        ErrorBody::Message { code, message } => {
            assert_eq!(code, 500);
            assert_eq!(message, "boom");
        }
        _ => panic!("a message body is expected"),
    }
}

#[test]
fn full_search_merges_both_halves() {
    let req = request(100, 4);
    let (mut search, fw_query): (AroundSearch<i64>, WindowQuery) =
        AroundSearch::start(req, "t".to_string(), Some("FW".to_string()), Some("BW".to_string()));
    assert_eq!(fw_query.sql, "FW");
    let bw_query = match search.on_forward(Ok(WindowResult {
        hits: vec![100, 101, 105],
        scan_size: 10,
        took: 3,
        cached_ratio: 51,
        work_group: Some("short".to_string()),
        queue_wait: Some(4),
    })) {
        Step::Execute(q) => q,
        _ => panic!("the backward query must follow"),
    };
    assert_eq!(bw_query.sql, "BW");
    assert!(bw_query.descending);
    match search.on_backward(Ok(WindowResult {
        hits: vec![99, 97, 90],
        scan_size: 20,
        took: 5,
        cached_ratio: 100,
        work_group: None,
        queue_wait: Some(6),
    })) {
        Step::Complete(resp, usage) => {
            assert_eq!(resp.hits, vec![90, 97, 99, 100, 101, 105]);
            assert_eq!(resp.total, 6);
            assert_eq!(resp.size, 4);
            assert_eq!(resp.scan_size, 30);
            assert_eq!(resp.took, 8);
            assert_eq!(resp.cached_ratio, 75);
            assert_eq!(usage.records, 6);
            assert_eq!(usage.request_body, "BW");
            assert_eq!(usage.min_ts, 100 - 900_000_000);
            assert_eq!(usage.max_ts, 100 + 900_000_000);
            assert_eq!(usage.took_wait_in_queue, Some(10));
            assert_eq!(usage.work_groups, (Some("short".to_string()), None));
            assert_eq!(usage.transform_count, 0);
            assert_eq!(usage.trace_id, "t");
        }
        _ => panic!("the search must complete"),
    }
}

#[test]
fn rewrite_failure_falls_back_to_request_sql() {
    let mut params = no_params();
    params.sql = Some("U0VMRUNUIDE=".to_string());
    let req = ContextRequest::build("o".to_string(), "s".to_string(), &params, &None, &vec![], None);
    assert_eq!(req.sql, "SELECT 1");
    let (search, fw): (AroundSearch<i64>, WindowQuery) =
        AroundSearch::start(req, "t".to_string(), None, None);
    assert_eq!(fw.sql, "SELECT 1");
    assert_eq!(search.backward_sql, "SELECT 1");
}

#[test]
fn merge_applies_no_cap() {
    let r = merge(result(vec![4, 5, 6], 7, 1, 3), result(vec![3, 2, 1], 8, 2, 4), 2);
    assert_eq!(r.hits, vec![1, 2, 3, 4, 5, 6]);
    assert_eq!(r.total, 6);
    assert_eq!(r.size, 2);
    assert_eq!(r.scan_size, 15);
    assert_eq!(r.took, 3);
    assert_eq!(r.cached_ratio, 3);
}

#[test]
fn merge_of_empty_halves() {
    let r = merge(result(vec![], 0, 0, 0), result(vec![], 0, 0, 0), 10);
    assert!(r.hits.is_empty());
    assert_eq!(r.total, 0);
    assert_eq!(r.size, 10);
}

#[test]
fn average_does_not_overflow() {
    assert_eq!(average(usize::MAX, usize::MAX), usize::MAX);
    assert_eq!(average(1, 2), 1);
    assert_eq!(average(3, 3), 3);
}

#[test]
fn queue_waits_combine() {
    assert_eq!(combine_wait(Some(2), Some(3)), Some(5));
    assert_eq!(combine_wait(Some(2), None), Some(2));
    assert_eq!(combine_wait(None, Some(3)), Some(3));
    assert_eq!(combine_wait(None, None), None);
}

#[test]
fn lists_drop_empty_entries() {
    assert_eq!(split_list("a,,b,"), strings(&["a", "b"]));
    assert_eq!(split_list(",,"), Vec::<String>::new());
    assert_eq!(split_list(""), Vec::<String>::new());
    assert_eq!(split_list("eu-1"), strings(&["eu-1"]));
}

#[test]
fn integers_fall_back_to_default() {
    assert_eq!(parse_int_or(&Some("42".to_string()), 10), 42);
    assert_eq!(parse_int_or(&Some("-7".to_string()), 10), -7);
    assert_eq!(parse_int_or(&Some("ten".to_string()), 10), 10);
    assert_eq!(parse_int_or(&None, 10), 10);
}

#[test]
fn base64_parameters_decode() {
    assert_eq!(decode_param("U0VMRUNUIDE="), Some("SELECT 1".to_string()));
    assert_eq!(decode_param("Pz8_"), Some("???".to_string()));
    assert_eq!(decode_param("%%%"), None);
    assert_eq!(decode_param("_w=="), None);
}

#[test]
fn request_defaults() {
    let req = ContextRequest::build(
        "o".to_string(),
        "web".to_string(),
        &no_params(),
        &None,
        &vec![],
        Some("u@x".to_string()),
    );
    assert_eq!(req.pivot, 0);
    assert_eq!(req.size, 10);
    assert_eq!(req.timeout, 0);
    assert_eq!(req.sql, "SELECT * FROM \"web\" ");
    assert_eq!(req.transform, None);
    assert!(req.regions.is_empty());
    assert!(req.clusters.is_empty());
    assert!(!req.needs_filter_merge());
    assert_eq!(build_default_sql("a"), "SELECT * FROM \"a\" ");
}

#[test]
fn request_decodes_every_parameter() {
    let params = ContextParams {
        key: Some("55".to_string()),
        size: Some("x".to_string()),
        timeout: Some("30".to_string()),
        sql: Some("%%".to_string()),
        query_fn: Some("LiA9IDE=".to_string()),
        regions: Some("r1,,r2".to_string()),
        clusters: Some(",c1".to_string()),
        stream_type: Some("traces".to_string()),
    };
    let body = br#"{"_timestamp":77,"host":"h"}"#.to_vec();
    let req = ContextRequest::build(
        "o".to_string(),
        "s".to_string(),
        &params,
        &Some(body),
        &strings(&["host"]),
        None,
    );
    assert_eq!(req.pivot, 77);
    assert_eq!(req.stream_type, StreamType::Traces);
    assert_eq!(req.size, 10);
    assert_eq!(req.timeout, 30);
    assert_eq!(req.sql, "SELECT * FROM \"s\" ");
    assert_eq!(req.transform, Some(". = 1 \n .".to_string()));
    assert_eq!(req.regions, strings(&["r1", "r2"]));
    assert_eq!(req.clusters, strings(&["c1"]));
    assert!(req.needs_filter_merge());
    let merged = req.with_merged_filters(Ok("SELECT 2".to_string())).ok().unwrap();
    assert_eq!(merged.sql, "SELECT 2");
    assert_eq!(merged.pivot, 77);
    assert!(merged.with_merged_filters(Err("bad sql".to_string())).is_err());
}

#[test]
fn string_equality() {
    assert!(str_eq("abc", "abc"));
    assert!(!str_eq("abc", "abd"));
    assert!(!str_eq("ab", "abc"));
}

#[test]
fn export_query_reads_oldest_first() {
    let q = Export::query("web", 1, 2);
    assert_eq!(q.sql, "select * from web ORDER BY _timestamp ASC");
    assert_eq!(q.size, 100);
    assert!(!q.descending);
    assert!(Export::supports_file_type("json"));
    assert!(!Export::supports_file_type("csv"));
    let _ = SqlitePipelineTable::new();
}

#[test]
fn admission_policy_from_flag() {
    assert_eq!(AdmissionPolicy::from_flag(true), AdmissionPolicy::QueueBackpressure);
    assert!(AdmissionPolicy::from_flag(true).holds_slot());
    assert!(!AdmissionPolicy::from_flag(false).holds_slot());
}

#[test]
fn repeated_fields_give_one_filter() {
    let body = br#"{"host":"h1","pod":"p"}"#;
    let (_, filters) = read_payload(body, &strings(&["host", "pod", "host"]), 0);
    assert_eq!(
        filters,
        vec![("host".to_string(), "h1".to_string()), ("pod".to_string(), "p".to_string())]
    );
}

#[test]
fn non_integer_timestamp_keeps_pivot() {
    let (pivot, _) = read_payload(br#"{"_timestamp":"soon"}"#, &vec![], 5);
    assert_eq!(pivot, 5);
    let (pivot, _) = read_payload(br#"{"_timestamp":1.5}"#, &vec![], 5);
    assert_eq!(pivot, 5);
    let (pivot, _) = read_payload(br#"{"other":3}"#, &vec![], 5);
    assert_eq!(pivot, 5);
}

#[test]
fn integer_text_forms() {
    assert_eq!(parse_int_or(&Some("+5".to_string()), 1), 5);
    assert_eq!(parse_int_or(&Some("-".to_string()), 1), 1);
    assert_eq!(parse_int_or(&Some("".to_string()), 1), 1);
    assert_eq!(parse_int_or(&Some(" 5".to_string()), 1), 1);
    assert_eq!(parse_int_or(&Some("9223372036854775807".to_string()), 1), i64::MAX);
    assert_eq!(parse_int_or(&Some("9223372036854775808".to_string()), 1), 1);
    assert_eq!(parse_int_or(&Some("-9223372036854775808".to_string()), 1), i64::MIN);
}

#[test]
fn terminator_past_whitespace_is_found() {
    assert_eq!(normalize_transform(".x = 1\n.\n\t ".to_string()), ".x = 1\n.\n\t ");
    assert_eq!(normalize_transform(". \u{3000}".to_string()), ". \u{3000}");
    assert_eq!(normalize_transform(".a\n".to_string()), ".a\n \n .");
}

#[test]
fn stream_type_names() {
    assert_eq!(StreamType::from_name("metrics"), Some(StreamType::Metrics));
    assert_eq!(StreamType::from_name("enrichment_tables"), Some(StreamType::EnrichmentTables));
    assert_eq!(StreamType::from_name("Logs"), None);
    assert_eq!(StreamType::from_param(&None), StreamType::Logs);
    assert_eq!(StreamType::from_param(&Some("bogus".to_string())), StreamType::Logs);
}

#[test]
fn export_query_is_not_interactive() {
    assert!(!Export::query("web", 1, 2).interactive);
}
