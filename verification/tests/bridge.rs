use analysis_bridge::errors::ErrorKind;
use analysis_bridge::invoke::{begin, entry_point_name, AnalysisRequest};
use analysis_bridge::json::JsonVal;
use analysis_bridge::marshal::{decode, decode_value, encode_value};
use analysis_bridge::runtime::RuntimeHandle;

fn s(text: &str) -> String {
    text.to_string()
}

fn num(text: &str) -> JsonVal {
    JsonVal::Num(s(text))
}

fn fixture_text() -> &'static str {
    "{\"charts\":[{\"type\":\"scatter\",\"data\":{\"x\":[1,2],\"y\":[3,4]}}],\"metrics\":{\"r2\":0.91}}"
}

fn fixture_data() -> JsonVal {
    JsonVal::Obj(vec![
        (s("x"), JsonVal::Arr(vec![num("1"), num("2")])),
        (s("y"), JsonVal::Arr(vec![num("3"), num("4")])),
    ])
}

fn fixture_metrics() -> JsonVal {
    JsonVal::Obj(vec![(s("r2"), num("0.91"))])
}

fn request() -> AnalysisRequest {
    AnalysisRequest {
        source_data_path: s("data.csv"),
        model_type: s("linear"),
        module_directory: s("/tmp/converted"),
        module_name: s("analysis_mod"),
    }
}

#[test]
fn decode_fixture_payload() {
    let result = decode(fixture_text()).unwrap();
    assert_eq!(result.charts.len(), 1);
    assert_eq!(result.charts[0].chart_type, "scatter");
    assert_eq!(result.charts[0].data, fixture_data());
    assert_eq!(result.metrics, fixture_metrics());
}

#[test]
fn decode_missing_charts_is_malformed() {
    let e = decode("{\"metrics\":{\"r2\":0.91}}").unwrap_err();
    assert_eq!(e.kind, ErrorKind::MalformedResult);
    assert_eq!(e.message, "missing charts");
}

#[test]
fn decode_chart_missing_type_fails_whole_decode() {
    let e = decode("{\"charts\":[{\"data\":{}}],\"metrics\":{}}").unwrap_err();
    assert_eq!(e.kind, ErrorKind::MalformedResult);
    assert_eq!(e.message, "malformed chart entry");
}

#[test]
fn decode_chart_nonstring_type_fails() {
    let e = decode("{\"charts\":[{\"type\":3,\"data\":{}}],\"metrics\":{}}").unwrap_err();
    assert_eq!(e.kind, ErrorKind::MalformedResult);
    assert_eq!(e.message, "malformed chart entry");
}

#[test]
fn decode_chart_empty_type_fails() {
    let e = decode("{\"charts\":[{\"type\":\"\",\"data\":{}}],\"metrics\":{}}").unwrap_err();
    assert_eq!(e.kind, ErrorKind::MalformedResult);
}

#[test]
fn decode_chart_missing_data_fails() {
    let e = decode("{\"charts\":[{\"type\":\"scatter\"}],\"metrics\":{}}").unwrap_err();
    assert_eq!(e.kind, ErrorKind::MalformedResult);
    assert_eq!(e.message, "malformed chart entry");
}

#[test]
fn decode_one_bad_chart_among_good_fails() {
    let text = "{\"charts\":[{\"type\":\"scatter\",\"data\":1},{\"data\":2}],\"metrics\":{}}";
    let e = decode(text).unwrap_err();
    assert_eq!(e.kind, ErrorKind::MalformedResult);
}

#[test]
fn decode_charts_not_a_sequence_fails() {
    let e = decode("{\"charts\":{},\"metrics\":{}}").unwrap_err();
    assert_eq!(e.kind, ErrorKind::MalformedResult);
    assert_eq!(e.message, "charts is not a sequence");
}

#[test]
fn decode_missing_metrics_fails() {
    let e = decode("{\"charts\":[]}").unwrap_err();
    assert_eq!(e.kind, ErrorKind::MalformedResult);
    assert_eq!(e.message, "missing metrics");
}

#[test]
fn decode_non_object_payload_fails() {
    let e = decode("[1,2,3]").unwrap_err();
    assert_eq!(e.kind, ErrorKind::MalformedResult);
    assert_eq!(e.message, "result is not an object");
}

#[test]
fn decode_unparsable_text_fails_with_parser_message() {
    let e = decode("{not json").unwrap_err();
    assert_eq!(e.kind, ErrorKind::MalformedResult);
    assert!(!e.message.is_empty());
}

#[test]
fn decode_empty_chart_list_is_ok_but_absence_is_not() {
    let ok = decode("{\"charts\":[],\"metrics\":null}").unwrap();
    assert!(ok.charts.is_empty());
    assert_eq!(ok.metrics, JsonVal::Null);
    assert!(decode("{\"metrics\":null}").is_err());
}

#[test]
fn round_trip_preserves_chart_pairs_and_metrics() {
    let first = decode(fixture_text()).unwrap();
    let again = decode(fixture_text()).unwrap();
    let re_encoded = encode_value(first);
    let back = decode_value(re_encoded).unwrap();
    assert_eq!(back, again);
}

#[test]
fn decode_value_rejects_plain_value() {
    let e = decode_value(JsonVal::Bool(true)).unwrap_err();
    assert_eq!(e.kind, ErrorKind::MalformedResult);
    assert_eq!(e.message, "result is not an object");
}

#[test]
fn encode_value_has_documented_shape() {
    let res = decode(fixture_text()).unwrap();
    let v = encode_value(res);
    match v {
        JsonVal::Obj(entries) => {
            assert_eq!(entries.len(), 2);
            assert_eq!(entries[0].0, "charts");
            assert_eq!(entries[1].0, "metrics");
            assert_eq!(entries[1].1, fixture_metrics());
            match &entries[0].1 {
                JsonVal::Arr(items) => assert_eq!(items.len(), 1),
                other => panic!("charts is not a sequence: {:?}", other),
            }
        }
        other => panic!("payload is not an object: {:?}", other),
    }
}

#[test]
fn prepare_import_ranks_last_inserted_first() {
    let mut runtime = RuntimeHandle::new();
    runtime.prepare_import(s("/a"));
    runtime.prepare_import(s("/b"));
    assert_eq!(runtime.search_path().len(), 2);
    assert_eq!(runtime.search_path()[0], "/b");
    assert_eq!(runtime.search_path()[1], "/a");
}

#[test]
fn prepare_import_is_idempotent_per_directory() {
    let mut runtime = RuntimeHandle::new();
    runtime.prepare_import(s("/a"));
    runtime.prepare_import(s("/b"));
    runtime.prepare_import(s("/a"));
    assert_eq!(runtime.search_path().len(), 2);
    assert_eq!(runtime.search_path()[0], "/b");
    assert_eq!(runtime.search_path()[1], "/a");
}

#[test]
fn session_success_flow_decodes_fixture() {
    let mut runtime = RuntimeHandle::new();
    let session = begin(&mut runtime, request());
    assert_eq!(runtime.search_path()[0], "/tmp/converted");
    assert_eq!(session.module_name().as_str(), "analysis_mod");
    assert_eq!(entry_point_name(), "run_analysis");
    let call = session.imported().resolved();
    assert_eq!(call.csv_path().as_str(), "data.csv");
    assert_eq!(call.model_type().as_str(), "linear");
    let convert = call.returned();
    let result = convert.finish(fixture_text()).unwrap();
    assert_eq!(result.charts[0].chart_type, "scatter");
    assert_eq!(result.metrics, fixture_metrics());
}

#[test]
fn session_import_failure_maps_to_module_load_failed() {
    let mut runtime = RuntimeHandle::new();
    let session = begin(&mut runtime, request());
    let e = session.import_failed(s("no module named analysis_mod"));
    assert_eq!(e.kind, ErrorKind::ModuleLoadFailed);
    assert_eq!(e.message, "no module named analysis_mod");
}

#[test]
fn session_missing_entry_point_maps_to_entry_point_missing() {
    let mut runtime = RuntimeHandle::new();
    let session = begin(&mut runtime, request());
    let e = session.imported().entry_point_missing(s("no attribute run_analysis"));
    assert_eq!(e.kind, ErrorKind::EntryPointMissing);
}

#[test]
fn session_raise_maps_to_foreign_execution_failed_and_next_call_succeeds() {
    let mut runtime = RuntimeHandle::new();
    let session = begin(&mut runtime, request());
    let e = session.imported().resolved().call_raised(s("ValueError: bad column"));
    assert_eq!(e.kind, ErrorKind::ForeignExecutionFailed);
    assert_eq!(e.message, "ValueError: bad column");

    let second = begin(&mut runtime, request());
    let result = second.imported().resolved().returned().finish(fixture_text());
    assert!(result.is_ok());
}

#[test]
fn session_convert_failure_maps_to_foreign_execution_failed() {
    let mut runtime = RuntimeHandle::new();
    let session = begin(&mut runtime, request());
    let e = session.imported().resolved().returned().convert_failed(s("unprintable value"));
    assert_eq!(e.kind, ErrorKind::ForeignExecutionFailed);
}

#[test]
fn runtime_init_failure_kind_is_distinct() {
    let e = analysis_bridge::errors::BridgeError::new(
        ErrorKind::RuntimeInitFailed,
        s("interpreter unavailable"),
    );
    assert_eq!(e.kind, ErrorKind::RuntimeInitFailed);
    assert!(e.kind != ErrorKind::ForeignExecutionFailed);
}
