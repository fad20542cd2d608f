use jailer::fio::{
    blocks_of, extract_blocks, extract_json_block, parse_fio_log, results_ready, FioError,
    FioLogEntry,
};
use serde_json::Value;

const REPORT: &str = r#"Running benchmark: mixed with engine: libaio
{
  "fio version" : "fio-3.41",
  "jobs" : [{"jobname":"mixed","read":{"iops":202332}}]
}
===ALL_DONE==="#;

#[test]
fn extracts_json_with_prefix_and_suffix_lines() {
    let raw = REPORT;
    let json = extract_json_block(raw).expect("should find JSON block");
    let val: Value = serde_json::from_str(json).expect("should parse");
    assert_eq!(val["fio version"], "fio-3.41");
    assert_eq!(val["jobs"][0]["read"]["iops"], 202332);
}

#[test]
fn extracts_json_with_only_prefix_line() {
    let raw = "status line\n{\"x\":1}";
    let json = extract_json_block(raw).expect("should find JSON block");
    assert_eq!(json, "{\"x\":1}");
}

#[test]
fn extracts_json_with_only_suffix_line() {
    let raw = "{\"x\":1}\n===ALL_DONE===";
    let json = extract_json_block(raw).expect("should find JSON block");
    assert_eq!(json, "{\"x\":1}");
}

#[test]
fn returns_none_for_no_braces() {
    assert!(extract_json_block("just some text").is_none());
}

#[test]
fn main_extracts_json_with_prefix_and_suffix_lines() {
    let raw = REPORT;
    let json = extract_json_block(raw).expect("should find JSON block");
    let val: Value = serde_json::from_str(json).expect("should parse");
    assert_eq!(val["fio version"], "fio-3.41");
    assert_eq!(val["jobs"][0]["read"]["iops"], 202332);
}

#[test]
fn main_extracts_json_with_only_prefix_line() {
    let raw = "status line\n{\"x\":1}";
    let json = extract_json_block(raw).expect("should find JSON block");
    assert_eq!(json, "{\"x\":1}");
}

#[test]
fn main_extracts_json_with_only_suffix_line() {
    let raw = "{\"x\":1}\n===ALL_DONE===";
    let json = extract_json_block(raw).expect("should find JSON block");
    assert_eq!(json, "{\"x\":1}");
}

#[test]
fn main_returns_none_for_no_braces() {
    assert!(extract_json_block("just some text").is_none());
}

#[test]
fn parses_iops_log_lines() {
    let raw = "123,456,0\n124,789,1\n";
    let entries = parse_fio_log(raw);
    assert_eq!(entries.len(), 2);
    assert_eq!(entries[0].timestamp_ms, 123);
    assert_eq!(entries[0].value, 456);
    assert_eq!(entries[0].direction, 0);
    assert_eq!(entries[1].direction, 1);
}

#[test]
fn parses_lat_log_lines_with_block_size() {
    let raw = "555,1000,0,4096\n556,1500,1,8192\n";
    let entries = parse_fio_log(raw);
    assert_eq!(entries.len(), 2);
    assert_eq!(entries[0].block_size, Some(4096));
    assert_eq!(entries[1].block_size, Some(8192));
}

#[test]
fn parses_fio_log_with_empty_lines() {
    let raw = "\n\n123,456,0\n\n124,789,1\n\n";
    let entries = parse_fio_log(raw);
    assert_eq!(entries.len(), 2);
}

#[test]
fn parses_fio_log_with_malformed_lines() {
    let raw = "123,456,0\nbad_line\n124,789,1\n";
    let entries = parse_fio_log(raw);
    assert_eq!(entries.len(), 2);
}

#[test]
fn fio_fields_are_trimmed_and_checked() {
    let raw = " 1 ,\u{a0}+2, 255 \r\n1,2,256\n-1,2,0\n18446744073709551615,0,0\n\
               18446744073709551616,0,0\n1,2,0,junk\n1,2,0,3,4\n1,2\n,,\n1,,0";
    let entries = parse_fio_log(raw);
    let entry = |timestamp_ms, value, direction| FioLogEntry {
        timestamp_ms,
        value,
        direction,
        block_size: None,
    };
    assert_eq!(entries, vec![entry(1, 2, 255), entry(u64::MAX, 0, 0), entry(1, 2, 0)]);
}

#[test]
fn empty_block_between_swapped_neighbours() {
    assert_eq!(extract_json_block("a}{b"), Some(""));
    assert_eq!(extract_json_block("{ \u{e9} {} x}\u{e9}"), Some("{ \u{e9} {} x}"));
    assert_eq!(extract_json_block("only {"), None);
}

#[test]
fn blocks_of_a_serial_log() {
    let content = "boot\n{\"a\":1}\n===FIO_JSON_END===\n1,1,1\n===FIO_LOG iops===\n1,2,0\nnoise\n\
                   ===FIO_LOG_END===\n===FIO_LOG_END===\n===FIO_LOG bw===\n9,9,9\n\
                   ===FIO_LOG bw===\n3,4,1,512\n===FIO_LOG_END===\n===FIO_LOG iops===\r\n\
                   5,6,0\r\n===FIO_LOG_END===\r\n===FIO_LOG open===\n7,7,7\n";
    let (json, logs) = extract_blocks(content).unwrap();
    assert_eq!(json, "{\"a\":1}");
    assert_eq!(logs.len(), 2);
    assert_eq!(logs[0].tag, "iops");
    assert_eq!(logs[0].entries.len(), 1);
    assert_eq!(logs[0].entries[0].timestamp_ms, 5);
    assert_eq!(logs[1].tag, "bw");
    assert_eq!(logs[1].entries.len(), 1);
    assert_eq!(logs[1].entries[0].block_size, Some(512));
}

#[test]
fn blocks_need_a_json_object() {
    let error = extract_blocks("===FIO_LOG iops===\n").unwrap_err();
    assert_eq!(error, FioError::NoReport);
    assert_eq!(error.message(), "No JSON object found in serial output");
}

#[test]
fn a_report_that_is_no_json_is_refused() {
    let error = extract_blocks("status {x: 1} done").unwrap_err();
    assert_eq!(error.message(), "Failed to parse fio JSON: '{x: 1}'");
    let FioError::BadReport { block, cause } = error else {
        panic!("the report was found");
    };
    assert_eq!(block, "{x: 1}");
    assert_eq!(cause, serde_json::from_str::<Value>("{x: 1}").unwrap_err().to_string());
}

#[test]
fn a_report_is_handed_on_as_its_value() {
    let (json, logs) = extract_blocks("go\n{ \"b\" : [1, 2.50] ,\n \"a\": null }\n").unwrap();
    assert_eq!(json, "{\"a\":null,\"b\":[1,2.5]}");
    assert!(logs.is_empty());
}

#[test]
fn what_reading_the_report_came_to_decides() {
    let content = "===FIO_LOG iops===\n1,2,0\n===FIO_LOG_END===\n";
    let (json, logs) = blocks_of(content, "{}", Ok("{}".to_string())).unwrap();
    assert_eq!(json, "{}");
    assert_eq!(logs[0].entries.len(), 1);
    assert_eq!(
        blocks_of(content, "{", Err("EOF".to_string())),
        Err(FioError::BadReport { block: "{".to_string(), cause: "EOF".to_string() })
    );
}

#[test]
fn results_are_ready_with_their_marker() {
    assert!(results_ready(Some("x ===RESULTS_END=== y")));
    assert!(results_ready(Some("===RESULTS_END===")));
    assert!(!results_ready(Some("===RESULTS_END==")));
    assert!(!results_ready(None));
}
