//! Tests of the benchmark-summary records and their builders.

use simplematch::summary::Diffs;
use simplematch::summary::ProfileInfo;
use simplematch::summary::SummaryFormat;
use simplematch::summary::SummaryOutput;

#[test]
fn diffs_builder_completes_after_all_fields() {
    let diffs: Diffs = Diffs::builder()
        .diff_pct(String::from("5.0000"))
        .factor(String::from("1.0500"))
        .try_into()
        .unwrap();
    assert_eq!(diffs.diff_pct, "5.0000");
    assert_eq!(diffs.factor, "1.0500");
}

#[test]
fn diffs_builder_reports_missing_field() {
    let result: Result<Diffs, _> = Diffs::builder()
        .factor(String::from("1.0500"))
        .try_into();
    let error = result.err().expect("diff_pct was never supplied");
    assert_eq!(error.0, "no value supplied for diff_pct");
}

#[test]
fn profile_info_builder_defaults_optional_fields() {
    let info: ProfileInfo = ProfileInfo::builder()
        .command(String::from("target/release/bench"))
        .path(String::from("callgrind.out.1234"))
        .pid(1234)
        .try_into()
        .unwrap();
    assert_eq!(info.command, "target/release/bench");
    assert_eq!(info.path, "callgrind.out.1234");
    assert_eq!(info.pid, 1234);
    assert_eq!(info.details, None);
    assert_eq!(info.parent_pid, None);
    assert_eq!(info.part, None);
    assert_eq!(info.thread, None);
}

#[test]
fn profile_info_builder_keeps_supplied_fields() {
    let info: ProfileInfo = ProfileInfo::builder()
        .command(String::from("bench"))
        .details(Some(String::from("first thread")))
        .parent_pid(Some(1))
        .part(Some(2))
        .path(String::from("out"))
        .pid(77)
        .thread(Some(3))
        .try_into()
        .unwrap();
    assert_eq!(info.details.as_deref(), Some("first thread"));
    assert_eq!(info.parent_pid, Some(1));
    assert_eq!(info.part, Some(2));
    assert_eq!(info.thread, Some(3));
}

#[test]
fn profile_info_builder_reports_first_missing_field() {
    let result: Result<ProfileInfo, _> = ProfileInfo::builder().pid(1).try_into();
    let error = result.err().expect("command and path were never supplied");
    assert_eq!(error.0, "no value supplied for command");
}

#[test]
fn summary_output_builder_round_trip() {
    let output: SummaryOutput = SummaryOutput::builder()
        .format(SummaryFormat::Json)
        .path(String::from("summary.json"))
        .try_into()
        .unwrap();
    assert_eq!(output.format, SummaryFormat::Json);
    assert_eq!(output.path, "summary.json");

    let pretty: SummaryOutput = SummaryOutput::builder()
        .format(SummaryFormat::PrettyJson)
        .path(String::from("summary.json"))
        .try_into()
        .unwrap();
    assert_eq!(pretty.format, SummaryFormat::PrettyJson);
}

#[test]
fn summary_output_builder_reports_missing_format() {
    let result: Result<SummaryOutput, _> = SummaryOutput::builder()
        .path(String::from("summary.json"))
        .try_into();
    let error = result.err().expect("format was never supplied");
    assert_eq!(error.0, "no value supplied for format");
}
