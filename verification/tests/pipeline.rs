use patentupload::batch::{BatchReport, FailedFile};
use patentupload::cli::{CliArgs, MappingError};
use patentupload::convert::ConvertError;
use patentupload::excel::{convert_rows, CellValue};
use patentupload::pipeline::{Run, RunAction, RunError, RunEvent};
use patentupload::scan::{scan_entries, FileEntry};
use patentupload::session::{AuthError, LoginData, LoginExchange, LoginRequest, LoginResponse};
use patentupload::types::{ColumnMapping, ScanResult};
use patentupload::upload::{UploadData, UploadExchange, UploadResult};

fn args(mappings: &[&str]) -> CliArgs {
    CliArgs {
        server: "http://localhost:3000/".to_string(),
        username: "admin".to_string(),
        password: "secret".to_string(),
        input: "in".to_string(),
        output: "out".to_string(),
        only_valid_invention: true,
        column_mappings: mappings.iter().map(|s| s.to_string()).collect(),
    }
}

fn logged_in(token: &str) -> RunEvent {
    RunEvent::LoggedIn {
        exchange: LoginExchange::Answered {
            response: LoginResponse {
                success: true,
                data: Some(LoginData { token: token.to_string() }),
                message: None,
            },
        },
    }
}

fn scanned(paths: &[&str]) -> RunEvent {
    let entries: Vec<FileEntry> =
        paths.iter().map(|p| FileEntry { path: p.to_string(), size: Some(1) }).collect();
    RunEvent::Scanned { result: Ok(scan_entries(&entries)) }
}

fn uploaded_ok() -> RunEvent {
    RunEvent::Uploaded {
        exchange: UploadExchange::Answered {
            result: UploadResult {
                success: true,
                data: Some(UploadData { modified_count: 1, upserted_count: 0, excel_count: 1 }),
                message: None,
            },
        },
    }
}

fn upload(index: usize, path: &str, token: &str) -> RunAction {
    RunAction::Upload {
        index,
        path: path.to_string(),
        url: "http://localhost:3000/admin/patent/import?onlyValidInvention=true".to_string(),
        authorization: format!("Bearer {}", token),
        timeout_secs: 600,
    }
}

#[test]
fn a_run_begins_with_the_login() {
    let run = Run::new(args(&[]));
    assert_eq!(
        run.next_action(),
        RunAction::Login {
            url: "http://localhost:3000/auth/admin/login".to_string(),
            request: LoginRequest { username: "admin".to_string(), password: "secret".to_string() },
        }
    );
}

#[test]
fn a_failed_login_ends_the_run_before_anything_else() {
    let run = Run::new(args(&["A:X"]));
    let run = run.advance(RunEvent::LoggedIn { exchange: LoginExchange::Refused { status: 401 } });
    let abort = RunAction::Abort { error: RunError::Auth { error: AuthError::Status { status: 401 } } };
    assert_eq!(run.next_action(), abort);
    let run = run.advance(scanned(&["in/a.xlsx"]));
    let run = run.advance(RunEvent::Converted { result: Ok(()) });
    let run = run.advance(uploaded_ok());
    let run = run.advance(RunEvent::CooledDown);
    let run = run.advance(logged_in("late"));
    assert_eq!(run.next_action(), abort);
}

#[test]
fn the_scan_follows_the_login() {
    let run = Run::new(args(&[])).advance(logged_in("tok"));
    assert_eq!(run.next_action(), RunAction::Scan { directory: "in".to_string() });
}

#[test]
fn a_failed_scan_ends_the_run() {
    let run = Run::new(args(&[])).advance(logged_in("tok"));
    let run = run.advance(RunEvent::Scanned { result: Err("no such directory".to_string()) });
    assert_eq!(
        run.next_action(),
        RunAction::Abort { error: RunError::Scan { message: "no such directory".to_string() } }
    );
}

#[test]
fn without_mapping_rules_the_scanned_files_are_uploaded_as_they_are() {
    let run = Run::new(args(&[])).advance(logged_in("tok"));
    let run = run.advance(scanned(&["in/a.xlsx", "in/readme.md", "in/sub/b.xls"]));
    assert_eq!(run.next_action(), upload(0, "in/a.xlsx", "tok"));
    let run = run.advance(uploaded_ok());
    assert_eq!(run.next_action(), RunAction::CoolDown { seconds: 3 });
    let run = run.advance(RunEvent::CooledDown);
    assert_eq!(run.next_action(), upload(1, "in/sub/b.xls", "tok"));
    let run = run.advance(uploaded_ok());
    assert_eq!(
        run.next_action(),
        RunAction::Finish {
            report: BatchReport { success_count: 2, fail_count: 0, failed_files: vec![] }
        }
    );
}

#[test]
fn with_mapping_rules_the_files_are_converted_and_the_copies_uploaded() {
    let run = Run::new(args(&["A:X", " B : Y "])).advance(logged_in("tok"));
    let run = run.advance(scanned(&["in/a.xlsx", "in/sub/b.xlsx"]));
    let rules = vec![
        ColumnMapping { original: "A".to_string(), mapped: "X".to_string() },
        ColumnMapping { original: "B".to_string(), mapped: "Y".to_string() },
    ];
    assert_eq!(
        run.next_action(),
        RunAction::Convert {
            source: "in/a.xlsx".to_string(),
            target: "out/a.xlsx".to_string(),
            rules: rules.clone(),
        }
    );
    let run = run.advance(RunEvent::Converted { result: Ok(()) });
    assert_eq!(
        run.next_action(),
        RunAction::Convert {
            source: "in/sub/b.xlsx".to_string(),
            target: "out/sub/b.xlsx".to_string(),
            rules,
        }
    );
    let run = run.advance(RunEvent::Converted { result: Ok(()) });
    assert_eq!(run.next_action(), upload(0, "out/a.xlsx", "tok"));
    let run = run.advance(RunEvent::Uploaded { exchange: UploadExchange::SendFailed });
    assert_eq!(run.next_action(), upload(1, "out/sub/b.xlsx", "tok"));
    let run = run.advance(uploaded_ok());
    assert_eq!(
        run.next_action(),
        RunAction::Finish {
            report: BatchReport {
                success_count: 1,
                fail_count: 1,
                failed_files: vec![FailedFile {
                    path: "out/a.xlsx".to_string(),
                    reason: "发送上传请求失败".to_string(),
                }],
            }
        }
    );
}

#[test]
fn an_unreadable_mapping_rule_ends_the_run_after_the_scan() {
    let run = Run::new(args(&["A:X", "broken"])).advance(logged_in("tok"));
    assert_eq!(run.next_action(), RunAction::Scan { directory: "in".to_string() });
    let run = run.advance(scanned(&["in/a.xlsx"]));
    assert_eq!(
        run.next_action(),
        RunAction::Abort {
            error: RunError::Mapping {
                error: MappingError::Malformed { token: "broken".to_string() }
            }
        }
    );
}

#[test]
fn a_failed_conversion_ends_the_run_before_any_upload() {
    let run = Run::new(args(&["A:X"])).advance(logged_in("tok"));
    let run = run.advance(scanned(&["in/a.xlsx", "in/b.xlsx"]));
    let run = run.advance(RunEvent::Converted { result: Ok(()) });
    let error = ConvertError::Format { message: "corrupt".to_string() };
    let run = run.advance(RunEvent::Converted { result: Err(error.clone()) });
    let abort = RunAction::Abort { error: RunError::Convert { error } };
    assert_eq!(run.next_action(), abort);
    let run = run.advance(uploaded_ok());
    assert_eq!(run.next_action(), abort);
}

#[test]
fn a_scanned_file_outside_the_input_directory_ends_the_run() {
    let run = Run::new(args(&["A:X"])).advance(logged_in("tok"));
    let scan = ScanResult { file_count: 1, total_size: 0, files: vec!["elsewhere/a.xlsx".to_string()] };
    let run = run.advance(RunEvent::Scanned { result: Ok(scan) });
    assert_eq!(
        run.next_action(),
        RunAction::Abort {
            error: RunError::Convert {
                error: ConvertError::Path { file: "elsewhere/a.xlsx".to_string() }
            }
        }
    );
}

#[test]
fn a_scan_without_spreadsheets_finishes_with_an_empty_report() {
    let empty = BatchReport { success_count: 0, fail_count: 0, failed_files: vec![] };
    let run = Run::new(args(&[])).advance(logged_in("tok")).advance(scanned(&["in/readme.md"]));
    assert_eq!(run.next_action(), RunAction::Finish { report: empty.clone() });
    let run = Run::new(args(&["A:X"])).advance(logged_in("tok")).advance(scanned(&[]));
    assert_eq!(run.next_action(), RunAction::Finish { report: empty });
}

#[test]
fn no_failed_upload_ends_the_run() {
    let mut run = Run::new(args(&[])).advance(logged_in("tok"));
    run = run.advance(scanned(&["in/0.xlsx", "in/1.xlsx", "in/2.xlsx", "in/3.xlsx", "in/4.xlsx"]));
    let exchanges = [
        UploadExchange::FileMissing,
        UploadExchange::TimedOut,
        UploadExchange::Refused { status: 500, body: None },
        UploadExchange::Undecodable,
        UploadExchange::ReadFailed,
    ];
    for (index, exchange) in exchanges.into_iter().enumerate() {
        assert_eq!(run.next_action(), upload(index, &format!("in/{}.xlsx", index), "tok"));
        run = run.advance(RunEvent::Uploaded { exchange });
    }
    match run.next_action() {
        RunAction::Finish { report } => {
            assert_eq!(report.success_count, 0);
            assert_eq!(report.fail_count, 5);
            let reasons: Vec<&str> = report.failed_files.iter().map(|f| f.reason.as_str()).collect();
            assert_eq!(
                reasons,
                vec![
                    "文件不存在: in/0.xlsx",
                    "上传超时 (10分钟)",
                    "上传失败 [500 Internal Server Error]: 无法获取错误信息",
                    "解析响应失败",
                    "读取文件失败",
                ]
            );
        }
        other => panic!("the run is not finished: {:?}", other),
    }
}

#[test]
fn an_event_that_answers_no_action_is_ignored() {
    let run = Run::new(args(&[]));
    let first = run.next_action();
    let run = run.advance(uploaded_ok());
    let run = run.advance(RunEvent::CooledDown);
    let run = run.advance(scanned(&["in/a.xlsx"]));
    assert_eq!(run.next_action(), first);
    let run = run.advance(logged_in("tok")).advance(logged_in("other"));
    assert_eq!(run.next_action(), RunAction::Scan { directory: "in".to_string() });
    let run = run.advance(scanned(&["in/a.xlsx"])).advance(scanned(&["in/b.xlsx"]));
    assert_eq!(run.next_action(), upload(0, "in/a.xlsx", "tok"));
}

#[test]
fn one_file_with_one_rule_from_scan_to_converted_rows() {
    let run = Run::new(args(&["A:X"])).advance(logged_in("tok")).advance(scanned(&["in/book.xlsx"]));
    let rules = match run.next_action() {
        RunAction::Convert { source, target, rules } => {
            assert_eq!(source, "in/book.xlsx");
            assert_eq!(target, "out/book.xlsx");
            rules
        }
        other => panic!("no conversion is asked for: {:?}", other),
    };
    let rows = vec![
        vec![CellValue::String("A".to_string()), CellValue::String("B".to_string())],
        vec![CellValue::Int(1), CellValue::String("A".to_string())],
        vec![CellValue::Float("2.5".to_string()), CellValue::Empty],
    ];
    assert_eq!(
        convert_rows(&rows, &rules),
        vec![
            vec!["X".to_string(), "B".to_string()],
            vec!["1".to_string(), "A".to_string()],
            vec!["2.5".to_string(), "".to_string()],
        ]
    );
    let run = run.advance(RunEvent::Converted { result: Ok(()) });
    assert_eq!(run.next_action(), upload(0, "out/book.xlsx", "tok"));
}
