use patentupload::convert::{ConversionPass, ConversionStep, ConvertError};

fn strings(items: &[&str]) -> Vec<String> {
    items.iter().map(|s| s.to_string()).collect()
}

fn pass(files: &[&str]) -> ConversionPass {
    ConversionPass::new(strings(files), "in".to_string(), "out".to_string())
}

fn convert(source: &str, target: &str) -> ConversionStep {
    ConversionStep::Convert { source: source.to_string(), target: target.to_string() }
}

#[test]
fn files_are_converted_in_order_into_their_mirrors() {
    let mut pass = pass(&["in/a.xlsx", "in/sub/b.xls"]);
    assert_eq!(pass.next_step(), convert("in/a.xlsx", "out/a.xlsx"));
    pass.record(Ok(()));
    assert_eq!(pass.next_step(), convert("in/sub/b.xls", "out/sub/b.xls"));
    pass.record(Ok(()));
    assert_eq!(
        pass.next_step(),
        ConversionStep::Finished { outputs: strings(&["out/a.xlsx", "out/sub/b.xls"]) }
    );
}

#[test]
fn a_pass_over_no_files_is_finished_at_once() {
    assert_eq!(pass(&[]).next_step(), ConversionStep::Finished { outputs: vec![] });
}

#[test]
fn asking_again_gives_the_same_step() {
    let pass = pass(&["in/a.xlsx"]);
    assert_eq!(pass.next_step(), pass.next_step());
}

#[test]
fn the_first_failure_ends_the_pass() {
    let mut pass = pass(&["in/a.xlsx", "in/b.xlsx", "in/c.xlsx"]);
    pass.record(Ok(()));
    let error = ConvertError::Format { message: "not a workbook".to_string() };
    pass.record(Err(error.clone()));
    assert_eq!(pass.next_step(), ConversionStep::Aborted { error: error.clone() });
    pass.record(Ok(()));
    pass.record(Err(ConvertError::Write { message: "later".to_string() }));
    assert_eq!(pass.next_step(), ConversionStep::Aborted { error });
}

#[test]
fn a_file_outside_the_source_root_ends_the_pass() {
    let mut pass = pass(&["in/a.xlsx", "elsewhere/b.xlsx", "in/c.xlsx"]);
    assert_eq!(pass.next_step(), convert("in/a.xlsx", "out/a.xlsx"));
    pass.record(Ok(()));
    let aborted =
        ConversionStep::Aborted { error: ConvertError::Path { file: "elsewhere/b.xlsx".to_string() } };
    assert_eq!(pass.next_step(), aborted);
    pass.record(Ok(()));
    assert_eq!(pass.next_step(), aborted);
}

#[test]
fn a_report_after_the_end_of_a_pass_changes_nothing() {
    let mut pass = pass(&["in/a.xlsx"]);
    pass.record(Ok(()));
    let finished = pass.next_step();
    pass.record(Ok(()));
    pass.record(Err(ConvertError::Io { message: "late".to_string() }));
    assert_eq!(pass.next_step(), finished);
    assert_eq!(finished, ConversionStep::Finished { outputs: strings(&["out/a.xlsx"]) });
}

#[test]
fn convert_errors_say_what_is_wrong() {
    assert_eq!(
        ConvertError::Path { file: "x/y.xlsx".to_string() }.message(),
        "Invalid path structure: x/y.xlsx"
    );
    assert_eq!(ConvertError::Io { message: "denied".to_string() }.message(), "denied");
    assert_eq!(ConvertError::Format { message: "corrupt".to_string() }.message(), "corrupt");
    assert_eq!(ConvertError::Write { message: "disk full".to_string() }.message(), "disk full");
}

#[test]
fn a_copy_of_an_error_is_equal_to_it() {
    for error in [
        ConvertError::Path { file: "f".to_string() },
        ConvertError::Io { message: "i".to_string() },
        ConvertError::Format { message: "m".to_string() },
        ConvertError::Write { message: "w".to_string() },
    ] {
        assert_eq!(error.clone_error(), error);
    }
}
