use patentupload::paths::{file_extension, file_name_of, mirror_path};
use patentupload::utils::is_excel_file;
use std::path::Path;

#[test]
fn spreadsheet_extensions_are_recognized() {
    assert!(is_excel_file("report.xlsx"));
    assert!(is_excel_file("report.xls"));
    assert!(is_excel_file("dir/sub/report.xlsx"));
    assert!(is_excel_file("C:\\data\\report.xls"));
    assert!(is_excel_file("archive.2024.xlsx"));
}

#[test]
fn spreadsheet_extensions_are_recognized_in_any_case() {
    assert!(is_excel_file("REPORT.XLSX"));
    assert!(is_excel_file("report.Xlsx"));
    assert!(is_excel_file("report.xLs"));
    assert!(is_excel_file("report.XLS"));
}

#[test]
fn other_extensions_are_not_recognized() {
    assert!(!is_excel_file("report.txt"));
    assert!(!is_excel_file("report.csv"));
    assert!(!is_excel_file("report.xlsm"));
    assert!(!is_excel_file("report.xlsx.bak"));
    assert!(!is_excel_file("report.xl"));
    assert!(!is_excel_file("report.xlsxx"));
    assert!(!is_excel_file("report"));
    assert!(!is_excel_file(""));
}

#[test]
fn a_name_that_is_only_an_extension_has_none() {
    assert!(!is_excel_file(".xlsx"));
    assert!(!is_excel_file("dir/.xls"));
    assert!(!is_excel_file("xlsx"));
    assert!(!is_excel_file(".."));
    assert!(!is_excel_file("."));
}

#[test]
fn only_the_last_component_counts() {
    assert!(!is_excel_file("dir.xlsx/readme"));
    assert!(!is_excel_file("dir.xlsx/"));
    assert!(!is_excel_file("dir.xlsx\\notes.txt"));
    assert!(is_excel_file("dir.txt/report.xlsx"));
}

#[test]
fn extension_is_what_follows_the_last_dot() {
    assert_eq!(file_extension("a/b/c.tar.gz"), Some("gz".to_string()));
    assert_eq!(file_extension("c.xlsx"), Some("xlsx".to_string()));
    assert_eq!(file_extension("c."), Some("".to_string()));
    assert_eq!(file_extension("..x"), Some("x".to_string()));
    assert_eq!(file_extension("c"), None);
    assert_eq!(file_extension(".hidden"), None);
    assert_eq!(file_extension(".."), None);
    assert_eq!(file_extension("a.b/c"), None);
    assert_eq!(file_extension(""), None);
}

#[test]
fn extension_agrees_with_the_standard_library_on_file_paths() {
    let paths = [
        "report.xlsx",
        "dir/report.XLS",
        "dir/sub/archive.tar.gz",
        "plain",
        ".hidden",
        "dir/.hidden.txt",
        "a.b/c",
        "a.b/c.d",
        "trailing.",
        "..double",
        "/abs/path/file.xlsx",
        "./rel/file.xls",
        "../up/file.txt",
        "名称.xlsx",
        "dir/专利 列表.XLSX",
    ];
    for path in paths {
        let expected = Path::new(path).extension().and_then(|e| e.to_str()).map(String::from);
        assert_eq!(file_extension(path), expected, "path {}", path);
    }
}

#[test]
fn file_name_is_the_last_component() {
    assert_eq!(file_name_of("a/b/c.xlsx"), "c.xlsx");
    assert_eq!(file_name_of("c.xlsx"), "c.xlsx");
    assert_eq!(file_name_of("C:\\data\\c.xlsx"), "c.xlsx");
    assert_eq!(file_name_of("a/b/"), "");
    assert_eq!(file_name_of(""), "");
    assert_eq!(file_name_of("/"), "");
}

#[test]
fn mirrored_path_replaces_the_source_root() {
    assert_eq!(mirror_path("in/a.xlsx", "in", "out"), Some("out/a.xlsx".to_string()));
    assert_eq!(mirror_path("in/sub/a.xlsx", "in", "out"), Some("out/sub/a.xlsx".to_string()));
    assert_eq!(
        mirror_path("/data/in/x/y/z.xls", "/data/in", "/data/out"),
        Some("/data/out/x/y/z.xls".to_string())
    );
}

#[test]
fn mirrored_path_has_one_separator_at_the_joint() {
    assert_eq!(mirror_path("in/a.xlsx", "in/", "out"), Some("out/a.xlsx".to_string()));
    assert_eq!(mirror_path("in/a.xlsx", "in", "out/"), Some("out/a.xlsx".to_string()));
    assert_eq!(mirror_path("in/a.xlsx", "in/", "out/"), Some("out/a.xlsx".to_string()));
    assert_eq!(mirror_path("in//a.xlsx", "in", "out"), Some("out/a.xlsx".to_string()));
}

#[test]
fn mirrored_path_keeps_the_separator_of_the_source() {
    assert_eq!(
        mirror_path("C:\\in\\sub\\a.xlsx", "C:\\in", "D:\\out"),
        Some("D:\\out\\sub\\a.xlsx".to_string())
    );
    assert_eq!(
        mirror_path("C:\\in\\a.xlsx", "C:\\in\\", "D:\\out"),
        Some("D:\\out\\a.xlsx".to_string())
    );
}

#[test]
fn mirrored_path_under_an_empty_root() {
    assert_eq!(mirror_path("in/a.xlsx", "in", ""), Some("a.xlsx".to_string()));
    assert_eq!(mirror_path("a.xlsx", "", "out"), Some("out/a.xlsx".to_string()));
}

#[test]
fn mirrored_path_of_the_root_itself() {
    assert_eq!(mirror_path("in", "in", "out"), Some("out/".to_string()));
}

#[test]
fn a_file_outside_the_source_root_has_no_mirror() {
    assert_eq!(mirror_path("other/a.xlsx", "in", "out"), None);
    assert_eq!(mirror_path("inner/a.xlsx", "in", "out"), None);
    assert_eq!(mirror_path("in", "in/sub", "out"), None);
    assert_eq!(mirror_path("a.xlsx", "in", "out"), None);
    assert_eq!(mirror_path("", "in", "out"), None);
}

#[test]
fn mirrored_path_agrees_with_the_standard_library_on_walked_paths() {
    let cases = [
        ("in/a.xlsx", "in", "out"),
        ("in/sub/deep/a.xls", "in", "out"),
        ("/abs/in/a.xlsx", "/abs/in", "/abs/out"),
        ("in/a.xlsx", "in/", "out"),
        ("in/a.xlsx", "in", "out/"),
        ("./in/a.xlsx", "./in", "./out"),
        ("other/a.xlsx", "in", "out"),
        ("inner/a.xlsx", "in", "out"),
    ];
    for (file, source, target) in cases {
        let expected = Path::new(file)
            .strip_prefix(source)
            .ok()
            .map(|rest| Path::new(target).join(rest).to_string_lossy().to_string());
        assert_eq!(mirror_path(file, source, target), expected, "file {}", file);
    }
}
