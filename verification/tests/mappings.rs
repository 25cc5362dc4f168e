use patentupload::cli::{parse_column_mapping, parse_column_mappings, CliArgs, MappingError};
use patentupload::types::ColumnMapping;

fn rule(original: &str, mapped: &str) -> ColumnMapping {
    ColumnMapping { original: original.to_string(), mapped: mapped.to_string() }
}

fn tokens(items: &[&str]) -> Vec<String> {
    items.iter().map(|s| s.to_string()).collect()
}

#[test]
fn a_rule_is_original_colon_mapped() {
    assert_eq!(parse_column_mapping("A:X"), Ok(rule("A", "X")));
    assert_eq!(parse_column_mapping("申请号:申请号码"), Ok(rule("申请号", "申请号码")));
}

#[test]
fn white_space_around_either_side_is_dropped() {
    assert_eq!(parse_column_mapping("  A : X  "), Ok(rule("A", "X")));
    assert_eq!(parse_column_mapping("first name:given name"), Ok(rule("first name", "given name")));
    assert_eq!(parse_column_mapping("\tA\u{3000}:\u{a0}X\n"), Ok(rule("A", "X")));
}

#[test]
fn a_rule_without_exactly_one_colon_is_malformed() {
    assert_eq!(
        parse_column_mapping("AX"),
        Err(MappingError::Malformed { token: "AX".to_string() })
    );
    assert_eq!(
        parse_column_mapping("A:B:C"),
        Err(MappingError::Malformed { token: "A:B:C".to_string() })
    );
    assert_eq!(parse_column_mapping(""), Err(MappingError::Malformed { token: "".to_string() }));
    assert_eq!(
        parse_column_mapping("::"),
        Err(MappingError::Malformed { token: "::".to_string() })
    );
}

#[test]
fn a_rule_with_an_empty_side_is_rejected() {
    assert_eq!(
        parse_column_mapping(":X"),
        Err(MappingError::EmptyName { token: ":X".to_string() })
    );
    assert_eq!(
        parse_column_mapping("A:"),
        Err(MappingError::EmptyName { token: "A:".to_string() })
    );
    assert_eq!(parse_column_mapping(":"), Err(MappingError::EmptyName { token: ":".to_string() }));
    assert_eq!(
        parse_column_mapping("  : X"),
        Err(MappingError::EmptyName { token: "  : X".to_string() })
    );
    assert_eq!(
        parse_column_mapping("A: \t"),
        Err(MappingError::EmptyName { token: "A: \t".to_string() })
    );
}

#[test]
fn rules_are_read_in_order() {
    assert_eq!(
        parse_column_mappings(&tokens(&["A:X", "B : Y", "A:Z"])),
        Ok(vec![rule("A", "X"), rule("B", "Y"), rule("A", "Z")])
    );
    assert_eq!(parse_column_mappings(&tokens(&[])), Ok(vec![]));
}

#[test]
fn the_first_unreadable_rule_ends_the_reading() {
    assert_eq!(
        parse_column_mappings(&tokens(&["A:X", "bad", ":Y"])),
        Err(MappingError::Malformed { token: "bad".to_string() })
    );
    assert_eq!(
        parse_column_mappings(&tokens(&["A:X", ":Y", "bad"])),
        Err(MappingError::EmptyName { token: ":Y".to_string() })
    );
}

#[test]
fn mapping_errors_say_what_is_wrong() {
    assert_eq!(
        MappingError::Malformed { token: "bad".to_string() }.message(),
        "列映射格式错误: 'bad'。正确格式: '原列名:映射列名'"
    );
    assert_eq!(
        MappingError::EmptyName { token: ":Y".to_string() }.message(),
        "列名不能为空: ':Y'"
    );
}

#[test]
fn conversion_is_wanted_where_rules_are_given() {
    let mut args = CliArgs {
        server: "http://localhost:3000".to_string(),
        username: "admin".to_string(),
        password: "secret".to_string(),
        input: "in".to_string(),
        output: "out".to_string(),
        only_valid_invention: false,
        column_mappings: vec![],
    };
    assert!(!args.wants_conversion());
    args.column_mappings.push("A:X".to_string());
    assert!(args.wants_conversion());
}
