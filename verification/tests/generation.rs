use db_api::config;
use db_api::config::Config;
use db_api::database::{Columns, Database, Table, TableSchema};

fn col(name: &str, ty: &str, nullable: bool, comment: &str) -> Columns {
    Columns {
        column_name: name.to_string(),
        ordinal_position: 1,
        column_default: None,
        is_nullable: if nullable { "YES".to_string() } else { "NO".to_string() },
        data_type: String::new(),
        character_maximum_length: None,
        character_octet_length: None,
        numeric_precision: None,
        numeric_scale: None,
        datetime_precision: None,
        character_set_name: None,
        collation_name: None,
        column_type: ty.to_string(),
        column_key: String::new(),
        extra: String::new(),
        privileges: String::new(),
        column_comment: comment.to_string(),
    }
}

fn table(name: &str, comment: &str) -> Table {
    Table { schema: "test".to_string(), name: name.to_string(), comment: comment.to_string() }
}

fn plain_config() -> Config {
    Config {
        db_url: String::new(),
        exclude_table: None,
        just_table: None,
        replace_type: None,
        config: None,
    }
}

fn column_override(json_type: Option<&str>, custom_type: Option<&str>) -> config::Column {
    config::Column {
        json_type: json_type.map(|s| s.to_string()),
        custom_type: custom_type.map(|s| s.to_string()),
    }
}

#[test]
fn plain_field_renders_name_and_type() {
    let c = col("id", "INT UNSIGNED", false, "Primary key");
    let lit = c.to_rust_code(None, None).unwrap();
    assert_eq!(lit.rust_code, "    /// Primary key\n    pub id: u32,");
    assert!(!lit.use_json);
    assert!(!lit.use_date);
}

#[test]
fn nullable_field_is_wrapped_as_option() {
    let c = col("name", "VARCHAR(100)", true, "Display name");
    let lit = c.to_rust_code(None, None).unwrap();
    assert_eq!(lit.rust_code, "    /// Display name\n    pub name: Option<String>,");
}

#[test]
fn nullable_wraps_custom_type_too() {
    let c = col("name", "VARCHAR(100)", true, "Display name");
    let cfg = column_override(None, Some("MyName"));
    let lit = c.to_rust_code(Some(&cfg), None).unwrap();
    assert_eq!(lit.rust_code, "    /// Display name\n    pub name: Option<MyName>,");
}

#[test]
fn nullable_wraps_json_type_too() {
    let c = col("meta", "JSON", true, "Extra data");
    let cfg = column_override(Some("Meta"), None);
    let lit = c.to_rust_code(Some(&cfg), None).unwrap();
    assert_eq!(lit.rust_code, "    /// Extra data\n    pub meta: Option<Json<Meta>>,");
    assert!(lit.use_json);
}

#[test]
fn custom_type_is_used_verbatim() {
    let c = col("state", "TINYINT(1)", false, "State");
    let cfg = column_override(None, Some("MyState"));
    let lit = c.to_rust_code(Some(&cfg), None).unwrap();
    assert_eq!(lit.rust_code, "    /// State\n    pub state: MyState,");
}

#[test]
fn custom_type_beats_json_type_and_aliases() {
    let c = col("state", "INT", false, "State");
    let cfg = column_override(Some("Payload"), Some("MyState"));
    let aliases = vec![("i32".to_string(), "Renamed".to_string())];
    let lit = c.to_rust_code(Some(&cfg), Some(&aliases)).unwrap();
    assert_eq!(lit.rust_code, "    /// State\n    pub state: MyState,");
    assert!(!lit.use_json);
}

#[test]
fn json_type_wraps_payload_and_sets_flag() {
    let c = col("payload", "VARCHAR(255)", false, "Payload");
    let cfg = column_override(Some("Inner"), None);
    let lit = c.to_rust_code(Some(&cfg), None).unwrap();
    assert_eq!(lit.rust_code, "    /// Payload\n    pub payload: Json<Inner>,");
    assert!(lit.use_json);
}

#[test]
fn alias_replaces_default_name_on_exact_match() {
    let c = col("n", "INT", false, "N");
    let aliases = vec![("i32".to_string(), "MyInt".to_string())];
    let lit = c.to_rust_code(None, Some(&aliases)).unwrap();
    assert_eq!(lit.rust_code, "    /// N\n    pub n: MyInt,");
}

#[test]
fn alias_ignores_non_matching_key() {
    let c = col("n", "BIGINT", false, "N");
    let aliases = vec![("i32".to_string(), "MyInt".to_string())];
    let lit = c.to_rust_code(None, Some(&aliases)).unwrap();
    assert_eq!(lit.rust_code, "    /// N\n    pub n: i64,");
}

#[test]
fn alias_does_not_touch_overridden_columns() {
    let c = col("n", "INT", false, "N");
    let cfg = column_override(Some("Inner"), None);
    let aliases = vec![("i32".to_string(), "MyInt".to_string())];
    let lit = c.to_rust_code(Some(&cfg), Some(&aliases)).unwrap();
    assert_eq!(lit.rust_code, "    /// N\n    pub n: Json<Inner>,");
}

#[test]
fn reserved_column_name_is_escaped() {
    let c = col("type", "INT", false, "Kind");
    let lit = c.to_rust_code(None, None).unwrap();
    assert_eq!(lit.rust_code, "    /// Kind\n    pub r#type: i32,");
}

#[test]
fn unrecognized_descriptor_names_column() {
    let c = col("mood", "ENUM('a','b')", false, "Mood");
    let err = c.to_rust_code(None, None).unwrap_err();
    assert_eq!(err.column, "mood");
    assert_eq!(err.descriptor, "ENUM('a','b')");
}

#[test]
fn custom_type_does_not_rescue_bad_descriptor() {
    let c = col("mood", "ENUM('a','b')", false, "Mood");
    let cfg = column_override(None, Some("MyMood"));
    let err = c.to_rust_code(Some(&cfg), None).unwrap_err();
    assert_eq!(err.column, "mood");
}

#[test]
fn classification_flags_survive_alias_renaming() {
    let c = col("price", "DECIMAL(10,2)", false, "Price");
    let aliases = vec![("Decimal".to_string(), "BigDecimal".to_string())];
    let lit = c.to_rust_code(None, Some(&aliases)).unwrap();
    assert_eq!(lit.rust_code, "    /// Price\n    pub price: BigDecimal,");
    assert!(lit.use_decimal);
}

#[test]
fn custom_type_clears_classification_flags() {
    let c = col("at", "DATETIME", false, "At");
    let cfg = column_override(None, Some("MyTime"));
    let lit = c.to_rust_code(Some(&cfg), None).unwrap();
    assert!(!lit.use_datetime);
    assert!(!lit.use_json);
}

#[test]
fn record_renders_camel_case_struct() {
    let t = table("user_account", "Accounts");
    let cols = vec![col("id", "INT", false, "Id")];
    let cfg = plain_config();
    let lit = t.to_rust_code(&cols, &cfg).unwrap();
    assert_eq!(
        lit.rust_code,
        "\n/// Accounts\n#[derive(Debug, Clone, Deserialize, Serialize, FromRow)]\npub struct UserAccount {\n    /// Id\n    pub id: i32,\n}"
    );
}

#[test]
fn record_unions_field_flags() {
    let t = table("orders", "Orders");
    let cols = vec![
        col("id", "INT", false, "Id"),
        col("price", "DECIMAL(10,2)", false, "Price"),
        col("placed_on", "DATE", false, "Placed"),
    ];
    let cfg = plain_config();
    let lit = t.to_rust_code(&cols, &cfg).unwrap();
    assert!(lit.use_decimal);
    assert!(lit.use_date);
    assert!(!lit.use_json);
    assert!(!lit.use_time);
    assert!(!lit.use_datetime);
}

#[test]
fn record_error_names_table_and_first_bad_column() {
    let t = table("users", "Users");
    let cols = vec![
        col("id", "INT", false, "Id"),
        col("mood", "ENUM('a','b')", false, "Mood"),
        col("shape", "SET('x')", false, "Shape"),
    ];
    let cfg = plain_config();
    let err = t.to_rust_code(&cols, &cfg).unwrap_err();
    assert_eq!(err.table, "users");
    assert_eq!(err.column, "mood");
    assert_eq!(err.descriptor, "ENUM('a','b')");
}

#[test]
fn table_override_applies_to_named_column_only() {
    let t = table("users", "Users");
    let cols = vec![col("id", "INT", false, "Id"), col("meta", "TEXT", false, "Meta")];
    let cfg = Config {
        db_url: String::new(),
        exclude_table: None,
        just_table: None,
        replace_type: None,
        config: Some(config::Database {
            tables: Some(vec![(
                "users".to_string(),
                config::Table {
                    columns: Some(vec![(
                        "meta".to_string(),
                        column_override(Some("Meta"), None),
                    )]),
                },
            )]),
        }),
    };
    let lit = t.to_rust_code(&cols, &cfg).unwrap();
    assert_eq!(
        lit.rust_code,
        "\n/// Users\n#[derive(Debug, Clone, Deserialize, Serialize, FromRow)]\npub struct Users {\n    /// Id\n    pub id: i32,\n    /// Meta\n    pub meta: Json<Meta>,\n}"
    );
    assert!(lit.use_json);
}

#[test]
fn just_table_selects_in_list_order_and_skips_unknown() {
    let tables = vec![table("a", ""), table("b", ""), table("c", "")];
    let mut cfg = plain_config();
    cfg.just_table = Some(vec!["b".to_string(), "a".to_string(), "z".to_string()]);
    let selected = Database::select_tables(&cfg, &tables);
    let names: Vec<String> = selected.iter().map(|t| t.name.clone()).collect();
    assert_eq!(names, vec!["b".to_string(), "a".to_string()]);
}

#[test]
fn exclude_table_filters_in_given_order() {
    let tables = vec![table("a", ""), table("b", ""), table("c", "")];
    let mut cfg = plain_config();
    cfg.exclude_table = Some(vec!["c".to_string()]);
    let selected = Database::select_tables(&cfg, &tables);
    let names: Vec<String> = selected.iter().map(|t| t.name.clone()).collect();
    assert_eq!(names, vec!["a".to_string(), "b".to_string()]);
}

#[test]
fn just_table_beats_exclude_table() {
    let tables = vec![table("a", ""), table("b", ""), table("c", "")];
    let mut cfg = plain_config();
    cfg.just_table = Some(vec!["c".to_string()]);
    cfg.exclude_table = Some(vec!["c".to_string()]);
    let selected = Database::select_tables(&cfg, &tables);
    let names: Vec<String> = selected.iter().map(|t| t.name.clone()).collect();
    assert_eq!(names, vec!["c".to_string()]);
}

#[test]
fn no_selection_config_keeps_all_tables() {
    let tables = vec![table("a", ""), table("b", "")];
    let cfg = plain_config();
    let selected = Database::select_tables(&cfg, &tables);
    assert_eq!(selected.len(), 2);
}

#[test]
fn generated_code_without_json_has_baseline_imports() {
    let cfg = plain_config();
    let schemas = vec![TableSchema {
        table: table("users", "Users"),
        columns: vec![col("id", "INT", false, "Id")],
    }];
    let out = Database::generate_rust_code(&cfg, &schemas).unwrap();
    assert_eq!(
        out,
        "use serde::{Serialize, Deserialize};\nuse sqlx::FromRow;\n\n\n/// Users\n#[derive(Debug, Clone, Deserialize, Serialize, FromRow)]\npub struct Users {\n    /// Id\n    pub id: i32,\n}"
    );
}

#[test]
fn end_to_end_users_table_with_json_column() {
    let cfg = plain_config();
    let schemas = vec![TableSchema {
        table: table("users", "User accounts"),
        columns: vec![
            col("id", "INT UNSIGNED", false, "Primary key"),
            col("name", "VARCHAR(100)", false, "Display name"),
            col("meta", "JSON", true, "Extra data"),
        ],
    }];
    let out = Database::generate_rust_code(&cfg, &schemas).unwrap();
    let expected = "use serde::{Serialize, Deserialize};\nuse sqlx::FromRow;\nuse sqlx::types::Json;\n\nuse super::json;\n\n\n/// User accounts\n#[derive(Debug, Clone, Deserialize, Serialize, FromRow)]\npub struct Users {\n    /// Primary key\n    pub id: u32,\n    /// Display name\n    pub name: String,\n    /// Extra data\n    pub meta: Option<Json>,\n}";
    assert_eq!(out, expected);
}

#[test]
fn generated_records_are_separated_by_blank_lines() {
    let cfg = plain_config();
    let schemas = vec![
        TableSchema { table: table("a", "A"), columns: vec![col("x", "INT", false, "X")] },
        TableSchema { table: table("b", "B"), columns: vec![col("y", "TEXT", false, "Y")] },
    ];
    let out = Database::generate_rust_code(&cfg, &schemas).unwrap();
    let expected = "use serde::{Serialize, Deserialize};\nuse sqlx::FromRow;\n\n\n/// A\n#[derive(Debug, Clone, Deserialize, Serialize, FromRow)]\npub struct A {\n    /// X\n    pub x: i32,\n}\n\n/// B\n#[derive(Debug, Clone, Deserialize, Serialize, FromRow)]\npub struct B {\n    /// Y\n    pub y: String,\n}";
    assert_eq!(out, expected);
}

#[test]
fn generation_error_names_first_bad_table() {
    let cfg = plain_config();
    let schemas = vec![
        TableSchema { table: table("a", "A"), columns: vec![col("x", "INT", false, "X")] },
        TableSchema {
            table: table("b", "B"),
            columns: vec![col("bad", "GEOMETRY", false, "Bad")],
        },
    ];
    let err = Database::generate_rust_code(&cfg, &schemas).unwrap_err();
    assert_eq!(err.table, "b");
    assert_eq!(err.column, "bad");
    assert_eq!(err.descriptor, "GEOMETRY");
}
