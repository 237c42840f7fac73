use sqlgen::database::column::ColumnType;
use sqlgen::database::keys::{ForeignKey, Key};
use sqlgen::database::table::Table;
use sqlgen::error::SchemaError;
use sqlgen::parsers::{
    parse_statements, parse_type, AlterSpecification, ColumnDefinition, DataTypeProperty,
    IndexKind, Statement, TypeDesc,
};

fn users_create() -> Statement {
    Statement::CreateTable {
        name: "users".to_string(),
        definitions: vec![
            ColumnDefinition {
                name: "id".to_string(),
                type_: TypeDesc::Int,
                properties: vec![DataTypeProperty::AutoIncrement],
            },
            ColumnDefinition {
                name: "email".to_string(),
                type_: TypeDesc::VarChar,
                properties: vec![DataTypeProperty::NotNull],
            },
            ColumnDefinition {
                name: "bio".to_string(),
                type_: TypeDesc::Text,
                properties: vec![],
            },
        ],
    }
}

#[test]
fn scenario_create_users() {
    let schema = parse_statements(&vec![users_create()]).unwrap();
    assert_eq!(schema.tables.len(), 1);
    let table = &schema.tables[0];
    assert_eq!(table.name, "users");
    assert_eq!(table.columns.len(), 3);
    assert_eq!(table.columns[0].name, "id");
    assert_eq!(table.columns[1].name, "email");
    assert_eq!(table.columns[2].name, "bio");
    // id has AUTO_INCREMENT but no NOT NULL: it stays nullable.
    assert!(table.columns[0].nullable);
    assert!(table.columns[0].auto_increment);
    assert!(matches!(table.columns[0].type_, ColumnType::Int));
    assert!(!table.columns[1].nullable);
    assert!(!table.columns[1].auto_increment);
    assert!(matches!(table.columns[1].type_, ColumnType::String));
    assert!(table.columns[2].nullable);
    assert!(matches!(table.columns[2].type_, ColumnType::String));
    assert!(table.primary_key.is_none());
    assert!(table.keys.is_empty());
    assert!(table.foreign_keys.is_empty());
}

#[test]
fn scenario_add_primary_key() {
    let statements = vec![
        users_create(),
        Statement::AlterTable {
            name: "users".to_string(),
            specifications: vec![AlterSpecification::AddIndex {
                index_kind: IndexKind::Primary,
                name: None,
                columns: vec!["id".to_string()],
            }],
        },
    ];
    let schema = parse_statements(&statements).unwrap();
    let table = &schema.tables[0];
    let pk = table.primary_key.as_ref().unwrap();
    assert_eq!(pk.name, "");
    assert!(pk.unique);
    assert_eq!(pk.column_names, vec!["id".to_string()]);
    assert!(table.keys.is_empty());
}

#[test]
fn secondary_keys_keep_declaration_order() {
    let statements = vec![
        users_create(),
        Statement::AlterTable {
            name: "users".to_string(),
            specifications: vec![
                AlterSpecification::AddIndex {
                    index_kind: IndexKind::Unique,
                    name: Some("email_key".to_string()),
                    columns: vec!["email".to_string()],
                },
                AlterSpecification::AddIndex {
                    index_kind: IndexKind::Index,
                    name: Some("bio_key".to_string()),
                    columns: vec!["bio".to_string()],
                },
            ],
        },
    ];
    let schema = parse_statements(&statements).unwrap();
    let table = &schema.tables[0];
    assert_eq!(table.keys.len(), 2);
    assert_eq!(table.keys[0].name, "email_key");
    assert!(table.keys[0].unique);
    assert_eq!(table.keys[1].name, "bio_key");
    assert!(!table.keys[1].unique);
    assert!(table.primary_key.is_none());
}

#[test]
fn unknown_index_kind_degrades_to_non_unique() {
    let statements = vec![
        users_create(),
        Statement::AlterTable {
            name: "users".to_string(),
            specifications: vec![AlterSpecification::AddIndex {
                index_kind: IndexKind::Other,
                name: Some("odd".to_string()),
                columns: vec!["id".to_string()],
            }],
        },
    ];
    let schema = parse_statements(&statements).unwrap();
    let table = &schema.tables[0];
    assert_eq!(table.keys.len(), 1);
    assert!(!table.keys[0].unique);
}

#[test]
fn add_foreign_key() {
    let statements = vec![
        users_create(),
        Statement::AlterTable {
            name: "users".to_string(),
            specifications: vec![AlterSpecification::AddForeignKey {
                constraint_name: Some("fk_org".to_string()),
                columns: vec!["id".to_string()],
                foreign_table: "organizations".to_string(),
                foreign_columns: vec!["id".to_string()],
            }],
        },
    ];
    let schema = parse_statements(&statements).unwrap();
    let table = &schema.tables[0];
    assert_eq!(table.foreign_keys.len(), 1);
    let fk = &table.foreign_keys[0];
    assert_eq!(fk.name, "fk_org");
    assert_eq!(fk.table_name, "users");
    assert_eq!(fk.foreign_table_name, "organizations");
    assert_eq!(fk.column_names, vec!["id".to_string()]);
    assert_eq!(fk.foreign_column_names, vec!["id".to_string()]);
}

#[test]
fn unnamed_foreign_key_is_an_error() {
    let statements = vec![
        users_create(),
        Statement::AlterTable {
            name: "users".to_string(),
            specifications: vec![AlterSpecification::AddForeignKey {
                constraint_name: None,
                columns: vec!["id".to_string()],
                foreign_table: "organizations".to_string(),
                foreign_columns: vec!["id".to_string()],
            }],
        },
    ];
    let err = parse_statements(&statements).unwrap_err();
    assert!(matches!(err, SchemaError::UnnamedForeignKey(t) if t == "users"));
}

#[test]
fn alter_before_create_is_an_error() {
    let statements = vec![Statement::AlterTable {
        name: "ghost".to_string(),
        specifications: vec![AlterSpecification::AddIndex {
            index_kind: IndexKind::Primary,
            name: None,
            columns: vec!["id".to_string()],
        }],
    }];
    let err = parse_statements(&statements).unwrap_err();
    assert!(matches!(err, SchemaError::UnknownTable(t) if t == "ghost"));
}

#[test]
fn unsupported_alteration_is_an_error() {
    let statements = vec![
        users_create(),
        Statement::AlterTable {
            name: "users".to_string(),
            specifications: vec![AlterSpecification::Other],
        },
    ];
    let err = parse_statements(&statements).unwrap_err();
    assert!(matches!(err, SchemaError::UnsupportedAlteration(t) if t == "users"));
}

#[test]
fn modify_is_a_partial_overlay() {
    let statements = vec![
        users_create(),
        Statement::AlterTable {
            name: "users".to_string(),
            specifications: vec![AlterSpecification::Modify {
                column: "id".to_string(),
                type_: TypeDesc::BigInt,
                properties: vec![DataTypeProperty::Comment("key".to_string())],
            }],
        },
    ];
    let schema = parse_statements(&statements).unwrap();
    let id = &schema.tables[0].columns[0];
    assert!(matches!(id.type_, ColumnType::Int));
    // auto_increment was set at creation and the modify statement does not
    // mention it, so it stays.
    assert!(id.auto_increment);
    assert!(id.nullable);
    assert_eq!(id.comment, "key");
}

#[test]
fn modify_unknown_column_is_an_error() {
    let statements = vec![
        users_create(),
        Statement::AlterTable {
            name: "users".to_string(),
            specifications: vec![AlterSpecification::Modify {
                column: "missing".to_string(),
                type_: TypeDesc::Int,
                properties: vec![],
            }],
        },
    ];
    let err = parse_statements(&statements).unwrap_err();
    assert!(matches!(err, SchemaError::UnknownColumn(t, c) if t == "users" && c == "missing"));
}

#[test]
fn duplicate_create_replaces_the_table() {
    let statements = vec![
        users_create(),
        Statement::CreateTable {
            name: "users".to_string(),
            definitions: vec![ColumnDefinition {
                name: "only".to_string(),
                type_: TypeDesc::Boolean,
                properties: vec![],
            }],
        },
    ];
    let schema = parse_statements(&statements).unwrap();
    assert_eq!(schema.tables.len(), 1);
    assert_eq!(schema.tables[0].columns.len(), 1);
    assert_eq!(schema.tables[0].columns[0].name, "only");
}

#[test]
fn type_normalization_mappings() {
    let col = "c".to_string();
    for desc in [
        TypeDesc::TinyInt,
        TypeDesc::SmallInt,
        TypeDesc::Integer,
        TypeDesc::Int,
        TypeDesc::BigInt,
    ] {
        assert!(matches!(parse_type(&desc, &col).unwrap(), ColumnType::Int));
    }
    for desc in [
        TypeDesc::Char,
        TypeDesc::VarChar,
        TypeDesc::TinyText,
        TypeDesc::MediumText,
        TypeDesc::Text,
        TypeDesc::LongText,
        TypeDesc::DateTime,
        TypeDesc::Timestamp,
        TypeDesc::Time,
        TypeDesc::Date,
    ] {
        assert!(matches!(parse_type(&desc, &col).unwrap(), ColumnType::String));
    }
    for desc in [TypeDesc::Float8, TypeDesc::Float, TypeDesc::Double] {
        assert!(matches!(parse_type(&desc, &col).unwrap(), ColumnType::Float));
    }
    assert!(matches!(parse_type(&TypeDesc::Boolean, &col).unwrap(), ColumnType::Boolean));
    let labels = vec!["a".to_string(), "b".to_string()];
    match parse_type(&TypeDesc::Enum(labels.clone()), &col).unwrap() {
        ColumnType::Enum(values) => assert_eq!(values, labels),
        _ => panic!("expected an enumerated type"),
    }
    let err = parse_type(&TypeDesc::Unsupported, &col).unwrap_err();
    assert!(matches!(err, SchemaError::UnsupportedType(c) if c == "c"));
}

#[test]
fn key_resolution_against_wrong_table_is_an_error() {
    let schema = parse_statements(&vec![users_create()]).unwrap();
    let table = &schema.tables[0];
    let key = Key::new(
        "k".to_string(),
        true,
        "other".to_string(),
        vec!["id".to_string()],
    );
    let err = key.iter_columns(table).unwrap_err();
    assert!(matches!(err, SchemaError::TableMismatch(own, given) if own == "other" && given == "users"));
}

#[test]
fn key_resolution_preserves_order() {
    let schema = parse_statements(&vec![users_create()]).unwrap();
    let table = &schema.tables[0];
    let key = Key::new(
        "k".to_string(),
        false,
        "users".to_string(),
        vec!["bio".to_string(), "id".to_string()],
    );
    let cols = key.iter_columns(table).unwrap();
    assert_eq!(cols.len(), 2);
    assert_eq!(cols[0].name, "bio");
    assert_eq!(cols[1].name, "id");
}

#[test]
fn foreign_key_resolution_missing_column_is_an_error() {
    let schema = parse_statements(&vec![users_create()]).unwrap();
    let table = &schema.tables[0];
    let fk = ForeignKey::new(
        "fk_org".to_string(),
        "users".to_string(),
        vec!["org_id".to_string()],
        "organizations".to_string(),
        vec!["id".to_string()],
    );
    let err = fk.iter_columns(table).unwrap_err();
    assert!(matches!(err, SchemaError::UnknownColumn(t, c) if t == "users" && c == "org_id"));
}

#[test]
fn table_accessors_list_names_in_order() {
    let table = Table::new(
        "t".to_string(),
        vec![],
        vec![
            Key::new("k1".to_string(), false, "t".to_string(), vec![]),
            Key::new("k2".to_string(), true, "t".to_string(), vec![]),
        ],
        None,
        vec![],
    );
    assert_eq!(table.iter_key_names(), vec!["k1".to_string(), "k2".to_string()]);
    assert!(table.iter_column_names().is_empty());
    assert!(table.iter_foreign_key_names().is_empty());
}

#[test]
fn later_properties_override_earlier_ones() {
    let statements = vec![Statement::CreateTable {
        name: "t".to_string(),
        definitions: vec![ColumnDefinition {
            name: "c".to_string(),
            type_: TypeDesc::Int,
            properties: vec![
                DataTypeProperty::Comment("first".to_string()),
                DataTypeProperty::Other,
                DataTypeProperty::Comment("second".to_string()),
            ],
        }],
    }];
    let schema = parse_statements(&statements).unwrap();
    assert_eq!(schema.tables[0].columns[0].comment, "second");
}
