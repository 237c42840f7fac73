use sqlgen::error::SchemaError;
use sqlgen::generate;
use sqlgen::parsers::{
    AlterSpecification, ColumnDefinition, DataTypeProperty, IndexKind, Statement, TypeDesc,
};

fn schema_statements() -> Vec<Statement> {
    vec![
        Statement::CreateTable {
            name: "users".to_string(),
            definitions: vec![
                ColumnDefinition {
                    name: "id".to_string(),
                    type_: TypeDesc::Int,
                    properties: vec![DataTypeProperty::AutoIncrement, DataTypeProperty::NotNull],
                },
                ColumnDefinition {
                    name: "email".to_string(),
                    type_: TypeDesc::VarChar,
                    properties: vec![DataTypeProperty::NotNull],
                },
                ColumnDefinition {
                    name: "status".to_string(),
                    type_: TypeDesc::Enum(vec!["active".to_string(), "banned".to_string()]),
                    properties: vec![],
                },
            ],
        },
        Statement::AlterTable {
            name: "users".to_string(),
            specifications: vec![AlterSpecification::AddIndex {
                index_kind: IndexKind::Primary,
                name: None,
                columns: vec!["id".to_string()],
            }],
        },
        Statement::Other,
    ]
}

#[test]
fn pipeline_generates_one_file_per_table() {
    let files = generate(&schema_statements()).unwrap();
    assert_eq!(files.len(), 1);
    let (name, text) = &files[0];
    assert_eq!(name, "users");
    assert!(text.starts_with("<?php\n\ndeclare(strict_types=1);\n\n"));
    assert!(text.contains("class Users"));
    assert!(text.contains("public static function update("));
    assert!(text.contains("public static function delete(int $id): void"));
    assert!(text.contains("enum StatusEnum: string"));
    assert!(text.contains("\tcase ACTIVE = \"active\";"));
    assert!(text.contains("\tcase BANNED = \"banned\";"));
    assert!(text.contains("StatusEnum::from($row[\"status\"])"));
}

#[test]
fn pipeline_is_idempotent() {
    let first = generate(&schema_statements()).unwrap();
    let second = generate(&schema_statements()).unwrap();
    assert_eq!(first.len(), second.len());
    for i in 0..first.len() {
        assert_eq!(first[i].0, second[i].0);
        assert_eq!(first[i].1.as_bytes(), second[i].1.as_bytes());
    }
}

#[test]
fn pipeline_reports_the_first_schema_error() {
    let statements = vec![
        schema_statements().remove(0),
        Statement::AlterTable {
            name: "users".to_string(),
            specifications: vec![AlterSpecification::AddForeignKey {
                constraint_name: Some("fk_org".to_string()),
                columns: vec!["org_id".to_string()],
                foreign_table: "organizations".to_string(),
                foreign_columns: vec!["id".to_string()],
            }],
        },
    ];
    // The foreign key is recorded while the schema is built; the missing
    // local column surfaces when the table's unit is generated.
    let err = generate(&statements).unwrap_err();
    assert!(matches!(err, SchemaError::UnknownColumn(t, c) if t == "users" && c == "org_id"));
}

#[test]
fn pipeline_generates_two_tables_in_creation_order() {
    let statements = vec![
        Statement::CreateTable {
            name: "organizations".to_string(),
            definitions: vec![ColumnDefinition {
                name: "id".to_string(),
                type_: TypeDesc::Int,
                properties: vec![DataTypeProperty::NotNull],
            }],
        },
        schema_statements().remove(0),
    ];
    let files = generate(&statements).unwrap();
    assert_eq!(files.len(), 2);
    assert_eq!(files[0].0, "organizations");
    assert_eq!(files[1].0, "users");
}

#[test]
fn pipeline_emits_the_exact_file_for_a_minimal_table() {
    let statements = vec![Statement::CreateTable {
        name: "logs".to_string(),
        definitions: vec![ColumnDefinition {
            name: "line".to_string(),
            type_: TypeDesc::Text,
            properties: vec![DataTypeProperty::NotNull],
        }],
    }];
    let files = generate(&statements).unwrap();
    assert_eq!(files.len(), 1);
    let mut expected = String::new();
    expected.push_str("<?php\n\ndeclare(strict_types=1);\n\n");
    expected.push_str("/** Database class for the `logs` table */\n");
    expected.push_str("class Logs\n{\n");
    expected.push_str("\t/**\n\t * @param string $line \n\t */\n");
    expected.push_str("\tprivate function __construct(\n\t\tpublic readonly string $line,\n\t) {\n\t}\n");
    expected.push_str("\n\t/** Gets all rows in `logs`.\n\t * @return array all objects in `logs`.\n\t */\n");
    expected.push_str("\tpublic static function getAll(): array\n\t{\n");
    expected.push_str("\t\t$sth = getPDO()->prepare(\"SELECT * FROM `logs`;\");\n");
    expected.push_str("\t\t$sth->execute();\n\n");
    expected.push_str("\t\t$logs = array();\n\n");
    expected.push_str("\t\twhile ($row = $sth->fetch())\n");
    expected.push_str("\t\t\t$logs[] = new Logs($row[\"line\"]);\n\n");
    expected.push_str("\t\treturn $logs;\n\t}\n");
    expected.push_str("\n\t/** Create a `Logs`\n\t * @param string $line \n\t * @return Logs The updated object.\n\t */\n");
    expected.push_str("\tpublic static function register(string $line): Logs\n\t{\n");
    expected.push_str("\t\t$params = array(\":line\" => $line);\n");
    expected.push_str("\t\t$sth = getPDO()->prepare(\"INSERT INTO `logs` (`line`) VALUES (:line);\");\n");
    expected.push_str("\t\t$sth->execute($params);\n\n");
    expected.push_str("\t\treturn Self::get($line);\n\t}\n");
    expected.push_str("}\n");
    assert_eq!(files[0].1, expected);
}
