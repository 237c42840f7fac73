use sqlgen::database::column::{Column, ColumnType};
use sqlgen::database::keys::{ForeignKey, Key};
use sqlgen::database::table::Table;
use sqlgen::error::SchemaError;
use sqlgen::writer::column::{write_full_comment, write_typed_variable, write_variable};
use sqlgen::writer::{creater, deleter, foreign_getters, get_all, getters, table, updater};

fn col(name: &str, type_: ColumnType, nullable: bool, auto: bool) -> Column {
    Column::new(name.to_string(), type_, nullable, auto, "".to_string())
}

fn users() -> Table {
    Table::new(
        "users".to_string(),
        vec![
            col("id", ColumnType::Int, true, true),
            col("email", ColumnType::String, false, false),
            col("bio", ColumnType::String, true, false),
        ],
        vec![],
        Some(Key::new(
            "".to_string(),
            true,
            "users".to_string(),
            vec!["id".to_string()],
        )),
        vec![],
    )
}

#[test]
fn typed_variable_forms() {
    let nullable_int = col("id", ColumnType::Int, true, false);
    assert_eq!(write_typed_variable(&nullable_int), "null|int $id");
    let plain_string = col("email", ColumnType::String, false, false);
    assert_eq!(write_typed_variable(&plain_string), "string $email");
    let flag = col("is_admin", ColumnType::Boolean, false, false);
    assert_eq!(write_typed_variable(&flag), "bool $isAdmin");
    let ratio = col("ratio", ColumnType::Float, true, false);
    assert_eq!(write_typed_variable(&ratio), "null|float $ratio");
    let status = col("status", ColumnType::Enum(vec!["a".to_string()]), false, false);
    assert_eq!(write_typed_variable(&status), "StatusEnum $status");
}

#[test]
fn full_comment_appends_the_comment() {
    let c = Column::new(
        "id".to_string(),
        ColumnType::Int,
        false,
        false,
        "the key".to_string(),
    );
    assert_eq!(write_full_comment(&c), "int $id the key");
}

#[test]
fn variable_is_camel_cased() {
    let c = col("user_account_id", ColumnType::Int, false, false);
    assert_eq!(write_variable(&c), "$userAccountId");
}

#[test]
fn file_start_is_fixed() {
    assert_eq!(table::write_file_start(), "<?php\n\ndeclare(strict_types=1);\n\n");
}

#[test]
fn table_definition_is_pascal_cased() {
    let text = table::write_table_definition(&"user_account".to_string());
    assert_eq!(
        text,
        "/** Database class for the `user_account` table */\nclass UserAccount\n{\n"
    );
}

#[test]
fn constructor_lists_every_column_in_order() {
    let columns = vec![
        col("email", ColumnType::String, false, false),
        col("bio", ColumnType::String, true, false),
    ];
    let text = table::write_constructor(&columns);
    assert_eq!(
        text,
        "\tprivate function __construct(\n\t\tpublic readonly string $email,\n\t\tpublic readonly null|string $bio,\n\t) {\n\t}\n"
    );
}

#[test]
fn enum_declaration_upper_snake_cases_labels() {
    let text = table::write_enum(
        &"Status".to_string(),
        &vec!["active".to_string(), "banned".to_string()],
    );
    assert_eq!(
        text,
        "\nenum StatusEnum: string\n{\n\tcase ACTIVE = \"active\";\n\tcase BANNED = \"banned\";\n}\n"
    );
}

#[test]
fn enums_come_from_enum_columns_only() {
    let t = Table::new(
        "users".to_string(),
        vec![
            col("id", ColumnType::Int, false, false),
            col("status", ColumnType::Enum(vec!["active".to_string(), "banned".to_string()]), false, false),
        ],
        vec![],
        None,
        vec![],
    );
    let text = table::write_enums(&t);
    assert_eq!(
        text,
        "\nenum StatusEnum: string\n{\n\tcase ACTIVE = \"active\";\n\tcase BANNED = \"banned\";\n}\n"
    );
}

#[test]
fn where_clause_operator_depends_on_nullability() {
    let columns = vec![
        col("a", ColumnType::Int, true, false),
        col("b", ColumnType::Int, false, false),
    ];
    assert_eq!(deleter::write_query_where(&columns), "`a` <=> :a AND `b` = :b");
    assert_eq!(updater::write_query_where(&columns), "`a` <=> :a AND `b` = :b");
    assert_eq!(getters::write_query_where(&columns), "`a` <=> :a AND `b` = :b");
}

#[test]
fn deleter_takes_exactly_the_primary_key_columns() {
    let text = deleter::write_deleter(&users()).unwrap();
    assert_eq!(
        text,
        "\n\t/** Deletes a `Users` by the primary key.\n\t * @param null|int $id \n\t */\n\tpublic static function delete(null|int $id): void\n\t{\n\t\t$params = array(\":id\" => $id);\n\t\t$sth = getPDO()->prepare(\"DELETE FROM `users` WHERE `id` <=> :id;\");\n\t\t$sth->execute($params);\n\t}\n"
    );
}

#[test]
fn updater_sets_non_key_columns_and_filters_by_key() {
    let text = updater::write_updater(&users()).unwrap();
    assert!(text.contains("public static function update(null|int $id, string $email, null|string $bio): Users"));
    assert!(text.contains(
        "UPDATE `users` SET `email` = :email, `bio` = :bio WHERE `id` <=> :id;"
    ));
    assert!(text.contains("return Self::get($id);"));
}

#[test]
fn creater_excludes_auto_increment_columns() {
    let text = creater::write_creater(&users());
    assert!(text.contains("public static function register(string $email, null|string $bio): Users"));
    assert!(text.contains("INSERT INTO `users` (`email`, `bio`) VALUES (:email, :bio);"));
    assert!(text.contains("return Self::get((int)getPDO()->lastInsertId(), $email, $bio);"));
}

#[test]
fn primary_getter_selects_the_other_columns() {
    let text = getters::write_getters(&users()).unwrap();
    assert!(text.contains("public static function get(null|int $id): null|Users"));
    assert!(text.contains(
        "SELECT `email`, `bio` FROM `users` WHERE `id` <=> :id LIMIT 1;"
    ));
    assert!(text.contains("return new Users($id, $row[\"email\"], $row[\"bio\"]);"));
    assert!(text.contains("public static function getAll(): array"));
}

#[test]
fn unique_key_getter_returns_single_or_null() {
    let mut t = users();
    t.keys.push(Key::new(
        "email_key".to_string(),
        true,
        "users".to_string(),
        vec!["email".to_string()],
    ));
    let text = getters::write_getters(&t).unwrap();
    assert!(text.contains("public static function getByEmailKey(string $email): null|Users"));
    assert!(text.contains("`email` = :email LIMIT 1;"));
}

#[test]
fn non_unique_key_getter_returns_an_array() {
    let mut t = users();
    t.keys.push(Key::new(
        "bio_key".to_string(),
        false,
        "users".to_string(),
        vec!["bio".to_string()],
    ));
    let text = getters::write_getters(&t).unwrap();
    assert!(text.contains("public static function getByBioKey(null|string $bio): array"));
    assert!(text.contains("while ($row = $sth->fetch())"));
    assert!(text.contains("`bio` <=> :bio;"));
    assert!(!text.contains("`bio` <=> :bio LIMIT 1;"));
}

#[test]
fn get_all_uses_camel_cased_variable() {
    let t = Table::new(
        "user_account".to_string(),
        vec![col("id", ColumnType::Int, false, false)],
        vec![],
        None,
        vec![],
    );
    let text = get_all::write_getter(&t);
    assert!(text.contains("SELECT * FROM `user_account`;"));
    assert!(text.contains("$userAccount[] = new UserAccount($row[\"id\"]);"));
    assert!(text.contains("return $userAccount;"));
}

#[test]
fn foreign_getter_guards_nullable_columns() {
    let mut t = users();
    t.columns.push(col("org_id", ColumnType::Int, true, false));
    t.foreign_keys.push(ForeignKey::new(
        "fk_org".to_string(),
        "users".to_string(),
        vec!["org_id".to_string()],
        "organizations".to_string(),
        vec!["id".to_string()],
    ));
    let text = foreign_getters::write_foreign_getters(&t).unwrap();
    assert!(text.contains("public function getFkOrg(): false|Organizations"));
    assert!(text.contains("if (!isset($this->org_id))"));
    assert!(text.contains("return false;"));
    assert!(text.contains("return Organizations::get($this->org_id);"));
}

#[test]
fn foreign_getter_without_nullable_columns_delegates_unconditionally() {
    let mut t = users();
    t.columns.push(col("org_id", ColumnType::Int, false, false));
    t.foreign_keys.push(ForeignKey::new(
        "fk_org".to_string(),
        "users".to_string(),
        vec!["org_id".to_string()],
        "organizations".to_string(),
        vec!["id".to_string()],
    ));
    let text = foreign_getters::write_foreign_getters(&t).unwrap();
    assert!(text.contains("public function getFkOrg(): Organizations"));
    assert!(!text.contains("isset"));
    assert!(text.contains("return Organizations::get($this->org_id);"));
}

#[test]
fn foreign_key_with_missing_column_aborts_generation() {
    let mut t = users();
    t.foreign_keys.push(ForeignKey::new(
        "fk_org".to_string(),
        "users".to_string(),
        vec!["org_id".to_string()],
        "organizations".to_string(),
        vec!["id".to_string()],
    ));
    let err = table::write_table(&t).unwrap_err();
    assert!(matches!(err, SchemaError::UnknownColumn(tn, c) if tn == "users" && c == "org_id"));
}

#[test]
fn table_without_primary_key_has_no_update_or_delete() {
    let t = Table::new(
        "logs".to_string(),
        vec![col("line", ColumnType::String, false, false)],
        vec![],
        None,
        vec![],
    );
    let text = table::write_table(&t).unwrap();
    assert!(!text.contains("function update("));
    assert!(!text.contains("function delete("));
    assert!(text.contains("function register("));
    assert!(text.contains("function getAll()"));
}

#[test]
fn table_with_primary_key_has_update_and_delete() {
    let text = table::write_table(&users()).unwrap();
    assert!(text.contains("public static function update("));
    assert!(text.contains("public static function delete("));
    let brace = text.rfind("}\n").unwrap();
    assert!(brace > 0);
}
