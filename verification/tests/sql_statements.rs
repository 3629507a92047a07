use rust_shop::sql_schema::{
    build_sql_queries, build_sqlx_crud_impl, build_static_model_schema, Config, DbType, FieldDecl,
};

fn field(name: &str, ty: &str, is_id: bool) -> FieldDecl {
    FieldDecl { name: name.to_string(), ty: ty.to_string(), is_id }
}

fn user_fields() -> Vec<FieldDecl> {
    vec![field("user_id", "i64", false), field("name", "String", false)]
}

#[test]
fn db_type_from_names() {
    assert_eq!(DbType::from_name("MySql"), DbType::MySql);
    assert_eq!(DbType::from_name("Postgres"), DbType::Postgres);
    assert_eq!(DbType::new(None), DbType::Sqlite);
    assert_eq!(DbType::new(Some("Mssql")), DbType::Mssql);
}

#[test]
fn mysql_quotes_identifiers_with_back_quotes() {
    assert_eq!(DbType::MySql.quote_ident("users"), "`users`");
    assert_eq!(DbType::Sqlite.quote_ident("users"), "\"users\"");
    assert_eq!(DbType::Postgres.quote_ident("users"), "\"users\"");
    assert_eq!(DbType::MySql.sqlx_db(), "::sqlx::MySql");
}

#[test]
fn config_uses_table_case_and_first_field_as_id() {
    let c = Config::new("AdminUser".to_string(), user_fields(), DbType::Sqlite, false);
    assert_eq!(c.table_name, "admin_users");
    assert_eq!(c.model_schema_ident, "ADMIN_USER_SCHEMA");
    assert_eq!(c.id_column, "user_id");
}

#[test]
fn config_prefers_field_marked_id() {
    let fields = vec![field("name", "String", false), field("key", "u32", true), field("other", "u8", true)];
    let c = Config::new("Item".to_string(), fields, DbType::Sqlite, true);
    assert_eq!(c.id_column, "key");
    assert!(c.external_id);
}

#[test]
fn table_name_is_plural_table_case() {
    let c = Config::new("GoogleIdToken".to_string(), vec![field("id", "i32", false), field("audience", "String", false)], DbType::Sqlite, false);
    assert_eq!(c.table_name, "google_id_tokens");
}

#[test]
fn sqlite_statements() {
    let c = Config::new("User".to_string(), user_fields(), DbType::Sqlite, false);
    let q = build_sql_queries(&c);
    assert_eq!(q.select_sql, r#"SELECT "users"."user_id", "users"."name" FROM "users""#);
    assert_eq!(q.select_by_id_sql, r#"SELECT "users"."user_id", "users"."name" FROM "users" WHERE "users"."user_id" = ? "#);
    assert_eq!(q.insert_sql, r#"INSERT INTO "users" ("name") VALUES (?) "#);
    assert_eq!(q.update_by_id_sql, r#"UPDATE "users" SET "name" = ? WHERE "users"."user_id" = ? "#);
    assert_eq!(q.delete_by_id_sql, r#"DELETE FROM "users" WHERE "users"."user_id" = ?"#);
}

#[test]
fn external_id_insert_lists_the_id_column() {
    let c = Config::new("UserExternalId".to_string(), user_fields(), DbType::Sqlite, true);
    let q = build_sql_queries(&c);
    assert_eq!(q.insert_sql, r#"INSERT INTO "user_external_ids" ("user_id", "name") VALUES (?, ?) "#);
}

#[test]
fn mysql_statements_are_quoted() {
    let c = Config::new("User".to_string(), user_fields(), DbType::MySql, false);
    let q = build_sql_queries(&c);
    assert_eq!(q.select_sql, "SELECT `users`.`user_id`, `users`.`name` FROM `users`");
    assert_eq!(q.insert_sql, "INSERT INTO `users` (`name`) VALUES (?) ");
    assert_eq!(q.update_by_id_sql, "UPDATE `users` SET `name` = ? WHERE `users`.`user_id` = ? ");
    assert_eq!(q.delete_by_id_sql, "DELETE FROM `users` WHERE `users`.`user_id` = ?");
}

#[test]
fn update_never_sets_the_id_column() {
    let fields = vec![field("a", "i32", false), field("id", "i64", true), field("b", "String", false)];
    let c = Config::new("Thing".to_string(), fields, DbType::Postgres, false);
    let q = build_sql_queries(&c);
    assert_eq!(q.update_by_id_sql, r#"UPDATE "things" SET "a" = ?, "b" = ? WHERE "things"."id" = ? "#);
    assert_eq!(q.insert_sql, r#"INSERT INTO "things" ("a", "b") VALUES (?, ?) "#);
}

#[test]
fn model_schema_lists_columns() {
    let c = Config::new("User".to_string(), user_fields(), DbType::Sqlite, false);
    let s = build_static_model_schema(&c);
    assert_eq!(s.table_name, "users");
    assert_eq!(s.id_column, "user_id");
    assert_eq!(s.columns, vec!["user_id".to_string(), "name".to_string()]);
    assert_eq!(s.queries.select_sql, r#"SELECT "users"."user_id", "users"."name" FROM "users""#);
}

#[test]
fn crud_binds_put_id_last_on_update() {
    let fields = vec![field("a", "i32", false), field("id", "i64", true), field("b", "String", false)];
    let c = Config::new("Thing".to_string(), fields, DbType::MySql, false);
    let i = build_sqlx_crud_impl(&c);
    assert_eq!(i.id_type, "i64");
    assert_eq!(i.insert_binds, vec!["a".to_string(), "id".to_string(), "b".to_string()]);
    assert_eq!(i.update_binds, vec!["a".to_string(), "b".to_string(), "id".to_string()]);
    assert_eq!(i.sqlx_db, "::sqlx::MySql");
}

fn attr(path: &str, value: Option<&str>) -> rust_shop::sql_schema::EntityAttr {
    rust_shop::sql_schema::EntityAttr { path: vec![path.to_string()], string_value: value.map(|v| v.to_string()) }
}

#[test]
fn config_reads_database_and_external_id_attributes() {
    let attrs = vec![attr("derive", None), attr("database", Some("MySql")), attr("external_id", None)];
    let c = Config::from_attrs(&attrs, "User".to_string(), user_fields());
    assert_eq!(c.db_ty, DbType::MySql);
    assert!(c.external_id);
    let c = Config::from_attrs(&vec![attr("database", None), attr("database", Some("MySql"))], "User".to_string(), user_fields());
    assert_eq!(c.db_ty, DbType::Sqlite);
    assert!(!c.external_id);
}
