//! The table schema and the SQL statements derived for an entity struct: its
//! table name, id column, column list and the select / insert / update /
//! delete statements, quoted for the target database.

use vstd::prelude::*;
use crate::text::{concat, join, join_strings, push_char, str_eq, views};
use inflector::cases::screamingsnakecase::to_screaming_snake_case;
use inflector::cases::tablecase::to_table_case;

verus! {

/// The database an entity is stored in (the `#[database = ".."]` attribute).
#[derive(PartialEq, Eq, Structural, Clone, Copy, Debug)]
pub enum DbType {
    Any,
    Mssql,
    MySql,
    Postgres,
    Sqlite,
}

/// The database a name stands for, if it is one of the known names.
pub open spec fn db_type_named(name: Seq<char>) -> Option<DbType> {
    if name == "Any"@ {
        Some(DbType::Any)
    } else if name == "Mssql"@ {
        Some(DbType::Mssql)
    } else if name == "MySql"@ {
        Some(DbType::MySql)
    } else if name == "Postgres"@ {
        Some(DbType::Postgres)
    } else if name == "Sqlite"@ {
        Some(DbType::Sqlite)
    } else {
        None
    }
}

/// An identifier as the database expects it: MySQL wants back quotes, the
/// others double quotes.
pub open spec fn quoted(db: DbType, ident: Seq<char>) -> Seq<char> {
    if db == DbType::MySql {
        seq!['`'] + ident + seq!['`']
    } else {
        seq!['"'] + ident + seq!['"']
    }
}

/// The path of the sqlx database type.
pub open spec fn sqlx_db_path(db: DbType) -> Seq<char> {
    match db {
        DbType::Any => "::sqlx::Any"@,
        DbType::Mssql => "::sqlx::Mssql"@,
        DbType::MySql => "::sqlx::MySql"@,
        DbType::Postgres => "::sqlx::Postgres"@,
        DbType::Sqlite => "::sqlx::Sqlite"@,
    }
}

impl DbType {
    /// The database named `db_type`; the name must be a known one.
    pub fn from_name(db_type: &str) -> (r: DbType)
        requires
            db_type_named(db_type@) is Some,
        ensures
            db_type_named(db_type@) == Some(r),
    {
        if str_eq(db_type, "Any") {
            DbType::Any
        } else if str_eq(db_type, "Mssql") {
            DbType::Mssql
        } else if str_eq(db_type, "MySql") {
            DbType::MySql
        } else if str_eq(db_type, "Postgres") {
            DbType::Postgres
        } else {
            DbType::Sqlite
        }
    }

    /// The database of an entity: the one its `database` attribute names, and
    /// SQLite when it has none.
    pub fn new(database: Option<&str>) -> (r: DbType)
        requires
            database matches Some(name) ==> db_type_named(name@) is Some,
        ensures
            database is None ==> r == DbType::Sqlite,
            database matches Some(name) ==> db_type_named(name@) == Some(r),
    {
        match database {
            Some(name) => DbType::from_name(name),
            None => DbType::Sqlite,
        }
    }

    /// The path of the sqlx database type for this database.
    pub fn sqlx_db(&self) -> (r: String)
        ensures
            r@ == sqlx_db_path(*self),
    {
        match self {
            DbType::Any => "::sqlx::Any".to_string(),
            DbType::Mssql => "::sqlx::Mssql".to_string(),
            DbType::MySql => "::sqlx::MySql".to_string(),
            DbType::Postgres => "::sqlx::Postgres".to_string(),
            DbType::Sqlite => "::sqlx::Sqlite".to_string(),
        }
    }

    /// `ident` quoted for this database.
    pub fn quote_ident(&self, ident: &str) -> (r: String)
        ensures
            r@ == quoted(*self, ident@),
    {
        let mark = match self {
            DbType::MySql => '`',
            _ => '"',
        };
        let mut r = String::new();
        push_char(&mut r, mark);
        r.append(ident);
        push_char(&mut r, mark);
        r
    }
}

/// What Inflector's `to_table_case` makes of a name: its plural snake case.
pub uninterp spec fn table_case(s: Seq<char>) -> Seq<char>;

/// What Inflector's `to_screaming_snake_case` makes of a name.
pub uninterp spec fn screaming_snake_case(s: Seq<char>) -> Seq<char>;

/// `inflector::cases::tablecase::to_table_case`: the name in snake case with
/// its last word in the plural. The result is a function of the name alone,
/// named `table_case`.
#[verifier::external_body]
fn table_case_of(s: &str) -> (r: String)
    ensures
        r@ == table_case(s@),
{
    to_table_case(s)
}

/// `inflector::cases::screamingsnakecase::to_screaming_snake_case`: the name
/// in upper-case snake case. The result is a function of the name alone,
/// named `screaming_snake_case`.
#[verifier::external_body]
fn screaming_snake_case_of(s: &str) -> (r: String)
    ensures
        r@ == screaming_snake_case(s@),
{
    to_screaming_snake_case(s)
}

/// An attribute of an entity struct: the idents of its path, and the string
/// it is set to when it has the form `#[name = "value"]`.
pub struct EntityAttr {
    pub path: Vec<String>,
    pub string_value: Option<String>,
}

/// Whether a path is the single ident `name` (syn's `Path::is_ident`).
pub open spec fn path_is_ident(path: Seq<Seq<char>>, name: Seq<char>) -> bool {
    path.len() == 1 && path[0] == name
}

/// Whether attribute `i` is the first one named `name`.
pub open spec fn is_first_attr(attrs: Seq<EntityAttr>, name: Seq<char>, i: int) -> bool {
    &&& 0 <= i < attrs.len()
    &&& path_is_ident(views(attrs[i].path@), name)
    &&& forall|j: int| 0 <= j < i ==> !path_is_ident(views((#[trigger] attrs[j]).path@), name)
}

/// The database the attributes name: the string of the first `database`
/// attribute when it has the form `#[database = ".."]`; `None` (SQLite) when
/// there is no such attribute or it has another form.
pub open spec fn database_named(attrs: Seq<EntityAttr>) -> Option<Seq<char>> {
    if exists|i: int| is_first_attr(attrs, "database"@, i) {
        match attrs[choose|i: int| is_first_attr(attrs, "database"@, i)].string_value {
            Some(v) => Some(v@),
            None => None,
        }
    } else {
        None
    }
}

/// Whether some attribute is `#[external_id]`.
pub open spec fn has_external_id(attrs: Seq<EntityAttr>) -> bool {
    exists|i: int| 0 <= i < attrs.len() && path_is_ident(views((#[trigger] attrs[i]).path@), "external_id"@)
}

fn path_is(path: &Vec<String>, name: &str) -> (r: bool)
    ensures
        r == path_is_ident(views(path@), name@),
{
    path.len() == 1 && str_eq(path[0].as_str(), name)
}

/// The string of the first `database` attribute, as `database_named` gives it.
fn database_of(attrs: &Vec<EntityAttr>) -> (r: Option<&String>)
    ensures
        database_named(attrs@) == (match r {
            Some(v) => Some(v@),
            None => None::<Seq<char>>,
        }),
{
    let mut i: usize = 0;
    while i < attrs.len()
        invariant
            i <= attrs@.len(),
            forall|j: int| 0 <= j < i ==> !path_is_ident(views((#[trigger] attrs@[j]).path@), "database"@),
        decreases attrs@.len() - i,
    {
        if path_is(&attrs[i].path, "database") {
            proof {
                assert(is_first_attr(attrs@, "database"@, i as int));
                let c = choose|c: int| is_first_attr(attrs@, "database"@, c);
                if c < i {
                    assert(!path_is_ident(views(attrs@[c].path@), "database"@));
                }
                if i < c {
                    assert(!path_is_ident(views(attrs@[i as int].path@), "database"@));
                }
            }
            return match &attrs[i].string_value {
                Some(v) => Some(v),
                None => None,
            };
        }
        i = i + 1;
    }
    proof {
        if exists|c: int| is_first_attr(attrs@, "database"@, c) {
            let c = choose|c: int| is_first_attr(attrs@, "database"@, c);
            assert(!path_is_ident(views(attrs@[c].path@), "database"@));
        }
    }
    None
}

/// Whether some attribute is `#[external_id]`.
pub fn external_id_of(attrs: &Vec<EntityAttr>) -> (r: bool)
    ensures
        r == has_external_id(attrs@),
{
    let mut i: usize = 0;
    while i < attrs.len()
        invariant
            i <= attrs@.len(),
            forall|j: int| 0 <= j < i ==> !path_is_ident(views((#[trigger] attrs@[j]).path@), "external_id"@),
        decreases attrs@.len() - i,
    {
        if path_is(&attrs[i].path, "external_id") {
            return true;
        }
        i = i + 1;
    }
    false
}

/// The database of an entity with the given attributes: the one its first
/// `#[database = ".."]` attribute names, and SQLite otherwise. The name must
/// be a known one.
pub fn db_type_of(attrs: &Vec<EntityAttr>) -> (r: DbType)
    requires
        database_named(attrs@) matches Some(n) ==> db_type_named(n) is Some,
    ensures
        database_named(attrs@) is None ==> r == DbType::Sqlite,
        database_named(attrs@) matches Some(n) ==> db_type_named(n) == Some(r),
{
    match database_of(attrs) {
        Some(name) => DbType::from_name(name.as_str()),
        None => DbType::Sqlite,
    }
}

/// The abstract content of a field declaration.
pub ghost struct FieldModel {
    pub name: Seq<char>,
    pub ty: Seq<char>,
    pub is_id: bool,
}

/// A named field of an entity struct: its name, its type as written, and
/// whether it carries the `#[id]` attribute.
pub struct FieldDecl {
    pub name: String,
    pub ty: String,
    pub is_id: bool,
}

impl View for FieldDecl {
    type V = FieldModel;

    open spec fn view(&self) -> FieldModel {
        FieldModel { name: self.name@, ty: self.ty@, is_id: self.is_id }
    }
}

/// The models of a list of field declarations.
pub open spec fn field_models(fs: Seq<FieldDecl>) -> Seq<FieldModel> {
    fs.map_values(|f: FieldDecl| f@)
}

/// The names of the fields, in declaration order.
pub open spec fn field_names(fs: Seq<FieldModel>) -> Seq<Seq<char>> {
    fs.map_values(|f: FieldModel| f.name)
}

/// Whether field `i` is the first one that carries `#[id]`.
pub open spec fn is_first_id(fs: Seq<FieldModel>, i: int) -> bool {
    &&& 0 <= i < fs.len()
    &&& fs[i].is_id
    &&& forall|j: int| 0 <= j < i ==> !(#[trigger] fs[j]).is_id
}

/// The id column: the first field marked `#[id]`, and otherwise the first field.
pub open spec fn id_column_of(fs: Seq<FieldModel>) -> Seq<char> {
    if exists|i: int| is_first_id(fs, i) {
        fs[choose|i: int| is_first_id(fs, i)].name
    } else {
        fs[0].name
    }
}

/// The facts about an entity struct that its schema is derived from.
pub struct Config {
    /// The struct's name.
    pub ident: String,
    /// Its named fields, in declaration order.
    pub fields: Vec<FieldDecl>,
    pub db_ty: DbType,
    /// The name of the static that holds the schema.
    pub model_schema_ident: String,
    pub table_name: String,
    pub id_column: String,
    /// Whether ids are assigned outside the database (`#[external_id]`).
    pub external_id: bool,
}

impl Config {
    /// The schema facts of struct `ident` with the given fields: the table is
    /// the plural snake-case name (Inflector's table case), the schema static the upper-case snake name with
    /// `_SCHEMA`, and the id column the first `#[id]` field or else the first
    /// field. A struct without fields has no id column.
    pub fn new(ident: String, fields: Vec<FieldDecl>, db_ty: DbType, external_id: bool) -> (r: Config)
        requires
            fields@.len() > 0,
        ensures
            r.ident@ == ident@,
            field_models(r.fields@) == field_models(fields@),
            r.db_ty == db_ty,
            r.external_id == external_id,
            r.table_name@ == table_case(ident@),
            r.model_schema_ident@ == screaming_snake_case(ident@) + "_SCHEMA"@,
            r.id_column@ == id_column_of(field_models(fields@)),
    {
        let table_name = table_case_of(ident.as_str());
        let mut model_schema_ident = screaming_snake_case_of(ident.as_str());
        model_schema_ident.append("_SCHEMA");
        let ghost fs = field_models(fields@);
        let mut found: Option<usize> = None;
        let mut i: usize = 0;
        while i < fields.len()
            invariant
                fs == field_models(fields@),
                i <= fields@.len(),
                found is None ==> forall|j: int| 0 <= j < i ==> !(#[trigger] fs[j]).is_id,
                found matches Some(k) ==> is_first_id(fs, k as int),
            decreases fields@.len() - i,
        {
            if found.is_none() && fields[i].is_id {
                found = Some(i);
            }
            i = i + 1;
        }
        let id_column = match found {
            Some(k) => {
                proof {
                    let c = choose|c: int| is_first_id(fs, c);
                    assert(is_first_id(fs, c));
                    if c < k {
                        assert(!fs[c].is_id);
                    }
                    if k < c {
                        assert(!fs[k as int].is_id);
                    }
                    assert(c == k);
                }
                fields[k].name.clone()
            },
            None => {
                proof {
                    assert forall|c: int| !is_first_id(fs, c) by {
                        if 0 <= c < fs.len() {
                            assert(!fs[c].is_id);
                        }
                    }
                }
                fields[0].name.clone()
            },
        };
        Config { ident, fields, db_ty, model_schema_ident, table_name, id_column, external_id }
    }

    /// The schema facts of an entity struct as the derive reads them: its
    /// database from the first `#[database = ".."]` attribute (SQLite
    /// without one), ids assigned outside the database when it carries
    /// `#[external_id]`, and the rest as `new` gives it.
    pub fn from_attrs(attrs: &Vec<EntityAttr>, ident: String, fields: Vec<FieldDecl>) -> (r: Config)
        requires
            fields@.len() > 0,
            database_named(attrs@) matches Some(n) ==> db_type_named(n) is Some,
        ensures
            r.ident@ == ident@,
            field_models(r.fields@) == field_models(fields@),
            database_named(attrs@) is None ==> r.db_ty == DbType::Sqlite,
            database_named(attrs@) matches Some(n) ==> db_type_named(n) == Some(r.db_ty),
            r.external_id == has_external_id(attrs@),
            r.table_name@ == table_case(ident@),
            r.model_schema_ident@ == screaming_snake_case(ident@) + "_SCHEMA"@,
            r.id_column@ == id_column_of(field_models(fields@)),
    {
        let db_ty = db_type_of(attrs);
        let external_id = external_id_of(attrs);
        Config::new(ident, fields, db_ty, external_id)
    }

    /// `ident` quoted for the entity's database.
    pub fn quote_ident(&self, ident: &str) -> (r: String)
        ensures
            r@ == quoted(self.db_ty, ident@),
    {
        self.db_ty.quote_ident(ident)
    }

    /// The names of the fields, in declaration order.
    pub fn column_names(&self) -> (r: Vec<String>)
        ensures
            views(r@) == field_names(field_models(self.fields@)),
    {
        let mut r: Vec<String> = Vec::new();
        let mut i: usize = 0;
        while i < self.fields.len()
            invariant
                i <= self.fields@.len(),
                views(r@) == field_names(field_models(self.fields@)).take(i as int),
            decreases self.fields@.len() - i,
        {
            let name = self.fields[i].name.clone();
            let ghost old_r = r@;
            r.push(name);
            assert(r@ == old_r.push(name));
            assert(views(r@) =~= views(old_r).push(name@));
            assert(views(r@) =~= field_names(field_models(self.fields@)).take(i + 1));
            i = i + 1;
        }
        assert(field_names(field_models(self.fields@)).take(i as int) =~= field_names(field_models(self.fields@)));
        r
    }
}

/// Each column name qualified by the (quoted) table: `table.column`.
pub open spec fn qualified_columns(db: DbType, table: Seq<char>, names: Seq<Seq<char>>) -> Seq<Seq<char>> {
    Seq::new(names.len(), |i: int| quoted(db, table) + "."@ + quoted(db, names[i]))
}

/// Each column name quoted.
pub open spec fn quoted_columns(db: DbType, names: Seq<Seq<char>>) -> Seq<Seq<char>> {
    Seq::new(names.len(), |i: int| quoted(db, names[i]))
}

/// `column = ?` for each column but the id column, in order.
pub open spec fn assignments(db: DbType, names: Seq<Seq<char>>, id: Seq<char>) -> Seq<Seq<char>>
    decreases names.len(),
{
    if names.len() == 0 {
        Seq::empty()
    } else {
        let rest = assignments(db, names.drop_last(), id);
        if names.last() == id {
            rest
        } else {
            rest.push(quoted(db, names.last()) + " = ?"@)
        }
    }
}

/// `n` bind markers.
pub open spec fn placeholders(n: nat) -> Seq<Seq<char>> {
    Seq::new(n, |i: int| "?"@)
}

/// The id column qualified by the table.
pub open spec fn id_ref(db: DbType, table: Seq<char>, id: Seq<char>) -> Seq<char> {
    quoted(db, table) + "."@ + quoted(db, id)
}

pub open spec fn select_sql_spec(db: DbType, table: Seq<char>, names: Seq<Seq<char>>) -> Seq<char> {
    "SELECT "@ + join(qualified_columns(db, table, names), ", "@) + " FROM "@ + quoted(db, table)
}

pub open spec fn select_by_id_sql_spec(db: DbType, table: Seq<char>, names: Seq<Seq<char>>, id: Seq<char>) -> Seq<char> {
    "SELECT "@ + join(qualified_columns(db, table, names), ", "@) + " FROM "@ + quoted(db, table)
        + " WHERE "@ + id_ref(db, table, id) + " = ? "@
}

/// The columns an insert lists: every column where ids are assigned outside
/// the database (`#[external_id]`), and otherwise every column but the id.
pub open spec fn insert_columns(names: Seq<Seq<char>>, id: Seq<char>, external_id: bool) -> Seq<Seq<char>> {
    if external_id {
        names
    } else {
        names_without(names, id)
    }
}

/// An insert of the given columns, with one bind marker for each.
pub open spec fn insert_sql_spec(db: DbType, table: Seq<char>, cols: Seq<Seq<char>>) -> Seq<char> {
    "INSERT INTO "@ + quoted(db, table) + " ("@ + join(quoted_columns(db, cols), ", "@) + ") VALUES ("@
        + join(placeholders(cols.len()), ", "@) + ") "@
}

pub open spec fn update_by_id_sql_spec(db: DbType, table: Seq<char>, names: Seq<Seq<char>>, id: Seq<char>) -> Seq<char> {
    "UPDATE "@ + quoted(db, table) + " SET "@ + join(assignments(db, names, id), ", "@) + " WHERE "@
        + id_ref(db, table, id) + " = ? "@
}

pub open spec fn delete_by_id_sql_spec(db: DbType, table: Seq<char>, id: Seq<char>) -> Seq<char> {
    "DELETE FROM "@ + quoted(db, table) + " WHERE "@ + id_ref(db, table, id) + " = ?"@
}

/// The SQL statements of an entity.
pub struct SqlQueries {
    pub select_sql: String,
    pub select_by_id_sql: String,
    pub insert_sql: String,
    pub update_by_id_sql: String,
    pub delete_by_id_sql: String,
}

/// Whether `q` holds the statements of the entity described by `c`.
pub open spec fn are_queries_of(q: SqlQueries, c: Config) -> bool {
    let names = field_names(field_models(c.fields@));
    &&& q.select_sql@ == select_sql_spec(c.db_ty, c.table_name@, names)
    &&& q.select_by_id_sql@ == select_by_id_sql_spec(c.db_ty, c.table_name@, names, c.id_column@)
    &&& q.insert_sql@ == insert_sql_spec(c.db_ty, c.table_name@, insert_columns(names, c.id_column@, c.external_id))
    &&& q.update_by_id_sql@ == update_by_id_sql_spec(c.db_ty, c.table_name@, names, c.id_column@)
    &&& q.delete_by_id_sql@ == delete_by_id_sql_spec(c.db_ty, c.table_name@, c.id_column@)
}

fn qualify_all(db: DbType, table: &str, names: &Vec<String>) -> (r: Vec<String>)
    ensures
        views(r@) == qualified_columns(db, table@, views(names@)),
{
    let quoted_table = db.quote_ident(table);
    let mut r: Vec<String> = Vec::new();
    let mut i: usize = 0;
    while i < names.len()
        invariant
            quoted_table@ == quoted(db, table@),
            i <= names@.len(),
            views(r@) == qualified_columns(db, table@, views(names@)).take(i as int),
        decreases names@.len() - i,
    {
        let mut item = quoted_table.clone();
        item.append(".");
        let q = db.quote_ident(names[i].as_str());
        item.append(q.as_str());
        let ghost old_r = r@;
        r.push(item);
        assert(r@ == old_r.push(item));
        assert(views(r@) =~= views(old_r).push(item@));
        assert(views(r@) =~= qualified_columns(db, table@, views(names@)).take(i + 1));
        i = i + 1;
    }
    assert(qualified_columns(db, table@, views(names@)).take(i as int) =~= qualified_columns(db, table@, views(names@)));
    r
}

fn quote_all(db: DbType, names: &Vec<String>) -> (r: Vec<String>)
    ensures
        views(r@) == quoted_columns(db, views(names@)),
{
    let mut r: Vec<String> = Vec::new();
    let mut i: usize = 0;
    while i < names.len()
        invariant
            i <= names@.len(),
            views(r@) == quoted_columns(db, views(names@)).take(i as int),
        decreases names@.len() - i,
    {
        let q = db.quote_ident(names[i].as_str());
        let ghost old_r = r@;
        r.push(q);
        assert(r@ == old_r.push(q));
        assert(views(r@) =~= views(old_r).push(q@));
        assert(views(r@) =~= quoted_columns(db, views(names@)).take(i + 1));
        i = i + 1;
    }
    assert(quoted_columns(db, views(names@)).take(i as int) =~= quoted_columns(db, views(names@)));
    r
}

fn assign_all(db: DbType, names: &Vec<String>, id: &str) -> (r: Vec<String>)
    ensures
        views(r@) == assignments(db, views(names@), id@),
{
    let mut r: Vec<String> = Vec::new();
    let mut i: usize = 0;
    while i < names.len()
        invariant
            i <= names@.len(),
            views(r@) == assignments(db, views(names@).take(i as int), id@),
        decreases names@.len() - i,
    {
        let ghost before = views(names@).take(i as int);
        let ghost next = views(names@).take(i + 1);
        assert(next.drop_last() =~= before);
        assert(next.last() == names@[i as int]@);
        if !str_eq(names[i].as_str(), id) {
            let mut item = db.quote_ident(names[i].as_str());
            item.append(" = ?");
            let ghost old_r = r@;
            r.push(item);
            assert(r@ == old_r.push(item));
            assert(views(r@) =~= views(old_r).push(item@));
        }
        assert(views(r@) =~= assignments(db, next, id@));
        i = i + 1;
    }
    assert(views(names@).take(i as int) =~= views(names@));
    r
}

/// The names other than `id`, in order.
fn columns_without(names: &Vec<String>, id: &str) -> (r: Vec<String>)
    ensures
        views(r@) == names_without(views(names@), id@),
{
    let mut r: Vec<String> = Vec::new();
    let mut i: usize = 0;
    while i < names.len()
        invariant
            i <= names@.len(),
            views(r@) == names_without(views(names@).take(i as int), id@),
        decreases names@.len() - i,
    {
        let ghost before = views(names@).take(i as int);
        let ghost next = views(names@).take(i + 1);
        assert(next.drop_last() =~= before);
        assert(next.last() == names@[i as int]@);
        if !str_eq(names[i].as_str(), id) {
            let item = names[i].clone();
            let ghost old_r = r@;
            r.push(item);
            assert(r@ == old_r.push(item));
            assert(views(r@) =~= views(old_r).push(item@));
        }
        assert(views(r@) =~= names_without(next, id@));
        i = i + 1;
    }
    assert(views(names@).take(i as int) =~= views(names@));
    r
}

fn markers(n: usize) -> (r: Vec<String>)
    ensures
        views(r@) == placeholders(n as nat),
{
    let mut r: Vec<String> = Vec::new();
    let mut i: usize = 0;
    while i < n
        invariant
            i <= n,
            views(r@) == placeholders(i as nat),
        decreases n - i,
    {
        let q = "?".to_string();
        let ghost old_r = r@;
        r.push(q);
        assert(r@ == old_r.push(q));
        assert(views(r@) =~= views(old_r).push(q@));
        assert(views(r@) =~= placeholders((i + 1) as nat));
        i = i + 1;
    }
    r
}

/// The SQL statements of the entity: select all, select by id, insert of
/// every column but the id (of every column with `#[external_id]`), update of
/// every column but the id by id, and delete by id; identifiers quoted for
/// its database.
pub fn build_sql_queries(config: &Config) -> (r: SqlQueries)
    ensures
        are_queries_of(r, *config),
{
    let db = config.db_ty;
    let names = config.column_names();
    let table = config.quote_ident(config.table_name.as_str());
    let mut id_column = table.clone();
    id_column.append(".");
    let quoted_id = config.quote_ident(config.id_column.as_str());
    id_column.append(quoted_id.as_str());

    let insert_cols = if config.external_id {
        config.column_names()
    } else {
        columns_without(&names, config.id_column.as_str())
    };
    let insert_binds = join_strings(&markers(insert_cols.len()), ", ");
    let update_binds = join_strings(&assign_all(db, &names, config.id_column.as_str()), ", ");
    let insert_column_list = join_strings(&quote_all(db, &insert_cols), ", ");
    let column_list = join_strings(&qualify_all(db, config.table_name.as_str(), &names), ", ");

    let mut select_sql = concat("SELECT ", column_list.as_str());
    select_sql.append(" FROM ");
    select_sql.append(table.as_str());

    let mut select_by_id_sql = select_sql.clone();
    select_by_id_sql.append(" WHERE ");
    select_by_id_sql.append(id_column.as_str());
    select_by_id_sql.append(" = ? ");

    let mut insert_sql = concat("INSERT INTO ", table.as_str());
    insert_sql.append(" (");
    insert_sql.append(insert_column_list.as_str());
    insert_sql.append(") VALUES (");
    insert_sql.append(insert_binds.as_str());
    insert_sql.append(") ");

    let mut update_by_id_sql = concat("UPDATE ", table.as_str());
    update_by_id_sql.append(" SET ");
    update_by_id_sql.append(update_binds.as_str());
    update_by_id_sql.append(" WHERE ");
    update_by_id_sql.append(id_column.as_str());
    update_by_id_sql.append(" = ? ");

    let mut delete_by_id_sql = concat("DELETE FROM ", table.as_str());
    delete_by_id_sql.append(" WHERE ");
    delete_by_id_sql.append(id_column.as_str());
    delete_by_id_sql.append(" = ?");

    SqlQueries { select_sql, select_by_id_sql, insert_sql, update_by_id_sql, delete_by_id_sql }
}


/// The schema static of an entity: its table, id column, columns and statements.
pub struct ModelSchema {
    pub table_name: String,
    pub id_column: String,
    pub columns: Vec<String>,
    pub queries: SqlQueries,
}

/// The schema static of the entity: the table name and id column unquoted,
/// the field names as columns, and its SQL statements.
pub fn build_static_model_schema(config: &Config) -> (r: ModelSchema)
    ensures
        r.table_name@ == config.table_name@,
        r.id_column@ == config.id_column@,
        views(r.columns@) == field_names(field_models(config.fields@)),
        are_queries_of(r.queries, *config),
{
    let table_name = config.table_name.clone();
    let id_column = config.id_column.clone();
    let columns = config.column_names();
    let queries = build_sql_queries(config);
    ModelSchema { table_name, id_column, columns, queries }
}

/// The names other than `id`, in order.
pub open spec fn names_without(names: Seq<Seq<char>>, id: Seq<char>) -> Seq<Seq<char>>
    decreases names.len(),
{
    if names.len() == 0 {
        Seq::empty()
    } else {
        let rest = names_without(names.drop_last(), id);
        if names.last() == id {
            rest
        } else {
            rest.push(names.last())
        }
    }
}

/// Whether field `i` is the first one named `name`.
pub open spec fn is_first_named(fs: Seq<FieldModel>, name: Seq<char>, i: int) -> bool {
    &&& 0 <= i < fs.len()
    &&& fs[i].name == name
    &&& forall|j: int| 0 <= j < i ==> (#[trigger] fs[j]).name != name
}

/// Whether some field is named `name`.
pub open spec fn has_field_named(fs: Seq<FieldModel>, name: Seq<char>) -> bool {
    exists|i: int| 0 <= i < fs.len() && (#[trigger] fs[i]).name == name
}

/// The type of the first field named `name`.
pub open spec fn type_of_field(fs: Seq<FieldModel>, name: Seq<char>) -> Seq<char> {
    fs[choose|i: int| is_first_named(fs, name, i)].ty
}

/// What the generated `Schema` and `Crud` impls are made of.
pub struct CrudImpl {
    /// The type of the id column.
    pub id_type: String,
    /// The fields bound, in order, to an insert.
    pub insert_binds: Vec<String>,
    /// The fields bound, in order, to an update by id.
    pub update_binds: Vec<String>,
    /// The path of the sqlx database type.
    pub sqlx_db: String,
}

/// The generated impls of the entity: the id type is that of the id column;
/// an insert binds every field in order; an update binds every field but the
/// id, then the id. The id column must be one of the fields.
pub fn build_sqlx_crud_impl(config: &Config) -> (r: CrudImpl)
    requires
        has_field_named(field_models(config.fields@), config.id_column@),
    ensures
        r.id_type@ == type_of_field(field_models(config.fields@), config.id_column@),
        views(r.insert_binds@) == field_names(field_models(config.fields@)),
        views(r.update_binds@) == names_without(field_names(field_models(config.fields@)), config.id_column@).push(
            config.id_column@,
        ),
        r.sqlx_db@ == sqlx_db_path(config.db_ty),
{
    let ghost fs = field_models(config.fields@);
    let id = config.id_column.as_str();
    let mut found: Option<usize> = None;
    let mut i: usize = 0;
    while i < config.fields.len()
        invariant
            fs == field_models(config.fields@),
            id@ == config.id_column@,
            i <= config.fields@.len(),
            found is None ==> forall|j: int| 0 <= j < i ==> (#[trigger] fs[j]).name != id@,
            found matches Some(k) ==> is_first_named(fs, id@, k as int),
        decreases config.fields@.len() - i,
    {
        if found.is_none() && str_eq(config.fields[i].name.as_str(), id) {
            found = Some(i);
        }
        i = i + 1;
    }
    let k = match found {
        Some(k) => k,
        None => {
            proof {
                let w = choose|w: int| 0 <= w < fs.len() && (#[trigger] fs[w]).name == id@;
                assert(fs[w].name != id@);
            }
            0
        },
    };
    proof {
        let c = choose|c: int| is_first_named(fs, id@, c);
        assert(is_first_named(fs, id@, k as int));
        assert(is_first_named(fs, id@, c));
        if c < k {
            assert(fs[c].name != id@);
        }
        if k < c {
            assert(fs[k as int].name != id@);
        }
        assert(c == k);
    }
    let id_type = config.fields[k].ty.clone();
    let insert_binds = config.column_names();
    let mut update_binds = columns_without(&insert_binds, id);
    let id_bind = config.id_column.clone();
    let ghost old_u = update_binds@;
    update_binds.push(id_bind);
    assert(update_binds@ == old_u.push(id_bind));
    assert(views(update_binds@) =~= views(old_u).push(id_bind@));
    let sqlx_db = config.db_ty.sqlx_db();
    CrudImpl { id_type, insert_binds, update_binds, sqlx_db }
}

/// What an entity stored in a table offers: its table, columns and statements.
pub trait Schema {
    /// The type of the primary key.
    type Id;

    fn table_name() -> &'static str;

    fn id(&self) -> Self::Id;

    fn id_column() -> &'static str;

    fn columns() -> &'static [&'static str];

    fn select_sql() -> &'static str;

    fn select_by_id_sql() -> &'static str;

    fn insert_sql() -> &'static str;

    fn update_by_id_sql() -> &'static str;

    fn delete_by_id_sql() -> &'static str;
}


/// Before the id that closes it, an update by id binds every column except
/// the id column, and never the id column.
pub proof fn law_update_binds_all_but_id(names: Seq<Seq<char>>, id: Seq<char>, x: Seq<char>)
    ensures
        !names_without(names, id).contains(id),
        x != id ==> (names_without(names, id).contains(x) <==> names.contains(x)),
    decreases names.len(),
{
    if names.len() > 0 {
        law_update_binds_all_but_id(names.drop_last(), id, x);
        let rest = names_without(names.drop_last(), id);
        if names.last() != id {
            assert(names_without(names, id) == rest.push(names.last()));
            if rest.push(names.last()).contains(id) {
                let i = choose|i: int| 0 <= i < rest.push(names.last()).len() && rest.push(names.last())[i] == id;
                if i < rest.len() {
                    assert(rest.contains(id));
                }
            }
        }
        if x != id {
            if names.contains(x) {
                let i = choose|i: int| 0 <= i < names.len() && names[i] == x;
                if i < names.len() - 1 {
                    assert(names.drop_last()[i] == x);
                    assert(names.drop_last().contains(x));
                    if names.last() != id {
                        let j = choose|j: int| 0 <= j < rest.len() && rest[j] == x;
                        assert(rest.push(names.last())[j] == x);
                    }
                } else {
                    assert(names.last() == x);
                    if names.last() != id {
                        assert(rest.push(names.last())[rest.len() as int] == x);
                    }
                }
            }
            if names_without(names, id).contains(x) {
                let w = names_without(names, id);
                let i = choose|i: int| 0 <= i < w.len() && w[i] == x;
                if names.last() != id && i == rest.len() {
                    assert(names[names.len() - 1] == x);
                } else {
                    assert(rest[i] == x);
                    assert(rest.contains(x));
                    let j = choose|j: int| 0 <= j < names.drop_last().len() && names.drop_last()[j] == x;
                    assert(names[j] == x);
                }
            }
        }
    }
}

/// The statements quote every identifier for MySQL with back quotes and for
/// the other databases with double quotes.
pub proof fn law_quoting(db: DbType, ident: Seq<char>)
    ensures
        db == DbType::MySql ==> quoted(db, ident) == seq!['`'] + ident + seq!['`'],
        db != DbType::MySql ==> quoted(db, ident) == seq!['"'] + ident + seq!['"'],
{
}

/// An insert lists the id column exactly when ids are assigned outside the
/// database; every other column it always lists.
pub proof fn law_insert_columns(names: Seq<Seq<char>>, id: Seq<char>, external_id: bool, x: Seq<char>)
    requires
        names.contains(id),
    ensures
        insert_columns(names, id, external_id).contains(id) <==> external_id,
        x != id ==> (insert_columns(names, id, external_id).contains(x) <==> names.contains(x)),
{
    law_update_binds_all_but_id(names, id, x);
}

/// The sqlx database path of an entity names the entity's own database:
/// it is `::sqlx::` followed by the name that stands for that database.
pub proof fn law_sqlx_path_names_own_database(db: DbType)
    ensures
        sqlx_db_path(db).len() > 8,
        sqlx_db_path(db).subrange(0, 8) == "::sqlx::"@,
        db_type_named(sqlx_db_path(db).subrange(8, sqlx_db_path(db).len() as int)) == Some(db),
{
    reveal_strlit("::sqlx::");
    reveal_strlit("::sqlx::Any");
    reveal_strlit("::sqlx::Mssql");
    reveal_strlit("::sqlx::MySql");
    reveal_strlit("::sqlx::Postgres");
    reveal_strlit("::sqlx::Sqlite");
    reveal_strlit("Any");
    reveal_strlit("Mssql");
    reveal_strlit("MySql");
    reveal_strlit("Postgres");
    reveal_strlit("Sqlite");
    let p = sqlx_db_path(db);
    let tail = p.subrange(8, p.len() as int);
    match db {
        DbType::Any => {
            assert(tail =~= "Any"@);
        },
        DbType::Mssql => {
            assert(tail =~= "Mssql"@);
            assert(tail != "Any"@);
        },
        DbType::MySql => {
            assert(tail =~= "MySql"@);
            assert(tail != "Any"@);
            assert(tail[1] != "Mssql"@[1]);
        },
        DbType::Postgres => {
            assert(tail =~= "Postgres"@);
            assert(tail != "Any"@);
            assert(tail != "Mssql"@);
            assert(tail != "MySql"@);
        },
        DbType::Sqlite => {
            assert(tail =~= "Sqlite"@);
            assert(tail != "Any"@);
            assert(tail != "Mssql"@);
            assert(tail != "MySql"@);
            assert(tail != "Postgres"@);
        },
    }
    assert(p.subrange(0, 8) =~= "::sqlx::"@);
}

} // verus!
