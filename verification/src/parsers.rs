use vstd::prelude::*;

use crate::database::column::{clone_strings, Column, ColumnType, ColumnTypeV, ColumnV};
use crate::database::keys::{ForeignKey, ForeignKeyV, Key, KeyV};
use crate::database::table::{spec_find_col, Table, TableV};
use crate::error::{view_result, SchemaError, SchemaErrorV};

verus! {

/// A dialect type descriptor, as the upstream statement stream delivers it;
/// width and precision arguments are already discarded. `Unsupported` stands
/// for every descriptor outside the vocabulary the normalizer accepts.
#[derive(Debug)]
pub enum TypeDesc {
    Boolean,
    TinyInt,
    SmallInt,
    Integer,
    Int,
    BigInt,
    Char,
    VarChar,
    TinyText,
    MediumText,
    Text,
    LongText,
    Enum(Vec<String>),
    Float8,
    Float,
    Double,
    DateTime,
    Timestamp,
    Time,
    Date,
    Unsupported,
}

/// The mathematical model of a `TypeDesc`.
pub enum TypeDescV {
    Boolean,
    TinyInt,
    SmallInt,
    Integer,
    Int,
    BigInt,
    Char,
    VarChar,
    TinyText,
    MediumText,
    Text,
    LongText,
    Enum(Seq<Seq<char>>),
    Float8,
    Float,
    Double,
    DateTime,
    Timestamp,
    Time,
    Date,
    Unsupported,
}

impl View for TypeDesc {
    type V = TypeDescV;

    open spec fn view(&self) -> TypeDescV {
        match self {
            TypeDesc::Boolean => TypeDescV::Boolean,
            TypeDesc::TinyInt => TypeDescV::TinyInt,
            TypeDesc::SmallInt => TypeDescV::SmallInt,
            TypeDesc::Integer => TypeDescV::Integer,
            TypeDesc::Int => TypeDescV::Int,
            TypeDesc::BigInt => TypeDescV::BigInt,
            TypeDesc::Char => TypeDescV::Char,
            TypeDesc::VarChar => TypeDescV::VarChar,
            TypeDesc::TinyText => TypeDescV::TinyText,
            TypeDesc::MediumText => TypeDescV::MediumText,
            TypeDesc::Text => TypeDescV::Text,
            TypeDesc::LongText => TypeDescV::LongText,
            TypeDesc::Enum(labels) => TypeDescV::Enum(labels.deep_view()),
            TypeDesc::Float8 => TypeDescV::Float8,
            TypeDesc::Float => TypeDescV::Float,
            TypeDesc::Double => TypeDescV::Double,
            TypeDesc::DateTime => TypeDescV::DateTime,
            TypeDesc::Timestamp => TypeDescV::Timestamp,
            TypeDesc::Time => TypeDescV::Time,
            TypeDesc::Date => TypeDescV::Date,
            TypeDesc::Unsupported => TypeDescV::Unsupported,
        }
    }
}

/// One optional property inside a column definition; `Other` stands for the
/// properties the builder ignores.
#[derive(Debug)]
pub enum DataTypeProperty {
    NotNull,
    AutoIncrement,
    Comment(String),
    Other,
}

/// The mathematical model of a `DataTypeProperty`.
pub enum DataTypePropertyV {
    NotNull,
    AutoIncrement,
    Comment(Seq<char>),
    Other,
}

impl View for DataTypeProperty {
    type V = DataTypePropertyV;

    open spec fn view(&self) -> DataTypePropertyV {
        match self {
            DataTypeProperty::NotNull => DataTypePropertyV::NotNull,
            DataTypeProperty::AutoIncrement => DataTypePropertyV::AutoIncrement,
            DataTypeProperty::Comment(c) => DataTypePropertyV::Comment(c@),
            DataTypeProperty::Other => DataTypePropertyV::Other,
        }
    }
}

impl DeepView for DataTypeProperty {
    type V = DataTypePropertyV;

    open spec fn deep_view(&self) -> DataTypePropertyV {
        self.view()
    }
}

/// One column definition inside a create-table statement.
#[derive(Debug)]
pub struct ColumnDefinition {
    pub name: String,
    pub type_: TypeDesc,
    pub properties: Vec<DataTypeProperty>,
}

/// The mathematical model of a `ColumnDefinition`.
pub struct ColumnDefinitionV {
    pub name: Seq<char>,
    pub type_: TypeDescV,
    pub properties: Seq<DataTypePropertyV>,
}

impl View for ColumnDefinition {
    type V = ColumnDefinitionV;

    open spec fn view(&self) -> ColumnDefinitionV {
        ColumnDefinitionV {
            name: self.name@,
            type_: self.type_@,
            properties: self.properties.deep_view(),
        }
    }
}

impl DeepView for ColumnDefinition {
    type V = ColumnDefinitionV;

    open spec fn deep_view(&self) -> ColumnDefinitionV {
        self.view()
    }
}

/// The kind of an added index. `Other` degrades to a non-unique key rather
/// than failing.
#[derive(Clone, Copy, Debug)]
pub enum IndexKind {
    Primary,
    Unique,
    Index,
    Other,
}

/// One alteration inside an alter-table statement; `Other` stands for the
/// alteration kinds the builder does not implement.
#[derive(Debug)]
pub enum AlterSpecification {
    AddIndex { index_kind: IndexKind, name: Option<String>, columns: Vec<String> },
    Modify { column: String, type_: TypeDesc, properties: Vec<DataTypeProperty> },
    AddForeignKey {
        constraint_name: Option<String>,
        columns: Vec<String>,
        foreign_table: String,
        foreign_columns: Vec<String>,
    },
    Other,
}

/// The mathematical model of an `AlterSpecification`.
pub enum AlterSpecificationV {
    AddIndex { index_kind: IndexKind, name: Option<Seq<char>>, columns: Seq<Seq<char>> },
    Modify { column: Seq<char>, type_: TypeDescV, properties: Seq<DataTypePropertyV> },
    AddForeignKey {
        constraint_name: Option<Seq<char>>,
        columns: Seq<Seq<char>>,
        foreign_table: Seq<char>,
        foreign_columns: Seq<Seq<char>>,
    },
    Other,
}

impl View for AlterSpecification {
    type V = AlterSpecificationV;

    open spec fn view(&self) -> AlterSpecificationV {
        match self {
            AlterSpecification::AddIndex { index_kind, name, columns } => {
                AlterSpecificationV::AddIndex {
                    index_kind: *index_kind,
                    name: name.deep_view(),
                    columns: columns.deep_view(),
                }
            },
            AlterSpecification::Modify { column, type_, properties } => {
                AlterSpecificationV::Modify {
                    column: column@,
                    type_: type_@,
                    properties: properties.deep_view(),
                }
            },
            AlterSpecification::AddForeignKey {
                constraint_name,
                columns,
                foreign_table,
                foreign_columns,
            } => {
                AlterSpecificationV::AddForeignKey {
                    constraint_name: constraint_name.deep_view(),
                    columns: columns.deep_view(),
                    foreign_table: foreign_table@,
                    foreign_columns: foreign_columns.deep_view(),
                }
            },
            AlterSpecification::Other => AlterSpecificationV::Other,
        }
    }
}

impl DeepView for AlterSpecification {
    type V = AlterSpecificationV;

    open spec fn deep_view(&self) -> AlterSpecificationV {
        self.view()
    }
}

/// One statement of the stream the builder folds; `Other` stands for every
/// statement kind the builder ignores.
#[derive(Debug)]
pub enum Statement {
    CreateTable { name: String, definitions: Vec<ColumnDefinition> },
    AlterTable { name: String, specifications: Vec<AlterSpecification> },
    Other,
}

/// The mathematical model of a `Statement`.
pub enum StatementV {
    CreateTable { name: Seq<char>, definitions: Seq<ColumnDefinitionV> },
    AlterTable { name: Seq<char>, specifications: Seq<AlterSpecificationV> },
    Other,
}

impl View for Statement {
    type V = StatementV;

    open spec fn view(&self) -> StatementV {
        match self {
            Statement::CreateTable { name, definitions } => {
                StatementV::CreateTable { name: name@, definitions: definitions.deep_view() }
            },
            Statement::AlterTable { name, specifications } => {
                StatementV::AlterTable { name: name@, specifications: specifications.deep_view() }
            },
            Statement::Other => StatementV::Other,
        }
    }
}

impl DeepView for Statement {
    type V = StatementV;

    open spec fn deep_view(&self) -> StatementV {
        self.view()
    }
}

/// The schema model: the tables in the order their create statements first
/// introduced them, each carrying its own keys and foreign keys.
#[derive(Debug)]
pub struct Schema {
    pub tables: Vec<Table>,
}

impl View for Schema {
    type V = Seq<TableV>;

    open spec fn view(&self) -> Seq<TableV> {
        self.tables.deep_view()
    }
}

/// The index of the first table named `name` at or after position `i`.
pub open spec fn spec_find_table_from(tables: Seq<TableV>, name: Seq<char>, i: int) -> Option<int>
    decreases tables.len() - i,
    when 0 <= i
{
    if i >= tables.len() {
        None
    } else if tables[i].name == name {
        Some(i)
    } else {
        spec_find_table_from(tables, name, i + 1)
    }
}

/// The index of the first table named `name`, if any.
pub open spec fn spec_find_table(tables: Seq<TableV>, name: Seq<char>) -> Option<int> {
    spec_find_table_from(tables, name, 0)
}

/// The semantic type a dialect descriptor normalizes to: integer widths to
/// `Int`, character and temporal kinds to `String`, floating kinds to
/// `Float`, an enumerated type to `Enum` with its labels in order. A
/// descriptor outside this set aborts generation for the column `col`.
pub open spec fn spec_parse_type(t: TypeDescV, col: Seq<char>) -> Result<
    ColumnTypeV,
    SchemaErrorV,
> {
    match t {
        TypeDescV::Boolean => Ok(ColumnTypeV::Boolean),
        TypeDescV::TinyInt => Ok(ColumnTypeV::Int),
        TypeDescV::SmallInt => Ok(ColumnTypeV::Int),
        TypeDescV::Integer => Ok(ColumnTypeV::Int),
        TypeDescV::Int => Ok(ColumnTypeV::Int),
        TypeDescV::BigInt => Ok(ColumnTypeV::Int),
        TypeDescV::Char => Ok(ColumnTypeV::String),
        TypeDescV::VarChar => Ok(ColumnTypeV::String),
        TypeDescV::TinyText => Ok(ColumnTypeV::String),
        TypeDescV::MediumText => Ok(ColumnTypeV::String),
        TypeDescV::Text => Ok(ColumnTypeV::String),
        TypeDescV::LongText => Ok(ColumnTypeV::String),
        TypeDescV::Enum(labels) => Ok(ColumnTypeV::Enum(labels)),
        TypeDescV::Float8 => Ok(ColumnTypeV::Float),
        TypeDescV::Float => Ok(ColumnTypeV::Float),
        TypeDescV::Double => Ok(ColumnTypeV::Float),
        TypeDescV::DateTime => Ok(ColumnTypeV::String),
        TypeDescV::Timestamp => Ok(ColumnTypeV::String),
        TypeDescV::Time => Ok(ColumnTypeV::String),
        TypeDescV::Date => Ok(ColumnTypeV::String),
        TypeDescV::Unsupported => Err(SchemaErrorV::UnsupportedType(col)),
    }
}

/// Folds the properties `props[i..]` over a running (nullable, auto_increment,
/// comment) state, later occurrences overriding earlier ones.
pub open spec fn spec_apply_properties_from(
    props: Seq<DataTypePropertyV>,
    i: int,
    nullable: bool,
    auto_increment: bool,
    comment: Seq<char>,
) -> (bool, bool, Seq<char>)
    decreases props.len() - i,
    when 0 <= i
{
    if i >= props.len() {
        (nullable, auto_increment, comment)
    } else {
        match props[i] {
            DataTypePropertyV::NotNull => spec_apply_properties_from(
                props,
                i + 1,
                false,
                auto_increment,
                comment,
            ),
            DataTypePropertyV::AutoIncrement => spec_apply_properties_from(
                props,
                i + 1,
                nullable,
                true,
                comment,
            ),
            DataTypePropertyV::Comment(c) => spec_apply_properties_from(
                props,
                i + 1,
                nullable,
                auto_increment,
                c,
            ),
            DataTypePropertyV::Other => spec_apply_properties_from(
                props,
                i + 1,
                nullable,
                auto_increment,
                comment,
            ),
        }
    }
}

/// Folds a property list over an initial (nullable, auto_increment, comment)
/// state.
pub open spec fn spec_apply_properties(
    props: Seq<DataTypePropertyV>,
    nullable: bool,
    auto_increment: bool,
    comment: Seq<char>,
) -> (bool, bool, Seq<char>) {
    spec_apply_properties_from(props, 0, nullable, auto_increment, comment)
}

/// The column a definition builds: the normalized type, with nullability
/// defaulting to true, auto-increment to false and the comment to empty
/// unless properties say otherwise.
pub open spec fn spec_parse_create_definition(def: ColumnDefinitionV) -> Result<
    ColumnV,
    SchemaErrorV,
> {
    match spec_parse_type(def.type_, def.name) {
        Err(e) => Err(e),
        Ok(t) => {
            let state = spec_apply_properties(def.properties, true, false, Seq::empty());
            Ok(
                ColumnV {
                    name: def.name,
                    type_: t,
                    nullable: state.0,
                    auto_increment: state.1,
                    comment: state.2,
                },
            )
        },
    }
}

/// The columns that the definitions `defs[i..]` build, appended to `acc`; the
/// first definition with an unsupported type is the error.
pub open spec fn spec_parse_definitions_from(
    defs: Seq<ColumnDefinitionV>,
    i: int,
    acc: Seq<ColumnV>,
) -> Result<Seq<ColumnV>, SchemaErrorV>
    decreases defs.len() - i,
    when 0 <= i
{
    if i >= defs.len() {
        Ok(acc)
    } else {
        match spec_parse_create_definition(defs[i]) {
            Err(e) => Err(e),
            Ok(c) => spec_parse_definitions_from(defs, i + 1, acc.push(c)),
        }
    }
}

/// Inserts a table into the schema, replacing in place any earlier table of
/// the same name.
pub open spec fn spec_insert_table(tables: Seq<TableV>, t: TableV) -> Seq<TableV> {
    match spec_find_table(tables, t.name) {
        Some(i) => tables.update(i, t),
        None => tables.push(t),
    }
}

/// Whether an index kind makes a unique key: primary and unique kinds do,
/// plain and unrecognized kinds do not.
pub open spec fn spec_index_unique(kind: IndexKind) -> bool {
    match kind {
        IndexKind::Primary => true,
        IndexKind::Unique => true,
        IndexKind::Index => false,
        IndexKind::Other => false,
    }
}

/// The schema after adding an index to `table_name`: a primary kind fills the
/// primary-key slot (overwriting silently), any other kind appends a
/// secondary key; a missing table is the error.
pub open spec fn spec_parse_add_index(
    kind: IndexKind,
    cols: Seq<Seq<char>>,
    name: Option<Seq<char>>,
    table_name: Seq<char>,
    tables: Seq<TableV>,
) -> Result<Seq<TableV>, SchemaErrorV> {
    let key = KeyV {
        name: match name {
            Some(n) => n,
            None => Seq::empty(),
        },
        unique: spec_index_unique(kind),
        table_name: table_name,
        column_names: cols,
    };
    match spec_find_table(tables, table_name) {
        None => Err(SchemaErrorV::UnknownTable(table_name)),
        Some(i) => {
            let t = tables[i];
            let t2 = if kind is Primary {
                TableV { primary_key: Some(key), ..t }
            } else {
                TableV { keys: t.keys.push(key), ..t }
            };
            Ok(tables.update(i, t2))
        },
    }
}

/// The schema after one alteration of `table_name`.
pub open spec fn spec_parse_alter_specification(
    alter: AlterSpecificationV,
    table_name: Seq<char>,
    tables: Seq<TableV>,
) -> Result<Seq<TableV>, SchemaErrorV> {
    match alter {
        AlterSpecificationV::AddIndex { index_kind, name, columns } => spec_parse_add_index(
            index_kind,
            columns,
            name,
            table_name,
            tables,
        ),
        AlterSpecificationV::Modify { column, type_, properties } => {
            match spec_find_table(tables, table_name) {
                None => Err(SchemaErrorV::UnknownTable(table_name)),
                Some(ti) => {
                    let t = tables[ti];
                    match spec_find_col(t.columns, column) {
                        None => Err(SchemaErrorV::UnknownColumn(table_name, column)),
                        Some(ci) => match spec_parse_type(type_, column) {
                            Err(e) => Err(e),
                            Ok(ct) => {
                                let c = t.columns[ci];
                                let state = spec_apply_properties(
                                    properties,
                                    c.nullable,
                                    c.auto_increment,
                                    c.comment,
                                );
                                let c2 = ColumnV {
                                    name: c.name,
                                    type_: ct,
                                    nullable: state.0,
                                    auto_increment: state.1,
                                    comment: state.2,
                                };
                                Ok(tables.update(ti, TableV { columns: t.columns.update(ci, c2), ..t }))
                            },
                        },
                    }
                },
            }
        },
        AlterSpecificationV::AddForeignKey {
            constraint_name,
            columns,
            foreign_table,
            foreign_columns,
        } => {
            match constraint_name {
                None => Err(SchemaErrorV::UnnamedForeignKey(table_name)),
                Some(nm) => match spec_find_table(tables, table_name) {
                    None => Err(SchemaErrorV::UnknownTable(table_name)),
                    Some(ti) => {
                        let t = tables[ti];
                        let fk = ForeignKeyV {
                            name: nm,
                            table_name: table_name,
                            column_names: columns,
                            foreign_table_name: foreign_table,
                            foreign_column_names: foreign_columns,
                        };
                        Ok(
                            tables.update(
                                ti,
                                TableV { foreign_keys: t.foreign_keys.push(fk), ..t },
                            ),
                        )
                    },
                },
            }
        },
        AlterSpecificationV::Other => Err(SchemaErrorV::UnsupportedAlteration(table_name)),
    }
}

/// The schema after the alterations `alters[i..]` of `table_name`, in order;
/// the first failing alteration is the error.
pub open spec fn spec_parse_alters_from(
    alters: Seq<AlterSpecificationV>,
    table_name: Seq<char>,
    i: int,
    tables: Seq<TableV>,
) -> Result<Seq<TableV>, SchemaErrorV>
    decreases alters.len() - i,
    when 0 <= i
{
    if i >= alters.len() {
        Ok(tables)
    } else {
        match spec_parse_alter_specification(alters[i], table_name, tables) {
            Err(e) => Err(e),
            Ok(tables2) => spec_parse_alters_from(alters, table_name, i + 1, tables2),
        }
    }
}

/// The schema after one statement: a create statement builds and inserts a
/// table, an alter statement applies its alterations in order, any other
/// statement is ignored.
pub open spec fn spec_parse_statement(stmt: StatementV, tables: Seq<TableV>) -> Result<
    Seq<TableV>,
    SchemaErrorV,
> {
    match stmt {
        StatementV::CreateTable { name, definitions } => {
            match spec_parse_definitions_from(definitions, 0, Seq::empty()) {
                Err(e) => Err(e),
                Ok(cols) => Ok(
                    spec_insert_table(
                        tables,
                        TableV {
                            name: name,
                            columns: cols,
                            keys: Seq::empty(),
                            primary_key: None,
                            foreign_keys: Seq::empty(),
                        },
                    ),
                ),
            }
        },
        StatementV::AlterTable { name, specifications } => spec_parse_alters_from(
            specifications,
            name,
            0,
            tables,
        ),
        StatementV::Other => Ok(tables),
    }
}

/// The schema after the statements `stmts[i..]`, folded in input order over
/// `tables`; the first failing statement is the error.
pub open spec fn spec_parse_statements_from(
    stmts: Seq<StatementV>,
    i: int,
    tables: Seq<TableV>,
) -> Result<Seq<TableV>, SchemaErrorV>
    decreases stmts.len() - i,
    when 0 <= i
{
    if i >= stmts.len() {
        Ok(tables)
    } else {
        match spec_parse_statement(stmts[i], tables) {
            Err(e) => Err(e),
            Ok(tables2) => spec_parse_statements_from(stmts, i + 1, tables2),
        }
    }
}

/// The schema an ordered statement stream folds to, starting from nothing.
pub open spec fn spec_parse_statements(stmts: Seq<StatementV>) -> Result<
    Seq<TableV>,
    SchemaErrorV,
> {
    spec_parse_statements_from(stmts, 0, Seq::empty())
}

impl Schema {
    /// An empty schema.
    pub fn new() -> (res: Self)
        ensures
            res@ == Seq::<TableV>::empty(),
    {
        let s = Schema { tables: Vec::new() };
        proof {
            assert(s@ =~= Seq::<TableV>::empty());
        }
        s
    }

    /// The position of the first table with the given name, if any.
    pub fn find_table(&self, name: &String) -> (r: Option<usize>)
        ensures
            (match r {
                Some(i) => spec_find_table(self@, name@) == Some(i as int) && (i as int)
                    < self@.len() && self@[i as int].name == name@,
                None => spec_find_table(self@, name@) is None,
            }),
    {
        let n = self.tables.len();
        let mut i: usize = 0;
        while i < n
            invariant
                n == self.tables.len(),
                i <= n,
                spec_find_table(self@, name@) == spec_find_table_from(self@, name@, i as int),
            decreases n - i,
        {
            if self.tables[i].name.eq(name) {
                return Some(i);
            }
            i += 1;
        }
        None
    }
}

/// Normalizes a dialect type descriptor to a semantic type; a descriptor
/// outside the supported set is an error naming the column `col`.
pub fn parse_type(type_: &TypeDesc, col: &String) -> (r: Result<ColumnType, SchemaError>)
    ensures
        view_result(r) == spec_parse_type(type_@, col@),
{
    match type_ {
        TypeDesc::Boolean => Ok(ColumnType::Boolean),
        TypeDesc::TinyInt => Ok(ColumnType::Int),
        TypeDesc::SmallInt => Ok(ColumnType::Int),
        TypeDesc::Integer => Ok(ColumnType::Int),
        TypeDesc::Int => Ok(ColumnType::Int),
        TypeDesc::BigInt => Ok(ColumnType::Int),
        TypeDesc::Char => Ok(ColumnType::String),
        TypeDesc::VarChar => Ok(ColumnType::String),
        TypeDesc::TinyText => Ok(ColumnType::String),
        TypeDesc::MediumText => Ok(ColumnType::String),
        TypeDesc::Text => Ok(ColumnType::String),
        TypeDesc::LongText => Ok(ColumnType::String),
        TypeDesc::Enum(labels) => Ok(ColumnType::Enum(clone_strings(labels))),
        TypeDesc::Float8 => Ok(ColumnType::Float),
        TypeDesc::Float => Ok(ColumnType::Float),
        TypeDesc::Double => Ok(ColumnType::Float),
        TypeDesc::DateTime => Ok(ColumnType::String),
        TypeDesc::Timestamp => Ok(ColumnType::String),
        TypeDesc::Time => Ok(ColumnType::String),
        TypeDesc::Date => Ok(ColumnType::String),
        TypeDesc::Unsupported => Err(SchemaError::UnsupportedType(col.clone())),
    }
}

/// Folds a property list over an initial (nullable, auto_increment, comment)
/// state, later occurrences overriding earlier ones within the list.
pub fn apply_properties(
    properties: &Vec<DataTypeProperty>,
    nullable: bool,
    auto_increment: bool,
    comment: String,
) -> (r: (bool, bool, String))
    ensures
        (r.0, r.1, r.2@) == spec_apply_properties(
            properties.deep_view(),
            nullable,
            auto_increment,
            comment@,
        ),
{
    let mut nullable = nullable;
    let mut auto_increment = auto_increment;
    let mut comment = comment;
    let ghost nullable0 = nullable;
    let ghost auto0 = auto_increment;
    let ghost comment0 = comment@;
    let n = properties.len();
    let mut i: usize = 0;
    while i < n
        invariant
            n == properties.len(),
            i <= n,
            spec_apply_properties_from(properties.deep_view(), i as int, nullable, auto_increment, comment@)
                == spec_apply_properties(properties.deep_view(), nullable0, auto0, comment0),
        decreases n - i,
    {
        match &properties[i] {
            DataTypeProperty::NotNull => {
                nullable = false;
            },
            DataTypeProperty::AutoIncrement => {
                auto_increment = true;
            },
            DataTypeProperty::Comment(c) => {
                comment = c.clone();
            },
            DataTypeProperty::Other => {},
        }
        i += 1;
    }
    (nullable, auto_increment, comment)
}

/// Builds the column a definition describes: the normalized type, with
/// nullability defaulting to true, auto-increment to false and the comment
/// to empty unless properties say otherwise.
pub fn parse_create_definition(def: &ColumnDefinition) -> (r: Result<Column, SchemaError>)
    ensures
        view_result(r) == spec_parse_create_definition(def@),
{
    let type_ = match parse_type(&def.type_, &def.name) {
        Err(e) => {
            return Err(e);
        },
        Ok(t) => t,
    };
    let state = apply_properties(&def.properties, true, false, String::new());
    Ok(Column::new(def.name.clone(), type_, state.0, state.1, state.2))
}

/// Copies an optional string, keeping the characters.
fn clone_opt_string(o: &Option<String>) -> (r: Option<String>)
    ensures
        r.deep_view() == o.deep_view(),
{
    match o {
        Some(s) => Some(s.clone()),
        None => None,
    }
}

/// Adds an index to the named table: a primary kind fills the primary-key
/// slot, any other kind appends a secondary key; a primary or unique kind
/// makes the key unique, an unrecognized kind degrades to non-unique.
pub fn parse_add_index(
    index_type: IndexKind,
    cols: Vec<String>,
    name: Option<String>,
    table_name: &String,
    schema: &mut Schema,
) -> (r: Result<(), SchemaError>)
    ensures
        (match r {
            Ok(_) => spec_parse_add_index(
                index_type,
                cols.deep_view(),
                name.deep_view(),
                table_name@,
                old(schema)@,
            ) == Ok::<Seq<TableV>, SchemaErrorV>(final(schema)@),
            Err(e) => spec_parse_add_index(
                index_type,
                cols.deep_view(),
                name.deep_view(),
                table_name@,
                old(schema)@,
            ) == Err::<Seq<TableV>, SchemaErrorV>(e@),
        }),
{
    let key_name = match name {
        Some(n) => n,
        None => String::new(),
    };
    let unique = match index_type {
        IndexKind::Primary => true,
        IndexKind::Unique => true,
        IndexKind::Index => false,
        IndexKind::Other => false,
    };
    let key = Key::new(key_name, unique, table_name.clone(), cols);
    let ti = match schema.find_table(table_name) {
        None => {
            return Err(SchemaError::UnknownTable(table_name.clone()));
        },
        Some(ti) => ti,
    };
    let ghost tables0 = schema@;
    let mut t = schema.tables.remove(ti);
    let ghost t0 = t@;
    let primary = match index_type {
        IndexKind::Primary => true,
        _ => false,
    };
    if primary {
        t.primary_key = Some(key);
        proof {
            assert(t@ =~= (TableV { primary_key: Some(key@), ..t0 }));
        }
    } else {
        t.keys.push(key);
        proof {
            assert(t@.keys =~= t0.keys.push(key@));
            assert(t@ =~= (TableV { keys: t0.keys.push(key@), ..t0 }));
        }
    }
    schema.tables.insert(ti, t);
    proof {
        assert(schema@ =~= tables0.update(ti as int, t@));
    }
    Ok(())
}

/// Applies one alteration to the named table in the schema.
pub fn parse_alter_specification(
    alter_specification: &AlterSpecification,
    table_name: &String,
    schema: &mut Schema,
) -> (r: Result<(), SchemaError>)
    ensures
        (match r {
            Ok(_) => spec_parse_alter_specification(
                alter_specification@,
                table_name@,
                old(schema)@,
            ) == Ok::<Seq<TableV>, SchemaErrorV>(final(schema)@),
            Err(e) => spec_parse_alter_specification(
                alter_specification@,
                table_name@,
                old(schema)@,
            ) == Err::<Seq<TableV>, SchemaErrorV>(e@),
        }),
{
    match alter_specification {
        AlterSpecification::AddIndex { index_kind, name, columns } => {
            parse_add_index(
                *index_kind,
                clone_strings(columns),
                clone_opt_string(name),
                table_name,
                schema,
            )
        },
        AlterSpecification::Modify { column, type_, properties } => {
            let ti = match schema.find_table(table_name) {
                None => {
                    return Err(SchemaError::UnknownTable(table_name.clone()));
                },
                Some(ti) => ti,
            };
            let ci = match schema.tables[ti].find_column(column) {
                None => {
                    return Err(
                        SchemaError::UnknownColumn(table_name.clone(), column.clone()),
                    );
                },
                Some(ci) => ci,
            };
            let ct = match parse_type(type_, column) {
                Err(e) => {
                    return Err(e);
                },
                Ok(ct) => ct,
            };
            let ghost tables0 = schema@;
            let mut t = schema.tables.remove(ti);
            let ghost t0 = t@;
            let mut c = t.columns.remove(ci);
            let ghost c0 = c@;
            c.type_ = ct;
            let state = apply_properties(properties, c.nullable, c.auto_increment, c.comment);
            c.nullable = state.0;
            c.auto_increment = state.1;
            c.comment = state.2;
            proof {
                assert(c@ =~= (ColumnV {
                    name: c0.name,
                    type_: ct@,
                    nullable: spec_apply_properties(
                        properties.deep_view(),
                        c0.nullable,
                        c0.auto_increment,
                        c0.comment,
                    ).0,
                    auto_increment: spec_apply_properties(
                        properties.deep_view(),
                        c0.nullable,
                        c0.auto_increment,
                        c0.comment,
                    ).1,
                    comment: spec_apply_properties(
                        properties.deep_view(),
                        c0.nullable,
                        c0.auto_increment,
                        c0.comment,
                    ).2,
                }));
            }
            t.columns.insert(ci, c);
            proof {
                assert(t@.columns =~= t0.columns.update(ci as int, c@));
                assert(t@ =~= (TableV { columns: t0.columns.update(ci as int, c@), ..t0 }));
            }
            schema.tables.insert(ti, t);
            proof {
                assert(schema@ =~= tables0.update(ti as int, t@));
            }
            Ok(())
        },
        AlterSpecification::AddForeignKey {
            constraint_name,
            columns,
            foreign_table,
            foreign_columns,
        } => {
            let fk_name = match constraint_name {
                None => {
                    return Err(SchemaError::UnnamedForeignKey(table_name.clone()));
                },
                Some(nm) => nm.clone(),
            };
            let ti = match schema.find_table(table_name) {
                None => {
                    return Err(SchemaError::UnknownTable(table_name.clone()));
                },
                Some(ti) => ti,
            };
            let fk = ForeignKey::new(
                fk_name,
                table_name.clone(),
                clone_strings(columns),
                foreign_table.clone(),
                clone_strings(foreign_columns),
            );
            let ghost tables0 = schema@;
            let mut t = schema.tables.remove(ti);
            let ghost t0 = t@;
            t.foreign_keys.push(fk);
            proof {
                assert(t@.foreign_keys =~= t0.foreign_keys.push(fk@));
                assert(t@ =~= (TableV { foreign_keys: t0.foreign_keys.push(fk@), ..t0 }));
            }
            schema.tables.insert(ti, t);
            proof {
                assert(schema@ =~= tables0.update(ti as int, t@));
            }
            Ok(())
        },
        AlterSpecification::Other => Err(SchemaError::UnsupportedAlteration(table_name.clone())),
    }
}

/// Applies one statement to the schema: a create statement builds and inserts
/// a table, an alter statement applies its alterations in order, any other
/// statement is ignored.
pub fn parse_statement(statement: &Statement, schema: &mut Schema) -> (r: Result<
    (),
    SchemaError,
>)
    ensures
        (match r {
            Ok(_) => spec_parse_statement(statement@, old(schema)@) == Ok::<
                Seq<TableV>,
                SchemaErrorV,
            >(final(schema)@),
            Err(e) => spec_parse_statement(statement@, old(schema)@) == Err::<
                Seq<TableV>,
                SchemaErrorV,
            >(e@),
        }),
{
    match statement {
        Statement::CreateTable { name, definitions } => {
            let mut columns: Vec<Column> = Vec::new();
            proof {
                assert(columns.deep_view() =~= Seq::<ColumnV>::empty());
            }
            let n = definitions.len();
            let mut i: usize = 0;
            while i < n
                invariant
                    n == definitions.len(),
                    i <= n,
                    statement@ == (StatementV::CreateTable {
                        name: name@,
                        definitions: definitions.deep_view(),
                    }),
                    schema@ == old(schema)@,
                    spec_parse_definitions_from(
                        definitions.deep_view(),
                        0,
                        Seq::empty(),
                    ) == spec_parse_definitions_from(
                        definitions.deep_view(),
                        i as int,
                        columns.deep_view(),
                    ),
                decreases n - i,
            {
                match parse_create_definition(&definitions[i]) {
                    Err(e) => {
                        return Err(e);
                    },
                    Ok(c) => {
                        let ghost prev = columns.deep_view();
                        columns.push(c);
                        proof {
                            assert(columns.deep_view() =~= prev.push(c@));
                        }
                    },
                }
                i += 1;
            }
            let table = Table::new(name.clone(), columns, Vec::new(), None, Vec::new());
            proof {
                assert(table@.keys =~= Seq::<KeyV>::empty());
                assert(table@.foreign_keys =~= Seq::<ForeignKeyV>::empty());
            }
            let ghost tables0 = schema@;
            match schema.find_table(name) {
                Some(ti) => {
                    let _ = schema.tables.remove(ti);
                    schema.tables.insert(ti, table);
                    proof {
                        assert(schema@ =~= tables0.update(ti as int, table@));
                    }
                },
                None => {
                    schema.tables.push(table);
                    proof {
                        assert(schema@ =~= tables0.push(table@));
                    }
                },
            }
            Ok(())
        },
        Statement::AlterTable { name, specifications } => {
            let ghost tables0 = schema@;
            let n = specifications.len();
            let mut i: usize = 0;
            while i < n
                invariant
                    n == specifications.len(),
                    i <= n,
                    statement@ == (StatementV::AlterTable {
                        name: name@,
                        specifications: specifications.deep_view(),
                    }),
                    tables0 == old(schema)@,
                    spec_parse_alters_from(
                        specifications.deep_view(),
                        name@,
                        0,
                        tables0,
                    ) == spec_parse_alters_from(
                        specifications.deep_view(),
                        name@,
                        i as int,
                        schema@,
                    ),
                decreases n - i,
            {
                match parse_alter_specification(&specifications[i], name, schema) {
                    Err(e) => {
                        return Err(e);
                    },
                    Ok(_) => {},
                }
                i += 1;
            }
            Ok(())
        },
        Statement::Other => Ok(()),
    }
}

/// Folds an ordered statement stream into a schema, strictly in input order;
/// the first failing statement is the error.
pub fn parse_statements(statements: &Vec<Statement>) -> (r: Result<Schema, SchemaError>)
    ensures
        (match r {
            Ok(s) => spec_parse_statements(statements.deep_view()) == Ok::<
                Seq<TableV>,
                SchemaErrorV,
            >(s@),
            Err(e) => spec_parse_statements(statements.deep_view()) == Err::<
                Seq<TableV>,
                SchemaErrorV,
            >(e@),
        }),
{
    let mut schema = Schema::new();
    let n = statements.len();
    let mut i: usize = 0;
    while i < n
        invariant
            n == statements.len(),
            i <= n,
            spec_parse_statements(statements.deep_view()) == spec_parse_statements_from(
                statements.deep_view(),
                i as int,
                schema@,
            ),
        decreases n - i,
    {
        match parse_statement(&statements[i], &mut schema) {
            Err(e) => {
                return Err(e);
            },
            Ok(_) => {},
        }
        i += 1;
    }
    Ok(schema)
}

} // verus!
