use vstd::prelude::*;

use crate::database::column::{ColumnTypeV, ColumnV};
use crate::database::keys::{spec_key_columns, KeyV};
use crate::database::table::{
    spec_find_col_from, spec_resolve_columns, spec_resolve_columns_from, TableV,
};
use crate::error::SchemaErrorV;
use crate::parsers::{
    spec_apply_properties_from, spec_parse_add_index, spec_parse_create_definition,
    spec_parse_definitions_from, spec_parse_statements, spec_parse_type, spec_index_unique,
    ColumnDefinitionV, DataTypePropertyV, IndexKind, StatementV,
};
use crate::writer::column::{
    spec_typed_variable, spec_where_clause, spec_where_clause_from, spec_where_fragment,
};
use crate::writer::getters::spec_return_type;
use crate::writer::table::{spec_constructor, spec_constructor_lines_from};
use crate::{spec_generate, StatementV as RootStatementV};

verus! {

/// A column found by name carries that name.
proof fn lemma_find_col_names(cols: Seq<ColumnV>, name: Seq<char>, i: int)
    requires
        0 <= i,
    ensures
        (match spec_find_col_from(cols, name, i) {
            Some(j) => i <= j < cols.len() && cols[j].name == name,
            None => true,
        }),
    decreases cols.len() - i,
{
    if i < cols.len() && cols[i].name != name {
        lemma_find_col_names(cols, name, i + 1);
    }
}

/// Resolution preserves the names: when `names[i..]` resolve against a
/// table, the columns appended to `acc` carry exactly those names, in order.
proof fn lemma_resolve_names_from(t: TableV, names: Seq<Seq<char>>, i: int, acc: Seq<ColumnV>)
    requires
        0 <= i <= names.len(),
    ensures
        (match spec_resolve_columns_from(t, names, i, acc) {
            Ok(cols) => cols.len() == acc.len() + names.len() - i && (forall|j: int|
                0 <= j < acc.len() ==> cols[j] == acc[j]) && (forall|j: int|
                acc.len() <= j < cols.len() ==> cols[j].name == names[i + j - acc.len()]),
            Err(_) => true,
        }),
    decreases names.len() - i,
{
    if i < names.len() {
        match crate::database::table::spec_find_col(t.columns, names[i]) {
            None => {},
            Some(j) => {
                lemma_find_col_names(t.columns, names[i], 0);
                lemma_resolve_names_from(t, names, i + 1, acc.push(t.columns[j]));
            },
        }
    }
}

/// For every table with a primary key whose column names resolve, the delete
/// method's parameters are rendered from exactly the primary key's columns,
/// in the key's declared order: the resolved column list has the key's
/// length and carries the key's column names position by position.
pub proof fn lemma_delete_parameters(t: TableV)
    requires
        t.primary_key is Some,
        spec_key_columns(t.primary_key->Some_0, t) is Ok,
    ensures
        ({
            let pk = t.primary_key->Some_0;
            let cols = spec_key_columns(pk, t)->Ok_0;
            cols.len() == pk.column_names.len() && (forall|j: int|
                0 <= j < cols.len() ==> cols[j].name == pk.column_names[j])
        }),
{
    let pk = t.primary_key->Some_0;
    lemma_resolve_names_from(t, pk.column_names, 0, Seq::empty());
}

/// One constructor property line.
pub open spec fn constructor_line(c: ColumnV) -> Seq<char> {
    "\t\tpublic readonly "@ + spec_typed_variable(c) + ",\n"@
}

/// The constructor lines as a direct front-to-back concatenation: one line
/// per column, first column first.
pub open spec fn constructor_lines_direct(cols: Seq<ColumnV>) -> Seq<char>
    decreases cols.len(),
{
    if cols.len() == 0 {
        Seq::empty()
    } else {
        constructor_line(cols.first()) + constructor_lines_direct(cols.drop_first())
    }
}

proof fn lemma_constructor_lines_from_direct(cols: Seq<ColumnV>, i: int, acc: Seq<char>)
    requires
        0 <= i <= cols.len(),
    ensures
        spec_constructor_lines_from(cols, i, acc) == acc + constructor_lines_direct(cols.skip(i)),
    decreases cols.len() - i,
{
    if i >= cols.len() {
        assert(cols.skip(i) =~= Seq::<ColumnV>::empty());
        assert(acc + constructor_lines_direct(cols.skip(i)) =~= acc);
    } else {
        assert(acc + "\t\tpublic readonly "@ + spec_typed_variable(cols[i]) + ",\n"@ =~= acc
            + constructor_line(cols[i]));
        lemma_constructor_lines_from_direct(cols, i + 1, acc + constructor_line(cols[i]));
        assert(cols.skip(i).first() == cols[i]);
        assert(cols.skip(i).drop_first() =~= cols.skip(i + 1));
        assert(acc + constructor_line(cols[i]) + constructor_lines_direct(cols.skip(i + 1)) =~= acc
            + constructor_lines_direct(cols.skip(i)));
    }
}

/// The constructor's parameter list is the columns in declaration order,
/// with no omissions or reordering: its body is the front-to-back
/// concatenation of one promoted property per column.
pub proof fn lemma_constructor_parameters(cols: Seq<ColumnV>)
    ensures
        spec_constructor(cols) == "\tprivate function __construct(\n"@ + constructor_lines_direct(
            cols,
        ) + "\t) {\n\t}\n"@,
{
    lemma_constructor_lines_from_direct(cols, 0, Seq::empty());
    assert(cols.skip(0) =~= cols);
    assert(Seq::<char>::empty() + constructor_lines_direct(cols) =~= constructor_lines_direct(
        cols,
    ));
}

/// Every non-unique key's getter returns a collection type, regardless of
/// how many rows match.
pub proof fn lemma_nonunique_getter_collection(t: TableV, key: KeyV)
    requires
        !key.unique,
    ensures
        spec_return_type(t, key) == "): array"@,
{
}

/// Every unique key's getter returns a single-or-absent result: null or one
/// object of the table's class.
pub proof fn lemma_unique_getter_single(t: TableV, key: KeyV)
    requires
        key.unique,
    ensures
        spec_return_type(t, key) == "): null|"@ + crate::casing::pascal_of(t.name),
{
}

/// A key added with a primary index kind is unique, so the primary-key
/// getter falls under the single-or-absent shape.
pub proof fn lemma_primary_key_unique(
    kind: IndexKind,
    cols: Seq<Seq<char>>,
    name: Option<Seq<char>>,
    table_name: Seq<char>,
    tables: Seq<TableV>,
)
    requires
        kind is Primary,
        spec_parse_add_index(kind, cols, name, table_name, tables) is Ok,
    ensures
        ({
            let i = crate::parsers::spec_find_table(tables, table_name)->Some_0;
            let t2 = spec_parse_add_index(kind, cols, name, table_name, tables)->Ok_0[i];
            &&& t2.primary_key is Some
            &&& t2.primary_key->Some_0.unique
            &&& t2.primary_key->Some_0.column_names == cols
        }),
{
    lemma_find_table_range(tables, table_name, 0);
    let i = crate::parsers::spec_find_table(tables, table_name)->Some_0;
    assert(0 <= i < tables.len());
    assert(spec_parse_add_index(kind, cols, name, table_name, tables)->Ok_0[i]
        == (TableV {
        primary_key: Some(
            KeyV {
                name: match name {
                    Some(n) => n,
                    None => Seq::empty(),
                },
                unique: spec_index_unique(kind),
                table_name: table_name,
                column_names: cols,
            },
        ),
        ..tables[i]
    }));
}

/// A table found by name lies inside the schema.
proof fn lemma_find_table_range(tables: Seq<TableV>, name: Seq<char>, i: int)
    requires
        0 <= i,
    ensures
        (match crate::parsers::spec_find_table_from(tables, name, i) {
            Some(j) => i <= j < tables.len() && tables[j].name == name,
            None => true,
        }),
    decreases tables.len() - i,
{
    if i < tables.len() && tables[i].name != name {
        lemma_find_table_range(tables, name, i + 1);
    }
}

/// In every WHERE-generating context the comparison operator for a nullable
/// column is the null-safe form, and for a non-nullable column the ordinary
/// equality form.
pub proof fn lemma_where_operator(c: ColumnV)
    ensures
        c.nullable ==> spec_where_fragment(c) == "`"@ + c.name + "` <=> :"@ + c.name,
        !c.nullable ==> spec_where_fragment(c) == "`"@ + c.name + "` = :"@ + c.name,
{
}

/// The WHERE fragments as a direct front-to-back AND-join.
pub open spec fn where_clause_direct(cols: Seq<ColumnV>) -> Seq<char>
    decreases cols.len(),
{
    if cols.len() == 0 {
        Seq::empty()
    } else if cols.len() == 1 {
        spec_where_fragment(cols[0])
    } else {
        spec_where_fragment(cols.first()) + where_clause_tail(cols.drop_first())
    }
}

/// The later WHERE fragments, each preceded by `AND`.
pub open spec fn where_clause_tail(cols: Seq<ColumnV>) -> Seq<char>
    decreases cols.len(),
{
    if cols.len() == 0 {
        Seq::empty()
    } else {
        " AND "@ + spec_where_fragment(cols.first()) + where_clause_tail(cols.drop_first())
    }
}

proof fn lemma_where_clause_from_tail(cols: Seq<ColumnV>, i: int, acc: Seq<char>)
    requires
        1 <= i <= cols.len(),
    ensures
        spec_where_clause_from(cols, i, acc) == acc + where_clause_tail(cols.skip(i)),
    decreases cols.len() - i,
{
    if i >= cols.len() {
        assert(cols.skip(i) =~= Seq::<ColumnV>::empty());
        assert(acc + where_clause_tail(cols.skip(i)) =~= acc);
    } else {
        lemma_where_clause_from_tail(cols, i + 1, acc + (" AND "@ + spec_where_fragment(cols[i])));
        assert(cols.skip(i).first() == cols[i]);
        assert(cols.skip(i).drop_first() =~= cols.skip(i + 1));
        assert(acc + (" AND "@ + spec_where_fragment(cols[i])) + where_clause_tail(
            cols.skip(i + 1),
        ) =~= acc + where_clause_tail(cols.skip(i)));
    }
}

/// A WHERE clause is exactly one comparison per key column, in the key's
/// order, joined with `AND`: together with the per-column operator rule this
/// pins the operator used at every position.
pub proof fn lemma_where_clause_per_column(cols: Seq<ColumnV>)
    ensures
        spec_where_clause(cols) == where_clause_direct(cols),
{
    if cols.len() == 0 {
    } else {
        lemma_where_clause_from_tail(cols, 1, Seq::empty() + spec_where_fragment(cols[0]));
        assert(cols.skip(1) =~= cols.drop_first());
        assert(Seq::<char>::empty() + spec_where_fragment(cols[0]) =~= spec_where_fragment(
            cols[0],
        ));
        if cols.len() == 1 {
            assert(cols.drop_first() =~= Seq::<ColumnV>::empty());
            assert(spec_where_fragment(cols[0]) + where_clause_tail(cols.drop_first())
                =~= spec_where_fragment(cols[0]));
        }
    }
}

/// Whether a property list contains a not-null property.
pub open spec fn has_not_null(props: Seq<DataTypePropertyV>) -> bool {
    exists|k: int| 0 <= k < props.len() && props[k] is NotNull
}

/// Whether a property list contains an auto-increment property.
pub open spec fn has_auto_increment(props: Seq<DataTypePropertyV>) -> bool {
    exists|k: int| 0 <= k < props.len() && props[k] is AutoIncrement
}

proof fn lemma_apply_properties_flags(
    props: Seq<DataTypePropertyV>,
    i: int,
    nullable: bool,
    auto_increment: bool,
    comment: Seq<char>,
)
    requires
        0 <= i <= props.len(),
    ensures
        spec_apply_properties_from(props, i, nullable, auto_increment, comment).0 == (nullable
            && !(exists|k: int| i <= k < props.len() && props[k] is NotNull)),
        spec_apply_properties_from(props, i, nullable, auto_increment, comment).1 == (
        auto_increment || (exists|k: int| i <= k < props.len() && props[k] is AutoIncrement)),
    decreases props.len() - i,
{
    if i < props.len() {
        match props[i] {
            DataTypePropertyV::NotNull => {
                lemma_apply_properties_flags(props, i + 1, false, auto_increment, comment);
                assert(props[i] is NotNull);
            },
            DataTypePropertyV::AutoIncrement => {
                lemma_apply_properties_flags(props, i + 1, nullable, true, comment);
                assert(props[i] is AutoIncrement);
            },
            DataTypePropertyV::Comment(c) => {
                lemma_apply_properties_flags(props, i + 1, nullable, auto_increment, c);
            },
            DataTypePropertyV::Other => {
                lemma_apply_properties_flags(props, i + 1, nullable, auto_increment, comment);
            },
        }
    }
}

proof fn lemma_definitions_fold(defs: Seq<ColumnDefinitionV>, i: int, acc: Seq<ColumnV>)
    requires
        0 <= i <= defs.len(),
    ensures
        (match spec_parse_definitions_from(defs, i, acc) {
            Ok(cols) => cols.len() == acc.len() + defs.len() - i && (forall|j: int|
                0 <= j < acc.len() ==> cols[j] == acc[j]) && (forall|j: int|
                acc.len() <= j < cols.len() ==> spec_parse_create_definition(
                    defs[i + j - acc.len()],
                ) == Ok::<ColumnV, SchemaErrorV>(cols[j])),
            Err(_) => true,
        }),
    decreases defs.len() - i,
{
    if i < defs.len() {
        match spec_parse_create_definition(defs[i]) {
            Err(_) => {},
            Ok(c) => {
                lemma_definitions_fold(defs, i + 1, acc.push(c));
            },
        }
    }
}

/// Round-trip: a create-table statement followed by zero alterations yields
/// a table whose column order, nullability and auto-increment flags exactly
/// reflect the definitions' declared order and properties, with no keys, no
/// primary key and no foreign keys yet.
pub proof fn lemma_create_round_trip(name: Seq<char>, defs: Seq<ColumnDefinitionV>)
    requires
        spec_parse_statements(
            seq![StatementV::CreateTable { name: name, definitions: defs }],
        ) is Ok,
    ensures
        ({
            let tables = spec_parse_statements(
                seq![StatementV::CreateTable { name: name, definitions: defs }],
            )->Ok_0;
            &&& tables.len() == 1
            &&& tables[0].name == name
            &&& tables[0].primary_key is None
            &&& tables[0].keys.len() == 0
            &&& tables[0].foreign_keys.len() == 0
            &&& tables[0].columns.len() == defs.len()
            &&& forall|j: int|
                0 <= j < defs.len() ==> {
                    let c = #[trigger] tables[0].columns[j];
                    &&& c.name == defs[j].name
                    &&& spec_parse_type(defs[j].type_, defs[j].name) == Ok::<
                        ColumnTypeV,
                        SchemaErrorV,
                    >(c.type_)
                    &&& c.nullable == !has_not_null(defs[j].properties)
                    &&& c.auto_increment == has_auto_increment(defs[j].properties)
                }
        }),
{
    let stmts = seq![StatementV::CreateTable { name: name, definitions: defs }];
    assert(stmts[0] == StatementV::CreateTable { name: name, definitions: defs });
    lemma_definitions_fold(defs, 0, Seq::empty());
    let folded = spec_parse_definitions_from(defs, 0, Seq::empty());
    assert(folded is Ok);
    let cols = folded->Ok_0;
    let table = TableV {
        name: name,
        columns: cols,
        keys: Seq::empty(),
        primary_key: None,
        foreign_keys: Seq::empty(),
    };
    assert(crate::parsers::spec_find_table(Seq::<TableV>::empty(), name) is None);
    assert(crate::parsers::spec_insert_table(Seq::<TableV>::empty(), table) == Seq::<
        TableV,
    >::empty().push(table));
    assert(crate::parsers::spec_parse_statement(stmts[0], Seq::empty()) == Ok::<
        Seq<TableV>,
        SchemaErrorV,
    >(Seq::<TableV>::empty().push(table)));
    assert(crate::parsers::spec_parse_statements_from(
        stmts,
        1,
        Seq::<TableV>::empty().push(table),
    ) == Ok::<Seq<TableV>, SchemaErrorV>(Seq::<TableV>::empty().push(table)));
    let tables = spec_parse_statements(stmts)->Ok_0;
    assert(tables == Seq::<TableV>::empty().push(table));
    assert(tables[0] == table);
    assert forall|j: int| 0 <= j < defs.len() implies {
        let c = #[trigger] cols[j];
        &&& c.name == defs[j].name
        &&& spec_parse_type(defs[j].type_, defs[j].name) == Ok::<ColumnTypeV, SchemaErrorV>(c.type_)
        &&& c.nullable == !has_not_null(defs[j].properties)
        &&& c.auto_increment == has_auto_increment(defs[j].properties)
    } by {
        assert(spec_parse_create_definition(defs[j]) == Ok::<ColumnV, SchemaErrorV>(cols[j]));
        lemma_apply_properties_flags(defs[j].properties, 0, true, false, Seq::empty());
    }
}

/// Idempotence: the pipeline is a function of the statement stream alone, so
/// running it twice on identical input yields identical output, byte for
/// byte, for every table.
pub proof fn lemma_pipeline_idempotent(s1: Seq<RootStatementV>, s2: Seq<RootStatementV>)
    requires
        s1 == s2,
    ensures
        spec_generate(s1) == spec_generate(s2),
{
}

} // verus!
