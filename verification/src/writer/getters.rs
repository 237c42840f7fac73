use vstd::prelude::*;

use crate::casing::{camel_of, pascal_of, to_camel, to_pascal};
use crate::database::column::{Column, ColumnType, ColumnTypeV, ColumnV};
use crate::database::keys::{Key, KeyV};
use crate::database::table::{spec_resolve_columns, Table, TableV};
use crate::error::{view_result, SchemaError, SchemaErrorV};
use crate::writer::column::{
    spec_backtick_list, spec_query_params_list, spec_typed_parameters, spec_variable,
    spec_where_clause, write_backtick_list, write_query_params_list, write_typed_parameters,
    write_variable, write_where_clause,
};
use crate::writer::get_all;

verus! {

/// Whether a name occurs in a list of names.
pub fn contains_name(names: &Vec<String>, name: &String) -> (r: bool)
    ensures
        r == names.deep_view().contains(name@),
{
    let n = names.len();
    let mut i: usize = 0;
    while i < n
        invariant
            n == names.len(),
            i <= n,
            forall|j: int| 0 <= j < i ==> names.deep_view()[j] != name@,
        decreases n - i,
    {
        if names[i].eq(name) {
            proof {
                assert(names.deep_view()[i as int] == name@);
            }
            return true;
        }
        i += 1;
    }
    proof {
        assert(!names.deep_view().contains(name@));
    }
    false
}

/// The names of `names[i..]` that are not in `params`, appended to `acc`.
pub open spec fn spec_selected_from(
    names: Seq<Seq<char>>,
    params: Seq<Seq<char>>,
    i: int,
    acc: Seq<Seq<char>>,
) -> Seq<Seq<char>>
    decreases names.len() - i,
    when 0 <= i
{
    if i >= names.len() {
        acc
    } else {
        spec_selected_from(
            names,
            params,
            i + 1,
            if params.contains(names[i]) {
                acc
            } else {
                acc.push(names[i])
            },
        )
    }
}

/// The selection list of a getter: every column name not already supplied as
/// a lookup parameter, quoted, in declaration order.
pub open spec fn spec_query_select(names: Seq<Seq<char>>, params: Seq<Seq<char>>) -> Seq<char> {
    spec_backtick_list(spec_selected_from(names, params, 0, Seq::empty()))
}

/// Writes the selection list: every column name not among the parameters.
pub fn write_query_select(column_names: &Vec<String>, parameter_column_names: &Vec<String>) -> (r:
    String)
    ensures
        r@ == spec_query_select(column_names.deep_view(), parameter_column_names.deep_view()),
{
    let mut selected: Vec<String> = Vec::new();
    proof {
        assert(selected.deep_view() =~= Seq::<Seq<char>>::empty());
    }
    let n = column_names.len();
    let mut i: usize = 0;
    while i < n
        invariant
            n == column_names.len(),
            i <= n,
            spec_selected_from(
                column_names.deep_view(),
                parameter_column_names.deep_view(),
                0,
                Seq::empty(),
            ) == spec_selected_from(
                column_names.deep_view(),
                parameter_column_names.deep_view(),
                i as int,
                selected.deep_view(),
            ),
        decreases n - i,
    {
        if !contains_name(parameter_column_names, &column_names[i]) {
            let ghost prev = selected.deep_view();
            selected.push(column_names[i].clone());
            proof {
                assert(selected.deep_view() =~= prev.push(column_names.deep_view()[i as int]));
            }
        }
        i += 1;
    }
    write_backtick_list(&selected)
}

/// The statement binding the key's placeholders to variables.
pub fn write_query_params(column_names: &Vec<String>) -> (r: String)
    ensures
        r@ == spec_query_params_list(column_names.deep_view()),
{
    write_query_params_list(column_names)
}

/// The WHERE clause of a getter, one comparison per key column: null-safe
/// equality for nullable columns, ordinary equality for the rest.
pub fn write_query_where(columns: &Vec<Column>) -> (r: String)
    ensures
        r@ == spec_where_clause(columns.deep_view()),
{
    write_where_clause(columns)
}

/// The typed parameter list over the key's resolved columns.
pub fn write_parameters(columns: &Vec<Column>) -> (r: String)
    ensures
        r@ == spec_typed_parameters(columns.deep_view()),
{
    write_typed_parameters(columns)
}

/// The argument mapping one column to a constructor argument: a lookup
/// parameter is passed through as its variable, any other column comes from
/// the fetched row, an enumerated one through its enum type's `from`.
pub open spec fn spec_object_argument(c: ColumnV, params: Seq<Seq<char>>) -> Seq<char> {
    if params.contains(c.name) {
        spec_variable(c)
    } else {
        match c.type_ {
            ColumnTypeV::Enum(_) => pascal_of(c.name) + "Enum::from($row[\""@ + c.name + "\"])"@,
            _ => "$row[\""@ + c.name + "\"]"@,
        }
    }
}

/// The comma-separated constructor arguments for the columns `cols[i..]`,
/// appended to `acc`.
pub open spec fn spec_object_arguments_from(
    cols: Seq<ColumnV>,
    params: Seq<Seq<char>>,
    i: int,
    acc: Seq<char>,
) -> Seq<char>
    decreases cols.len() - i,
    when 0 <= i
{
    if i >= cols.len() {
        acc
    } else {
        spec_object_arguments_from(
            cols,
            params,
            i + 1,
            acc + (if i == 0 {
                spec_object_argument(cols[i], params)
            } else {
                ", "@ + spec_object_argument(cols[i], params)
            }),
        )
    }
}

/// The comma-separated constructor arguments for all columns in declaration
/// order.
pub open spec fn spec_object_arguments(cols: Seq<ColumnV>, params: Seq<Seq<char>>) -> Seq<char> {
    spec_object_arguments_from(cols, params, 0, Seq::empty())
}

/// Writes the constructor argument for one column.
pub fn write_object_argument(column: &Column, parameter_column_names: &Vec<String>) -> (r: String)
    ensures
        r@ == spec_object_argument(column@, parameter_column_names.deep_view()),
{
    let mut buffer = String::new();
    if contains_name(parameter_column_names, &column.name) {
        let variable = write_variable(column);
        buffer.append(variable.as_str());
    } else {
        match &column.type_ {
            ColumnType::Enum(_) => {
                let pascal = to_pascal(column.name.as_str());
                buffer.append(pascal.as_str());
                buffer.append("Enum::from($row[\"");
                buffer.append(column.name.as_str());
                buffer.append("\"])");
            },
            _ => {
                buffer.append("$row[\"");
                buffer.append(column.name.as_str());
                buffer.append("\"]");
            },
        }
    }
    buffer
}

/// Writes the comma-separated constructor arguments for all columns.
pub fn write_object_arguments(columns: &Vec<Column>, parameter_column_names: &Vec<String>) -> (r:
    String)
    ensures
        r@ == spec_object_arguments(columns.deep_view(), parameter_column_names.deep_view()),
{
    let mut buffer = String::new();
    let n = columns.len();
    let mut i: usize = 0;
    while i < n
        invariant
            n == columns.len(),
            i <= n,
            spec_object_arguments(columns.deep_view(), parameter_column_names.deep_view())
                == spec_object_arguments_from(
                columns.deep_view(),
                parameter_column_names.deep_view(),
                i as int,
                buffer@,
            ),
        decreases n - i,
    {
        let ghost b0 = buffer@;
        if i > 0 {
            buffer.append(", ");
        }
        let frag = write_object_argument(&columns[i], parameter_column_names);
        buffer.append(frag.as_str());
        proof {
            if i > 0 {
                assert(buffer@ =~= b0 + (", "@ + spec_object_argument(
                    columns.deep_view()[i as int],
                    parameter_column_names.deep_view(),
                )));
            } else {
                assert(buffer@ =~= b0 + spec_object_argument(
                    columns.deep_view()[i as int],
                    parameter_column_names.deep_view(),
                ));
            }
        }
        i += 1;
    }
    buffer
}

/// The doc comment of one key's getter, over the key's resolved columns.
pub open spec fn spec_comment(t: TableV, key: KeyV) -> Result<Seq<char>, SchemaErrorV> {
    match spec_resolve_columns(t, key.column_names) {
        Err(e) => Err(e),
        Ok(cols) => Ok(
            "\n\t/** "@ + (if key.name.len() == 0 {
                "Gets a `"@ + pascal_of(t.name) + "` by the primary key.\n"@
            } else if key.unique {
                "Gets a `"@ + pascal_of(t.name) + "` by the `"@ + key.name + "` key.\n"@
            } else {
                "Gets several `"@ + pascal_of(t.name) + "` by the `"@ + key.name + "` key.\n"@
            }) + crate::writer::column::spec_param_lines(cols) + (if key.unique {
                "\t * @return null|"@ + pascal_of(t.name)
                    + " The corresponding object, `null` when the row doesn't exist.\n"@
            } else {
                "\t * @return array zero or more corresponding objects.\n"@
            }) + "\t */\n"@,
        ),
    }
}

/// Writes the doc comment of one key's getter.
pub fn write_comment(table: &Table, key: &Key) -> (r: Result<String, SchemaError>)
    ensures
        view_result(r) == spec_comment(table@, key@),
{
    let columns = match table.resolve_columns(&key.column_names) {
        Err(e) => {
            return Err(e);
        },
        Ok(columns) => columns,
    };
    let mut buffer = String::new();
    buffer.append("\n\t/** ");
    let pascal = to_pascal(table.name.as_str());
    if key.name.as_str().is_empty() {
        buffer.append("Gets a `");
        buffer.append(pascal.as_str());
        buffer.append("` by the primary key.\n");
    } else if key.unique {
        buffer.append("Gets a `");
        buffer.append(pascal.as_str());
        buffer.append("` by the `");
        buffer.append(key.name.as_str());
        buffer.append("` key.\n");
    } else {
        buffer.append("Gets several `");
        buffer.append(pascal.as_str());
        buffer.append("` by the `");
        buffer.append(key.name.as_str());
        buffer.append("` key.\n");
    }
    let lines = crate::writer::column::write_param_lines(&columns);
    buffer.append(lines.as_str());
    if key.unique {
        buffer.append("\t * @return null|");
        buffer.append(pascal.as_str());
        buffer.append(" The corresponding object, `null` when the row doesn't exist.\n");
    } else {
        buffer.append("\t * @return array zero or more corresponding objects.\n");
    }
    buffer.append("\t */\n");
    proof {
        assert(buffer@ =~= spec_comment(table@, key@)->Ok_0);
    }
    Ok(buffer)
}

/// The prepared parameterized select statement of one key's getter, over the
/// key's resolved columns: selection excludes the parameters, the WHERE
/// clause compares each key column null-safely exactly when it is nullable,
/// and a unique key limits the result to one row.
pub open spec fn spec_query_prepare(t: TableV, key: KeyV, cols: Seq<ColumnV>) -> Seq<char> {
    "\t\t$sth = getPDO()->prepare(\"SELECT "@ + spec_query_select(t.column_names(), key.column_names)
        + " FROM `"@ + t.name + "` WHERE "@ + spec_where_clause(cols) + (if key.unique {
        " LIMIT 1;\");\n"@
    } else {
        ";\");\n"@
    })
}

/// Writes the prepared parameterized select statement of one key's getter.
pub fn write_query_prepare(table: &Table, key: &Key) -> (r: Result<String, SchemaError>)
    ensures
        (match r {
            Ok(s) => spec_resolve_columns(table@, key@.column_names) is Ok && s@
                == spec_query_prepare(
                table@,
                key@,
                spec_resolve_columns(table@, key@.column_names)->Ok_0,
            ),
            Err(e) => spec_resolve_columns(table@, key@.column_names) == Err::<
                Seq<ColumnV>,
                SchemaErrorV,
            >(e@),
        }),
{
    let columns = match table.resolve_columns(&key.column_names) {
        Err(e) => {
            return Err(e);
        },
        Ok(columns) => columns,
    };
    let mut buffer = String::new();
    let column_names = table.iter_column_names();
    buffer.append("\t\t$sth = getPDO()->prepare(\"SELECT ");
    let select = write_query_select(&column_names, &key.column_names);
    buffer.append(select.as_str());
    buffer.append(" FROM `");
    buffer.append(table.name.as_str());
    buffer.append("` WHERE ");
    let where_clause = write_query_where(&columns);
    buffer.append(where_clause.as_str());
    if key.unique {
        buffer.append(" LIMIT 1;\");\n");
    } else {
        buffer.append(";\");\n");
    }
    Ok(buffer)
}

/// The row-mapping tail of a getter's body: a unique key fetches at most one
/// row and returns it or null, a non-unique key collects every matching row
/// into an array.
pub open spec fn spec_fetch(t: TableV, key: KeyV) -> Seq<char> {
    if key.unique {
        "\t\tif ($row = $sth->fetch())\n"@ + "\t\t\treturn new "@ + pascal_of(t.name) + "("@
            + spec_object_arguments(t.columns, key.column_names) + ");\n\n"@ + "\t\treturn null;\n"@
    } else {
        "\t\t$"@ + camel_of(t.name) + " = array();\n\n"@ + "\t\twhile ($row = $sth->fetch())\n"@
            + "\t\t\t$"@ + camel_of(t.name) + "[] = new "@ + pascal_of(t.name) + "("@
            + spec_object_arguments(t.columns, key.column_names) + ");\n\n"@ + "\t\treturn $"@
            + camel_of(t.name) + ";\n"@
    }
}

/// Writes the row-mapping tail of a getter's body.
fn write_fetch(table: &Table, key: &Key) -> (r: String)
    ensures
        r@ == spec_fetch(table@, key@),
{
    let mut buffer = String::new();
    let pascal = to_pascal(table.name.as_str());
    let arguments = write_object_arguments(table.iter_columns(), &key.column_names);
    if key.unique {
        buffer.append("\t\tif ($row = $sth->fetch())\n");
        buffer.append("\t\t\treturn new ");
        buffer.append(pascal.as_str());
        buffer.append("(");
        buffer.append(arguments.as_str());
        buffer.append(");\n\n");
        buffer.append("\t\treturn null;\n");
    } else {
        let camel = to_camel(table.name.as_str());
        buffer.append("\t\t$");
        buffer.append(camel.as_str());
        buffer.append(" = array();\n\n");
        buffer.append("\t\twhile ($row = $sth->fetch())\n");
        buffer.append("\t\t\t$");
        buffer.append(camel.as_str());
        buffer.append("[] = new ");
        buffer.append(pascal.as_str());
        buffer.append("(");
        buffer.append(arguments.as_str());
        buffer.append(");\n\n");
        buffer.append("\t\treturn $");
        buffer.append(camel.as_str());
        buffer.append(";\n");
    }
    proof {
        assert(buffer@ =~= spec_fetch(table@, key@));
    }
    buffer
}

/// The body of one key's getter, over the key's resolved columns.
pub open spec fn spec_body(t: TableV, key: KeyV, cols: Seq<ColumnV>) -> Seq<char> {
    spec_query_params_list(key.column_names) + spec_query_prepare(t, key, cols)
        + "\t\t$sth->execute($params);\n\n"@ + spec_fetch(t, key)
}

/// Writes the body of one key's getter.
pub fn write_body(table: &Table, key: &Key) -> (r: Result<String, SchemaError>)
    ensures
        (match r {
            Ok(s) => spec_resolve_columns(table@, key@.column_names) is Ok && s@ == spec_body(
                table@,
                key@,
                spec_resolve_columns(table@, key@.column_names)->Ok_0,
            ),
            Err(e) => spec_resolve_columns(table@, key@.column_names) == Err::<
                Seq<ColumnV>,
                SchemaErrorV,
            >(e@),
        }),
{
    let mut buffer = write_query_params(&key.column_names);
    let prepare = match write_query_prepare(table, key) {
        Err(e) => {
            return Err(e);
        },
        Ok(prepare) => prepare,
    };
    buffer.append(prepare.as_str());
    buffer.append("\t\t$sth->execute($params);\n\n");
    let fetch = write_fetch(table, key);
    buffer.append(fetch.as_str());
    Ok(buffer)
}

/// The return-type segment of a getter's signature: a single-or-null
/// result for a unique key, a plain array for a non-unique one.
pub open spec fn spec_return_type(t: TableV, key: KeyV) -> Seq<char> {
    if key.unique {
        "): null|"@ + pascal_of(t.name)
    } else {
        "): array"@
    }
}

/// One key's getter, over the key's resolved columns: named after the key,
/// taking the key's columns as typed parameters, returning a single-or-null
/// result for a unique key and an array for a non-unique one.
pub open spec fn spec_getter(t: TableV, key: KeyV) -> Result<Seq<char>, SchemaErrorV> {
    match spec_resolve_columns(t, key.column_names) {
        Err(e) => Err(e),
        Ok(cols) => Ok(
            "\tpublic static function get"@ + (if key.name.len() > 0 {
                "By"@
            } else {
                Seq::empty()
            }) + pascal_of(key.name) + "("@ + spec_typed_parameters(cols) + spec_return_type(
                t,
                key,
            ) + "\n\t{\n"@ + spec_body(t, key, cols) + "\t}\n"@,
        ),
    }
}

/// Writes one key's getter.
pub fn write_getter(table: &Table, key: &Key) -> (r: Result<String, SchemaError>)
    ensures
        view_result(r) == spec_getter(table@, key@),
{
    let columns = match table.resolve_columns(&key.column_names) {
        Err(e) => {
            return Err(e);
        },
        Ok(columns) => columns,
    };
    let mut buffer = String::new();
    buffer.append("\tpublic static function get");
    if !key.name.as_str().is_empty() {
        buffer.append("By");
    }
    let key_pascal = to_pascal(key.name.as_str());
    buffer.append(key_pascal.as_str());
    buffer.append("(");
    let parameters = write_parameters(&columns);
    buffer.append(parameters.as_str());
    if key.unique {
        buffer.append("): null|");
        let pascal = to_pascal(table.name.as_str());
        buffer.append(pascal.as_str());
    } else {
        buffer.append("): array");
    }
    buffer.append("\n\t{\n");
    let body = match write_body(table, key) {
        Err(e) => {
            return Err(e);
        },
        Ok(body) => body,
    };
    buffer.append(body.as_str());
    buffer.append("\t}\n");
    proof {
        assert(buffer@ =~= spec_getter(table@, key@)->Ok_0);
    }
    Ok(buffer)
}

/// The getters of the secondary keys `keys[i..]`, each its comment followed
/// by its getter, appended to `acc`.
pub open spec fn spec_key_getters_from(t: TableV, i: int, acc: Seq<char>) -> Result<
    Seq<char>,
    SchemaErrorV,
>
    decreases t.keys.len() - i,
    when 0 <= i
{
    if i >= t.keys.len() {
        Ok(acc)
    } else {
        match spec_comment(t, t.keys[i]) {
            Err(e) => Err(e),
            Ok(cm) => match spec_getter(t, t.keys[i]) {
                Err(e) => Err(e),
                Ok(g) => spec_key_getters_from(t, i + 1, acc + cm + g),
            },
        }
    }
}

/// All getters of a table: the primary key's (if present), the bulk getter,
/// and one per secondary key, each getter preceded by its doc comment.
pub open spec fn spec_getters(t: TableV) -> Result<Seq<char>, SchemaErrorV> {
    let head = match t.primary_key {
        None => Ok(Seq::<char>::empty()),
        Some(pk) => match spec_comment(t, pk) {
            Err(e) => Err(e),
            Ok(cm) => match spec_getter(t, pk) {
                Err(e) => Err(e),
                Ok(g) => Ok(cm + g),
            },
        },
    };
    match head {
        Err(e) => Err(e),
        Ok(h) => spec_key_getters_from(t, 0, h + get_all::spec_getter(t)),
    }
}

/// Writes all getters of a table.
pub fn write_getters(table: &Table) -> (r: Result<String, SchemaError>)
    ensures
        view_result(r) == spec_getters(table@),
{
    let mut buffer = String::new();
    match &table.primary_key {
        None => {},
        Some(primary_key) => {
            let comment = match write_comment(table, primary_key) {
                Err(e) => {
                    return Err(e);
                },
                Ok(comment) => comment,
            };
            buffer.append(comment.as_str());
            let getter = match write_getter(table, primary_key) {
                Err(e) => {
                    return Err(e);
                },
                Ok(getter) => getter,
            };
            buffer.append(getter.as_str());
        },
    }
    let all = get_all::write_getter(table);
    buffer.append(all.as_str());
    let n = table.keys.len();
    let mut i: usize = 0;
    while i < n
        invariant
            n == table.keys.len(),
            i <= n,
            spec_getters(table@) == spec_key_getters_from(table@, i as int, buffer@),
        decreases n - i,
    {
        let ghost b0 = buffer@;
        let comment = match write_comment(table, &table.keys[i]) {
            Err(e) => {
                return Err(e);
            },
            Ok(comment) => comment,
        };
        buffer.append(comment.as_str());
        let getter = match write_getter(table, &table.keys[i]) {
            Err(e) => {
                return Err(e);
            },
            Ok(getter) => getter,
        };
        buffer.append(getter.as_str());
        i += 1;
    }
    Ok(buffer)
}

} // verus!
