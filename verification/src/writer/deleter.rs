use vstd::prelude::*;

use crate::casing::{pascal_of, to_pascal};
use crate::database::column::{Column, ColumnV};
use crate::database::keys::{spec_key_columns, Key, KeyV};
use crate::database::table::{Table, TableV};
use crate::error::{view_result, SchemaError, SchemaErrorV};
use crate::writer::column::{
    names_of, spec_names_of, spec_param_lines, spec_query_params_list, spec_typed_parameters,
    spec_where_clause, write_param_lines, write_query_params_list, write_typed_parameters,
    write_where_clause,
};

verus! {

/// The doc comment of the delete method, over the primary key's resolved
/// columns: one parameter line per key column.
pub open spec fn spec_comment(t: TableV, key: KeyV) -> Result<Seq<char>, SchemaErrorV> {
    match spec_key_columns(key, t) {
        Err(e) => Err(e),
        Ok(cols) => Ok(
            "\n\t/** Deletes a `"@ + pascal_of(t.name) + "` by the primary key.\n"@
                + spec_param_lines(cols) + "\t */\n"@,
        ),
    }
}

/// Writes the doc comment of the delete method.
pub fn write_comment(table: &Table, key: &Key) -> (r: Result<String, SchemaError>)
    ensures
        view_result(r) == spec_comment(table@, key@),
{
    let columns = match key.iter_columns(table) {
        Err(e) => {
            return Err(e);
        },
        Ok(columns) => columns,
    };
    let mut buffer = String::new();
    buffer.append("\n\t/** Deletes a `");
    let pascal = to_pascal(table.name.as_str());
    buffer.append(pascal.as_str());
    buffer.append("` by the primary key.\n");
    let lines = write_param_lines(&columns);
    buffer.append(lines.as_str());
    buffer.append("\t */\n");
    Ok(buffer)
}

/// Writes the delete method's typed parameter list: exactly the primary
/// key's columns, in the key's declared order.
pub fn write_parameters(table: &Table, key: &Key) -> (r: Result<String, SchemaError>)
    ensures
        (match r {
            Ok(s) => spec_key_columns(key@, table@) is Ok && s@ == spec_typed_parameters(
                spec_key_columns(key@, table@)->Ok_0,
            ),
            Err(e) => spec_key_columns(key@, table@) == Err::<Seq<ColumnV>, SchemaErrorV>(e@),
        }),
{
    let columns = match key.iter_columns(table) {
        Err(e) => {
            return Err(e);
        },
        Ok(columns) => columns,
    };
    Ok(write_typed_parameters(&columns))
}

/// Writes the statement binding the key's placeholders to variables.
pub fn write_query_params(columns: &Vec<Column>) -> (r: String)
    ensures
        r@ == spec_query_params_list(spec_names_of(columns.deep_view())),
{
    let names = names_of(columns);
    write_query_params_list(&names)
}

/// Writes the WHERE clause over the key's columns: null-safe equality for
/// nullable columns, ordinary equality for the rest.
pub fn write_query_where(columns: &Vec<Column>) -> (r: String)
    ensures
        r@ == spec_where_clause(columns.deep_view()),
{
    write_where_clause(columns)
}

/// The prepared parameterized delete statement, over the key's resolved
/// columns.
pub open spec fn spec_query_prepare(t: TableV, cols: Seq<ColumnV>) -> Seq<char> {
    "\t\t$sth = getPDO()->prepare(\"DELETE FROM `"@ + t.name + "` WHERE "@ + spec_where_clause(
        cols,
    ) + ";\");\n"@
}

/// Writes the prepared parameterized delete statement.
pub fn write_query_prepare(table: &Table, key: &Key) -> (r: Result<String, SchemaError>)
    ensures
        (match r {
            Ok(s) => spec_key_columns(key@, table@) is Ok && s@ == spec_query_prepare(
                table@,
                spec_key_columns(key@, table@)->Ok_0,
            ),
            Err(e) => spec_key_columns(key@, table@) == Err::<Seq<ColumnV>, SchemaErrorV>(e@),
        }),
{
    let columns = match key.iter_columns(table) {
        Err(e) => {
            return Err(e);
        },
        Ok(columns) => columns,
    };
    let mut buffer = String::new();
    buffer.append("\t\t$sth = getPDO()->prepare(\"DELETE FROM `");
    buffer.append(table.name.as_str());
    buffer.append("` WHERE ");
    let where_clause = write_query_where(&columns);
    buffer.append(where_clause.as_str());
    buffer.append(";\");\n");
    Ok(buffer)
}

/// The delete method's body, over the key's resolved columns.
pub open spec fn spec_body(t: TableV, cols: Seq<ColumnV>) -> Seq<char> {
    spec_query_params_list(spec_names_of(cols)) + spec_query_prepare(t, cols)
        + "\t\t$sth->execute($params);\n"@
}

/// Writes the delete method's body.
pub fn write_body(table: &Table, key: &Key) -> (r: Result<String, SchemaError>)
    ensures
        (match r {
            Ok(s) => spec_key_columns(key@, table@) is Ok && s@ == spec_body(
                table@,
                spec_key_columns(key@, table@)->Ok_0,
            ),
            Err(e) => spec_key_columns(key@, table@) == Err::<Seq<ColumnV>, SchemaErrorV>(e@),
        }),
{
    let columns = match key.iter_columns(table) {
        Err(e) => {
            return Err(e);
        },
        Ok(columns) => columns,
    };
    let mut buffer = write_query_params(&columns);
    let prepare = match write_query_prepare(table, key) {
        Err(e) => {
            return Err(e);
        },
        Ok(prepare) => prepare,
    };
    buffer.append(prepare.as_str());
    buffer.append("\t\t$sth->execute($params);\n");
    Ok(buffer)
}

/// The full delete method, over the primary key's resolved columns.
pub open spec fn spec_deleter(t: TableV) -> Result<Seq<char>, SchemaErrorV> {
    let pk = t.primary_key->Some_0;
    match spec_key_columns(pk, t) {
        Err(e) => Err(e),
        Ok(cols) => Ok(
            spec_comment(t, pk)->Ok_0 + "\tpublic static function delete("@
                + spec_typed_parameters(cols) + "): void\n"@ + "\t{\n"@ + spec_body(t, cols)
                + "\t}\n"@,
        ),
    }
}

/// Writes the full delete method: parameters are exactly the primary key's
/// columns in the key's declared order, and the matching row is deleted
/// with null-safe comparison exactly on the nullable key columns.
pub fn write_deleter(table: &Table) -> (r: Result<String, SchemaError>)
    requires
        table@.primary_key is Some,
    ensures
        view_result(r) == spec_deleter(table@),
{
    let primary_key = match &table.primary_key {
        Some(primary_key) => primary_key,
        None => {
            return Err(SchemaError::UnknownTable(table.name.clone()));
        },
    };
    let mut buffer = match write_comment(table, primary_key) {
        Err(e) => {
            return Err(e);
        },
        Ok(comment) => comment,
    };
    buffer.append("\tpublic static function delete(");
    let parameters = match write_parameters(table, primary_key) {
        Err(e) => {
            return Err(e);
        },
        Ok(parameters) => parameters,
    };
    buffer.append(parameters.as_str());
    buffer.append("): void\n");
    buffer.append("\t{\n");
    let body = match write_body(table, primary_key) {
        Err(e) => {
            return Err(e);
        },
        Ok(body) => body,
    };
    buffer.append(body.as_str());
    buffer.append("\t}\n");
    proof {
        assert(buffer@ =~= spec_deleter(table@)->Ok_0);
    }
    Ok(buffer)
}

} // verus!
