use vstd::prelude::*;

use crate::casing::{pascal_of, to_pascal};
use crate::database::column::{Column, ColumnV};
use crate::database::keys::{spec_key_columns, KeyV};
use crate::database::table::{Table, TableV};
use crate::error::{view_result, SchemaError, SchemaErrorV};
use crate::writer::column::{
    names_of, spec_names_of, spec_param_lines, spec_query_params_list, spec_typed_parameters,
    spec_variable, spec_where_clause, write_param_lines, write_query_params_list,
    write_typed_parameters, write_variable, write_where_clause,
};
use crate::writer::getters::contains_name;

verus! {

/// The columns of `cols[i..]` whose names are not among `pk_names`, appended
/// to `acc`: the columns an update assigns, since the key columns only
/// filter.
pub open spec fn spec_non_primary_from(
    cols: Seq<ColumnV>,
    pk_names: Seq<Seq<char>>,
    i: int,
    acc: Seq<ColumnV>,
) -> Seq<ColumnV>
    decreases cols.len() - i,
    when 0 <= i
{
    if i >= cols.len() {
        acc
    } else {
        spec_non_primary_from(
            cols,
            pk_names,
            i + 1,
            if pk_names.contains(cols[i].name) {
                acc
            } else {
                acc.push(cols[i])
            },
        )
    }
}

/// The non-primary-key columns of a list, in declaration order.
pub open spec fn spec_non_primary(cols: Seq<ColumnV>, pk_names: Seq<Seq<char>>) -> Seq<ColumnV> {
    spec_non_primary_from(cols, pk_names, 0, Seq::empty())
}

/// Collects the columns whose names are not among `pk_names`.
pub fn non_primary_columns(table: &Table, pk_names: &Vec<String>) -> (r: Vec<Column>)
    ensures
        r.deep_view() == spec_non_primary(table@.columns, pk_names.deep_view()),
{
    let mut r: Vec<Column> = Vec::new();
    proof {
        assert(r.deep_view() =~= Seq::<ColumnV>::empty());
    }
    let n = table.columns.len();
    let mut i: usize = 0;
    while i < n
        invariant
            n == table.columns.len(),
            i <= n,
            spec_non_primary(table@.columns, pk_names.deep_view()) == spec_non_primary_from(
                table@.columns,
                pk_names.deep_view(),
                i as int,
                r.deep_view(),
            ),
        decreases n - i,
    {
        if !contains_name(pk_names, &table.columns[i].name) {
            let ghost prev = r.deep_view();
            r.push(table.columns[i].clone());
            proof {
                assert(r.deep_view() =~= prev.push(table@.columns[i as int]));
            }
        }
        i += 1;
    }
    r
}

/// The doc comment of the update method: one parameter line per column.
pub open spec fn spec_comment(t: TableV) -> Seq<char> {
    "\n\t/** Updates a `"@ + pascal_of(t.name) + "` by the primary key.\n"@ + spec_param_lines(
        t.columns,
    ) + "\t * @return "@ + pascal_of(t.name) + " The updated object.\n"@ + "\t */\n"@
}

/// Writes the doc comment of the update method.
pub fn write_comment(table: &Table) -> (r: String)
    ensures
        r@ == spec_comment(table@),
{
    let mut buffer = String::new();
    buffer.append("\n\t/** Updates a `");
    let pascal = to_pascal(table.name.as_str());
    buffer.append(pascal.as_str());
    buffer.append("` by the primary key.\n");
    let lines = write_param_lines(table.iter_columns());
    buffer.append(lines.as_str());
    buffer.append("\t * @return ");
    buffer.append(pascal.as_str());
    buffer.append(" The updated object.\n");
    buffer.append("\t */\n");
    buffer
}

/// Writes the update method's typed parameter list: every column, in
/// declaration order, the key columns serving the WHERE clause.
pub fn write_parameters(columns: &Vec<Column>) -> (r: String)
    ensures
        r@ == spec_typed_parameters(columns.deep_view()),
{
    write_typed_parameters(columns)
}

/// Writes the statement binding update placeholders to variables.
pub fn write_query_params(columns: &Vec<Column>) -> (r: String)
    ensures
        r@ == spec_query_params_list(spec_names_of(columns.deep_view())),
{
    let names = names_of(columns);
    write_query_params_list(&names)
}

/// The comma-separated assignments `names[i..]`, appended to `acc`.
pub open spec fn spec_assignments_from(cols: Seq<ColumnV>, i: int, acc: Seq<char>) -> Seq<char>
    decreases cols.len() - i,
    when 0 <= i
{
    if i >= cols.len() {
        acc
    } else {
        spec_assignments_from(
            cols,
            i + 1,
            acc + (if i == 0 {
                "`"@ + cols[i].name + "` = :"@ + cols[i].name
            } else {
                ", `"@ + cols[i].name + "` = :"@ + cols[i].name
            }),
        )
    }
}

/// The SET list: one parameterized assignment per non-primary-key column.
pub open spec fn spec_query_update(cols: Seq<ColumnV>) -> Seq<char> {
    spec_assignments_from(cols, 0, Seq::empty())
}

/// Writes the SET list over a column list.
pub fn write_query_update(columns: &Vec<Column>) -> (r: String)
    ensures
        r@ == spec_query_update(columns.deep_view()),
{
    let mut buffer = String::new();
    let n = columns.len();
    let mut i: usize = 0;
    while i < n
        invariant
            n == columns.len(),
            i <= n,
            spec_query_update(columns.deep_view()) == spec_assignments_from(
                columns.deep_view(),
                i as int,
                buffer@,
            ),
        decreases n - i,
    {
        let ghost b0 = buffer@;
        if i > 0 {
            buffer.append(", `");
        } else {
            buffer.append("`");
        }
        buffer.append(columns[i].name.as_str());
        buffer.append("` = :");
        buffer.append(columns[i].name.as_str());
        proof {
            if i > 0 {
                assert(buffer@ =~= b0 + (", `"@ + columns.deep_view()[i as int].name + "` = :"@
                    + columns.deep_view()[i as int].name));
            } else {
                assert(buffer@ =~= b0 + ("`"@ + columns.deep_view()[i as int].name + "` = :"@
                    + columns.deep_view()[i as int].name));
            }
        }
        i += 1;
    }
    buffer
}

/// Writes the WHERE clause over the primary key's columns: null-safe
/// equality for nullable columns, ordinary equality for the rest.
pub fn write_query_where(columns: &Vec<Column>) -> (r: String)
    ensures
        r@ == spec_where_clause(columns.deep_view()),
{
    write_where_clause(columns)
}

/// The prepared parameterized update statement, over the primary key's
/// resolved columns.
pub open spec fn spec_query_prepare(t: TableV, pk: KeyV, pkcols: Seq<ColumnV>) -> Seq<char> {
    "\t\t$sth = getPDO()->prepare(\"UPDATE `"@ + t.name + "` SET "@ + spec_query_update(
        spec_non_primary(t.columns, pk.column_names),
    ) + " WHERE "@ + spec_where_clause(pkcols) + ";\");\n"@
}

/// Writes the prepared parameterized update statement.
pub fn write_query_prepare(table: &Table) -> (r: Result<String, SchemaError>)
    requires
        table@.primary_key is Some,
    ensures
        (match r {
            Ok(s) => spec_key_columns(table@.primary_key->Some_0, table@) is Ok && s@
                == spec_query_prepare(
                table@,
                table@.primary_key->Some_0,
                spec_key_columns(table@.primary_key->Some_0, table@)->Ok_0,
            ),
            Err(e) => spec_key_columns(table@.primary_key->Some_0, table@) == Err::<
                Seq<ColumnV>,
                SchemaErrorV,
            >(e@),
        }),
{
    let primary_key = match &table.primary_key {
        Some(primary_key) => primary_key,
        None => {
            return Err(SchemaError::UnknownTable(table.name.clone()));
        },
    };
    let pkcols = match primary_key.iter_columns(table) {
        Err(e) => {
            return Err(e);
        },
        Ok(pkcols) => pkcols,
    };
    let mut buffer = String::new();
    buffer.append("\t\t$sth = getPDO()->prepare(\"UPDATE `");
    buffer.append(table.name.as_str());
    buffer.append("` SET ");
    let non_primary = non_primary_columns(table, &primary_key.column_names);
    let update = write_query_update(&non_primary);
    buffer.append(update.as_str());
    buffer.append(" WHERE ");
    let where_clause = write_query_where(&pkcols);
    buffer.append(where_clause.as_str());
    buffer.append(";\");\n");
    Ok(buffer)
}

/// The comma-separated re-fetch arguments: one variable per primary-key
/// column, in the key's declared order.
pub open spec fn spec_object_arguments_from(cols: Seq<ColumnV>, i: int, acc: Seq<char>) -> Seq<
    char,
>
    decreases cols.len() - i,
    when 0 <= i
{
    if i >= cols.len() {
        acc
    } else {
        spec_object_arguments_from(
            cols,
            i + 1,
            acc + (if i == 0 {
                spec_variable(cols[i])
            } else {
                ", "@ + spec_variable(cols[i])
            }),
        )
    }
}

/// The comma-separated variables of a column list, in order.
pub open spec fn spec_object_arguments(cols: Seq<ColumnV>) -> Seq<char> {
    spec_object_arguments_from(cols, 0, Seq::empty())
}

/// Writes the comma-separated variables of a column list.
pub fn write_object_arguments(columns: &Vec<Column>) -> (r: String)
    ensures
        r@ == spec_object_arguments(columns.deep_view()),
{
    let mut buffer = String::new();
    let n = columns.len();
    let mut i: usize = 0;
    while i < n
        invariant
            n == columns.len(),
            i <= n,
            spec_object_arguments(columns.deep_view()) == spec_object_arguments_from(
                columns.deep_view(),
                i as int,
                buffer@,
            ),
        decreases n - i,
    {
        let ghost b0 = buffer@;
        if i > 0 {
            buffer.append(", ");
        }
        let variable = write_variable(&columns[i]);
        buffer.append(variable.as_str());
        proof {
            if i > 0 {
                assert(buffer@ =~= b0 + (", "@ + spec_variable(columns.deep_view()[i as int])));
            } else {
                assert(buffer@ =~= b0 + spec_variable(columns.deep_view()[i as int]));
            }
        }
        i += 1;
    }
    buffer
}

/// The update method's body, over the primary key's resolved columns: bind
/// every column, update, re-fetch through the primary-key getter in the
/// key's own column order.
pub open spec fn spec_body(t: TableV, pk: KeyV, pkcols: Seq<ColumnV>) -> Seq<char> {
    spec_query_params_list(spec_names_of(t.columns)) + spec_query_prepare(t, pk, pkcols)
        + "\t\t$sth->execute($params);\n\n"@ + "\t\treturn Self::get("@ + spec_object_arguments(
        pkcols,
    ) + ");\n"@
}

/// Writes the update method's body.
pub fn write_body(table: &Table) -> (r: Result<String, SchemaError>)
    requires
        table@.primary_key is Some,
    ensures
        (match r {
            Ok(s) => spec_key_columns(table@.primary_key->Some_0, table@) is Ok && s@ == spec_body(
                table@,
                table@.primary_key->Some_0,
                spec_key_columns(table@.primary_key->Some_0, table@)->Ok_0,
            ),
            Err(e) => spec_key_columns(table@.primary_key->Some_0, table@) == Err::<
                Seq<ColumnV>,
                SchemaErrorV,
            >(e@),
        }),
{
    let mut buffer = write_query_params(table.iter_columns());
    let prepare = match write_query_prepare(table) {
        Err(e) => {
            return Err(e);
        },
        Ok(prepare) => prepare,
    };
    buffer.append(prepare.as_str());
    buffer.append("\t\t$sth->execute($params);\n\n");
    buffer.append("\t\treturn Self::get(");
    let primary_key = match &table.primary_key {
        Some(primary_key) => primary_key,
        None => {
            return Err(SchemaError::UnknownTable(table.name.clone()));
        },
    };
    let pkcols = match primary_key.iter_columns(table) {
        Err(e) => {
            return Err(e);
        },
        Ok(pkcols) => pkcols,
    };
    let arguments = write_object_arguments(&pkcols);
    buffer.append(arguments.as_str());
    buffer.append(");\n");
    Ok(buffer)
}

/// The full update method, over the primary key's resolved columns.
pub open spec fn spec_updater(t: TableV) -> Result<Seq<char>, SchemaErrorV> {
    let pk = t.primary_key->Some_0;
    match spec_key_columns(pk, t) {
        Err(e) => Err(e),
        Ok(pkcols) => Ok(
            spec_comment(t) + "\tpublic static function update("@ + spec_typed_parameters(t.columns)
                + "): "@ + pascal_of(t.name) + "\n\t{\n"@ + spec_body(t, pk, pkcols) + "\t}\n"@,
        ),
    }
}

/// Writes the full update method: parameters are every column in declaration
/// order, every non-primary-key column is assigned, the row is filtered by
/// the primary key and re-fetched through the primary-key getter.
pub fn write_updater(table: &Table) -> (r: Result<String, SchemaError>)
    requires
        table@.primary_key is Some,
    ensures
        view_result(r) == spec_updater(table@),
{
    let mut buffer = write_comment(table);
    buffer.append("\tpublic static function update(");
    let parameters = write_parameters(table.iter_columns());
    buffer.append(parameters.as_str());
    buffer.append("): ");
    let pascal = to_pascal(table.name.as_str());
    buffer.append(pascal.as_str());
    buffer.append("\n\t{\n");
    let body = match write_body(table) {
        Err(e) => {
            return Err(e);
        },
        Ok(body) => body,
    };
    buffer.append(body.as_str());
    buffer.append("\t}\n");
    proof {
        assert(buffer@ =~= spec_updater(table@)->Ok_0);
    }
    Ok(buffer)
}

} // verus!
