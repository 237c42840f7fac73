use vstd::prelude::*;

use crate::casing::{pascal_of, to_pascal};
use crate::database::column::{Column, ColumnV};
use crate::database::table::{Table, TableV};
use crate::writer::column::{
    names_of, spec_names_of, spec_param_lines, spec_query_params_list, spec_typed_parameters,
    spec_variable, write_param_lines, write_query_params_list, write_typed_parameters,
    write_variable,
};

verus! {

/// The columns of `cols[i..]` that are not auto-increment, appended to `acc`.
pub open spec fn spec_non_auto_from(cols: Seq<ColumnV>, i: int, acc: Seq<ColumnV>) -> Seq<ColumnV>
    decreases cols.len() - i,
    when 0 <= i
{
    if i >= cols.len() {
        acc
    } else {
        spec_non_auto_from(
            cols,
            i + 1,
            if cols[i].auto_increment {
                acc
            } else {
                acc.push(cols[i])
            },
        )
    }
}

/// The non-auto-increment columns of a list, in declaration order: exactly
/// the insert parameters, since the storage engine assigns the rest.
pub open spec fn spec_non_auto(cols: Seq<ColumnV>) -> Seq<ColumnV> {
    spec_non_auto_from(cols, 0, Seq::empty())
}

/// Collects the non-auto-increment columns, in declaration order.
pub fn non_auto_columns(table: &Table) -> (r: Vec<Column>)
    ensures
        r.deep_view() == spec_non_auto(table@.columns),
{
    let mut r: Vec<Column> = Vec::new();
    proof {
        assert(r.deep_view() =~= Seq::<ColumnV>::empty());
    }
    let n = table.columns.len();
    let mut i: usize = 0;
    while i < n
        invariant
            n == table.columns.len(),
            i <= n,
            spec_non_auto(table@.columns) == spec_non_auto_from(
                table@.columns,
                i as int,
                r.deep_view(),
            ),
        decreases n - i,
    {
        if !table.columns[i].auto_increment {
            let ghost prev = r.deep_view();
            r.push(table.columns[i].clone());
            proof {
                assert(r.deep_view() =~= prev.push(table@.columns[i as int]));
            }
        }
        i += 1;
    }
    r
}

/// The insert argument for one column: the post-insert identity for an
/// auto-increment column, the supplied variable for any other.
pub open spec fn spec_object_argument(c: ColumnV) -> Seq<char> {
    if c.auto_increment {
        "(int)getPDO()->lastInsertId()"@
    } else {
        spec_variable(c)
    }
}

/// The comma-separated re-fetch arguments for the columns `cols[i..]`,
/// appended to `acc`.
pub open spec fn spec_object_arguments_from(cols: Seq<ColumnV>, i: int, acc: Seq<char>) -> Seq<
    char,
>
    decreases cols.len() - i,
    when 0 <= i
{
    if i >= cols.len() {
        acc
    } else {
        spec_object_arguments_from(
            cols,
            i + 1,
            acc + (if i == 0 {
                spec_object_argument(cols[i])
            } else {
                ", "@ + spec_object_argument(cols[i])
            }),
        )
    }
}

/// The comma-separated re-fetch arguments for all columns in declaration
/// order: the insert's identity value stands in for auto-increment columns.
pub open spec fn spec_object_arguments(cols: Seq<ColumnV>) -> Seq<char> {
    spec_object_arguments_from(cols, 0, Seq::empty())
}

/// The doc comment of the create method: one parameter line per
/// non-auto-increment column.
pub open spec fn spec_comment(t: TableV) -> Seq<char> {
    "\n\t/** Create a `"@ + pascal_of(t.name) + "`\n"@ + spec_param_lines(spec_non_auto(t.columns))
        + "\t * @return "@ + pascal_of(t.name) + " The updated object.\n"@ + "\t */\n"@
}

/// The create method's parameters: every non-auto-increment column, typed,
/// in declaration order.
pub open spec fn spec_parameters(t: TableV) -> Seq<char> {
    spec_typed_parameters(spec_non_auto(t.columns))
}

/// The insert column list: the non-auto-increment column names, quoted.
pub open spec fn spec_query_create(t: TableV) -> Seq<char> {
    crate::writer::column::spec_backtick_list(spec_names_of(spec_non_auto(t.columns)))
}

/// The comma-separated placeholders `names[i..]`, appended to `acc`.
pub open spec fn spec_placeholder_list_from(names: Seq<Seq<char>>, i: int, acc: Seq<char>) -> Seq<
    char,
>
    decreases names.len() - i,
    when 0 <= i
{
    if i >= names.len() {
        acc
    } else {
        spec_placeholder_list_from(
            names,
            i + 1,
            acc + (if i == 0 {
                ":"@ + names[i]
            } else {
                ", :"@ + names[i]
            }),
        )
    }
}

/// The insert value list: one placeholder per non-auto-increment column.
pub open spec fn spec_query_values(t: TableV) -> Seq<char> {
    spec_placeholder_list_from(spec_names_of(spec_non_auto(t.columns)), 0, Seq::empty())
}

/// The prepared parameterized insert statement.
pub open spec fn spec_query_prepare(t: TableV) -> Seq<char> {
    "\t\t$sth = getPDO()->prepare(\"INSERT INTO `"@ + t.name + "` ("@ + spec_query_create(t)
        + ") VALUES ("@ + spec_query_values(t) + ");\");\n"@
}

/// The create method's body: bind parameters, insert, re-fetch the created
/// row through the primary-key getter.
pub open spec fn spec_body(t: TableV) -> Seq<char> {
    spec_query_params_list(spec_names_of(spec_non_auto(t.columns))) + spec_query_prepare(t)
        + "\t\t$sth->execute($params);\n\n"@ + "\t\treturn Self::get("@ + spec_object_arguments(
        t.columns,
    ) + ");\n"@
}

/// The full create method.
pub open spec fn spec_creater(t: TableV) -> Seq<char> {
    spec_comment(t) + "\tpublic static function register("@ + spec_parameters(t) + "): "@
        + pascal_of(t.name) + "\n\t{\n"@ + spec_body(t) + "\t}\n"@
}

/// Writes the doc comment of the create method.
pub fn write_comment(table: &Table) -> (r: String)
    ensures
        r@ == spec_comment(table@),
{
    let mut buffer = String::new();
    buffer.append("\n\t/** Create a `");
    let pascal = to_pascal(table.name.as_str());
    buffer.append(pascal.as_str());
    buffer.append("`\n");
    let columns = non_auto_columns(table);
    let lines = write_param_lines(&columns);
    buffer.append(lines.as_str());
    buffer.append("\t * @return ");
    buffer.append(pascal.as_str());
    buffer.append(" The updated object.\n");
    buffer.append("\t */\n");
    buffer
}

/// Writes the create method's typed parameter list.
pub fn write_parameters(table: &Table) -> (r: String)
    ensures
        r@ == spec_parameters(table@),
{
    let columns = non_auto_columns(table);
    write_typed_parameters(&columns)
}

/// Writes the statement binding insert placeholders to variables.
pub fn write_query_params(table: &Table) -> (r: String)
    ensures
        r@ == spec_query_params_list(spec_names_of(spec_non_auto(table@.columns))),
{
    let columns = non_auto_columns(table);
    let names = names_of(&columns);
    write_query_params_list(&names)
}

/// Writes the insert column list.
pub fn write_query_create(table: &Table) -> (r: String)
    ensures
        r@ == spec_query_create(table@),
{
    let columns = non_auto_columns(table);
    let names = names_of(&columns);
    crate::writer::column::write_backtick_list(&names)
}

/// Writes the insert value list.
pub fn write_query_values(table: &Table) -> (r: String)
    ensures
        r@ == spec_query_values(table@),
{
    let columns = non_auto_columns(table);
    let names = names_of(&columns);
    let mut buffer = String::new();
    let n = names.len();
    let mut i: usize = 0;
    while i < n
        invariant
            n == names.len(),
            i <= n,
            spec_query_values(table@) == spec_placeholder_list_from(
                names.deep_view(),
                i as int,
                buffer@,
            ),
            names.deep_view() == spec_names_of(spec_non_auto(table@.columns)),
        decreases n - i,
    {
        let ghost b0 = buffer@;
        if i > 0 {
            buffer.append(", :");
        } else {
            buffer.append(":");
        }
        buffer.append(names[i].as_str());
        proof {
            if i > 0 {
                assert(buffer@ =~= b0 + (", :"@ + names.deep_view()[i as int]));
            } else {
                assert(buffer@ =~= b0 + (":"@ + names.deep_view()[i as int]));
            }
        }
        i += 1;
    }
    buffer
}

/// Writes the prepared parameterized insert statement.
pub fn write_query_prepare(table: &Table) -> (r: String)
    ensures
        r@ == spec_query_prepare(table@),
{
    let mut buffer = String::new();
    buffer.append("\t\t$sth = getPDO()->prepare(\"INSERT INTO `");
    buffer.append(table.name.as_str());
    buffer.append("` (");
    let create = write_query_create(table);
    buffer.append(create.as_str());
    buffer.append(") VALUES (");
    let values = write_query_values(table);
    buffer.append(values.as_str());
    buffer.append(");\");\n");
    buffer
}

/// Writes the comma-separated re-fetch arguments for a column list.
pub fn write_object_arguments(columns: &Vec<Column>) -> (r: String)
    ensures
        r@ == spec_object_arguments(columns.deep_view()),
{
    let mut buffer = String::new();
    let n = columns.len();
    let mut i: usize = 0;
    while i < n
        invariant
            n == columns.len(),
            i <= n,
            spec_object_arguments(columns.deep_view()) == spec_object_arguments_from(
                columns.deep_view(),
                i as int,
                buffer@,
            ),
        decreases n - i,
    {
        let ghost b0 = buffer@;
        if i > 0 {
            buffer.append(", ");
        }
        if columns[i].auto_increment {
            buffer.append("(int)getPDO()->lastInsertId()");
        } else {
            let variable = write_variable(&columns[i]);
            buffer.append(variable.as_str());
        }
        proof {
            if i > 0 {
                assert(buffer@ =~= b0 + (", "@ + spec_object_argument(
                    columns.deep_view()[i as int],
                )));
            } else {
                assert(buffer@ =~= b0 + spec_object_argument(columns.deep_view()[i as int]));
            }
        }
        i += 1;
    }
    buffer
}

/// Writes the create method's body.
pub fn write_body(table: &Table) -> (r: String)
    ensures
        r@ == spec_body(table@),
{
    let mut buffer = write_query_params(table);
    let prepare = write_query_prepare(table);
    buffer.append(prepare.as_str());
    buffer.append("\t\t$sth->execute($params);\n\n");
    buffer.append("\t\treturn Self::get(");
    let arguments = write_object_arguments(table.iter_columns());
    buffer.append(arguments.as_str());
    buffer.append(");\n");
    buffer
}

/// Writes the full create method: parameters are every non-auto-increment
/// column in declaration order; the created row is re-fetched through the
/// primary-key getter, with the post-insert identity standing in for any
/// auto-increment column.
pub fn write_creater(table: &Table) -> (r: String)
    ensures
        r@ == spec_creater(table@),
{
    let mut buffer = write_comment(table);
    buffer.append("\tpublic static function register(");
    let parameters = write_parameters(table);
    buffer.append(parameters.as_str());
    buffer.append("): ");
    let pascal = to_pascal(table.name.as_str());
    buffer.append(pascal.as_str());
    buffer.append("\n\t{\n");
    let body = write_body(table);
    buffer.append(body.as_str());
    buffer.append("\t}\n");
    buffer
}

} // verus!
