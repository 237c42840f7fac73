use vstd::prelude::*;

use crate::casing::{pascal_of, to_pascal, to_upper_snake, upper_snake_of};
use crate::database::column::{Column, ColumnType, ColumnTypeV, ColumnV};
use crate::database::table::{Table, TableV};
use crate::error::{view_result, SchemaError, SchemaErrorV};
use crate::writer::column::{spec_param_lines, spec_typed_variable, write_param_lines,
    write_typed_variable};
use crate::writer::creater;
use crate::writer::deleter;
use crate::writer::foreign_getters;
use crate::writer::getters;
use crate::writer::updater;

verus! {

/// The fixed opening of every generated file.
pub open spec fn spec_file_start() -> Seq<char> {
    "<?php\n\ndeclare(strict_types=1);\n\n"@
}

/// Writes the fixed opening of every generated file.
pub fn write_file_start() -> (r: String)
    ensures
        r@ == spec_file_start(),
{
    let mut buffer = String::new();
    buffer.append("<?php\n\ndeclare(strict_types=1);\n\n");
    buffer
}

/// The class head: a doc comment naming the table and the Pascal-cased
/// class declaration.
pub open spec fn spec_table_definition(table_name: Seq<char>) -> Seq<char> {
    "/** Database class for the `"@ + table_name + "` table */\n"@ + "class "@ + pascal_of(
        table_name,
    ) + "\n"@ + "{\n"@
}

/// Writes the class head for a table name.
pub fn write_table_definition(table_name: &String) -> (r: String)
    ensures
        r@ == spec_table_definition(table_name@),
{
    let mut buffer = String::new();
    buffer.append("/** Database class for the `");
    buffer.append(table_name.as_str());
    buffer.append("` table */\n");
    buffer.append("class ");
    let pascal = to_pascal(table_name.as_str());
    buffer.append(pascal.as_str());
    buffer.append("\n");
    buffer.append("{\n");
    buffer
}

/// The constructor's doc comment: one parameter line per column, in
/// declaration order.
pub open spec fn spec_constructor_comment(cols: Seq<ColumnV>) -> Seq<char> {
    "\t/**\n"@ + spec_param_lines(cols) + "\t */\n"@
}

/// Writes the constructor's doc comment.
pub fn write_constructor_comment(columns: &Vec<Column>) -> (r: String)
    ensures
        r@ == spec_constructor_comment(columns.deep_view()),
{
    let mut buffer = String::new();
    buffer.append("\t/**\n");
    let lines = write_param_lines(columns);
    buffer.append(lines.as_str());
    buffer.append("\t */\n");
    buffer
}

/// The constructor's promoted properties for the columns `cols[i..]`,
/// appended to `acc`.
pub open spec fn spec_constructor_lines_from(cols: Seq<ColumnV>, i: int, acc: Seq<char>) -> Seq<
    char,
>
    decreases cols.len() - i,
    when 0 <= i
{
    if i >= cols.len() {
        acc
    } else {
        spec_constructor_lines_from(
            cols,
            i + 1,
            acc + "\t\tpublic readonly "@ + spec_typed_variable(cols[i]) + ",\n"@,
        )
    }
}

/// The constructor: one promoted readonly property per column, in
/// declaration order, with no omissions or reordering.
pub open spec fn spec_constructor(cols: Seq<ColumnV>) -> Seq<char> {
    "\tprivate function __construct(\n"@ + spec_constructor_lines_from(cols, 0, Seq::empty())
        + "\t) {\n\t}\n"@
}

/// Writes the constructor over a column list.
pub fn write_constructor(columns: &Vec<Column>) -> (r: String)
    ensures
        r@ == spec_constructor(columns.deep_view()),
{
    let mut buffer = String::new();
    buffer.append("\tprivate function __construct(\n");
    let mut lines = String::new();
    let n = columns.len();
    let mut i: usize = 0;
    while i < n
        invariant
            n == columns.len(),
            i <= n,
            spec_constructor_lines_from(columns.deep_view(), 0, Seq::empty())
                == spec_constructor_lines_from(columns.deep_view(), i as int, lines@),
        decreases n - i,
    {
        let ghost b0 = lines@;
        lines.append("\t\tpublic readonly ");
        let typed = write_typed_variable(&columns[i]);
        lines.append(typed.as_str());
        lines.append(",\n");
        proof {
            assert(lines@ =~= b0 + "\t\tpublic readonly "@ + spec_typed_variable(
                columns.deep_view()[i as int],
            ) + ",\n"@);
        }
        i += 1;
    }
    buffer.append(lines.as_str());
    buffer.append("\t) {\n\t}\n");
    buffer
}

/// The cases of one enumerated type, for the labels `values[i..]`, appended
/// to `acc`: each case named by the upper-snake form of its label, its value
/// the label text verbatim.
pub open spec fn spec_enum_cases_from(values: Seq<Seq<char>>, i: int, acc: Seq<char>) -> Seq<char>
    decreases values.len() - i,
    when 0 <= i
{
    if i >= values.len() {
        acc
    } else {
        spec_enum_cases_from(
            values,
            i + 1,
            acc + "\tcase "@ + upper_snake_of(values[i]) + " = \""@ + values[i] + "\";\n"@,
        )
    }
}

/// One enumerated type declaration: named after the column, one case per
/// label in declaration order.
pub open spec fn spec_enum(name: Seq<char>, values: Seq<Seq<char>>) -> Seq<char> {
    "\nenum "@ + name + "Enum: string\n"@ + "{\n"@ + spec_enum_cases_from(values, 0, Seq::empty())
        + "}\n"@
}

/// Writes one enumerated type declaration.
pub fn write_enum(name: &String, values: &Vec<String>) -> (r: String)
    ensures
        r@ == spec_enum(name@, values.deep_view()),
{
    let mut buffer = String::new();
    buffer.append("\nenum ");
    buffer.append(name.as_str());
    buffer.append("Enum: string\n");
    buffer.append("{\n");
    let mut cases = String::new();
    let n = values.len();
    let mut i: usize = 0;
    while i < n
        invariant
            n == values.len(),
            i <= n,
            spec_enum_cases_from(values.deep_view(), 0, Seq::empty()) == spec_enum_cases_from(
                values.deep_view(),
                i as int,
                cases@,
            ),
        decreases n - i,
    {
        let ghost b0 = cases@;
        cases.append("\tcase ");
        let upper = to_upper_snake(values[i].as_str());
        cases.append(upper.as_str());
        cases.append(" = \"");
        cases.append(values[i].as_str());
        cases.append("\";\n");
        proof {
            assert(cases@ =~= b0 + "\tcase "@ + upper_snake_of(values.deep_view()[i as int])
                + " = \""@ + values.deep_view()[i as int] + "\";\n"@);
        }
        i += 1;
    }
    buffer.append(cases.as_str());
    buffer.append("}\n");
    buffer
}

/// The enumerated type declarations for the columns `cols[i..]`, appended to
/// `acc`: one per column of enumerated type, named after the column.
pub open spec fn spec_enums_from(cols: Seq<ColumnV>, i: int, acc: Seq<char>) -> Seq<char>
    decreases cols.len() - i,
    when 0 <= i
{
    if i >= cols.len() {
        acc
    } else {
        spec_enums_from(
            cols,
            i + 1,
            match cols[i].type_ {
                ColumnTypeV::Enum(values) => acc + spec_enum(pascal_of(cols[i].name), values),
                _ => acc,
            },
        )
    }
}

/// The enumerated type declarations of a table, in column order.
pub open spec fn spec_enums(t: TableV) -> Seq<char> {
    spec_enums_from(t.columns, 0, Seq::empty())
}

/// Writes the enumerated type declarations of a table.
pub fn write_enums(table: &Table) -> (r: String)
    ensures
        r@ == spec_enums(table@),
{
    let mut buffer = String::new();
    let n = table.columns.len();
    let mut i: usize = 0;
    while i < n
        invariant
            n == table.columns.len(),
            i <= n,
            spec_enums(table@) == spec_enums_from(table@.columns, i as int, buffer@),
        decreases n - i,
    {
        let ghost b0 = buffer@;
        match &table.columns[i].type_ {
            ColumnType::Enum(values) => {
                let name = to_pascal(table.columns[i].name.as_str());
                let text = write_enum(&name, values);
                buffer.append(text.as_str());
            },
            _ => {},
        }
        i += 1;
    }
    buffer
}

/// One table's full generated unit, in order: class head, documented
/// constructor, foreign-key accessors, getters, create method, update and
/// delete methods exactly when the table has a primary key, the closing
/// brace, and the enumerated type declarations.
pub open spec fn spec_write_table(t: TableV) -> Result<Seq<char>, SchemaErrorV> {
    match foreign_getters::spec_foreign_getters(t) {
        Err(e) => Err(e),
        Ok(fg) => match getters::spec_getters(t) {
            Err(e) => Err(e),
            Ok(g) => {
                let head = spec_table_definition(t.name) + spec_constructor_comment(t.columns)
                    + spec_constructor(t.columns) + fg + g + creater::spec_creater(t);
                match t.primary_key {
                    Some(_) => match updater::spec_updater(t) {
                        Err(e) => Err(e),
                        Ok(u) => match deleter::spec_deleter(t) {
                            Err(e) => Err(e),
                            Ok(d) => Ok(head + u + d + "}\n"@ + spec_enums(t)),
                        },
                    },
                    None => Ok(head + "}\n"@ + spec_enums(t)),
                }
            },
        },
    }
}

/// Writes one table's full generated unit.
#[verifier::rlimit(100)]
pub fn write_table(table: &Table) -> (r: Result<String, SchemaError>)
    ensures
        view_result(r) == spec_write_table(table@),
{
    let mut buffer = write_table_definition(&table.name);
    let comment = write_constructor_comment(table.iter_columns());
    buffer.append(comment.as_str());
    let constructor = write_constructor(table.iter_columns());
    buffer.append(constructor.as_str());
    let fg = match foreign_getters::write_foreign_getters(table) {
        Err(e) => {
            return Err(e);
        },
        Ok(fg) => fg,
    };
    buffer.append(fg.as_str());
    let g = match getters::write_getters(table) {
        Err(e) => {
            return Err(e);
        },
        Ok(g) => g,
    };
    buffer.append(g.as_str());
    let c = creater::write_creater(table);
    buffer.append(c.as_str());
    if table.primary_key.is_some() {
        let u = match updater::write_updater(table) {
            Err(e) => {
                return Err(e);
            },
            Ok(u) => u,
        };
        buffer.append(u.as_str());
        let d = match deleter::write_deleter(table) {
            Err(e) => {
                return Err(e);
            },
            Ok(d) => d,
        };
        buffer.append(d.as_str());
    }
    buffer.append("}\n");
    let enums = write_enums(table);
    buffer.append(enums.as_str());
    proof {
        assert(buffer@ =~= spec_write_table(table@)->Ok_0);
    }
    Ok(buffer)
}

} // verus!
