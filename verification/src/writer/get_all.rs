use vstd::prelude::*;

use crate::casing::{camel_of, pascal_of, to_camel, to_pascal};
use crate::database::column::{Column, ColumnType, ColumnTypeV, ColumnV};
use crate::database::table::{Table, TableV};

verus! {

/// The argument mapping one fetched row cell to a constructor argument: an
/// enumerated column goes through its enum type's `from`, any other column
/// is the raw cell.
pub open spec fn spec_object_argument(c: ColumnV) -> Seq<char> {
    match c.type_ {
        ColumnTypeV::Enum(_) => pascal_of(c.name) + "Enum::from($row[\""@ + c.name + "\"])"@,
        _ => "$row[\""@ + c.name + "\"]"@,
    }
}

/// The comma-separated row-mapping arguments for the columns `cols[i..]`,
/// appended to `acc`.
pub open spec fn spec_object_arguments_from(cols: Seq<ColumnV>, i: int, acc: Seq<char>) -> Seq<
    char,
>
    decreases cols.len() - i,
    when 0 <= i
{
    if i >= cols.len() {
        acc
    } else {
        spec_object_arguments_from(
            cols,
            i + 1,
            acc + (if i == 0 {
                spec_object_argument(cols[i])
            } else {
                ", "@ + spec_object_argument(cols[i])
            }),
        )
    }
}

/// The comma-separated row-mapping arguments for all columns in declaration
/// order.
pub open spec fn spec_object_arguments(cols: Seq<ColumnV>) -> Seq<char> {
    spec_object_arguments_from(cols, 0, Seq::empty())
}

/// The doc comment of the bulk getter.
pub open spec fn spec_comment(t: TableV) -> Seq<char> {
    "\n\t/** "@ + "Gets all rows in `"@ + t.name + "`.\n"@ + "\t * @return array all objects in `"@
        + t.name + "`.\n"@ + "\t */\n"@
}

/// The prepared unfiltered select statement.
pub open spec fn spec_query_prepare(t: TableV) -> Seq<char> {
    "\t\t$sth = getPDO()->prepare(\"SELECT * FROM `"@ + t.name + "`;\");\n"@
}

/// The bulk getter's body: prepare, execute, map every row, return the array.
pub open spec fn spec_body(t: TableV) -> Seq<char> {
    spec_query_prepare(t) + "\t\t$sth->execute();\n\n"@ + "\t\t$"@ + camel_of(t.name)
        + " = array();\n\n"@ + "\t\twhile ($row = $sth->fetch())\n"@ + "\t\t\t$"@ + camel_of(t.name)
        + "[] = new "@ + pascal_of(t.name) + "("@ + spec_object_arguments(t.columns) + ");\n\n"@
        + "\t\treturn $"@ + camel_of(t.name) + ";\n"@
}

/// The full bulk getter: a method with no predicate returning every row.
pub open spec fn spec_getter(t: TableV) -> Seq<char> {
    spec_comment(t) + "\tpublic static function getAll(): array\n"@ + "\t{\n"@ + spec_body(t)
        + "\t}\n"@
}

/// Writes the row-mapping argument for one column.
pub fn write_object_argument(column: &Column) -> (r: String)
    ensures
        r@ == spec_object_argument(column@),
{
    let mut buffer = String::new();
    match &column.type_ {
        ColumnType::Enum(_) => {
            let pascal = to_pascal(column.name.as_str());
            buffer.append(pascal.as_str());
            buffer.append("Enum::from($row[\"");
            buffer.append(column.name.as_str());
            buffer.append("\"])");
        },
        _ => {
            buffer.append("$row[\"");
            buffer.append(column.name.as_str());
            buffer.append("\"]");
        },
    }
    buffer
}

/// Writes the comma-separated row-mapping arguments for all columns.
pub fn write_object_arguments(table: &Table) -> (r: String)
    ensures
        r@ == spec_object_arguments(table@.columns),
{
    let mut buffer = String::new();
    let n = table.columns.len();
    let mut i: usize = 0;
    while i < n
        invariant
            n == table.columns.len(),
            i <= n,
            spec_object_arguments(table@.columns) == spec_object_arguments_from(
                table@.columns,
                i as int,
                buffer@,
            ),
        decreases n - i,
    {
        let ghost b0 = buffer@;
        if i > 0 {
            buffer.append(", ");
        }
        let frag = write_object_argument(&table.columns[i]);
        buffer.append(frag.as_str());
        proof {
            if i > 0 {
                assert(buffer@ =~= b0 + (", "@ + spec_object_argument(table@.columns[i as int])));
            } else {
                assert(buffer@ =~= b0 + spec_object_argument(table@.columns[i as int]));
            }
        }
        i += 1;
    }
    buffer
}

/// Writes the doc comment of the bulk getter.
pub fn write_comment(table: &Table) -> (r: String)
    ensures
        r@ == spec_comment(table@),
{
    let mut buffer = String::new();
    buffer.append("\n\t/** ");
    buffer.append("Gets all rows in `");
    buffer.append(table.name.as_str());
    buffer.append("`.\n");
    buffer.append("\t * @return array all objects in `");
    buffer.append(table.name.as_str());
    buffer.append("`.\n");
    buffer.append("\t */\n");
    buffer
}

/// Writes the prepared unfiltered select statement.
pub fn write_query_prepare(table: &Table) -> (r: String)
    ensures
        r@ == spec_query_prepare(table@),
{
    let mut buffer = String::new();
    buffer.append("\t\t$sth = getPDO()->prepare(\"SELECT * FROM `");
    buffer.append(table.name.as_str());
    buffer.append("`;\");\n");
    buffer
}

/// Writes the bulk getter's body.
pub fn write_body(table: &Table) -> (r: String)
    ensures
        r@ == spec_body(table@),
{
    let mut buffer = write_query_prepare(table);
    buffer.append("\t\t$sth->execute();\n\n");
    let camel = to_camel(table.name.as_str());
    buffer.append("\t\t$");
    buffer.append(camel.as_str());
    buffer.append(" = array();\n\n");
    buffer.append("\t\twhile ($row = $sth->fetch())\n");
    buffer.append("\t\t\t$");
    buffer.append(camel.as_str());
    buffer.append("[] = new ");
    let pascal = to_pascal(table.name.as_str());
    buffer.append(pascal.as_str());
    buffer.append("(");
    let arguments = write_object_arguments(table);
    buffer.append(arguments.as_str());
    buffer.append(");\n\n");
    buffer.append("\t\treturn $");
    buffer.append(camel.as_str());
    buffer.append(";\n");
    buffer
}

/// Writes the bulk getter: a method with no predicate returning every row.
pub fn write_getter(table: &Table) -> (r: String)
    ensures
        r@ == spec_getter(table@),
{
    let mut buffer = write_comment(table);
    buffer.append("\tpublic static function getAll(): array\n");
    buffer.append("\t{\n");
    let body = write_body(table);
    buffer.append(body.as_str());
    buffer.append("\t}\n");
    buffer
}

} // verus!
