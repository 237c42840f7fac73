use vstd::prelude::*;

use crate::casing::{pascal_of, to_pascal};
use crate::database::column::{Column, ColumnV};
use crate::database::keys::{spec_foreign_key_columns, ForeignKey, ForeignKeyV};
use crate::database::table::{Table, TableV};
use crate::error::{view_result, SchemaError, SchemaErrorV};

verus! {

/// The names of the nullable columns among `cols[i..]`, appended to `acc`.
pub open spec fn spec_nullable_names_from(cols: Seq<ColumnV>, i: int, acc: Seq<Seq<char>>) -> Seq<
    Seq<char>,
>
    decreases cols.len() - i,
    when 0 <= i
{
    if i >= cols.len() {
        acc
    } else {
        spec_nullable_names_from(
            cols,
            i + 1,
            if cols[i].nullable {
                acc.push(cols[i].name)
            } else {
                acc
            },
        )
    }
}

/// The names of the nullable columns of a list, in order: the values the
/// accessor must test for presence before dereferencing.
pub open spec fn spec_nullable_names(cols: Seq<ColumnV>) -> Seq<Seq<char>> {
    spec_nullable_names_from(cols, 0, Seq::empty())
}

/// Collects the names of the nullable columns of a list, in order.
pub fn nullable_names(columns: &Vec<Column>) -> (r: Vec<String>)
    ensures
        r.deep_view() == spec_nullable_names(columns.deep_view()),
{
    let mut r: Vec<String> = Vec::new();
    proof {
        assert(r.deep_view() =~= Seq::<Seq<char>>::empty());
    }
    let n = columns.len();
    let mut i: usize = 0;
    while i < n
        invariant
            n == columns.len(),
            i <= n,
            spec_nullable_names(columns.deep_view()) == spec_nullable_names_from(
                columns.deep_view(),
                i as int,
                r.deep_view(),
            ),
        decreases n - i,
    {
        if columns[i].nullable {
            let ghost prev = r.deep_view();
            r.push(columns[i].name.clone());
            proof {
                assert(r.deep_view() =~= prev.push(columns.deep_view()[i as int].name));
            }
        }
        i += 1;
    }
    r
}

/// The comma-separated field accesses `names[i..]`, appended to `acc`.
pub open spec fn spec_arguments_from(names: Seq<Seq<char>>, i: int, acc: Seq<char>) -> Seq<char>
    decreases names.len() - i,
    when 0 <= i
{
    if i >= names.len() {
        acc
    } else {
        spec_arguments_from(
            names,
            i + 1,
            acc + (if i == 0 {
                "$this->"@ + names[i]
            } else {
                ", $this->"@ + names[i]
            }),
        )
    }
}

/// The comma-separated field accesses for a name list, in order.
pub open spec fn spec_arguments(names: Seq<Seq<char>>) -> Seq<char> {
    spec_arguments_from(names, 0, Seq::empty())
}

/// Writes the comma-separated field accesses for a name list.
pub fn write_arguments(arguments: &Vec<String>) -> (r: String)
    ensures
        r@ == spec_arguments(arguments.deep_view()),
{
    let mut buffer = String::new();
    let n = arguments.len();
    let mut i: usize = 0;
    while i < n
        invariant
            n == arguments.len(),
            i <= n,
            spec_arguments(arguments.deep_view()) == spec_arguments_from(
                arguments.deep_view(),
                i as int,
                buffer@,
            ),
        decreases n - i,
    {
        let ghost b0 = buffer@;
        if i > 0 {
            buffer.append(", $this->");
        } else {
            buffer.append("$this->");
        }
        buffer.append(arguments[i].as_str());
        proof {
            if i > 0 {
                assert(buffer@ =~= b0 + (", $this->"@ + arguments.deep_view()[i as int]));
            } else {
                assert(buffer@ =~= b0 + ("$this->"@ + arguments.deep_view()[i as int]));
            }
        }
        i += 1;
    }
    buffer
}

/// The doc comment of one foreign-key accessor, over the key's resolved
/// local columns.
pub open spec fn spec_comment(t: TableV, fk: ForeignKeyV) -> Result<Seq<char>, SchemaErrorV> {
    match spec_foreign_key_columns(fk, t) {
        Err(e) => Err(e),
        Ok(cols) => {
            let nullable = spec_nullable_names(cols).len() > 0;
            Ok(
                "\n\t/** Gets the associated `"@ + t.name + "` by the `"@ + fk.name + "` key.\n"@
                    + "\t * @return "@ + (if nullable {
                    "false|"@
                } else {
                    Seq::empty()
                }) + pascal_of(t.name) + " The corresponding object"@ + (if nullable {
                    ", `false` when one of the keys columns equal `null`"@
                } else {
                    Seq::empty()
                }) + ".\n"@ + "\t */\n"@,
            )
        },
    }
}

/// Writes the doc comment of one foreign-key accessor.
pub fn write_comment(table: &Table, foreign_key: &ForeignKey) -> (r: Result<String, SchemaError>)
    ensures
        view_result(r) == spec_comment(table@, foreign_key@),
{
    let columns = match foreign_key.iter_columns(table) {
        Err(e) => {
            return Err(e);
        },
        Ok(columns) => columns,
    };
    let nullable = nullable_names(&columns).len() > 0;
    let mut buffer = String::new();
    buffer.append("\n\t/** Gets the associated `");
    buffer.append(table.name.as_str());
    buffer.append("` by the `");
    buffer.append(foreign_key.name.as_str());
    buffer.append("` key.\n");
    buffer.append("\t * @return ");
    if nullable {
        buffer.append("false|");
    }
    let pascal = to_pascal(table.name.as_str());
    buffer.append(pascal.as_str());
    buffer.append(" The corresponding object");
    if nullable {
        buffer.append(", `false` when one of the keys columns equal `null`");
    }
    buffer.append(".\n");
    buffer.append("\t */\n");
    proof {
        assert(buffer@ =~= spec_comment(table@, foreign_key@)->Ok_0);
    }
    Ok(buffer)
}

/// One foreign-key accessor, over the key's resolved local columns: when any
/// local column is nullable it first tests all nullable values for presence
/// and returns false instead of dereferencing; otherwise it delegates
/// unconditionally to the foreign table's key-based getter.
pub open spec fn spec_foreign_getter(t: TableV, fk: ForeignKeyV) -> Result<
    Seq<char>,
    SchemaErrorV,
> {
    match spec_comment(t, fk) {
        Err(e) => Err(e),
        Ok(cm) => {
            let cols = spec_foreign_key_columns(fk, t)->Ok_0;
            let nullable = spec_nullable_names(cols);
            Ok(
                cm + "\tpublic function get"@ + pascal_of(fk.name) + (if nullable.len() > 0 {
                    "(): false|"@
                } else {
                    "(): "@
                }) + pascal_of(fk.foreign_table_name) + "\n\t{\n"@ + (if nullable.len() > 0 {
                    "\t\tif (!isset("@ + spec_arguments(nullable) + "))\n"@
                        + "\t\t\treturn false;\n\n"@
                } else {
                    Seq::empty()
                }) + "\t\treturn "@ + pascal_of(fk.foreign_table_name) + "::get("@
                    + spec_arguments(fk.column_names) + ");\n\t}\n"@,
            )
        },
    }
}

/// The accessors of the foreign keys `fks[i..]`, appended to `acc`.
pub open spec fn spec_foreign_getters_from(t: TableV, i: int, acc: Seq<char>) -> Result<
    Seq<char>,
    SchemaErrorV,
>
    decreases t.foreign_keys.len() - i,
    when 0 <= i
{
    if i >= t.foreign_keys.len() {
        Ok(acc)
    } else {
        match spec_foreign_getter(t, t.foreign_keys[i]) {
            Err(e) => Err(e),
            Ok(g) => spec_foreign_getters_from(t, i + 1, acc + g),
        }
    }
}

/// The accessors of all foreign keys of a table, in declaration order.
pub open spec fn spec_foreign_getters(t: TableV) -> Result<Seq<char>, SchemaErrorV> {
    spec_foreign_getters_from(t, 0, Seq::empty())
}

/// Writes the accessors of all foreign keys of a table.
#[verifier::rlimit(100)]
pub fn write_foreign_getters(table: &Table) -> (r: Result<String, SchemaError>)
    ensures
        view_result(r) == spec_foreign_getters(table@),
{
    let mut buffer = String::new();
    let n = table.foreign_keys.len();
    let mut i: usize = 0;
    while i < n
        invariant
            n == table.foreign_keys.len(),
            i <= n,
            spec_foreign_getters(table@) == spec_foreign_getters_from(table@, i as int, buffer@),
        decreases n - i,
    {
        let ghost b0 = buffer@;
        let foreign_key = &table.foreign_keys[i];
        let columns = match foreign_key.iter_columns(table) {
            Err(e) => {
                return Err(e);
            },
            Ok(columns) => columns,
        };
        let comment = match write_comment(table, foreign_key) {
            Err(e) => {
                return Err(e);
            },
            Ok(comment) => comment,
        };
        buffer.append(comment.as_str());
        let names = nullable_names(&columns);
        buffer.append("\tpublic function get");
        let key_pascal = to_pascal(foreign_key.name.as_str());
        buffer.append(key_pascal.as_str());
        if names.len() > 0 {
            buffer.append("(): false|");
        } else {
            buffer.append("(): ");
        }
        let foreign_pascal = to_pascal(foreign_key.foreign_table_name.as_str());
        buffer.append(foreign_pascal.as_str());
        buffer.append("\n\t{\n");
        if names.len() > 0 {
            buffer.append("\t\tif (!isset(");
            let tests = write_arguments(&names);
            buffer.append(tests.as_str());
            buffer.append("))\n");
            buffer.append("\t\t\treturn false;\n\n");
        }
        buffer.append("\t\treturn ");
        buffer.append(foreign_pascal.as_str());
        buffer.append("::get(");
        let arguments = write_arguments(&foreign_key.column_names);
        buffer.append(arguments.as_str());
        buffer.append(");\n\t}\n");
        proof {
            assert(buffer@ =~= b0 + spec_foreign_getter(table@, table@.foreign_keys[i as int])->Ok_0);
        }
        i += 1;
    }
    Ok(buffer)
}

} // verus!
