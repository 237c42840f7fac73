use vstd::prelude::*;

use crate::casing::{camel_of, pascal_of, to_camel, to_pascal};
use crate::database::column::{Column, ColumnTypeV, ColumnV};

verus! {

/// The target-language type text of a column: its semantic type's keyword,
/// or the Pascal form of the column name plus `Enum` for an enumerated type.
pub open spec fn spec_type_text(c: ColumnV) -> Seq<char> {
    match c.type_ {
        ColumnTypeV::Boolean => "bool"@,
        ColumnTypeV::Int => "int"@,
        ColumnTypeV::Float => "float"@,
        ColumnTypeV::String => "string"@,
        ColumnTypeV::Enum(_) => pascal_of(c.name) + "Enum"@,
    }
}

/// A typed parameter: `null|` when nullable, the type text, and the camel
/// form of the column name as a variable.
pub open spec fn spec_typed_variable(c: ColumnV) -> Seq<char> {
    (if c.nullable {
        "null|"@
    } else {
        Seq::empty()
    }) + spec_type_text(c) + " $"@ + camel_of(c.name)
}

/// A typed parameter followed by the column's comment, for doc comments.
pub open spec fn spec_full_comment(c: ColumnV) -> Seq<char> {
    spec_typed_variable(c) + " "@ + c.comment
}

/// A bare variable: the camel form of the column name.
pub open spec fn spec_variable(c: ColumnV) -> Seq<char> {
    "$"@ + camel_of(c.name)
}

/// Writes the typed parameter with the column's comment appended.
pub fn write_full_comment(column: &Column) -> (r: String)
    ensures
        r@ == spec_full_comment(column@),
{
    let mut buffer = write_typed_variable(column);
    buffer.append(" ");
    buffer.append(column.comment.as_str());
    buffer
}

/// Writes the typed parameter for a column: nullability marker, type text
/// and camel-cased variable.
pub fn write_typed_variable(column: &Column) -> (r: String)
    ensures
        r@ == spec_typed_variable(column@),
{
    let mut buffer = String::new();
    if column.nullable {
        buffer.append("null|");
    }
    match &column.type_ {
        crate::database::column::ColumnType::Boolean => buffer.append("bool"),
        crate::database::column::ColumnType::Int => buffer.append("int"),
        crate::database::column::ColumnType::Float => buffer.append("float"),
        crate::database::column::ColumnType::String => buffer.append("string"),
        crate::database::column::ColumnType::Enum(_) => {
            let pascal = to_pascal(column.name.as_str());
            buffer.append(pascal.as_str());
            buffer.append("Enum");
        },
    }
    buffer.append(" $");
    let camel = to_camel(column.name.as_str());
    buffer.append(camel.as_str());
    buffer
}

/// Writes the bare camel-cased variable for a column.
pub fn write_variable(column: &Column) -> (r: String)
    ensures
        r@ == spec_variable(column@),
{
    let mut buffer = String::new();
    buffer.append("$");
    let camel = to_camel(column.name.as_str());
    buffer.append(camel.as_str());
    buffer
}

/// The comma-separated typed parameters for the columns `cols[i..]`,
/// appended to `acc`.
pub open spec fn spec_typed_parameters_from(cols: Seq<ColumnV>, i: int, acc: Seq<char>) -> Seq<
    char,
>
    decreases cols.len() - i,
    when 0 <= i
{
    if i >= cols.len() {
        acc
    } else {
        spec_typed_parameters_from(
            cols,
            i + 1,
            acc + (if i == 0 {
                spec_typed_variable(cols[i])
            } else {
                ", "@ + spec_typed_variable(cols[i])
            }),
        )
    }
}

/// The comma-separated typed parameters for a column list, in order.
pub open spec fn spec_typed_parameters(cols: Seq<ColumnV>) -> Seq<char> {
    spec_typed_parameters_from(cols, 0, Seq::empty())
}

/// Writes the comma-separated typed parameters for a column list.
pub fn write_typed_parameters(columns: &Vec<Column>) -> (r: String)
    ensures
        r@ == spec_typed_parameters(columns.deep_view()),
{
    let mut buffer = String::new();
    let n = columns.len();
    let mut i: usize = 0;
    while i < n
        invariant
            n == columns.len(),
            i <= n,
            spec_typed_parameters(columns.deep_view()) == spec_typed_parameters_from(
                columns.deep_view(),
                i as int,
                buffer@,
            ),
        decreases n - i,
    {
        let ghost b0 = buffer@;
        if i > 0 {
            buffer.append(", ");
        }
        let frag = write_typed_variable(&columns[i]);
        buffer.append(frag.as_str());
        proof {
            if i > 0 {
                assert(buffer@ =~= b0 + (", "@ + spec_typed_variable(
                    columns.deep_view()[i as int],
                )));
            } else {
                assert(buffer@ =~= b0 + spec_typed_variable(columns.deep_view()[i as int]));
            }
        }
        i += 1;
    }
    buffer
}

/// The doc-comment parameter lines for the columns `cols[i..]`, appended to
/// `acc`.
pub open spec fn spec_param_lines_from(cols: Seq<ColumnV>, i: int, acc: Seq<char>) -> Seq<char>
    decreases cols.len() - i,
    when 0 <= i
{
    if i >= cols.len() {
        acc
    } else {
        spec_param_lines_from(cols, i + 1, acc + "\t * @param "@ + spec_full_comment(cols[i]) + "\n"@)
    }
}

/// The doc-comment parameter lines for a column list, in order.
pub open spec fn spec_param_lines(cols: Seq<ColumnV>) -> Seq<char> {
    spec_param_lines_from(cols, 0, Seq::empty())
}

/// Writes the doc-comment parameter lines for a column list.
pub fn write_param_lines(columns: &Vec<Column>) -> (r: String)
    ensures
        r@ == spec_param_lines(columns.deep_view()),
{
    let mut buffer = String::new();
    let n = columns.len();
    let mut i: usize = 0;
    while i < n
        invariant
            n == columns.len(),
            i <= n,
            spec_param_lines(columns.deep_view()) == spec_param_lines_from(
                columns.deep_view(),
                i as int,
                buffer@,
            ),
        decreases n - i,
    {
        let ghost b0 = buffer@;
        buffer.append("\t * @param ");
        let frag = write_full_comment(&columns[i]);
        buffer.append(frag.as_str());
        buffer.append("\n");
        proof {
            assert(buffer@ =~= b0 + "\t * @param "@ + spec_full_comment(
                columns.deep_view()[i as int],
            ) + "\n"@);
        }
        i += 1;
    }
    buffer
}

/// The names of the columns `cols[i..]`, appended to `acc`.
pub open spec fn spec_names_of_from(cols: Seq<ColumnV>, i: int, acc: Seq<Seq<char>>) -> Seq<
    Seq<char>,
>
    decreases cols.len() - i,
    when 0 <= i
{
    if i >= cols.len() {
        acc
    } else {
        spec_names_of_from(cols, i + 1, acc.push(cols[i].name))
    }
}

/// The names of a column list, in order.
pub open spec fn spec_names_of(cols: Seq<ColumnV>) -> Seq<Seq<char>> {
    spec_names_of_from(cols, 0, Seq::empty())
}

/// Collects the names of a column list, in order.
pub fn names_of(columns: &Vec<Column>) -> (r: Vec<String>)
    ensures
        r.deep_view() == spec_names_of(columns.deep_view()),
{
    let mut r: Vec<String> = Vec::new();
    proof {
        assert(r.deep_view() =~= Seq::<Seq<char>>::empty());
    }
    let n = columns.len();
    let mut i: usize = 0;
    while i < n
        invariant
            n == columns.len(),
            i <= n,
            spec_names_of(columns.deep_view()) == spec_names_of_from(
                columns.deep_view(),
                i as int,
                r.deep_view(),
            ),
        decreases n - i,
    {
        let ghost prev = r.deep_view();
        r.push(columns[i].name.clone());
        proof {
            assert(r.deep_view() =~= prev.push(columns.deep_view()[i as int].name));
        }
        i += 1;
    }
    r
}

/// One WHERE comparison: null-safe equality (`<=>`) for a nullable column,
/// since ordinary equality never matches NULL; ordinary equality (`=`) for a
/// non-nullable column, where null-safe form could cost index usability.
pub open spec fn spec_where_fragment(c: ColumnV) -> Seq<char> {
    "`"@ + c.name + (if c.nullable {
        "` <=> :"@
    } else {
        "` = :"@
    }) + c.name
}

/// The WHERE comparisons for the columns `cols[i..]` joined with `AND`,
/// appended to `acc`.
pub open spec fn spec_where_clause_from(cols: Seq<ColumnV>, i: int, acc: Seq<char>) -> Seq<char>
    decreases cols.len() - i,
    when 0 <= i
{
    if i >= cols.len() {
        acc
    } else {
        spec_where_clause_from(
            cols,
            i + 1,
            acc + (if i == 0 {
                spec_where_fragment(cols[i])
            } else {
                " AND "@ + spec_where_fragment(cols[i])
            }),
        )
    }
}

/// The WHERE clause over a column list, one comparison per column in order.
pub open spec fn spec_where_clause(cols: Seq<ColumnV>) -> Seq<char> {
    spec_where_clause_from(cols, 0, Seq::empty())
}

/// Writes the WHERE clause over a column list: null-safe equality for
/// nullable columns, ordinary equality for non-nullable ones.
pub fn write_where_clause(columns: &Vec<Column>) -> (r: String)
    ensures
        r@ == spec_where_clause(columns.deep_view()),
{
    let mut buffer = String::new();
    let n = columns.len();
    let mut i: usize = 0;
    while i < n
        invariant
            n == columns.len(),
            i <= n,
            spec_where_clause(columns.deep_view()) == spec_where_clause_from(
                columns.deep_view(),
                i as int,
                buffer@,
            ),
        decreases n - i,
    {
        let ghost b0 = buffer@;
        if i > 0 {
            buffer.append(" AND ");
        }
        buffer.append("`");
        buffer.append(columns[i].name.as_str());
        if columns[i].nullable {
            buffer.append("` <=> :");
        } else {
            buffer.append("` = :");
        }
        buffer.append(columns[i].name.as_str());
        proof {
            if i > 0 {
                assert(buffer@ =~= b0 + (" AND "@ + spec_where_fragment(
                    columns.deep_view()[i as int],
                )));
            } else {
                assert(buffer@ =~= b0 + spec_where_fragment(columns.deep_view()[i as int]));
            }
        }
        i += 1;
    }
    buffer
}

/// The comma-separated backtick-quoted names `names[i..]`, appended to `acc`.
pub open spec fn spec_backtick_list_from(names: Seq<Seq<char>>, i: int, acc: Seq<char>) -> Seq<
    char,
>
    decreases names.len() - i,
    when 0 <= i
{
    if i >= names.len() {
        acc
    } else {
        spec_backtick_list_from(
            names,
            i + 1,
            acc + (if i == 0 {
                "`"@ + names[i] + "`"@
            } else {
                ", `"@ + names[i] + "`"@
            }),
        )
    }
}

/// The comma-separated backtick-quoted form of a name list.
pub open spec fn spec_backtick_list(names: Seq<Seq<char>>) -> Seq<char> {
    spec_backtick_list_from(names, 0, Seq::empty())
}

/// Writes the comma-separated backtick-quoted form of a name list.
pub fn write_backtick_list(names: &Vec<String>) -> (r: String)
    ensures
        r@ == spec_backtick_list(names.deep_view()),
{
    let mut buffer = String::new();
    let n = names.len();
    let mut i: usize = 0;
    while i < n
        invariant
            n == names.len(),
            i <= n,
            spec_backtick_list(names.deep_view()) == spec_backtick_list_from(
                names.deep_view(),
                i as int,
                buffer@,
            ),
        decreases n - i,
    {
        let ghost b0 = buffer@;
        if i > 0 {
            buffer.append(", `");
        } else {
            buffer.append("`");
        }
        buffer.append(names[i].as_str());
        buffer.append("`");
        proof {
            if i > 0 {
                assert(buffer@ =~= b0 + (", `"@ + names.deep_view()[i as int] + "`"@));
            } else {
                assert(buffer@ =~= b0 + ("`"@ + names.deep_view()[i as int] + "`"@));
            }
        }
        i += 1;
    }
    buffer
}

/// One line of a multi-entry parameter array: the placeholder named after
/// the column and the camel-cased variable bound to it.
pub open spec fn spec_params_line(name: Seq<char>) -> Seq<char> {
    "\t\t\t\":"@ + name + "\" => $"@ + camel_of(name) + ",\n"@
}

/// The parameter-array lines for the names `names[i..]`, appended to `acc`.
pub open spec fn spec_params_lines_from(names: Seq<Seq<char>>, i: int, acc: Seq<char>) -> Seq<
    char,
>
    decreases names.len() - i,
    when 0 <= i
{
    if i >= names.len() {
        acc
    } else {
        spec_params_lines_from(names, i + 1, acc + spec_params_line(names[i]))
    }
}

/// The statement binding query placeholders to variables: one line for a
/// single name, a multi-line array for several, nothing for none.
pub open spec fn spec_query_params_list(names: Seq<Seq<char>>) -> Seq<char> {
    if names.len() == 1 {
        "\t\t$params = array(\":"@ + names[0] + "\" => $"@ + camel_of(names[0]) + ");\n"@
    } else if names.len() > 1 {
        "\t\t$params = array(\n"@ + spec_params_lines_from(names, 0, Seq::empty()) + "\t\t);\n"@
    } else {
        Seq::empty()
    }
}

/// Writes the statement binding query placeholders to variables.
pub fn write_query_params_list(names: &Vec<String>) -> (r: String)
    ensures
        r@ == spec_query_params_list(names.deep_view()),
{
    let mut buffer = String::new();
    if names.len() == 1 {
        buffer.append("\t\t$params = array(\":");
        buffer.append(names[0].as_str());
        buffer.append("\" => $");
        let camel = to_camel(names[0].as_str());
        buffer.append(camel.as_str());
        buffer.append(");\n");
    } else if names.len() > 1 {
        let mut lines = String::new();
        let n = names.len();
        let mut i: usize = 0;
        while i < n
            invariant
                n == names.len(),
                i <= n,
                spec_params_lines_from(names.deep_view(), 0, Seq::empty())
                    == spec_params_lines_from(names.deep_view(), i as int, lines@),
            decreases n - i,
        {
            let ghost b0 = lines@;
            lines.append("\t\t\t\":");
            lines.append(names[i].as_str());
            lines.append("\" => $");
            let camel = to_camel(names[i].as_str());
            lines.append(camel.as_str());
            lines.append(",\n");
            proof {
                assert(lines@ =~= b0 + spec_params_line(names.deep_view()[i as int]));
            }
            i += 1;
        }
        buffer.append("\t\t$params = array(\n");
        buffer.append(lines.as_str());
        buffer.append("\t\t);\n");
    }
    buffer
}

} // verus!
