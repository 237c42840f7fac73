pub mod casing;
pub mod database;
pub mod error;
pub mod parsers;
pub mod props;
pub mod writer;

use vstd::prelude::*;

use crate::database::table::TableV;
use crate::error::{SchemaError, SchemaErrorV};
use crate::parsers::{parse_statements, spec_parse_statements, Statement, StatementV};
use crate::writer::table::{spec_file_start, spec_write_table, write_file_start, write_table};

verus! {

/// The generated files for the tables `tables[i..]`, appended to `acc`: one
/// (table name, file text) pair per table, the file text being the fixed
/// opening followed by the table's unit.
pub open spec fn spec_generate_from(
    tables: Seq<TableV>,
    i: int,
    acc: Seq<(Seq<char>, Seq<char>)>,
) -> Result<Seq<(Seq<char>, Seq<char>)>, SchemaErrorV>
    decreases tables.len() - i,
    when 0 <= i
{
    if i >= tables.len() {
        Ok(acc)
    } else {
        match spec_write_table(tables[i]) {
            Err(e) => Err(e),
            Ok(txt) => spec_generate_from(
                tables,
                i + 1,
                acc.push((tables[i].name, spec_file_start() + txt)),
            ),
        }
    }
}

/// The whole pipeline as one function of the statement stream: the schema
/// the statements fold to, and one generated file per table, in the
/// schema's table order.
pub open spec fn spec_generate(stmts: Seq<StatementV>) -> Result<
    Seq<(Seq<char>, Seq<char>)>,
    SchemaErrorV,
> {
    match spec_parse_statements(stmts) {
        Err(e) => Err(e),
        Ok(tables) => spec_generate_from(tables, 0, Seq::empty()),
    }
}

/// Runs the full pipeline: folds the statement stream into a schema, and
/// generates one (table name, file text) pair per table. The result is a
/// function of the statement stream alone, so equal inputs give
/// byte-identical output.
pub fn generate(statements: &Vec<Statement>) -> (r: Result<Vec<(String, String)>, SchemaError>)
    ensures
        (match r {
            Ok(files) => spec_generate(statements.deep_view()) == Ok::<
                Seq<(Seq<char>, Seq<char>)>,
                SchemaErrorV,
            >(files.deep_view()),
            Err(e) => spec_generate(statements.deep_view()) == Err::<
                Seq<(Seq<char>, Seq<char>)>,
                SchemaErrorV,
            >(e@),
        }),
{
    let schema = match parse_statements(statements) {
        Err(e) => {
            return Err(e);
        },
        Ok(schema) => schema,
    };
    let mut files: Vec<(String, String)> = Vec::new();
    proof {
        assert(files.deep_view() =~= Seq::<(Seq<char>, Seq<char>)>::empty());
    }
    let n = schema.tables.len();
    let mut i: usize = 0;
    while i < n
        invariant
            n == schema.tables.len(),
            i <= n,
            spec_generate(statements.deep_view()) == spec_generate_from(
                schema@,
                i as int,
                files.deep_view(),
            ),
        decreases n - i,
    {
        let table = &schema.tables[i];
        let text = match write_table(table) {
            Err(e) => {
                return Err(e);
            },
            Ok(text) => text,
        };
        let mut contents = write_file_start();
        contents.append(text.as_str());
        let ghost prev = files.deep_view();
        files.push((table.name.clone(), contents));
        proof {
            assert(files.deep_view() =~= prev.push(
                (
                    schema@[i as int].name,
                    spec_file_start() + spec_write_table(schema@[i as int])->Ok_0,
                ),
            ));
        }
        i += 1;
    }
    Ok(files)
}

} // verus!
