use vstd::prelude::*;

use crate::database::column::{Column, ColumnV};
use crate::database::keys::{ForeignKey, ForeignKeyV, Key, KeyV};
use crate::error::{deep_view_result, SchemaError, SchemaErrorV};

verus! {

/// One table of the schema: its columns, secondary keys and foreign keys in
/// declaration order, and the optional single primary key. Declaration order
/// of the columns is load-bearing: it fixes constructor parameter order,
/// insert column order and row mapping order.
#[derive(Debug)]
pub struct Table {
    pub name: String,
    pub columns: Vec<Column>,
    pub keys: Vec<Key>,
    pub primary_key: Option<Key>,
    pub foreign_keys: Vec<ForeignKey>,
}

/// The mathematical model of a `Table`.
#[verifier::ext_equal]
pub struct TableV {
    pub name: Seq<char>,
    pub columns: Seq<ColumnV>,
    pub keys: Seq<KeyV>,
    pub primary_key: Option<KeyV>,
    pub foreign_keys: Seq<ForeignKeyV>,
}

impl View for Table {
    type V = TableV;

    open spec fn view(&self) -> TableV {
        TableV {
            name: self.name@,
            columns: self.columns.deep_view(),
            keys: self.keys.deep_view(),
            primary_key: self.primary_key.deep_view(),
            foreign_keys: self.foreign_keys.deep_view(),
        }
    }
}

impl DeepView for Table {
    type V = TableV;

    open spec fn deep_view(&self) -> TableV {
        self.view()
    }
}

impl TableV {
    /// The table's column names, in declaration order.
    pub open spec fn column_names(self) -> Seq<Seq<char>> {
        self.columns.map_values(|c: ColumnV| c.name)
    }

    /// The table's secondary key names, in declaration order.
    pub open spec fn key_names(self) -> Seq<Seq<char>> {
        self.keys.map_values(|k: KeyV| k.name)
    }

    /// The table's foreign key names, in declaration order.
    pub open spec fn foreign_key_names(self) -> Seq<Seq<char>> {
        self.foreign_keys.map_values(|k: ForeignKeyV| k.name)
    }
}

/// The index of the first column named `name` at or after position `i`.
pub open spec fn spec_find_col_from(cols: Seq<ColumnV>, name: Seq<char>, i: int) -> Option<int>
    decreases cols.len() - i,
    when 0 <= i
{
    if i >= cols.len() {
        None
    } else if cols[i].name == name {
        Some(i)
    } else {
        spec_find_col_from(cols, name, i + 1)
    }
}

/// The index of the first column named `name`, if any.
pub open spec fn spec_find_col(cols: Seq<ColumnV>, name: Seq<char>) -> Option<int> {
    spec_find_col_from(cols, name, 0)
}

/// The columns that the names `names[i..]` resolve to in `table`, appended to
/// `acc`; the first unresolved name is the error.
pub open spec fn spec_resolve_columns_from(
    table: TableV,
    names: Seq<Seq<char>>,
    i: int,
    acc: Seq<ColumnV>,
) -> Result<Seq<ColumnV>, SchemaErrorV>
    decreases names.len() - i,
    when 0 <= i
{
    if i >= names.len() {
        Ok(acc)
    } else {
        match spec_find_col(table.columns, names[i]) {
            None => Err(SchemaErrorV::UnknownColumn(table.name, names[i])),
            Some(j) => spec_resolve_columns_from(table, names, i + 1, acc.push(table.columns[j])),
        }
    }
}

/// The columns that a list of names resolves to in `table`, in the list's
/// order; the first unresolved name is the error.
pub open spec fn spec_resolve_columns(table: TableV, names: Seq<Seq<char>>) -> Result<
    Seq<ColumnV>,
    SchemaErrorV,
> {
    spec_resolve_columns_from(table, names, 0, Seq::empty())
}

impl Table {
    /// Builds a table from its parts, storing them unchanged.
    pub fn new(
        name: String,
        columns: Vec<Column>,
        keys: Vec<Key>,
        primary_key: Option<Key>,
        foreign_keys: Vec<ForeignKey>,
    ) -> (res: Self)
        ensures
            res@ == (TableV {
                name: name@,
                columns: columns.deep_view(),
                keys: keys.deep_view(),
                primary_key: primary_key.deep_view(),
                foreign_keys: foreign_keys.deep_view(),
            }),
    {
        Table { name, columns, keys, primary_key, foreign_keys }
    }

    /// The table's columns, in declaration order.
    pub fn iter_columns(&self) -> (r: &Vec<Column>)
        ensures
            r.deep_view() == self@.columns,
    {
        &self.columns
    }

    /// The table's secondary keys, in declaration order.
    pub fn iter_keys(&self) -> (r: &Vec<Key>)
        ensures
            r.deep_view() == self@.keys,
    {
        &self.keys
    }

    /// The table's foreign keys, in declaration order.
    pub fn iter_foreign_keys(&self) -> (r: &Vec<ForeignKey>)
        ensures
            r.deep_view() == self@.foreign_keys,
    {
        &self.foreign_keys
    }

    /// The table's column names, in declaration order.
    pub fn iter_column_names(&self) -> (r: Vec<String>)
        ensures
            r.deep_view() == self@.column_names(),
    {
        let mut r: Vec<String> = Vec::new();
        let n = self.columns.len();
        let mut i: usize = 0;
        while i < n
            invariant
                n == self.columns.len(),
                i <= n,
                r.deep_view() == self@.column_names().take(i as int),
            decreases n - i,
        {
            let ghost prev = r.deep_view();
            r.push(self.columns[i].name.clone());
            proof {
                assert(r.deep_view() =~= prev.push(self@.columns[i as int].name));
                assert(self@.column_names()[i as int] == self@.columns[i as int].name);
                assert(r.deep_view() =~= self@.column_names().take(i + 1 as int));
            }
            i += 1;
        }
        proof {
            assert(self@.column_names().take(n as int) =~= self@.column_names());
        }
        r
    }

    /// The table's secondary key names, in declaration order.
    pub fn iter_key_names(&self) -> (r: Vec<String>)
        ensures
            r.deep_view() == self@.key_names(),
    {
        let mut r: Vec<String> = Vec::new();
        let n = self.keys.len();
        let mut i: usize = 0;
        while i < n
            invariant
                n == self.keys.len(),
                i <= n,
                r.deep_view() == self@.key_names().take(i as int),
            decreases n - i,
        {
            let ghost prev = r.deep_view();
            r.push(self.keys[i].name.clone());
            proof {
                assert(r.deep_view() =~= prev.push(self@.keys[i as int].name));
                assert(self@.key_names()[i as int] == self@.keys[i as int].name);
                assert(r.deep_view() =~= self@.key_names().take(i + 1 as int));
            }
            i += 1;
        }
        proof {
            assert(self@.key_names().take(n as int) =~= self@.key_names());
        }
        r
    }

    /// The table's foreign key names, in declaration order.
    pub fn iter_foreign_key_names(&self) -> (r: Vec<String>)
        ensures
            r.deep_view() == self@.foreign_key_names(),
    {
        let mut r: Vec<String> = Vec::new();
        let n = self.foreign_keys.len();
        let mut i: usize = 0;
        while i < n
            invariant
                n == self.foreign_keys.len(),
                i <= n,
                r.deep_view() == self@.foreign_key_names().take(i as int),
            decreases n - i,
        {
            let ghost prev = r.deep_view();
            r.push(self.foreign_keys[i].name.clone());
            proof {
                assert(r.deep_view() =~= prev.push(self@.foreign_keys[i as int].name));
                assert(self@.foreign_key_names()[i as int] == self@.foreign_keys[i as int].name);
                assert(r.deep_view() =~= self@.foreign_key_names().take(i + 1 as int));
            }
            i += 1;
        }
        proof {
            assert(self@.foreign_key_names().take(n as int) =~= self@.foreign_key_names());
        }
        r
    }

    /// The position of the first column with the given name, if any.
    pub fn find_column(&self, name: &String) -> (r: Option<usize>)
        ensures
            (match r {
                Some(i) => spec_find_col(self@.columns, name@) == Some(i as int) && (i as int)
                    < self@.columns.len() && self@.columns[i as int].name == name@,
                None => spec_find_col(self@.columns, name@) is None,
            }),
    {
        let n = self.columns.len();
        let mut i: usize = 0;
        while i < n
            invariant
                n == self.columns.len(),
                i <= n,
                spec_find_col(self@.columns, name@) == spec_find_col_from(
                    self@.columns,
                    name@,
                    i as int,
                ),
            decreases n - i,
        {
            if self.columns[i].name.eq(name) {
                return Some(i);
            }
            i += 1;
        }
        None
    }

    /// Resolves a list of column names, in order, against this table; the
    /// first name that does not resolve is the error.
    pub fn resolve_columns(&self, names: &Vec<String>) -> (r: Result<Vec<Column>, SchemaError>)
        ensures
            deep_view_result(r) == spec_resolve_columns(self@, names.deep_view()),
    {
        let mut cols: Vec<Column> = Vec::new();
        proof {
            assert(cols.deep_view() =~= Seq::<ColumnV>::empty());
        }
        let n = names.len();
        let mut i: usize = 0;
        while i < n
            invariant
                n == names.len(),
                i <= n,
                spec_resolve_columns(self@, names.deep_view()) == spec_resolve_columns_from(
                    self@,
                    names.deep_view(),
                    i as int,
                    cols.deep_view(),
                ),
            decreases n - i,
        {
            match self.find_column(&names[i]) {
                None => {
                    return Err(
                        SchemaError::UnknownColumn(self.name.clone(), names[i].clone()),
                    );
                },
                Some(j) => {
                    let ghost prev = cols.deep_view();
                    cols.push(self.columns[j].clone());
                    proof {
                        assert(cols.deep_view() =~= prev.push(self@.columns[j as int]));
                    }
                },
            }
            i += 1;
        }
        Ok(cols)
    }
}

} // verus!
