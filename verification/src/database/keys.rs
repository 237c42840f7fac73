use vstd::prelude::*;

use crate::database::column::{clone_strings, Column, ColumnV};
use crate::database::table::{spec_resolve_columns, Table};
use crate::error::{deep_view_result, SchemaError, SchemaErrorV};

verus! {

/// A secondary or primary key: an ordered, non-empty list of column names of
/// its owning table. The order is the parameter and WHERE-clause order.
#[derive(Debug)]
pub struct Key {
    pub name: String,
    pub unique: bool,
    pub table_name: String,
    pub column_names: Vec<String>,
}

/// The mathematical model of a `Key`.
#[verifier::ext_equal]
pub struct KeyV {
    pub name: Seq<char>,
    pub unique: bool,
    pub table_name: Seq<char>,
    pub column_names: Seq<Seq<char>>,
}

impl View for Key {
    type V = KeyV;

    open spec fn view(&self) -> KeyV {
        KeyV {
            name: self.name@,
            unique: self.unique,
            table_name: self.table_name@,
            column_names: self.column_names.deep_view(),
        }
    }
}

impl DeepView for Key {
    type V = KeyV;

    open spec fn deep_view(&self) -> KeyV {
        self.view()
    }
}

impl Clone for Key {
    fn clone(&self) -> (res: Self)
        ensures
            res@ == self@,
    {
        Key {
            name: self.name.clone(),
            unique: self.unique,
            table_name: self.table_name.clone(),
            column_names: clone_strings(&self.column_names),
        }
    }
}

impl Key {
    /// Builds a key from its parts, storing them unchanged.
    pub fn new(name: String, unique: bool, table_name: String, column_names: Vec<String>) -> (res:
        Self)
        ensures
            res@ == (KeyV {
                name: name@,
                unique,
                table_name: table_name@,
                column_names: column_names.deep_view(),
            }),
    {
        Key { name, unique, table_name, column_names }
    }

    /// The key's column names, in declared order.
    pub fn iter_column_names(&self) -> (r: &Vec<String>)
        ensures
            r.deep_view() == self@.column_names,
    {
        &self.column_names
    }

    /// Resolves the key's column names, in order, against the table they
    /// belong to. A table other than the key's own is a consistency error,
    /// as is a column name that does not resolve.
    pub fn iter_columns(&self, table: &Table) -> (r: Result<Vec<Column>, SchemaError>)
        ensures
            deep_view_result(r) == spec_key_columns(self@, table@),
    {
        if !table.name.eq(&self.table_name) {
            return Err(SchemaError::TableMismatch(self.table_name.clone(), table.name.clone()));
        }
        table.resolve_columns(&self.column_names)
    }
}

/// The columns a key resolves to against a table: a mismatched table or an
/// unresolved column name is an error.
pub open spec fn spec_key_columns(key: KeyV, table: crate::database::table::TableV) -> Result<
    Seq<ColumnV>,
    SchemaErrorV,
> {
    if table.name != key.table_name {
        Err(SchemaErrorV::TableMismatch(key.table_name, table.name))
    } else {
        spec_resolve_columns(table, key.column_names)
    }
}

/// A foreign key: ordered local column names paired positionally with
/// ordered column names of the referenced table.
#[derive(Debug)]
pub struct ForeignKey {
    pub name: String,
    pub table_name: String,
    pub column_names: Vec<String>,
    pub foreign_table_name: String,
    pub foreign_column_names: Vec<String>,
}

/// The mathematical model of a `ForeignKey`.
#[verifier::ext_equal]
pub struct ForeignKeyV {
    pub name: Seq<char>,
    pub table_name: Seq<char>,
    pub column_names: Seq<Seq<char>>,
    pub foreign_table_name: Seq<char>,
    pub foreign_column_names: Seq<Seq<char>>,
}

impl View for ForeignKey {
    type V = ForeignKeyV;

    open spec fn view(&self) -> ForeignKeyV {
        ForeignKeyV {
            name: self.name@,
            table_name: self.table_name@,
            column_names: self.column_names.deep_view(),
            foreign_table_name: self.foreign_table_name@,
            foreign_column_names: self.foreign_column_names.deep_view(),
        }
    }
}

impl DeepView for ForeignKey {
    type V = ForeignKeyV;

    open spec fn deep_view(&self) -> ForeignKeyV {
        self.view()
    }
}

impl Clone for ForeignKey {
    fn clone(&self) -> (res: Self)
        ensures
            res@ == self@,
    {
        ForeignKey {
            name: self.name.clone(),
            table_name: self.table_name.clone(),
            column_names: clone_strings(&self.column_names),
            foreign_table_name: self.foreign_table_name.clone(),
            foreign_column_names: clone_strings(&self.foreign_column_names),
        }
    }
}

impl ForeignKey {
    /// Builds a foreign key from its parts, storing them unchanged.
    pub fn new(
        name: String,
        table_name: String,
        column_names: Vec<String>,
        foreign_table_name: String,
        foreign_column_names: Vec<String>,
    ) -> (res: Self)
        ensures
            res@ == (ForeignKeyV {
                name: name@,
                table_name: table_name@,
                column_names: column_names.deep_view(),
                foreign_table_name: foreign_table_name@,
                foreign_column_names: foreign_column_names.deep_view(),
            }),
    {
        ForeignKey { name, table_name, column_names, foreign_table_name, foreign_column_names }
    }

    /// The local column names, in declared order.
    pub fn iter_column_names(&self) -> (r: &Vec<String>)
        ensures
            r.deep_view() == self@.column_names,
    {
        &self.column_names
    }

    /// The referenced table's column names, in declared order.
    pub fn iter_foreign_column_names(&self) -> (r: &Vec<String>)
        ensures
            r.deep_view() == self@.foreign_column_names,
    {
        &self.foreign_column_names
    }

    /// Resolves the local column names, in order, against the owning table.
    pub fn iter_columns(&self, table: &Table) -> (r: Result<Vec<Column>, SchemaError>)
        ensures
            deep_view_result(r) == spec_foreign_key_columns(self@, table@),
    {
        if !table.name.eq(&self.table_name) {
            return Err(SchemaError::TableMismatch(self.table_name.clone(), table.name.clone()));
        }
        table.resolve_columns(&self.column_names)
    }

    /// Resolves the referenced column names, in order, against the referenced table.
    pub fn iter_foreign_columns(&self, table: &Table) -> (r: Result<Vec<Column>, SchemaError>)
        ensures
            deep_view_result(r) == spec_foreign_key_foreign_columns(self@, table@),
    {
        if !table.name.eq(&self.foreign_table_name) {
            return Err(
                SchemaError::TableMismatch(self.foreign_table_name.clone(), table.name.clone()),
            );
        }
        table.resolve_columns(&self.foreign_column_names)
    }
}

/// The columns a foreign key's local names resolve to against its owning table.
pub open spec fn spec_foreign_key_columns(
    fk: ForeignKeyV,
    table: crate::database::table::TableV,
) -> Result<Seq<ColumnV>, SchemaErrorV> {
    if table.name != fk.table_name {
        Err(SchemaErrorV::TableMismatch(fk.table_name, table.name))
    } else {
        spec_resolve_columns(table, fk.column_names)
    }
}

/// The columns a foreign key's referenced names resolve to against the referenced table.
pub open spec fn spec_foreign_key_foreign_columns(
    fk: ForeignKeyV,
    table: crate::database::table::TableV,
) -> Result<Seq<ColumnV>, SchemaErrorV> {
    if table.name != fk.foreign_table_name {
        Err(SchemaErrorV::TableMismatch(fk.foreign_table_name, table.name))
    } else {
        spec_resolve_columns(table, fk.foreign_column_names)
    }
}

} // verus!
