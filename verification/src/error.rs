use vstd::prelude::*;

verus! {

/// A schema consistency error, carrying the offending table, column or
/// key name so that callers can report actionable diagnostics.
#[derive(Debug)]
pub enum SchemaError {
    /// An alteration referenced a table that no create statement introduced.
    UnknownTable(String),
    /// A column name did not resolve in its table: `(table, column)`.
    UnknownColumn(String, String),
    /// A foreign-key constraint was declared without a name: the table altered.
    UnnamedForeignKey(String),
    /// A dialect type descriptor outside the supported vocabulary.
    UnsupportedType(String),
    /// An alteration kind the builder does not implement: the table altered.
    UnsupportedAlteration(String),
    /// A key was resolved against a table other than its own: `(key table, given table)`.
    TableMismatch(String, String),
}

/// The mathematical model of a `SchemaError`: the same variants over `Seq<char>`.
pub enum SchemaErrorV {
    UnknownTable(Seq<char>),
    UnknownColumn(Seq<char>, Seq<char>),
    UnnamedForeignKey(Seq<char>),
    UnsupportedType(Seq<char>),
    UnsupportedAlteration(Seq<char>),
    TableMismatch(Seq<char>, Seq<char>),
}

impl View for SchemaError {
    type V = SchemaErrorV;

    open spec fn view(&self) -> SchemaErrorV {
        match self {
            SchemaError::UnknownTable(t) => SchemaErrorV::UnknownTable(t@),
            SchemaError::UnknownColumn(t, c) => SchemaErrorV::UnknownColumn(t@, c@),
            SchemaError::UnnamedForeignKey(t) => SchemaErrorV::UnnamedForeignKey(t@),
            SchemaError::UnsupportedType(c) => SchemaErrorV::UnsupportedType(c@),
            SchemaError::UnsupportedAlteration(t) => SchemaErrorV::UnsupportedAlteration(t@),
            SchemaError::TableMismatch(t, g) => SchemaErrorV::TableMismatch(t@, g@),
        }
    }
}

/// The model of an executable `Result` whose sides both have views.
pub open spec fn view_result<T: View, E: View>(r: Result<T, E>) -> Result<T::V, E::V> {
    match r {
        Ok(t) => Ok(t@),
        Err(e) => Err(e@),
    }
}

/// The model of an executable `Result` whose success side is a container,
/// taken through its deep view.
pub open spec fn deep_view_result<T: DeepView, E: View>(r: Result<T, E>) -> Result<T::V, E::V> {
    match r {
        Ok(t) => Ok(t.deep_view()),
        Err(e) => Err(e@),
    }
}

} // verus!
