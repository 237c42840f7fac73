use vstd::prelude::*;

verus! {

/// The semantic type vocabulary used by code synthesis. Width, precision and
/// locale information of the source dialect is deliberately discarded; an
/// enumerated type keeps its labels in declaration order.
#[derive(Debug)]
pub enum ColumnType {
    Boolean,
    Int,
    Float,
    String,
    Enum(Vec<String>),
}

/// The mathematical model of a `ColumnType`.
pub enum ColumnTypeV {
    Boolean,
    Int,
    Float,
    String,
    Enum(Seq<Seq<char>>),
}

impl View for ColumnType {
    type V = ColumnTypeV;

    open spec fn view(&self) -> ColumnTypeV {
        match self {
            ColumnType::Boolean => ColumnTypeV::Boolean,
            ColumnType::Int => ColumnTypeV::Int,
            ColumnType::Float => ColumnTypeV::Float,
            ColumnType::String => ColumnTypeV::String,
            ColumnType::Enum(labels) => ColumnTypeV::Enum(labels.deep_view()),
        }
    }
}

/// Copies a vector of strings, keeping every element's characters.
pub fn clone_strings(v: &Vec<String>) -> (r: Vec<String>)
    ensures
        r@ == v@,
{
    let mut r: Vec<String> = Vec::new();
    let n = v.len();
    let mut i: usize = 0;
    while i < n
        invariant
            n == v.len(),
            i <= n,
            r@ == v@.take(i as int),
        decreases n - i,
    {
        r.push(v[i].clone());
        proof {
            assert(v@.take(i + 1 as int) =~= v@.take(i as int).push(v@[i as int]));
        }
        i += 1;
    }
    proof {
        assert(v@.take(n as int) =~= v@);
    }
    r
}

impl Clone for ColumnType {
    fn clone(&self) -> (res: Self)
        ensures
            res@ == self@,
    {
        match self {
            ColumnType::Boolean => ColumnType::Boolean,
            ColumnType::Int => ColumnType::Int,
            ColumnType::Float => ColumnType::Float,
            ColumnType::String => ColumnType::String,
            ColumnType::Enum(labels) => ColumnType::Enum(clone_strings(labels)),
        }
    }
}

/// One column of a table. `nullable` defaults to true unless a not-null
/// property is seen; `auto_increment` defaults to false; `comment` to empty.
#[derive(Debug)]
pub struct Column {
    pub name: String,
    pub type_: ColumnType,
    pub nullable: bool,
    pub auto_increment: bool,
    pub comment: String,
}

/// The mathematical model of a `Column`.
#[verifier::ext_equal]
pub struct ColumnV {
    pub name: Seq<char>,
    pub type_: ColumnTypeV,
    pub nullable: bool,
    pub auto_increment: bool,
    pub comment: Seq<char>,
}

impl View for Column {
    type V = ColumnV;

    open spec fn view(&self) -> ColumnV {
        ColumnV {
            name: self.name@,
            type_: self.type_@,
            nullable: self.nullable,
            auto_increment: self.auto_increment,
            comment: self.comment@,
        }
    }
}

impl DeepView for Column {
    type V = ColumnV;

    open spec fn deep_view(&self) -> ColumnV {
        self.view()
    }
}

impl Clone for Column {
    fn clone(&self) -> (res: Self)
        ensures
            res@ == self@,
    {
        Column {
            name: self.name.clone(),
            type_: self.type_.clone(),
            nullable: self.nullable,
            auto_increment: self.auto_increment,
            comment: self.comment.clone(),
        }
    }
}

impl Column {
    /// Builds a column from its five properties, storing them unchanged.
    pub fn new(
        name: String,
        type_: ColumnType,
        nullable: bool,
        auto_increment: bool,
        comment: String,
    ) -> (res: Self)
        ensures
            res@ == (ColumnV {
                name: name@,
                type_: type_@,
                nullable,
                auto_increment,
                comment: comment@,
            }),
    {
        Column { name, type_, nullable, comment, auto_increment }
    }
}

} // verus!
