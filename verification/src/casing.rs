use vstd::prelude::*;

verus! {

/// The PascalCase form of an identifier, as `convert_case` computes it.
/// The result depends on the characters of the input alone.
pub uninterp spec fn pascal_of(s: Seq<char>) -> Seq<char>;

/// The camelCase form of an identifier, as `convert_case` computes it.
/// The result depends on the characters of the input alone.
pub uninterp spec fn camel_of(s: Seq<char>) -> Seq<char>;

/// The UPPER_SNAKE_CASE form of an identifier, as `convert_case` computes it.
/// The result depends on the characters of the input alone.
pub uninterp spec fn upper_snake_of(s: Seq<char>) -> Seq<char>;

/// Relies on convert_case's `Casing::to_case` with `Case::Pascal`:
/// a pure function of the input string's characters.
#[verifier::external_body]
pub fn to_pascal(s: &str) -> (r: String)
    ensures
        r@ == pascal_of(s@),
{
    convert_case::Casing::to_case(&s, convert_case::Case::Pascal)
}

/// Relies on convert_case's `Casing::to_case` with `Case::Camel`:
/// a pure function of the input string's characters.
#[verifier::external_body]
pub fn to_camel(s: &str) -> (r: String)
    ensures
        r@ == camel_of(s@),
{
    convert_case::Casing::to_case(&s, convert_case::Case::Camel)
}

/// Relies on convert_case's `Casing::to_case` with `Case::UpperSnake`:
/// a pure function of the input string's characters.
#[verifier::external_body]
pub fn to_upper_snake(s: &str) -> (r: String)
    ensures
        r@ == upper_snake_of(s@),
{
    convert_case::Casing::to_case(&s, convert_case::Case::UpperSnake)
}

} // verus!
