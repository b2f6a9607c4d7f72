//! What the column stores of all datasets share: how a column is read as a
//! sequence of plain values, and how a schema gates what is written to it.

use crate::schema::Table;
use vstd::prelude::*;

verus! {

/// The bytes of an optional byte string.
pub open spec fn bytes_of(value: Option<Vec<u8>>) -> Option<Seq<u8>> {
    match value {
        Some(bytes) => Some(bytes@),
        None => None,
    }
}

/// The text of an optional string.
pub open spec fn text_of(value: Option<String>) -> Option<Seq<char>> {
    match value {
        Some(text) => Some(text@),
        None => None,
    }
}

/// A column of byte strings, read as plain values.
pub open spec fn byte_strings(column: Seq<Vec<u8>>) -> Seq<Seq<u8>> {
    Seq::new(column.len(), |i: int| column[i]@)
}

/// A column of optional byte strings, read as plain values.
pub open spec fn optional_byte_strings(column: Seq<Option<Vec<u8>>>) -> Seq<Option<Seq<u8>>> {
    Seq::new(column.len(), |i: int| bytes_of(column[i]))
}

/// A column of strings, read as plain values.
pub open spec fn texts(column: Seq<String>) -> Seq<Seq<char>> {
    Seq::new(column.len(), |i: int| column[i]@)
}

/// A column of optional strings, read as plain values.
pub open spec fn optional_texts(column: Seq<Option<String>>) -> Seq<Option<Seq<char>>> {
    Seq::new(column.len(), |i: int| text_of(column[i]))
}

/// The column after `values` were offered to it: they are appended where
/// `schema` asks for the column `name`, and the column is left alone where it
/// does not.
pub open spec fn stored<T>(column: Seq<T>, schema: Table, name: Seq<char>, values: Seq<T>) -> Seq<
    T,
> {
    if schema.wants(name) {
        column + values
    } else {
        column
    }
}

/// Whether a column of a store with `n_rows` rows is in step with `schema`:
/// as long as the row counter where the schema asks for it, empty where not.
pub open spec fn in_step<T>(column: Seq<T>, schema: Table, name: Seq<char>, n_rows: nat) -> bool {
    column.len() == if schema.wants(name) {
        n_rows
    } else {
        0
    }
}

/// Offers `value` to a column: it is appended where `schema` asks for the
/// column `name`.
pub fn store<T>(column: &mut Vec<T>, schema: &Table, name: &str, value: T)
    ensures
        final(column)@ == stored(old(column)@, *schema, name@, seq![value]),
{
    if schema.has_column(name) {
        column.push(value);
    }
}

/// Offers a byte string, or its absence, to a column: a copy is appended
/// where `schema` asks for the column `name`.
pub fn store_bytes(
    column: &mut Vec<Option<Vec<u8>>>,
    schema: &Table,
    name: &str,
    value: Option<&Vec<u8>>,
)
    ensures
        optional_byte_strings(final(column)@) == stored(
            optional_byte_strings(old(column)@),
            *schema,
            name@,
            seq![
                match value {
                    Some(bytes) => Some(bytes@),
                    None => None,
                },
            ],
        ),
{
    if schema.has_column(name) {
        let copy = match value {
            Some(bytes) => Some(clone_bytes(bytes)),
            None => None,
        };
        column.push(copy);
        assert(optional_byte_strings(column@) =~= optional_byte_strings(old(column)@) + seq![
            bytes_of(copy),
        ]);
    }
}

/// Offers a byte string to a column: it is appended where `schema` asks for
/// the column `name`.
pub fn store_byte_string(column: &mut Vec<Vec<u8>>, schema: &Table, name: &str, value: Vec<u8>)
    ensures
        byte_strings(final(column)@) == stored(
            byte_strings(old(column)@),
            *schema,
            name@,
            seq![value@],
        ),
{
    if schema.has_column(name) {
        column.push(value);
        assert(byte_strings(column@) =~= byte_strings(old(column)@) + seq![value@]);
    }
}

/// Offers a string, or its absence, to a column: it is appended where
/// `schema` asks for the column `name`.
pub fn store_text(
    column: &mut Vec<Option<String>>,
    schema: &Table,
    name: &str,
    value: Option<String>,
)
    ensures
        optional_texts(final(column)@) == stored(
            optional_texts(old(column)@),
            *schema,
            name@,
            seq![text_of(value)],
        ),
{
    if schema.has_column(name) {
        column.push(value);
        assert(optional_texts(column@) =~= optional_texts(old(column)@) + seq![text_of(value)]);
    }
}

/// A copy of `bytes`.
pub fn clone_bytes(bytes: &Vec<u8>) -> (copy: Vec<u8>)
    ensures
        copy@ == bytes@,
{
    let copy = bytes.clone();
    assert(copy@ =~= bytes@);
    copy
}

} // verus!
