//! Typed decoding of the cells of one result row.

use vstd::prelude::*;
use vstd::utf8::{decode_utf8, valid_utf8};

verus! {

/// One cell of a result row, as the store hands it over. A floating-point
/// cell is carried without its value: no column read here may hold one.
#[derive(Debug, Clone)]
pub enum Cell {
    Null,
    Integer(i64),
    Real,
    Text(Vec<u8>),
    Blob(Vec<u8>),
}

/// Why a row could not be mapped onto a record, with the column at fault.
#[derive(Debug, Clone, Copy, PartialEq, Eq, Structural)]
pub enum MalformedRow {
    /// The row has no column at this index.
    Missing(usize),
    /// The column holds a value of another primitive shape.
    WrongShape(usize),
}

/// A non-negative integer cell, as an unsigned 64-bit value.
pub open spec fn u64_of(c: Cell) -> Option<u64> {
    match c {
        Cell::Integer(i) => if i >= 0 { Some(i as u64) } else { None },
        _ => None,
    }
}

/// An integer cell that fits a `usize`.
pub open spec fn usize_of(c: Cell) -> Option<usize> {
    match c {
        Cell::Integer(i) => if 0 <= i <= usize::MAX { Some(i as usize) } else { None },
        _ => None,
    }
}

/// A text cell whose bytes are valid UTF-8, as characters.
pub open spec fn text_of(c: Cell) -> Option<Seq<char>> {
    match c {
        Cell::Text(b) => if valid_utf8(b@) { Some(decode_utf8(b@)) } else { None },
        _ => None,
    }
}

/// Reading column `col` of `row` with `decode`: absent, of the wrong shape, or a value.
pub open spec fn column<T>(row: Seq<Cell>, col: usize, decode: spec_fn(Cell) -> Option<T>) -> Result<T, MalformedRow> {
    if col >= row.len() {
        Err(MalformedRow::Missing(col))
    } else {
        match decode(row[col as int]) {
            Some(v) => Ok(v),
            None => Err(MalformedRow::WrongShape(col)),
        }
    }
}

/// Relies on `String::from_utf8`: it succeeds exactly on valid UTF-8 and then
/// holds the characters that the bytes encode.
#[verifier::external_body]
fn utf8_string(b: &Vec<u8>) -> (r: Option<String>)
    ensures
        r is Some <==> valid_utf8(b@),
        r matches Some(s) ==> s@ == decode_utf8(b@),
{
    String::from_utf8(b.clone()).ok()
}

/// Reads column `col` as an unsigned 64-bit integer.
pub fn read_u64(row: &Vec<Cell>, col: usize) -> (r: Result<u64, MalformedRow>)
    ensures
        r == column(row@, col, |c: Cell| u64_of(c)),
{
    if col >= row.len() {
        return Err(MalformedRow::Missing(col));
    }
    match &row[col] {
        Cell::Integer(i) => {
            if *i >= 0 {
                Ok(*i as u64)
            } else {
                Err(MalformedRow::WrongShape(col))
            }
        },
        _ => Err(MalformedRow::WrongShape(col)),
    }
}

/// Reads column `col` as a `usize`.
pub fn read_usize(row: &Vec<Cell>, col: usize) -> (r: Result<usize, MalformedRow>)
    ensures
        r == column(row@, col, |c: Cell| usize_of(c)),
{
    if col >= row.len() {
        return Err(MalformedRow::Missing(col));
    }
    match &row[col] {
        Cell::Integer(i) => {
            if 0 <= *i && *i as i128 <= usize::MAX as i128 {
                Ok(*i as usize)
            } else {
                Err(MalformedRow::WrongShape(col))
            }
        },
        _ => Err(MalformedRow::WrongShape(col)),
    }
}

/// Reads column `col` as a string.
pub fn read_text(row: &Vec<Cell>, col: usize) -> (r: Result<String, MalformedRow>)
    ensures
        match column(row@, col, |c: Cell| text_of(c)) {
            Ok(t) => r matches Ok(s) && s@ == t,
            Err(e) => r == Err::<String, MalformedRow>(e),
        },
{
    if col >= row.len() {
        return Err(MalformedRow::Missing(col));
    }
    match &row[col] {
        Cell::Text(b) => match utf8_string(b) {
            Some(s) => Ok(s),
            None => Err(MalformedRow::WrongShape(col)),
        },
        _ => Err(MalformedRow::WrongShape(col)),
    }
}

} // verus!
