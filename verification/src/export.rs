//! The records of a CSV document.
//!
//! A document is a sequence of records, a record a sequence of cells. A cell
//! is a text or a number; how a number is written out is left to whoever
//! writes the document.

use vstd::prelude::*;
use crate::number::Real;

verus! {

/// One cell of a record.
#[derive(Debug, PartialEq)]
pub enum Cell {
    Number(Real),
    Text(String),
}

/// What a cell holds.
pub enum CellValue {
    Number(Real),
    Text(Seq<char>),
}

impl View for Cell {
    type V = CellValue;

    open spec fn view(&self) -> CellValue {
        match self {
            Cell::Number(r) => CellValue::Number(*r),
            Cell::Text(s) => CellValue::Text(s@),
        }
    }
}

/// What the cells of a record hold.
pub open spec fn record_view(record: Seq<Cell>) -> Seq<CellValue> {
    Seq::new(record.len(), |i: int| record[i]@)
}

/// A CSV document: its records, the header first.
#[derive(Debug, PartialEq)]
pub struct CsvDocument {
    pub records: Vec<Vec<Cell>>,
}

impl View for CsvDocument {
    type V = Seq<Seq<CellValue>>;

    open spec fn view(&self) -> Seq<Seq<CellValue>> {
        Seq::new(self.records@.len(), |i: int| record_view(self.records@[i]@))
    }
}

impl Cell {
    pub fn text(s: &str) -> (cell: Cell)
        ensures
            cell@ == CellValue::Text(s@),
    {
        Cell::Text(String::from_str(s))
    }
}

} // verus!
