use vstd::prelude::*;

verus! {

/// Why a row failed to decode. The taxonomy is fixed: the named column is
/// absent from the row, the column is present but its stored value has the
/// wrong type, or the value was read but the target domain type rejects it
/// (an unknown currency-type discriminant, timestamp text that is not a
/// non-negative integer).
#[derive(Debug, Clone)]
pub enum DecodeError {
    ColumnMissing { column: String },
    TypeMismatch { column: String },
    ValueRejected { column: String },
}

/// Mathematical image of a `DecodeError`: the same three cases over the
/// column name's character sequence.
pub enum ErrorView {
    ColumnMissing(Seq<char>),
    TypeMismatch(Seq<char>),
    ValueRejected(Seq<char>),
}

impl View for DecodeError {
    type V = ErrorView;

    open spec fn view(&self) -> ErrorView {
        match self {
            DecodeError::ColumnMissing { column } => ErrorView::ColumnMissing(column@),
            DecodeError::TypeMismatch { column } => ErrorView::TypeMismatch(column@),
            DecodeError::ValueRejected { column } => ErrorView::ValueRejected(column@),
        }
    }
}

impl DecodeError {
    /// The name of the column the error points at.
    pub fn column(&self) -> (r: &String)
        ensures
            self@ matches ErrorView::ColumnMissing(c) ==> r@ == c,
            self@ matches ErrorView::TypeMismatch(c) ==> r@ == c,
            self@ matches ErrorView::ValueRejected(c) ==> r@ == c,
    {
        match self {
            DecodeError::ColumnMissing { column } => column,
            DecodeError::TypeMismatch { column } => column,
            DecodeError::ValueRejected { column } => column,
        }
    }
}

} // verus!
