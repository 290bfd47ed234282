use vstd::prelude::*;

use crate::error::{DecodeError, ErrorView};
use crate::text::str_eq;

verus! {

/// A stored column value, as the data store hands it over: text or a
/// 32-bit signed integer. An enum-coded column arrives as the text of its
/// discriminant.
#[derive(Debug, Clone)]
pub enum ColumnValue {
    Text(String),
    Integer(i32),
}

/// Mathematical image of a stored value.
pub enum ValueView {
    Text(Seq<char>),
    Integer(i32),
}

impl View for ColumnValue {
    type V = ValueView;

    open spec fn view(&self) -> ValueView {
        match self {
            ColumnValue::Text(t) => ValueView::Text(t@),
            ColumnValue::Integer(n) => ValueView::Integer(*n),
        }
    }
}

/// One named column of a row.
#[derive(Debug, Clone)]
pub struct Column {
    pub name: String,
    pub value: ColumnValue,
}

/// Mathematical image of a column.
pub struct ColumnView {
    pub name: Seq<char>,
    pub value: ValueView,
}

impl View for Column {
    type V = ColumnView;

    open spec fn view(&self) -> ColumnView {
        ColumnView { name: self.name@, value: self.value@ }
    }
}

/// One record of a query result: named, typed columns in projection order.
#[derive(Debug, Clone)]
pub struct Row {
    pub columns: Vec<Column>,
}

impl View for Row {
    type V = Seq<ColumnView>;

    open spec fn view(&self) -> Seq<ColumnView> {
        self.columns@.map_values(|c: Column| c@)
    }
}

/// The stored value of the first column of this name, if the row has one.
pub open spec fn lookup(cols: Seq<ColumnView>, name: Seq<char>) -> Option<ValueView>
    decreases cols.len(),
{
    if cols.len() == 0 {
        None
    } else if cols[0].name == name {
        Some(cols[0].value)
    } else {
        lookup(cols.drop_first(), name)
    }
}

/// Reading a named column as text: the column may be absent, hold a value
/// of the wrong type, or yield its text.
pub open spec fn spec_get_text(cols: Seq<ColumnView>, name: Seq<char>) -> Result<
    Seq<char>,
    ErrorView,
> {
    match lookup(cols, name) {
        Option::None => Err(ErrorView::ColumnMissing(name)),
        Option::Some(ValueView::Text(t)) => Ok(t),
        Option::Some(ValueView::Integer(_)) => Err(ErrorView::TypeMismatch(name)),
    }
}

/// Reading a named column as a 32-bit integer, with the same failure cases.
pub open spec fn spec_get_i32(cols: Seq<ColumnView>, name: Seq<char>) -> Result<i32, ErrorView> {
    match lookup(cols, name) {
        Option::None => Err(ErrorView::ColumnMissing(name)),
        Option::Some(ValueView::Integer(n)) => Ok(n),
        Option::Some(ValueView::Text(_)) => Err(ErrorView::TypeMismatch(name)),
    }
}

impl Row {
    /// Read the named column as text. The first column of that name
    /// decides; a missing column and a non-text stored value are the two
    /// failure cases.
    pub fn get_text(&self, name: &str) -> (r: Result<String, DecodeError>)
        ensures
            match r {
                Ok(t) => spec_get_text(self@, name@) == Ok::<Seq<char>, ErrorView>(t@),
                Err(e) => spec_get_text(self@, name@) == Err::<Seq<char>, ErrorView>(e@),
            },
    {
        let n: usize = self.columns.len();
        let mut i: usize = 0;
        proof {
            assert(self@.skip(0) =~= self@);
        }
        while i < n
            invariant
                0 <= i <= n,
                n == self.columns.len(),
                lookup(self@, name@) == lookup(self@.skip(i as int), name@),
            decreases n - i,
        {
            let col = &self.columns[i];
            proof {
                assert(self@.skip(i as int)[0] == self@[i as int]);
            }
            if str_eq(col.name.as_str(), name) {
                match &col.value {
                    ColumnValue::Text(t) => {
                        return Ok(t.clone());
                    },
                    ColumnValue::Integer(_) => {
                        return Err(DecodeError::TypeMismatch { column: name.to_owned() });
                    },
                }
            }
            proof {
                assert(self@.skip(i as int).drop_first() =~= self@.skip(i as int + 1));
            }
            i += 1;
        }
        proof {
            assert(self@.skip(n as int) =~= Seq::<ColumnView>::empty());
        }
        Err(DecodeError::ColumnMissing { column: name.to_owned() })
    }

    /// Read the named column as a 32-bit integer, symmetrically to
    /// [`Row::get_text`].
    pub fn get_i32(&self, name: &str) -> (r: Result<i32, DecodeError>)
        ensures
            match r {
                Ok(v) => spec_get_i32(self@, name@) == Ok::<i32, ErrorView>(v),
                Err(e) => spec_get_i32(self@, name@) == Err::<i32, ErrorView>(e@),
            },
    {
        let n: usize = self.columns.len();
        let mut i: usize = 0;
        proof {
            assert(self@.skip(0) =~= self@);
        }
        while i < n
            invariant
                0 <= i <= n,
                n == self.columns.len(),
                lookup(self@, name@) == lookup(self@.skip(i as int), name@),
            decreases n - i,
        {
            let col = &self.columns[i];
            proof {
                assert(self@.skip(i as int)[0] == self@[i as int]);
            }
            if str_eq(col.name.as_str(), name) {
                match &col.value {
                    ColumnValue::Integer(v) => {
                        return Ok(*v);
                    },
                    ColumnValue::Text(_) => {
                        return Err(DecodeError::TypeMismatch { column: name.to_owned() });
                    },
                }
            }
            proof {
                assert(self@.skip(i as int).drop_first() =~= self@.skip(i as int + 1));
            }
            i += 1;
        }
        proof {
            assert(self@.skip(n as int) =~= Seq::<ColumnView>::empty());
        }
        Err(DecodeError::ColumnMissing { column: name.to_owned() })
    }
}

} // verus!
