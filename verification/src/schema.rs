//! A minimal model of a dataframe's shape: the ordered list of column
//! names and coarse column types. Only the order and the length are read
//! by the rest of the crate; the type tags merely describe the columns.

use vstd::prelude::*;

verus! {

/// Coarse tag for a column's element type.
#[derive(Debug, Clone, Copy, PartialEq, Eq, Structural)]
pub enum ColType {
    /// Boolean values.
    Bool,
    /// Signed integers.
    Int,
    /// Unsigned integers.
    UInt,
    /// Floating-point values.
    Float,
    /// Text values.
    Text,
    /// Anything else (dates, nested values, ...).
    Other,
}

/// Ordered description of a dataframe's columns: one (name, type) pair per
/// column, in the dataframe's column order.
#[derive(Debug, Clone)]
pub struct Schema {
    /// The (columnName, columnType) pairs, in column order.
    pub fields: Vec<(String, ColType)>,
}

impl Schema {
    /// The abstract value: the ordered sequence of (name, type) pairs.
    pub open spec fn view(&self) -> Seq<(Seq<char>, ColType)> {
        self.fields@.map_values(|f: (String, ColType)| (f.0@, f.1))
    }

    /// An empty schema.
    pub fn new() -> (s: Schema)
        ensures
            s@.len() == 0,
    {
        Schema { fields: Vec::new() }
    }

    /// Number of columns described.
    pub fn len(&self) -> (n: usize)
        ensures
            n == self@.len(),
    {
        self.fields.len()
    }

    /// Append one column description.
    pub fn push(&mut self, name: String, ty: ColType)
        ensures
            final(self)@ == old(self)@.push((name@, ty)),
    {
        self.fields.push((name, ty));
        proof {
            assert(final(self)@ =~= old(self)@.push((name@, ty)));
        }
    }
}

} // verus!
