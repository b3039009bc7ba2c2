//! Access to a `polars` dataframe, narrowed to what cell rendering
//! reads: the row count, the ordered column names, column lookup by name
//! and per-row value retrieval with its display formatting.
//!
//! The dataframe itself stays opaque; its observable content is named by
//! uninterpreted spec functions that the trusted wrappers below relate to
//! the calls they make.

use vstd::prelude::*;

use polars::prelude::AnyValue;
use polars::prelude::Column;
use polars::prelude::DataFrame;
use polars::prelude::PolarsError;

verus! {

#[verifier::external_type_specification]
#[verifier::external_body]
pub struct ExPolarsError(PolarsError);

#[verifier::external_type_specification]
#[verifier::external_body]
pub struct ExDataFrame(DataFrame);

#[verifier::external_type_specification]
#[verifier::external_body]
pub struct ExColumn(Column);

#[verifier::external_type_specification]
#[verifier::external_body]
pub struct ExAnyValue<'a>(AnyValue<'a>);

/// The number of rows a dataframe holds.
pub uninterp spec fn df_height(df: DataFrame) -> nat;

/// The dataframe's column names, in column order.
pub uninterp spec fn df_names(df: DataFrame) -> Seq<Seq<char>>;

/// The number of values a column holds.
pub uninterp spec fn col_len(c: Column) -> nat;

/// Relies on polars' `DataFrame::height`: the number of rows.
#[verifier::external_body]
pub(crate) fn df_nrows(df: &DataFrame) -> (n: usize)
    ensures
        n == df_height(*df),
{
    df.height()
}

/// Relies on polars' `DataFrame::column`: `Ok` exactly when a column of
/// that name exists; every column of a dataframe has the dataframe's
/// height, since a dataframe's columns all share one length.
#[verifier::external_body]
pub(crate) fn df_column<'a>(df: &'a DataFrame, name: &str) -> (r: Option<&'a Column>)
    ensures
        r is Some <==> df_names(*df).contains(name@),
        r is Some ==> col_len(*r.unwrap()) == df_height(*df),
{
    df.column(name).ok()
}

/// Relies on polars' `Column::get`: returns the value at `i`, which the
/// precondition keeps in bounds, so the call cannot fail.
#[verifier::external_body]
pub(crate) fn col_get<'a>(c: &'a Column, i: usize) -> (v: AnyValue<'a>)
    requires
        i < col_len(*c),
{
    c.get(i).unwrap()
}

/// Relies on polars' `Display` for `AnyValue`: formats the value as its
/// human-readable display text. The exact text follows polars' display
/// conventions (including its process-wide float formatting settings), so
/// nothing further is claimed of it.
#[verifier::external_body]
pub(crate) fn any_to_text(v: &AnyValue<'_>) -> String {
    format!("{}", v)
}

} // verus!
