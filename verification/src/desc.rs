//! [`DFDesc`] pairs a default header/body decorator with an optional
//! per-column override list and the schema describing the dataframe's
//! shape. Its resolution rule decides which decorator applies to a cell:
//! an empty override list means the defaults everywhere; otherwise the
//! column's override where present, else the default for the role.
//!
//! The per-cell helpers fetch a cell's value, format it, resolve the
//! decorator and hand text and decorator to a pluggable dispatch hook.

use vstd::prelude::*;
use vstd::arithmetic::div_mod::lemma_fundamental_div_mod;
use vstd::arithmetic::div_mod::lemma_fundamental_div_mod_converse;

use egui::Ui;
use polars::prelude::DataFrame;

use crate::decor::Decorator;
use crate::frame::col_get;
use crate::frame::df_column;
use crate::frame::df_height;
use crate::frame::df_names;
use crate::frame::df_nrows;
use crate::frame::any_to_text;
use crate::schema::Schema;

verus! {

/// Which of the two default decorators a cell falls under.
#[derive(Debug, Clone, Copy, PartialEq, Eq, Structural)]
pub enum Role {
    /// A header cell.
    Head,
    /// A body cell.
    Body,
}

/// Per-cell dispatch: one method per role, each handed the resolved
/// decorator, the drawing surface, the cell's text and its row and column
/// index, returning whether the cell was consumed. The default dispatch
/// ([`DecoFs`]) paints with the decorator itself; a caller may substitute
/// any other implementation without altering resolution or iteration.
pub trait DecoHook {
    /// Paint one header cell.
    fn head(&mut self, d: &Decorator, ui: &mut Ui, tx: &str, ri: usize, ci: usize) -> bool
        requires
            d.wf(),
    ;

    /// Paint one body cell.
    fn body(&mut self, d: &Decorator, ui: &mut Ui, tx: &str, ri: usize, ci: usize) -> bool
        requires
            d.wf(),
    ;
}

/// The default dispatch: paint every cell with its resolved decorator.
pub struct DecoFs;

impl DecoFs {
    /// Paint `tx` with `d` and report the cell as consumed: the paint
    /// call always changes the surface.
    pub fn default(d: &Decorator, ui: &mut Ui, tx: &str, _ri: usize, _ci: usize) -> (consumed: bool)
        requires
            d.wf(),
        ensures
            consumed,
            *final(ui) != *old(ui),
    {
        let _resp_painter = d.disp(ui, tx);
        true
    }
}

impl DecoHook for DecoFs {
    fn head(&mut self, d: &Decorator, ui: &mut Ui, tx: &str, ri: usize, ci: usize) -> bool {
        Self::default(d, ui, tx, ri, ci)
    }

    fn body(&mut self, d: &Decorator, ui: &mut Ui, tx: &str, ri: usize, ci: usize) -> bool {
        Self::default(d, ui, tx, ri, ci)
    }
}

/// Decoration description of one dataframe: the always-present default
/// (header, body) decorator pair, the per-column override list and the
/// schema. An empty override list is the valid "defaults everywhere"
/// state; a non-empty one is index-aligned with the schema's columns.
#[derive(Debug)]
pub struct DFDesc {
    /// The default decorators: `.0` for headers, `.1` for body cells.
    pub default_deco: (Decorator, Decorator),
    /// Per-column overrides, index-aligned with the columns: `.0` for the
    /// header, `.1` for the body, either side absent to fall back.
    pub deco: Vec<(Option<Decorator>, Option<Decorator>)>,
    /// The described dataframe's shape.
    pub schema: Schema,
}

impl Clone for DFDesc {
    fn clone(&self) -> Self {
        DFDesc {
            default_deco: (self.default_deco.0.clone(), self.default_deco.1.clone()),
            deco: self.deco.clone(),
            schema: self.schema.clone(),
        }
    }
}

impl DFDesc {
    /// Well-formed: every decorator held carries its full color triple.
    pub open spec fn wf(&self) -> bool {
        &&& self.default_deco.0.wf()
        &&& self.default_deco.1.wf()
        &&& forall|i: int|
            0 <= i < self.deco@.len() ==> {
                &&& (self.deco@[i].0 is Some ==> self.deco@[i].0.unwrap().wf())
                &&& (self.deco@[i].1 is Some ==> self.deco@[i].1.unwrap().wf())
            }
    }

    /// The default decorator for a role.
    pub open spec fn spec_default(&self, role: Role) -> Decorator {
        match role {
            Role::Head => self.default_deco.0,
            Role::Body => self.default_deco.1,
        }
    }

    /// Column `i`'s override slot for a role.
    pub open spec fn spec_override(&self, i: int, role: Role) -> Option<Decorator> {
        match role {
            Role::Head => self.deco@[i].0,
            Role::Body => self.deco@[i].1,
        }
    }

    /// The decoration-resolution rule: an empty override list resolves to
    /// the default for the role; otherwise column `i`'s override where
    /// present, else the default.
    pub open spec fn spec_resolve(&self, i: int, role: Role) -> Decorator {
        if self.deco@.len() == 0 {
            self.spec_default(role)
        } else {
            match self.spec_override(i, role) {
                Some(d) => d,
                None => self.spec_default(role),
            }
        }
    }

    /// Construct a description with the given defaults and schema and no
    /// overrides yet; room for one override pair per column is reserved.
    pub fn new(default_deco: (Decorator, Decorator), schema: Schema) -> (d: DFDesc)
        ensures
            d.default_deco == default_deco,
            d.deco@.len() == 0,
            d.schema == schema,
    {
        let n = schema.len();
        DFDesc { default_deco, deco: Vec::with_capacity(n), schema }
    }

    /// Replace the override list wholesale (pipeline style). The caller
    /// keeps the list index-aligned with the schema's columns.
    pub fn all_from(self, deco: Vec<(Option<Decorator>, Option<Decorator>)>) -> (d: DFDesc)
        ensures
            d.default_deco == self.default_deco,
            d.schema == self.schema,
            d.deco == deco,
    {
        DFDesc { default_deco: self.default_deco, deco, schema: self.schema }
    }

    /// Append one all-absent override pair per schema column (pipeline
    /// style): every column then falls back to the defaults explicitly.
    pub fn all_default(self) -> (d: DFDesc)
        ensures
            d.default_deco == self.default_deco,
            d.schema == self.schema,
            d.deco@.len() == self.deco@.len() + self.schema@.len(),
            forall|i: int| 0 <= i < self.deco@.len() ==> d.deco@[i] == self.deco@[i],
            forall|i: int|
                self.deco@.len() <= i < d.deco@.len()
                    ==> d.deco@[i] == (None::<Decorator>, None::<Decorator>),
    {
        let ghost orig = self;
        let mut s = self;
        let n = s.schema.len();
        let mut k: usize = 0;
        while k < n
            invariant
                k <= n,
                n == orig.schema@.len(),
                s.default_deco == orig.default_deco,
                s.schema == orig.schema,
                s.deco@.len() == orig.deco@.len() + k,
                forall|i: int| 0 <= i < orig.deco@.len() ==> s.deco@[i] == orig.deco@[i],
                forall|i: int|
                    orig.deco@.len() <= i < s.deco@.len()
                        ==> s.deco@[i] == (None::<Decorator>, None::<Decorator>),
            decreases n - k,
        {
            s.push((None, None));
            k = k + 1;
        }
        s
    }

    /// Append one column's override pair.
    pub fn push(&mut self, deco: (Option<Decorator>, Option<Decorator>))
        ensures
            final(self).default_deco == old(self).default_deco,
            final(self).schema == old(self).schema,
            final(self).deco@ == old(self).deco@.push(deco),
    {
        self.deco.push(deco);
    }

    /// Resolve the decorator that applies to column `i` in the given role.
    pub fn resolve(&self, i: usize, role: Role) -> (d: &Decorator)
        requires
            self.deco@.len() == 0 || i < self.deco@.len(),
        ensures
            *d == self.spec_resolve(i as int, role),
            self.wf() ==> d.wf(),
    {
        if self.deco.len() == 0 {
            match role {
                Role::Head => &self.default_deco.0,
                Role::Body => &self.default_deco.1,
            }
        } else {
            let slot = &self.deco[i];
            let over = match role {
                Role::Head => &slot.0,
                Role::Body => &slot.1,
            };
            match over {
                Some(d) => d,
                None => match role {
                    Role::Head => &self.default_deco.0,
                    Role::Body => &self.default_deco.1,
                },
            }
        }
    }

    /// Paint the header cell of column `ci`: the cell's text is the
    /// column's name, decorated by the resolved header decorator and
    /// handed to the hook with row index 0.
    pub fn header_cell<H: DecoHook>(&self, hook: &mut H, ui: &mut Ui, name: &str, ci: usize) -> (consumed: bool)
        requires
            self.wf(),
            self.deco@.len() == 0 || ci < self.deco@.len(),
    {
        let d = self.resolve(ci, Role::Head);
        hook.head(d, ui, name, 0, ci)
    }

    /// Paint the body cell at (`ri`, `ci`): look the column up by `name`,
    /// fetch and format row `ri`'s value, resolve the body decorator and
    /// hand everything to the hook. A failed column lookup is skipped
    /// silently — the hook is not invoked, the surface is left untouched
    /// and `None` is returned; otherwise the hook's verdict is returned.
    pub fn body_cell<H: DecoHook>(&self, hook: &mut H, ui: &mut Ui, df: &DataFrame, name: &str, ri: usize, ci: usize) -> (r: Option<bool>)
        requires
            self.wf(),
            self.deco@.len() == 0 || ci < self.deco@.len(),
            ri < df_height(*df),
        ensures
            r is Some <==> df_names(*df).contains(name@),
            r is None ==> *final(ui) == *old(ui) && *final(hook) == *old(hook),
    {
        match df_column(df, name) {
            Some(col) => {
                let v = col_get(col, ri);
                let tx = any_to_text(&v);
                let d = self.resolve(ci, Role::Body);
                Some(hook.body(d, ui, tx.as_str(), ri, ci))
            },
            None => None,
        }
    }

    /// Paint the body cell at (`ri`, `ci`) if row `ri` exists: fetches the
    /// dataframe's row count itself and treats a row out of range like a
    /// failed column lookup — nothing is painted, the hook is not invoked
    /// and `None` is returned.
    pub fn body_cell_checked<H: DecoHook>(&self, hook: &mut H, ui: &mut Ui, df: &DataFrame, name: &str, ri: usize, ci: usize) -> (r: Option<bool>)
        requires
            self.wf(),
            self.deco@.len() == 0 || ci < self.deco@.len(),
        ensures
            r is Some <==> ri < df_height(*df) && df_names(*df).contains(name@),
            r is None ==> *final(ui) == *old(ui) && *final(hook) == *old(hook),
    {
        let n = df_nrows(df);
        if ri < n {
            self.body_cell(hook, ui, df, name, ri, ci)
        } else {
            None
        }
    }
}

/// Row-major enumeration of a table's cell positions: all (row, column)
/// pairs with `ri < nrows` and `ci < ncols`, rows outer, columns inner,
/// each pair exactly once — the order in which body cells are dispatched.
pub fn cell_positions(nrows: usize, ncols: usize) -> (r: Vec<(usize, usize)>)
    requires
        nrows * ncols <= usize::MAX,
    ensures
        r@.len() == nrows * ncols,
        forall|k: int|
            0 <= k < r@.len()
                ==> #[trigger] r@[k] == ((
                    (k / (ncols as int)) as usize,
                    (k % (ncols as int)) as usize,
                )),
{
    let mut r: Vec<(usize, usize)> = Vec::new();
    let mut ri: usize = 0;
    while ri < nrows
        invariant
            ri <= nrows,
            nrows * ncols <= usize::MAX,
            r@.len() == ri * ncols,
            forall|k: int|
                0 <= k < r@.len()
                    ==> #[trigger] r@[k] == ((
                        (k / (ncols as int)) as usize,
                        (k % (ncols as int)) as usize,
                    )),
        decreases nrows - ri,
    {
        proof {
            assert(ri * ncols + ncols <= nrows * ncols) by (nonlinear_arith)
                requires
                    ri < nrows,
            ;
        }
        let mut ci: usize = 0;
        while ci < ncols
            invariant
                ci <= ncols,
                ri < nrows,
                nrows * ncols <= usize::MAX,
                ri * ncols + ncols <= nrows * ncols,
                r@.len() == ri * ncols + ci,
                forall|k: int|
                    0 <= k < r@.len()
                        ==> #[trigger] r@[k] == ((
                            (k / (ncols as int)) as usize,
                            (k % (ncols as int)) as usize,
                        )),
            decreases ncols - ci,
        {
            proof {
                lemma_fundamental_div_mod_converse(
                    ri * ncols + ci,
                    ncols as int,
                    ri as int,
                    ci as int,
                );
            }
            r.push((ri, ci));
            ci = ci + 1;
        }
        ri = ri + 1;
        proof {
            assert((ri - 1) * ncols + ncols == ri * ncols) by (nonlinear_arith);
        }
    }
    r
}

/// Each cell appears exactly once in the row-major enumeration: two
/// positions that decode to the same (row, column) pair are the same
/// position.
pub proof fn lemma_cell_positions_distinct(ncols: int, k1: int, k2: int)
    requires
        0 < ncols,
        0 <= k1,
        0 <= k2,
        k1 / ncols == k2 / ncols,
        k1 % ncols == k2 % ncols,
    ensures
        k1 == k2,
{
    lemma_fundamental_div_mod(k1, ncols);
    lemma_fundamental_div_mod(k2, ncols);
}

/// The row-major enumeration places the cell (i, j) at position
/// `i * ncols + j`: decoding that position yields (i, j) back.
pub proof fn lemma_cell_positions_index(ncols: int, i: int, j: int)
    requires
        0 <= i,
        0 <= j < ncols,
    ensures
        (i * ncols + j) / ncols == i,
        (i * ncols + j) % ncols == j,
{
    lemma_fundamental_div_mod_converse(i * ncols + j, ncols, i, j);
}

/// With an empty override list, every column of either role resolves to
/// the default decorator for that role.
pub proof fn lemma_empty_overrides_default(d: DFDesc, i: int, role: Role)
    requires
        d.deco@.len() == 0,
    ensures
        d.spec_resolve(i, role) == d.spec_default(role),
{
}

/// Round trip: on a description whose override list is `ov` (as
/// `all_from(ov)` leaves it, non-empty), every (column, role) resolves to
/// `ov`'s entry where present and to the default for the role where
/// absent.
pub proof fn lemma_all_from_round_trip(d: DFDesc, ov: Seq<(Option<Decorator>, Option<Decorator>)>, i: int, role: Role)
    requires
        d.deco@ == ov,
        0 < ov.len(),
        0 <= i < ov.len(),
    ensures
        d.spec_override(i, role) is Some ==> d.spec_resolve(i, role) == d.spec_override(i, role).unwrap(),
        d.spec_override(i, role) is None ==> d.spec_resolve(i, role) == d.spec_default(role),
{
}

/// An all-absent override list and an empty one are observationally
/// equivalent: each resolves every (column, role) to the role's default.
pub proof fn lemma_all_absent_like_empty(d: DFDesc, i: int, role: Role)
    requires
        0 <= i < d.deco@.len(),
        d.deco@[i] == (None::<Decorator>, None::<Decorator>),
    ensures
        d.spec_resolve(i, role) == d.spec_default(role),
{
}

} // verus!
