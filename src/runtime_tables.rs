//! Runtime tables: lookup tables whose contents are produced during proof
//! creation. The setup prepares for them with [`RuntimeTableCfg`]; at proving
//! time the prover supplies each one as a [`RuntimeTable`].
use vstd::prelude::*;

use crate::expr::{Column, CurrOrNext, Evaluations, Expr};

verus! {

/// The specification of a runtime table.
#[derive(Clone, Copy, Debug, PartialEq, Eq, Structural)]
pub struct RuntimeTableSpec {
    /// The table ID.
    pub id: i32,
    /// The number of entries contained in the runtime table.
    pub len: usize,
}

/// Use this type at setup time, to list all the runtime tables.
///
/// Note: table IDs share one namespace with the IDs of the other kinds of
/// lookup tables; nothing here keeps them apart.
#[derive(Clone, Debug)]
pub struct RuntimeTableCfg<F> {
    /// The table ID.
    pub id: i32,
    /// The content of the first column of the runtime table.
    pub first_column: Vec<F>,
}

impl<F> RuntimeTableCfg<F> {
    /// Returns the ID of the runtime table.
    pub fn id(&self) -> (r: i32)
        ensures
            r == self.id,
    {
        self.id
    }

    /// Returns the length of the runtime table.
    pub fn len(&self) -> (r: usize)
        ensures
            r == self.first_column@.len(),
    {
        self.first_column.len()
    }

    /// Returns `true` if the runtime table is empty.
    pub fn is_empty(&self) -> (r: bool)
        ensures
            r == (self.first_column@.len() == 0),
    {
        self.first_column.len() == 0
    }

    /// The shape of the table: its ID and its length.
    pub open spec fn shape(&self) -> RuntimeTableSpec {
        RuntimeTableSpec { id: self.id, len: self.first_column.len() }
    }

    /// Whether `table` is the prover-time table for this configuration: the
    /// same ID and as many entries as the first column.
    pub fn matches(&self, table: &RuntimeTable<F>) -> (r: bool)
        ensures
            r == (table.id == self.id && table.data@.len() == self.first_column@.len()),
    {
        table.id == self.id && table.data.len() == self.first_column.len()
    }
}

impl<F> From<RuntimeTableCfg<F>> for RuntimeTableSpec {
    /// Keeps the ID and the length of the first column, and drops its contents.
    fn from(rt_cfg: RuntimeTableCfg<F>) -> (r: Self)
        ensures
            r == rt_cfg.shape(),
    {
        RuntimeTableSpec { id: rt_cfg.id, len: rt_cfg.first_column.len() }
    }
}

impl<F> vstd::std_specs::convert::FromSpecImpl<RuntimeTableCfg<F>> for RuntimeTableSpec {
    open spec fn obeys_from_spec() -> bool {
        true
    }

    open spec fn from_spec(rt_cfg: RuntimeTableCfg<F>) -> Self {
        rt_cfg.shape()
    }
}

/// A runtime table. Runtime tables must match the configuration
/// that was specified in [`RuntimeTableCfg`].
#[derive(Clone, Debug)]
pub struct RuntimeTable<F> {
    /// The table id.
    pub id: i32,
    /// A single column.
    pub data: Vec<F>,
}

/// The shape in which a runtime table crosses into a host-language binding.
#[derive(Clone, Debug)]
pub struct CamlRuntimeTable<CamlF> {
    pub id: i32,
    pub data: Vec<CamlF>,
}

impl<F> From<RuntimeTable<F>> for CamlRuntimeTable<F> {
    /// Moves the ID and the entries over unchanged.
    fn from(t: RuntimeTable<F>) -> (r: Self)
        ensures
            r.id == t.id,
            r.data@ == t.data@,
    {
        CamlRuntimeTable { id: t.id, data: t.data }
    }
}

impl<F> vstd::std_specs::convert::FromSpecImpl<RuntimeTable<F>> for CamlRuntimeTable<F> {
    open spec fn obeys_from_spec() -> bool {
        true
    }

    open spec fn from_spec(t: RuntimeTable<F>) -> Self {
        CamlRuntimeTable { id: t.id, data: t.data }
    }
}

impl<F> From<CamlRuntimeTable<F>> for RuntimeTable<F> {
    /// Moves the ID and the entries over unchanged.
    fn from(t: CamlRuntimeTable<F>) -> (r: Self)
        ensures
            r.id == t.id,
            r.data@ == t.data@,
    {
        RuntimeTable { id: t.id, data: t.data }
    }
}

impl<F> vstd::std_specs::convert::FromSpecImpl<CamlRuntimeTable<F>> for RuntimeTable<F> {
    open spec fn obeys_from_spec() -> bool {
        true
    }

    open spec fn from_spec(t: CamlRuntimeTable<F>) -> Self {
        RuntimeTable { id: t.id, data: t.data }
    }
}

/// Projecting a configuration keeps its ID and the length of its first
/// column, whatever the column holds: configurations that differ only in
/// the contents of their first column project to the same specification.
pub proof fn lemma_projection<F>(a: RuntimeTableCfg<F>, b: RuntimeTableCfg<F>)
    requires
        a.id == b.id,
        a.first_column@.len() == b.first_column@.len(),
    ensures
        a.shape() == b.shape(),
        a.shape().id == a.id,
        a.shape().len == a.first_column@.len(),
{
}

/// The runtime-table check: the product of the runtime-table value cell and
/// the runtime-table selector cell, both on the current row.
pub open spec fn runtime_table_check() -> Expr {
    Expr::Mul(
        Box::new(Expr::Cell(Column::LookupRuntimeTable, CurrOrNext::Curr)),
        Box::new(Expr::Cell(Column::LookupRuntimeSelector, CurrOrNext::Curr)),
    )
}

/// Returns the constraints related to the runtime tables: the single
/// constraint `runtime_table * selector = 0`, so that the runtime-table cell
/// may hold a value only on rows whose selector is 0.
pub fn constraints() -> (r: Vec<Expr>)
    ensures
        r@ == seq![runtime_table_check()],
{
    let rt_check = Expr::Mul(
        Box::new(Expr::Cell(Column::LookupRuntimeTable, CurrOrNext::Curr)),
        Box::new(Expr::Cell(Column::LookupRuntimeSelector, CurrOrNext::Curr)),
    );
    let mut r: Vec<Expr> = Vec::new();
    r.push(rt_check);
    assert(r@ =~= seq![runtime_table_check()]);
    r
}

/// The runtime-table constraint, evaluated in a field of characteristic
/// `modulus` on a row whose selector is 0 or 1 and whose value is reduced,
/// is violated exactly when the selector is on and the value is not zero.
pub proof fn lemma_runtime_table_constraint(env: Evaluations, modulus: int)
    requires
        modulus > 1,
        env.curr.runtime_table < modulus,
        env.curr.runtime_selector <= 1,
    ensures
        (runtime_table_check().value(env) % modulus != 0) <==> (env.curr.runtime_selector == 1
            && env.curr.runtime_table != 0),
{
    let v = env.curr.runtime_table as int;
    let s = env.curr.runtime_selector as int;
    assert(Expr::Cell(Column::LookupRuntimeTable, CurrOrNext::Curr).value(env) == v);
    assert(Expr::Cell(Column::LookupRuntimeSelector, CurrOrNext::Curr).value(env) == s);
    assert(runtime_table_check().value(env) == v * s);
    if s == 0 {
        assert(v * s == 0) by (nonlinear_arith)
            requires
                s == 0,
        ;
    } else {
        assert(s == 1);
        assert(v * s == v) by (nonlinear_arith)
            requires
                s == 1,
        ;
        vstd::arithmetic::div_mod::lemma_small_mod(v as nat, modulus as nat);
    }
}

} // verus!
