//! Constraint expressions over the cells of the main circuit's rows, and their
//! evaluation modulo a field's characteristic.
use vstd::prelude::*;

verus! {

/// A column of the main circuit that a constraint can read.
#[derive(Clone, Copy, Debug, PartialEq, Eq, Structural)]
pub enum Column {
    /// The runtime-table value cell.
    LookupRuntimeTable,
    /// The runtime-table selector cell.
    LookupRuntimeSelector,
}

/// Which of the two rows a constraint relates a cell is read from.
#[derive(Clone, Copy, Debug, PartialEq, Eq, Structural)]
pub enum CurrOrNext {
    Curr,
    Next,
}

/// A constraint expression; a constraint holds when its expression is zero.
#[derive(Debug)]
pub enum Expr {
    /// The value of a column on the current or the next row.
    Cell(Column, CurrOrNext),
    /// The product of two expressions.
    Mul(Box<Expr>, Box<Expr>),
}

/// The values of the readable columns on one row.
#[derive(Clone, Copy, Debug, PartialEq, Eq, Structural)]
pub struct RowValues {
    pub runtime_table: u64,
    pub runtime_selector: u64,
}

/// The values of the readable columns on the current and the next row.
#[derive(Clone, Copy, Debug, PartialEq, Eq, Structural)]
pub struct Evaluations {
    pub curr: RowValues,
    pub next: RowValues,
}

impl Evaluations {
    /// The value of a column on a row.
    pub open spec fn spec_cell(self, col: Column, row: CurrOrNext) -> int {
        let values = match row {
            CurrOrNext::Curr => self.curr,
            CurrOrNext::Next => self.next,
        };
        match col {
            Column::LookupRuntimeTable => values.runtime_table as int,
            Column::LookupRuntimeSelector => values.runtime_selector as int,
        }
    }

    /// The value of a column on a row.
    pub fn cell(&self, col: Column, row: CurrOrNext) -> (r: u64)
        ensures
            r == self.spec_cell(col, row),
    {
        let values = match row {
            CurrOrNext::Curr => self.curr,
            CurrOrNext::Next => self.next,
        };
        match col {
            Column::LookupRuntimeTable => values.runtime_table,
            Column::LookupRuntimeSelector => values.runtime_selector,
        }
    }
}

impl Expr {
    /// The value of the expression over the integers.
    pub open spec fn value(&self, env: Evaluations) -> int
        decreases self,
    {
        match self {
            Expr::Cell(col, row) => env.spec_cell(*col, *row),
            Expr::Mul(a, b) => a.value(env) * b.value(env),
        }
    }

    /// The value of the expression modulo `modulus`.
    pub fn evaluate(&self, env: &Evaluations, modulus: u64) -> (r: u64)
        requires
            modulus > 0,
        ensures
            r == self.value(*env) % (modulus as int),
        decreases self,
    {
        match self {
            Expr::Cell(col, row) => env.cell(*col, *row) % modulus,
            Expr::Mul(a, b) => {
                let x = a.evaluate(env, modulus);
                let y = b.evaluate(env, modulus);
                assert((x as int) * (y as int) <= (u64::MAX as int) * (u64::MAX as int))
                    by (nonlinear_arith)
                    requires
                        x <= u64::MAX,
                        y <= u64::MAX,
                ;
                let p = (x as u128) * (y as u128);
                proof {
                    vstd::arithmetic::div_mod::lemma_mul_mod_noop_general(
                        a.value(*env),
                        b.value(*env),
                        modulus as int,
                    );
                }
                (p % (modulus as u128)) as u64
            },
        }
    }
}

} // verus!
