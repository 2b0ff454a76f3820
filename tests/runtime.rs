use trace_columns::expr::{Column, CurrOrNext, Evaluations, Expr, RowValues};
use trace_columns::runtime_tables::{
    constraints, CamlRuntimeTable, RuntimeTable, RuntimeTableCfg, RuntimeTableSpec,
};

const P: u64 = 0xffff_ffff_0000_0001;

fn env(value: u64, selector: u64) -> Evaluations {
    Evaluations {
        curr: RowValues { runtime_table: value, runtime_selector: selector },
        next: RowValues { runtime_table: 11, runtime_selector: 13 },
    }
}

#[test]
fn configuration_accessors() {
    let cfg = RuntimeTableCfg { id: 7, first_column: vec![1u64, 2, 3] };
    assert_eq!(cfg.id(), 7);
    assert_eq!(cfg.len(), 3);
    assert!(!cfg.is_empty());
    let empty: RuntimeTableCfg<u64> = RuntimeTableCfg { id: -1, first_column: vec![] };
    assert_eq!(empty.len(), 0);
    assert!(empty.is_empty());
}

#[test]
fn configuration_projects_to_specification() {
    let cfg = RuntimeTableCfg { id: 7, first_column: vec![1u64, 2, 3] };
    let spec = RuntimeTableSpec::from(cfg);
    assert_eq!(spec, RuntimeTableSpec { id: 7, len: 3 });
    let cfg = RuntimeTableCfg { id: 7, first_column: vec![9u64, 9, 9] };
    let other: RuntimeTableSpec = cfg.into();
    assert_eq!(other, spec);
}

#[test]
fn runtime_table_length_must_match() {
    let cfg = RuntimeTableCfg { id: 7, first_column: vec![1u64, 2, 3] };
    assert!(cfg.matches(&RuntimeTable { id: 7, data: vec![10u64, 20, 30] }));
    assert!(!cfg.matches(&RuntimeTable { id: 7, data: vec![10u64, 20] }));
    assert!(!cfg.matches(&RuntimeTable { id: 8, data: vec![10u64, 20, 30] }));
}

#[test]
fn caml_mirror_round_trip() {
    let t = RuntimeTable { id: 3, data: vec![4u64, 5] };
    let c = CamlRuntimeTable::from(t);
    assert_eq!(c.id, 3);
    assert_eq!(c.data, vec![4, 5]);
    let back = RuntimeTable::from(c);
    assert_eq!(back.id, 3);
    assert_eq!(back.data, vec![4, 5]);
}

#[test]
fn exactly_one_constraint() {
    let cs = constraints();
    assert_eq!(cs.len(), 1);
    match &cs[0] {
        Expr::Mul(a, b) => {
            assert!(matches!(**a, Expr::Cell(Column::LookupRuntimeTable, CurrOrNext::Curr)));
            assert!(matches!(**b, Expr::Cell(Column::LookupRuntimeSelector, CurrOrNext::Curr)));
        }
        _ => panic!("expected a product"),
    }
}

#[test]
fn constraint_violated_when_selector_on_and_value_present() {
    let c = &constraints()[0];
    assert_eq!(c.evaluate(&env(5, 1), P), 5);
    assert_ne!(c.evaluate(&env(P - 1, 1), P), 0);
}

#[test]
fn constraint_satisfied_when_selector_off_or_value_zero() {
    let c = &constraints()[0];
    assert_eq!(c.evaluate(&env(5, 0), P), 0);
    assert_eq!(c.evaluate(&env(u64::MAX, 0), P), 0);
    assert_eq!(c.evaluate(&env(0, 1), P), 0);
}

#[test]
fn evaluation_reduces_modulo() {
    let e = Expr::Mul(
        Box::new(Expr::Cell(Column::LookupRuntimeTable, CurrOrNext::Next)),
        Box::new(Expr::Cell(Column::LookupRuntimeSelector, CurrOrNext::Next)),
    );
    assert_eq!(e.evaluate(&env(0, 0), 7), (11 * 13) % 7);
    assert_eq!(e.evaluate(&env(0, 0), 1000), 143);
    let big = Expr::Mul(
        Box::new(Expr::Cell(Column::LookupRuntimeTable, CurrOrNext::Curr)),
        Box::new(Expr::Cell(Column::LookupRuntimeTable, CurrOrNext::Curr)),
    );
    // (p - 1)^2 = 1 mod p
    assert_eq!(big.evaluate(&env(P - 1, 0), P), 1);
}

#[test]
fn evaluations_read_cells() {
    let e = env(3, 1);
    assert_eq!(e.cell(Column::LookupRuntimeTable, CurrOrNext::Curr), 3);
    assert_eq!(e.cell(Column::LookupRuntimeSelector, CurrOrNext::Curr), 1);
    assert_eq!(e.cell(Column::LookupRuntimeTable, CurrOrNext::Next), 11);
    assert_eq!(e.cell(Column::LookupRuntimeSelector, CurrOrNext::Next), 13);
    let single = Expr::Cell(Column::LookupRuntimeSelector, CurrOrNext::Next);
    assert_eq!(single.evaluate(&e, 5), 3);
}
