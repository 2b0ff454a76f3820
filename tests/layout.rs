use trace_columns::column::{KeccakColumn, Slot};
use trace_columns::columns::KeccakColumns;
use trace_columns::schema::{
    CURR_START, NEXT_START, ZKVM_KECCAK_COLS_CURR, ZKVM_KECCAK_COLS_LENGTH,
};

fn markers() -> KeccakColumns<u64> {
    let flat: Vec<u64> = (0..ZKVM_KECCAK_COLS_LENGTH as u64).map(|i| 1000 + i).collect();
    KeccakColumns::from_vec(flat)
}

#[test]
fn total_width_is_sum_of_groups() {
    assert_eq!(ZKVM_KECCAK_COLS_LENGTH, 2 + 7 + 136 + 5 + 4 + 1965 + 100);
    assert_eq!(CURR_START, 154);
    assert_eq!(NEXT_START, 2119);
}

#[test]
fn round_trip_distinct_markers() {
    let row = markers();
    let flat = row.to_vec();
    assert_eq!(flat.len(), ZKVM_KECCAK_COLS_LENGTH);
    let rebuilt = KeccakColumns::from_vec(flat.clone());
    assert_eq!(rebuilt, row);
    let owned = rebuilt.into_vec();
    assert_eq!(owned, flat);
}

#[test]
fn flat_order_is_canonical() {
    let row = markers();
    assert_eq!(row.hash_index, 1000);
    assert_eq!(row.step_index, 1001);
    assert_eq!(row.mode_flags[0], 1002);
    assert_eq!(row.pad_bytes_flags[0], 1009);
    assert_eq!(row.pad_suffix[0], 1145);
    assert_eq!(row.round_constants[3], 1153);
    assert_eq!(row.curr[0], 1154);
    assert_eq!(row.curr[ZKVM_KECCAK_COLS_CURR - 1], 1154 + 1964);
    assert_eq!(row.next[0], 3119);
    assert_eq!(row.next[99], 3218);
}

#[test]
fn reconstruct_short_sequence_is_rejected() {
    let mut flat = markers().to_vec();
    flat.pop();
    assert!(KeccakColumns::try_from_vec(flat).is_none());
    let mut flat = markers().to_vec();
    flat.remove(0);
    assert!(KeccakColumns::try_from_vec(flat).is_none());
    let mut flat = markers().to_vec();
    flat.push(7);
    assert!(KeccakColumns::try_from_vec(flat).is_none());
    assert!(KeccakColumns::<u64>::try_from_vec(Vec::new()).is_none());
}

#[test]
fn reconstruct_exact_sequence_succeeds() {
    let flat = markers().to_vec();
    let row = KeccakColumns::try_from_vec(flat).unwrap();
    assert_eq!(row, markers());
}

#[test]
fn default_row_is_zero() {
    let row: KeccakColumns<u64> = KeccakColumns::default();
    assert!(row.to_vec().iter().all(|v| *v == 0));
    assert!(row.mode_flags.iter().all(|v| *v == 0));
    assert!(row.pad_bytes_flags.iter().all(|v| *v == 0));
    assert!(row.pad_suffix.iter().all(|v| *v == 0));
    assert!(row.round_constants.iter().all(|v| *v == 0));
    assert_eq!(*row.get(KeccakColumn::FlagRound), 0);
    let signed: KeccakColumns<i64> = KeccakColumns::default();
    assert_eq!(*signed.get(KeccakColumn::Output(99)), 0);
}

#[test]
fn filled_row_holds_value_everywhere() {
    let row = KeccakColumns::filled(9u8);
    assert!(row.to_vec().iter().all(|v| *v == 9));
}

#[test]
fn get_reads_the_addressed_slot() {
    let row = markers();
    assert_eq!(*row.get(KeccakColumn::HashIndex), 1000);
    assert_eq!(*row.get(KeccakColumn::StepIndex), 1001);
    assert_eq!(*row.get(KeccakColumn::FlagRound), 1002);
    assert_eq!(*row.get(KeccakColumn::TwoToPad), 1008);
    assert_eq!(*row.get(KeccakColumn::PadBytesFlags(135)), 1009 + 135);
    assert_eq!(*row.get(KeccakColumn::PadSuffix(4)), 1149);
    assert_eq!(*row.get(KeccakColumn::RoundConstants(1)), 1151);
    assert_eq!(*row.get(KeccakColumn::Input(5)), 1154 + 5);
    assert_eq!(*row.get(KeccakColumn::ThetaShiftsC(0)), 1154 + 100);
    assert_eq!(*row.get(KeccakColumn::ThetaQuotientC(4)), 1154 + 204);
    assert_eq!(*row.get(KeccakColumn::PiRhoShiftsE(0)), 1154 + 265);
    assert_eq!(*row.get(KeccakColumn::ChiShiftsSum(399)), 1154 + 1964);
    assert_eq!(*row.get(KeccakColumn::SpongeNewState(0)), 1154 + 100);
    assert_eq!(*row.get(KeccakColumn::SpongeBytes(1)), 1154 + 201);
    assert_eq!(*row.get(KeccakColumn::SpongeShifts(399)), 1154 + 799);
    assert_eq!(*row.get(KeccakColumn::Output(2)), 3121);
}

#[test]
fn get_mut_writes_the_slot_get_reads() {
    let mut row: KeccakColumns<u64> = KeccakColumns::default();
    *row.get_mut(KeccakColumn::PiRhoDenseE(7)) = 42;
    assert_eq!(*row.get(KeccakColumn::PiRhoDenseE(7)), 42);
    assert_eq!(row.curr[665 + 7], 42);
    let nonzero = row.to_vec().iter().filter(|v| **v != 0).count();
    assert_eq!(nonzero, 1);
    *row.get_mut(KeccakColumn::InvPadLength) = 3;
    assert_eq!(row.mode_flags[5], 3);
}

fn round_phase_columns() -> Vec<KeccakColumn> {
    let mut cols = vec![
        KeccakColumn::HashIndex,
        KeccakColumn::StepIndex,
        KeccakColumn::FlagRound,
        KeccakColumn::FlagAbsorb,
        KeccakColumn::FlagSqueeze,
        KeccakColumn::FlagRoot,
        KeccakColumn::PadLength,
        KeccakColumn::InvPadLength,
        KeccakColumn::TwoToPad,
    ];
    cols.extend((0..136).map(KeccakColumn::PadBytesFlags));
    cols.extend((0..5).map(KeccakColumn::PadSuffix));
    cols.extend((0..4).map(KeccakColumn::RoundConstants));
    cols.extend((0..100).map(KeccakColumn::Input));
    cols.extend((0..80).map(KeccakColumn::ThetaShiftsC));
    cols.extend((0..20).map(KeccakColumn::ThetaDenseC));
    cols.extend((0..5).map(KeccakColumn::ThetaQuotientC));
    cols.extend((0..20).map(KeccakColumn::ThetaRemainderC));
    cols.extend((0..20).map(KeccakColumn::ThetaDenseRotC));
    cols.extend((0..20).map(KeccakColumn::ThetaExpandRotC));
    cols.extend((0..400).map(KeccakColumn::PiRhoShiftsE));
    cols.extend((0..100).map(KeccakColumn::PiRhoDenseE));
    cols.extend((0..100).map(KeccakColumn::PiRhoQuotientE));
    cols.extend((0..100).map(KeccakColumn::PiRhoRemainderE));
    cols.extend((0..100).map(KeccakColumn::PiRhoDenseRotE));
    cols.extend((0..100).map(KeccakColumn::PiRhoExpandRotE));
    cols.extend((0..400).map(KeccakColumn::ChiShiftsB));
    cols.extend((0..400).map(KeccakColumn::ChiShiftsSum));
    cols.extend((0..100).map(KeccakColumn::Output));
    cols
}

#[test]
fn round_phase_columns_cover_the_row_once() {
    let cols = round_phase_columns();
    assert_eq!(cols.len(), ZKVM_KECCAK_COLS_LENGTH);
    let mut row: KeccakColumns<u64> = KeccakColumns::default();
    for (i, c) in cols.iter().enumerate() {
        *row.get_mut(*c) = i as u64 + 1;
    }
    let expected: Vec<u64> = (1..=ZKVM_KECCAK_COLS_LENGTH as u64).collect();
    assert_eq!(row.to_vec(), expected);
}

#[test]
fn sponge_phase_columns_are_distinct() {
    let mut cols: Vec<KeccakColumn> = (0..100).map(KeccakColumn::Input).collect();
    cols.extend((0..100).map(KeccakColumn::SpongeNewState));
    cols.extend((0..200).map(KeccakColumn::SpongeBytes));
    cols.extend((0..400).map(KeccakColumn::SpongeShifts));
    let mut row: KeccakColumns<u64> = KeccakColumns::default();
    for (i, c) in cols.iter().enumerate() {
        *row.get_mut(*c) = i as u64 + 1;
    }
    for (i, c) in cols.iter().enumerate() {
        assert_eq!(*row.get(*c), i as u64 + 1);
    }
    assert_eq!(&row.curr[..800], &(1..=800u64).collect::<Vec<_>>()[..]);
}

#[test]
fn slot_of_columns() {
    assert_eq!(KeccakColumn::HashIndex.slot(), Slot::HashIndex);
    assert_eq!(KeccakColumn::PadLength.slot(), Slot::ModeFlags(4));
    assert_eq!(KeccakColumn::ThetaExpandRotC(3).slot(), Slot::Curr(248));
    assert_eq!(KeccakColumn::SpongeShifts(0).slot(), Slot::Curr(400));
    assert_eq!(KeccakColumn::Output(1).slot(), Slot::Next(1));
}

#[test]
fn chunk_views_curr() {
    let row = markers();
    assert_eq!(row.chunk(100, 3), &[1254, 1255, 1256]);
    assert_eq!(row.chunk(0, 0).len(), 0);
    assert_eq!(row.chunk(1962, 3), &[3116, 3117, 3118]);
}

#[test]
fn cells_borrow_in_canonical_order() {
    let row = markers();
    let refs = row.cells();
    assert_eq!(refs.len(), ZKVM_KECCAK_COLS_LENGTH);
    let copied: Vec<u64> = refs.into_iter().copied().collect();
    assert_eq!(copied, row.to_vec());
}

#[test]
fn into_iterator_yields_canonical_order() {
    let row = markers();
    let flat = row.to_vec();
    let yielded: Vec<u64> = row.into_iter().collect();
    assert_eq!(yielded, flat);
    assert_eq!(yielded[0], 1000);
    assert_eq!(yielded[ZKVM_KECCAK_COLS_LENGTH - 1], 3218);
}

#[test]
fn index_operator_reads_like_get() {
    let mut row: KeccakColumns<u32> = KeccakColumns::default();
    *row.get_mut(KeccakColumn::ChiShiftsB(10)) = 77;
    assert_eq!(row[KeccakColumn::ChiShiftsB(10)], 77);
    assert_eq!(row.curr[1165 + 10], 77);
    assert_eq!(row[KeccakColumn::ChiShiftsB(11)], 0);
}

#[test]
fn round_and_sponge_phases_share_curr() {
    let mut row: KeccakColumns<u64> = KeccakColumns::default();
    *row.get_mut(KeccakColumn::SpongeNewState(0)) = 5;
    assert_eq!(*row.get(KeccakColumn::ThetaShiftsC(0)), 5);
}

#[test]
fn input_and_output_address_state_ranges() {
    let mut row: KeccakColumns<u64> = KeccakColumns::default();
    for i in 0..100 {
        *row.get_mut(KeccakColumn::Input(i)) = i as u64 + 1;
        *row.get_mut(KeccakColumn::Output(i)) = i as u64 + 501;
    }
    assert_eq!(&row.curr[..100], &(1..=100u64).collect::<Vec<_>>()[..]);
    assert_eq!(row.next.to_vec(), (501..=600u64).collect::<Vec<_>>());
    assert_eq!(row.curr[100], 0);
}
