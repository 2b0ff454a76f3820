//! Symbolic names of the cells of a Keccak trace row, and where they live.
use vstd::prelude::*;

use crate::schema::{
    QUARTERS,
    RATE_IN_BYTES,
    MODE_FLAGS_COLS_LENGTH,
    SUFFIX_COLS_LENGTH,
    ZKVM_KECCAK_COLS_CURR,
    ZKVM_KECCAK_COLS_NEXT,
    ZKVM_KECCAK_COLS_LENGTH,
    HASH_INDEX_POS,
    STEP_INDEX_POS,
    MODE_FLAGS_START,
    PAD_BYTES_FLAGS_START,
    PAD_SUFFIX_START,
    ROUND_CONSTANTS_START,
    CURR_START,
    NEXT_START,
    FLAG_ROUND_OFFSET,
    FLAG_ABSORB_OFFSET,
    FLAG_SQUEEZE_OFFSET,
    FLAG_ROOT_OFFSET,
    FLAG_PAD_LENGTH_OFFSET,
    FLAG_INV_PAD_LENGTH_OFFSET,
    FLAG_TWO_TO_PAD_OFFSET,
    STATE_LEN,
    THETA_SHIFTS_C_OFF,
    THETA_SHIFTS_C_LEN,
    THETA_DENSE_C_OFF,
    THETA_DENSE_C_LEN,
    THETA_QUOTIENT_C_OFF,
    THETA_QUOTIENT_C_LEN,
    THETA_REMAINDER_C_OFF,
    THETA_REMAINDER_C_LEN,
    THETA_DENSE_ROT_C_OFF,
    THETA_DENSE_ROT_C_LEN,
    THETA_EXPAND_ROT_C_OFF,
    THETA_EXPAND_ROT_C_LEN,
    PIRHO_SHIFTS_E_OFF,
    PIRHO_SHIFTS_E_LEN,
    PIRHO_DENSE_E_OFF,
    PIRHO_DENSE_E_LEN,
    PIRHO_QUOTIENT_E_OFF,
    PIRHO_QUOTIENT_E_LEN,
    PIRHO_REMAINDER_E_OFF,
    PIRHO_REMAINDER_E_LEN,
    PIRHO_DENSE_ROT_E_OFF,
    PIRHO_DENSE_ROT_E_LEN,
    PIRHO_EXPAND_ROT_E_OFF,
    PIRHO_EXPAND_ROT_E_LEN,
    CHI_SHIFTS_B_OFF,
    CHI_SHIFTS_B_LEN,
    CHI_SHIFTS_SUM_OFF,
    CHI_SHIFTS_SUM_LEN,
    SPONGE_NEW_STATE_OFF,
    SPONGE_NEW_STATE_LEN,
    SPONGE_BYTES_OFF,
    SPONGE_BYTES_LEN,
    SPONGE_SHIFTS_OFF,
    SPONGE_SHIFTS_LEN,
};

verus! {

/// A named cell of a Keccak trace row. Parametrised variants name one cell of
/// a group by its sub-index, which must be below the group's width
/// (`width`).
#[derive(Clone, Copy, Debug, PartialEq, Eq, Structural)]
pub enum KeccakColumn {
    HashIndex,
    StepIndex,
    /// Round number, in `[0, 24)`.
    FlagRound,
    /// Absorb mode, 0 or 1.
    FlagAbsorb,
    /// Squeeze mode, 0 or 1.
    FlagSqueeze,
    /// Root mode, 0 or 1.
    FlagRoot,
    /// Pad length, 0 or in `1..=136`.
    PadLength,
    /// Inverse of the pad length when it is not zero.
    InvPadLength,
    /// Two to the power of the pad length.
    TwoToPad,
    /// Boolean flags of the padding bytes.
    PadBytesFlags(usize),
    /// Values of the padding suffix.
    PadSuffix(usize),
    RoundConstants(usize),
    /// `curr[0..100)`: the state a step starts from.
    Input(usize),
    ThetaShiftsC(usize),
    ThetaDenseC(usize),
    ThetaQuotientC(usize),
    ThetaRemainderC(usize),
    ThetaDenseRotC(usize),
    ThetaExpandRotC(usize),
    PiRhoShiftsE(usize),
    PiRhoDenseE(usize),
    PiRhoQuotientE(usize),
    PiRhoRemainderE(usize),
    PiRhoDenseRotE(usize),
    PiRhoExpandRotE(usize),
    ChiShiftsB(usize),
    ChiShiftsSum(usize),
    SpongeNewState(usize),
    SpongeBytes(usize),
    SpongeShifts(usize),
    /// `next[0..100)`: the state a step ends with.
    Output(usize),
}

/// A physical location inside a row: a field, or a position in an array field.
#[derive(Clone, Copy, Debug, PartialEq, Eq, Structural)]
pub enum Slot {
    HashIndex,
    StepIndex,
    ModeFlags(usize),
    PadBytesFlags(usize),
    PadSuffix(usize),
    RoundConstants(usize),
    Curr(usize),
    Next(usize),
}

/// The algorithm phase whose rows give a cell meaning. Cells of the round
/// phase and of the sponge phase share storage in `curr`; cells of the common
/// phase are live on every row.
#[derive(Clone, Copy, Debug, PartialEq, Eq, Structural)]
pub enum Phase {
    Common,
    Round,
    Sponge,
}

impl KeccakColumn {
    /// Number of valid sub-indices of the group this column belongs to
    /// (1 for a column that carries no sub-index).
    pub open spec fn width(self) -> nat {
        match self {
            KeccakColumn::PadBytesFlags(_) => RATE_IN_BYTES as nat,
            KeccakColumn::PadSuffix(_) => SUFFIX_COLS_LENGTH as nat,
            KeccakColumn::RoundConstants(_) => QUARTERS as nat,
            KeccakColumn::Input(_) => STATE_LEN as nat,
            KeccakColumn::ThetaShiftsC(_) => THETA_SHIFTS_C_LEN as nat,
            KeccakColumn::ThetaDenseC(_) => THETA_DENSE_C_LEN as nat,
            KeccakColumn::ThetaQuotientC(_) => THETA_QUOTIENT_C_LEN as nat,
            KeccakColumn::ThetaRemainderC(_) => THETA_REMAINDER_C_LEN as nat,
            KeccakColumn::ThetaDenseRotC(_) => THETA_DENSE_ROT_C_LEN as nat,
            KeccakColumn::ThetaExpandRotC(_) => THETA_EXPAND_ROT_C_LEN as nat,
            KeccakColumn::PiRhoShiftsE(_) => PIRHO_SHIFTS_E_LEN as nat,
            KeccakColumn::PiRhoDenseE(_) => PIRHO_DENSE_E_LEN as nat,
            KeccakColumn::PiRhoQuotientE(_) => PIRHO_QUOTIENT_E_LEN as nat,
            KeccakColumn::PiRhoRemainderE(_) => PIRHO_REMAINDER_E_LEN as nat,
            KeccakColumn::PiRhoDenseRotE(_) => PIRHO_DENSE_ROT_E_LEN as nat,
            KeccakColumn::PiRhoExpandRotE(_) => PIRHO_EXPAND_ROT_E_LEN as nat,
            KeccakColumn::ChiShiftsB(_) => CHI_SHIFTS_B_LEN as nat,
            KeccakColumn::ChiShiftsSum(_) => CHI_SHIFTS_SUM_LEN as nat,
            KeccakColumn::SpongeNewState(_) => SPONGE_NEW_STATE_LEN as nat,
            KeccakColumn::SpongeBytes(_) => SPONGE_BYTES_LEN as nat,
            KeccakColumn::SpongeShifts(_) => SPONGE_SHIFTS_LEN as nat,
            KeccakColumn::Output(_) => STATE_LEN as nat,
            _ => 1,
        }
    }

    /// The sub-index carried by the column (0 for one that carries none).
    pub open spec fn sub_index(self) -> nat {
        match self {
            KeccakColumn::PadBytesFlags(i) | KeccakColumn::PadSuffix(i)
            | KeccakColumn::RoundConstants(i) | KeccakColumn::Input(i)
            | KeccakColumn::ThetaShiftsC(i) | KeccakColumn::ThetaDenseC(i)
            | KeccakColumn::ThetaQuotientC(i) | KeccakColumn::ThetaRemainderC(i)
            | KeccakColumn::ThetaDenseRotC(i) | KeccakColumn::ThetaExpandRotC(i)
            | KeccakColumn::PiRhoShiftsE(i) | KeccakColumn::PiRhoDenseE(i)
            | KeccakColumn::PiRhoQuotientE(i) | KeccakColumn::PiRhoRemainderE(i)
            | KeccakColumn::PiRhoDenseRotE(i) | KeccakColumn::PiRhoExpandRotE(i)
            | KeccakColumn::ChiShiftsB(i) | KeccakColumn::ChiShiftsSum(i)
            | KeccakColumn::SpongeNewState(i) | KeccakColumn::SpongeBytes(i)
            | KeccakColumn::SpongeShifts(i) | KeccakColumn::Output(i) => i as nat,
            _ => 0,
        }
    }

    /// The column's sub-index is within its group.
    pub open spec fn valid(self) -> bool {
        self.sub_index() < self.width()
    }

    /// The phase in which the column is live.
    pub open spec fn phase(self) -> Phase {
        match self {
            KeccakColumn::ThetaShiftsC(_) | KeccakColumn::ThetaDenseC(_)
            | KeccakColumn::ThetaQuotientC(_) | KeccakColumn::ThetaRemainderC(_)
            | KeccakColumn::ThetaDenseRotC(_) | KeccakColumn::ThetaExpandRotC(_)
            | KeccakColumn::PiRhoShiftsE(_) | KeccakColumn::PiRhoDenseE(_)
            | KeccakColumn::PiRhoQuotientE(_) | KeccakColumn::PiRhoRemainderE(_)
            | KeccakColumn::PiRhoDenseRotE(_) | KeccakColumn::PiRhoExpandRotE(_)
            | KeccakColumn::ChiShiftsB(_) | KeccakColumn::ChiShiftsSum(_) => Phase::Round,
            KeccakColumn::SpongeNewState(_) | KeccakColumn::SpongeBytes(_)
            | KeccakColumn::SpongeShifts(_) => Phase::Sponge,
            _ => Phase::Common,
        }
    }

    /// Where the column is stored.
    pub open spec fn spec_slot(self) -> Slot {
        match self {
            KeccakColumn::HashIndex => Slot::HashIndex,
            KeccakColumn::StepIndex => Slot::StepIndex,
            KeccakColumn::FlagRound => Slot::ModeFlags(FLAG_ROUND_OFFSET),
            KeccakColumn::FlagAbsorb => Slot::ModeFlags(FLAG_ABSORB_OFFSET),
            KeccakColumn::FlagSqueeze => Slot::ModeFlags(FLAG_SQUEEZE_OFFSET),
            KeccakColumn::FlagRoot => Slot::ModeFlags(FLAG_ROOT_OFFSET),
            KeccakColumn::PadLength => Slot::ModeFlags(FLAG_PAD_LENGTH_OFFSET),
            KeccakColumn::InvPadLength => Slot::ModeFlags(FLAG_INV_PAD_LENGTH_OFFSET),
            KeccakColumn::TwoToPad => Slot::ModeFlags(FLAG_TWO_TO_PAD_OFFSET),
            KeccakColumn::PadBytesFlags(i) => Slot::PadBytesFlags(i),
            KeccakColumn::PadSuffix(i) => Slot::PadSuffix(i),
            KeccakColumn::RoundConstants(i) => Slot::RoundConstants(i),
            KeccakColumn::Input(i) => Slot::Curr(i),
            KeccakColumn::ThetaShiftsC(i) => Slot::Curr((THETA_SHIFTS_C_OFF + i) as usize),
            KeccakColumn::ThetaDenseC(i) => Slot::Curr((THETA_DENSE_C_OFF + i) as usize),
            KeccakColumn::ThetaQuotientC(i) => Slot::Curr((THETA_QUOTIENT_C_OFF + i) as usize),
            KeccakColumn::ThetaRemainderC(i) => Slot::Curr((THETA_REMAINDER_C_OFF + i) as usize),
            KeccakColumn::ThetaDenseRotC(i) => Slot::Curr((THETA_DENSE_ROT_C_OFF + i) as usize),
            KeccakColumn::ThetaExpandRotC(i) => Slot::Curr((THETA_EXPAND_ROT_C_OFF + i) as usize),
            KeccakColumn::PiRhoShiftsE(i) => Slot::Curr((PIRHO_SHIFTS_E_OFF + i) as usize),
            KeccakColumn::PiRhoDenseE(i) => Slot::Curr((PIRHO_DENSE_E_OFF + i) as usize),
            KeccakColumn::PiRhoQuotientE(i) => Slot::Curr((PIRHO_QUOTIENT_E_OFF + i) as usize),
            KeccakColumn::PiRhoRemainderE(i) => Slot::Curr((PIRHO_REMAINDER_E_OFF + i) as usize),
            KeccakColumn::PiRhoDenseRotE(i) => Slot::Curr((PIRHO_DENSE_ROT_E_OFF + i) as usize),
            KeccakColumn::PiRhoExpandRotE(i) => Slot::Curr((PIRHO_EXPAND_ROT_E_OFF + i) as usize),
            KeccakColumn::ChiShiftsB(i) => Slot::Curr((CHI_SHIFTS_B_OFF + i) as usize),
            KeccakColumn::ChiShiftsSum(i) => Slot::Curr((CHI_SHIFTS_SUM_OFF + i) as usize),
            KeccakColumn::SpongeNewState(i) => Slot::Curr((SPONGE_NEW_STATE_OFF + i) as usize),
            KeccakColumn::SpongeBytes(i) => Slot::Curr((SPONGE_BYTES_OFF + i) as usize),
            KeccakColumn::SpongeShifts(i) => Slot::Curr((SPONGE_SHIFTS_OFF + i) as usize),
            KeccakColumn::Output(i) => Slot::Next(i),
        }
    }

    /// Position of the column in the flat canonical sequence of a row.
    pub open spec fn flat_index(self) -> int {
        self.spec_slot().flat_index()
    }

    /// Where the column is stored.
    pub fn slot(&self) -> (r: Slot)
        requires
            self.valid(),
        ensures
            r == self.spec_slot(),
            r.in_bounds(),
    {
        match *self {
            KeccakColumn::HashIndex => Slot::HashIndex,
            KeccakColumn::StepIndex => Slot::StepIndex,
            KeccakColumn::FlagRound => Slot::ModeFlags(FLAG_ROUND_OFFSET),
            KeccakColumn::FlagAbsorb => Slot::ModeFlags(FLAG_ABSORB_OFFSET),
            KeccakColumn::FlagSqueeze => Slot::ModeFlags(FLAG_SQUEEZE_OFFSET),
            KeccakColumn::FlagRoot => Slot::ModeFlags(FLAG_ROOT_OFFSET),
            KeccakColumn::PadLength => Slot::ModeFlags(FLAG_PAD_LENGTH_OFFSET),
            KeccakColumn::InvPadLength => Slot::ModeFlags(FLAG_INV_PAD_LENGTH_OFFSET),
            KeccakColumn::TwoToPad => Slot::ModeFlags(FLAG_TWO_TO_PAD_OFFSET),
            KeccakColumn::PadBytesFlags(i) => Slot::PadBytesFlags(i),
            KeccakColumn::PadSuffix(i) => Slot::PadSuffix(i),
            KeccakColumn::RoundConstants(i) => Slot::RoundConstants(i),
            KeccakColumn::Input(i) => Slot::Curr(i),
            KeccakColumn::ThetaShiftsC(i) => Slot::Curr(THETA_SHIFTS_C_OFF + i),
            KeccakColumn::ThetaDenseC(i) => Slot::Curr(THETA_DENSE_C_OFF + i),
            KeccakColumn::ThetaQuotientC(i) => Slot::Curr(THETA_QUOTIENT_C_OFF + i),
            KeccakColumn::ThetaRemainderC(i) => Slot::Curr(THETA_REMAINDER_C_OFF + i),
            KeccakColumn::ThetaDenseRotC(i) => Slot::Curr(THETA_DENSE_ROT_C_OFF + i),
            KeccakColumn::ThetaExpandRotC(i) => Slot::Curr(THETA_EXPAND_ROT_C_OFF + i),
            KeccakColumn::PiRhoShiftsE(i) => Slot::Curr(PIRHO_SHIFTS_E_OFF + i),
            KeccakColumn::PiRhoDenseE(i) => Slot::Curr(PIRHO_DENSE_E_OFF + i),
            KeccakColumn::PiRhoQuotientE(i) => Slot::Curr(PIRHO_QUOTIENT_E_OFF + i),
            KeccakColumn::PiRhoRemainderE(i) => Slot::Curr(PIRHO_REMAINDER_E_OFF + i),
            KeccakColumn::PiRhoDenseRotE(i) => Slot::Curr(PIRHO_DENSE_ROT_E_OFF + i),
            KeccakColumn::PiRhoExpandRotE(i) => Slot::Curr(PIRHO_EXPAND_ROT_E_OFF + i),
            KeccakColumn::ChiShiftsB(i) => Slot::Curr(CHI_SHIFTS_B_OFF + i),
            KeccakColumn::ChiShiftsSum(i) => Slot::Curr(CHI_SHIFTS_SUM_OFF + i),
            KeccakColumn::SpongeNewState(i) => Slot::Curr(SPONGE_NEW_STATE_OFF + i),
            KeccakColumn::SpongeBytes(i) => Slot::Curr(SPONGE_BYTES_OFF + i),
            KeccakColumn::SpongeShifts(i) => Slot::Curr(SPONGE_SHIFTS_OFF + i),
            KeccakColumn::Output(i) => Slot::Next(i),
        }
    }
}

impl Slot {
    /// The position lies inside its field.
    pub open spec fn in_bounds(self) -> bool {
        match self {
            Slot::ModeFlags(i) => i < MODE_FLAGS_COLS_LENGTH,
            Slot::PadBytesFlags(i) => i < RATE_IN_BYTES,
            Slot::PadSuffix(i) => i < SUFFIX_COLS_LENGTH,
            Slot::RoundConstants(i) => i < QUARTERS,
            Slot::Curr(i) => i < ZKVM_KECCAK_COLS_CURR,
            Slot::Next(i) => i < ZKVM_KECCAK_COLS_NEXT,
            _ => true,
        }
    }

    /// Position of the slot in the flat canonical sequence of a row.
    pub open spec fn flat_index(self) -> int {
        match self {
            Slot::HashIndex => HASH_INDEX_POS as int,
            Slot::StepIndex => STEP_INDEX_POS as int,
            Slot::ModeFlags(i) => MODE_FLAGS_START + i,
            Slot::PadBytesFlags(i) => PAD_BYTES_FLAGS_START + i,
            Slot::PadSuffix(i) => PAD_SUFFIX_START + i,
            Slot::RoundConstants(i) => ROUND_CONSTANTS_START + i,
            Slot::Curr(i) => CURR_START + i,
            Slot::Next(i) => NEXT_START + i,
        }
    }
}

/// Two phases can be live on the same row.
pub open spec fn phases_coexist(a: Phase, b: Phase) -> bool {
    a == Phase::Common || b == Phase::Common || a == b
}

/// Every valid column has a slot inside the row: its flat position lies in
/// `[0, ZKVM_KECCAK_COLS_LENGTH)`.
pub proof fn lemma_column_in_row(c: KeccakColumn)
    requires
        c.valid(),
    ensures
        c.spec_slot().in_bounds(),
        0 <= c.flat_index() < ZKVM_KECCAK_COLS_LENGTH,
{
}

/// Addressing is injective within a live phase: two distinct valid columns
/// whose phases can be live on the same row never share a slot.
#[verifier::rlimit(100)]
pub proof fn lemma_columns_distinct_slots(a: KeccakColumn, b: KeccakColumn)
    requires
        a.valid(),
        b.valid(),
        a != b,
        phases_coexist(a.phase(), b.phase()),
    ensures
        a.spec_slot() != b.spec_slot(),
        a.flat_index() != b.flat_index(),
{
}

} // verus!
