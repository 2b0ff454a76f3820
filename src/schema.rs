//! Widths and offsets that partition a Keccak trace row.
//!
//! A row is the concatenation, in this order, of the groups `hash_index`,
//! `step_index`, `mode_flags`, `pad_bytes_flags`, `pad_suffix`,
//! `round_constants`, `curr` and `next`. The constants below fix the width of
//! each group and where it starts in the flat sequence of the row.
use vstd::prelude::*;

verus! {

/// Number of 16-bit quarters in a 64-bit word: width of `round_constants`.
pub const QUARTERS: usize = 4;

/// Sponge rate in bytes: width of `pad_bytes_flags`.
pub const RATE_IN_BYTES: usize = 136;

/// Width of `mode_flags`.
pub const MODE_FLAGS_COLS_LENGTH: usize = 7;

/// Width of `pad_suffix`.
pub const SUFFIX_COLS_LENGTH: usize = 5;

/// Width of the current-row region `curr`.
pub const ZKVM_KECCAK_COLS_CURR: usize = 1965;

/// Width of the next-row region `next`.
pub const ZKVM_KECCAK_COLS_NEXT: usize = 100;

/// Total number of cells in a row.
pub const ZKVM_KECCAK_COLS_LENGTH: usize = ZKVM_KECCAK_COLS_CURR + ZKVM_KECCAK_COLS_NEXT + QUARTERS
    + RATE_IN_BYTES + SUFFIX_COLS_LENGTH + MODE_FLAGS_COLS_LENGTH + 2;

// Positions of the groups in the flat sequence of a row.
/// Flat position of `hash_index`.
pub const HASH_INDEX_POS: usize = 0;

/// Flat position of `step_index`.
pub const STEP_INDEX_POS: usize = 1;

/// First flat position of `mode_flags`.
pub const MODE_FLAGS_START: usize = 2;

/// First flat position of `pad_bytes_flags`.
pub const PAD_BYTES_FLAGS_START: usize = MODE_FLAGS_START + MODE_FLAGS_COLS_LENGTH;

/// First flat position of `pad_suffix`.
pub const PAD_SUFFIX_START: usize = PAD_BYTES_FLAGS_START + RATE_IN_BYTES;

/// First flat position of `round_constants`.
pub const ROUND_CONSTANTS_START: usize = PAD_SUFFIX_START + SUFFIX_COLS_LENGTH;

/// First flat position of `curr`.
pub const CURR_START: usize = ROUND_CONSTANTS_START + QUARTERS;

/// First flat position of `next`.
pub const NEXT_START: usize = CURR_START + ZKVM_KECCAK_COLS_CURR;

// Positions of the mode flags inside `mode_flags`.
/// Position of the round flag in `mode_flags`.
pub const FLAG_ROUND_OFFSET: usize = 0;

/// Position of the absorb flag in `mode_flags`.
pub const FLAG_ABSORB_OFFSET: usize = 1;

/// Position of the squeeze flag in `mode_flags`.
pub const FLAG_SQUEEZE_OFFSET: usize = 2;

/// Position of the root flag in `mode_flags`.
pub const FLAG_ROOT_OFFSET: usize = 3;

/// Position of the pad length in `mode_flags`.
pub const FLAG_PAD_LENGTH_OFFSET: usize = 4;

/// Position of the inverse pad length in `mode_flags`.
pub const FLAG_INV_PAD_LENGTH_OFFSET: usize = 5;

/// Position of two to the pad length in `mode_flags`.
pub const FLAG_TWO_TO_PAD_OFFSET: usize = 6;

// Sub-ranges of `curr`. Every phase reads the state at `[0, STATE_LEN)`; the
// round phase and the sponge phase each lay their own cells out after it.
/// Width of the Keccak state, in 16-bit quarters (5 x 5 lanes of 4 quarters).
pub const STATE_LEN: usize = 100;

/// Start of the theta shifts of C.
pub const THETA_SHIFTS_C_OFF: usize = 100;
/// Width of the theta shifts of C.
pub const THETA_SHIFTS_C_LEN: usize = 80;
/// Start of the dense C.
pub const THETA_DENSE_C_OFF: usize = 180;
/// Width of the dense C.
pub const THETA_DENSE_C_LEN: usize = 20;
/// Start of the quotient of C.
pub const THETA_QUOTIENT_C_OFF: usize = 200;
/// Width of the quotient of C.
pub const THETA_QUOTIENT_C_LEN: usize = 5;
/// Start of the remainder of C.
pub const THETA_REMAINDER_C_OFF: usize = 205;
/// Width of the remainder of C.
pub const THETA_REMAINDER_C_LEN: usize = 20;
/// Start of the rotated dense C.
pub const THETA_DENSE_ROT_C_OFF: usize = 225;
/// Width of the rotated dense C.
pub const THETA_DENSE_ROT_C_LEN: usize = 20;
/// Start of the rotated expanded C.
pub const THETA_EXPAND_ROT_C_OFF: usize = 245;
/// Width of the rotated expanded C.
pub const THETA_EXPAND_ROT_C_LEN: usize = 20;
/// Start of the pi-rho shifts of E.
pub const PIRHO_SHIFTS_E_OFF: usize = 265;
/// Width of the pi-rho shifts of E.
pub const PIRHO_SHIFTS_E_LEN: usize = 400;
/// Start of the dense E.
pub const PIRHO_DENSE_E_OFF: usize = 665;
/// Width of the dense E.
pub const PIRHO_DENSE_E_LEN: usize = 100;
/// Start of the quotient of E.
pub const PIRHO_QUOTIENT_E_OFF: usize = 765;
/// Width of the quotient of E.
pub const PIRHO_QUOTIENT_E_LEN: usize = 100;
/// Start of the remainder of E.
pub const PIRHO_REMAINDER_E_OFF: usize = 865;
/// Width of the remainder of E.
pub const PIRHO_REMAINDER_E_LEN: usize = 100;
/// Start of the rotated dense E.
pub const PIRHO_DENSE_ROT_E_OFF: usize = 965;
/// Width of the rotated dense E.
pub const PIRHO_DENSE_ROT_E_LEN: usize = 100;
/// Start of the rotated expanded E.
pub const PIRHO_EXPAND_ROT_E_OFF: usize = 1065;
/// Width of the rotated expanded E.
pub const PIRHO_EXPAND_ROT_E_LEN: usize = 100;
/// Start of the chi shifts of B.
pub const CHI_SHIFTS_B_OFF: usize = 1165;
/// Width of the chi shifts of B.
pub const CHI_SHIFTS_B_LEN: usize = 400;
/// Start of the chi shifted sums.
pub const CHI_SHIFTS_SUM_OFF: usize = 1565;
/// Width of the chi shifted sums.
pub const CHI_SHIFTS_SUM_LEN: usize = 400;
/// Start of the new sponge state.
pub const SPONGE_NEW_STATE_OFF: usize = 100;
/// Width of the new sponge state.
pub const SPONGE_NEW_STATE_LEN: usize = 100;
/// Start of the sponge bytes.
pub const SPONGE_BYTES_OFF: usize = 200;
/// Width of the sponge bytes.
pub const SPONGE_BYTES_LEN: usize = 200;
/// Start of the sponge shifts.
pub const SPONGE_SHIFTS_OFF: usize = 400;
/// Width of the sponge shifts.
pub const SPONGE_SHIFTS_LEN: usize = 400;

/// The round phase lays its ranges out one after the other, from the end of
/// the state to the end of `curr`.
pub proof fn lemma_round_ranges_contiguous()
    ensures
        THETA_SHIFTS_C_OFF == STATE_LEN,
        THETA_DENSE_C_OFF == THETA_SHIFTS_C_OFF + THETA_SHIFTS_C_LEN,
        THETA_QUOTIENT_C_OFF == THETA_DENSE_C_OFF + THETA_DENSE_C_LEN,
        THETA_REMAINDER_C_OFF == THETA_QUOTIENT_C_OFF + THETA_QUOTIENT_C_LEN,
        THETA_DENSE_ROT_C_OFF == THETA_REMAINDER_C_OFF + THETA_REMAINDER_C_LEN,
        THETA_EXPAND_ROT_C_OFF == THETA_DENSE_ROT_C_OFF + THETA_DENSE_ROT_C_LEN,
        PIRHO_SHIFTS_E_OFF == THETA_EXPAND_ROT_C_OFF + THETA_EXPAND_ROT_C_LEN,
        PIRHO_DENSE_E_OFF == PIRHO_SHIFTS_E_OFF + PIRHO_SHIFTS_E_LEN,
        PIRHO_QUOTIENT_E_OFF == PIRHO_DENSE_E_OFF + PIRHO_DENSE_E_LEN,
        PIRHO_REMAINDER_E_OFF == PIRHO_QUOTIENT_E_OFF + PIRHO_QUOTIENT_E_LEN,
        PIRHO_DENSE_ROT_E_OFF == PIRHO_REMAINDER_E_OFF + PIRHO_REMAINDER_E_LEN,
        PIRHO_EXPAND_ROT_E_OFF == PIRHO_DENSE_ROT_E_OFF + PIRHO_DENSE_ROT_E_LEN,
        CHI_SHIFTS_B_OFF == PIRHO_EXPAND_ROT_E_OFF + PIRHO_EXPAND_ROT_E_LEN,
        CHI_SHIFTS_SUM_OFF == CHI_SHIFTS_B_OFF + CHI_SHIFTS_B_LEN,
        CHI_SHIFTS_SUM_OFF + CHI_SHIFTS_SUM_LEN == ZKVM_KECCAK_COLS_CURR,
{
}

/// The sponge phase lays its ranges out one after the other, from the end of
/// the state, and stays inside `curr`.
pub proof fn lemma_sponge_ranges_contiguous()
    ensures
        SPONGE_NEW_STATE_OFF == STATE_LEN,
        SPONGE_BYTES_OFF == SPONGE_NEW_STATE_OFF + SPONGE_NEW_STATE_LEN,
        SPONGE_SHIFTS_OFF == SPONGE_BYTES_OFF + SPONGE_BYTES_LEN,
        SPONGE_SHIFTS_OFF + SPONGE_SHIFTS_LEN <= ZKVM_KECCAK_COLS_CURR,
        STATE_LEN <= ZKVM_KECCAK_COLS_NEXT,
{
}

/// The groups of a row tile its flat sequence, in canonical order.
pub proof fn lemma_groups_tile_row()
    ensures
        HASH_INDEX_POS == 0,
        STEP_INDEX_POS == HASH_INDEX_POS + 1,
        MODE_FLAGS_START == STEP_INDEX_POS + 1,
        PAD_BYTES_FLAGS_START == MODE_FLAGS_START + MODE_FLAGS_COLS_LENGTH,
        PAD_SUFFIX_START == PAD_BYTES_FLAGS_START + RATE_IN_BYTES,
        ROUND_CONSTANTS_START == PAD_SUFFIX_START + SUFFIX_COLS_LENGTH,
        CURR_START == ROUND_CONSTANTS_START + QUARTERS,
        NEXT_START == CURR_START + ZKVM_KECCAK_COLS_CURR,
        NEXT_START + ZKVM_KECCAK_COLS_NEXT == ZKVM_KECCAK_COLS_LENGTH,
{
}

} // verus!
