//! The Keccak trace row: storage, addressing and its flat canonical sequence.
use vstd::prelude::*;
use vstd::std_specs::iter::IteratorSpec;

use crate::column::{KeccakColumn, Slot};
use crate::schema::{
    CURR_START, HASH_INDEX_POS, MODE_FLAGS_COLS_LENGTH, MODE_FLAGS_START, NEXT_START,
    PAD_BYTES_FLAGS_START, PAD_SUFFIX_START, QUARTERS, RATE_IN_BYTES, ROUND_CONSTANTS_START,
    STEP_INDEX_POS, SUFFIX_COLS_LENGTH, ZKVM_KECCAK_COLS_CURR, ZKVM_KECCAK_COLS_LENGTH,
    ZKVM_KECCAK_COLS_NEXT,
};

verus! {

broadcast use vstd::array::group_array_axioms;

/// One row of the Keccak sub-circuit's trace: the cells of the current step
/// and the slice of the next step that cross-row constraints read.
#[derive(Clone, Debug, PartialEq, Eq)]
pub struct KeccakColumns<T> {
    pub hash_index: T,
    pub step_index: T,
    /// Round, Absorb, Squeeze, Root, PadLength, InvPadLength, TwoToPad.
    pub mode_flags: [T; MODE_FLAGS_COLS_LENGTH],
    /// Boolean flags of the padding bytes (sponge rows).
    pub pad_bytes_flags: [T; RATE_IN_BYTES],
    /// Padding suffix (sponge rows).
    pub pad_suffix: [T; SUFFIX_COLS_LENGTH],
    /// Round constants (round rows).
    pub round_constants: [T; QUARTERS],
    /// Cells of the current step.
    pub curr: [T; ZKVM_KECCAK_COLS_CURR],
    /// Cells of the next step.
    pub next: [T; ZKVM_KECCAK_COLS_NEXT],
}

impl<T> View for KeccakColumns<T> {
    type V = Seq<T>;

    /// The row as a flat sequence, in canonical order.
    open spec fn view(&self) -> Seq<T> {
        seq![self.hash_index, self.step_index] + self.mode_flags@ + self.pad_bytes_flags@
            + self.pad_suffix@ + self.round_constants@ + self.curr@ + self.next@
    }
}

impl<T> KeccakColumns<T> {
    /// The value stored at a slot.
    pub open spec fn at(&self, s: Slot) -> T {
        match s {
            Slot::HashIndex => self.hash_index,
            Slot::StepIndex => self.step_index,
            Slot::ModeFlags(i) => self.mode_flags@[i as int],
            Slot::PadBytesFlags(i) => self.pad_bytes_flags@[i as int],
            Slot::PadSuffix(i) => self.pad_suffix@[i as int],
            Slot::RoundConstants(i) => self.round_constants@[i as int],
            Slot::Curr(i) => self.curr@[i as int],
            Slot::Next(i) => self.next@[i as int],
        }
    }

    /// The value of a column.
    pub open spec fn cell(&self, c: KeccakColumn) -> T {
        self@[c.flat_index()]
    }

    /// Reads a cell through the flat sequence of the row.
    pub proof fn lemma_at_is_flat(&self, s: Slot)
        requires
            s.in_bounds(),
        ensures
            self@.len() == ZKVM_KECCAK_COLS_LENGTH,
            self.at(s) == self@[s.flat_index()],
    {
    }

    /// The cell named by a column.
    pub fn get(&self, c: KeccakColumn) -> (r: &T)
        requires
            c.valid(),
        ensures
            *r == self.cell(c),
            *r == self.at(c.spec_slot()),
    {
        let s = c.slot();
        proof {
            self.lemma_at_is_flat(s);
        }
        match s {
            Slot::HashIndex => &self.hash_index,
            Slot::StepIndex => &self.step_index,
            Slot::ModeFlags(i) => &self.mode_flags[i],
            Slot::PadBytesFlags(i) => &self.pad_bytes_flags[i],
            Slot::PadSuffix(i) => &self.pad_suffix[i],
            Slot::RoundConstants(i) => &self.round_constants[i],
            Slot::Curr(i) => &self.curr[i],
            Slot::Next(i) => &self.next[i],
        }
    }

    /// Mutable access to the cell named by a column: writing through the
    /// result changes that cell of the row and no other.
    pub fn get_mut(&mut self, c: KeccakColumn) -> (r: &mut T)
        requires
            c.valid(),
        ensures
            *r == old(self).cell(c),
            final(self)@ == old(self)@.update(c.flat_index(), *final(r)),
    {
        let s = c.slot();
        match s {
            Slot::HashIndex => &mut self.hash_index,
            Slot::StepIndex => &mut self.step_index,
            Slot::ModeFlags(i) => &mut self.mode_flags[i],
            Slot::PadBytesFlags(i) => &mut self.pad_bytes_flags[i],
            Slot::PadSuffix(i) => &mut self.pad_suffix[i],
            Slot::RoundConstants(i) => &mut self.round_constants[i],
            Slot::Curr(i) => &mut self.curr[i],
            Slot::Next(i) => &mut self.next[i],
        }
    }

    /// A read-only view of `length` cells of `curr`, from `offset` on.
    pub fn chunk(&self, offset: usize, length: usize) -> (r: &[T])
        requires
            offset + length <= ZKVM_KECCAK_COLS_CURR,
        ensures
            r@ == self.curr@.subrange(offset as int, offset + length),
    {
        &self.curr[offset..offset + length]
    }

    /// References to the cells of the row, in canonical order.
    pub fn cells(&self) -> (r: Vec<&T>)
        ensures
            r@.len() == self@.len(),
            forall|i: int| 0 <= i < r@.len() ==> *#[trigger] r@[i] == self@[i],
    {
        let mut out: Vec<&T> = Vec::with_capacity(ZKVM_KECCAK_COLS_LENGTH);
        out.push(&self.hash_index);
        out.push(&self.step_index);
        push_refs(&mut out, &self.mode_flags);
        push_refs(&mut out, &self.pad_bytes_flags);
        push_refs(&mut out, &self.pad_suffix);
        push_refs(&mut out, &self.round_constants);
        push_refs(&mut out, &self.curr);
        push_refs(&mut out, &self.next);
        assert forall|i: int| 0 <= i < out@.len() implies *#[trigger] out@[i] == self@[i] by {
            if i >= NEXT_START {
                assert(*out@[i] == self.next@[i - NEXT_START]);
            } else if i >= CURR_START {
                assert(*out@[i] == self.curr@[i - CURR_START]);
            } else if i >= ROUND_CONSTANTS_START {
                assert(*out@[i] == self.round_constants@[i - ROUND_CONSTANTS_START]);
            } else if i >= PAD_SUFFIX_START {
                assert(*out@[i] == self.pad_suffix@[i - PAD_SUFFIX_START]);
            } else if i >= PAD_BYTES_FLAGS_START {
                assert(*out@[i] == self.pad_bytes_flags@[i - PAD_BYTES_FLAGS_START]);
            } else if i >= MODE_FLAGS_START {
                assert(*out@[i] == self.mode_flags@[i - MODE_FLAGS_START]);
            }
        }
        out
    }
}

/// Appends references to the elements of an array to a vector.
fn push_refs<'a, T, const N: usize>(out: &mut Vec<&'a T>, a: &'a [T; N])
    ensures
        final(out)@.len() == old(out)@.len() + N,
        forall|j: int| 0 <= j < old(out)@.len() ==> #[trigger] final(out)@[j] == old(out)@[j],
        forall|j: int|
            old(out)@.len() <= j < final(out)@.len() ==> *#[trigger] final(out)@[j] == a@[j
                - old(out)@.len()],
{
    let ghost start = out@;
    let mut i: usize = 0;
    while i < N
        invariant
            0 <= i <= N,
            a@.len() == N,
            out@.len() == start.len() + i,
            forall|j: int| 0 <= j < start.len() ==> #[trigger] out@[j] == start[j],
            forall|j: int|
                start.len() <= j < out@.len() ==> *#[trigger] out@[j] == a@[j - start.len()],
        decreases N - i,
    {
        out.push(&a[i]);
        i = i + 1;
    }
}

impl<T: Copy> KeccakColumns<T> {
    /// A row whose every cell holds `v`.
    pub fn filled(v: T) -> (r: Self)
        ensures
            r@.len() == ZKVM_KECCAK_COLS_LENGTH,
            forall|i: int| 0 <= i < ZKVM_KECCAK_COLS_LENGTH ==> #[trigger] r@[i] == v,
    {
        let r = KeccakColumns {
            hash_index: v,
            step_index: v,
            mode_flags: [v; MODE_FLAGS_COLS_LENGTH],
            pad_bytes_flags: [v; RATE_IN_BYTES],
            pad_suffix: [v; SUFFIX_COLS_LENGTH],
            round_constants: [v; QUARTERS],
            curr: [v; ZKVM_KECCAK_COLS_CURR],
            next: [v; ZKVM_KECCAK_COLS_NEXT],
        };
        assert(r@ =~= Seq::new(ZKVM_KECCAK_COLS_LENGTH as nat, |i: int| v));
        r
    }

    /// The cells of the row, in canonical order.
    pub fn to_vec(&self) -> (r: Vec<T>)
        ensures
            r@ == self@,
    {
        let mut out: Vec<T> = Vec::with_capacity(ZKVM_KECCAK_COLS_LENGTH);
        out.push(self.hash_index);
        out.push(self.step_index);
        push_all(&mut out, &self.mode_flags);
        push_all(&mut out, &self.pad_bytes_flags);
        push_all(&mut out, &self.pad_suffix);
        push_all(&mut out, &self.round_constants);
        push_all(&mut out, &self.curr);
        push_all(&mut out, &self.next);
        assert(out@ =~= self@);
        out
    }

    /// Consumes the row and yields its cells, in canonical order.
    pub fn into_vec(self) -> (r: Vec<T>)
        ensures
            r@ == self@,
    {
        self.to_vec()
    }

    /// Rebuilds a row from its cells in canonical order.
    pub fn from_vec(v: Vec<T>) -> (r: Self)
        requires
            v@.len() == ZKVM_KECCAK_COLS_LENGTH,
        ensures
            r@ == v@,
    {
        let r = KeccakColumns {
            hash_index: v[HASH_INDEX_POS],
            step_index: v[STEP_INDEX_POS],
            mode_flags: take_array(&v, MODE_FLAGS_START),
            pad_bytes_flags: take_array(&v, PAD_BYTES_FLAGS_START),
            pad_suffix: take_array(&v, PAD_SUFFIX_START),
            round_constants: take_array(&v, ROUND_CONSTANTS_START),
            curr: take_array(&v, CURR_START),
            next: take_array(&v, NEXT_START),
        };
        assert(r@ =~= v@);
        r
    }

    /// Rebuilds a row from its cells in canonical order, or `None` when
    /// their number is not the width of a row.
    pub fn try_from_vec(v: Vec<T>) -> (r: Option<Self>)
        ensures
            r is Some <==> v@.len() == ZKVM_KECCAK_COLS_LENGTH,
            r matches Some(row) ==> row@ == v@,
    {
        if v.len() == ZKVM_KECCAK_COLS_LENGTH {
            Some(Self::from_vec(v))
        } else {
            None
        }
    }
}

impl<T> std::ops::Index<KeccakColumn> for KeccakColumns<T> {
    type Output = T;

    /// The cell named by a column, as `get` reads it.
    fn index(&self, c: KeccakColumn) -> (r: &T)
        ensures
            *r == self.cell(c),
    {
        self.get(c)
    }
}

impl<T> vstd::std_specs::core::IndexSpecImpl<KeccakColumn> for KeccakColumns<T> {
    open spec fn index_req(&self, c: &KeccakColumn) -> bool {
        c.valid()
    }
}

impl<T: Copy> IntoIterator for KeccakColumns<T> {
    type Item = T;
    type IntoIter = std::vec::IntoIter<T>;

    /// Consumes the row and iterates over its cells, in canonical order.
    fn into_iter(self) -> (r: std::vec::IntoIter<T>)
        ensures
            r.remaining() == self@,
    {
        self.into_vec().into_iter()
    }
}

/// Appends the elements of an array to a vector.
fn push_all<T: Copy, const N: usize>(out: &mut Vec<T>, a: &[T; N])
    ensures
        final(out)@ == old(out)@ + a@,
{
    let ghost start = out@;
    let mut i: usize = 0;
    while i < N
        invariant
            0 <= i <= N,
            a@.len() == N,
            out@ == start + a@.subrange(0, i as int),
        decreases N - i,
    {
        out.push(a[i]);
        i = i + 1;
        assert(a@.subrange(0, i as int) =~= a@.subrange(0, i - 1) + seq![a@[i - 1]]);
    }
    assert(a@.subrange(0, N as int) =~= a@);
}

/// The `N` elements of `v` from `start` on, as an array.
fn take_array<T: Copy, const N: usize>(v: &Vec<T>, start: usize) -> (r: [T; N])
    requires
        0 < N,
        start + N <= v@.len(),
    ensures
        r@ == v@.subrange(start as int, start + N),
{
    let mut r: [T; N] = [v[start]; N];
    let mut i: usize = 0;
    while i < N
        invariant
            0 <= i <= N,
            start + N <= v.len(),
            r@.len() == N,
            forall|j: int| 0 <= j < i ==> #[trigger] r@[j] == v@[start + j],
        decreases N - i,
    {
        r[i] = v[start + i];
        i = i + 1;
    }
    assert(r@ =~= v@.subrange(start as int, start + N));
    r
}

/// An element type with an additive identity, which an untouched cell holds.
pub trait AdditiveIdentity: Sized + Copy {
    /// The additive identity.
    spec fn spec_zero() -> Self;

    /// Returns the additive identity.
    fn zero() -> (r: Self)
        ensures
            r == Self::spec_zero(),
    ;
}

impl AdditiveIdentity for u8 {
    open spec fn spec_zero() -> u8 {
        0
    }

    fn zero() -> (r: u8) {
        0
    }
}

impl AdditiveIdentity for u16 {
    open spec fn spec_zero() -> u16 {
        0
    }

    fn zero() -> (r: u16) {
        0
    }
}

impl AdditiveIdentity for u32 {
    open spec fn spec_zero() -> u32 {
        0
    }

    fn zero() -> (r: u32) {
        0
    }
}

impl AdditiveIdentity for u64 {
    open spec fn spec_zero() -> u64 {
        0
    }

    fn zero() -> (r: u64) {
        0
    }
}

impl AdditiveIdentity for u128 {
    open spec fn spec_zero() -> u128 {
        0
    }

    fn zero() -> (r: u128) {
        0
    }
}

impl AdditiveIdentity for usize {
    open spec fn spec_zero() -> usize {
        0
    }

    fn zero() -> (r: usize) {
        0
    }
}

impl AdditiveIdentity for i32 {
    open spec fn spec_zero() -> i32 {
        0
    }

    fn zero() -> (r: i32) {
        0
    }
}

impl AdditiveIdentity for i64 {
    open spec fn spec_zero() -> i64 {
        0
    }

    fn zero() -> (r: i64) {
        0
    }
}

impl AdditiveIdentity for i128 {
    open spec fn spec_zero() -> i128 {
        0
    }

    fn zero() -> (r: i128) {
        0
    }
}

impl<T: AdditiveIdentity> Default for KeccakColumns<T> {
    /// A row whose every cell holds the additive identity.
    fn default() -> (r: Self)
        ensures
            r@.len() == ZKVM_KECCAK_COLS_LENGTH,
            forall|i: int| 0 <= i < ZKVM_KECCAK_COLS_LENGTH ==> #[trigger] r@[i] == T::spec_zero(),
    {
        Self::filled(T::zero())
    }
}

/// A row is determined by its flat sequence: two rows with the same cells in
/// canonical order are the same row.
pub proof fn lemma_flat_determines_row<T>(a: KeccakColumns<T>, b: KeccakColumns<T>)
    requires
        a@ == b@,
    ensures
        a == b,
{
    assert(a.hash_index == a@[HASH_INDEX_POS as int]);
    assert(b.hash_index == b@[HASH_INDEX_POS as int]);
    assert(a.step_index == a@[STEP_INDEX_POS as int]);
    assert(b.step_index == b@[STEP_INDEX_POS as int]);
    assert(a.mode_flags@ =~= a@.subrange(MODE_FLAGS_START as int, PAD_BYTES_FLAGS_START as int));
    assert(b.mode_flags@ =~= b@.subrange(MODE_FLAGS_START as int, PAD_BYTES_FLAGS_START as int));
    assert(a.pad_bytes_flags@ =~= a@.subrange(PAD_BYTES_FLAGS_START as int, PAD_SUFFIX_START as int));
    assert(b.pad_bytes_flags@ =~= b@.subrange(PAD_BYTES_FLAGS_START as int, PAD_SUFFIX_START as int));
    assert(a.pad_suffix@ =~= a@.subrange(PAD_SUFFIX_START as int, ROUND_CONSTANTS_START as int));
    assert(b.pad_suffix@ =~= b@.subrange(PAD_SUFFIX_START as int, ROUND_CONSTANTS_START as int));
    assert(a.round_constants@ =~= a@.subrange(ROUND_CONSTANTS_START as int, CURR_START as int));
    assert(b.round_constants@ =~= b@.subrange(ROUND_CONSTANTS_START as int, CURR_START as int));
    assert(a.curr@ =~= a@.subrange(CURR_START as int, NEXT_START as int));
    assert(b.curr@ =~= b@.subrange(CURR_START as int, NEXT_START as int));
    assert(a.next@ =~= a@.subrange(NEXT_START as int, ZKVM_KECCAK_COLS_LENGTH as int));
    assert(b.next@ =~= b@.subrange(NEXT_START as int, ZKVM_KECCAK_COLS_LENGTH as int));
    assert(a.mode_flags =~= b.mode_flags);
    assert(a.pad_bytes_flags =~= b.pad_bytes_flags);
    assert(a.pad_suffix =~= b.pad_suffix);
    assert(a.round_constants =~= b.round_constants);
    assert(a.curr =~= b.curr);
    assert(a.next =~= b.next);
}

/// Flattening a row and rebuilding it gives the row back: a row whose flat
/// sequence is `r`'s flattening (what `from_vec` returns on `r.to_vec()`) is
/// `r`, cell for cell.
pub proof fn lemma_round_trip<T>(r: KeccakColumns<T>, flat: Seq<T>, rebuilt: KeccakColumns<T>)
    requires
        flat == r@,
        rebuilt@ == flat,
    ensures
        rebuilt == r,
        forall|c: KeccakColumn| c.valid() ==> #[trigger] rebuilt.cell(c) == r.cell(c),
{
    lemma_flat_determines_row(rebuilt, r);
}

/// A default row holds the additive identity in every cell, so in every
/// mode flag, padding flag, padding suffix and round constant.
pub proof fn lemma_default_is_zero<T: AdditiveIdentity>(r: KeccakColumns<T>)
    requires
        r@.len() == ZKVM_KECCAK_COLS_LENGTH,
        forall|i: int| 0 <= i < ZKVM_KECCAK_COLS_LENGTH ==> #[trigger] r@[i] == T::spec_zero(),
    ensures
        forall|c: KeccakColumn| c.valid() ==> #[trigger] r.cell(c) == T::spec_zero(),
        forall|i: int| 0 <= i < MODE_FLAGS_COLS_LENGTH ==> #[trigger] r.mode_flags@[i] == T::spec_zero(),
        forall|i: int| 0 <= i < RATE_IN_BYTES ==> #[trigger] r.pad_bytes_flags@[i] == T::spec_zero(),
        forall|i: int| 0 <= i < SUFFIX_COLS_LENGTH ==> #[trigger] r.pad_suffix@[i] == T::spec_zero(),
        forall|i: int| 0 <= i < QUARTERS ==> #[trigger] r.round_constants@[i] == T::spec_zero(),
{
    assert forall|c: KeccakColumn| c.valid() implies #[trigger] r.cell(c) == T::spec_zero() by {
        crate::column::lemma_column_in_row(c);
    }
    assert forall|i: int| 0 <= i < MODE_FLAGS_COLS_LENGTH implies #[trigger] r.mode_flags@[i] == T::spec_zero() by {
        assert(r.mode_flags@[i] == r@[MODE_FLAGS_START + i]);
    }
    assert forall|i: int| 0 <= i < RATE_IN_BYTES implies #[trigger] r.pad_bytes_flags@[i] == T::spec_zero() by {
        assert(r.pad_bytes_flags@[i] == r@[PAD_BYTES_FLAGS_START + i]);
    }
    assert forall|i: int| 0 <= i < SUFFIX_COLS_LENGTH implies #[trigger] r.pad_suffix@[i] == T::spec_zero() by {
        assert(r.pad_suffix@[i] == r@[PAD_SUFFIX_START + i]);
    }
    assert forall|i: int| 0 <= i < QUARTERS implies #[trigger] r.round_constants@[i] == T::spec_zero() by {
        assert(r.round_constants@[i] == r@[ROUND_CONSTANTS_START + i]);
    }
}

} // verus!
