use vstd::prelude::*;
use crate::error::PioError;

verus! {

/// Number of pins in the pin array.
pub const NUM_PINS: u32 = 32;

/// The two planes of the pin array: pin values and output enables.
pub struct GpioView {
    pub values: Seq<u8>,
    pub enables: Seq<u8>,
}

/// Bit `k` of `value`; bits above the eighth are zero.
pub open spec fn bit_of(value: u8, k: int) -> u8 {
    if 0 <= k < 8 {
        (value >> (k as u8)) & 1u8
    } else {
        0u8
    }
}

/// The distance from pin `base mod 32` forward to pin `i`, walking round the array.
pub open spec fn pin_offset(base: u32, i: int) -> int {
    let b = (base % 32) as int;
    if i >= b {
        i - b
    } else {
        i + 32 - b
    }
}

/// `plane` after bit `k` of `value` is written to pin `(base + k) mod 32`
/// for every `k < count`.
pub open spec fn write_range(plane: Seq<u8>, base: u32, count: u32, value: u8) -> Seq<u8> {
    Seq::new(
        plane.len(),
        |i: int|
            if pin_offset(base, i) < count {
                bit_of(value, pin_offset(base, i))
            } else {
                plane[i]
            },
    )
}

/// The pin array: 32 pins, each with a value bit and an output-enable bit.
#[derive(Debug)]
pub struct GPIO {
    inner: [u8; 32],
    inner_enable: [u8; 32],
}

impl View for GPIO {
    type V = GpioView;

    closed spec fn view(&self) -> GpioView {
        GpioView { values: self.inner@, enables: self.inner_enable@ }
    }
}

impl GPIO {
    /// Both planes hold 32 entries, each of them 0 or 1.
    pub open spec fn wf(&self) -> bool {
        &&& self@.values.len() == 32
        &&& self@.enables.len() == 32
        &&& forall|i: int| 0 <= i < 32 ==> #[trigger] self@.values[i] <= 1
        &&& forall|i: int| 0 <= i < 32 ==> #[trigger] self@.enables[i] <= 1
    }

    /// A pin array with every value and every output enable at 0.
    pub fn new() -> (r: Self)
        ensures
            r.wf(),
            r@.values == Seq::new(32, |i: int| 0u8),
            r@.enables == Seq::new(32, |i: int| 0u8),
    {
        let r = GPIO { inner: [0u8; 32], inner_enable: [0u8; 32] };
        assert(r@.values =~= Seq::new(32, |i: int| 0u8));
        assert(r@.enables =~= Seq::new(32, |i: int| 0u8));
        r
    }

    /// The value bit of pin `idx mod 32`.
    pub fn get_idx(&self, idx: usize) -> (r: u8)
        ensures
            r == self@.values[(idx % 32) as int],
    {
        self.inner[idx % 32]
    }

    /// The output-enable bit of pin `idx mod 32`.
    pub fn get_idx_enable(&self, idx: usize) -> (r: u8)
        ensures
            r == self@.enables[(idx % 32) as int],
    {
        self.inner_enable[idx % 32]
    }

    /// Writes bit `k` of `value` to the value of pin `(base + k) mod 32`, for each
    /// `k < count`. A count above 32 is refused before any pin changes.
    pub fn set_idx_continuous(&mut self, base: u32, count: u32, value: u8) -> (r: Result<
        (),
        PioError,
    >)
        ensures
            count <= NUM_PINS ==> r == Ok::<(), PioError>(()),
            count > NUM_PINS ==> r == Err::<(), PioError>(PioError::OutOfRange),
            r is Ok ==> final(self)@.values == write_range(old(self)@.values, base, count, value),
            r is Err ==> final(self)@.values == old(self)@.values,
            final(self)@.enables == old(self)@.enables,
            old(self).wf() ==> final(self).wf(),
    {
        if count > NUM_PINS {
            return Err(PioError::OutOfRange);
        }
        write_plane(&mut self.inner, base, count, value);
        Ok(())
    }

    /// Writes bit `k` of `value` to the output enable of pin `(base + k) mod 32`,
    /// for each `k < count`. A count above 32 is refused before any pin changes.
    pub fn set_idx_enable_continuous(&mut self, base: u32, count: u32, value: u8) -> (r: Result<
        (),
        PioError,
    >)
        ensures
            count <= NUM_PINS ==> r == Ok::<(), PioError>(()),
            count > NUM_PINS ==> r == Err::<(), PioError>(PioError::OutOfRange),
            r is Ok ==> final(self)@.enables == write_range(old(self)@.enables, base, count, value),
            r is Err ==> final(self)@.enables == old(self)@.enables,
            final(self)@.values == old(self)@.values,
            old(self).wf() ==> final(self).wf(),
    {
        if count > NUM_PINS {
            return Err(PioError::OutOfRange);
        }
        write_plane(&mut self.inner_enable, base, count, value);
        Ok(())
    }
}

/// Bit `k` of `value`, for any `k`.
fn bit_at(value: u8, k: u32) -> (r: u8)
    ensures
        r == bit_of(value, k as int),
        r <= 1,
{
    if k < 8 {
        let s = k as u8;
        let r = (value >> s) & 1u8;
        assert(((value >> s) & 1u8) <= 1u8) by (bit_vector);
        r
    } else {
        0u8
    }
}

fn write_plane(plane: &mut [u8; 32], base: u32, count: u32, value: u8)
    requires
        count <= 32,
    ensures
        final(plane)@ == write_range(old(plane)@, base, count, value),
        (forall|i: int| 0 <= i < 32 ==> #[trigger] old(plane)@[i] <= 1) ==> (forall|i: int|
            0 <= i < 32 ==> #[trigger] final(plane)@[i] <= 1),
{
    let b: u32 = base % 32;
    let ghost start = plane@;
    let mut x: u32 = 0;
    while x < count
        invariant
            x <= count,
            count <= 32,
            b == base % 32,
            plane@.len() == 32,
            start.len() == 32,
            forall|i: int|
                0 <= i < 32 ==> #[trigger] plane@[i] == (if pin_offset(base, i) < x {
                    bit_of(value, pin_offset(base, i))
                } else {
                    start[i]
                }),
            forall|i: int| 0 <= i < 32 && pin_offset(base, i) < x ==> #[trigger] plane@[i] <= 1,
        decreases count - x,
    {
        let bit = bit_at(value, x);
        let idx: u32 = if b + x < 32 {
            b + x
        } else {
            b + x - 32
        };
        plane[idx as usize] = bit;
        x = x + 1;
    }
    assert(plane@ =~= write_range(start, base, count, value));
}

} // verus!
