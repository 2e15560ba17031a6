//! Adding and subtracting one, the statements that the expansion performs on
//! its operand.

use vstd::prelude::*;

verus! {

/// A value to which `++` and `--` apply: `x += 1` and `x -= 1` of the
/// expanded code.  Every implementation states when each step is defined and
/// what it gives; the primitive integers implement it below.
pub trait Steppable: Sized {
    /// `x += 1` is defined on `self` (for an integer: it does not overflow).
    spec fn can_step_up(&self) -> bool;

    /// `x -= 1` is defined on `self`.
    spec fn can_step_down(&self) -> bool;

    /// The value of `self` after `x += 1`.
    spec fn stepped_up(&self) -> Self;

    /// The value of `self` after `x -= 1`.
    spec fn stepped_down(&self) -> Self;

    /// `x += 1`.
    fn step_up(&mut self)
        requires
            old(self).can_step_up(),
        ensures
            *final(self) == old(self).stepped_up(),
    ;

    /// `x -= 1`.
    fn step_down(&mut self)
        requires
            old(self).can_step_down(),
        ensures
            *final(self) == old(self).stepped_down(),
    ;
}

impl Steppable for i8 {
    open spec fn can_step_up(&self) -> bool {
        *self < i8::MAX
    }

    open spec fn can_step_down(&self) -> bool {
        *self > i8::MIN
    }

    open spec fn stepped_up(&self) -> i8 {
        (*self + 1) as i8
    }

    open spec fn stepped_down(&self) -> i8 {
        (*self - 1) as i8
    }

    fn step_up(&mut self) {
        *self += 1;
    }

    fn step_down(&mut self) {
        *self -= 1;
    }
}

impl Steppable for i16 {
    open spec fn can_step_up(&self) -> bool {
        *self < i16::MAX
    }

    open spec fn can_step_down(&self) -> bool {
        *self > i16::MIN
    }

    open spec fn stepped_up(&self) -> i16 {
        (*self + 1) as i16
    }

    open spec fn stepped_down(&self) -> i16 {
        (*self - 1) as i16
    }

    fn step_up(&mut self) {
        *self += 1;
    }

    fn step_down(&mut self) {
        *self -= 1;
    }
}

impl Steppable for i32 {
    open spec fn can_step_up(&self) -> bool {
        *self < i32::MAX
    }

    open spec fn can_step_down(&self) -> bool {
        *self > i32::MIN
    }

    open spec fn stepped_up(&self) -> i32 {
        (*self + 1) as i32
    }

    open spec fn stepped_down(&self) -> i32 {
        (*self - 1) as i32
    }

    fn step_up(&mut self) {
        *self += 1;
    }

    fn step_down(&mut self) {
        *self -= 1;
    }
}

impl Steppable for i64 {
    open spec fn can_step_up(&self) -> bool {
        *self < i64::MAX
    }

    open spec fn can_step_down(&self) -> bool {
        *self > i64::MIN
    }

    open spec fn stepped_up(&self) -> i64 {
        (*self + 1) as i64
    }

    open spec fn stepped_down(&self) -> i64 {
        (*self - 1) as i64
    }

    fn step_up(&mut self) {
        *self += 1;
    }

    fn step_down(&mut self) {
        *self -= 1;
    }
}

impl Steppable for i128 {
    open spec fn can_step_up(&self) -> bool {
        *self < i128::MAX
    }

    open spec fn can_step_down(&self) -> bool {
        *self > i128::MIN
    }

    open spec fn stepped_up(&self) -> i128 {
        (*self + 1) as i128
    }

    open spec fn stepped_down(&self) -> i128 {
        (*self - 1) as i128
    }

    fn step_up(&mut self) {
        *self += 1;
    }

    fn step_down(&mut self) {
        *self -= 1;
    }
}

impl Steppable for isize {
    open spec fn can_step_up(&self) -> bool {
        *self < isize::MAX
    }

    open spec fn can_step_down(&self) -> bool {
        *self > isize::MIN
    }

    open spec fn stepped_up(&self) -> isize {
        (*self + 1) as isize
    }

    open spec fn stepped_down(&self) -> isize {
        (*self - 1) as isize
    }

    fn step_up(&mut self) {
        *self += 1;
    }

    fn step_down(&mut self) {
        *self -= 1;
    }
}

impl Steppable for u8 {
    open spec fn can_step_up(&self) -> bool {
        *self < u8::MAX
    }

    open spec fn can_step_down(&self) -> bool {
        *self > u8::MIN
    }

    open spec fn stepped_up(&self) -> u8 {
        (*self + 1) as u8
    }

    open spec fn stepped_down(&self) -> u8 {
        (*self - 1) as u8
    }

    fn step_up(&mut self) {
        *self += 1;
    }

    fn step_down(&mut self) {
        *self -= 1;
    }
}

impl Steppable for u16 {
    open spec fn can_step_up(&self) -> bool {
        *self < u16::MAX
    }

    open spec fn can_step_down(&self) -> bool {
        *self > u16::MIN
    }

    open spec fn stepped_up(&self) -> u16 {
        (*self + 1) as u16
    }

    open spec fn stepped_down(&self) -> u16 {
        (*self - 1) as u16
    }

    fn step_up(&mut self) {
        *self += 1;
    }

    fn step_down(&mut self) {
        *self -= 1;
    }
}

impl Steppable for u32 {
    open spec fn can_step_up(&self) -> bool {
        *self < u32::MAX
    }

    open spec fn can_step_down(&self) -> bool {
        *self > u32::MIN
    }

    open spec fn stepped_up(&self) -> u32 {
        (*self + 1) as u32
    }

    open spec fn stepped_down(&self) -> u32 {
        (*self - 1) as u32
    }

    fn step_up(&mut self) {
        *self += 1;
    }

    fn step_down(&mut self) {
        *self -= 1;
    }
}

impl Steppable for u64 {
    open spec fn can_step_up(&self) -> bool {
        *self < u64::MAX
    }

    open spec fn can_step_down(&self) -> bool {
        *self > u64::MIN
    }

    open spec fn stepped_up(&self) -> u64 {
        (*self + 1) as u64
    }

    open spec fn stepped_down(&self) -> u64 {
        (*self - 1) as u64
    }

    fn step_up(&mut self) {
        *self += 1;
    }

    fn step_down(&mut self) {
        *self -= 1;
    }
}

impl Steppable for u128 {
    open spec fn can_step_up(&self) -> bool {
        *self < u128::MAX
    }

    open spec fn can_step_down(&self) -> bool {
        *self > u128::MIN
    }

    open spec fn stepped_up(&self) -> u128 {
        (*self + 1) as u128
    }

    open spec fn stepped_down(&self) -> u128 {
        (*self - 1) as u128
    }

    fn step_up(&mut self) {
        *self += 1;
    }

    fn step_down(&mut self) {
        *self -= 1;
    }
}

impl Steppable for usize {
    open spec fn can_step_up(&self) -> bool {
        *self < usize::MAX
    }

    open spec fn can_step_down(&self) -> bool {
        *self > usize::MIN
    }

    open spec fn stepped_up(&self) -> usize {
        (*self + 1) as usize
    }

    open spec fn stepped_down(&self) -> usize {
        (*self - 1) as usize
    }

    fn step_up(&mut self) {
        *self += 1;
    }

    fn step_down(&mut self) {
        *self -= 1;
    }
}

} // verus!
