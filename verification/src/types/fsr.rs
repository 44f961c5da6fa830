//! The force sensitive resistors under the feet of the robot, and the arithmetic on their
//! readings.
//!
//! The arithmetic goes by the arithmetic of `T`, element by element: an operation asks of its
//! operands what `T` asks of them, and gives what `T` gives.

use crate::types::FillExt;
use std::ops::{Add, Div, Mul, Neg, Sub};
use vstd::prelude::*;
use vstd::std_specs::convert::FromSpec;
use vstd::std_specs::ops::{AddSpec, DivSpec, MulSpec, NegSpec, SubSpec};

verus! {

/// Struct containing the [`FsrFoot`] value for each foot.
#[derive(Clone, Debug, PartialEq)]
pub struct Fsr<T> {
    /// FSR values from the four sensors in the left foot.
    pub left_foot: FsrFoot<T>,
    /// FSR values from the four sensors in the right foot.
    pub right_foot: FsrFoot<T>,
}

/// The name that the force sensitive resistors of both feet go by in the backends.
pub type ForceSensitiveResistors<T> = Fsr<T>;

/// Struct representing the force sensitive resistors in one of the feet.
#[derive(Clone, Debug, PartialEq)]
pub struct FsrFoot<T> {
    /// FSR value representing the estimated weight in kilograms on the front left foot sensor.
    ///
    /// Please note that this value is approximate.
    pub front_left: T,
    /// FSR value representing the estimated weight in kilograms on the front right foot sensor.
    ///
    /// Please note that this value is approximate.
    pub front_right: T,
    /// FSR value representing the estimated weight in kilograms on the rear left foot sensor.
    ///
    /// Please note that this value is approximate.
    pub rear_left: T,
    /// FSR value representing the estimated weight in kilograms on the rear right foot sensor.
    ///
    /// Please note that this value is approximate.
    pub rear_right: T,
}

/// The name that the force sensitive resistors of one foot go by in the backends.
pub type ForceSensitiveResistorFoot<T> = FsrFoot<T>;

impl<T: Default> FsrFoot<T> {
    /// Whether every value that `self` holds is a default value of `T`.
    pub open spec fn is_default(self) -> bool {
        &&& call_ensures(T::default, (), self.front_left)
        &&& call_ensures(T::default, (), self.front_right)
        &&& call_ensures(T::default, (), self.rear_left)
        &&& call_ensures(T::default, (), self.rear_right)
    }
}

impl<T: Default> Default for FsrFoot<T> {
    fn default() -> (r: Self)
        ensures
            r.is_default(),
    {
        FsrFoot {
            front_left: T::default(),
            front_right: T::default(),
            rear_left: T::default(),
            rear_right: T::default(),
        }
    }
}

impl<T: Default> Fsr<T> {
    /// Whether every value that `self` holds is a default value of `T`.
    pub open spec fn is_default(self) -> bool {
        &&& self.left_foot.is_default()
        &&& self.right_foot.is_default()
    }
}

impl<T: Default> Default for Fsr<T> {
    fn default() -> (r: Self)
        ensures
            r.is_default(),
    {
        Fsr { left_foot: FsrFoot::default(), right_foot: FsrFoot::default() }
    }
}

impl<T: Clone> FillExt<T> for FsrFoot<T> {
    open spec fn filled(value: T) -> Self {
        FsrFoot {
            front_left: value,
            front_right: value,
            rear_left: value,
            rear_right: value,
        }
    }

    open spec fn cloned_from(self, source: Self) -> bool {
        &&& cloned(source.front_left, self.front_left)
        &&& cloned(source.front_right, self.front_right)
        &&& cloned(source.rear_left, self.rear_left)
        &&& cloned(source.rear_right, self.rear_right)
    }

    proof fn lemma_cloned_from(self, source: Self) {
    }

    fn fill(value: T) -> (r: Self) {
        FsrFoot {
            front_left: value.clone(),
            front_right: value.clone(),
            rear_left: value.clone(),
            rear_right: value.clone(),
        }
    }
}

impl<T: Copy + Add<Output = T>> FsrFoot<T> {
    /// Whether the four readings can be added from the first to the last.
    pub open spec fn sum_req(self) -> bool {
        &&& self.front_left.add_req(self.front_right)
        &&& self.front_left.add_spec(self.front_right).add_req(self.rear_left)
        &&& self.front_left.add_spec(self.front_right).add_spec(self.rear_left).add_req(
            self.rear_right,
        )
    }

    /// The four readings added from the first to the last.
    pub open spec fn spec_sum(self) -> T {
        self.front_left.add_spec(self.front_right).add_spec(self.rear_left).add_spec(
            self.rear_right,
        )
    }

    /// Computes the sum of the FSR sensor values for the foot.
    pub fn sum(&self) -> (r: T)
        requires
            T::obeys_add_spec(),
            self.sum_req(),
        ensures
            r == self.spec_sum(),
    {
        self.front_left + self.front_right + self.rear_left + self.rear_right
    }

    /// Computes the total pressure on the front sensors of the foot.
    ///
    /// # Note
    ///
    /// Since this value is the sum of two sensors, it can be up to twice as large
    /// as the reading from a single sensor.
    pub fn forward_pressure(&self) -> (r: T)
        requires
            self.front_left.add_req(self.front_right),
        ensures
            T::obeys_add_spec() ==> r == self.front_left.add_spec(self.front_right),
    {
        self.front_left + self.front_right
    }

    /// Computes the total pressure on the rear sensors of the foot.
    ///
    /// # Note
    ///
    /// Since this value is the sum of two sensors, it can be up to twice as large
    /// as the reading from a single sensor.
    pub fn backward_pressure(&self) -> (r: T)
        requires
            self.rear_left.add_req(self.rear_right),
        ensures
            T::obeys_add_spec() ==> r == self.rear_left.add_spec(self.rear_right),
    {
        self.rear_left + self.rear_right
    }

    /// Computes the total pressure on the left sensors of the foot.
    ///
    /// # Note
    ///
    /// Since this value is the sum of two sensors, it can be up to twice as large
    /// as the reading from a single sensor.
    pub fn left_pressure(&self) -> (r: T)
        requires
            self.front_left.add_req(self.rear_left),
        ensures
            T::obeys_add_spec() ==> r == self.front_left.add_spec(self.rear_left),
    {
        self.front_left + self.rear_left
    }

    /// Computes the total pressure on the right sensors of the foot.
    ///
    /// # Note
    ///
    /// Since this value is the sum of two sensors, it can be up to twice as large
    /// as the reading from a single sensor.
    pub fn right_pressure(&self) -> (r: T)
        requires
            self.front_right.add_req(self.rear_right),
        ensures
            T::obeys_add_spec() ==> r == self.front_right.add_spec(self.rear_right),
    {
        self.front_right + self.rear_right
    }
}

impl<T: Copy + Add<Output = T> + Mul<Output = T>> FsrFoot<T> {
    /// The reading of each sensor times its weight.
    pub open spec fn weighted(self, weights: FsrFoot<T>) -> FsrFoot<T> {
        FsrFoot {
            front_left: weights.front_left.mul_spec(self.front_left),
            front_right: weights.front_right.mul_spec(self.front_right),
            rear_left: weights.rear_left.mul_spec(self.rear_left),
            rear_right: weights.rear_right.mul_spec(self.rear_right),
        }
    }

    /// Whether each reading can be multiplied by its weight, and the products added.
    pub open spec fn weighted_sum_req(self, weights: FsrFoot<T>) -> bool {
        &&& weights.front_left.mul_req(self.front_left)
        &&& weights.front_right.mul_req(self.front_right)
        &&& weights.rear_left.mul_req(self.rear_left)
        &&& weights.rear_right.mul_req(self.rear_right)
        &&& self.weighted(weights).sum_req()
    }

    /// Compute the sum of the FSR sensor values, weighted by the provided weights.
    pub fn weighted_sum(&self, weights: &FsrFoot<T>) -> (r: T)
        requires
            T::obeys_add_spec(),
            T::obeys_mul_spec(),
            self.weighted_sum_req(*weights),
        ensures
            r == self.weighted(*weights).spec_sum(),
    {
        (weights.front_left * self.front_left) + (weights.front_right * self.front_right) + (
        weights.rear_left * self.rear_left) + (weights.rear_right * self.rear_right)
    }
}

impl<T: Copy + Add<Output = T> + Div<Output = T> + From<u8>> FsrFoot<T> {
    /// Calculates the average weight on the foot: the sum of the four readings, divided by 4.
    pub fn avg(&self) -> (r: T)
        requires
            T::obeys_add_spec(),
            T::obeys_from_spec(),
            self.sum_req(),
            self.spec_sum().div_req(T::from_spec(4u8)),
        ensures
            T::obeys_div_spec() ==> r == self.spec_sum().div_spec(T::from_spec(4u8)),
    {
        self.sum() / T::from(4u8)
    }
}

impl<T: Copy + Add<Output = T>> Fsr<T> {
    /// Whether the readings of each foot can be added, and the two sums after them.
    pub open spec fn sum_req(self) -> bool {
        &&& self.left_foot.sum_req()
        &&& self.right_foot.sum_req()
        &&& self.left_foot.spec_sum().add_req(self.right_foot.spec_sum())
    }

    /// The sum of the left foot plus the sum of the right foot.
    pub open spec fn spec_sum(self) -> T {
        self.left_foot.spec_sum().add_spec(self.right_foot.spec_sum())
    }

    /// Computes the sum of the FSR sensor values for both feet.
    pub fn sum(&self) -> (r: T)
        requires
            T::obeys_add_spec(),
            self.sum_req(),
        ensures
            r == self.spec_sum(),
    {
        self.left_foot.sum() + self.right_foot.sum()
    }
}

impl<T: Copy + Add<Output = T> + Mul<Output = T>> Fsr<T> {
    /// Compute the sum of the FSR sensor values, weighted by the provided weights.
    pub fn weighted_sum(&self, weights: &Fsr<T>) -> (r: T)
        requires
            T::obeys_add_spec(),
            T::obeys_mul_spec(),
            self.left_foot.weighted_sum_req(weights.left_foot),
            self.right_foot.weighted_sum_req(weights.right_foot),
            self.left_foot.weighted(weights.left_foot).spec_sum().add_req(
                self.right_foot.weighted(weights.right_foot).spec_sum(),
            ),
        ensures
            r == self.left_foot.weighted(weights.left_foot).spec_sum().add_spec(
                self.right_foot.weighted(weights.right_foot).spec_sum(),
            ),
    {
        self.left_foot.weighted_sum(&weights.left_foot) + self.right_foot.weighted_sum(
            &weights.right_foot,
        )
    }
}

impl<T: Copy + Add<Output = T> + Div<Output = T> + From<u8>> Fsr<T> {
    /// The average of one foot, as [`FsrFoot::avg`] computes it.
    pub open spec fn foot_avg(foot: FsrFoot<T>) -> T {
        foot.spec_sum().div_spec(T::from_spec(4u8))
    }

    /// Whether the average of each foot can be computed, and the average of the two after
    /// them.
    pub open spec fn avg_req(self) -> bool {
        &&& self.left_foot.sum_req()
        &&& self.right_foot.sum_req()
        &&& self.left_foot.spec_sum().div_req(T::from_spec(4u8))
        &&& self.right_foot.spec_sum().div_req(T::from_spec(4u8))
        &&& Self::foot_avg(self.left_foot).add_req(Self::foot_avg(self.right_foot))
        &&& Self::foot_avg(self.left_foot).add_spec(Self::foot_avg(self.right_foot)).div_req(
            T::from_spec(2u8),
        )
    }

    /// Calculates the average weight based on the measurement from the resistors in both feet:
    /// the average of the two averages.
    pub fn avg(&self) -> (r: T)
        requires
            T::obeys_add_spec(),
            T::obeys_div_spec(),
            T::obeys_from_spec(),
            self.avg_req(),
        ensures
            r == Self::foot_avg(self.left_foot).add_spec(Self::foot_avg(self.right_foot)).div_spec(
                T::from_spec(2u8),
            ),
    {
        (self.left_foot.avg() + self.right_foot.avg()) / T::from(2u8)
    }
}

impl<T> vstd::std_specs::ops::AddSpecImpl for FsrFoot<T> where T: Add<Output = T> {
    open spec fn obeys_add_spec() -> bool {
        T::obeys_add_spec()
    }

    open spec fn add_req(self, rhs: Self) -> bool {
        &&& self.front_left.add_req(rhs.front_left)
        &&& self.front_right.add_req(rhs.front_right)
        &&& self.rear_left.add_req(rhs.rear_left)
        &&& self.rear_right.add_req(rhs.rear_right)
    }

    open spec fn add_spec(self, rhs: Self) -> Self {
        FsrFoot {
            front_left: self.front_left.add_spec(rhs.front_left),
            front_right: self.front_right.add_spec(rhs.front_right),
            rear_left: self.rear_left.add_spec(rhs.rear_left),
            rear_right: self.rear_right.add_spec(rhs.rear_right),
        }
    }
}

impl<T> Add for FsrFoot<T> where T: Add<Output = T> {
    type Output = Self;

    fn add(self, rhs: Self) -> (r: Self) {
        Self::Output {
            front_left: self.front_left + rhs.front_left,
            front_right: self.front_right + rhs.front_right,
            rear_left: self.rear_left + rhs.rear_left,
            rear_right: self.rear_right + rhs.rear_right,
        }
    }
}

impl<T> vstd::std_specs::ops::AddSpecImpl for Fsr<T> where T: Add<Output = T> {
    open spec fn obeys_add_spec() -> bool {
        T::obeys_add_spec()
    }

    open spec fn add_req(self, rhs: Self) -> bool {
        &&& AddSpec::add_req(self.left_foot, rhs.left_foot)
        &&& AddSpec::add_req(self.right_foot, rhs.right_foot)
    }

    open spec fn add_spec(self, rhs: Self) -> Self {
        Fsr {
            left_foot: AddSpec::add_spec(self.left_foot, rhs.left_foot),
            right_foot: AddSpec::add_spec(self.right_foot, rhs.right_foot),
        }
    }
}

impl<T> Add for Fsr<T> where T: Add<Output = T> {
    type Output = Self;

    fn add(self, rhs: Self) -> (r: Self) {
        Self::Output {
            left_foot: self.left_foot + rhs.left_foot,
            right_foot: self.right_foot + rhs.right_foot,
        }
    }
}

impl<T> vstd::std_specs::ops::SubSpecImpl for FsrFoot<T> where T: Sub<Output = T> {
    open spec fn obeys_sub_spec() -> bool {
        T::obeys_sub_spec()
    }

    open spec fn sub_req(self, rhs: Self) -> bool {
        &&& self.front_left.sub_req(rhs.front_left)
        &&& self.front_right.sub_req(rhs.front_right)
        &&& self.rear_left.sub_req(rhs.rear_left)
        &&& self.rear_right.sub_req(rhs.rear_right)
    }

    open spec fn sub_spec(self, rhs: Self) -> Self {
        FsrFoot {
            front_left: self.front_left.sub_spec(rhs.front_left),
            front_right: self.front_right.sub_spec(rhs.front_right),
            rear_left: self.rear_left.sub_spec(rhs.rear_left),
            rear_right: self.rear_right.sub_spec(rhs.rear_right),
        }
    }
}

impl<T> Sub for FsrFoot<T> where T: Sub<Output = T> {
    type Output = Self;

    fn sub(self, rhs: Self) -> (r: Self) {
        Self::Output {
            front_left: self.front_left - rhs.front_left,
            front_right: self.front_right - rhs.front_right,
            rear_left: self.rear_left - rhs.rear_left,
            rear_right: self.rear_right - rhs.rear_right,
        }
    }
}

impl<T> vstd::std_specs::ops::SubSpecImpl for Fsr<T> where T: Sub<Output = T> {
    open spec fn obeys_sub_spec() -> bool {
        T::obeys_sub_spec()
    }

    open spec fn sub_req(self, rhs: Self) -> bool {
        &&& SubSpec::sub_req(self.left_foot, rhs.left_foot)
        &&& SubSpec::sub_req(self.right_foot, rhs.right_foot)
    }

    open spec fn sub_spec(self, rhs: Self) -> Self {
        Fsr {
            left_foot: SubSpec::sub_spec(self.left_foot, rhs.left_foot),
            right_foot: SubSpec::sub_spec(self.right_foot, rhs.right_foot),
        }
    }
}

impl<T> Sub for Fsr<T> where T: Sub<Output = T> {
    type Output = Self;

    fn sub(self, rhs: Self) -> (r: Self) {
        Self::Output {
            left_foot: self.left_foot - rhs.left_foot,
            right_foot: self.right_foot - rhs.right_foot,
        }
    }
}

impl<T> vstd::std_specs::ops::MulSpecImpl for FsrFoot<T> where T: Mul<Output = T> {
    open spec fn obeys_mul_spec() -> bool {
        T::obeys_mul_spec()
    }

    open spec fn mul_req(self, rhs: Self) -> bool {
        &&& self.front_left.mul_req(rhs.front_left)
        &&& self.front_right.mul_req(rhs.front_right)
        &&& self.rear_left.mul_req(rhs.rear_left)
        &&& self.rear_right.mul_req(rhs.rear_right)
    }

    open spec fn mul_spec(self, rhs: Self) -> Self {
        FsrFoot {
            front_left: self.front_left.mul_spec(rhs.front_left),
            front_right: self.front_right.mul_spec(rhs.front_right),
            rear_left: self.rear_left.mul_spec(rhs.rear_left),
            rear_right: self.rear_right.mul_spec(rhs.rear_right),
        }
    }
}

impl<T> Mul for FsrFoot<T> where T: Mul<Output = T> {
    type Output = Self;

    fn mul(self, rhs: Self) -> (r: Self) {
        Self::Output {
            front_left: self.front_left * rhs.front_left,
            front_right: self.front_right * rhs.front_right,
            rear_left: self.rear_left * rhs.rear_left,
            rear_right: self.rear_right * rhs.rear_right,
        }
    }
}

impl<T> vstd::std_specs::ops::MulSpecImpl for Fsr<T> where T: Mul<Output = T> {
    open spec fn obeys_mul_spec() -> bool {
        T::obeys_mul_spec()
    }

    open spec fn mul_req(self, rhs: Self) -> bool {
        &&& MulSpec::mul_req(self.left_foot, rhs.left_foot)
        &&& MulSpec::mul_req(self.right_foot, rhs.right_foot)
    }

    open spec fn mul_spec(self, rhs: Self) -> Self {
        Fsr {
            left_foot: MulSpec::mul_spec(self.left_foot, rhs.left_foot),
            right_foot: MulSpec::mul_spec(self.right_foot, rhs.right_foot),
        }
    }
}

impl<T> Mul for Fsr<T> where T: Mul<Output = T> {
    type Output = Self;

    fn mul(self, rhs: Self) -> (r: Self) {
        Self::Output {
            left_foot: self.left_foot * rhs.left_foot,
            right_foot: self.right_foot * rhs.right_foot,
        }
    }
}

impl<T> vstd::std_specs::ops::DivSpecImpl for FsrFoot<T> where T: Div<Output = T> {
    open spec fn obeys_div_spec() -> bool {
        T::obeys_div_spec()
    }

    open spec fn div_req(self, rhs: Self) -> bool {
        &&& self.front_left.div_req(rhs.front_left)
        &&& self.front_right.div_req(rhs.front_right)
        &&& self.rear_left.div_req(rhs.rear_left)
        &&& self.rear_right.div_req(rhs.rear_right)
    }

    open spec fn div_spec(self, rhs: Self) -> Self {
        FsrFoot {
            front_left: self.front_left.div_spec(rhs.front_left),
            front_right: self.front_right.div_spec(rhs.front_right),
            rear_left: self.rear_left.div_spec(rhs.rear_left),
            rear_right: self.rear_right.div_spec(rhs.rear_right),
        }
    }
}

impl<T> Div for FsrFoot<T> where T: Div<Output = T> {
    type Output = Self;

    fn div(self, rhs: Self) -> (r: Self) {
        Self::Output {
            front_left: self.front_left / rhs.front_left,
            front_right: self.front_right / rhs.front_right,
            rear_left: self.rear_left / rhs.rear_left,
            rear_right: self.rear_right / rhs.rear_right,
        }
    }
}

impl<T> vstd::std_specs::ops::DivSpecImpl for Fsr<T> where T: Div<Output = T> {
    open spec fn obeys_div_spec() -> bool {
        T::obeys_div_spec()
    }

    open spec fn div_req(self, rhs: Self) -> bool {
        &&& DivSpec::div_req(self.left_foot, rhs.left_foot)
        &&& DivSpec::div_req(self.right_foot, rhs.right_foot)
    }

    open spec fn div_spec(self, rhs: Self) -> Self {
        Fsr {
            left_foot: DivSpec::div_spec(self.left_foot, rhs.left_foot),
            right_foot: DivSpec::div_spec(self.right_foot, rhs.right_foot),
        }
    }
}

impl<T> Div for Fsr<T> where T: Div<Output = T> {
    type Output = Self;

    fn div(self, rhs: Self) -> (r: Self) {
        Self::Output {
            left_foot: self.left_foot / rhs.left_foot,
            right_foot: self.right_foot / rhs.right_foot,
        }
    }
}

impl<T> vstd::std_specs::ops::NegSpecImpl for FsrFoot<T> where T: Neg<Output = T> {
    open spec fn obeys_neg_spec() -> bool {
        T::obeys_neg_spec()
    }

    open spec fn neg_req(self) -> bool {
        &&& self.front_left.neg_req()
        &&& self.front_right.neg_req()
        &&& self.rear_left.neg_req()
        &&& self.rear_right.neg_req()
    }

    open spec fn neg_spec(self) -> Self {
        FsrFoot {
            front_left: self.front_left.neg_spec(),
            front_right: self.front_right.neg_spec(),
            rear_left: self.rear_left.neg_spec(),
            rear_right: self.rear_right.neg_spec(),
        }
    }
}

impl<T> Neg for FsrFoot<T> where T: Neg<Output = T> {
    type Output = Self;

    fn neg(self) -> (r: Self) {
        Self::Output {
            front_left: self.front_left.neg(),
            front_right: self.front_right.neg(),
            rear_left: self.rear_left.neg(),
            rear_right: self.rear_right.neg(),
        }
    }
}

impl<T> vstd::std_specs::ops::NegSpecImpl for Fsr<T> where T: Neg<Output = T> {
    open spec fn obeys_neg_spec() -> bool {
        T::obeys_neg_spec()
    }

    open spec fn neg_req(self) -> bool {
        &&& NegSpec::neg_req(self.left_foot)
        &&& NegSpec::neg_req(self.right_foot)
    }

    open spec fn neg_spec(self) -> Self {
        Fsr {
            left_foot: NegSpec::neg_spec(self.left_foot),
            right_foot: NegSpec::neg_spec(self.right_foot),
        }
    }
}

impl<T> Neg for Fsr<T> where T: Neg<Output = T> {
    type Output = Self;

    fn neg(self) -> (r: Self) {
        Self::Output {
            left_foot: self.left_foot.neg(),
            right_foot: self.right_foot.neg(),
        }
    }
}

} // verus!
