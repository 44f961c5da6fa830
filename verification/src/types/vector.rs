//! Implements [`Vector3`] and [`Vector2`] types and associated traits, used for directional data.
//!
//! The arithmetic is element-wise and goes by the arithmetic of `T`: an operation on two
//! vectors asks of each pair of elements what `T` asks of its operands, and gives in each
//! element what `T` gives.

use crate::types::FillExt;
use std::ops::{Add, Div, Mul, Sub};
use vstd::prelude::*;
use vstd::std_specs::iter::IteratorSpec;
use vstd::std_specs::ops::{AddSpec, DivSpec, MulSpec, SubSpec};

verus! {

/// Struct representing a two-dimensional vector, containing two values of type `T`
#[derive(Debug, Clone, Copy, PartialEq)]
pub struct Vector2<T> {
    pub x: T,
    pub y: T,
}

/// Struct representing a three-dimensional vector, containing three values of type `T`
#[derive(Debug, Clone, Copy, PartialEq)]
pub struct Vector3<T> {
    pub x: T,
    pub y: T,
    pub z: T,
}

impl<T> vstd::std_specs::ops::AddSpecImpl for Vector2<T> where T: Add<Output = T> {
    open spec fn obeys_add_spec() -> bool {
        T::obeys_add_spec()
    }

    open spec fn add_req(self, rhs: Self) -> bool {
        self.x.add_req(rhs.x) && self.y.add_req(rhs.y)
    }

    open spec fn add_spec(self, rhs: Self) -> Self {
        Vector2 { x: self.x.add_spec(rhs.x), y: self.y.add_spec(rhs.y) }
    }
}

/// Element-wise addition for [`Vector2`] struct
impl<T> Add for Vector2<T> where T: Add<Output = T> {
    type Output = Self;

    fn add(self, rhs: Self) -> (r: Self) {
        Vector2 { x: self.x + rhs.x, y: self.y + rhs.y }
    }
}

impl<'a, T> vstd::std_specs::ops::AddSpecImpl<&'a Vector2<T>> for Vector2<T> where
    T: Copy + Add<Output = T>,
 {
    open spec fn obeys_add_spec() -> bool {
        T::obeys_add_spec()
    }

    open spec fn add_req(self, rhs: &'a Vector2<T>) -> bool {
        <Vector2<T> as AddSpec>::add_req(self, *rhs)
    }

    open spec fn add_spec(self, rhs: &'a Vector2<T>) -> Vector2<T> {
        <Vector2<T> as AddSpec>::add_spec(self, *rhs)
    }
}

impl<'a, T> Add<&'a Vector2<T>> for Vector2<T> where
    T: Copy + Add<Output = T>,
 {
    type Output = Vector2<T>;

    fn add(self, rhs: &'a Vector2<T>) -> (r: Vector2<T>) {
        self + *rhs
    }
}

impl<'a, T> vstd::std_specs::ops::AddSpecImpl<Vector2<T>> for &'a Vector2<T> where
    T: Copy + Add<Output = T>,
 {
    open spec fn obeys_add_spec() -> bool {
        T::obeys_add_spec()
    }

    open spec fn add_req(self, rhs: Vector2<T>) -> bool {
        <Vector2<T> as AddSpec>::add_req(*self, rhs)
    }

    open spec fn add_spec(self, rhs: Vector2<T>) -> Vector2<T> {
        <Vector2<T> as AddSpec>::add_spec(*self, rhs)
    }
}

impl<'a, T> Add<Vector2<T>> for &'a Vector2<T> where
    T: Copy + Add<Output = T>,
 {
    type Output = Vector2<T>;

    fn add(self, rhs: Vector2<T>) -> (r: Vector2<T>) {
        *self + rhs
    }
}

impl<'a, T> vstd::std_specs::ops::AddSpecImpl<&'a Vector2<T>> for &'a Vector2<T> where
    T: Copy + Add<Output = T>,
 {
    open spec fn obeys_add_spec() -> bool {
        T::obeys_add_spec()
    }

    open spec fn add_req(self, rhs: &'a Vector2<T>) -> bool {
        <Vector2<T> as AddSpec>::add_req(*self, *rhs)
    }

    open spec fn add_spec(self, rhs: &'a Vector2<T>) -> Vector2<T> {
        <Vector2<T> as AddSpec>::add_spec(*self, *rhs)
    }
}

impl<'a, T> Add<&'a Vector2<T>> for &'a Vector2<T> where
    T: Copy + Add<Output = T>,
 {
    type Output = Vector2<T>;

    fn add(self, rhs: &'a Vector2<T>) -> (r: Vector2<T>) {
        *self + *rhs
    }
}

impl<T> vstd::std_specs::ops::SubSpecImpl for Vector2<T> where T: Sub<Output = T> {
    open spec fn obeys_sub_spec() -> bool {
        T::obeys_sub_spec()
    }

    open spec fn sub_req(self, rhs: Self) -> bool {
        self.x.sub_req(rhs.x) && self.y.sub_req(rhs.y)
    }

    open spec fn sub_spec(self, rhs: Self) -> Self {
        Vector2 { x: self.x.sub_spec(rhs.x), y: self.y.sub_spec(rhs.y) }
    }
}

/// Element-wise subtraction for [`Vector2`] struct
impl<T> Sub for Vector2<T> where T: Sub<Output = T> {
    type Output = Self;

    fn sub(self, rhs: Self) -> (r: Self) {
        Vector2 { x: self.x - rhs.x, y: self.y - rhs.y }
    }
}

impl<'a, T> vstd::std_specs::ops::SubSpecImpl<&'a Vector2<T>> for Vector2<T> where
    T: Copy + Sub<Output = T>,
 {
    open spec fn obeys_sub_spec() -> bool {
        T::obeys_sub_spec()
    }

    open spec fn sub_req(self, rhs: &'a Vector2<T>) -> bool {
        <Vector2<T> as SubSpec>::sub_req(self, *rhs)
    }

    open spec fn sub_spec(self, rhs: &'a Vector2<T>) -> Vector2<T> {
        <Vector2<T> as SubSpec>::sub_spec(self, *rhs)
    }
}

impl<'a, T> Sub<&'a Vector2<T>> for Vector2<T> where
    T: Copy + Sub<Output = T>,
 {
    type Output = Vector2<T>;

    fn sub(self, rhs: &'a Vector2<T>) -> (r: Vector2<T>) {
        self - *rhs
    }
}

impl<'a, T> vstd::std_specs::ops::SubSpecImpl<Vector2<T>> for &'a Vector2<T> where
    T: Copy + Sub<Output = T>,
 {
    open spec fn obeys_sub_spec() -> bool {
        T::obeys_sub_spec()
    }

    open spec fn sub_req(self, rhs: Vector2<T>) -> bool {
        <Vector2<T> as SubSpec>::sub_req(*self, rhs)
    }

    open spec fn sub_spec(self, rhs: Vector2<T>) -> Vector2<T> {
        <Vector2<T> as SubSpec>::sub_spec(*self, rhs)
    }
}

impl<'a, T> Sub<Vector2<T>> for &'a Vector2<T> where
    T: Copy + Sub<Output = T>,
 {
    type Output = Vector2<T>;

    fn sub(self, rhs: Vector2<T>) -> (r: Vector2<T>) {
        *self - rhs
    }
}

impl<'a, T> vstd::std_specs::ops::SubSpecImpl<&'a Vector2<T>> for &'a Vector2<T> where
    T: Copy + Sub<Output = T>,
 {
    open spec fn obeys_sub_spec() -> bool {
        T::obeys_sub_spec()
    }

    open spec fn sub_req(self, rhs: &'a Vector2<T>) -> bool {
        <Vector2<T> as SubSpec>::sub_req(*self, *rhs)
    }

    open spec fn sub_spec(self, rhs: &'a Vector2<T>) -> Vector2<T> {
        <Vector2<T> as SubSpec>::sub_spec(*self, *rhs)
    }
}

impl<'a, T> Sub<&'a Vector2<T>> for &'a Vector2<T> where
    T: Copy + Sub<Output = T>,
 {
    type Output = Vector2<T>;

    fn sub(self, rhs: &'a Vector2<T>) -> (r: Vector2<T>) {
        *self - *rhs
    }
}

impl<T> vstd::std_specs::ops::DivSpecImpl for Vector2<T> where T: Div<Output = T> {
    open spec fn obeys_div_spec() -> bool {
        T::obeys_div_spec()
    }

    open spec fn div_req(self, rhs: Self) -> bool {
        self.x.div_req(rhs.x) && self.y.div_req(rhs.y)
    }

    open spec fn div_spec(self, rhs: Self) -> Self {
        Vector2 { x: self.x.div_spec(rhs.x), y: self.y.div_spec(rhs.y) }
    }
}

/// Element-wise division for [`Vector2`] struct
impl<T> Div for Vector2<T> where T: Div<Output = T> {
    type Output = Self;

    fn div(self, rhs: Self) -> (r: Self) {
        Vector2 { x: self.x / rhs.x, y: self.y / rhs.y }
    }
}

impl<'a, T> vstd::std_specs::ops::DivSpecImpl<&'a Vector2<T>> for Vector2<T> where
    T: Copy + Div<Output = T>,
 {
    open spec fn obeys_div_spec() -> bool {
        T::obeys_div_spec()
    }

    open spec fn div_req(self, rhs: &'a Vector2<T>) -> bool {
        <Vector2<T> as DivSpec>::div_req(self, *rhs)
    }

    open spec fn div_spec(self, rhs: &'a Vector2<T>) -> Vector2<T> {
        <Vector2<T> as DivSpec>::div_spec(self, *rhs)
    }
}

impl<'a, T> Div<&'a Vector2<T>> for Vector2<T> where
    T: Copy + Div<Output = T>,
 {
    type Output = Vector2<T>;

    fn div(self, rhs: &'a Vector2<T>) -> (r: Vector2<T>) {
        self / *rhs
    }
}

impl<'a, T> vstd::std_specs::ops::DivSpecImpl<Vector2<T>> for &'a Vector2<T> where
    T: Copy + Div<Output = T>,
 {
    open spec fn obeys_div_spec() -> bool {
        T::obeys_div_spec()
    }

    open spec fn div_req(self, rhs: Vector2<T>) -> bool {
        <Vector2<T> as DivSpec>::div_req(*self, rhs)
    }

    open spec fn div_spec(self, rhs: Vector2<T>) -> Vector2<T> {
        <Vector2<T> as DivSpec>::div_spec(*self, rhs)
    }
}

impl<'a, T> Div<Vector2<T>> for &'a Vector2<T> where
    T: Copy + Div<Output = T>,
 {
    type Output = Vector2<T>;

    fn div(self, rhs: Vector2<T>) -> (r: Vector2<T>) {
        *self / rhs
    }
}

impl<'a, T> vstd::std_specs::ops::DivSpecImpl<&'a Vector2<T>> for &'a Vector2<T> where
    T: Copy + Div<Output = T>,
 {
    open spec fn obeys_div_spec() -> bool {
        T::obeys_div_spec()
    }

    open spec fn div_req(self, rhs: &'a Vector2<T>) -> bool {
        <Vector2<T> as DivSpec>::div_req(*self, *rhs)
    }

    open spec fn div_spec(self, rhs: &'a Vector2<T>) -> Vector2<T> {
        <Vector2<T> as DivSpec>::div_spec(*self, *rhs)
    }
}

impl<'a, T> Div<&'a Vector2<T>> for &'a Vector2<T> where
    T: Copy + Div<Output = T>,
 {
    type Output = Vector2<T>;

    fn div(self, rhs: &'a Vector2<T>) -> (r: Vector2<T>) {
        *self / *rhs
    }
}

impl<T> vstd::std_specs::ops::MulSpecImpl for Vector2<T> where T: Mul<Output = T> {
    open spec fn obeys_mul_spec() -> bool {
        T::obeys_mul_spec()
    }

    open spec fn mul_req(self, rhs: Self) -> bool {
        self.x.mul_req(rhs.x) && self.y.mul_req(rhs.y)
    }

    open spec fn mul_spec(self, rhs: Self) -> Self {
        Vector2 { x: self.x.mul_spec(rhs.x), y: self.y.mul_spec(rhs.y) }
    }
}

/// Element-wise multiplication for [`Vector2`] struct
impl<T> Mul for Vector2<T> where T: Mul<Output = T> {
    type Output = Self;

    fn mul(self, rhs: Self) -> (r: Self) {
        Vector2 { x: self.x * rhs.x, y: self.y * rhs.y }
    }
}

impl<'a, T> vstd::std_specs::ops::MulSpecImpl<&'a Vector2<T>> for Vector2<T> where
    T: Copy + Mul<Output = T>,
 {
    open spec fn obeys_mul_spec() -> bool {
        T::obeys_mul_spec()
    }

    open spec fn mul_req(self, rhs: &'a Vector2<T>) -> bool {
        <Vector2<T> as MulSpec>::mul_req(self, *rhs)
    }

    open spec fn mul_spec(self, rhs: &'a Vector2<T>) -> Vector2<T> {
        <Vector2<T> as MulSpec>::mul_spec(self, *rhs)
    }
}

impl<'a, T> Mul<&'a Vector2<T>> for Vector2<T> where
    T: Copy + Mul<Output = T>,
 {
    type Output = Vector2<T>;

    fn mul(self, rhs: &'a Vector2<T>) -> (r: Vector2<T>) {
        self * *rhs
    }
}

impl<'a, T> vstd::std_specs::ops::MulSpecImpl<Vector2<T>> for &'a Vector2<T> where
    T: Copy + Mul<Output = T>,
 {
    open spec fn obeys_mul_spec() -> bool {
        T::obeys_mul_spec()
    }

    open spec fn mul_req(self, rhs: Vector2<T>) -> bool {
        <Vector2<T> as MulSpec>::mul_req(*self, rhs)
    }

    open spec fn mul_spec(self, rhs: Vector2<T>) -> Vector2<T> {
        <Vector2<T> as MulSpec>::mul_spec(*self, rhs)
    }
}

impl<'a, T> Mul<Vector2<T>> for &'a Vector2<T> where
    T: Copy + Mul<Output = T>,
 {
    type Output = Vector2<T>;

    fn mul(self, rhs: Vector2<T>) -> (r: Vector2<T>) {
        *self * rhs
    }
}

impl<'a, T> vstd::std_specs::ops::MulSpecImpl<&'a Vector2<T>> for &'a Vector2<T> where
    T: Copy + Mul<Output = T>,
 {
    open spec fn obeys_mul_spec() -> bool {
        T::obeys_mul_spec()
    }

    open spec fn mul_req(self, rhs: &'a Vector2<T>) -> bool {
        <Vector2<T> as MulSpec>::mul_req(*self, *rhs)
    }

    open spec fn mul_spec(self, rhs: &'a Vector2<T>) -> Vector2<T> {
        <Vector2<T> as MulSpec>::mul_spec(*self, *rhs)
    }
}

impl<'a, T> Mul<&'a Vector2<T>> for &'a Vector2<T> where
    T: Copy + Mul<Output = T>,
 {
    type Output = Vector2<T>;

    fn mul(self, rhs: &'a Vector2<T>) -> (r: Vector2<T>) {
        *self * *rhs
    }
}

impl<T: Default> Vector2<T> {
    /// Whether every element of `self` is a default value of `T`.
    pub open spec fn is_default(self) -> bool {
        &&& call_ensures(T::default, (), self.x)
        &&& call_ensures(T::default, (), self.y)
    }
}

impl<T: Default> Default for Vector2<T> {
    fn default() -> (r: Self)
        ensures
            r.is_default(),
    {
        Vector2 { x: T::default(), y: T::default() }
    }
}

impl<T> Vector2<T> where T: Add<Output = T> + Default {
    /// Whether `items` can be added to `acc` one after the other: each addition on the way
    /// is one that `T` accepts.
    pub open spec fn sum_req(acc: Self, items: Seq<Self>) -> bool
        decreases items.len(),
    {
        items.len() == 0 || (acc.add_req(items[0]) && Self::sum_req(
            acc.add_spec(items[0]),
            items.drop_first(),
        ))
    }

    /// What comes of adding `items` to `acc` one after the other, from the first on.
    pub open spec fn sum_spec(acc: Self, items: Seq<Self>) -> Self
        decreases items.len(),
    {
        if items.len() == 0 {
            acc
        } else {
            Self::sum_spec(acc.add_spec(items[0]), items.drop_first())
        }
    }

    /// Element-wise sum of the vectors that an iterator hands out, starting from the default
    /// vector.
    pub fn sum<I>(iter: I) -> (r: Vector2<T>) where I: Iterator<Item = Vector2<T>>
        requires
            T::obeys_add_spec(),
            iter.obeys_prophetic_iter_laws(),
            iter.decrease() is Some,
            forall|zero: Self| zero.is_default() ==> Self::sum_req(zero, iter.remaining()),
        ensures
            exists|zero: Self| zero.is_default() && r == Self::sum_spec(zero, iter.remaining()),
    {
        let mut iter = iter;
        let ghost items = iter.remaining();
        let mut acc = Vector2::default();
        let ghost zero = acc;
        loop
            invariant
                T::obeys_add_spec(),
                iter.obeys_prophetic_iter_laws(),
                iter.decrease() is Some,
                Self::sum_req(acc, iter.remaining()),
                Self::sum_spec(acc, iter.remaining()) == Self::sum_spec(zero, items),
            ensures
                acc == Self::sum_spec(zero, items),
            decreases iter.decrease()->0,
        {
            match iter.next() {
                Some(elem) => {
                    acc = acc + elem;
                },
                None => {
                    break ;
                },
            }
        }
        acc
    }
}

impl<T: Clone> FillExt<T> for Vector2<T> {
    open spec fn filled(value: T) -> Self {
        Vector2 {
            x: value,
            y: value,
        }
    }

    open spec fn cloned_from(self, source: Self) -> bool {
        &&& cloned(source.x, self.x)
        &&& cloned(source.y, self.y)
    }

    proof fn lemma_cloned_from(self, source: Self) {
    }

    fn fill(value: T) -> (r: Self) {
        Vector2 {
            x: value.clone(),
            y: value.clone(),
        }
    }
}

impl<T> vstd::std_specs::ops::AddSpecImpl for Vector3<T> where T: Add<Output = T> {
    open spec fn obeys_add_spec() -> bool {
        T::obeys_add_spec()
    }

    open spec fn add_req(self, rhs: Self) -> bool {
        self.x.add_req(rhs.x) && self.y.add_req(rhs.y) && self.z.add_req(rhs.z)
    }

    open spec fn add_spec(self, rhs: Self) -> Self {
        Vector3 { x: self.x.add_spec(rhs.x), y: self.y.add_spec(rhs.y), z: self.z.add_spec(rhs.z) }
    }
}

/// Element-wise addition for [`Vector3`] struct
impl<T> Add for Vector3<T> where T: Add<Output = T> {
    type Output = Self;

    fn add(self, rhs: Self) -> (r: Self) {
        Vector3 { x: self.x + rhs.x, y: self.y + rhs.y, z: self.z + rhs.z }
    }
}

impl<'a, T> vstd::std_specs::ops::AddSpecImpl<&'a Vector3<T>> for Vector3<T> where
    T: Copy + Add<Output = T>,
 {
    open spec fn obeys_add_spec() -> bool {
        T::obeys_add_spec()
    }

    open spec fn add_req(self, rhs: &'a Vector3<T>) -> bool {
        <Vector3<T> as AddSpec>::add_req(self, *rhs)
    }

    open spec fn add_spec(self, rhs: &'a Vector3<T>) -> Vector3<T> {
        <Vector3<T> as AddSpec>::add_spec(self, *rhs)
    }
}

impl<'a, T> Add<&'a Vector3<T>> for Vector3<T> where
    T: Copy + Add<Output = T>,
 {
    type Output = Vector3<T>;

    fn add(self, rhs: &'a Vector3<T>) -> (r: Vector3<T>) {
        self + *rhs
    }
}

impl<'a, T> vstd::std_specs::ops::AddSpecImpl<Vector3<T>> for &'a Vector3<T> where
    T: Copy + Add<Output = T>,
 {
    open spec fn obeys_add_spec() -> bool {
        T::obeys_add_spec()
    }

    open spec fn add_req(self, rhs: Vector3<T>) -> bool {
        <Vector3<T> as AddSpec>::add_req(*self, rhs)
    }

    open spec fn add_spec(self, rhs: Vector3<T>) -> Vector3<T> {
        <Vector3<T> as AddSpec>::add_spec(*self, rhs)
    }
}

impl<'a, T> Add<Vector3<T>> for &'a Vector3<T> where
    T: Copy + Add<Output = T>,
 {
    type Output = Vector3<T>;

    fn add(self, rhs: Vector3<T>) -> (r: Vector3<T>) {
        *self + rhs
    }
}

impl<'a, T> vstd::std_specs::ops::AddSpecImpl<&'a Vector3<T>> for &'a Vector3<T> where
    T: Copy + Add<Output = T>,
 {
    open spec fn obeys_add_spec() -> bool {
        T::obeys_add_spec()
    }

    open spec fn add_req(self, rhs: &'a Vector3<T>) -> bool {
        <Vector3<T> as AddSpec>::add_req(*self, *rhs)
    }

    open spec fn add_spec(self, rhs: &'a Vector3<T>) -> Vector3<T> {
        <Vector3<T> as AddSpec>::add_spec(*self, *rhs)
    }
}

impl<'a, T> Add<&'a Vector3<T>> for &'a Vector3<T> where
    T: Copy + Add<Output = T>,
 {
    type Output = Vector3<T>;

    fn add(self, rhs: &'a Vector3<T>) -> (r: Vector3<T>) {
        *self + *rhs
    }
}

impl<T> vstd::std_specs::ops::SubSpecImpl for Vector3<T> where T: Sub<Output = T> {
    open spec fn obeys_sub_spec() -> bool {
        T::obeys_sub_spec()
    }

    open spec fn sub_req(self, rhs: Self) -> bool {
        self.x.sub_req(rhs.x) && self.y.sub_req(rhs.y) && self.z.sub_req(rhs.z)
    }

    open spec fn sub_spec(self, rhs: Self) -> Self {
        Vector3 { x: self.x.sub_spec(rhs.x), y: self.y.sub_spec(rhs.y), z: self.z.sub_spec(rhs.z) }
    }
}

/// Element-wise subtraction for [`Vector3`] struct
impl<T> Sub for Vector3<T> where T: Sub<Output = T> {
    type Output = Self;

    fn sub(self, rhs: Self) -> (r: Self) {
        Vector3 { x: self.x - rhs.x, y: self.y - rhs.y, z: self.z - rhs.z }
    }
}

impl<'a, T> vstd::std_specs::ops::SubSpecImpl<&'a Vector3<T>> for Vector3<T> where
    T: Copy + Sub<Output = T>,
 {
    open spec fn obeys_sub_spec() -> bool {
        T::obeys_sub_spec()
    }

    open spec fn sub_req(self, rhs: &'a Vector3<T>) -> bool {
        <Vector3<T> as SubSpec>::sub_req(self, *rhs)
    }

    open spec fn sub_spec(self, rhs: &'a Vector3<T>) -> Vector3<T> {
        <Vector3<T> as SubSpec>::sub_spec(self, *rhs)
    }
}

impl<'a, T> Sub<&'a Vector3<T>> for Vector3<T> where
    T: Copy + Sub<Output = T>,
 {
    type Output = Vector3<T>;

    fn sub(self, rhs: &'a Vector3<T>) -> (r: Vector3<T>) {
        self - *rhs
    }
}

impl<'a, T> vstd::std_specs::ops::SubSpecImpl<Vector3<T>> for &'a Vector3<T> where
    T: Copy + Sub<Output = T>,
 {
    open spec fn obeys_sub_spec() -> bool {
        T::obeys_sub_spec()
    }

    open spec fn sub_req(self, rhs: Vector3<T>) -> bool {
        <Vector3<T> as SubSpec>::sub_req(*self, rhs)
    }

    open spec fn sub_spec(self, rhs: Vector3<T>) -> Vector3<T> {
        <Vector3<T> as SubSpec>::sub_spec(*self, rhs)
    }
}

impl<'a, T> Sub<Vector3<T>> for &'a Vector3<T> where
    T: Copy + Sub<Output = T>,
 {
    type Output = Vector3<T>;

    fn sub(self, rhs: Vector3<T>) -> (r: Vector3<T>) {
        *self - rhs
    }
}

impl<'a, T> vstd::std_specs::ops::SubSpecImpl<&'a Vector3<T>> for &'a Vector3<T> where
    T: Copy + Sub<Output = T>,
 {
    open spec fn obeys_sub_spec() -> bool {
        T::obeys_sub_spec()
    }

    open spec fn sub_req(self, rhs: &'a Vector3<T>) -> bool {
        <Vector3<T> as SubSpec>::sub_req(*self, *rhs)
    }

    open spec fn sub_spec(self, rhs: &'a Vector3<T>) -> Vector3<T> {
        <Vector3<T> as SubSpec>::sub_spec(*self, *rhs)
    }
}

impl<'a, T> Sub<&'a Vector3<T>> for &'a Vector3<T> where
    T: Copy + Sub<Output = T>,
 {
    type Output = Vector3<T>;

    fn sub(self, rhs: &'a Vector3<T>) -> (r: Vector3<T>) {
        *self - *rhs
    }
}

impl<T> vstd::std_specs::ops::DivSpecImpl for Vector3<T> where T: Div<Output = T> {
    open spec fn obeys_div_spec() -> bool {
        T::obeys_div_spec()
    }

    open spec fn div_req(self, rhs: Self) -> bool {
        self.x.div_req(rhs.x) && self.y.div_req(rhs.y) && self.z.div_req(rhs.z)
    }

    open spec fn div_spec(self, rhs: Self) -> Self {
        Vector3 { x: self.x.div_spec(rhs.x), y: self.y.div_spec(rhs.y), z: self.z.div_spec(rhs.z) }
    }
}

/// Element-wise division for [`Vector3`] struct
impl<T> Div for Vector3<T> where T: Div<Output = T> {
    type Output = Self;

    fn div(self, rhs: Self) -> (r: Self) {
        Vector3 { x: self.x / rhs.x, y: self.y / rhs.y, z: self.z / rhs.z }
    }
}

impl<'a, T> vstd::std_specs::ops::DivSpecImpl<&'a Vector3<T>> for Vector3<T> where
    T: Copy + Div<Output = T>,
 {
    open spec fn obeys_div_spec() -> bool {
        T::obeys_div_spec()
    }

    open spec fn div_req(self, rhs: &'a Vector3<T>) -> bool {
        <Vector3<T> as DivSpec>::div_req(self, *rhs)
    }

    open spec fn div_spec(self, rhs: &'a Vector3<T>) -> Vector3<T> {
        <Vector3<T> as DivSpec>::div_spec(self, *rhs)
    }
}

impl<'a, T> Div<&'a Vector3<T>> for Vector3<T> where
    T: Copy + Div<Output = T>,
 {
    type Output = Vector3<T>;

    fn div(self, rhs: &'a Vector3<T>) -> (r: Vector3<T>) {
        self / *rhs
    }
}

impl<'a, T> vstd::std_specs::ops::DivSpecImpl<Vector3<T>> for &'a Vector3<T> where
    T: Copy + Div<Output = T>,
 {
    open spec fn obeys_div_spec() -> bool {
        T::obeys_div_spec()
    }

    open spec fn div_req(self, rhs: Vector3<T>) -> bool {
        <Vector3<T> as DivSpec>::div_req(*self, rhs)
    }

    open spec fn div_spec(self, rhs: Vector3<T>) -> Vector3<T> {
        <Vector3<T> as DivSpec>::div_spec(*self, rhs)
    }
}

impl<'a, T> Div<Vector3<T>> for &'a Vector3<T> where
    T: Copy + Div<Output = T>,
 {
    type Output = Vector3<T>;

    fn div(self, rhs: Vector3<T>) -> (r: Vector3<T>) {
        *self / rhs
    }
}

impl<'a, T> vstd::std_specs::ops::DivSpecImpl<&'a Vector3<T>> for &'a Vector3<T> where
    T: Copy + Div<Output = T>,
 {
    open spec fn obeys_div_spec() -> bool {
        T::obeys_div_spec()
    }

    open spec fn div_req(self, rhs: &'a Vector3<T>) -> bool {
        <Vector3<T> as DivSpec>::div_req(*self, *rhs)
    }

    open spec fn div_spec(self, rhs: &'a Vector3<T>) -> Vector3<T> {
        <Vector3<T> as DivSpec>::div_spec(*self, *rhs)
    }
}

impl<'a, T> Div<&'a Vector3<T>> for &'a Vector3<T> where
    T: Copy + Div<Output = T>,
 {
    type Output = Vector3<T>;

    fn div(self, rhs: &'a Vector3<T>) -> (r: Vector3<T>) {
        *self / *rhs
    }
}

impl<T> vstd::std_specs::ops::MulSpecImpl for Vector3<T> where T: Mul<Output = T> {
    open spec fn obeys_mul_spec() -> bool {
        T::obeys_mul_spec()
    }

    open spec fn mul_req(self, rhs: Self) -> bool {
        self.x.mul_req(rhs.x) && self.y.mul_req(rhs.y) && self.z.mul_req(rhs.z)
    }

    open spec fn mul_spec(self, rhs: Self) -> Self {
        Vector3 { x: self.x.mul_spec(rhs.x), y: self.y.mul_spec(rhs.y), z: self.z.mul_spec(rhs.z) }
    }
}

/// Element-wise multiplication for [`Vector3`] struct
impl<T> Mul for Vector3<T> where T: Mul<Output = T> {
    type Output = Self;

    fn mul(self, rhs: Self) -> (r: Self) {
        Vector3 { x: self.x * rhs.x, y: self.y * rhs.y, z: self.z * rhs.z }
    }
}

impl<'a, T> vstd::std_specs::ops::MulSpecImpl<&'a Vector3<T>> for Vector3<T> where
    T: Copy + Mul<Output = T>,
 {
    open spec fn obeys_mul_spec() -> bool {
        T::obeys_mul_spec()
    }

    open spec fn mul_req(self, rhs: &'a Vector3<T>) -> bool {
        <Vector3<T> as MulSpec>::mul_req(self, *rhs)
    }

    open spec fn mul_spec(self, rhs: &'a Vector3<T>) -> Vector3<T> {
        <Vector3<T> as MulSpec>::mul_spec(self, *rhs)
    }
}

impl<'a, T> Mul<&'a Vector3<T>> for Vector3<T> where
    T: Copy + Mul<Output = T>,
 {
    type Output = Vector3<T>;

    fn mul(self, rhs: &'a Vector3<T>) -> (r: Vector3<T>) {
        self * *rhs
    }
}

impl<'a, T> vstd::std_specs::ops::MulSpecImpl<Vector3<T>> for &'a Vector3<T> where
    T: Copy + Mul<Output = T>,
 {
    open spec fn obeys_mul_spec() -> bool {
        T::obeys_mul_spec()
    }

    open spec fn mul_req(self, rhs: Vector3<T>) -> bool {
        <Vector3<T> as MulSpec>::mul_req(*self, rhs)
    }

    open spec fn mul_spec(self, rhs: Vector3<T>) -> Vector3<T> {
        <Vector3<T> as MulSpec>::mul_spec(*self, rhs)
    }
}

impl<'a, T> Mul<Vector3<T>> for &'a Vector3<T> where
    T: Copy + Mul<Output = T>,
 {
    type Output = Vector3<T>;

    fn mul(self, rhs: Vector3<T>) -> (r: Vector3<T>) {
        *self * rhs
    }
}

impl<'a, T> vstd::std_specs::ops::MulSpecImpl<&'a Vector3<T>> for &'a Vector3<T> where
    T: Copy + Mul<Output = T>,
 {
    open spec fn obeys_mul_spec() -> bool {
        T::obeys_mul_spec()
    }

    open spec fn mul_req(self, rhs: &'a Vector3<T>) -> bool {
        <Vector3<T> as MulSpec>::mul_req(*self, *rhs)
    }

    open spec fn mul_spec(self, rhs: &'a Vector3<T>) -> Vector3<T> {
        <Vector3<T> as MulSpec>::mul_spec(*self, *rhs)
    }
}

impl<'a, T> Mul<&'a Vector3<T>> for &'a Vector3<T> where
    T: Copy + Mul<Output = T>,
 {
    type Output = Vector3<T>;

    fn mul(self, rhs: &'a Vector3<T>) -> (r: Vector3<T>) {
        *self * *rhs
    }
}

impl<T: Default> Vector3<T> {
    /// Whether every element of `self` is a default value of `T`.
    pub open spec fn is_default(self) -> bool {
        &&& call_ensures(T::default, (), self.x)
        &&& call_ensures(T::default, (), self.y)
        &&& call_ensures(T::default, (), self.z)
    }
}

impl<T: Default> Default for Vector3<T> {
    fn default() -> (r: Self)
        ensures
            r.is_default(),
    {
        Vector3 { x: T::default(), y: T::default(), z: T::default() }
    }
}

impl<T> Vector3<T> where T: Add<Output = T> + Default {
    /// Whether `items` can be added to `acc` one after the other: each addition on the way
    /// is one that `T` accepts.
    pub open spec fn sum_req(acc: Self, items: Seq<Self>) -> bool
        decreases items.len(),
    {
        items.len() == 0 || (acc.add_req(items[0]) && Self::sum_req(
            acc.add_spec(items[0]),
            items.drop_first(),
        ))
    }

    /// What comes of adding `items` to `acc` one after the other, from the first on.
    pub open spec fn sum_spec(acc: Self, items: Seq<Self>) -> Self
        decreases items.len(),
    {
        if items.len() == 0 {
            acc
        } else {
            Self::sum_spec(acc.add_spec(items[0]), items.drop_first())
        }
    }

    /// Element-wise sum of the vectors that an iterator hands out, starting from the default
    /// vector.
    pub fn sum<I>(iter: I) -> (r: Vector3<T>) where I: Iterator<Item = Vector3<T>>
        requires
            T::obeys_add_spec(),
            iter.obeys_prophetic_iter_laws(),
            iter.decrease() is Some,
            forall|zero: Self| zero.is_default() ==> Self::sum_req(zero, iter.remaining()),
        ensures
            exists|zero: Self| zero.is_default() && r == Self::sum_spec(zero, iter.remaining()),
    {
        let mut iter = iter;
        let ghost items = iter.remaining();
        let mut acc = Vector3::default();
        let ghost zero = acc;
        loop
            invariant
                T::obeys_add_spec(),
                iter.obeys_prophetic_iter_laws(),
                iter.decrease() is Some,
                Self::sum_req(acc, iter.remaining()),
                Self::sum_spec(acc, iter.remaining()) == Self::sum_spec(zero, items),
            ensures
                acc == Self::sum_spec(zero, items),
            decreases iter.decrease()->0,
        {
            match iter.next() {
                Some(elem) => {
                    acc = acc + elem;
                },
                None => {
                    break ;
                },
            }
        }
        acc
    }
}

impl<T: Clone> FillExt<T> for Vector3<T> {
    open spec fn filled(value: T) -> Self {
        Vector3 {
            x: value,
            y: value,
            z: value,
        }
    }

    open spec fn cloned_from(self, source: Self) -> bool {
        &&& cloned(source.x, self.x)
        &&& cloned(source.y, self.y)
        &&& cloned(source.z, self.z)
    }

    proof fn lemma_cloned_from(self, source: Self) {
    }

    fn fill(value: T) -> (r: Self) {
        Vector3 {
            x: value.clone(),
            y: value.clone(),
            z: value.clone(),
        }
    }
}

} // verus!
