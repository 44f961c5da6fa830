//! Convenience types used to make interacting with the NAO more convenient.
//!
//! Every record here is generic over the value it holds per slot, so that a backend can carry
//! whatever numeric representation it measures in. The records only hold data; what the wire
//! protocol makes of them is written down in [`crate::backend`].

pub mod color;
pub mod fsr;
pub mod joint_array;
pub mod vector;

pub use color::{Rgb, RgbU8};
pub use fsr::{ForceSensitiveResistorFoot, ForceSensitiveResistors, Fsr, FsrFoot};
pub use joint_array::{JointArray, JointArrayBuilder, JointArrayIterator};
pub use vector::{Vector2, Vector3};

use vstd::prelude::*;

verus! {

/// Whether cloning a `T` gives the value that was cloned and no other.
///
/// This holds of the integers, of `bool` and of `char`. Of a type whose `Clone` says nothing
/// of its result it is not known.
pub open spec fn clone_is_exact<T: Clone>() -> bool {
    forall|source: T, clone: T|
        #[trigger] call_ensures(T::clone, (&source,), clone) ==> clone == source
}

/// Trait that introduces the [`fill`](`FillExt::fill`) method for a type, which allows filling
/// in all fields with the same value.
pub trait FillExt<T>: Sized {
    /// The instance that holds `value` in every field.
    spec fn filled(value: T) -> Self;

    /// Whether every field of `self` holds a clone of what `source` holds in that field.
    spec fn cloned_from(self, source: Self) -> bool;

    /// Return a new instance of the type, with all fields set to the provided value.
    ///
    /// Every field holds a clone of `value`. Where cloning is exact, the instance is
    /// `filled(value)`, by [`FillExt::lemma_cloned_from`].
    fn fill(value: T) -> (r: Self)
        ensures
            r.cloned_from(Self::filled(value)),
    ;

    /// Where cloning is exact, what is cloned from `source` field by field is `source`.
    proof fn lemma_cloned_from(self, source: Self) where T: Clone
        requires
            clone_is_exact::<T>(),
            self.cloned_from(source),
        ensures
            self == source,
    ;
}

/// Struct representing the LEDs on top of the NAO robot's head.
///
/// Each value represents the intensity of a white LED.
#[derive(Clone, Debug, PartialEq)]
pub struct Skull<T> {
    pub left_front_0: T,
    pub left_front_1: T,
    pub left_middle_0: T,
    pub left_rear_0: T,
    pub left_rear_1: T,
    pub left_rear_2: T,
    pub right_front_0: T,
    pub right_front_1: T,
    pub right_middle_0: T,
    pub right_rear_0: T,
    pub right_rear_1: T,
    pub right_rear_2: T,
}

impl<T> View for Skull<T> {
    type V = Seq<T>;

    /// The intensities of the 12 LEDs in the order of the fields: the left side from front to
    /// rear, then the right side from front to rear.
    open spec fn view(&self) -> Seq<T> {
        seq![
            self.left_front_0,
            self.left_front_1,
            self.left_middle_0,
            self.left_rear_0,
            self.left_rear_1,
            self.left_rear_2,
            self.right_front_0,
            self.right_front_1,
            self.right_middle_0,
            self.right_rear_0,
            self.right_rear_1,
            self.right_rear_2,
        ]
    }
}

impl<T: Default> Skull<T> {
    /// Whether every value that `self` holds is a default value of `T`.
    pub open spec fn is_default(self) -> bool {
        &&& call_ensures(T::default, (), self.left_front_0)
        &&& call_ensures(T::default, (), self.left_front_1)
        &&& call_ensures(T::default, (), self.left_middle_0)
        &&& call_ensures(T::default, (), self.left_rear_0)
        &&& call_ensures(T::default, (), self.left_rear_1)
        &&& call_ensures(T::default, (), self.left_rear_2)
        &&& call_ensures(T::default, (), self.right_front_0)
        &&& call_ensures(T::default, (), self.right_front_1)
        &&& call_ensures(T::default, (), self.right_middle_0)
        &&& call_ensures(T::default, (), self.right_rear_0)
        &&& call_ensures(T::default, (), self.right_rear_1)
        &&& call_ensures(T::default, (), self.right_rear_2)
    }
}

impl<T: Default> Default for Skull<T> {
    fn default() -> (r: Self)
        ensures
            r.is_default(),
    {
        Skull {
            left_front_0: T::default(),
            left_front_1: T::default(),
            left_middle_0: T::default(),
            left_rear_0: T::default(),
            left_rear_1: T::default(),
            left_rear_2: T::default(),
            right_front_0: T::default(),
            right_front_1: T::default(),
            right_middle_0: T::default(),
            right_rear_0: T::default(),
            right_rear_1: T::default(),
            right_rear_2: T::default(),
        }
    }
}

impl<T: Clone> FillExt<T> for Skull<T> {
    open spec fn filled(value: T) -> Self {
        Skull {
            left_front_0: value,
            left_front_1: value,
            left_middle_0: value,
            left_rear_0: value,
            left_rear_1: value,
            left_rear_2: value,
            right_front_0: value,
            right_front_1: value,
            right_middle_0: value,
            right_rear_0: value,
            right_rear_1: value,
            right_rear_2: value,
        }
    }

    open spec fn cloned_from(self, source: Self) -> bool {
        &&& cloned(source.left_front_0, self.left_front_0)
        &&& cloned(source.left_front_1, self.left_front_1)
        &&& cloned(source.left_middle_0, self.left_middle_0)
        &&& cloned(source.left_rear_0, self.left_rear_0)
        &&& cloned(source.left_rear_1, self.left_rear_1)
        &&& cloned(source.left_rear_2, self.left_rear_2)
        &&& cloned(source.right_front_0, self.right_front_0)
        &&& cloned(source.right_front_1, self.right_front_1)
        &&& cloned(source.right_middle_0, self.right_middle_0)
        &&& cloned(source.right_rear_0, self.right_rear_0)
        &&& cloned(source.right_rear_1, self.right_rear_1)
        &&& cloned(source.right_rear_2, self.right_rear_2)
    }

    proof fn lemma_cloned_from(self, source: Self) {
    }

    fn fill(value: T) -> (r: Self) {
        Skull {
            left_front_0: value.clone(),
            left_front_1: value.clone(),
            left_middle_0: value.clone(),
            left_rear_0: value.clone(),
            left_rear_1: value.clone(),
            left_rear_2: value.clone(),
            right_front_0: value.clone(),
            right_front_1: value.clone(),
            right_middle_0: value.clone(),
            right_rear_0: value.clone(),
            right_rear_1: value.clone(),
            right_rear_2: value.clone(),
        }
    }
}

/// Struct representing the LED intensities in the left ear of the robot.
///
/// ## LED order:
/// These LEDs are placed in the following order:
/// ```text
///        0
///    324  36
///  288     72
/// 252     108
///  216  144
///    180
/// ```
#[derive(Clone, Debug, PartialEq)]
pub struct LeftEar<T> {
    pub intensity_0_deg: T,
    pub intensity_36_deg: T,
    pub intensity_72_deg: T,
    pub intensity_108_deg: T,
    pub intensity_144_deg: T,
    pub intensity_180_deg: T,
    pub intensity_216_deg: T,
    pub intensity_252_deg: T,
    pub intensity_288_deg: T,
    pub intensity_324_deg: T,
}

impl<T> View for LeftEar<T> {
    type V = Seq<T>;

    /// The intensities of the 10 LEDs in the order of their angles: slot `k` is the LED at
    /// `36 * k` degrees.
    open spec fn view(&self) -> Seq<T> {
        seq![
            self.intensity_0_deg,
            self.intensity_36_deg,
            self.intensity_72_deg,
            self.intensity_108_deg,
            self.intensity_144_deg,
            self.intensity_180_deg,
            self.intensity_216_deg,
            self.intensity_252_deg,
            self.intensity_288_deg,
            self.intensity_324_deg,
        ]
    }
}

impl<T: Default> LeftEar<T> {
    /// Whether every value that `self` holds is a default value of `T`.
    pub open spec fn is_default(self) -> bool {
        &&& call_ensures(T::default, (), self.intensity_0_deg)
        &&& call_ensures(T::default, (), self.intensity_36_deg)
        &&& call_ensures(T::default, (), self.intensity_72_deg)
        &&& call_ensures(T::default, (), self.intensity_108_deg)
        &&& call_ensures(T::default, (), self.intensity_144_deg)
        &&& call_ensures(T::default, (), self.intensity_180_deg)
        &&& call_ensures(T::default, (), self.intensity_216_deg)
        &&& call_ensures(T::default, (), self.intensity_252_deg)
        &&& call_ensures(T::default, (), self.intensity_288_deg)
        &&& call_ensures(T::default, (), self.intensity_324_deg)
    }
}

impl<T: Default> Default for LeftEar<T> {
    fn default() -> (r: Self)
        ensures
            r.is_default(),
    {
        LeftEar {
            intensity_0_deg: T::default(),
            intensity_36_deg: T::default(),
            intensity_72_deg: T::default(),
            intensity_108_deg: T::default(),
            intensity_144_deg: T::default(),
            intensity_180_deg: T::default(),
            intensity_216_deg: T::default(),
            intensity_252_deg: T::default(),
            intensity_288_deg: T::default(),
            intensity_324_deg: T::default(),
        }
    }
}

impl<T: Clone> FillExt<T> for LeftEar<T> {
    open spec fn filled(value: T) -> Self {
        LeftEar {
            intensity_0_deg: value,
            intensity_36_deg: value,
            intensity_72_deg: value,
            intensity_108_deg: value,
            intensity_144_deg: value,
            intensity_180_deg: value,
            intensity_216_deg: value,
            intensity_252_deg: value,
            intensity_288_deg: value,
            intensity_324_deg: value,
        }
    }

    open spec fn cloned_from(self, source: Self) -> bool {
        &&& cloned(source.intensity_0_deg, self.intensity_0_deg)
        &&& cloned(source.intensity_36_deg, self.intensity_36_deg)
        &&& cloned(source.intensity_72_deg, self.intensity_72_deg)
        &&& cloned(source.intensity_108_deg, self.intensity_108_deg)
        &&& cloned(source.intensity_144_deg, self.intensity_144_deg)
        &&& cloned(source.intensity_180_deg, self.intensity_180_deg)
        &&& cloned(source.intensity_216_deg, self.intensity_216_deg)
        &&& cloned(source.intensity_252_deg, self.intensity_252_deg)
        &&& cloned(source.intensity_288_deg, self.intensity_288_deg)
        &&& cloned(source.intensity_324_deg, self.intensity_324_deg)
    }

    proof fn lemma_cloned_from(self, source: Self) {
    }

    fn fill(value: T) -> (r: Self) {
        LeftEar {
            intensity_0_deg: value.clone(),
            intensity_36_deg: value.clone(),
            intensity_72_deg: value.clone(),
            intensity_108_deg: value.clone(),
            intensity_144_deg: value.clone(),
            intensity_180_deg: value.clone(),
            intensity_216_deg: value.clone(),
            intensity_252_deg: value.clone(),
            intensity_288_deg: value.clone(),
            intensity_324_deg: value.clone(),
        }
    }
}

/// Struct representing the LED intensities in the right ear of the robot.
///
/// ## LED order:
/// These LEDs are placed in the following order:
/// ```text
///        0
///    324  36
///  288     72
/// 252     108
///  216  144
///    180
/// ```
#[derive(Clone, Debug, PartialEq)]
pub struct RightEar<T> {
    pub intensity_0_deg: T,
    pub intensity_36_deg: T,
    pub intensity_72_deg: T,
    pub intensity_108_deg: T,
    pub intensity_144_deg: T,
    pub intensity_180_deg: T,
    pub intensity_216_deg: T,
    pub intensity_252_deg: T,
    pub intensity_288_deg: T,
    pub intensity_324_deg: T,
}

impl<T> View for RightEar<T> {
    type V = Seq<T>;

    /// The intensities of the 10 LEDs in the order of their angles: slot `k` is the LED at
    /// `36 * k` degrees.
    open spec fn view(&self) -> Seq<T> {
        seq![
            self.intensity_0_deg,
            self.intensity_36_deg,
            self.intensity_72_deg,
            self.intensity_108_deg,
            self.intensity_144_deg,
            self.intensity_180_deg,
            self.intensity_216_deg,
            self.intensity_252_deg,
            self.intensity_288_deg,
            self.intensity_324_deg,
        ]
    }
}

impl<T: Default> RightEar<T> {
    /// Whether every value that `self` holds is a default value of `T`.
    pub open spec fn is_default(self) -> bool {
        &&& call_ensures(T::default, (), self.intensity_0_deg)
        &&& call_ensures(T::default, (), self.intensity_36_deg)
        &&& call_ensures(T::default, (), self.intensity_72_deg)
        &&& call_ensures(T::default, (), self.intensity_108_deg)
        &&& call_ensures(T::default, (), self.intensity_144_deg)
        &&& call_ensures(T::default, (), self.intensity_180_deg)
        &&& call_ensures(T::default, (), self.intensity_216_deg)
        &&& call_ensures(T::default, (), self.intensity_252_deg)
        &&& call_ensures(T::default, (), self.intensity_288_deg)
        &&& call_ensures(T::default, (), self.intensity_324_deg)
    }
}

impl<T: Default> Default for RightEar<T> {
    fn default() -> (r: Self)
        ensures
            r.is_default(),
    {
        RightEar {
            intensity_0_deg: T::default(),
            intensity_36_deg: T::default(),
            intensity_72_deg: T::default(),
            intensity_108_deg: T::default(),
            intensity_144_deg: T::default(),
            intensity_180_deg: T::default(),
            intensity_216_deg: T::default(),
            intensity_252_deg: T::default(),
            intensity_288_deg: T::default(),
            intensity_324_deg: T::default(),
        }
    }
}

impl<T: Clone> FillExt<T> for RightEar<T> {
    open spec fn filled(value: T) -> Self {
        RightEar {
            intensity_0_deg: value,
            intensity_36_deg: value,
            intensity_72_deg: value,
            intensity_108_deg: value,
            intensity_144_deg: value,
            intensity_180_deg: value,
            intensity_216_deg: value,
            intensity_252_deg: value,
            intensity_288_deg: value,
            intensity_324_deg: value,
        }
    }

    open spec fn cloned_from(self, source: Self) -> bool {
        &&& cloned(source.intensity_0_deg, self.intensity_0_deg)
        &&& cloned(source.intensity_36_deg, self.intensity_36_deg)
        &&& cloned(source.intensity_72_deg, self.intensity_72_deg)
        &&& cloned(source.intensity_108_deg, self.intensity_108_deg)
        &&& cloned(source.intensity_144_deg, self.intensity_144_deg)
        &&& cloned(source.intensity_180_deg, self.intensity_180_deg)
        &&& cloned(source.intensity_216_deg, self.intensity_216_deg)
        &&& cloned(source.intensity_252_deg, self.intensity_252_deg)
        &&& cloned(source.intensity_288_deg, self.intensity_288_deg)
        &&& cloned(source.intensity_324_deg, self.intensity_324_deg)
    }

    proof fn lemma_cloned_from(self, source: Self) {
    }

    fn fill(value: T) -> (r: Self) {
        RightEar {
            intensity_0_deg: value.clone(),
            intensity_36_deg: value.clone(),
            intensity_72_deg: value.clone(),
            intensity_108_deg: value.clone(),
            intensity_144_deg: value.clone(),
            intensity_180_deg: value.clone(),
            intensity_216_deg: value.clone(),
            intensity_252_deg: value.clone(),
            intensity_288_deg: value.clone(),
            intensity_324_deg: value.clone(),
        }
    }
}

impl<T> RightEar<T> {
    /// The left ear that shows at every angle what this right ear shows there.
    pub open spec fn spec_mirrored(self) -> LeftEar<T> {
        LeftEar {
            intensity_0_deg: self.intensity_0_deg,
            intensity_36_deg: self.intensity_36_deg,
            intensity_72_deg: self.intensity_72_deg,
            intensity_108_deg: self.intensity_108_deg,
            intensity_144_deg: self.intensity_144_deg,
            intensity_180_deg: self.intensity_180_deg,
            intensity_216_deg: self.intensity_216_deg,
            intensity_252_deg: self.intensity_252_deg,
            intensity_288_deg: self.intensity_288_deg,
            intensity_324_deg: self.intensity_324_deg,
        }
    }
}

/// Struct representing the RGB LEDs in the left eye of the robot.
/// ## LED order:
/// These LEDs are placed in the following order:
/// ```text
///     0
///  45    315
/// 90      270
///  135   225
///    180
/// ```
#[derive(Clone, Debug, PartialEq)]
pub struct LeftEye<T> {
    pub color_0_deg: Rgb<T>,
    pub color_45_deg: Rgb<T>,
    pub color_90_deg: Rgb<T>,
    pub color_135_deg: Rgb<T>,
    pub color_180_deg: Rgb<T>,
    pub color_225_deg: Rgb<T>,
    pub color_270_deg: Rgb<T>,
    pub color_315_deg: Rgb<T>,
}

impl<T> View for LeftEye<T> {
    type V = Seq<Rgb<T>>;

    /// The colours of the 8 LEDs in the order of their angles: slot `k` is the LED at `45 * k`
    /// degrees.
    open spec fn view(&self) -> Seq<Rgb<T>> {
        seq![
            self.color_0_deg,
            self.color_45_deg,
            self.color_90_deg,
            self.color_135_deg,
            self.color_180_deg,
            self.color_225_deg,
            self.color_270_deg,
            self.color_315_deg,
        ]
    }
}

impl<T: Default> LeftEye<T> {
    /// Whether every value that `self` holds is a default value of `T`.
    pub open spec fn is_default(self) -> bool {
        &&& self.color_0_deg.is_default()
        &&& self.color_45_deg.is_default()
        &&& self.color_90_deg.is_default()
        &&& self.color_135_deg.is_default()
        &&& self.color_180_deg.is_default()
        &&& self.color_225_deg.is_default()
        &&& self.color_270_deg.is_default()
        &&& self.color_315_deg.is_default()
    }
}

impl<T: Default> Default for LeftEye<T> {
    fn default() -> (r: Self)
        ensures
            r.is_default(),
    {
        LeftEye {
            color_0_deg: Rgb::default(),
            color_45_deg: Rgb::default(),
            color_90_deg: Rgb::default(),
            color_135_deg: Rgb::default(),
            color_180_deg: Rgb::default(),
            color_225_deg: Rgb::default(),
            color_270_deg: Rgb::default(),
            color_315_deg: Rgb::default(),
        }
    }
}

impl<T: Clone> FillExt<Rgb<T>> for LeftEye<T> {
    open spec fn filled(value: Rgb<T>) -> Self {
        LeftEye {
            color_0_deg: value,
            color_45_deg: value,
            color_90_deg: value,
            color_135_deg: value,
            color_180_deg: value,
            color_225_deg: value,
            color_270_deg: value,
            color_315_deg: value,
        }
    }

    open spec fn cloned_from(self, source: Self) -> bool {
        &&& cloned(source.color_0_deg, self.color_0_deg)
        &&& cloned(source.color_45_deg, self.color_45_deg)
        &&& cloned(source.color_90_deg, self.color_90_deg)
        &&& cloned(source.color_135_deg, self.color_135_deg)
        &&& cloned(source.color_180_deg, self.color_180_deg)
        &&& cloned(source.color_225_deg, self.color_225_deg)
        &&& cloned(source.color_270_deg, self.color_270_deg)
        &&& cloned(source.color_315_deg, self.color_315_deg)
    }

    proof fn lemma_cloned_from(self, source: Self) {
    }

    fn fill(value: Rgb<T>) -> (r: Self) {
        LeftEye {
            color_0_deg: value.clone(),
            color_45_deg: value.clone(),
            color_90_deg: value.clone(),
            color_135_deg: value.clone(),
            color_180_deg: value.clone(),
            color_225_deg: value.clone(),
            color_270_deg: value.clone(),
            color_315_deg: value.clone(),
        }
    }
}

/// Struct representing the RGB LEDs in the right eye of the robot.
/// ## LED order:
/// These LEDs are placed in the following order:
/// ```text
///     0
///  45    315
/// 90      270
///  135   225
///    180
/// ```
#[derive(Clone, Debug, PartialEq)]
pub struct RightEye<T> {
    pub color_0_deg: Rgb<T>,
    pub color_45_deg: Rgb<T>,
    pub color_90_deg: Rgb<T>,
    pub color_135_deg: Rgb<T>,
    pub color_180_deg: Rgb<T>,
    pub color_225_deg: Rgb<T>,
    pub color_270_deg: Rgb<T>,
    pub color_315_deg: Rgb<T>,
}

impl<T> View for RightEye<T> {
    type V = Seq<Rgb<T>>;

    /// The colours of the 8 LEDs in the order of their angles: slot `k` is the LED at `45 * k`
    /// degrees.
    open spec fn view(&self) -> Seq<Rgb<T>> {
        seq![
            self.color_0_deg,
            self.color_45_deg,
            self.color_90_deg,
            self.color_135_deg,
            self.color_180_deg,
            self.color_225_deg,
            self.color_270_deg,
            self.color_315_deg,
        ]
    }
}

impl<T: Default> RightEye<T> {
    /// Whether every value that `self` holds is a default value of `T`.
    pub open spec fn is_default(self) -> bool {
        &&& self.color_0_deg.is_default()
        &&& self.color_45_deg.is_default()
        &&& self.color_90_deg.is_default()
        &&& self.color_135_deg.is_default()
        &&& self.color_180_deg.is_default()
        &&& self.color_225_deg.is_default()
        &&& self.color_270_deg.is_default()
        &&& self.color_315_deg.is_default()
    }
}

impl<T: Default> Default for RightEye<T> {
    fn default() -> (r: Self)
        ensures
            r.is_default(),
    {
        RightEye {
            color_0_deg: Rgb::default(),
            color_45_deg: Rgb::default(),
            color_90_deg: Rgb::default(),
            color_135_deg: Rgb::default(),
            color_180_deg: Rgb::default(),
            color_225_deg: Rgb::default(),
            color_270_deg: Rgb::default(),
            color_315_deg: Rgb::default(),
        }
    }
}

impl<T: Clone> FillExt<Rgb<T>> for RightEye<T> {
    open spec fn filled(value: Rgb<T>) -> Self {
        RightEye {
            color_0_deg: value,
            color_45_deg: value,
            color_90_deg: value,
            color_135_deg: value,
            color_180_deg: value,
            color_225_deg: value,
            color_270_deg: value,
            color_315_deg: value,
        }
    }

    open spec fn cloned_from(self, source: Self) -> bool {
        &&& cloned(source.color_0_deg, self.color_0_deg)
        &&& cloned(source.color_45_deg, self.color_45_deg)
        &&& cloned(source.color_90_deg, self.color_90_deg)
        &&& cloned(source.color_135_deg, self.color_135_deg)
        &&& cloned(source.color_180_deg, self.color_180_deg)
        &&& cloned(source.color_225_deg, self.color_225_deg)
        &&& cloned(source.color_270_deg, self.color_270_deg)
        &&& cloned(source.color_315_deg, self.color_315_deg)
    }

    proof fn lemma_cloned_from(self, source: Self) {
    }

    fn fill(value: Rgb<T>) -> (r: Self) {
        RightEye {
            color_0_deg: value.clone(),
            color_45_deg: value.clone(),
            color_90_deg: value.clone(),
            color_135_deg: value.clone(),
            color_180_deg: value.clone(),
            color_225_deg: value.clone(),
            color_270_deg: value.clone(),
            color_315_deg: value.clone(),
        }
    }
}

/// Struct representing the battery status of the robot.
#[derive(Clone, Debug, PartialEq)]
pub struct Battery<T> {
    /// The battery percentage
    pub charge: T,
    /// Current emitted by battery
    pub current: T,
    /// Unknown field
    pub status: T,
    /// Temperature of the battery
    pub temperature: T,
}

impl<T: Default> Battery<T> {
    /// Whether every value that `self` holds is a default value of `T`.
    pub open spec fn is_default(self) -> bool {
        &&& call_ensures(T::default, (), self.charge)
        &&& call_ensures(T::default, (), self.current)
        &&& call_ensures(T::default, (), self.status)
        &&& call_ensures(T::default, (), self.temperature)
    }
}

impl<T: Default> Default for Battery<T> {
    fn default() -> (r: Self)
        ensures
            r.is_default(),
    {
        Battery {
            charge: T::default(),
            current: T::default(),
            status: T::default(),
            temperature: T::default(),
        }
    }
}

/// Values read by the left and right sonar sensor.
#[derive(Clone, Debug, PartialEq)]
pub struct SonarValues<T> {
    /// Left Sonar Value.
    ///
    /// The value ranges from 0 to 5 meters.
    /// A value of 0 means an error.
    /// A value equal to the max detection range means no echo.
    ///
    /// Be aware that:
    /// - The ground will likely be detected before the maximum distance for detection is reached.
    /// - Robot arms might be detected.
    pub left: T,
    /// Right Sonar Value.
    ///
    /// The value ranges from 0 to 5 meters.
    /// A value of 0 means an error.
    /// A value equal to the max detection range means no echo.
    ///
    /// Be aware that:
    /// - The ground will likely be detected before the maximum distance for detection is reached.
    /// - Robot arms might be detected.
    pub right: T,
}

impl<T: Default> SonarValues<T> {
    /// Whether every value that `self` holds is a default value of `T`.
    pub open spec fn is_default(self) -> bool {
        &&& call_ensures(T::default, (), self.left)
        &&& call_ensures(T::default, (), self.right)
    }
}

impl<T: Default> Default for SonarValues<T> {
    fn default() -> (r: Self)
        ensures
            r.is_default(),
    {
        SonarValues {
            left: T::default(),
            right: T::default(),
        }
    }
}

/// Enabled state of the left and right sonar sensors.
#[derive(Clone, Debug, PartialEq, Eq)]
pub struct SonarEnabled {
    pub left: bool,
    pub right: bool,
}

impl Default for SonarEnabled {
    /// Both sonars are enabled unless told otherwise.
    fn default() -> (r: Self)
        ensures
            r.left,
            r.right,
    {
        SonarEnabled { left: true, right: true }
    }
}

/// Struct containing the touch activation value for each touch sensor on the robot.
#[derive(Clone, Debug, PartialEq)]
pub struct Touch<T> {
    pub chest_board: T,
    pub head_front: T,
    pub head_middle: T,
    pub head_rear: T,
    pub left_foot_left: T,
    pub left_foot_right: T,
    pub left_hand_back: T,
    pub left_hand_left: T,
    pub left_hand_right: T,
    pub right_foot_left: T,
    pub right_foot_right: T,
    pub right_hand_back: T,
    pub right_hand_left: T,
    pub right_hand_right: T,
}

impl<T: Default> Touch<T> {
    /// Whether every value that `self` holds is a default value of `T`.
    pub open spec fn is_default(self) -> bool {
        &&& call_ensures(T::default, (), self.chest_board)
        &&& call_ensures(T::default, (), self.head_front)
        &&& call_ensures(T::default, (), self.head_middle)
        &&& call_ensures(T::default, (), self.head_rear)
        &&& call_ensures(T::default, (), self.left_foot_left)
        &&& call_ensures(T::default, (), self.left_foot_right)
        &&& call_ensures(T::default, (), self.left_hand_back)
        &&& call_ensures(T::default, (), self.left_hand_left)
        &&& call_ensures(T::default, (), self.left_hand_right)
        &&& call_ensures(T::default, (), self.right_foot_left)
        &&& call_ensures(T::default, (), self.right_foot_right)
        &&& call_ensures(T::default, (), self.right_hand_back)
        &&& call_ensures(T::default, (), self.right_hand_left)
        &&& call_ensures(T::default, (), self.right_hand_right)
    }
}

impl<T: Default> Default for Touch<T> {
    fn default() -> (r: Self)
        ensures
            r.is_default(),
    {
        Touch {
            chest_board: T::default(),
            head_front: T::default(),
            head_middle: T::default(),
            head_rear: T::default(),
            left_foot_left: T::default(),
            left_foot_right: T::default(),
            left_hand_back: T::default(),
            left_hand_left: T::default(),
            left_hand_right: T::default(),
            right_foot_left: T::default(),
            right_foot_right: T::default(),
            right_hand_back: T::default(),
            right_hand_left: T::default(),
            right_hand_right: T::default(),
        }
    }
}

/// Wrapper struct containing the head joints of the robot.
#[derive(Clone, Debug, PartialEq, Eq)]
pub struct HeadJoints<T> {
    pub yaw: T,
    pub pitch: T,
}

impl<T: Default> HeadJoints<T> {
    /// Whether every value that `self` holds is a default value of `T`.
    pub open spec fn is_default(self) -> bool {
        &&& call_ensures(T::default, (), self.yaw)
        &&& call_ensures(T::default, (), self.pitch)
    }
}

impl<T: Default> Default for HeadJoints<T> {
    fn default() -> (r: Self)
        ensures
            r.is_default(),
    {
        HeadJoints {
            yaw: T::default(),
            pitch: T::default(),
        }
    }
}

impl<T: Clone> FillExt<T> for HeadJoints<T> {
    open spec fn filled(value: T) -> Self {
        HeadJoints {
            yaw: value,
            pitch: value,
        }
    }

    open spec fn cloned_from(self, source: Self) -> bool {
        &&& cloned(source.yaw, self.yaw)
        &&& cloned(source.pitch, self.pitch)
    }

    proof fn lemma_cloned_from(self, source: Self) {
    }

    fn fill(value: T) -> (r: Self) {
        HeadJoints {
            yaw: value.clone(),
            pitch: value.clone(),
        }
    }
}

/// Wrapper struct containing the left leg joints of the robot.
#[derive(Clone, Debug, PartialEq, Eq)]
pub struct LeftLegJoints<T> {
    pub hip_yaw_pitch: T,
    pub hip_roll: T,
    pub hip_pitch: T,
    pub knee_pitch: T,
    pub ankle_pitch: T,
    pub ankle_roll: T,
}

impl<T: Default> LeftLegJoints<T> {
    /// Whether every value that `self` holds is a default value of `T`.
    pub open spec fn is_default(self) -> bool {
        &&& call_ensures(T::default, (), self.hip_yaw_pitch)
        &&& call_ensures(T::default, (), self.hip_roll)
        &&& call_ensures(T::default, (), self.hip_pitch)
        &&& call_ensures(T::default, (), self.knee_pitch)
        &&& call_ensures(T::default, (), self.ankle_pitch)
        &&& call_ensures(T::default, (), self.ankle_roll)
    }
}

impl<T: Default> Default for LeftLegJoints<T> {
    fn default() -> (r: Self)
        ensures
            r.is_default(),
    {
        LeftLegJoints {
            hip_yaw_pitch: T::default(),
            hip_roll: T::default(),
            hip_pitch: T::default(),
            knee_pitch: T::default(),
            ankle_pitch: T::default(),
            ankle_roll: T::default(),
        }
    }
}

impl<T: Clone> FillExt<T> for LeftLegJoints<T> {
    open spec fn filled(value: T) -> Self {
        LeftLegJoints {
            hip_yaw_pitch: value,
            hip_roll: value,
            hip_pitch: value,
            knee_pitch: value,
            ankle_pitch: value,
            ankle_roll: value,
        }
    }

    open spec fn cloned_from(self, source: Self) -> bool {
        &&& cloned(source.hip_yaw_pitch, self.hip_yaw_pitch)
        &&& cloned(source.hip_roll, self.hip_roll)
        &&& cloned(source.hip_pitch, self.hip_pitch)
        &&& cloned(source.knee_pitch, self.knee_pitch)
        &&& cloned(source.ankle_pitch, self.ankle_pitch)
        &&& cloned(source.ankle_roll, self.ankle_roll)
    }

    proof fn lemma_cloned_from(self, source: Self) {
    }

    fn fill(value: T) -> (r: Self) {
        LeftLegJoints {
            hip_yaw_pitch: value.clone(),
            hip_roll: value.clone(),
            hip_pitch: value.clone(),
            knee_pitch: value.clone(),
            ankle_pitch: value.clone(),
            ankle_roll: value.clone(),
        }
    }
}

impl<T> LeftLegJoints<T> {
    /// Transforms each element in the [`LeftLegJoints`] using the provided closure `f`,
    /// producing a new [`LeftLegJoints`] with the transformed values.
    pub fn map<F, U>(self, f: &mut F) -> (r: LeftLegJoints<U>) where F: FnMut(T) -> U
        requires
            call_requires(*old(f), (self.hip_yaw_pitch,)),
            call_requires(*old(f), (self.hip_roll,)),
            call_requires(*old(f), (self.hip_pitch,)),
            call_requires(*old(f), (self.knee_pitch,)),
            call_requires(*old(f), (self.ankle_pitch,)),
            call_requires(*old(f), (self.ankle_roll,)),
        ensures
            call_ensures(*old(f), (self.hip_yaw_pitch,), r.hip_yaw_pitch),
            call_ensures(*old(f), (self.hip_roll,), r.hip_roll),
            call_ensures(*old(f), (self.hip_pitch,), r.hip_pitch),
            call_ensures(*old(f), (self.knee_pitch,), r.knee_pitch),
            call_ensures(*old(f), (self.ankle_pitch,), r.ankle_pitch),
            call_ensures(*old(f), (self.ankle_roll,), r.ankle_roll),
            *final(f) == *old(f),
    {
        let hip_yaw_pitch = f(self.hip_yaw_pitch);
        let hip_roll = f(self.hip_roll);
        let hip_pitch = f(self.hip_pitch);
        let knee_pitch = f(self.knee_pitch);
        let ankle_pitch = f(self.ankle_pitch);
        let ankle_roll = f(self.ankle_roll);
        LeftLegJoints { hip_yaw_pitch, hip_roll, hip_pitch, knee_pitch, ankle_pitch, ankle_roll }
    }

    /// Zips two [`LeftLegJoints`] instances element-wise, creating a new [`LeftLegJoints`]
    /// containing tuples of corresponding elements from the two arrays.
    pub fn zip<U>(self, other: LeftLegJoints<U>) -> (r: LeftLegJoints<(T, U)>)
        ensures
            r.hip_yaw_pitch == (self.hip_yaw_pitch, other.hip_yaw_pitch),
            r.hip_roll == (self.hip_roll, other.hip_roll),
            r.hip_pitch == (self.hip_pitch, other.hip_pitch),
            r.knee_pitch == (self.knee_pitch, other.knee_pitch),
            r.ankle_pitch == (self.ankle_pitch, other.ankle_pitch),
            r.ankle_roll == (self.ankle_roll, other.ankle_roll),
    {
        LeftLegJoints {
            hip_yaw_pitch: (self.hip_yaw_pitch, other.hip_yaw_pitch),
            hip_roll: (self.hip_roll, other.hip_roll),
            hip_pitch: (self.hip_pitch, other.hip_pitch),
            knee_pitch: (self.knee_pitch, other.knee_pitch),
            ankle_pitch: (self.ankle_pitch, other.ankle_pitch),
            ankle_roll: (self.ankle_roll, other.ankle_roll),
        }
    }
}

/// Wrapper struct containing the right leg joints of the robot.
///
/// The robot has one hip yaw-pitch actuator, which both legs share. It is held by
/// [`LeftLegJoints`], and so the right leg has no such field.
#[derive(Clone, Debug, PartialEq, Eq)]
pub struct RightLegJoints<T> {
    pub hip_roll: T,
    pub hip_pitch: T,
    pub knee_pitch: T,
    pub ankle_pitch: T,
    pub ankle_roll: T,
}

impl<T: Default> RightLegJoints<T> {
    /// Whether every value that `self` holds is a default value of `T`.
    pub open spec fn is_default(self) -> bool {
        &&& call_ensures(T::default, (), self.hip_roll)
        &&& call_ensures(T::default, (), self.hip_pitch)
        &&& call_ensures(T::default, (), self.knee_pitch)
        &&& call_ensures(T::default, (), self.ankle_pitch)
        &&& call_ensures(T::default, (), self.ankle_roll)
    }
}

impl<T: Default> Default for RightLegJoints<T> {
    fn default() -> (r: Self)
        ensures
            r.is_default(),
    {
        RightLegJoints {
            hip_roll: T::default(),
            hip_pitch: T::default(),
            knee_pitch: T::default(),
            ankle_pitch: T::default(),
            ankle_roll: T::default(),
        }
    }
}

impl<T: Clone> FillExt<T> for RightLegJoints<T> {
    open spec fn filled(value: T) -> Self {
        RightLegJoints {
            hip_roll: value,
            hip_pitch: value,
            knee_pitch: value,
            ankle_pitch: value,
            ankle_roll: value,
        }
    }

    open spec fn cloned_from(self, source: Self) -> bool {
        &&& cloned(source.hip_roll, self.hip_roll)
        &&& cloned(source.hip_pitch, self.hip_pitch)
        &&& cloned(source.knee_pitch, self.knee_pitch)
        &&& cloned(source.ankle_pitch, self.ankle_pitch)
        &&& cloned(source.ankle_roll, self.ankle_roll)
    }

    proof fn lemma_cloned_from(self, source: Self) {
    }

    fn fill(value: T) -> (r: Self) {
        RightLegJoints {
            hip_roll: value.clone(),
            hip_pitch: value.clone(),
            knee_pitch: value.clone(),
            ankle_pitch: value.clone(),
            ankle_roll: value.clone(),
        }
    }
}

impl<T> RightLegJoints<T> {
    /// Transforms each element in the [`RightLegJoints`] using the provided closure `f`,
    /// producing a new [`RightLegJoints`] with the transformed values.
    pub fn map<F, U>(self, f: &mut F) -> (r: RightLegJoints<U>) where F: FnMut(T) -> U
        requires
            call_requires(*old(f), (self.hip_roll,)),
            call_requires(*old(f), (self.hip_pitch,)),
            call_requires(*old(f), (self.knee_pitch,)),
            call_requires(*old(f), (self.ankle_pitch,)),
            call_requires(*old(f), (self.ankle_roll,)),
        ensures
            call_ensures(*old(f), (self.hip_roll,), r.hip_roll),
            call_ensures(*old(f), (self.hip_pitch,), r.hip_pitch),
            call_ensures(*old(f), (self.knee_pitch,), r.knee_pitch),
            call_ensures(*old(f), (self.ankle_pitch,), r.ankle_pitch),
            call_ensures(*old(f), (self.ankle_roll,), r.ankle_roll),
            *final(f) == *old(f),
    {
        let hip_roll = f(self.hip_roll);
        let hip_pitch = f(self.hip_pitch);
        let knee_pitch = f(self.knee_pitch);
        let ankle_pitch = f(self.ankle_pitch);
        let ankle_roll = f(self.ankle_roll);
        RightLegJoints { hip_roll, hip_pitch, knee_pitch, ankle_pitch, ankle_roll }
    }

    /// Zips two [`RightLegJoints`] instances element-wise, creating a new [`RightLegJoints`]
    /// containing tuples of corresponding elements from the two arrays.
    pub fn zip<U>(self, other: RightLegJoints<U>) -> (r: RightLegJoints<(T, U)>)
        ensures
            r.hip_roll == (self.hip_roll, other.hip_roll),
            r.hip_pitch == (self.hip_pitch, other.hip_pitch),
            r.knee_pitch == (self.knee_pitch, other.knee_pitch),
            r.ankle_pitch == (self.ankle_pitch, other.ankle_pitch),
            r.ankle_roll == (self.ankle_roll, other.ankle_roll),
    {
        RightLegJoints {
            hip_roll: (self.hip_roll, other.hip_roll),
            hip_pitch: (self.hip_pitch, other.hip_pitch),
            knee_pitch: (self.knee_pitch, other.knee_pitch),
            ankle_pitch: (self.ankle_pitch, other.ankle_pitch),
            ankle_roll: (self.ankle_roll, other.ankle_roll),
        }
    }
}

/// Wrapper struct containing joint values for both legs of the robot.
#[derive(Clone, Debug, PartialEq, Eq)]
pub struct LegJoints<T> {
    pub left_leg: LeftLegJoints<T>,
    pub right_leg: RightLegJoints<T>,
}

impl<T: Default> LegJoints<T> {
    /// Whether every value that `self` holds is a default value of `T`.
    pub open spec fn is_default(self) -> bool {
        &&& self.left_leg.is_default()
        &&& self.right_leg.is_default()
    }
}

impl<T: Default> Default for LegJoints<T> {
    fn default() -> (r: Self)
        ensures
            r.is_default(),
    {
        LegJoints { left_leg: LeftLegJoints::default(), right_leg: RightLegJoints::default() }
    }
}

impl<T> LegJoints<T> {
    /// The values of both legs in one sequence: the six of the left leg, then the five of
    /// the right leg, each in the order of its fields.
    pub open spec fn values(self) -> Seq<T> {
        seq![
            self.left_leg.hip_yaw_pitch,
            self.left_leg.hip_roll,
            self.left_leg.hip_pitch,
            self.left_leg.knee_pitch,
            self.left_leg.ankle_pitch,
            self.left_leg.ankle_roll,
            self.right_leg.hip_roll,
            self.right_leg.hip_pitch,
            self.right_leg.knee_pitch,
            self.right_leg.ankle_pitch,
            self.right_leg.ankle_roll,
        ]
    }

    /// Transforms each element in the [`LegJoints`] using the provided closure `f`,
    /// producing a new [`LegJoints`] with the transformed values.
    pub fn map<F, U>(self, mut f: F) -> (r: LegJoints<U>) where F: FnMut(T) -> U
        requires
            forall|i: int| 0 <= i < 11 ==> f.requires((#[trigger] self.values()[i],)),
        ensures
            forall|i: int| 0 <= i < 11 ==> f.ensures((self.values()[i],), #[trigger] r.values()[i]),
    {
        assert(self.values().len() == 11);
        let left_leg = self.left_leg.map(&mut f);
        let right_leg = self.right_leg.map(&mut f);
        LegJoints { left_leg, right_leg }
    }

    /// Zips two [`LegJoints`] instances element-wise, creating a new [`LegJoints`]
    /// containing tuples of corresponding elements from the two arrays.
    pub fn zip<U>(self, other: LegJoints<U>) -> (r: LegJoints<(T, U)>)
        ensures
            forall|i: int|
                0 <= i < 11 ==> #[trigger] r.values()[i] == (self.values()[i], other.values()[i]),
    {
        LegJoints {
            left_leg: self.left_leg.zip(other.left_leg),
            right_leg: self.right_leg.zip(other.right_leg),
        }
    }
}

impl<T: Clone> FillExt<T> for LegJoints<T> {
    open spec fn filled(value: T) -> Self {
        LegJoints {
            left_leg: LeftLegJoints::filled(value),
            right_leg: RightLegJoints::filled(value),
        }
    }

    open spec fn cloned_from(self, source: Self) -> bool {
        &&& self.left_leg.cloned_from(source.left_leg)
        &&& self.right_leg.cloned_from(source.right_leg)
    }

    proof fn lemma_cloned_from(self, source: Self) {
    }

    fn fill(value: T) -> (r: Self) {
        LegJoints {
            left_leg: LeftLegJoints {
                hip_yaw_pitch: value.clone(),
                hip_roll: value.clone(),
                hip_pitch: value.clone(),
                knee_pitch: value.clone(),
                ankle_pitch: value.clone(),
                ankle_roll: value.clone(),
            },
            right_leg: RightLegJoints {
                hip_roll: value.clone(),
                hip_pitch: value.clone(),
                knee_pitch: value.clone(),
                ankle_pitch: value.clone(),
                ankle_roll: value.clone(),
            },
        }
    }
}

/// Wrapper struct containing the joints for a single arm of the robot.
#[derive(Clone, Debug, PartialEq, Eq)]
pub struct SingleArmJoints<T> {
    pub shoulder_pitch: T,
    pub shoulder_roll: T,
    pub elbow_yaw: T,
    pub elbow_roll: T,
    pub wrist_yaw: T,
    pub hand: T,
}

impl<T: Default> SingleArmJoints<T> {
    /// Whether every value that `self` holds is a default value of `T`.
    pub open spec fn is_default(self) -> bool {
        &&& call_ensures(T::default, (), self.shoulder_pitch)
        &&& call_ensures(T::default, (), self.shoulder_roll)
        &&& call_ensures(T::default, (), self.elbow_yaw)
        &&& call_ensures(T::default, (), self.elbow_roll)
        &&& call_ensures(T::default, (), self.wrist_yaw)
        &&& call_ensures(T::default, (), self.hand)
    }
}

impl<T: Default> Default for SingleArmJoints<T> {
    fn default() -> (r: Self)
        ensures
            r.is_default(),
    {
        SingleArmJoints {
            shoulder_pitch: T::default(),
            shoulder_roll: T::default(),
            elbow_yaw: T::default(),
            elbow_roll: T::default(),
            wrist_yaw: T::default(),
            hand: T::default(),
        }
    }
}

impl<T: Clone> FillExt<T> for SingleArmJoints<T> {
    open spec fn filled(value: T) -> Self {
        SingleArmJoints {
            shoulder_pitch: value,
            shoulder_roll: value,
            elbow_yaw: value,
            elbow_roll: value,
            wrist_yaw: value,
            hand: value,
        }
    }

    open spec fn cloned_from(self, source: Self) -> bool {
        &&& cloned(source.shoulder_pitch, self.shoulder_pitch)
        &&& cloned(source.shoulder_roll, self.shoulder_roll)
        &&& cloned(source.elbow_yaw, self.elbow_yaw)
        &&& cloned(source.elbow_roll, self.elbow_roll)
        &&& cloned(source.wrist_yaw, self.wrist_yaw)
        &&& cloned(source.hand, self.hand)
    }

    proof fn lemma_cloned_from(self, source: Self) {
    }

    fn fill(value: T) -> (r: Self) {
        SingleArmJoints {
            shoulder_pitch: value.clone(),
            shoulder_roll: value.clone(),
            elbow_yaw: value.clone(),
            elbow_roll: value.clone(),
            wrist_yaw: value.clone(),
            hand: value.clone(),
        }
    }
}

/// Type definition for the left arm joints of the robot.
/// Introduced for api consistency with [`LeftLegJoints`].
pub type LeftArmJoints<T> = SingleArmJoints<T>;

/// Type definition for the right arm joints of the robot.
/// Introduced for api consistency with [`RightLegJoints`].
pub type RightArmJoints<T> = SingleArmJoints<T>;

/// Wrapper struct containing the arm joints of the robot.
#[derive(Clone, Debug, PartialEq, Eq)]
pub struct ArmJoints<T> {
    pub left_arm: SingleArmJoints<T>,
    pub right_arm: SingleArmJoints<T>,
}

impl<T: Default> ArmJoints<T> {
    /// Whether every value that `self` holds is a default value of `T`.
    pub open spec fn is_default(self) -> bool {
        &&& self.left_arm.is_default()
        &&& self.right_arm.is_default()
    }
}

impl<T: Default> Default for ArmJoints<T> {
    fn default() -> (r: Self)
        ensures
            r.is_default(),
    {
        ArmJoints { left_arm: SingleArmJoints::default(), right_arm: SingleArmJoints::default() }
    }
}

impl<T: Clone> FillExt<T> for ArmJoints<T> {
    open spec fn filled(value: T) -> Self {
        ArmJoints {
            left_arm: SingleArmJoints::filled(value),
            right_arm: SingleArmJoints::filled(value),
        }
    }

    open spec fn cloned_from(self, source: Self) -> bool {
        &&& self.left_arm.cloned_from(source.left_arm)
        &&& self.right_arm.cloned_from(source.right_arm)
    }

    proof fn lemma_cloned_from(self, source: Self) {
    }

    fn fill(value: T) -> (r: Self) {
        ArmJoints {
            left_arm: SingleArmJoints {
                shoulder_pitch: value.clone(),
                shoulder_roll: value.clone(),
                elbow_yaw: value.clone(),
                elbow_roll: value.clone(),
                wrist_yaw: value.clone(),
                hand: value.clone(),
            },
            right_arm: SingleArmJoints {
                shoulder_pitch: value.clone(),
                shoulder_roll: value.clone(),
                elbow_yaw: value.clone(),
                elbow_roll: value.clone(),
                wrist_yaw: value.clone(),
                hand: value.clone(),
            },
        }
    }
}

} // verus!
