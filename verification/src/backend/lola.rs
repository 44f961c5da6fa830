//! The wire codec of the `LoLA` backend, which talks to a real NAO V6 through the socket at
//! `/tmp/robocup`.
//!
//! `LoLA` speaks in flat arrays: one array per field of a frame, with a fixed length and a
//! fixed order of positions. This module is the one place that knows those orders. For every
//! type of the data model it says which position of the wire array holds which field, in both
//! directions, and it shows that the two directions undo each other, so that nothing is lost
//! or moved on the way to the robot and back.
//!
//! The bytes of a frame are not made here. A backend hands [`LolaControlMsg`] to its
//! MessagePack encoder and gets [`LolaNaoState`] from its decoder; what this module adds for
//! the bytes is the size of a state frame and the test that a whole frame has arrived.

pub use crate::types::joint_array::JOINT_WIRE_ORDER;

use crate::error::Error;
use crate::types::{
    Battery, ForceSensitiveResistorFoot, ForceSensitiveResistors, JointArray, LeftEar, LeftEye,
    Rgb, RightEar, RightEye, Skull, SonarEnabled, SonarValues, Touch, Vector2, Vector3,
};
use crate::{HardwareInfo, NaoControlMessage, NaoState};
use vstd::prelude::*;
use vstd::std_specs::convert::{FromSpec, FromSpecImpl};

verus! {

/// The path of the socket that `LoLA` listens on.
pub const ROBOCUP_SOCKET_PATH: &'static str = "/tmp/robocup";

/// The number of bytes of one state frame. Every state frame has this size, whatever its
/// fields hold.
pub const LOLA_BUFFER_SIZE: usize = 896;

/// The wire order of the left ear: position `p` of the wire holds the LED at
/// `36 * LEFT_EAR_WIRE_ORDER[p]` degrees.
pub const LEFT_EAR_WIRE_ORDER: [usize; 10] = [0, 1, 2, 3, 4, 5, 6, 7, 8, 9];

/// The wire order of the right ear: position `p` of the wire holds the LED at
/// `36 * RIGHT_EAR_WIRE_ORDER[p]` degrees.
pub const RIGHT_EAR_WIRE_ORDER: [usize; 10] = [9, 8, 7, 6, 5, 4, 3, 2, 1, 0];

/// The wire order of the left eye within each colour channel: position `p` of a channel
/// holds the LED at `45 * LEFT_EYE_WIRE_ORDER[p]` degrees.
pub const LEFT_EYE_WIRE_ORDER: [usize; 8] = [1, 0, 7, 6, 5, 4, 3, 2];

/// The wire order of the right eye within each colour channel: position `p` of a channel
/// holds the LED at `45 * RIGHT_EYE_WIRE_ORDER[p]` degrees.
pub const RIGHT_EYE_WIRE_ORDER: [usize; 8] = [0, 1, 2, 3, 4, 5, 6, 7];

/// The wire order of the skull: position `p` of the wire holds the LED that is field
/// `SKULL_WIRE_ORDER[p]` of [`Skull`], counted from 0.
pub const SKULL_WIRE_ORDER: [usize; 12] = [0, 1, 2, 3, 4, 5, 11, 10, 9, 8, 6, 7];

/// A trait that provides conversions from nidhogg data to `LoLA` data
///
/// Like [`From`] does with [`Into`], this trait automatically provides an implementation for
/// [`IntoLoLA`].
pub trait FromNidhogg<N>: Sized {
    /// The wire form of `value`.
    spec fn spec_from_nidhogg(value: N) -> Self;

    fn from_nidhogg(value: N) -> (r: Self)
        ensures
            r == Self::spec_from_nidhogg(value),
    ;
}

/// A trait that provides conversions from nidhogg data to `LoLA` data
///
/// This trait gets automatically implemented when implementing [`FromNidhogg`], so you should
/// prefer implementing that.
pub trait IntoLoLA<L>: Sized {
    /// The wire form of `self`.
    spec fn spec_into_lola(self) -> L;

    fn into_lola(self) -> (r: L)
        ensures
            r == self.spec_into_lola(),
    ;
}

impl<N, L: FromNidhogg<N>> IntoLoLA<L> for N {
    open spec fn spec_into_lola(self) -> L {
        L::spec_from_nidhogg(self)
    }

    fn into_lola(self) -> (r: L) {
        L::from_nidhogg(self)
    }
}

/// A trait that provides conversions from `LoLA` data to nidhogg data
///
/// Like [`From`] does with [`Into`], this trait automatically provides an implementation for
/// [`IntoNidhogg`].
pub trait FromLoLA<L>: Sized {
    /// What the wire form `value` stands for.
    spec fn spec_from_lola(value: L) -> Self;

    fn from_lola(value: L) -> (r: Self)
        ensures
            r == Self::spec_from_lola(value),
    ;
}

/// A trait that provides conversions from `LoLA` data to nidhogg data
///
/// This trait gets automatically implemented when implementing [`FromLoLA`], so you should
/// prefer implementing that.
pub trait IntoNidhogg<N>: Sized {
    /// What the wire form `self` stands for.
    spec fn spec_into_nidhogg(self) -> N;

    fn into_nidhogg(self) -> (r: N)
        ensures
            r == self.spec_into_nidhogg(),
    ;
}

impl<L, N: FromLoLA<L>> IntoNidhogg<N> for L {
    open spec fn spec_into_nidhogg(self) -> N {
        N::spec_from_lola(self)
    }

    fn into_nidhogg(self) -> (r: N) {
        N::from_lola(self)
    }
}

impl<T> FromNidhogg<LeftEar<T>> for [T; 10] {
    /// The left ear is wired in the order of its angles: position `i` of the wire holds the
    /// LED at `36 * i` degrees.
    open spec fn spec_from_nidhogg(value: LeftEar<T>) -> Self {
        [
            value.intensity_0_deg,
            value.intensity_36_deg,
            value.intensity_72_deg,
            value.intensity_108_deg,
            value.intensity_144_deg,
            value.intensity_180_deg,
            value.intensity_216_deg,
            value.intensity_252_deg,
            value.intensity_288_deg,
            value.intensity_324_deg,
        ]
    }

    fn from_nidhogg(value: LeftEar<T>) -> (r: Self) {
        [
            value.intensity_0_deg,
            value.intensity_36_deg,
            value.intensity_72_deg,
            value.intensity_108_deg,
            value.intensity_144_deg,
            value.intensity_180_deg,
            value.intensity_216_deg,
            value.intensity_252_deg,
            value.intensity_288_deg,
            value.intensity_324_deg,
        ]
    }
}

impl<T: Copy> FromLoLA<[T; 10]> for LeftEar<T> {
    /// The left ear whose LED at `36 * i` degrees holds position `i` of the wire.
    open spec fn spec_from_lola(value: [T; 10]) -> Self {
        LeftEar {
            intensity_0_deg: value[0],
            intensity_36_deg: value[1],
            intensity_72_deg: value[2],
            intensity_108_deg: value[3],
            intensity_144_deg: value[4],
            intensity_180_deg: value[5],
            intensity_216_deg: value[6],
            intensity_252_deg: value[7],
            intensity_288_deg: value[8],
            intensity_324_deg: value[9],
        }
    }

    fn from_lola(value: [T; 10]) -> (r: LeftEar<T>) {
        LeftEar {
            intensity_0_deg: value[0],
            intensity_36_deg: value[1],
            intensity_72_deg: value[2],
            intensity_108_deg: value[3],
            intensity_144_deg: value[4],
            intensity_180_deg: value[5],
            intensity_216_deg: value[6],
            intensity_252_deg: value[7],
            intensity_288_deg: value[8],
            intensity_324_deg: value[9],
        }
    }
}

impl<T> FromNidhogg<RightEar<T>> for [T; 10] {
    /// The right ear mirrors the left one, and its wire winds the other way round: position
    /// `i` of the wire holds the LED at `36 * (9 - i)` degrees.
    open spec fn spec_from_nidhogg(value: RightEar<T>) -> Self {
        [
            value.intensity_324_deg,
            value.intensity_288_deg,
            value.intensity_252_deg,
            value.intensity_216_deg,
            value.intensity_180_deg,
            value.intensity_144_deg,
            value.intensity_108_deg,
            value.intensity_72_deg,
            value.intensity_36_deg,
            value.intensity_0_deg,
        ]
    }

    fn from_nidhogg(value: RightEar<T>) -> (r: Self) {
        [
            value.intensity_324_deg,
            value.intensity_288_deg,
            value.intensity_252_deg,
            value.intensity_216_deg,
            value.intensity_180_deg,
            value.intensity_144_deg,
            value.intensity_108_deg,
            value.intensity_72_deg,
            value.intensity_36_deg,
            value.intensity_0_deg,
        ]
    }
}

impl<T: Copy> FromLoLA<[T; 10]> for RightEar<T> {
    /// The right ear whose LED at `36 * k` degrees holds position `9 - k` of the wire.
    open spec fn spec_from_lola(value: [T; 10]) -> Self {
        RightEar {
            intensity_0_deg: value[9],
            intensity_36_deg: value[8],
            intensity_72_deg: value[7],
            intensity_108_deg: value[6],
            intensity_144_deg: value[5],
            intensity_180_deg: value[4],
            intensity_216_deg: value[3],
            intensity_252_deg: value[2],
            intensity_288_deg: value[1],
            intensity_324_deg: value[0],
        }
    }

    fn from_lola(value: [T; 10]) -> (r: RightEar<T>) {
        RightEar {
            intensity_0_deg: value[9],
            intensity_36_deg: value[8],
            intensity_72_deg: value[7],
            intensity_108_deg: value[6],
            intensity_144_deg: value[5],
            intensity_180_deg: value[4],
            intensity_216_deg: value[3],
            intensity_252_deg: value[2],
            intensity_288_deg: value[1],
            intensity_324_deg: value[0],
        }
    }
}

impl<T> FromNidhogg<Rgb<T>> for [T; 3] {
    /// A colour goes over the wire as red, green, blue.
    open spec fn spec_from_nidhogg(value: Rgb<T>) -> Self {
        [value.red, value.green, value.blue]
    }

    fn from_nidhogg(value: Rgb<T>) -> (r: Self) {
        [value.red, value.green, value.blue]
    }
}

impl<T: Copy> FromLoLA<[T; 3]> for Rgb<T> {
    /// The colour whose red, green and blue hold positions 0, 1 and 2 of the wire.
    open spec fn spec_from_lola(value: [T; 3]) -> Self {
        Rgb {
            red: value[0],
            green: value[1],
            blue: value[2],
        }
    }

    fn from_lola(value: [T; 3]) -> (r: Rgb<T>) {
        Rgb {
            red: value[0],
            green: value[1],
            blue: value[2],
        }
    }
}

impl<T> FromNidhogg<LeftEye<T>> for [T; 24] {
    /// An eye goes over the wire channel by channel: the reds of all eight LEDs, then their
    /// greens, then their blues. Within each channel the LEDs of the left eye stand in the
    /// order of the angles 45, 0, 315, 270, 225, 180, 135, 90.
    open spec fn spec_from_nidhogg(value: LeftEye<T>) -> Self {
        [
            value.color_45_deg.red,
            value.color_0_deg.red,
            value.color_315_deg.red,
            value.color_270_deg.red,
            value.color_225_deg.red,
            value.color_180_deg.red,
            value.color_135_deg.red,
            value.color_90_deg.red,
            value.color_45_deg.green,
            value.color_0_deg.green,
            value.color_315_deg.green,
            value.color_270_deg.green,
            value.color_225_deg.green,
            value.color_180_deg.green,
            value.color_135_deg.green,
            value.color_90_deg.green,
            value.color_45_deg.blue,
            value.color_0_deg.blue,
            value.color_315_deg.blue,
            value.color_270_deg.blue,
            value.color_225_deg.blue,
            value.color_180_deg.blue,
            value.color_135_deg.blue,
            value.color_90_deg.blue,
        ]
    }

    fn from_nidhogg(value: LeftEye<T>) -> (r: Self) {
        [
            value.color_45_deg.red,
            value.color_0_deg.red,
            value.color_315_deg.red,
            value.color_270_deg.red,
            value.color_225_deg.red,
            value.color_180_deg.red,
            value.color_135_deg.red,
            value.color_90_deg.red,
            value.color_45_deg.green,
            value.color_0_deg.green,
            value.color_315_deg.green,
            value.color_270_deg.green,
            value.color_225_deg.green,
            value.color_180_deg.green,
            value.color_135_deg.green,
            value.color_90_deg.green,
            value.color_45_deg.blue,
            value.color_0_deg.blue,
            value.color_315_deg.blue,
            value.color_270_deg.blue,
            value.color_225_deg.blue,
            value.color_180_deg.blue,
            value.color_135_deg.blue,
            value.color_90_deg.blue,
        ]
    }
}

impl<T: Copy> FromLoLA<[T; 24]> for LeftEye<T> {
    /// The left eye whose LED at the `i`-th of the angles 45, 0, 315, 270, 225, 180, 135, 90
    /// has its red at position `i` of the wire, its green at `8 + i` and its blue at `16 + i`.
    open spec fn spec_from_lola(value: [T; 24]) -> Self {
        LeftEye {
            color_0_deg: Rgb { red: value[1], green: value[9], blue: value[17] },
            color_45_deg: Rgb { red: value[0], green: value[8], blue: value[16] },
            color_90_deg: Rgb { red: value[7], green: value[15], blue: value[23] },
            color_135_deg: Rgb { red: value[6], green: value[14], blue: value[22] },
            color_180_deg: Rgb { red: value[5], green: value[13], blue: value[21] },
            color_225_deg: Rgb { red: value[4], green: value[12], blue: value[20] },
            color_270_deg: Rgb { red: value[3], green: value[11], blue: value[19] },
            color_315_deg: Rgb { red: value[2], green: value[10], blue: value[18] },
        }
    }

    fn from_lola(value: [T; 24]) -> (r: LeftEye<T>) {
        LeftEye {
            color_0_deg: Rgb { red: value[1], green: value[9], blue: value[17] },
            color_45_deg: Rgb { red: value[0], green: value[8], blue: value[16] },
            color_90_deg: Rgb { red: value[7], green: value[15], blue: value[23] },
            color_135_deg: Rgb { red: value[6], green: value[14], blue: value[22] },
            color_180_deg: Rgb { red: value[5], green: value[13], blue: value[21] },
            color_225_deg: Rgb { red: value[4], green: value[12], blue: value[20] },
            color_270_deg: Rgb { red: value[3], green: value[11], blue: value[19] },
            color_315_deg: Rgb { red: value[2], green: value[10], blue: value[18] },
        }
    }
}

impl<T> FromNidhogg<RightEye<T>> for [T; 24] {
    /// An eye goes over the wire channel by channel: the reds of all eight LEDs, then their
    /// greens, then their blues. Within each channel the LEDs of the right eye stand in the
    /// order of the angles 0, 45, 90, 135, 180, 225, 270, 315.
    open spec fn spec_from_nidhogg(value: RightEye<T>) -> Self {
        [
            value.color_0_deg.red,
            value.color_45_deg.red,
            value.color_90_deg.red,
            value.color_135_deg.red,
            value.color_180_deg.red,
            value.color_225_deg.red,
            value.color_270_deg.red,
            value.color_315_deg.red,
            value.color_0_deg.green,
            value.color_45_deg.green,
            value.color_90_deg.green,
            value.color_135_deg.green,
            value.color_180_deg.green,
            value.color_225_deg.green,
            value.color_270_deg.green,
            value.color_315_deg.green,
            value.color_0_deg.blue,
            value.color_45_deg.blue,
            value.color_90_deg.blue,
            value.color_135_deg.blue,
            value.color_180_deg.blue,
            value.color_225_deg.blue,
            value.color_270_deg.blue,
            value.color_315_deg.blue,
        ]
    }

    fn from_nidhogg(value: RightEye<T>) -> (r: Self) {
        [
            value.color_0_deg.red,
            value.color_45_deg.red,
            value.color_90_deg.red,
            value.color_135_deg.red,
            value.color_180_deg.red,
            value.color_225_deg.red,
            value.color_270_deg.red,
            value.color_315_deg.red,
            value.color_0_deg.green,
            value.color_45_deg.green,
            value.color_90_deg.green,
            value.color_135_deg.green,
            value.color_180_deg.green,
            value.color_225_deg.green,
            value.color_270_deg.green,
            value.color_315_deg.green,
            value.color_0_deg.blue,
            value.color_45_deg.blue,
            value.color_90_deg.blue,
            value.color_135_deg.blue,
            value.color_180_deg.blue,
            value.color_225_deg.blue,
            value.color_270_deg.blue,
            value.color_315_deg.blue,
        ]
    }
}

impl<T: Copy> FromLoLA<[T; 24]> for RightEye<T> {
    /// The right eye whose LED at the `i`-th of the angles 0, 45, 90, 135, 180, 225, 270, 315
    /// has its red at position `i` of the wire, its green at `8 + i` and its blue at `16 + i`.
    open spec fn spec_from_lola(value: [T; 24]) -> Self {
        RightEye {
            color_0_deg: Rgb { red: value[0], green: value[8], blue: value[16] },
            color_45_deg: Rgb { red: value[1], green: value[9], blue: value[17] },
            color_90_deg: Rgb { red: value[2], green: value[10], blue: value[18] },
            color_135_deg: Rgb { red: value[3], green: value[11], blue: value[19] },
            color_180_deg: Rgb { red: value[4], green: value[12], blue: value[20] },
            color_225_deg: Rgb { red: value[5], green: value[13], blue: value[21] },
            color_270_deg: Rgb { red: value[6], green: value[14], blue: value[22] },
            color_315_deg: Rgb { red: value[7], green: value[15], blue: value[23] },
        }
    }

    fn from_lola(value: [T; 24]) -> (r: RightEye<T>) {
        RightEye {
            color_0_deg: Rgb { red: value[0], green: value[8], blue: value[16] },
            color_45_deg: Rgb { red: value[1], green: value[9], blue: value[17] },
            color_90_deg: Rgb { red: value[2], green: value[10], blue: value[18] },
            color_135_deg: Rgb { red: value[3], green: value[11], blue: value[19] },
            color_180_deg: Rgb { red: value[4], green: value[12], blue: value[20] },
            color_225_deg: Rgb { red: value[5], green: value[13], blue: value[21] },
            color_270_deg: Rgb { red: value[6], green: value[14], blue: value[22] },
            color_315_deg: Rgb { red: value[7], green: value[15], blue: value[23] },
        }
    }
}

impl<T> FromNidhogg<Skull<T>> for [T; 12] {
    /// The skull is wired as a walk around the head: from the left front over the left rear
    /// to the right rear, and back to the right front.
    open spec fn spec_from_nidhogg(value: Skull<T>) -> Self {
        [
            value.left_front_0,
            value.left_front_1,
            value.left_middle_0,
            value.left_rear_0,
            value.left_rear_1,
            value.left_rear_2,
            value.right_rear_2,
            value.right_rear_1,
            value.right_rear_0,
            value.right_middle_0,
            value.right_front_0,
            value.right_front_1,
        ]
    }

    fn from_nidhogg(value: Skull<T>) -> (r: Self) {
        [
            value.left_front_0,
            value.left_front_1,
            value.left_middle_0,
            value.left_rear_0,
            value.left_rear_1,
            value.left_rear_2,
            value.right_rear_2,
            value.right_rear_1,
            value.right_rear_0,
            value.right_middle_0,
            value.right_front_0,
            value.right_front_1,
        ]
    }
}

impl<T: Copy> FromLoLA<[T; 12]> for Skull<T> {
    /// The skull whose LEDs hold the positions of the walk around the head: the left side from
    /// front to rear at positions 0 to 5, the right side from rear to front at positions 6 to 11.
    open spec fn spec_from_lola(value: [T; 12]) -> Self {
        Skull {
            left_front_0: value[0],
            left_front_1: value[1],
            left_middle_0: value[2],
            left_rear_0: value[3],
            left_rear_1: value[4],
            left_rear_2: value[5],
            right_front_0: value[10],
            right_front_1: value[11],
            right_middle_0: value[9],
            right_rear_0: value[8],
            right_rear_1: value[7],
            right_rear_2: value[6],
        }
    }

    fn from_lola(value: [T; 12]) -> (r: Skull<T>) {
        Skull {
            left_front_0: value[0],
            left_front_1: value[1],
            left_middle_0: value[2],
            left_rear_0: value[3],
            left_rear_1: value[4],
            left_rear_2: value[5],
            right_front_0: value[10],
            right_front_1: value[11],
            right_middle_0: value[9],
            right_rear_0: value[8],
            right_rear_1: value[7],
            right_rear_2: value[6],
        }
    }
}

impl<T> FromNidhogg<JointArray<T>> for [T; 25] {
    /// The joints go over the wire in the order of the robot's controller: the head, the left
    /// arm, the left leg, the right leg, the right arm, and the two hands. The one hip yaw-pitch
    /// actuator, which both legs share, stands with the left leg. This is not the order of the
    /// fields of [`JointArray`]: there the right arm stands before the right leg.
    open spec fn spec_from_nidhogg(value: JointArray<T>) -> Self {
        [
            value.head_yaw,
            value.head_pitch,
            value.left_shoulder_pitch,
            value.left_shoulder_roll,
            value.left_elbow_yaw,
            value.left_elbow_roll,
            value.left_wrist_yaw,
            value.left_hip_yaw_pitch,
            value.left_hip_roll,
            value.left_hip_pitch,
            value.left_knee_pitch,
            value.left_ankle_pitch,
            value.left_ankle_roll,
            value.right_hip_roll,
            value.right_hip_pitch,
            value.right_knee_pitch,
            value.right_ankle_pitch,
            value.right_ankle_roll,
            value.right_shoulder_pitch,
            value.right_shoulder_roll,
            value.right_elbow_yaw,
            value.right_elbow_roll,
            value.right_wrist_yaw,
            value.left_hand,
            value.right_hand,
        ]
    }

    fn from_nidhogg(value: JointArray<T>) -> (r: Self) {
        [
            value.head_yaw,
            value.head_pitch,
            value.left_shoulder_pitch,
            value.left_shoulder_roll,
            value.left_elbow_yaw,
            value.left_elbow_roll,
            value.left_wrist_yaw,
            value.left_hip_yaw_pitch,
            value.left_hip_roll,
            value.left_hip_pitch,
            value.left_knee_pitch,
            value.left_ankle_pitch,
            value.left_ankle_roll,
            value.right_hip_roll,
            value.right_hip_pitch,
            value.right_knee_pitch,
            value.right_ankle_pitch,
            value.right_ankle_roll,
            value.right_shoulder_pitch,
            value.right_shoulder_roll,
            value.right_elbow_yaw,
            value.right_elbow_roll,
            value.right_wrist_yaw,
            value.left_hand,
            value.right_hand,
        ]
    }
}

impl<T: Copy> FromLoLA<[T; 25]> for JointArray<T> {
    /// The joint array whose joints hold the wire positions of the controller's order: the
    /// right leg at positions 13 to 17, the right arm at positions 18 to 22.
    open spec fn spec_from_lola(value: [T; 25]) -> Self {
        JointArray {
            head_yaw: value[0],
            head_pitch: value[1],
            left_shoulder_pitch: value[2],
            left_shoulder_roll: value[3],
            left_elbow_yaw: value[4],
            left_elbow_roll: value[5],
            left_wrist_yaw: value[6],
            left_hip_yaw_pitch: value[7],
            left_hip_roll: value[8],
            left_hip_pitch: value[9],
            left_knee_pitch: value[10],
            left_ankle_pitch: value[11],
            left_ankle_roll: value[12],
            right_shoulder_pitch: value[18],
            right_shoulder_roll: value[19],
            right_elbow_yaw: value[20],
            right_elbow_roll: value[21],
            right_wrist_yaw: value[22],
            right_hip_roll: value[13],
            right_hip_pitch: value[14],
            right_knee_pitch: value[15],
            right_ankle_pitch: value[16],
            right_ankle_roll: value[17],
            left_hand: value[23],
            right_hand: value[24],
        }
    }

    fn from_lola(value: [T; 25]) -> (r: JointArray<T>) {
        JointArray {
            head_yaw: value[0],
            head_pitch: value[1],
            left_shoulder_pitch: value[2],
            left_shoulder_roll: value[3],
            left_elbow_yaw: value[4],
            left_elbow_roll: value[5],
            left_wrist_yaw: value[6],
            left_hip_yaw_pitch: value[7],
            left_hip_roll: value[8],
            left_hip_pitch: value[9],
            left_knee_pitch: value[10],
            left_ankle_pitch: value[11],
            left_ankle_roll: value[12],
            right_shoulder_pitch: value[18],
            right_shoulder_roll: value[19],
            right_elbow_yaw: value[20],
            right_elbow_roll: value[21],
            right_wrist_yaw: value[22],
            right_hip_roll: value[13],
            right_hip_pitch: value[14],
            right_knee_pitch: value[15],
            right_ankle_pitch: value[16],
            right_ankle_roll: value[17],
            left_hand: value[23],
            right_hand: value[24],
        }
    }
}

impl<T> FromNidhogg<Battery<T>> for [T; 4] {
    /// The battery goes over the wire as charge, current, status, temperature.
    open spec fn spec_from_nidhogg(value: Battery<T>) -> Self {
        [value.charge, value.current, value.status, value.temperature]
    }

    fn from_nidhogg(value: Battery<T>) -> (r: Self) {
        [value.charge, value.current, value.status, value.temperature]
    }
}

impl<T: Copy> FromLoLA<[T; 4]> for Battery<T> {
    /// The battery whose charge, current, status and temperature hold positions 0 to 3.
    open spec fn spec_from_lola(value: [T; 4]) -> Self {
        Battery {
            charge: value[0],
            current: value[1],
            status: value[2],
            temperature: value[3],
        }
    }

    fn from_lola(value: [T; 4]) -> (r: Battery<T>) {
        Battery {
            charge: value[0],
            current: value[1],
            status: value[2],
            temperature: value[3],
        }
    }
}

impl<T> FromNidhogg<ForceSensitiveResistorFoot<T>> for [T; 4] {
    /// The sensors of a foot go over the wire as front left, front right, rear left, rear right.
    open spec fn spec_from_nidhogg(value: ForceSensitiveResistorFoot<T>) -> Self {
        [value.front_left, value.front_right, value.rear_left, value.rear_right]
    }

    fn from_nidhogg(value: ForceSensitiveResistorFoot<T>) -> (r: Self) {
        [value.front_left, value.front_right, value.rear_left, value.rear_right]
    }
}

impl<T: Copy> FromLoLA<[T; 4]> for ForceSensitiveResistorFoot<T> {
    /// The foot whose front left, front right, rear left and rear right sensors hold positions
    /// 0 to 3.
    open spec fn spec_from_lola(value: [T; 4]) -> Self {
        ForceSensitiveResistorFoot {
            front_left: value[0],
            front_right: value[1],
            rear_left: value[2],
            rear_right: value[3],
        }
    }

    fn from_lola(value: [T; 4]) -> (r: ForceSensitiveResistorFoot<T>) {
        ForceSensitiveResistorFoot {
            front_left: value[0],
            front_right: value[1],
            rear_left: value[2],
            rear_right: value[3],
        }
    }
}

impl<T> FromNidhogg<ForceSensitiveResistors<T>> for [T; 8] {
    /// The four sensors of the left foot, then the four of the right foot.
    open spec fn spec_from_nidhogg(value: ForceSensitiveResistors<T>) -> Self {
        [
            value.left_foot.front_left,
            value.left_foot.front_right,
            value.left_foot.rear_left,
            value.left_foot.rear_right,
            value.right_foot.front_left,
            value.right_foot.front_right,
            value.right_foot.rear_left,
            value.right_foot.rear_right,
        ]
    }

    fn from_nidhogg(value: ForceSensitiveResistors<T>) -> (r: Self) {
        [
            value.left_foot.front_left,
            value.left_foot.front_right,
            value.left_foot.rear_left,
            value.left_foot.rear_right,
            value.right_foot.front_left,
            value.right_foot.front_right,
            value.right_foot.rear_left,
            value.right_foot.rear_right,
        ]
    }
}

impl<T: Copy> FromLoLA<[T; 8]> for ForceSensitiveResistors<T> {
    /// The left foot from positions 0 to 3 of the wire, the right foot from positions 4 to 7.
    open spec fn spec_from_lola(value: [T; 8]) -> Self {
        ForceSensitiveResistors {
            left_foot: ForceSensitiveResistorFoot::spec_from_lola(
                [value[0], value[1], value[2], value[3]],
            ),
            right_foot: ForceSensitiveResistorFoot::spec_from_lola(
                [value[4], value[5], value[6], value[7]],
            ),
        }
    }

    fn from_lola(value: [T; 8]) -> (r: ForceSensitiveResistors<T>) {
        let left = [value[0], value[1], value[2], value[3]];
        let right = [value[4], value[5], value[6], value[7]];
        ForceSensitiveResistors { left_foot: left.into_nidhogg(), right_foot: right.into_nidhogg() }
    }
}

impl<T> FromNidhogg<SonarValues<T>> for [T; 2] {
    /// The left sonar, then the right one.
    open spec fn spec_from_nidhogg(value: SonarValues<T>) -> Self {
        [value.left, value.right]
    }

    fn from_nidhogg(value: SonarValues<T>) -> (r: Self) {
        [value.left, value.right]
    }
}

impl<T: Copy> FromLoLA<[T; 2]> for SonarValues<T> {
    /// The sonar values whose left and right hold positions 0 and 1 of the wire.
    open spec fn spec_from_lola(value: [T; 2]) -> Self {
        SonarValues {
            left: value[0],
            right: value[1],
        }
    }

    fn from_lola(value: [T; 2]) -> (r: SonarValues<T>) {
        SonarValues {
            left: value[0],
            right: value[1],
        }
    }
}

impl FromNidhogg<SonarEnabled> for [bool; 2] {
    /// The left sonar, then the right one.
    open spec fn spec_from_nidhogg(value: SonarEnabled) -> Self {
        [value.left, value.right]
    }

    fn from_nidhogg(value: SonarEnabled) -> (r: Self) {
        [value.left, value.right]
    }
}

impl FromLoLA<[bool; 2]> for SonarEnabled {
    /// The sonar switches whose left and right hold positions 0 and 1 of the wire.
    open spec fn spec_from_lola(value: [bool; 2]) -> Self {
        SonarEnabled {
            left: value[0],
            right: value[1],
        }
    }

    fn from_lola(value: [bool; 2]) -> (r: SonarEnabled) {
        SonarEnabled {
            left: value[0],
            right: value[1],
        }
    }
}

impl<T> FromNidhogg<Touch<T>> for [T; 14] {
    /// The touch sensors go over the wire in the order of the fields of [`Touch`].
    open spec fn spec_from_nidhogg(value: Touch<T>) -> Self {
        [
            value.chest_board,
            value.head_front,
            value.head_middle,
            value.head_rear,
            value.left_foot_left,
            value.left_foot_right,
            value.left_hand_back,
            value.left_hand_left,
            value.left_hand_right,
            value.right_foot_left,
            value.right_foot_right,
            value.right_hand_back,
            value.right_hand_left,
            value.right_hand_right,
        ]
    }

    fn from_nidhogg(value: Touch<T>) -> (r: Self) {
        [
            value.chest_board,
            value.head_front,
            value.head_middle,
            value.head_rear,
            value.left_foot_left,
            value.left_foot_right,
            value.left_hand_back,
            value.left_hand_left,
            value.left_hand_right,
            value.right_foot_left,
            value.right_foot_right,
            value.right_hand_back,
            value.right_hand_left,
            value.right_hand_right,
        ]
    }
}

impl<T: Copy> FromLoLA<[T; 14]> for Touch<T> {
    /// The touch sensors whose `i`-th field holds position `i` of the wire.
    open spec fn spec_from_lola(value: [T; 14]) -> Self {
        Touch {
            chest_board: value[0],
            head_front: value[1],
            head_middle: value[2],
            head_rear: value[3],
            left_foot_left: value[4],
            left_foot_right: value[5],
            left_hand_back: value[6],
            left_hand_left: value[7],
            left_hand_right: value[8],
            right_foot_left: value[9],
            right_foot_right: value[10],
            right_hand_back: value[11],
            right_hand_left: value[12],
            right_hand_right: value[13],
        }
    }

    fn from_lola(value: [T; 14]) -> (r: Touch<T>) {
        Touch {
            chest_board: value[0],
            head_front: value[1],
            head_middle: value[2],
            head_rear: value[3],
            left_foot_left: value[4],
            left_foot_right: value[5],
            left_hand_back: value[6],
            left_hand_left: value[7],
            left_hand_right: value[8],
            right_foot_left: value[9],
            right_foot_right: value[10],
            right_hand_back: value[11],
            right_hand_left: value[12],
            right_hand_right: value[13],
        }
    }
}

impl<T> FromNidhogg<Vector2<T>> for [T; 2] {
    /// A vector goes over the wire as x, y.
    open spec fn spec_from_nidhogg(value: Vector2<T>) -> Self {
        [value.x, value.y]
    }

    fn from_nidhogg(value: Vector2<T>) -> (r: Self) {
        [value.x, value.y]
    }
}

impl<T: Copy> FromLoLA<[T; 2]> for Vector2<T> {
    /// The vector whose x and y hold positions 0 and 1 of the wire.
    open spec fn spec_from_lola(value: [T; 2]) -> Self {
        Vector2 {
            x: value[0],
            y: value[1],
        }
    }

    fn from_lola(value: [T; 2]) -> (r: Vector2<T>) {
        Vector2 {
            x: value[0],
            y: value[1],
        }
    }
}

impl<T> FromNidhogg<Vector3<T>> for [T; 3] {
    /// A vector goes over the wire as x, y, z.
    open spec fn spec_from_nidhogg(value: Vector3<T>) -> Self {
        [value.x, value.y, value.z]
    }

    fn from_nidhogg(value: Vector3<T>) -> (r: Self) {
        [value.x, value.y, value.z]
    }
}

impl<T: Copy> FromLoLA<[T; 3]> for Vector3<T> {
    /// The vector whose x, y and z hold positions 0, 1 and 2 of the wire.
    open spec fn spec_from_lola(value: [T; 3]) -> Self {
        Vector3 {
            x: value[0],
            y: value[1],
            z: value[2],
        }
    }

    fn from_lola(value: [T; 3]) -> (r: Vector3<T>) {
        Vector3 {
            x: value[0],
            y: value[1],
            z: value[2],
        }
    }
}


/// The state frame as `LoLA` sends it: one flat array per field.
///
/// On the wire the fields go by the names `Stiffness`, `Position`, `Temperature`, `Current`,
/// `Battery`, `Accelerometer`, `Gyroscope`, `Angles`, `Sonar`, `FSR`, `Touch`, `Status` and
/// `RobotConfig`.
#[derive(Debug, Clone, PartialEq)]
pub struct LolaNaoState<T> {
    pub stiffness: [T; 25],
    pub position: [T; 25],
    pub temperature: [T; 25],
    pub current: [T; 25],
    pub battery: [T; 4],
    pub accelerometer: [T; 3],
    pub gyroscope: [T; 3],
    pub angles: [T; 2],
    pub sonar: [T; 2],
    pub f_s_r: [T; 8],
    pub touch: [T; 14],
    pub status: [i32; 25],
    pub robot_config: [String; 4],
}

impl<T: Copy> FromSpecImpl<LolaNaoState<T>> for NaoState<T> {
    open spec fn obeys_from_spec() -> bool {
        true
    }

    /// The state that a frame stands for: each array is read by the wire order of its type.
    open spec fn from_spec(value: LolaNaoState<T>) -> Self {
        NaoState {
            stiffness: value.stiffness.spec_into_nidhogg(),
            position: value.position.spec_into_nidhogg(),
            temperature: value.temperature.spec_into_nidhogg(),
            current: value.current.spec_into_nidhogg(),
            battery: value.battery.spec_into_nidhogg(),
            accelerometer: value.accelerometer.spec_into_nidhogg(),
            gyroscope: value.gyroscope.spec_into_nidhogg(),
            angles: value.angles.spec_into_nidhogg(),
            sonar: value.sonar.spec_into_nidhogg(),
            force_sensitive_resistors: value.f_s_r.spec_into_nidhogg(),
            touch: value.touch.spec_into_nidhogg(),
            status: value.status.spec_into_nidhogg(),
        }
    }
}

impl<T: Copy> From<LolaNaoState<T>> for NaoState<T> {
    fn from(value: LolaNaoState<T>) -> (r: Self) {
        Self {
            stiffness: value.stiffness.into_nidhogg(),
            position: value.position.into_nidhogg(),
            temperature: value.temperature.into_nidhogg(),
            current: value.current.into_nidhogg(),
            battery: value.battery.into_nidhogg(),
            accelerometer: value.accelerometer.into_nidhogg(),
            gyroscope: value.gyroscope.into_nidhogg(),
            angles: value.angles.into_nidhogg(),
            sonar: value.sonar.into_nidhogg(),
            force_sensitive_resistors: value.f_s_r.into_nidhogg(),
            touch: value.touch.into_nidhogg(),
            status: value.status.into_nidhogg(),
        }
    }
}

impl<T> FromSpecImpl<LolaNaoState<T>> for HardwareInfo {
    open spec fn obeys_from_spec() -> bool {
        true
    }

    /// The identity of the robot that sent a frame: the serial number and the version of its
    /// body, then those of its head.
    open spec fn from_spec(value: LolaNaoState<T>) -> Self {
        HardwareInfo {
            body_id: value.robot_config[0],
            body_version: value.robot_config[1],
            head_id: value.robot_config[2],
            head_version: value.robot_config[3],
        }
    }
}

impl<T> From<LolaNaoState<T>> for HardwareInfo {
    fn from(value: LolaNaoState<T>) -> (r: Self) {
        Self {
            body_id: value.robot_config[0].clone(),
            body_version: value.robot_config[1].clone(),
            head_id: value.robot_config[2].clone(),
            head_version: value.robot_config[3].clone(),
        }
    }
}

/// The control frame as `LoLA` takes it: one flat array per field.
///
/// On the wire the fields go by the names `Position`, `Stiffness`, `REar`, `LEar`, `Chest`,
/// `LEye`, `REye`, `LFoot`, `RFoot`, `Skull` and `Sonar`.
#[derive(Debug, Clone, PartialEq)]
pub struct LolaControlMsg<T> {
    pub position: [T; 25],
    pub stiffness: [T; 25],
    pub r_ear: [T; 10],
    pub l_ear: [T; 10],
    pub chest: [T; 3],
    pub l_eye: [T; 24],
    pub r_eye: [T; 24],
    pub l_foot: [T; 3],
    pub r_foot: [T; 3],
    pub skull: [T; 12],
    pub sonar: [bool; 2],
}

impl<T> FromSpecImpl<NaoControlMessage<T>> for LolaControlMsg<T> {
    open spec fn obeys_from_spec() -> bool {
        true
    }

    /// The frame that carries a control message: each field is written by the wire order of
    /// its type.
    open spec fn from_spec(value: NaoControlMessage<T>) -> Self {
        LolaControlMsg {
            position: value.position.spec_into_lola(),
            stiffness: value.stiffness.spec_into_lola(),
            r_ear: value.right_ear.spec_into_lola(),
            l_ear: value.left_ear.spec_into_lola(),
            chest: value.chest.spec_into_lola(),
            l_eye: value.left_eye.spec_into_lola(),
            r_eye: value.right_eye.spec_into_lola(),
            l_foot: value.left_foot.spec_into_lola(),
            r_foot: value.right_foot.spec_into_lola(),
            skull: value.skull.spec_into_lola(),
            sonar: value.sonar.spec_into_lola(),
        }
    }
}

impl<T> From<NaoControlMessage<T>> for LolaControlMsg<T> {
    fn from(value: NaoControlMessage<T>) -> (r: Self) {
        Self {
            position: value.position.into_lola(),
            stiffness: value.stiffness.into_lola(),
            r_ear: value.right_ear.into_lola(),
            l_ear: value.left_ear.into_lola(),
            chest: value.chest.into_lola(),
            l_eye: value.left_eye.into_lola(),
            r_eye: value.right_eye.into_lola(),
            l_foot: value.left_foot.into_lola(),
            r_foot: value.right_foot.into_lola(),
            skull: value.skull.into_lola(),
            sonar: value.sonar.into_lola(),
        }
    }
}

impl<T: Copy> FromSpecImpl<LolaControlMsg<T>> for NaoControlMessage<T> {
    open spec fn obeys_from_spec() -> bool {
        true
    }

    /// The control message that a frame carries.
    open spec fn from_spec(value: LolaControlMsg<T>) -> Self {
        NaoControlMessage {
            position: value.position.spec_into_nidhogg(),
            stiffness: value.stiffness.spec_into_nidhogg(),
            right_ear: value.r_ear.spec_into_nidhogg(),
            left_ear: value.l_ear.spec_into_nidhogg(),
            chest: value.chest.spec_into_nidhogg(),
            left_eye: value.l_eye.spec_into_nidhogg(),
            right_eye: value.r_eye.spec_into_nidhogg(),
            left_foot: value.l_foot.spec_into_nidhogg(),
            right_foot: value.r_foot.spec_into_nidhogg(),
            skull: value.skull.spec_into_nidhogg(),
            sonar: value.sonar.spec_into_nidhogg(),
        }
    }
}

impl<T: Copy> From<LolaControlMsg<T>> for NaoControlMessage<T> {
    fn from(value: LolaControlMsg<T>) -> (r: Self) {
        Self {
            position: value.position.into_nidhogg(),
            stiffness: value.stiffness.into_nidhogg(),
            right_ear: value.r_ear.into_nidhogg(),
            left_ear: value.l_ear.into_nidhogg(),
            chest: value.chest.into_nidhogg(),
            left_eye: value.l_eye.into_nidhogg(),
            right_eye: value.r_eye.into_nidhogg(),
            left_foot: value.l_foot.into_nidhogg(),
            right_foot: value.r_foot.into_nidhogg(),
            skull: value.skull.into_nidhogg(),
            sonar: value.sonar.into_nidhogg(),
        }
    }
}

/// Takes one state frame off the front of what the transport has delivered.
///
/// A frame is the first [`LOLA_BUFFER_SIZE`] bytes, whatever they hold; what follows them is
/// handed back untouched, for the next frame. Where fewer bytes than a frame have arrived,
/// nothing is taken and the shortfall is reported as [`Error::FrameTruncated`], which is
/// not the error of a frame that arrived whole and does not parse.
pub fn split_frame(received: &[u8]) -> (r: Result<(&[u8], &[u8]), Error>)
    ensures
        received@.len() >= LOLA_BUFFER_SIZE ==> r is Ok && r->Ok_0.0@ == received@.subrange(
            0,
            LOLA_BUFFER_SIZE as int,
        ) && r->Ok_0.1@ == received@.subrange(LOLA_BUFFER_SIZE as int, received@.len() as int),
        received@.len() < LOLA_BUFFER_SIZE ==> r == Err::<(&[u8], &[u8]), Error>(
            Error::FrameTruncated { received: received@.len() as usize },
        ),
{
    if received.len() < LOLA_BUFFER_SIZE {
        return Err(Error::FrameTruncated { received: received.len() });
    }
    Ok(received.split_at(LOLA_BUFFER_SIZE))
}

/// A type of the data model whose codec loses nothing: writing a value to the wire form `L` and
/// reading the wire form are inverse to each other.
pub trait Lossless<L: FromNidhogg<Self>>: FromLoLA<L> {
    /// Writing `value` to the wire and reading it back gives `value` again, and reading `wire`
    /// and writing the result gives `wire` again. So every value has exactly one wire form, and
    /// every wire form stands for exactly one value.
    proof fn lemma_round_trip(value: Self, wire: L)
        ensures
            Self::spec_from_lola(L::spec_from_nidhogg(value)) == value,
            L::spec_from_nidhogg(Self::spec_from_lola(wire)) == wire,
    ;
}

impl<T: Copy> Lossless<[T; 10]> for LeftEar<T> {
    proof fn lemma_round_trip(value: Self, wire: [T; 10]) {
    }
}

impl<T: Copy> Lossless<[T; 10]> for RightEar<T> {
    proof fn lemma_round_trip(value: Self, wire: [T; 10]) {
    }
}

impl<T: Copy> Lossless<[T; 3]> for Rgb<T> {
    proof fn lemma_round_trip(value: Self, wire: [T; 3]) {
    }
}

impl<T: Copy> Lossless<[T; 24]> for LeftEye<T> {
    proof fn lemma_round_trip(value: Self, wire: [T; 24]) {
    }
}

impl<T: Copy> Lossless<[T; 24]> for RightEye<T> {
    proof fn lemma_round_trip(value: Self, wire: [T; 24]) {
    }
}

impl<T: Copy> Lossless<[T; 12]> for Skull<T> {
    proof fn lemma_round_trip(value: Self, wire: [T; 12]) {
    }
}

impl<T: Copy> Lossless<[T; 25]> for JointArray<T> {
    proof fn lemma_round_trip(value: Self, wire: [T; 25]) {
    }
}

impl<T: Copy> Lossless<[T; 4]> for Battery<T> {
    proof fn lemma_round_trip(value: Self, wire: [T; 4]) {
    }
}

impl<T: Copy> Lossless<[T; 4]> for ForceSensitiveResistorFoot<T> {
    proof fn lemma_round_trip(value: Self, wire: [T; 4]) {
    }
}

impl<T: Copy> Lossless<[T; 8]> for ForceSensitiveResistors<T> {
    proof fn lemma_round_trip(value: Self, wire: [T; 8]) {
    }
}

impl<T: Copy> Lossless<[T; 2]> for SonarValues<T> {
    proof fn lemma_round_trip(value: Self, wire: [T; 2]) {
    }
}

impl Lossless<[bool; 2]> for SonarEnabled {
    proof fn lemma_round_trip(value: Self, wire: [bool; 2]) {
    }
}

impl<T: Copy> Lossless<[T; 14]> for Touch<T> {
    proof fn lemma_round_trip(value: Self, wire: [T; 14]) {
    }
}

impl<T: Copy> Lossless<[T; 2]> for Vector2<T> {
    proof fn lemma_round_trip(value: Self, wire: [T; 2]) {
    }
}

impl<T: Copy> Lossless<[T; 3]> for Vector3<T> {
    proof fn lemma_round_trip(value: Self, wire: [T; 3]) {
    }
}

/// The two ears are wired as mirror images. A right ear and a left ear that hold the same
/// intensity at every angle go over the wire in opposite orders: what the right ear has at
/// position `i`, the left ear has at position `9 - i`.
pub proof fn lemma_ear_mirroring<T>(right: RightEar<T>, i: int)
    requires
        0 <= i < 10,
    ensures
        ({
            let right_wire = <[T; 10] as FromNidhogg<RightEar<T>>>::spec_from_nidhogg(right);
            let left_wire = <[T; 10] as FromNidhogg<LeftEar<T>>>::spec_from_nidhogg(
                right.spec_mirrored(),
            );
            right_wire[i] == left_wire[9 - i]
        }),
{
}

/// The ears are wired by [`LEFT_EAR_WIRE_ORDER`] and [`RIGHT_EAR_WIRE_ORDER`], in both
/// directions: what is written to position `p` of the wire is the LED that the table names,
/// and what is read from position `p` becomes that LED. Each table names every LED once, and
/// the right table is the left one wound the other way round.
pub proof fn lemma_ear_wire_order<T: Copy>(
    left: LeftEar<T>,
    right: RightEar<T>,
    wire: [T; 10],
    p: int,
)
    requires
        0 <= p < 10,
    ensures
        <[T; 10] as FromNidhogg<LeftEar<T>>>::spec_from_nidhogg(left)[p]
            == left@[LEFT_EAR_WIRE_ORDER[p] as int],
        <[T; 10] as FromNidhogg<RightEar<T>>>::spec_from_nidhogg(right)[p]
            == right@[RIGHT_EAR_WIRE_ORDER[p] as int],
        LeftEar::<T>::spec_from_lola(wire)@[LEFT_EAR_WIRE_ORDER[p] as int] == wire[p],
        RightEar::<T>::spec_from_lola(wire)@[RIGHT_EAR_WIRE_ORDER[p] as int] == wire[p],
        RIGHT_EAR_WIRE_ORDER[p] == 9 - LEFT_EAR_WIRE_ORDER[p],
        forall|q: int| 0 <= q < 10 && LEFT_EAR_WIRE_ORDER[q] == LEFT_EAR_WIRE_ORDER[p] ==> q == p,
        forall|q: int|
            0 <= q < 10 && RIGHT_EAR_WIRE_ORDER[q] == RIGHT_EAR_WIRE_ORDER[p] ==> q == p,
{
}

/// The eyes are wired channel by channel, the reds of all LEDs before their greens and their
/// blues, and within each channel by [`LEFT_EYE_WIRE_ORDER`] and [`RIGHT_EYE_WIRE_ORDER`],
/// in both directions. Each table names every LED once.
pub proof fn lemma_eye_wire_order<T: Copy>(
    left: LeftEye<T>,
    right: RightEye<T>,
    wire: [T; 24],
    channel: int,
    p: int,
)
    requires
        0 <= channel < 3,
        0 <= p < 8,
    ensures
        <[T; 24] as FromNidhogg<LeftEye<T>>>::spec_from_nidhogg(left)[8 * channel + p]
            == left@[LEFT_EYE_WIRE_ORDER[p] as int]@[channel],
        <[T; 24] as FromNidhogg<RightEye<T>>>::spec_from_nidhogg(right)[8 * channel + p]
            == right@[RIGHT_EYE_WIRE_ORDER[p] as int]@[channel],
        LeftEye::<T>::spec_from_lola(wire)@[LEFT_EYE_WIRE_ORDER[p] as int]@[channel] == wire[8
            * channel + p],
        RightEye::<T>::spec_from_lola(wire)@[RIGHT_EYE_WIRE_ORDER[p] as int]@[channel] == wire[8
            * channel + p],
        forall|q: int| 0 <= q < 8 && LEFT_EYE_WIRE_ORDER[q] == LEFT_EYE_WIRE_ORDER[p] ==> q == p,
        forall|q: int| 0 <= q < 8 && RIGHT_EYE_WIRE_ORDER[q] == RIGHT_EYE_WIRE_ORDER[p] ==> q == p,
{
}

/// The skull is wired by [`SKULL_WIRE_ORDER`], in both directions, and the table names every
/// LED once.
pub proof fn lemma_skull_wire_order<T: Copy>(skull: Skull<T>, wire: [T; 12], p: int)
    requires
        0 <= p < 12,
    ensures
        <[T; 12] as FromNidhogg<Skull<T>>>::spec_from_nidhogg(skull)[p]
            == skull@[SKULL_WIRE_ORDER[p] as int],
        Skull::<T>::spec_from_lola(wire)@[SKULL_WIRE_ORDER[p] as int] == wire[p],
        forall|q: int| 0 <= q < 12 && SKULL_WIRE_ORDER[q] == SKULL_WIRE_ORDER[p] ==> q == p,
{
}

/// The wire order of the joints is [`JOINT_WIRE_ORDER`], in both directions: what is written to
/// position `p` of the wire is the joint in slot `JOINT_WIRE_ORDER[p]`, and what is read from
/// position `p` becomes the joint in that slot. The table names every slot exactly once. So
/// the wire holds the joints at the positions at which [`JointArray::get`] finds them.
pub proof fn lemma_joint_wire_order<T: Copy>(joints: JointArray<T>, wire: [T; 25], p: int)
    requires
        0 <= p < 25,
    ensures
        0 <= JOINT_WIRE_ORDER[p] < 25,
        <[T; 25] as FromNidhogg<JointArray<T>>>::spec_from_nidhogg(joints)[p]
            == joints@[JOINT_WIRE_ORDER[p] as int],
        JointArray::<T>::spec_from_lola(wire)@[JOINT_WIRE_ORDER[p] as int] == wire[p],
        forall|q: int| 0 <= q < 25 && JOINT_WIRE_ORDER[q] == JOINT_WIRE_ORDER[p] ==> q == p,
{
}

/// A control message that is written to a frame and read back is the same message, and a
/// control frame that is read and written again is the same frame.
pub proof fn lemma_control_message_round_trip<T: Copy>(
    message: NaoControlMessage<T>,
    frame: LolaControlMsg<T>,
)
    ensures
        <NaoControlMessage<T> as FromSpec<LolaControlMsg<T>>>::from_spec(
            <LolaControlMsg<T> as FromSpec<NaoControlMessage<T>>>::from_spec(message),
        ) == message,
        <LolaControlMsg<T> as FromSpec<NaoControlMessage<T>>>::from_spec(
            <NaoControlMessage<T> as FromSpec<LolaControlMsg<T>>>::from_spec(frame),
        ) == frame,
{
    JointArray::<T>::lemma_round_trip(message.position, frame.position);
    JointArray::<T>::lemma_round_trip(message.stiffness, frame.stiffness);
    RightEar::<T>::lemma_round_trip(message.right_ear, frame.r_ear);
    LeftEar::<T>::lemma_round_trip(message.left_ear, frame.l_ear);
    Rgb::<T>::lemma_round_trip(message.chest, frame.chest);
    LeftEye::<T>::lemma_round_trip(message.left_eye, frame.l_eye);
    RightEye::<T>::lemma_round_trip(message.right_eye, frame.r_eye);
    Rgb::<T>::lemma_round_trip(message.left_foot, frame.l_foot);
    Rgb::<T>::lemma_round_trip(message.right_foot, frame.r_foot);
    Skull::<T>::lemma_round_trip(message.skull, frame.skull);
    SonarEnabled::lemma_round_trip(message.sonar, frame.sonar);
}

} // verus!
