//! Implements [`JointArray`] type and associated functions, for manipulating joint values.

mod builder;
mod iter;

pub use builder::JointArrayBuilder;
pub use iter::JointArrayIterator;

use crate::types::{
    clone_is_exact, ArmJoints, FillExt, HeadJoints, LeftArmJoints, LeftLegJoints, LegJoints,
    RightArmJoints, RightLegJoints,
};
use vstd::prelude::*;
use vstd::std_specs::convert::TryFromSpec;
use vstd::std_specs::iter::IteratorSpec;

verus! {

/// Number of joints of the robot, and so of slots in a [`JointArray`].
pub const JOINT_COUNT: usize = 25;

/// The canonical order of the joints, which is the order of the robot's controller and of the
/// wire of `LoLA`: the head, the left arm, the left leg, the right leg, the right arm, and the
/// two hands. Position `p` of that order holds the joint in slot `JOINT_WIRE_ORDER[p]` of a
/// [`JointArray`], where the slots count the fields from 0. The fields stand in another
/// order: there the right arm comes before the right leg.
pub const JOINT_WIRE_ORDER: [usize; 25] = [
    0, 1, 2, 3, 4, 5, 6, 7, 8, 9, 10, 11, 12, 18, 19, 20, 21, 22, 13, 14, 15, 16, 17, 23, 24,
];

/// Struct containing values of type `T` for all the joints
///
/// A joint array has two orders. Indexed access, with [`JointArray::get`],
/// [`JointArray::get_mut`] and the fixed-size arrays that a joint array is turned into, goes
/// by the canonical position of a joint, which [`JOINT_WIRE_ORDER`] lays down. Vectors,
/// slices, iterators and closures go by the slot of a joint, its place in the order of the
/// fields, which is the order of the view.
///
/// The robot has one hip yaw-pitch actuator, which both legs share. Its value is held once,
/// in `left_hip_yaw_pitch`, and there is no field for the right leg that could disagree
/// with it.
#[derive(Clone, Debug, PartialEq, Eq)]
pub struct JointArray<T> {
    /// The yaw joint of the robot's head, allowing rotation horizontally.
    pub head_yaw: T,
    /// The pitch joint of the robot's head, allowing tilting up and down.
    pub head_pitch: T,
    /// The pitch joint of the left shoulder, controlling its vertical movement.
    pub left_shoulder_pitch: T,
    /// The roll joint of the left shoulder, controlling its horizontal movement.
    pub left_shoulder_roll: T,
    /// The yaw joint of the left elbow, allowing rotation.
    pub left_elbow_yaw: T,
    /// The roll joint of the left elbow, controlling its horizontal movement.
    pub left_elbow_roll: T,
    /// The yaw joint of the left wrist, allowing rotation.
    pub left_wrist_yaw: T,
    /// The yaw-pitch joint of the left hip, controlling horizontal and vertical movement.
    pub left_hip_yaw_pitch: T,
    /// The roll joint of the left hip, controlling its horizontal movement.
    pub left_hip_roll: T,
    /// The pitch joint of the left hip, controlling its vertical movement.
    pub left_hip_pitch: T,
    /// The pitch joint of the left knee, controlling its bending movement.
    pub left_knee_pitch: T,
    /// The pitch joint of the left ankle, controlling its bending movement.
    pub left_ankle_pitch: T,
    /// The roll joint of the left ankle, controlling its horizontal movement.
    pub left_ankle_roll: T,
    /// The pitch joint of the right shoulder, controlling its vertical movement.
    pub right_shoulder_pitch: T,
    /// The roll joint of the right shoulder, controlling its horizontal movement.
    pub right_shoulder_roll: T,
    /// The yaw joint of the right elbow, allowing rotation.
    pub right_elbow_yaw: T,
    /// The roll joint of the right elbow, controlling its horizontal movement.
    pub right_elbow_roll: T,
    /// The yaw joint of the right wrist, allowing rotation.
    pub right_wrist_yaw: T,
    /// The roll joint of the right hip, controlling its horizontal movement.
    pub right_hip_roll: T,
    /// The pitch joint of the right hip, controlling its vertical movement.
    pub right_hip_pitch: T,
    /// The pitch joint of the right knee, controlling its bending movement.
    pub right_knee_pitch: T,
    /// The pitch joint of the right ankle, controlling its bending movement.
    pub right_ankle_pitch: T,
    /// The roll joint of the right ankle, controlling its horizontal movement.
    pub right_ankle_roll: T,
    /// The joint representing the left hand.
    pub left_hand: T,
    /// The joint representing the right hand.
    pub right_hand: T,
}

impl<T> View for JointArray<T> {
    type V = Seq<T>;

    /// The 25 joint values in the order in which the fields are declared.
    open spec fn view(&self) -> Seq<T> {
        seq![
            self.head_yaw,
            self.head_pitch,
            self.left_shoulder_pitch,
            self.left_shoulder_roll,
            self.left_elbow_yaw,
            self.left_elbow_roll,
            self.left_wrist_yaw,
            self.left_hip_yaw_pitch,
            self.left_hip_roll,
            self.left_hip_pitch,
            self.left_knee_pitch,
            self.left_ankle_pitch,
            self.left_ankle_roll,
            self.right_shoulder_pitch,
            self.right_shoulder_roll,
            self.right_elbow_yaw,
            self.right_elbow_roll,
            self.right_wrist_yaw,
            self.right_hip_roll,
            self.right_hip_pitch,
            self.right_knee_pitch,
            self.right_ankle_pitch,
            self.right_ankle_roll,
            self.left_hand,
            self.right_hand,
        ]
    }
}

impl<T> JointArray<T> {
    /// The joint array whose slot `i` holds `values[i]`, for each of the 25 slots.
    pub open spec fn from_seq(values: Seq<T>) -> JointArray<T> {
        JointArray {
            head_yaw: values[0],
            head_pitch: values[1],
            left_shoulder_pitch: values[2],
            left_shoulder_roll: values[3],
            left_elbow_yaw: values[4],
            left_elbow_roll: values[5],
            left_wrist_yaw: values[6],
            left_hip_yaw_pitch: values[7],
            left_hip_roll: values[8],
            left_hip_pitch: values[9],
            left_knee_pitch: values[10],
            left_ankle_pitch: values[11],
            left_ankle_roll: values[12],
            right_shoulder_pitch: values[13],
            right_shoulder_roll: values[14],
            right_elbow_yaw: values[15],
            right_elbow_roll: values[16],
            right_wrist_yaw: values[17],
            right_hip_roll: values[18],
            right_hip_pitch: values[19],
            right_knee_pitch: values[20],
            right_ankle_pitch: values[21],
            right_ankle_roll: values[22],
            left_hand: values[23],
            right_hand: values[24],
        }
    }

    /// Slot by slot, the view holds the field of that position.
    pub proof fn lemma_view_slots(self)
        ensures
            self@.len() == JOINT_COUNT,
            self@[0] == self.head_yaw,
            self@[1] == self.head_pitch,
            self@[2] == self.left_shoulder_pitch,
            self@[3] == self.left_shoulder_roll,
            self@[4] == self.left_elbow_yaw,
            self@[5] == self.left_elbow_roll,
            self@[6] == self.left_wrist_yaw,
            self@[7] == self.left_hip_yaw_pitch,
            self@[8] == self.left_hip_roll,
            self@[9] == self.left_hip_pitch,
            self@[10] == self.left_knee_pitch,
            self@[11] == self.left_ankle_pitch,
            self@[12] == self.left_ankle_roll,
            self@[13] == self.right_shoulder_pitch,
            self@[14] == self.right_shoulder_roll,
            self@[15] == self.right_elbow_yaw,
            self@[16] == self.right_elbow_roll,
            self@[17] == self.right_wrist_yaw,
            self@[18] == self.right_hip_roll,
            self@[19] == self.right_hip_pitch,
            self@[20] == self.right_knee_pitch,
            self@[21] == self.right_ankle_pitch,
            self@[22] == self.right_ankle_roll,
            self@[23] == self.left_hand,
            self@[24] == self.right_hand,
    {
    }

    /// A joint array and the sequence of its 25 values stand for each other: the joint array
    /// made from the values of `self` is `self`, and the values of the joint array made from
    /// 25 values are those values.
    pub proof fn lemma_from_seq_view(self, values: Seq<T>)
        ensures
            Self::from_seq(self@) == self,
            values.len() == JOINT_COUNT ==> Self::from_seq(values)@ == values,
    {
    }

    /// Returns a reference to the joint value at the specified index.
    ///
    /// The index is the canonical position of the joint: 13 to 17 is the right leg, 18 to 22
    /// the right arm. An index of 25 or more names no joint.
    pub fn get(&self, index: usize) -> (r: Option<&T>)
        ensures
            index < JOINT_COUNT ==> r == Some(&self@[JOINT_WIRE_ORDER[index as int] as int]),
            index >= JOINT_COUNT ==> r is None,
    {
        match index {
            0 => Some(&self.head_yaw),
            1 => Some(&self.head_pitch),
            2 => Some(&self.left_shoulder_pitch),
            3 => Some(&self.left_shoulder_roll),
            4 => Some(&self.left_elbow_yaw),
            5 => Some(&self.left_elbow_roll),
            6 => Some(&self.left_wrist_yaw),
            7 => Some(&self.left_hip_yaw_pitch),
            8 => Some(&self.left_hip_roll),
            9 => Some(&self.left_hip_pitch),
            10 => Some(&self.left_knee_pitch),
            11 => Some(&self.left_ankle_pitch),
            12 => Some(&self.left_ankle_roll),
            13 => Some(&self.right_hip_roll),
            14 => Some(&self.right_hip_pitch),
            15 => Some(&self.right_knee_pitch),
            16 => Some(&self.right_ankle_pitch),
            17 => Some(&self.right_ankle_roll),
            18 => Some(&self.right_shoulder_pitch),
            19 => Some(&self.right_shoulder_roll),
            20 => Some(&self.right_elbow_yaw),
            21 => Some(&self.right_elbow_roll),
            22 => Some(&self.right_wrist_yaw),
            23 => Some(&self.left_hand),
            24 => Some(&self.right_hand),
            _ => None,
        }
    }

    /// Returns a mutable reference to the joint value at the specified index.
    ///
    /// The index is the canonical position of the joint, as in [`JointArray::get`]. What is
    /// written through the reference lands in the joint of that position, and no other joint
    /// changes.
    pub fn get_mut(&mut self, index: usize) -> (r: Option<&mut T>)
        ensures
            index < JOINT_COUNT ==> {
                let slot = JOINT_WIRE_ORDER[index as int] as int;
                &&& r is Some
                &&& *r->0 == old(self)@[slot]
                &&& final(self)@ == old(self)@.update(slot, *final(r->0))
            },
            index >= JOINT_COUNT ==> r is None && *final(self) == *old(self),
    {
        match index {
            0 => Some(&mut self.head_yaw),
            1 => Some(&mut self.head_pitch),
            2 => Some(&mut self.left_shoulder_pitch),
            3 => Some(&mut self.left_shoulder_roll),
            4 => Some(&mut self.left_elbow_yaw),
            5 => Some(&mut self.left_elbow_roll),
            6 => Some(&mut self.left_wrist_yaw),
            7 => Some(&mut self.left_hip_yaw_pitch),
            8 => Some(&mut self.left_hip_roll),
            9 => Some(&mut self.left_hip_pitch),
            10 => Some(&mut self.left_knee_pitch),
            11 => Some(&mut self.left_ankle_pitch),
            12 => Some(&mut self.left_ankle_roll),
            13 => Some(&mut self.right_hip_roll),
            14 => Some(&mut self.right_hip_pitch),
            15 => Some(&mut self.right_knee_pitch),
            16 => Some(&mut self.right_ankle_pitch),
            17 => Some(&mut self.right_ankle_roll),
            18 => Some(&mut self.right_shoulder_pitch),
            19 => Some(&mut self.right_shoulder_roll),
            20 => Some(&mut self.right_elbow_yaw),
            21 => Some(&mut self.right_elbow_roll),
            22 => Some(&mut self.right_wrist_yaw),
            23 => Some(&mut self.left_hand),
            24 => Some(&mut self.right_hand),
            _ => None,
        }
    }

    /// Returns all joint values as a fixed-size array.
    ///
    /// The array holds the joints in the order in which [`JointArray::get`] indexes them, the
    /// canonical order.
    pub fn as_array(self) -> (r: [T; 25])
        ensures
            forall|p: int|
                0 <= p < JOINT_COUNT ==> #[trigger] r@[p] == self@[JOINT_WIRE_ORDER[p] as int],
    {
        [
            self.head_yaw,
            self.head_pitch,
            self.left_shoulder_pitch,
            self.left_shoulder_roll,
            self.left_elbow_yaw,
            self.left_elbow_roll,
            self.left_wrist_yaw,
            self.left_hip_yaw_pitch,
            self.left_hip_roll,
            self.left_hip_pitch,
            self.left_knee_pitch,
            self.left_ankle_pitch,
            self.left_ankle_roll,
            self.right_hip_roll,
            self.right_hip_pitch,
            self.right_knee_pitch,
            self.right_ankle_pitch,
            self.right_ankle_roll,
            self.right_shoulder_pitch,
            self.right_shoulder_roll,
            self.right_elbow_yaw,
            self.right_elbow_roll,
            self.right_wrist_yaw,
            self.left_hand,
            self.right_hand,
        ]
    }

    /// Returns a reference to all joint values as a fixed-size array.
    ///
    /// The array holds the references in the order in which [`JointArray::get`] indexes the
    /// joints, the canonical order.
    pub fn as_array_ref(&self) -> (r: [&T; 25])
        ensures
            forall|p: int|
                0 <= p < JOINT_COUNT ==> *(#[trigger] r@[p]) == self@[JOINT_WIRE_ORDER[p] as int],
    {
        [
            &self.head_yaw,
            &self.head_pitch,
            &self.left_shoulder_pitch,
            &self.left_shoulder_roll,
            &self.left_elbow_yaw,
            &self.left_elbow_roll,
            &self.left_wrist_yaw,
            &self.left_hip_yaw_pitch,
            &self.left_hip_roll,
            &self.left_hip_pitch,
            &self.left_knee_pitch,
            &self.left_ankle_pitch,
            &self.left_ankle_roll,
            &self.right_hip_roll,
            &self.right_hip_pitch,
            &self.right_knee_pitch,
            &self.right_ankle_pitch,
            &self.right_ankle_roll,
            &self.right_shoulder_pitch,
            &self.right_shoulder_roll,
            &self.right_elbow_yaw,
            &self.right_elbow_roll,
            &self.right_wrist_yaw,
            &self.left_hand,
            &self.right_hand,
        ]
    }

    /// Returns a mutable reference to all joint values as a fixed-size array.
    ///
    /// The array holds the references in the order in which [`JointArray::get`] indexes the
    /// joints, the canonical order. What is written through the reference at position `p`
    /// lands in the joint of that position.
    pub fn as_array_mut(&mut self) -> (r: [&mut T; 25])
        ensures
            forall|p: int|
                0 <= p < JOINT_COUNT ==> *(#[trigger] r@[p]) == old(
                    self,
                )@[JOINT_WIRE_ORDER[p] as int],
            forall|p: int|
                #![trigger r@[p]]
                0 <= p < JOINT_COUNT ==> final(self)@[JOINT_WIRE_ORDER[p] as int] == *final(r@[p]),
    {
        [
            &mut self.head_yaw,
            &mut self.head_pitch,
            &mut self.left_shoulder_pitch,
            &mut self.left_shoulder_roll,
            &mut self.left_elbow_yaw,
            &mut self.left_elbow_roll,
            &mut self.left_wrist_yaw,
            &mut self.left_hip_yaw_pitch,
            &mut self.left_hip_roll,
            &mut self.left_hip_pitch,
            &mut self.left_knee_pitch,
            &mut self.left_ankle_pitch,
            &mut self.left_ankle_roll,
            &mut self.right_hip_roll,
            &mut self.right_hip_pitch,
            &mut self.right_knee_pitch,
            &mut self.right_ankle_pitch,
            &mut self.right_ankle_roll,
            &mut self.right_shoulder_pitch,
            &mut self.right_shoulder_roll,
            &mut self.right_elbow_yaw,
            &mut self.right_elbow_roll,
            &mut self.right_wrist_yaw,
            &mut self.left_hand,
            &mut self.right_hand,
        ]
    }

    /// Transforms each element in the [`JointArray`] using the provided closure `f`,
    /// producing a new [`JointArray`] with the transformed values.
    ///
    /// The closure is called once per joint, in the order of the slots.
    pub fn map<F, U>(self, mut f: F) -> (r: JointArray<U>) where F: FnMut(T) -> U
        requires
            forall|i: int| 0 <= i < JOINT_COUNT ==> f.requires((#[trigger] self@[i],)),
        ensures
            forall|i: int| 0 <= i < JOINT_COUNT ==> f.ensures((self@[i],), #[trigger] r@[i]),
    {
        proof {
            self.lemma_view_slots();
        }
        let r = JointArray {
            head_yaw: f(self.head_yaw),
            head_pitch: f(self.head_pitch),
            left_shoulder_pitch: f(self.left_shoulder_pitch),
            left_shoulder_roll: f(self.left_shoulder_roll),
            left_elbow_yaw: f(self.left_elbow_yaw),
            left_elbow_roll: f(self.left_elbow_roll),
            left_wrist_yaw: f(self.left_wrist_yaw),
            left_hip_yaw_pitch: f(self.left_hip_yaw_pitch),
            left_hip_roll: f(self.left_hip_roll),
            left_hip_pitch: f(self.left_hip_pitch),
            left_knee_pitch: f(self.left_knee_pitch),
            left_ankle_pitch: f(self.left_ankle_pitch),
            left_ankle_roll: f(self.left_ankle_roll),
            right_shoulder_pitch: f(self.right_shoulder_pitch),
            right_shoulder_roll: f(self.right_shoulder_roll),
            right_elbow_yaw: f(self.right_elbow_yaw),
            right_elbow_roll: f(self.right_elbow_roll),
            right_wrist_yaw: f(self.right_wrist_yaw),
            right_hip_roll: f(self.right_hip_roll),
            right_hip_pitch: f(self.right_hip_pitch),
            right_knee_pitch: f(self.right_knee_pitch),
            right_ankle_pitch: f(self.right_ankle_pitch),
            right_ankle_roll: f(self.right_ankle_roll),
            left_hand: f(self.left_hand),
            right_hand: f(self.right_hand),
        };
        r
    }

    /// Zips two [`JointArray`] instances element-wise, creating a new [`JointArray`]
    /// containing tuples of corresponding elements from the two arrays.
    pub fn zip<U>(self, other: JointArray<U>) -> (r: JointArray<(T, U)>)
        ensures
            forall|i: int| 0 <= i < JOINT_COUNT ==> #[trigger] r@[i] == (self@[i], other@[i]),
    {
        JointArray {
            head_yaw: (self.head_yaw, other.head_yaw),
            head_pitch: (self.head_pitch, other.head_pitch),
            left_shoulder_pitch: (self.left_shoulder_pitch, other.left_shoulder_pitch),
            left_shoulder_roll: (self.left_shoulder_roll, other.left_shoulder_roll),
            left_elbow_yaw: (self.left_elbow_yaw, other.left_elbow_yaw),
            left_elbow_roll: (self.left_elbow_roll, other.left_elbow_roll),
            left_wrist_yaw: (self.left_wrist_yaw, other.left_wrist_yaw),
            left_hip_yaw_pitch: (self.left_hip_yaw_pitch, other.left_hip_yaw_pitch),
            left_hip_roll: (self.left_hip_roll, other.left_hip_roll),
            left_hip_pitch: (self.left_hip_pitch, other.left_hip_pitch),
            left_knee_pitch: (self.left_knee_pitch, other.left_knee_pitch),
            left_ankle_pitch: (self.left_ankle_pitch, other.left_ankle_pitch),
            left_ankle_roll: (self.left_ankle_roll, other.left_ankle_roll),
            right_shoulder_pitch: (self.right_shoulder_pitch, other.right_shoulder_pitch),
            right_shoulder_roll: (self.right_shoulder_roll, other.right_shoulder_roll),
            right_elbow_yaw: (self.right_elbow_yaw, other.right_elbow_yaw),
            right_elbow_roll: (self.right_elbow_roll, other.right_elbow_roll),
            right_wrist_yaw: (self.right_wrist_yaw, other.right_wrist_yaw),
            right_hip_roll: (self.right_hip_roll, other.right_hip_roll),
            right_hip_pitch: (self.right_hip_pitch, other.right_hip_pitch),
            right_knee_pitch: (self.right_knee_pitch, other.right_knee_pitch),
            right_ankle_pitch: (self.right_ankle_pitch, other.right_ankle_pitch),
            right_ankle_roll: (self.right_ankle_roll, other.right_ankle_roll),
            left_hand: (self.left_hand, other.left_hand),
            right_hand: (self.right_hand, other.right_hand),
        }
    }

    /// Checks if all elements of a joint array satisfy a certain condition.
    ///
    /// The condition is asked of every joint, also once one has failed it.
    pub fn all<F>(self, f: F) -> (r: bool) where F: FnMut(T) -> bool
        requires
            forall|i: int| 0 <= i < JOINT_COUNT ==> f.requires((#[trigger] self@[i],)),
        ensures
            r ==> forall|i: int| 0 <= i < JOINT_COUNT ==> f.ensures((#[trigger] self@[i],), true),
            !r ==> exists|i: int| 0 <= i < JOINT_COUNT && f.ensures((#[trigger] self@[i],), false),
    {
        let t = self.map(f);
        proof {
            t.lemma_view_slots();
        }
        t.head_yaw
            && t.head_pitch
            && t.left_shoulder_pitch
            && t.left_shoulder_roll
            && t.left_elbow_yaw
            && t.left_elbow_roll
            && t.left_wrist_yaw
            && t.left_hip_yaw_pitch
            && t.left_hip_roll
            && t.left_hip_pitch
            && t.left_knee_pitch
            && t.left_ankle_pitch
            && t.left_ankle_roll
            && t.right_shoulder_pitch
            && t.right_shoulder_roll
            && t.right_elbow_yaw
            && t.right_elbow_roll
            && t.right_wrist_yaw
            && t.right_hip_roll
            && t.right_hip_pitch
            && t.right_knee_pitch
            && t.right_ankle_pitch
            && t.right_ankle_roll
            && t.left_hand
            && t.right_hand
    }

    /// Checks if any elements of a joint array satisfy a certain condition.
    ///
    /// The condition is asked of every joint, also once one has met it.
    pub fn any<F>(self, f: F) -> (r: bool) where F: FnMut(T) -> bool
        requires
            forall|i: int| 0 <= i < JOINT_COUNT ==> f.requires((#[trigger] self@[i],)),
        ensures
            r ==> exists|i: int| 0 <= i < JOINT_COUNT && f.ensures((#[trigger] self@[i],), true),
            !r ==> forall|i: int| 0 <= i < JOINT_COUNT ==> f.ensures((#[trigger] self@[i],), false),
    {
        let t = self.map(f);
        proof {
            t.lemma_view_slots();
        }
        t.head_yaw
            || t.head_pitch
            || t.left_shoulder_pitch
            || t.left_shoulder_roll
            || t.left_elbow_yaw
            || t.left_elbow_roll
            || t.left_wrist_yaw
            || t.left_hip_yaw_pitch
            || t.left_hip_roll
            || t.left_hip_pitch
            || t.left_knee_pitch
            || t.left_ankle_pitch
            || t.left_ankle_roll
            || t.right_shoulder_pitch
            || t.right_shoulder_roll
            || t.right_elbow_yaw
            || t.right_elbow_roll
            || t.right_wrist_yaw
            || t.right_hip_roll
            || t.right_hip_pitch
            || t.right_knee_pitch
            || t.right_ankle_pitch
            || t.right_ankle_roll
            || t.left_hand
            || t.right_hand
    }

    /// Creates a new [`JointArray`] containing references to each joint value.
    pub fn as_ref(&self) -> (r: JointArray<&T>)
        ensures
            forall|i: int| 0 <= i < JOINT_COUNT ==> *(#[trigger] r@[i]) == self@[i],
    {
        JointArray {
            head_yaw: &self.head_yaw,
            head_pitch: &self.head_pitch,
            left_shoulder_pitch: &self.left_shoulder_pitch,
            left_shoulder_roll: &self.left_shoulder_roll,
            left_elbow_yaw: &self.left_elbow_yaw,
            left_elbow_roll: &self.left_elbow_roll,
            left_wrist_yaw: &self.left_wrist_yaw,
            left_hip_yaw_pitch: &self.left_hip_yaw_pitch,
            left_hip_roll: &self.left_hip_roll,
            left_hip_pitch: &self.left_hip_pitch,
            left_knee_pitch: &self.left_knee_pitch,
            left_ankle_pitch: &self.left_ankle_pitch,
            left_ankle_roll: &self.left_ankle_roll,
            right_shoulder_pitch: &self.right_shoulder_pitch,
            right_shoulder_roll: &self.right_shoulder_roll,
            right_elbow_yaw: &self.right_elbow_yaw,
            right_elbow_roll: &self.right_elbow_roll,
            right_wrist_yaw: &self.right_wrist_yaw,
            right_hip_roll: &self.right_hip_roll,
            right_hip_pitch: &self.right_hip_pitch,
            right_knee_pitch: &self.right_knee_pitch,
            right_ankle_pitch: &self.right_ankle_pitch,
            right_ankle_roll: &self.right_ankle_roll,
            left_hand: &self.left_hand,
            right_hand: &self.right_hand,
        }
    }

    /// Creates a new [`JointArray`] containing mutable references to each joint value.
    ///
    /// What is written through the reference in slot `i` lands in slot `i`.
    pub fn as_mut(&mut self) -> (r: JointArray<&mut T>)
        ensures
            forall|i: int| 0 <= i < JOINT_COUNT ==> *(#[trigger] r@[i]) == old(self)@[i],
            forall|i: int| 0 <= i < JOINT_COUNT ==> (#[trigger] final(self)@[i]) == *final(r@[i]),
    {
        JointArray {
            head_yaw: &mut self.head_yaw,
            head_pitch: &mut self.head_pitch,
            left_shoulder_pitch: &mut self.left_shoulder_pitch,
            left_shoulder_roll: &mut self.left_shoulder_roll,
            left_elbow_yaw: &mut self.left_elbow_yaw,
            left_elbow_roll: &mut self.left_elbow_roll,
            left_wrist_yaw: &mut self.left_wrist_yaw,
            left_hip_yaw_pitch: &mut self.left_hip_yaw_pitch,
            left_hip_roll: &mut self.left_hip_roll,
            left_hip_pitch: &mut self.left_hip_pitch,
            left_knee_pitch: &mut self.left_knee_pitch,
            left_ankle_pitch: &mut self.left_ankle_pitch,
            left_ankle_roll: &mut self.left_ankle_roll,
            right_shoulder_pitch: &mut self.right_shoulder_pitch,
            right_shoulder_roll: &mut self.right_shoulder_roll,
            right_elbow_yaw: &mut self.right_elbow_yaw,
            right_elbow_roll: &mut self.right_elbow_roll,
            right_wrist_yaw: &mut self.right_wrist_yaw,
            right_hip_roll: &mut self.right_hip_roll,
            right_hip_pitch: &mut self.right_hip_pitch,
            right_knee_pitch: &mut self.right_knee_pitch,
            right_ankle_pitch: &mut self.right_ankle_pitch,
            right_ankle_roll: &mut self.right_ankle_roll,
            left_hand: &mut self.left_hand,
            right_hand: &mut self.right_hand,
        }
    }

    /// Initializes a `JointArray` from an iterator.
    ///
    /// The first 25 items of the iterator fill the slots in their order; the iterator has to
    /// hold that many.
    pub fn from_iter<I>(mut iter: I) -> (r: JointArray<T>) where I: Iterator<Item = T>
        requires
            iter.obeys_prophetic_iter_laws(),
            iter.remaining().len() >= JOINT_COUNT,
        ensures
            r@ == iter.remaining().subrange(0, JOINT_COUNT as int),
    {
        JointArray {
            head_yaw: iter.next().unwrap(),
            head_pitch: iter.next().unwrap(),
            left_shoulder_pitch: iter.next().unwrap(),
            left_shoulder_roll: iter.next().unwrap(),
            left_elbow_yaw: iter.next().unwrap(),
            left_elbow_roll: iter.next().unwrap(),
            left_wrist_yaw: iter.next().unwrap(),
            left_hip_yaw_pitch: iter.next().unwrap(),
            left_hip_roll: iter.next().unwrap(),
            left_hip_pitch: iter.next().unwrap(),
            left_knee_pitch: iter.next().unwrap(),
            left_ankle_pitch: iter.next().unwrap(),
            left_ankle_roll: iter.next().unwrap(),
            right_shoulder_pitch: iter.next().unwrap(),
            right_shoulder_roll: iter.next().unwrap(),
            right_elbow_yaw: iter.next().unwrap(),
            right_elbow_roll: iter.next().unwrap(),
            right_wrist_yaw: iter.next().unwrap(),
            right_hip_roll: iter.next().unwrap(),
            right_hip_pitch: iter.next().unwrap(),
            right_knee_pitch: iter.next().unwrap(),
            right_ankle_pitch: iter.next().unwrap(),
            right_ankle_roll: iter.next().unwrap(),
            left_hand: iter.next().unwrap(),
            right_hand: iter.next().unwrap(),
        }
    }

    /// Converts the [`JointArray<T>`] into a [`Vec<T>`]
    pub fn to_vec(self) -> (r: Vec<T>)
        ensures
            r@ == self@,
    {
        vec![
            self.head_yaw,
            self.head_pitch,
            self.left_shoulder_pitch,
            self.left_shoulder_roll,
            self.left_elbow_yaw,
            self.left_elbow_roll,
            self.left_wrist_yaw,
            self.left_hip_yaw_pitch,
            self.left_hip_roll,
            self.left_hip_pitch,
            self.left_knee_pitch,
            self.left_ankle_pitch,
            self.left_ankle_roll,
            self.right_shoulder_pitch,
            self.right_shoulder_roll,
            self.right_elbow_yaw,
            self.right_elbow_roll,
            self.right_wrist_yaw,
            self.right_hip_roll,
            self.right_hip_pitch,
            self.right_knee_pitch,
            self.right_ankle_pitch,
            self.right_ankle_roll,
            self.left_hand,
            self.right_hand,
        ]
    }
}

impl<'a, T> vstd::std_specs::convert::FromSpecImpl<&'a JointArray<T>> for JointArray<&'a T> {
    open spec fn obeys_from_spec() -> bool {
        true
    }

    open spec fn from_spec(value: &'a JointArray<T>) -> Self {
        JointArray {
            head_yaw: &value.head_yaw,
            head_pitch: &value.head_pitch,
            left_shoulder_pitch: &value.left_shoulder_pitch,
            left_shoulder_roll: &value.left_shoulder_roll,
            left_elbow_yaw: &value.left_elbow_yaw,
            left_elbow_roll: &value.left_elbow_roll,
            left_wrist_yaw: &value.left_wrist_yaw,
            left_hip_yaw_pitch: &value.left_hip_yaw_pitch,
            left_hip_roll: &value.left_hip_roll,
            left_hip_pitch: &value.left_hip_pitch,
            left_knee_pitch: &value.left_knee_pitch,
            left_ankle_pitch: &value.left_ankle_pitch,
            left_ankle_roll: &value.left_ankle_roll,
            right_shoulder_pitch: &value.right_shoulder_pitch,
            right_shoulder_roll: &value.right_shoulder_roll,
            right_elbow_yaw: &value.right_elbow_yaw,
            right_elbow_roll: &value.right_elbow_roll,
            right_wrist_yaw: &value.right_wrist_yaw,
            right_hip_roll: &value.right_hip_roll,
            right_hip_pitch: &value.right_hip_pitch,
            right_knee_pitch: &value.right_knee_pitch,
            right_ankle_pitch: &value.right_ankle_pitch,
            right_ankle_roll: &value.right_ankle_roll,
            left_hand: &value.left_hand,
            right_hand: &value.right_hand,
        }
    }
}

impl<'a, T> From<&'a JointArray<T>> for JointArray<&'a T> {
    fn from(value: &'a JointArray<T>) -> (r: Self) {
        let r = value.as_ref();
        proof {
            r.lemma_view_slots();
        }
        r
    }
}

impl<'a, T> vstd::std_specs::convert::FromSpecImpl<&'a mut JointArray<T>> for JointArray<
    &'a mut T,
> {
    /// What the references will hold is not known when they are made, so the conversion has
    /// no value in advance; what it promises stands at [`From::from`] itself.
    open spec fn obeys_from_spec() -> bool {
        false
    }

    open spec fn from_spec(value: &'a mut JointArray<T>) -> Self {
        arbitrary()
    }
}

impl<'a, T> From<&'a mut JointArray<T>> for JointArray<
    &'a mut T,
> {
    /// A joint array of mutable references to the joints of `value`, as
    /// [`JointArray::as_mut`] gives it: what is written through the reference in slot `i`
    /// lands in slot `i` of `value`.
    fn from(value: &'a mut JointArray<T>) -> (r: Self)
        ensures
            forall|i: int| 0 <= i < JOINT_COUNT ==> *(#[trigger] r@[i]) == old(value)@[i],
            forall|i: int| 0 <= i < JOINT_COUNT ==> (#[trigger] final(value)@[i]) == *final(r@[i]),
    {
        value.as_mut()
    }
}

impl<T> JointArray<T> {
    /// The joints of both legs, as [`JointArray::leg_joints`] returns them.
    pub open spec fn spec_leg_joints(&self) -> LegJoints<T> {
        LegJoints { left_leg: self.spec_left_leg_joints(), right_leg: self.spec_right_leg_joints() }
    }

    /// The joints of both arms, as [`JointArray::arm_joints`] returns them.
    pub open spec fn spec_arm_joints(&self) -> ArmJoints<T> {
        ArmJoints { left_arm: self.spec_left_arm_joints(), right_arm: self.spec_right_arm_joints() }
    }

    /// The joints that [`JointArray::left_leg_joints`] returns.
    pub open spec fn spec_left_leg_joints(&self) -> LeftLegJoints<T> {
        LeftLegJoints {
            hip_yaw_pitch: self.left_hip_yaw_pitch,
            hip_roll: self.left_hip_roll,
            hip_pitch: self.left_hip_pitch,
            knee_pitch: self.left_knee_pitch,
            ankle_pitch: self.left_ankle_pitch,
            ankle_roll: self.left_ankle_roll,
        }
    }

    /// The joints that [`JointArray::left_arm_joints`] returns.
    pub open spec fn spec_left_arm_joints(&self) -> LeftArmJoints<T> {
        LeftArmJoints {
            shoulder_pitch: self.left_shoulder_pitch,
            shoulder_roll: self.left_shoulder_roll,
            elbow_yaw: self.left_elbow_yaw,
            elbow_roll: self.left_elbow_roll,
            wrist_yaw: self.left_wrist_yaw,
            hand: self.left_hand,
        }
    }

    /// The joints that [`JointArray::right_leg_joints`] returns.
    pub open spec fn spec_right_leg_joints(&self) -> RightLegJoints<T> {
        RightLegJoints {
            hip_roll: self.right_hip_roll,
            hip_pitch: self.right_hip_pitch,
            knee_pitch: self.right_knee_pitch,
            ankle_pitch: self.right_ankle_pitch,
            ankle_roll: self.right_ankle_roll,
        }
    }

    /// The joints that [`JointArray::right_arm_joints`] returns.
    pub open spec fn spec_right_arm_joints(&self) -> RightArmJoints<T> {
        RightArmJoints {
            shoulder_pitch: self.right_shoulder_pitch,
            shoulder_roll: self.right_shoulder_roll,
            elbow_yaw: self.right_elbow_yaw,
            elbow_roll: self.right_elbow_roll,
            wrist_yaw: self.right_wrist_yaw,
            hand: self.right_hand,
        }
    }

    /// The joints that [`JointArray::head_joints`] returns.
    pub open spec fn spec_head_joints(&self) -> HeadJoints<T> {
        HeadJoints {
            yaw: self.head_yaw,
            pitch: self.head_pitch,
        }
    }
}

/// The groups are handed out by value, as clones of the joints. For groups that borrow from
/// the joint array, take them from [`JointArray::as_ref`].
impl<T: Clone> JointArray<T> {
    /// Retrieves leg joints for both left and right legs.
    pub fn leg_joints(&self) -> (r: LegJoints<T>)
        ensures
            r.cloned_from(self.spec_leg_joints()),
    {
        LegJoints { left_leg: self.left_leg_joints(), right_leg: self.right_leg_joints() }
    }

    /// Retrieves arm joints for both left and right arms.
    pub fn arm_joints(&self) -> (r: ArmJoints<T>)
        ensures
            r.cloned_from(self.spec_arm_joints()),
    {
        ArmJoints { left_arm: self.left_arm_joints(), right_arm: self.right_arm_joints() }
    }

    /// Retrieves the left leg joints.
    pub fn left_leg_joints(&self) -> (r: LeftLegJoints<T>)
        ensures
            r.cloned_from(self.spec_left_leg_joints()),
    {
        LeftLegJoints {
            hip_yaw_pitch: self.left_hip_yaw_pitch.clone(),
            hip_roll: self.left_hip_roll.clone(),
            hip_pitch: self.left_hip_pitch.clone(),
            knee_pitch: self.left_knee_pitch.clone(),
            ankle_pitch: self.left_ankle_pitch.clone(),
            ankle_roll: self.left_ankle_roll.clone(),
        }
    }

    /// Retrieves the left arm joints.
    pub fn left_arm_joints(&self) -> (r: LeftArmJoints<T>)
        ensures
            r.cloned_from(self.spec_left_arm_joints()),
    {
        LeftArmJoints {
            shoulder_pitch: self.left_shoulder_pitch.clone(),
            shoulder_roll: self.left_shoulder_roll.clone(),
            elbow_yaw: self.left_elbow_yaw.clone(),
            elbow_roll: self.left_elbow_roll.clone(),
            wrist_yaw: self.left_wrist_yaw.clone(),
            hand: self.left_hand.clone(),
        }
    }

    /// Retrieves the right leg joints.
    pub fn right_leg_joints(&self) -> (r: RightLegJoints<T>)
        ensures
            r.cloned_from(self.spec_right_leg_joints()),
    {
        RightLegJoints {
            hip_roll: self.right_hip_roll.clone(),
            hip_pitch: self.right_hip_pitch.clone(),
            knee_pitch: self.right_knee_pitch.clone(),
            ankle_pitch: self.right_ankle_pitch.clone(),
            ankle_roll: self.right_ankle_roll.clone(),
        }
    }

    /// Retrieves the right arm joints.
    pub fn right_arm_joints(&self) -> (r: RightArmJoints<T>)
        ensures
            r.cloned_from(self.spec_right_arm_joints()),
    {
        RightArmJoints {
            shoulder_pitch: self.right_shoulder_pitch.clone(),
            shoulder_roll: self.right_shoulder_roll.clone(),
            elbow_yaw: self.right_elbow_yaw.clone(),
            elbow_roll: self.right_elbow_roll.clone(),
            wrist_yaw: self.right_wrist_yaw.clone(),
            hand: self.right_hand.clone(),
        }
    }

    /// Retrieves the head joints.
    pub fn head_joints(&self) -> (r: HeadJoints<T>)
        ensures
            r.cloned_from(self.spec_head_joints()),
    {
        HeadJoints {
            yaw: self.head_yaw.clone(),
            pitch: self.head_pitch.clone(),
        }
    }
}

impl<T: Default> JointArray<T> {
    /// Whether every joint holds a default value of `T`.
    pub open spec fn is_default(self) -> bool {
        forall|i: int| 0 <= i < JOINT_COUNT ==> call_ensures(T::default, (), #[trigger] self@[i])
    }
}

impl<T: Default> Default for JointArray<T> {
    fn default() -> (r: Self)
        ensures
            r.is_default(),
    {
        let r = JointArray {
            head_yaw: T::default(),
            head_pitch: T::default(),
            left_shoulder_pitch: T::default(),
            left_shoulder_roll: T::default(),
            left_elbow_yaw: T::default(),
            left_elbow_roll: T::default(),
            left_wrist_yaw: T::default(),
            left_hip_yaw_pitch: T::default(),
            left_hip_roll: T::default(),
            left_hip_pitch: T::default(),
            left_knee_pitch: T::default(),
            left_ankle_pitch: T::default(),
            left_ankle_roll: T::default(),
            right_shoulder_pitch: T::default(),
            right_shoulder_roll: T::default(),
            right_elbow_yaw: T::default(),
            right_elbow_roll: T::default(),
            right_wrist_yaw: T::default(),
            right_hip_roll: T::default(),
            right_hip_pitch: T::default(),
            right_knee_pitch: T::default(),
            right_ankle_pitch: T::default(),
            right_ankle_roll: T::default(),
            left_hand: T::default(),
            right_hand: T::default(),
        };
        r
    }
}

impl<T: Clone> FillExt<T> for JointArray<T> {
    open spec fn filled(value: T) -> Self {
        JointArray {
            head_yaw: value,
            head_pitch: value,
            left_shoulder_pitch: value,
            left_shoulder_roll: value,
            left_elbow_yaw: value,
            left_elbow_roll: value,
            left_wrist_yaw: value,
            left_hip_yaw_pitch: value,
            left_hip_roll: value,
            left_hip_pitch: value,
            left_knee_pitch: value,
            left_ankle_pitch: value,
            left_ankle_roll: value,
            right_shoulder_pitch: value,
            right_shoulder_roll: value,
            right_elbow_yaw: value,
            right_elbow_roll: value,
            right_wrist_yaw: value,
            right_hip_roll: value,
            right_hip_pitch: value,
            right_knee_pitch: value,
            right_ankle_pitch: value,
            right_ankle_roll: value,
            left_hand: value,
            right_hand: value,
        }
    }

    open spec fn cloned_from(self, source: Self) -> bool {
        &&& cloned(source.head_yaw, self.head_yaw)
        &&& cloned(source.head_pitch, self.head_pitch)
        &&& cloned(source.left_shoulder_pitch, self.left_shoulder_pitch)
        &&& cloned(source.left_shoulder_roll, self.left_shoulder_roll)
        &&& cloned(source.left_elbow_yaw, self.left_elbow_yaw)
        &&& cloned(source.left_elbow_roll, self.left_elbow_roll)
        &&& cloned(source.left_wrist_yaw, self.left_wrist_yaw)
        &&& cloned(source.left_hip_yaw_pitch, self.left_hip_yaw_pitch)
        &&& cloned(source.left_hip_roll, self.left_hip_roll)
        &&& cloned(source.left_hip_pitch, self.left_hip_pitch)
        &&& cloned(source.left_knee_pitch, self.left_knee_pitch)
        &&& cloned(source.left_ankle_pitch, self.left_ankle_pitch)
        &&& cloned(source.left_ankle_roll, self.left_ankle_roll)
        &&& cloned(source.right_shoulder_pitch, self.right_shoulder_pitch)
        &&& cloned(source.right_shoulder_roll, self.right_shoulder_roll)
        &&& cloned(source.right_elbow_yaw, self.right_elbow_yaw)
        &&& cloned(source.right_elbow_roll, self.right_elbow_roll)
        &&& cloned(source.right_wrist_yaw, self.right_wrist_yaw)
        &&& cloned(source.right_hip_roll, self.right_hip_roll)
        &&& cloned(source.right_hip_pitch, self.right_hip_pitch)
        &&& cloned(source.right_knee_pitch, self.right_knee_pitch)
        &&& cloned(source.right_ankle_pitch, self.right_ankle_pitch)
        &&& cloned(source.right_ankle_roll, self.right_ankle_roll)
        &&& cloned(source.left_hand, self.left_hand)
        &&& cloned(source.right_hand, self.right_hand)
    }

    proof fn lemma_cloned_from(self, source: Self) {
    }

    fn fill(value: T) -> (r: Self) {
        JointArray {
            head_yaw: value.clone(),
            head_pitch: value.clone(),
            left_shoulder_pitch: value.clone(),
            left_shoulder_roll: value.clone(),
            left_elbow_yaw: value.clone(),
            left_elbow_roll: value.clone(),
            left_wrist_yaw: value.clone(),
            left_hip_yaw_pitch: value.clone(),
            left_hip_roll: value.clone(),
            left_hip_pitch: value.clone(),
            left_knee_pitch: value.clone(),
            left_ankle_pitch: value.clone(),
            left_ankle_roll: value.clone(),
            right_shoulder_pitch: value.clone(),
            right_shoulder_roll: value.clone(),
            right_elbow_yaw: value.clone(),
            right_elbow_roll: value.clone(),
            right_wrist_yaw: value.clone(),
            right_hip_roll: value.clone(),
            right_hip_pitch: value.clone(),
            right_knee_pitch: value.clone(),
            right_ankle_pitch: value.clone(),
            right_ankle_roll: value.clone(),
            left_hand: value.clone(),
            right_hand: value.clone(),
        }
    }
}

impl<T: Clone> vstd::std_specs::convert::TryFromSpecImpl<&[T]> for JointArray<T> {
    /// The conversion clones the values of the slice, so its result is fixed in advance
    /// where cloning is exact.
    open spec fn obeys_try_from_spec() -> bool {
        clone_is_exact::<T>()
    }

    /// A slice of exactly 25 values gives the joint array that holds them slot by slot, in the
    /// order of the fields; a slice of any other length is refused.
    open spec fn try_from_spec(values: &[T]) -> Result<Self, &'static str> {
        if values@.len() == JOINT_COUNT {
            Ok(JointArray::from_seq(values@))
        } else {
            Err("Slice must contain exactly 25 elements to convert to JointArray")
        }
    }
}

impl<T: Clone> JointArray<T> {
    /// The values of a joint array, as [`JointArray::to_vec`] hands them out, convert back to
    /// the joint array that they were taken from.
    pub proof fn lemma_try_from_values(self, values: &[T])
        requires
            values@ == self@,
        ensures
            <JointArray<T> as TryFromSpec<&[T]>>::try_from_spec(values) == Ok::<
                JointArray<T>,
                &'static str,
            >(self),
    {
    }
}

impl<T: Clone> TryFrom<&[T]> for JointArray<T> {
    type Error = &'static str;

    /// A slice of exactly 25 values gives the joint array that holds a clone of each, slot by
    /// slot in the order of the fields; a slice of any other length is refused.
    fn try_from(values: &[T]) -> (r: Result<Self, Self::Error>)
        ensures
            values@.len() != JOINT_COUNT ==> r == Err::<JointArray<T>, &'static str>(
                "Slice must contain exactly 25 elements to convert to JointArray",
            ),
            values@.len() == JOINT_COUNT ==> r is Ok && forall|i: int|
                0 <= i < JOINT_COUNT ==> cloned(values@[i], #[trigger] r->Ok_0@[i]),
    {
        if values.len() != 25 {
            return Err("Slice must contain exactly 25 elements to convert to JointArray");
        }
        Ok(
            JointArray {
                head_yaw: values[0].clone(),
                head_pitch: values[1].clone(),
                left_shoulder_pitch: values[2].clone(),
                left_shoulder_roll: values[3].clone(),
                left_elbow_yaw: values[4].clone(),
                left_elbow_roll: values[5].clone(),
                left_wrist_yaw: values[6].clone(),
                left_hip_yaw_pitch: values[7].clone(),
                left_hip_roll: values[8].clone(),
                left_hip_pitch: values[9].clone(),
                left_knee_pitch: values[10].clone(),
                left_ankle_pitch: values[11].clone(),
                left_ankle_roll: values[12].clone(),
                right_shoulder_pitch: values[13].clone(),
                right_shoulder_roll: values[14].clone(),
                right_elbow_yaw: values[15].clone(),
                right_elbow_roll: values[16].clone(),
                right_wrist_yaw: values[17].clone(),
                right_hip_roll: values[18].clone(),
                right_hip_pitch: values[19].clone(),
                right_knee_pitch: values[20].clone(),
                right_ankle_pitch: values[21].clone(),
                right_ankle_roll: values[22].clone(),
                left_hand: values[23].clone(),
                right_hand: values[24].clone(),
            },
        )
    }
}

} // verus!
