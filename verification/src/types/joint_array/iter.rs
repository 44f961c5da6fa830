//! Walking over the joints of a [`JointArray`] in the order of its slots.

use crate::types::joint_array::JOINT_COUNT;
use crate::types::JointArray;
use vstd::prelude::*;
use vstd::std_specs::iter::IteratorSpec;

verus! {

/// The joint that an iterator stands at, or `End` once it has passed the last one.
#[derive(Debug)]
enum JointArrayField {
    HeadYaw,
    HeadPitch,
    LeftShoulderPitch,
    LeftShoulderRoll,
    LeftElbowYaw,
    LeftElbowRoll,
    LeftWristYaw,
    LeftHipYawPitch,
    LeftHipRoll,
    LeftHipPitch,
    LeftKneePitch,
    LeftAnklePitch,
    LeftAnkleRoll,
    RightShoulderPitch,
    RightShoulderRoll,
    RightElbowYaw,
    RightElbowRoll,
    RightWristYaw,
    RightHipRoll,
    RightHipPitch,
    RightKneePitch,
    RightAnklePitch,
    RightAnkleRoll,
    LeftHand,
    RightHand,
    End,
}

impl JointArrayField {
    /// The index of the slot that the field names; `End` stands behind the last slot.
    spec fn position(&self) -> int {
        match self {
            Self::HeadYaw => 0,
            Self::HeadPitch => 1,
            Self::LeftShoulderPitch => 2,
            Self::LeftShoulderRoll => 3,
            Self::LeftElbowYaw => 4,
            Self::LeftElbowRoll => 5,
            Self::LeftWristYaw => 6,
            Self::LeftHipYawPitch => 7,
            Self::LeftHipRoll => 8,
            Self::LeftHipPitch => 9,
            Self::LeftKneePitch => 10,
            Self::LeftAnklePitch => 11,
            Self::LeftAnkleRoll => 12,
            Self::RightShoulderPitch => 13,
            Self::RightShoulderRoll => 14,
            Self::RightElbowYaw => 15,
            Self::RightElbowRoll => 16,
            Self::RightWristYaw => 17,
            Self::RightHipRoll => 18,
            Self::RightHipPitch => 19,
            Self::RightKneePitch => 20,
            Self::RightAnklePitch => 21,
            Self::RightAnkleRoll => 22,
            Self::LeftHand => 23,
            Self::RightHand => 24,
            Self::End => 25,
        }
    }

    /// The field of the following slot, and `End` behind the last one.
    fn next(&self) -> (r: Self)
        ensures
            r.position() == if self.position() < JOINT_COUNT {
                self.position() + 1
            } else {
                self.position()
            },
    {
        match self {
            Self::HeadYaw => Self::HeadPitch,
            Self::HeadPitch => Self::LeftShoulderPitch,
            Self::LeftShoulderPitch => Self::LeftShoulderRoll,
            Self::LeftShoulderRoll => Self::LeftElbowYaw,
            Self::LeftElbowYaw => Self::LeftElbowRoll,
            Self::LeftElbowRoll => Self::LeftWristYaw,
            Self::LeftWristYaw => Self::LeftHipYawPitch,
            Self::LeftHipYawPitch => Self::LeftHipRoll,
            Self::LeftHipRoll => Self::LeftHipPitch,
            Self::LeftHipPitch => Self::LeftKneePitch,
            Self::LeftKneePitch => Self::LeftAnklePitch,
            Self::LeftAnklePitch => Self::LeftAnkleRoll,
            Self::LeftAnkleRoll => Self::RightShoulderPitch,
            Self::RightShoulderPitch => Self::RightShoulderRoll,
            Self::RightShoulderRoll => Self::RightElbowYaw,
            Self::RightElbowYaw => Self::RightElbowRoll,
            Self::RightElbowRoll => Self::RightWristYaw,
            Self::RightWristYaw => Self::RightHipRoll,
            Self::RightHipRoll => Self::RightHipPitch,
            Self::RightHipPitch => Self::RightKneePitch,
            Self::RightKneePitch => Self::RightAnklePitch,
            Self::RightAnklePitch => Self::RightAnkleRoll,
            Self::RightAnkleRoll => Self::LeftHand,
            Self::LeftHand => Self::RightHand,
            _ => Self::End,
        }
    }
}

/// An iterator over references to the joints of a [`JointArray`], from slot 0 to slot 24.
#[derive(Debug)]
pub struct JointArrayIterator<'a, T>(JointArrayField, &'a JointArray<T>);

impl<'a, T> JointArrayIterator<'a, T> {
    /// The joint array that the iterator walks over.
    pub closed spec fn joints(&self) -> JointArray<T> {
        *self.1
    }

    /// The index of the slot that the iterator hands out next; 25 once it is exhausted.
    pub closed spec fn next_index(&self) -> int {
        self.0.position()
    }

    /// References to the joints from the iterator's position on, which are still to come.
    pub closed spec fn rest(&self) -> Seq<&'a T> {
        Seq::new(
            (JOINT_COUNT - self.0.position()) as nat,
            |i: int| &self.1@[self.0.position() + i],
        )
    }

    /// An iterator that stands at the first joint of `joint_array`.
    pub fn new(joint_array: &'a JointArray<T>) -> (r: Self)
        ensures
            r.joints() == *joint_array,
            r.next_index() == 0,
            IteratorSpec::remaining(&r).unref() == joint_array@,
            IteratorSpec::decrease(&r) is Some,
            IteratorSpec::initial_value_relation(&r, &r),
    {
        Self(JointArrayField::HeadYaw, joint_array)
    }

    /// What is still to come is what the joint array holds from the iterator's position on.
    pub proof fn lemma_rest(&self)
        ensures
            0 <= self.next_index() <= JOINT_COUNT,
            self.rest().len() == JOINT_COUNT - self.next_index(),
            forall|i: int|
                0 <= i < JOINT_COUNT - self.next_index() ==> *(#[trigger] self.rest()[i])
                    == self.joints()@[self.next_index() + i],
    {
    }
}

impl<'a, T> Iterator for JointArrayIterator<'a, T> {
    type Item = &'a T;

    /// Hands out the joint at the iterator's position and moves on to the next slot; hands
    /// out nothing once the last joint has been passed.
    fn next(&mut self) -> (ret: Option<&'a T>)
        ensures
            final(self).joints() == old(self).joints(),
            old(self).next_index() < JOINT_COUNT ==> ret == Some(
                &old(self).joints()@[old(self).next_index()],
            ) && final(self).next_index() == old(self).next_index() + 1,
            old(self).next_index() >= JOINT_COUNT ==> ret is None && final(self).next_index() == old(
                self,
            ).next_index(),
    {
        let val = match self.0 {
            JointArrayField::HeadYaw => Some(&self.1.head_yaw),
            JointArrayField::HeadPitch => Some(&self.1.head_pitch),
            JointArrayField::LeftShoulderPitch => Some(&self.1.left_shoulder_pitch),
            JointArrayField::LeftShoulderRoll => Some(&self.1.left_shoulder_roll),
            JointArrayField::LeftElbowYaw => Some(&self.1.left_elbow_yaw),
            JointArrayField::LeftElbowRoll => Some(&self.1.left_elbow_roll),
            JointArrayField::LeftWristYaw => Some(&self.1.left_wrist_yaw),
            JointArrayField::LeftHipYawPitch => Some(&self.1.left_hip_yaw_pitch),
            JointArrayField::LeftHipRoll => Some(&self.1.left_hip_roll),
            JointArrayField::LeftHipPitch => Some(&self.1.left_hip_pitch),
            JointArrayField::LeftKneePitch => Some(&self.1.left_knee_pitch),
            JointArrayField::LeftAnklePitch => Some(&self.1.left_ankle_pitch),
            JointArrayField::LeftAnkleRoll => Some(&self.1.left_ankle_roll),
            JointArrayField::RightShoulderPitch => Some(&self.1.right_shoulder_pitch),
            JointArrayField::RightShoulderRoll => Some(&self.1.right_shoulder_roll),
            JointArrayField::RightElbowYaw => Some(&self.1.right_elbow_yaw),
            JointArrayField::RightElbowRoll => Some(&self.1.right_elbow_roll),
            JointArrayField::RightWristYaw => Some(&self.1.right_wrist_yaw),
            JointArrayField::RightHipRoll => Some(&self.1.right_hip_roll),
            JointArrayField::RightHipPitch => Some(&self.1.right_hip_pitch),
            JointArrayField::RightKneePitch => Some(&self.1.right_knee_pitch),
            JointArrayField::RightAnklePitch => Some(&self.1.right_ankle_pitch),
            JointArrayField::RightAnkleRoll => Some(&self.1.right_ankle_roll),
            JointArrayField::LeftHand => Some(&self.1.left_hand),
            JointArrayField::RightHand => Some(&self.1.right_hand),
            JointArrayField::End => None,
        };
        self.0 = self.0.next();
        val
    }
}

impl<'a, T> vstd::std_specs::iter::IteratorSpecImpl for JointArrayIterator<'a, T> {
    open spec fn obeys_prophetic_iter_laws(&self) -> bool {
        true
    }

    open spec fn remaining(&self) -> Seq<Self::Item> {
        self.rest()
    }

    open spec fn will_return_none(&self) -> bool {
        true
    }

    open spec fn decrease(&self) -> Option<nat> {
        Some((JOINT_COUNT - self.next_index()) as nat)
    }

    open spec fn initial_value_relation(&self, init: &Self) -> bool {
        self.joints() == init.joints() && self.next_index() == init.next_index()
    }

    open spec fn peek(&self, index: int) -> Option<Self::Item> {
        if 0 <= index < JOINT_COUNT - self.next_index() {
            Some(&self.joints()@[self.next_index() + index])
        } else {
            None
        }
    }
}

impl<T> JointArray<T> {
    /// Returns a `JointArrayIterator`.
    pub fn iter(&self) -> (r: JointArrayIterator<'_, T>)
        ensures
            r.joints() == *self,
            r.next_index() == 0,
            IteratorSpec::remaining(&r).unref() == self@,
            IteratorSpec::decrease(&r) is Some,
            IteratorSpec::initial_value_relation(&r, &r),
    {
        JointArrayIterator::new(self)
    }
}

impl<T> IntoIterator for JointArray<T> {
    type Item = T;

    type IntoIter = std::vec::IntoIter<T>;

    /// An iterator that hands out the joints themselves, from slot 0 to slot 24.
    fn into_iter(self) -> (r: Self::IntoIter)
        ensures
            IteratorSpec::remaining(&r) == self@,
            IteratorSpec::decrease(&r) is Some,
            IteratorSpec::initial_value_relation(&r, &r),
    {
        self.to_vec().into_iter()
    }
}

impl<'a, T> IntoIterator for &'a JointArray<T> {
    type Item = &'a T;

    type IntoIter = JointArrayIterator<'a, T>;

    /// An iterator that hands out references to the joints, from slot 0 to slot 24.
    fn into_iter(self) -> (r: Self::IntoIter)
        ensures
            r.joints() == *self,
            r.next_index() == 0,
            IteratorSpec::remaining(&r).unref() == self@,
            IteratorSpec::decrease(&r) is Some,
            IteratorSpec::initial_value_relation(&r, &r),
    {
        self.iter()
    }
}

} // verus!
