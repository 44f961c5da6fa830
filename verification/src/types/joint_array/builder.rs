//! The builder of a [`JointArray`], which takes joints one by one or group by group.

use crate::types::{
    ArmJoints, HeadJoints, JointArray, LeftArmJoints, LeftLegJoints, LegJoints, RightArmJoints,
    RightLegJoints,
};
use crate::types::joint_array::JOINT_COUNT;
use vstd::prelude::*;

verus! {

/// Builder struct for [`JointArray`].
#[must_use]
pub struct JointArrayBuilder<T> {
    head_yaw: Option<T>,
    head_pitch: Option<T>,
    left_shoulder_pitch: Option<T>,
    left_shoulder_roll: Option<T>,
    left_elbow_yaw: Option<T>,
    left_elbow_roll: Option<T>,
    left_wrist_yaw: Option<T>,
    left_hip_yaw_pitch: Option<T>,
    left_hip_roll: Option<T>,
    left_hip_pitch: Option<T>,
    left_knee_pitch: Option<T>,
    left_ankle_pitch: Option<T>,
    left_ankle_roll: Option<T>,
    right_shoulder_pitch: Option<T>,
    right_shoulder_roll: Option<T>,
    right_elbow_yaw: Option<T>,
    right_elbow_roll: Option<T>,
    right_wrist_yaw: Option<T>,
    right_hip_roll: Option<T>,
    right_hip_pitch: Option<T>,
    right_knee_pitch: Option<T>,
    right_ankle_pitch: Option<T>,
    right_ankle_roll: Option<T>,
    left_hand: Option<T>,
    right_hand: Option<T>,
}

impl<T> JointArray<T> {
    /// The joint array that holds `Some` of each value of this one.
    pub open spec fn spec_some(self) -> JointArray<Option<T>> {
        JointArray {
            head_yaw: Some(self.head_yaw),
            head_pitch: Some(self.head_pitch),
            left_shoulder_pitch: Some(self.left_shoulder_pitch),
            left_shoulder_roll: Some(self.left_shoulder_roll),
            left_elbow_yaw: Some(self.left_elbow_yaw),
            left_elbow_roll: Some(self.left_elbow_roll),
            left_wrist_yaw: Some(self.left_wrist_yaw),
            left_hip_yaw_pitch: Some(self.left_hip_yaw_pitch),
            left_hip_roll: Some(self.left_hip_roll),
            left_hip_pitch: Some(self.left_hip_pitch),
            left_knee_pitch: Some(self.left_knee_pitch),
            left_ankle_pitch: Some(self.left_ankle_pitch),
            left_ankle_roll: Some(self.left_ankle_roll),
            right_shoulder_pitch: Some(self.right_shoulder_pitch),
            right_shoulder_roll: Some(self.right_shoulder_roll),
            right_elbow_yaw: Some(self.right_elbow_yaw),
            right_elbow_roll: Some(self.right_elbow_roll),
            right_wrist_yaw: Some(self.right_wrist_yaw),
            right_hip_roll: Some(self.right_hip_roll),
            right_hip_pitch: Some(self.right_hip_pitch),
            right_knee_pitch: Some(self.right_knee_pitch),
            right_ankle_pitch: Some(self.right_ankle_pitch),
            right_ankle_roll: Some(self.right_ankle_roll),
            left_hand: Some(self.left_hand),
            right_hand: Some(self.right_hand),
        }
    }
}

impl<T: Default> JointArray<T> {
    /// A builder in which no joint is set yet.
    pub fn builder() -> (r: JointArrayBuilder<T>)
        ensures
            forall|i: int| 0 <= i < JOINT_COUNT ==> #[trigger] r.fields()@[i] is None,
    {
        JointArrayBuilder {
            head_yaw: None,
            head_pitch: None,
            left_shoulder_pitch: None,
            left_shoulder_roll: None,
            left_elbow_yaw: None,
            left_elbow_roll: None,
            left_wrist_yaw: None,
            left_hip_yaw_pitch: None,
            left_hip_roll: None,
            left_hip_pitch: None,
            left_knee_pitch: None,
            left_ankle_pitch: None,
            left_ankle_roll: None,
            right_shoulder_pitch: None,
            right_shoulder_roll: None,
            right_elbow_yaw: None,
            right_elbow_roll: None,
            right_wrist_yaw: None,
            right_hip_roll: None,
            right_hip_pitch: None,
            right_knee_pitch: None,
            right_ankle_pitch: None,
            right_ankle_roll: None,
            left_hand: None,
            right_hand: None,
        }
    }
}

impl<T> JointArrayBuilder<T> {
    /// What the builder holds for each joint: `Some` of the value that was set last, or `None`
    /// where none was set.
    pub closed spec fn fields(&self) -> JointArray<Option<T>> {
        JointArray {
            head_yaw: self.head_yaw,
            head_pitch: self.head_pitch,
            left_shoulder_pitch: self.left_shoulder_pitch,
            left_shoulder_roll: self.left_shoulder_roll,
            left_elbow_yaw: self.left_elbow_yaw,
            left_elbow_roll: self.left_elbow_roll,
            left_wrist_yaw: self.left_wrist_yaw,
            left_hip_yaw_pitch: self.left_hip_yaw_pitch,
            left_hip_roll: self.left_hip_roll,
            left_hip_pitch: self.left_hip_pitch,
            left_knee_pitch: self.left_knee_pitch,
            left_ankle_pitch: self.left_ankle_pitch,
            left_ankle_roll: self.left_ankle_roll,
            right_shoulder_pitch: self.right_shoulder_pitch,
            right_shoulder_roll: self.right_shoulder_roll,
            right_elbow_yaw: self.right_elbow_yaw,
            right_elbow_roll: self.right_elbow_roll,
            right_wrist_yaw: self.right_wrist_yaw,
            right_hip_roll: self.right_hip_roll,
            right_hip_pitch: self.right_hip_pitch,
            right_knee_pitch: self.right_knee_pitch,
            right_ankle_pitch: self.right_ankle_pitch,
            right_ankle_roll: self.right_ankle_roll,
            left_hand: self.left_hand,
            right_hand: self.right_hand,
        }
    }

    /// Whether `value` is what is built from `field`: the value that was set, or a default
    /// value of `T` where none was set.
    pub open spec fn takes(field: Option<T>, value: T) -> bool where T: Default {
        match field {
            Some(set) => value == set,
            None => call_ensures(T::default, (), value),
        }
    }

    /// Whether `built` is a joint array that a builder holding `fields` may build.
    pub open spec fn builds(fields: JointArray<Option<T>>, built: JointArray<T>) -> bool where
        T: Default,
     {
        forall|i: int| 0 <= i < JOINT_COUNT ==> Self::takes(#[trigger] fields@[i], built@[i])
    }

    /// The fields of a builder after [`JointArrayBuilder::head_joints`].
    pub open spec fn with_head_joints(
        fields: JointArray<Option<T>>,
        joints: HeadJoints<T>,
    ) -> JointArray<Option<T>> {
        JointArray {
            head_pitch: Some(joints.pitch),
            head_yaw: Some(joints.yaw),
            ..fields
        }
    }

    /// The fields of a builder after [`JointArrayBuilder::left_leg_joints`].
    pub open spec fn with_left_leg_joints(
        fields: JointArray<Option<T>>,
        joints: LeftLegJoints<T>,
    ) -> JointArray<Option<T>> {
        JointArray {
            left_hip_yaw_pitch: Some(joints.hip_yaw_pitch),
            left_hip_roll: Some(joints.hip_roll),
            left_hip_pitch: Some(joints.hip_pitch),
            left_knee_pitch: Some(joints.knee_pitch),
            left_ankle_pitch: Some(joints.ankle_pitch),
            left_ankle_roll: Some(joints.ankle_roll),
            ..fields
        }
    }

    /// The fields of a builder after [`JointArrayBuilder::right_leg_joints`].
    pub open spec fn with_right_leg_joints(
        fields: JointArray<Option<T>>,
        joints: RightLegJoints<T>,
    ) -> JointArray<Option<T>> {
        JointArray {
            right_hip_roll: Some(joints.hip_roll),
            right_hip_pitch: Some(joints.hip_pitch),
            right_knee_pitch: Some(joints.knee_pitch),
            right_ankle_pitch: Some(joints.ankle_pitch),
            right_ankle_roll: Some(joints.ankle_roll),
            ..fields
        }
    }

    /// The fields of a builder after [`JointArrayBuilder::left_arm_joints`].
    pub open spec fn with_left_arm_joints(
        fields: JointArray<Option<T>>,
        joints: LeftArmJoints<T>,
    ) -> JointArray<Option<T>> {
        JointArray {
            left_shoulder_pitch: Some(joints.shoulder_pitch),
            left_shoulder_roll: Some(joints.shoulder_roll),
            left_elbow_yaw: Some(joints.elbow_yaw),
            left_elbow_roll: Some(joints.elbow_roll),
            left_wrist_yaw: Some(joints.wrist_yaw),
            left_hand: Some(joints.hand),
            ..fields
        }
    }

    /// The fields of a builder after [`JointArrayBuilder::right_arm_joints`].
    pub open spec fn with_right_arm_joints(
        fields: JointArray<Option<T>>,
        joints: RightArmJoints<T>,
    ) -> JointArray<Option<T>> {
        JointArray {
            right_shoulder_pitch: Some(joints.shoulder_pitch),
            right_shoulder_roll: Some(joints.shoulder_roll),
            right_elbow_yaw: Some(joints.elbow_yaw),
            right_elbow_roll: Some(joints.elbow_roll),
            right_wrist_yaw: Some(joints.wrist_yaw),
            right_hand: Some(joints.hand),
            ..fields
        }
    }

    /// The fields of a builder after [`JointArrayBuilder::leg_joints`].
    pub open spec fn with_leg_joints(
        fields: JointArray<Option<T>>,
        joints: LegJoints<T>,
    ) -> JointArray<Option<T>> {
        Self::with_right_leg_joints(
            Self::with_left_leg_joints(fields, joints.left_leg),
            joints.right_leg,
        )
    }

    /// The fields of a builder after [`JointArrayBuilder::arm_joints`].
    pub open spec fn with_arm_joints(
        fields: JointArray<Option<T>>,
        joints: ArmJoints<T>,
    ) -> JointArray<Option<T>> {
        Self::with_right_arm_joints(
            Self::with_left_arm_joints(fields, joints.left_arm),
            joints.right_arm,
        )
    }

    /// Set all the joint values to the corresponding values from the provided [`JointArray`].
    pub fn joints(self, joints: JointArray<T>) -> (r: Self)
        ensures
            r.fields() == joints.spec_some(),
    {
        let mut builder = self;
        builder.head_pitch = Some(joints.head_pitch);
        builder.head_yaw = Some(joints.head_yaw);

        builder.left_hip_yaw_pitch = Some(joints.left_hip_yaw_pitch);
        builder.left_hip_roll = Some(joints.left_hip_roll);
        builder.left_hip_pitch = Some(joints.left_hip_pitch);
        builder.left_knee_pitch = Some(joints.left_knee_pitch);
        builder.left_ankle_pitch = Some(joints.left_ankle_pitch);
        builder.left_ankle_roll = Some(joints.left_ankle_roll);

        builder.right_hip_roll = Some(joints.right_hip_roll);
        builder.right_hip_pitch = Some(joints.right_hip_pitch);
        builder.right_knee_pitch = Some(joints.right_knee_pitch);
        builder.right_ankle_pitch = Some(joints.right_ankle_pitch);
        builder.right_ankle_roll = Some(joints.right_ankle_roll);

        builder.left_shoulder_pitch = Some(joints.left_shoulder_pitch);
        builder.left_shoulder_roll = Some(joints.left_shoulder_roll);
        builder.left_elbow_yaw = Some(joints.left_elbow_yaw);
        builder.left_elbow_roll = Some(joints.left_elbow_roll);
        builder.left_wrist_yaw = Some(joints.left_wrist_yaw);
        builder.left_hand = Some(joints.left_hand);

        builder.right_shoulder_pitch = Some(joints.right_shoulder_pitch);
        builder.right_shoulder_roll = Some(joints.right_shoulder_roll);
        builder.right_elbow_yaw = Some(joints.right_elbow_yaw);
        builder.right_elbow_roll = Some(joints.right_elbow_roll);
        builder.right_wrist_yaw = Some(joints.right_wrist_yaw);
        builder.right_hand = Some(joints.right_hand);

        builder
    }

    /// Set the `head_pitch` and `head_yaw` values to the corresponding values from the provided
    /// [`HeadJoints`].
    pub fn head_joints(self, joints: HeadJoints<T>) -> (r: Self)
        ensures
            r.fields() == Self::with_head_joints(self.fields(), joints),
    {
        let mut builder = self;
        builder.head_pitch = Some(joints.pitch);
        builder.head_yaw = Some(joints.yaw);
        builder
    }

    /// Set the values for the left leg joints to the corresponding values from the provided
    /// [`LeftLegJoints`].
    pub fn left_leg_joints(self, joints: LeftLegJoints<T>) -> (r: Self)
        ensures
            r.fields() == Self::with_left_leg_joints(self.fields(), joints),
    {
        let mut builder = self;
        builder.left_hip_yaw_pitch = Some(joints.hip_yaw_pitch);
        builder.left_hip_roll = Some(joints.hip_roll);
        builder.left_hip_pitch = Some(joints.hip_pitch);
        builder.left_knee_pitch = Some(joints.knee_pitch);
        builder.left_ankle_pitch = Some(joints.ankle_pitch);
        builder.left_ankle_roll = Some(joints.ankle_roll);
        builder
    }

    /// Set the values for the right leg joints to the corresponding values from the provided
    /// [`RightLegJoints`].
    pub fn right_leg_joints(self, joints: RightLegJoints<T>) -> (r: Self)
        ensures
            r.fields() == Self::with_right_leg_joints(self.fields(), joints),
    {
        let mut builder = self;
        builder.right_hip_roll = Some(joints.hip_roll);
        builder.right_hip_pitch = Some(joints.hip_pitch);
        builder.right_knee_pitch = Some(joints.knee_pitch);
        builder.right_ankle_pitch = Some(joints.ankle_pitch);
        builder.right_ankle_roll = Some(joints.ankle_roll);
        builder
    }

    /// Set the values for the left arm joints to the corresponding values from the provided
    /// [`LeftArmJoints`].
    pub fn left_arm_joints(self, joints: LeftArmJoints<T>) -> (r: Self)
        ensures
            r.fields() == Self::with_left_arm_joints(self.fields(), joints),
    {
        let mut builder = self;
        builder.left_shoulder_pitch = Some(joints.shoulder_pitch);
        builder.left_shoulder_roll = Some(joints.shoulder_roll);
        builder.left_elbow_yaw = Some(joints.elbow_yaw);
        builder.left_elbow_roll = Some(joints.elbow_roll);
        builder.left_wrist_yaw = Some(joints.wrist_yaw);
        builder.left_hand = Some(joints.hand);
        builder
    }

    /// Set the values for the right arm joints to the corresponding values from the provided
    /// [`RightArmJoints`].
    pub fn right_arm_joints(self, joints: RightArmJoints<T>) -> (r: Self)
        ensures
            r.fields() == Self::with_right_arm_joints(self.fields(), joints),
    {
        let mut builder = self;
        builder.right_shoulder_pitch = Some(joints.shoulder_pitch);
        builder.right_shoulder_roll = Some(joints.shoulder_roll);
        builder.right_elbow_yaw = Some(joints.elbow_yaw);
        builder.right_elbow_roll = Some(joints.elbow_roll);
        builder.right_wrist_yaw = Some(joints.wrist_yaw);
        builder.right_hand = Some(joints.hand);
        builder
    }

    /// Set the values for the leg joints to the corresponding values from the provided
    /// [`LegJoints`].
    pub fn leg_joints(self, joints: LegJoints<T>) -> (r: Self)
        ensures
            r.fields() == Self::with_leg_joints(self.fields(), joints),
    {
        let mut builder = self;
        builder.left_hip_yaw_pitch = Some(joints.left_leg.hip_yaw_pitch);
        builder.left_hip_roll = Some(joints.left_leg.hip_roll);
        builder.left_hip_pitch = Some(joints.left_leg.hip_pitch);
        builder.left_knee_pitch = Some(joints.left_leg.knee_pitch);
        builder.left_ankle_pitch = Some(joints.left_leg.ankle_pitch);
        builder.left_ankle_roll = Some(joints.left_leg.ankle_roll);
        builder.right_hip_roll = Some(joints.right_leg.hip_roll);
        builder.right_hip_pitch = Some(joints.right_leg.hip_pitch);
        builder.right_ankle_pitch = Some(joints.right_leg.ankle_pitch);
        builder.right_knee_pitch = Some(joints.right_leg.knee_pitch);
        builder.right_ankle_roll = Some(joints.right_leg.ankle_roll);
        builder
    }

    /// Set the values for the arm joints to the corresponding values from the provided
    /// [`ArmJoints`].
    pub fn arm_joints(self, joints: ArmJoints<T>) -> (r: Self)
        ensures
            r.fields() == Self::with_arm_joints(self.fields(), joints),
    {
        let mut builder = self;
        builder.left_shoulder_pitch = Some(joints.left_arm.shoulder_pitch);
        builder.left_shoulder_roll = Some(joints.left_arm.shoulder_roll);
        builder.left_elbow_yaw = Some(joints.left_arm.elbow_yaw);
        builder.left_elbow_roll = Some(joints.left_arm.elbow_roll);
        builder.left_wrist_yaw = Some(joints.left_arm.wrist_yaw);
        builder.left_hand = Some(joints.left_arm.hand);
        builder.right_shoulder_pitch = Some(joints.right_arm.shoulder_pitch);
        builder.right_shoulder_roll = Some(joints.right_arm.shoulder_roll);
        builder.right_elbow_yaw = Some(joints.right_arm.elbow_yaw);
        builder.right_elbow_roll = Some(joints.right_arm.elbow_roll);
        builder.right_wrist_yaw = Some(joints.right_arm.wrist_yaw);
        builder.right_hand = Some(joints.right_arm.hand);
        builder
    }

    /// Taking a joint array apart into its groups and building a joint array from the groups
    /// gives the same joint array again. Whatever a builder held before, once it is given the
    /// head, the two arms and the two legs of `joints`, limb by limb or pair by pair, it holds
    /// every joint of `joints`, and so whatever it builds is `joints`.
    pub proof fn lemma_groups_round_trip(
        joints: JointArray<T>,
        before: JointArray<Option<T>>,
        rebuilt: JointArray<T>,
    ) where T: Default
        ensures
            ({
                let limb_by_limb = Self::with_right_leg_joints(
                    Self::with_left_leg_joints(
                        Self::with_right_arm_joints(
                            Self::with_left_arm_joints(
                                Self::with_head_joints(before, joints.spec_head_joints()),
                                joints.spec_left_arm_joints(),
                            ),
                            joints.spec_right_arm_joints(),
                        ),
                        joints.spec_left_leg_joints(),
                    ),
                    joints.spec_right_leg_joints(),
                );
                &&& limb_by_limb == joints.spec_some()
                &&& Self::builds(limb_by_limb, rebuilt) ==> rebuilt == joints
            }),
            ({
                let pair_by_pair = Self::with_leg_joints(
                    Self::with_arm_joints(
                        Self::with_head_joints(before, joints.spec_head_joints()),
                        joints.spec_arm_joints(),
                    ),
                    joints.spec_leg_joints(),
                );
                &&& pair_by_pair == joints.spec_some()
                &&& Self::builds(pair_by_pair, rebuilt) ==> rebuilt == joints
            }),
    {
        joints.spec_some().lemma_view_slots();
    }
}

impl<T: Default> JointArrayBuilder<T> {
    /// Set the `head_yaw` value to the provided value.
    pub fn head_yaw(self, head_yaw: T) -> (r: Self)
        ensures
            r.fields() == (JointArray { head_yaw: Some(head_yaw), ..self.fields() }),
    {
        let mut builder = self;
        builder.head_yaw = Some(head_yaw);
        builder
    }

    /// Set the `head_pitch` value to the provided value.
    pub fn head_pitch(self, head_pitch: T) -> (r: Self)
        ensures
            r.fields() == (JointArray { head_pitch: Some(head_pitch), ..self.fields() }),
    {
        let mut builder = self;
        builder.head_pitch = Some(head_pitch);
        builder
    }

    /// Set the `left_shoulder_pitch` value to the provided value.
    pub fn left_shoulder_pitch(self, left_shoulder_pitch: T) -> (r: Self)
        ensures
            r.fields() == (JointArray {
                left_shoulder_pitch: Some(left_shoulder_pitch),
                ..self.fields()
            }),
    {
        let mut builder = self;
        builder.left_shoulder_pitch = Some(left_shoulder_pitch);
        builder
    }

    /// Set the `left_shoulder_roll` value to the provided value.
    pub fn left_shoulder_roll(self, left_shoulder_roll: T) -> (r: Self)
        ensures
            r.fields() == (JointArray {
                left_shoulder_roll: Some(left_shoulder_roll),
                ..self.fields()
            }),
    {
        let mut builder = self;
        builder.left_shoulder_roll = Some(left_shoulder_roll);
        builder
    }

    /// Set the `left_elbow_yaw` value to the provided value.
    pub fn left_elbow_yaw(self, left_elbow_yaw: T) -> (r: Self)
        ensures
            r.fields() == (JointArray { left_elbow_yaw: Some(left_elbow_yaw), ..self.fields() }),
    {
        let mut builder = self;
        builder.left_elbow_yaw = Some(left_elbow_yaw);
        builder
    }

    /// Set the `left_elbow_roll` value to the provided value.
    pub fn left_elbow_roll(self, left_elbow_roll: T) -> (r: Self)
        ensures
            r.fields() == (JointArray { left_elbow_roll: Some(left_elbow_roll), ..self.fields() }),
    {
        let mut builder = self;
        builder.left_elbow_roll = Some(left_elbow_roll);
        builder
    }

    /// Set the `left_wrist_yaw` value to the provided value.
    pub fn left_wrist_yaw(self, left_wrist_yaw: T) -> (r: Self)
        ensures
            r.fields() == (JointArray { left_wrist_yaw: Some(left_wrist_yaw), ..self.fields() }),
    {
        let mut builder = self;
        builder.left_wrist_yaw = Some(left_wrist_yaw);
        builder
    }

    /// Set the `left_hip_yaw_pitch` value to the provided value.
    pub fn left_hip_yaw_pitch(self, left_hip_yaw_pitch: T) -> (r: Self)
        ensures
            r.fields() == (JointArray {
                left_hip_yaw_pitch: Some(left_hip_yaw_pitch),
                ..self.fields()
            }),
    {
        let mut builder = self;
        builder.left_hip_yaw_pitch = Some(left_hip_yaw_pitch);
        builder
    }

    /// Set the `left_hip_roll` value to the provided value.
    pub fn left_hip_roll(self, left_hip_roll: T) -> (r: Self)
        ensures
            r.fields() == (JointArray { left_hip_roll: Some(left_hip_roll), ..self.fields() }),
    {
        let mut builder = self;
        builder.left_hip_roll = Some(left_hip_roll);
        builder
    }

    /// Set the `left_hip_pitch` value to the provided value.
    pub fn left_hip_pitch(self, left_hip_pitch: T) -> (r: Self)
        ensures
            r.fields() == (JointArray { left_hip_pitch: Some(left_hip_pitch), ..self.fields() }),
    {
        let mut builder = self;
        builder.left_hip_pitch = Some(left_hip_pitch);
        builder
    }

    /// Set the `left_knee_pitch` value to the provided value.
    pub fn left_knee_pitch(self, left_knee_pitch: T) -> (r: Self)
        ensures
            r.fields() == (JointArray { left_knee_pitch: Some(left_knee_pitch), ..self.fields() }),
    {
        let mut builder = self;
        builder.left_knee_pitch = Some(left_knee_pitch);
        builder
    }

    /// Set the `left_ankle_pitch` value to the provided value.
    pub fn left_ankle_pitch(self, left_ankle_pitch: T) -> (r: Self)
        ensures
            r.fields() == (JointArray {
                left_ankle_pitch: Some(left_ankle_pitch),
                ..self.fields()
            }),
    {
        let mut builder = self;
        builder.left_ankle_pitch = Some(left_ankle_pitch);
        builder
    }

    /// Set the `left_ankle_roll` value to the provided value.
    pub fn left_ankle_roll(self, left_ankle_roll: T) -> (r: Self)
        ensures
            r.fields() == (JointArray { left_ankle_roll: Some(left_ankle_roll), ..self.fields() }),
    {
        let mut builder = self;
        builder.left_ankle_roll = Some(left_ankle_roll);
        builder
    }

    /// Set the `right_shoulder_pitch` value to the provided value.
    pub fn right_shoulder_pitch(self, right_shoulder_pitch: T) -> (r: Self)
        ensures
            r.fields() == (JointArray {
                right_shoulder_pitch: Some(right_shoulder_pitch),
                ..self.fields()
            }),
    {
        let mut builder = self;
        builder.right_shoulder_pitch = Some(right_shoulder_pitch);
        builder
    }

    /// Set the `right_shoulder_roll` value to the provided value.
    pub fn right_shoulder_roll(self, right_shoulder_roll: T) -> (r: Self)
        ensures
            r.fields() == (JointArray {
                right_shoulder_roll: Some(right_shoulder_roll),
                ..self.fields()
            }),
    {
        let mut builder = self;
        builder.right_shoulder_roll = Some(right_shoulder_roll);
        builder
    }

    /// Set the `right_elbow_yaw` value to the provided value.
    pub fn right_elbow_yaw(self, right_elbow_yaw: T) -> (r: Self)
        ensures
            r.fields() == (JointArray { right_elbow_yaw: Some(right_elbow_yaw), ..self.fields() }),
    {
        let mut builder = self;
        builder.right_elbow_yaw = Some(right_elbow_yaw);
        builder
    }

    /// Set the `right_elbow_roll` value to the provided value.
    pub fn right_elbow_roll(self, right_elbow_roll: T) -> (r: Self)
        ensures
            r.fields() == (JointArray {
                right_elbow_roll: Some(right_elbow_roll),
                ..self.fields()
            }),
    {
        let mut builder = self;
        builder.right_elbow_roll = Some(right_elbow_roll);
        builder
    }

    /// Set the `right_wrist_yaw` value to the provided value.
    pub fn right_wrist_yaw(self, right_wrist_yaw: T) -> (r: Self)
        ensures
            r.fields() == (JointArray { right_wrist_yaw: Some(right_wrist_yaw), ..self.fields() }),
    {
        let mut builder = self;
        builder.right_wrist_yaw = Some(right_wrist_yaw);
        builder
    }

    /// Set the `right_hip_roll` value to the provided value.
    pub fn right_hip_roll(self, right_hip_roll: T) -> (r: Self)
        ensures
            r.fields() == (JointArray { right_hip_roll: Some(right_hip_roll), ..self.fields() }),
    {
        let mut builder = self;
        builder.right_hip_roll = Some(right_hip_roll);
        builder
    }

    /// Set the `right_hip_pitch` value to the provided value.
    pub fn right_hip_pitch(self, right_hip_pitch: T) -> (r: Self)
        ensures
            r.fields() == (JointArray { right_hip_pitch: Some(right_hip_pitch), ..self.fields() }),
    {
        let mut builder = self;
        builder.right_hip_pitch = Some(right_hip_pitch);
        builder
    }

    /// Set the `right_knee_pitch` value to the provided value.
    pub fn right_knee_pitch(self, right_knee_pitch: T) -> (r: Self)
        ensures
            r.fields() == (JointArray {
                right_knee_pitch: Some(right_knee_pitch),
                ..self.fields()
            }),
    {
        let mut builder = self;
        builder.right_knee_pitch = Some(right_knee_pitch);
        builder
    }

    /// Set the `right_ankle_pitch` value to the provided value.
    pub fn right_ankle_pitch(self, right_ankle_pitch: T) -> (r: Self)
        ensures
            r.fields() == (JointArray {
                right_ankle_pitch: Some(right_ankle_pitch),
                ..self.fields()
            }),
    {
        let mut builder = self;
        builder.right_ankle_pitch = Some(right_ankle_pitch);
        builder
    }

    /// Set the `right_ankle_roll` value to the provided value.
    pub fn right_ankle_roll(self, right_ankle_roll: T) -> (r: Self)
        ensures
            r.fields() == (JointArray {
                right_ankle_roll: Some(right_ankle_roll),
                ..self.fields()
            }),
    {
        let mut builder = self;
        builder.right_ankle_roll = Some(right_ankle_roll);
        builder
    }

    /// Set the `left_hand` value to the provided value.
    pub fn left_hand(self, left_hand: T) -> (r: Self)
        ensures
            r.fields() == (JointArray { left_hand: Some(left_hand), ..self.fields() }),
    {
        let mut builder = self;
        builder.left_hand = Some(left_hand);
        builder
    }

    /// Set the `right_hand` value to the provided value.
    pub fn right_hand(self, right_hand: T) -> (r: Self)
        ensures
            r.fields() == (JointArray { right_hand: Some(right_hand), ..self.fields() }),
    {
        let mut builder = self;
        builder.right_hand = Some(right_hand);
        builder
    }

    /// Use the provided values to build a new instance of [`JointArray`].
    ///
    /// Not explicitly defined fields will use their [`Default`] value.
    pub fn build(self) -> (r: JointArray<T>)
        ensures
            Self::builds(self.fields(), r),
    {
        let r = JointArray {
            head_yaw: Self::unwrap_or_default(self.head_yaw),
            head_pitch: Self::unwrap_or_default(self.head_pitch),
            left_shoulder_pitch: Self::unwrap_or_default(self.left_shoulder_pitch),
            left_shoulder_roll: Self::unwrap_or_default(self.left_shoulder_roll),
            left_elbow_yaw: Self::unwrap_or_default(self.left_elbow_yaw),
            left_elbow_roll: Self::unwrap_or_default(self.left_elbow_roll),
            left_wrist_yaw: Self::unwrap_or_default(self.left_wrist_yaw),
            left_hip_yaw_pitch: Self::unwrap_or_default(self.left_hip_yaw_pitch),
            left_hip_roll: Self::unwrap_or_default(self.left_hip_roll),
            left_hip_pitch: Self::unwrap_or_default(self.left_hip_pitch),
            left_knee_pitch: Self::unwrap_or_default(self.left_knee_pitch),
            left_ankle_pitch: Self::unwrap_or_default(self.left_ankle_pitch),
            left_ankle_roll: Self::unwrap_or_default(self.left_ankle_roll),
            right_shoulder_pitch: Self::unwrap_or_default(self.right_shoulder_pitch),
            right_shoulder_roll: Self::unwrap_or_default(self.right_shoulder_roll),
            right_elbow_yaw: Self::unwrap_or_default(self.right_elbow_yaw),
            right_elbow_roll: Self::unwrap_or_default(self.right_elbow_roll),
            right_wrist_yaw: Self::unwrap_or_default(self.right_wrist_yaw),
            right_hip_roll: Self::unwrap_or_default(self.right_hip_roll),
            right_hip_pitch: Self::unwrap_or_default(self.right_hip_pitch),
            right_knee_pitch: Self::unwrap_or_default(self.right_knee_pitch),
            right_ankle_pitch: Self::unwrap_or_default(self.right_ankle_pitch),
            right_ankle_roll: Self::unwrap_or_default(self.right_ankle_roll),
            left_hand: Self::unwrap_or_default(self.left_hand),
            right_hand: Self::unwrap_or_default(self.right_hand),
        };
        r
    }

    /// The value that an option holds, or a default value where it holds none.
    fn unwrap_or_default(field: Option<T>) -> (r: T)
        ensures
            Self::takes(field, r),
    {
        match field {
            Some(set) => set,
            None => T::default(),
        }
    }
}

} // verus!
