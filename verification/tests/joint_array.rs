use nidhogg::types::joint_array::JOINT_WIRE_ORDER;
use nidhogg::types::{
    FillExt, HeadJoints, JointArray, LeftArmJoints, LeftLegJoints, RightArmJoints, RightLegJoints,
};

#[test]
fn test_joint_array() {
    let t1 = JointArray::builder()
        .left_arm_joints(LeftArmJoints::fill(1))
        .left_leg_joints(LeftLegJoints::fill(2))
        .right_arm_joints(RightArmJoints::fill(3))
        .right_leg_joints(RightLegJoints::fill(4))
        .head_joints(HeadJoints::fill(5))
        .build();

    let t2: Vec<i32> = vec![
        5, 5, 1, 1, 1, 1, 1, 2, 2, 2, 2, 2, 2, 3, 3, 3, 3, 3, 4, 4, 4, 4, 4, 1, 3,
    ];

    for (i, elem) in t1.iter().enumerate() {
        println!("elems {} {}", i, elem);
        assert_eq!(*elem, t2[i])
    }

    let _: JointArray<i32> = JointArray::from_iter(t2.into_iter());
    let _: JointArray<i32> = JointArray::from_iter(t1.iter().map(|x| x + 1));
}

#[test]
fn test_joint_array_map() {
    let t1 = JointArray::fill(1);
    let t2 = t1.map(|elem| elem + 1);
    assert_eq!(t2.head_pitch, 2);
    assert_eq!(t2.left_elbow_yaw, 2);
}

#[test]
fn test_joint_array_zip() {
    let t1 = JointArray::fill(1);
    let t2 = JointArray::fill(2);

    let t3 = t1.zip(t2);
    assert_eq!(t3.head_pitch, (1, 2));
    assert_eq!(t3.left_elbow_yaw, (1, 2));
}

#[test]
fn test_get() {
    let joints = JointArray::<i32>::fill(5);

    // Test valid indices
    assert_eq!(*joints.get(0).unwrap(), 5); // head_yaw
    assert_eq!(*joints.get(7).unwrap(), 5); // left_hip_yaw_pitch
    assert_eq!(*joints.get(24).unwrap(), 5); // right_hand

    assert_eq!(*joints.get(0).unwrap(), 5); // First element
    assert_eq!(*joints.get(24).unwrap(), 5); // Last element
    assert!(joints.get(25).is_none()); // Out of bounds
    assert!(joints.get(100).is_none()); // Far out of bounds
}

#[test]
fn test_get_mut() {
    let mut joints = JointArray::<i32>::fill(5);

    if let Some(value) = joints.get_mut(0) {
        *value = 10;
    }
    assert_eq!(joints.head_yaw, 10);
    if let Some(value) = joints.get_mut(13) {
        *value = 20;
    }

    assert_eq!(joints.right_hip_roll, 20);
    assert!(joints.get_mut(25).is_none());
}

#[test]
fn test_as_array() {
    let joints = JointArray::<i32>::fill(3);
    let array = joints.as_array();

    assert_eq!(array.len(), 25);
    assert!(array.iter().all(|&v| v == 3));
}

#[test]
fn test_to_vec() {
    let custom_joints = JointArray::<i32> {
        head_yaw: 10,
        left_hand: 20,
        right_knee_pitch: 30,
        ..Default::default()
    };
    let vec = custom_joints.to_vec();

    assert_eq!(vec[0], 10); // head_yaw
    assert_eq!(vec[23], 20); // left_hand
    assert_eq!(vec[20], 30); // right_knee_pitch
}

#[test]
fn test_try_from_slice_too_long() {
    let long_slice = [3; 26];
    let long_result = JointArray::<i32>::try_from(&long_slice[..]);
    assert!(long_result.is_err());
    assert_eq!(
        long_result.unwrap_err(),
        "Slice must contain exactly 25 elements to convert to JointArray"
    );
}

#[test]
fn test_try_from_slice_custom_values() {
    // Test with custom values
    let custom_slice = [
        10, 11, 12, 13, 14, 15, 16, 17, 18, 19, 20, 21, 22, 23, 24, 25, 26, 27, 28, 29, 30, 31,
        32, 33, 34,
    ];
    let custom_result = JointArray::<i32>::try_from(&custom_slice[..]);
    assert!(custom_result.is_ok());
    let custom_joints = custom_result.unwrap();

    assert_eq!(custom_joints.head_yaw, 10);
    assert_eq!(custom_joints.head_pitch, 11);
    assert_eq!(custom_joints.left_shoulder_pitch, 12);
    assert_eq!(custom_joints.right_hand, 34);
}

#[test]
fn test_get_specific_joints() {
    let joints = JointArray::<i32> {
        head_yaw: 1,
        head_pitch: 2,
        left_shoulder_pitch: 3,
        left_hand: 4,
        right_hand: 5,
        ..Default::default()
    };

    assert_eq!(*joints.get(0).unwrap(), 1); // head_yaw
    assert_eq!(*joints.get(1).unwrap(), 2); // head_pitch
    assert_eq!(*joints.get(2).unwrap(), 3); // left_shoulder_pitch
    assert_eq!(*joints.get(23).unwrap(), 4); // left_hand
    assert_eq!(*joints.get(24).unwrap(), 5); // right_hand
}

#[test]
fn test_to_vec_and_try_from_roundtrip() {
    let original = JointArray::<i32> {
        head_yaw: 42,
        left_knee_pitch: 100,
        right_hand: 200,
        ..Default::default()
    };

    let vec = original.clone().to_vec();
    let reconstructed = JointArray::<i32>::try_from(&vec[..]).unwrap();

    // Verify the reconstructed array matches the original
    assert_eq!(reconstructed.head_yaw, 42);
    assert_eq!(reconstructed.left_knee_pitch, 100);
    assert_eq!(reconstructed.right_hand, 200);

    // Verify all fields are equal
    for i in 0..25 {
        assert_eq!(original.get(i), reconstructed.get(i));
    }
}

fn numbered() -> JointArray<i32> {
    JointArray {
        head_yaw: 0,
        head_pitch: 1,
        left_shoulder_pitch: 2,
        left_shoulder_roll: 3,
        left_elbow_yaw: 4,
        left_elbow_roll: 5,
        left_wrist_yaw: 6,
        left_hip_yaw_pitch: 7,
        left_hip_roll: 8,
        left_hip_pitch: 9,
        left_knee_pitch: 10,
        left_ankle_pitch: 11,
        left_ankle_roll: 12,
        right_shoulder_pitch: 13,
        right_shoulder_roll: 14,
        right_elbow_yaw: 15,
        right_elbow_roll: 16,
        right_wrist_yaw: 17,
        right_hip_roll: 18,
        right_hip_pitch: 19,
        right_knee_pitch: 20,
        right_ankle_pitch: 21,
        right_ankle_roll: 22,
        left_hand: 23,
        right_hand: 24,
    }
}

#[test]
fn index_is_the_canonical_position() {
    let joints = JointArray::<i32> {
        right_hip_roll: 1,
        right_shoulder_pitch: 2,
        ..Default::default()
    };
    assert_eq!(joints.get(13), Some(&1));
    assert_eq!(joints.get(18), Some(&2));

    // every joint holds the number of its field
    let joints = numbered();
    let canonical = [
        0, 1, 2, 3, 4, 5, 6, 7, 8, 9, 10, 11, 12, 18, 19, 20, 21, 22, 13, 14, 15, 16, 17, 23, 24,
    ];
    for p in 0..25 {
        assert_eq!(joints.get(p), Some(&canonical[p]));
        assert_eq!(canonical[p] as usize, JOINT_WIRE_ORDER[p]);
    }
    assert_eq!(joints.get(25), None);
    assert_eq!(joints.get(usize::MAX), None);
    assert_eq!(joints.clone().as_array(), canonical);
    assert_eq!(joints.as_array_ref().map(|value| *value), canonical);
}

#[test]
fn arrays_hold_the_joints_in_the_order_of_get() {
    let mut joints = numbered();
    let array = joints.clone().as_array();
    let refs = joints.as_array_ref().map(|value| *value);
    for p in 0..25 {
        assert_eq!(Some(&array[p]), joints.get(p));
        assert_eq!(Some(&refs[p]), joints.get(p));
    }
    for (p, joint) in joints.as_array_mut().into_iter().enumerate() {
        *joint = 100 + p as i32;
    }
    for p in 0..25 {
        assert_eq!(joints.get(p), Some(&(100 + p as i32)));
    }
    assert_eq!(joints.right_hip_roll, 113);
    assert_eq!(joints.right_shoulder_pitch, 118);
}

#[test]
fn vectors_hold_the_joints_in_the_order_of_the_fields() {
    let joints = numbered();
    assert_eq!(joints.clone().to_vec(), (0..25).collect::<Vec<i32>>());
    let vec = joints.clone().to_vec();
    for p in 0..25 {
        assert_eq!(Some(&vec[JOINT_WIRE_ORDER[p]]), joints.get(p));
    }
}

#[test]
fn groups_round_trip() {
    let joints = numbered();
    let rebuilt = JointArray::builder()
        .head_joints(joints.head_joints())
        .left_arm_joints(joints.left_arm_joints())
        .right_arm_joints(joints.right_arm_joints())
        .left_leg_joints(joints.left_leg_joints())
        .right_leg_joints(joints.right_leg_joints())
        .build();
    assert_eq!(rebuilt, joints);

    let rebuilt = JointArray::fill(-1)
        .map(|_| 99)
        .zip(joints.clone())
        .map(|(_, joint)| joint);
    assert_eq!(rebuilt, joints);

    let rebuilt = JointArray::builder()
        .joints(JointArray::fill(77))
        .arm_joints(joints.arm_joints())
        .leg_joints(joints.leg_joints())
        .head_joints(joints.head_joints())
        .build();
    assert_eq!(rebuilt, joints);
}

#[test]
fn groups_hold_the_joints_of_their_limb() {
    let joints = numbered();
    assert_eq!(joints.head_joints(), HeadJoints { yaw: 0, pitch: 1 });
    assert_eq!(
        joints.left_arm_joints(),
        LeftArmJoints {
            shoulder_pitch: 2,
            shoulder_roll: 3,
            elbow_yaw: 4,
            elbow_roll: 5,
            wrist_yaw: 6,
            hand: 23
        }
    );
    assert_eq!(
        joints.left_leg_joints(),
        LeftLegJoints {
            hip_yaw_pitch: 7,
            hip_roll: 8,
            hip_pitch: 9,
            knee_pitch: 10,
            ankle_pitch: 11,
            ankle_roll: 12
        }
    );
    assert_eq!(
        joints.right_arm_joints(),
        RightArmJoints {
            shoulder_pitch: 13,
            shoulder_roll: 14,
            elbow_yaw: 15,
            elbow_roll: 16,
            wrist_yaw: 17,
            hand: 24
        }
    );
    assert_eq!(
        joints.right_leg_joints(),
        RightLegJoints {
            hip_roll: 18,
            hip_pitch: 19,
            knee_pitch: 20,
            ankle_pitch: 21,
            ankle_roll: 22
        }
    );
    assert_eq!(joints.leg_joints().left_leg, joints.left_leg_joints());
    assert_eq!(joints.leg_joints().right_leg, joints.right_leg_joints());
    assert_eq!(joints.arm_joints().left_arm, joints.left_arm_joints());
    assert_eq!(joints.arm_joints().right_arm, joints.right_arm_joints());
}

#[test]
fn builder_sets_joints_one_by_one_and_defaults_the_rest() {
    let joints = JointArray::<i32>::builder()
        .head_yaw(1)
        .right_hand(2)
        .left_knee_pitch(3)
        .head_yaw(4)
        .build();
    assert_eq!(
        joints,
        JointArray {
            head_yaw: 4,
            right_hand: 2,
            left_knee_pitch: 3,
            ..Default::default()
        }
    );
    assert_eq!(JointArray::<u8>::builder().build(), JointArray::fill(0));

    let all = JointArray::<i32>::builder()
        .head_yaw(0)
        .head_pitch(1)
        .left_shoulder_pitch(2)
        .left_shoulder_roll(3)
        .left_elbow_yaw(4)
        .left_elbow_roll(5)
        .left_wrist_yaw(6)
        .left_hip_yaw_pitch(7)
        .left_hip_roll(8)
        .left_hip_pitch(9)
        .left_knee_pitch(10)
        .left_ankle_pitch(11)
        .left_ankle_roll(12)
        .right_shoulder_pitch(13)
        .right_shoulder_roll(14)
        .right_elbow_yaw(15)
        .right_elbow_roll(16)
        .right_wrist_yaw(17)
        .right_hip_roll(18)
        .right_hip_pitch(19)
        .right_knee_pitch(20)
        .right_ankle_pitch(21)
        .right_ankle_roll(22)
        .left_hand(23)
        .right_hand(24)
        .build();
    assert_eq!(all, numbered());
    assert_eq!(
        JointArray::builder().joints(numbered()).build(),
        numbered()
    );
}

#[test]
fn all_and_any_ask_every_joint() {
    let mut t1: JointArray<i32> = JointArray::default();
    assert_eq!(t1.clone().all(|elem| elem > -1), true);
    assert_eq!(t1.clone().any(|elem| elem > 2), false);

    t1.right_hand = -2;
    assert_eq!(t1.clone().all(|elem| elem > -1), false);
    t1.head_pitch = 3;
    assert_eq!(t1.clone().any(|elem| elem > 2), true);

    let mut asked = 0;
    assert!(t1.clone().any(|elem| {
        asked += 1;
        elem == 0
    }));
    assert_eq!(asked, 25);
    let mut asked = 0;
    assert!(!t1.all(|elem| {
        asked += 1;
        elem == 0
    }));
    assert_eq!(asked, 25);
}

#[test]
fn map_visits_the_joints_in_the_order_of_their_index() {
    let mut seen = Vec::new();
    let doubled = numbered().map(|joint| {
        seen.push(joint);
        joint * 2
    });
    assert_eq!(seen, (0..25).collect::<Vec<i32>>());
    assert_eq!(doubled.right_hip_roll, 36);
    assert_eq!(doubled.to_vec(), (0..25).map(|i| 2 * i).collect::<Vec<i32>>());
}

#[test]
fn references_reach_the_joints() {
    let mut joints = JointArray::<i32>::default();
    {
        let refs = joints.as_mut();
        *refs.head_yaw = 42;
        *refs.left_hand = 17;
    }
    assert_eq!(joints.head_yaw, 42);
    assert_eq!(joints.left_hand, 17);

    for (slot, joint) in joints.as_mut().into_iter().enumerate() {
        *joint = slot as i32;
    }
    assert_eq!(joints, numbered());

    let refs = joints.as_ref();
    assert_eq!(*refs.head_yaw, 0);
    assert_eq!(*refs.right_wrist_yaw, 17);
    let from: JointArray<&i32> = JointArray::from(&joints);
    assert_eq!(from, refs);

    {
        let from: JointArray<&mut i32> = JointArray::from(&mut joints);
        *from.right_knee_pitch = -20;
        *from.head_pitch = -1;
    }
    assert_eq!(joints.right_knee_pitch, -20);
    assert_eq!(joints.head_pitch, -1);
    joints.right_knee_pitch = 20;
    joints.head_pitch = 1;

    *joints.get_mut(24).unwrap() = -24;
    assert_eq!(joints.right_hand, -24);
    assert_eq!(joints.left_hand, 23);
}

#[test]
fn iterators_hand_out_the_joints_in_the_order_of_their_index() {
    let joints = numbered();
    let mut iter = joints.iter();
    for i in 0..25 {
        assert_eq!(iter.next(), Some(&i));
    }
    assert_eq!(iter.next(), None);
    assert_eq!(iter.next(), None);

    assert_eq!(joints.iter().count(), 25);
    assert_eq!(
        (&joints).into_iter().copied().collect::<Vec<i32>>(),
        (0..25).collect::<Vec<i32>>()
    );
    assert_eq!(
        joints.clone().into_iter().collect::<Vec<i32>>(),
        (0..25).collect::<Vec<i32>>()
    );
    let mut sum = 0;
    for joint in &joints {
        sum += joint;
    }
    assert_eq!(sum, 300);
}

#[test]
fn from_iter_takes_the_first_25_items() {
    assert_eq!(JointArray::from_iter(0..25), numbered());
    assert_eq!(JointArray::from_iter(0..100), numbered());
    assert_eq!(JointArray::from_iter(std::iter::repeat(3)), JointArray::fill(3));
}

#[test]
fn try_from_refuses_every_other_length() {
    let values: Vec<i32> = (0..30).collect();
    for len in 0..30 {
        let result = JointArray::<i32>::try_from(&values[..len]);
        if len == 25 {
            assert_eq!(result, Ok(numbered()));
        } else {
            assert_eq!(
                result,
                Err("Slice must contain exactly 25 elements to convert to JointArray")
            );
        }
    }
}

#[test]
fn values_that_are_not_copy_are_cloned() {
    let joints = JointArray::fill(String::from("stiff"));
    assert_eq!(joints.right_hand, "stiff");
    assert_eq!(joints.get(13).map(String::as_str), Some("stiff"));

    let mut joints = joints;
    joints.left_knee_pitch = String::from("bent");
    joints.head_yaw = String::from("left");
    assert_eq!(joints.left_leg_joints().knee_pitch, "bent");
    assert_eq!(joints.leg_joints().left_leg.knee_pitch, "bent");
    assert_eq!(
        joints.head_joints(),
        HeadJoints {
            yaw: String::from("left"),
            pitch: String::from("stiff")
        }
    );
    assert_eq!(joints.arm_joints().right_arm, RightArmJoints::fill(String::from("stiff")));

    let values = joints.clone().to_vec();
    assert_eq!(JointArray::try_from(&values[..]), Ok(joints));
    assert_eq!(LeftLegJoints::fill(vec![1, 2]).ankle_roll, vec![1, 2]);
}
