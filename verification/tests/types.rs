use nidhogg::types::{
    ArmJoints, Battery, FillExt, ForceSensitiveResistorFoot, ForceSensitiveResistors, Fsr,
    FsrFoot, HeadJoints, JointArray, LeftArmJoints, LeftEar, LeftEye, LeftLegJoints, LegJoints,
    Rgb, RgbU8, RightArmJoints, RightEar, RightEye, RightLegJoints, SingleArmJoints, Skull,
    SonarEnabled, SonarValues, Touch, Vector2, Vector3,
};

#[test]
fn types_test_average_force_feet() {
    let foot1 = ForceSensitiveResistorFoot {
        front_left: 0.0,
        front_right: 1.0,
        rear_left: 0.32,
        rear_right: 0.76,
    };
    let foot2 = ForceSensitiveResistorFoot {
        front_left: 0.54,
        front_right: 1.0,
        rear_left: 0.32,
        rear_right: 0.95,
    };
    let feet = ForceSensitiveResistors::<f32> {
        left_foot: foot1,
        right_foot: foot2,
    };
    assert_eq!(feet.avg(), 0.61125);
}

#[test]
fn types_test_average_weight_foot() {
    let foot = ForceSensitiveResistorFoot::<f32> {
        front_left: 0.0,
        front_right: 1.0,
        rear_left: 0.32,
        rear_right: 0.76,
    };
    assert_eq!(foot.avg(), 0.52);
}

#[test]
fn mod_test_average_force_feet() {
    let foot1 = FsrFoot {
        front_left: 0.0,
        front_right: 1.0,
        rear_left: 0.32,
        rear_right: 0.76,
    };
    let foot2 = FsrFoot {
        front_left: 0.54,
        front_right: 1.0,
        rear_left: 0.32,
        rear_right: 0.95,
    };
    let feet = Fsr::<f32> {
        left_foot: foot1,
        right_foot: foot2,
    };
    assert_eq!(feet.avg(), 0.61125);
}

#[test]
fn mod_test_average_weight_foot() {
    let foot = FsrFoot::<f32> {
        front_left: 0.0,
        front_right: 1.0,
        rear_left: 0.32,
        rear_right: 0.76,
    };
    assert_eq!(foot.avg(), 0.52);
}

#[test]
fn types_test_color_new_u8() {
    let color = Rgb::<f32>::new_u8(255, 255, 255);
    assert_eq!(color.red, 1.0);
    assert_eq!(color.green, 1.0);
    assert_eq!(color.blue, 1.0);
}

#[test]
fn types_test_color_new_int() {
    let color = Rgb::<f32>::new_u32(0xFFFFFF);
    assert_eq!(color.red, 1.0);
    assert_eq!(color.green, 1.0);
    assert_eq!(color.blue, 1.0);
}

#[test]
fn color_of_8_bit_channels_is_their_share_of_255() {
    let color = Rgb::<f32>::new_u8(0, 51, 255);
    assert_eq!(color, Rgb::new(0.0, 0.2, 1.0));
    assert_eq!(Rgb::<f64>::new_u32(0x00ff33), Rgb::new(0.0, 1.0, 0.2));
    assert_eq!(Rgb::<u8>::new_u8(255, 0, 255), Rgb::new(1, 0, 1));
}

#[test]
fn color_from_an_integer_takes_the_low_24_bits() {
    assert_eq!(RgbU8::from(0x010203), Rgb::new(1, 2, 3));
    assert_eq!(RgbU8::from(0xff8040), Rgb::new(255, 128, 64));
    assert_eq!(RgbU8::from(0xab000000), Rgb::new(0, 0, 0));
    assert_eq!(RgbU8::from(0), Rgb::new(0, 0, 0));
    assert_eq!(RgbU8::from(u32::MAX), Rgb::new(255, 255, 255));
}

#[test]
fn color_and_array_convert_into_each_other() {
    let array: [u8; 3] = Rgb::new(1, 2, 3).into();
    assert_eq!(array, [1, 2, 3]);
    assert_eq!(Rgb::from([4.5, 5.5, 6.5]), Rgb::new(4.5, 5.5, 6.5));
}

#[test]
fn sonars_are_enabled_by_default() {
    assert_eq!(
        SonarEnabled::default(),
        SonarEnabled {
            left: true,
            right: true
        }
    );
}

#[test]
fn defaults_hold_the_default_of_each_value() {
    assert_eq!(JointArray::<f32>::default(), JointArray::fill(0.0));
    assert_eq!(JointArray::<bool>::default(), JointArray::fill(false));
    assert_eq!(Skull::<f32>::default(), Skull::fill(0.0));
    assert_eq!(LeftEar::<f32>::default(), LeftEar::fill(0.0));
    assert_eq!(RightEar::<f32>::default(), RightEar::fill(0.0));
    assert_eq!(LeftEye::<f32>::default(), LeftEye::fill(Rgb::new(0.0, 0.0, 0.0)));
    assert_eq!(RightEye::<u8>::default(), RightEye::fill(Rgb::new(0, 0, 0)));
    assert_eq!(FsrFoot::<f32>::default(), FsrFoot::fill(0.0));
    assert_eq!(
        Fsr::<i32>::default(),
        Fsr {
            left_foot: FsrFoot::fill(0),
            right_foot: FsrFoot::fill(0)
        }
    );
    assert_eq!(HeadJoints::<i32>::default(), HeadJoints::fill(0));
    assert_eq!(LegJoints::<i32>::default(), LegJoints::fill(0));
    assert_eq!(ArmJoints::<i32>::default(), ArmJoints::fill(0));
    assert_eq!(Vector2::<f32>::default(), Vector2::fill(0.0));
    assert_eq!(Vector3::<i8>::default(), Vector3::fill(0));
    assert_eq!(Rgb::<u8>::default(), Rgb::new(0, 0, 0));
    assert_eq!(
        Battery::<f32>::default(),
        Battery {
            charge: 0.0,
            current: 0.0,
            status: 0.0,
            temperature: 0.0
        }
    );
    assert_eq!(
        SonarValues::<f32>::default(),
        SonarValues {
            left: 0.0,
            right: 0.0
        }
    );
    assert_eq!(Touch::<f32>::default().right_hand_right, 0.0);
}

#[test]
fn fill_puts_the_value_into_every_field() {
    let skull = Skull::fill(0.5);
    assert_eq!(
        skull,
        Skull {
            left_front_0: 0.5,
            left_front_1: 0.5,
            left_middle_0: 0.5,
            left_rear_0: 0.5,
            left_rear_1: 0.5,
            left_rear_2: 0.5,
            right_front_0: 0.5,
            right_front_1: 0.5,
            right_middle_0: 0.5,
            right_rear_0: 0.5,
            right_rear_1: 0.5,
            right_rear_2: 0.5,
        }
    );
    let ear = RightEar::fill(7u8);
    assert_eq!(ear.intensity_0_deg, 7);
    assert_eq!(ear.intensity_180_deg, 7);
    assert_eq!(ear.intensity_324_deg, 7);
    let eye = RightEye::fill(Rgb::new(1, 2, 3));
    assert_eq!(eye.color_315_deg, Rgb::new(1, 2, 3));
    assert_eq!(eye.color_0_deg, Rgb::new(1, 2, 3));
    assert_eq!(
        LeftLegJoints::fill('x'),
        LeftLegJoints {
            hip_yaw_pitch: 'x',
            hip_roll: 'x',
            hip_pitch: 'x',
            knee_pitch: 'x',
            ankle_pitch: 'x',
            ankle_roll: 'x'
        }
    );
    assert_eq!(
        RightLegJoints::fill(2),
        RightLegJoints {
            hip_roll: 2,
            hip_pitch: 2,
            knee_pitch: 2,
            ankle_pitch: 2,
            ankle_roll: 2
        }
    );
    assert_eq!(
        SingleArmJoints::fill(3),
        SingleArmJoints {
            shoulder_pitch: 3,
            shoulder_roll: 3,
            elbow_yaw: 3,
            elbow_roll: 3,
            wrist_yaw: 3,
            hand: 3
        }
    );
    assert_eq!(HeadJoints::fill(4), HeadJoints { yaw: 4, pitch: 4 });
    assert_eq!(
        ArmJoints::fill(5),
        ArmJoints {
            left_arm: LeftArmJoints::fill(5),
            right_arm: RightArmJoints::fill(5)
        }
    );
    assert_eq!(
        LegJoints::fill(6),
        LegJoints {
            left_leg: LeftLegJoints::fill(6),
            right_leg: RightLegJoints::fill(6)
        }
    );
    let joints = JointArray::fill(9);
    assert!(joints.to_vec().iter().all(|&value| value == 9));
}

#[test]
fn leg_joints_map_and_zip_go_field_by_field() {
    let left = LeftLegJoints {
        hip_yaw_pitch: 1,
        hip_roll: 2,
        hip_pitch: 3,
        knee_pitch: 4,
        ankle_pitch: 5,
        ankle_roll: 6,
    };
    let right = RightLegJoints {
        hip_roll: 7,
        hip_pitch: 8,
        knee_pitch: 9,
        ankle_pitch: 10,
        ankle_roll: 11,
    };
    let mut seen = Vec::new();
    let mut double = |value: i32| {
        seen.push(value);
        value * 2
    };
    let doubled = left.clone().map(&mut double);
    assert_eq!(
        doubled,
        LeftLegJoints {
            hip_yaw_pitch: 2,
            hip_roll: 4,
            hip_pitch: 6,
            knee_pitch: 8,
            ankle_pitch: 10,
            ankle_roll: 12
        }
    );
    assert_eq!(seen, vec![1, 2, 3, 4, 5, 6]);

    let legs = LegJoints {
        left_leg: left.clone(),
        right_leg: right.clone(),
    };
    let mut seen = Vec::new();
    let negated = legs.clone().map(|value: i32| {
        seen.push(value);
        -value
    });
    assert_eq!(seen, vec![1, 2, 3, 4, 5, 6, 7, 8, 9, 10, 11]);
    assert_eq!(negated.left_leg.hip_yaw_pitch, -1);
    assert_eq!(negated.right_leg.ankle_roll, -11);

    let zipped = legs.zip(negated);
    assert_eq!(zipped.left_leg.knee_pitch, (4, -4));
    assert_eq!(zipped.right_leg.hip_roll, (7, -7));
    assert_eq!(
        right.clone().zip(right.map(&mut |value: i32| value as f32)),
        RightLegJoints {
            hip_roll: (7, 7.0),
            hip_pitch: (8, 8.0),
            knee_pitch: (9, 9.0),
            ankle_pitch: (10, 10.0),
            ankle_roll: (11, 11.0)
        }
    );
    assert_eq!(
        left.clone().zip(left),
        LeftLegJoints {
            hip_yaw_pitch: (1, 1),
            hip_roll: (2, 2),
            hip_pitch: (3, 3),
            knee_pitch: (4, 4),
            ankle_pitch: (5, 5),
            ankle_roll: (6, 6)
        }
    );
}

#[test]
fn foot_pressures_add_the_sensors_of_a_side() {
    let foot = FsrFoot {
        front_left: 1,
        front_right: 20,
        rear_left: 300,
        rear_right: 4000,
    };
    assert_eq!(foot.sum(), 4321);
    assert_eq!(foot.forward_pressure(), 21);
    assert_eq!(foot.backward_pressure(), 4300);
    assert_eq!(foot.left_pressure(), 301);
    assert_eq!(foot.right_pressure(), 4020);

    let weights = FsrFoot {
        front_left: 2,
        front_right: 3,
        rear_left: 4,
        rear_right: 5,
    };
    assert_eq!(foot.weighted_sum(&weights), 2 + 60 + 1200 + 20000);

    let feet = Fsr {
        left_foot: foot.clone(),
        right_foot: weights.clone(),
    };
    assert_eq!(feet.sum(), 4321 + 14);
    assert_eq!(
        feet.weighted_sum(&Fsr {
            left_foot: weights,
            right_foot: FsrFoot::fill(10)
        }),
        21262 + 140
    );
    assert_eq!(FsrFoot::fill(6u8).avg(), 6);
}

#[test]
fn foot_arithmetic_goes_sensor_by_sensor() {
    let a = FsrFoot {
        front_left: 8.0,
        front_right: 6.0,
        rear_left: 4.0,
        rear_right: 2.0,
    };
    let b = FsrFoot {
        front_left: 2.0,
        front_right: 3.0,
        rear_left: 4.0,
        rear_right: 0.5,
    };
    assert_eq!(
        a.clone() + b.clone(),
        FsrFoot {
            front_left: 10.0,
            front_right: 9.0,
            rear_left: 8.0,
            rear_right: 2.5
        }
    );
    assert_eq!(
        a.clone() - b.clone(),
        FsrFoot {
            front_left: 6.0,
            front_right: 3.0,
            rear_left: 0.0,
            rear_right: 1.5
        }
    );
    assert_eq!(
        a.clone() * b.clone(),
        FsrFoot {
            front_left: 16.0,
            front_right: 18.0,
            rear_left: 16.0,
            rear_right: 1.0
        }
    );
    assert_eq!(
        a.clone() / b.clone(),
        FsrFoot {
            front_left: 4.0,
            front_right: 2.0,
            rear_left: 1.0,
            rear_right: 4.0
        }
    );
    assert_eq!(
        -a.clone(),
        FsrFoot {
            front_left: -8.0,
            front_right: -6.0,
            rear_left: -4.0,
            rear_right: -2.0
        }
    );

    let feet = Fsr {
        left_foot: a.clone(),
        right_foot: b.clone(),
    };
    let swapped = Fsr {
        left_foot: b.clone(),
        right_foot: a.clone(),
    };
    assert_eq!(
        feet.clone() + swapped.clone(),
        Fsr {
            left_foot: a.clone() + b.clone(),
            right_foot: b.clone() + a.clone()
        }
    );
    assert_eq!(
        feet.clone() - swapped.clone(),
        Fsr {
            left_foot: a.clone() - b.clone(),
            right_foot: b.clone() - a.clone()
        }
    );
    assert_eq!(
        feet.clone() * swapped.clone(),
        Fsr {
            left_foot: a.clone() * b.clone(),
            right_foot: b.clone() * a.clone()
        }
    );
    assert_eq!(
        feet.clone() / swapped,
        Fsr {
            left_foot: a.clone() / b.clone(),
            right_foot: b.clone() / a.clone()
        }
    );
    assert_eq!(
        -feet,
        Fsr {
            left_foot: -a,
            right_foot: -b
        }
    );
}
