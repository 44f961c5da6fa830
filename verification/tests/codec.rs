use nidhogg::backend::lola::{
    FromLoLA, FromNidhogg, IntoLoLA, IntoNidhogg, JOINT_WIRE_ORDER, LEFT_EAR_WIRE_ORDER,
    LEFT_EYE_WIRE_ORDER, RIGHT_EAR_WIRE_ORDER, RIGHT_EYE_WIRE_ORDER, SKULL_WIRE_ORDER,
};
use nidhogg::backend::{LolaControlMsg, LolaNaoState};
use nidhogg::types::{
    Battery, FillExt, ForceSensitiveResistorFoot, ForceSensitiveResistors, JointArray, LeftEar,
    LeftEye, Rgb, RightEar, RightEye, Skull, SonarEnabled, SonarValues, Touch, Vector2, Vector3,
};
use nidhogg::{HardwareInfo, NaoControlMessage, NaoState};

fn numbered<const N: usize>(from: f32) -> [f32; N] {
    let mut wire = [0.0; N];
    for (i, slot) in wire.iter_mut().enumerate() {
        *slot = from + i as f32;
    }
    wire
}

#[test]
fn joint_order_puts_the_right_hand_last() {
    let joints = JointArray::<f32> {
        right_hand: 42.0,
        ..Default::default()
    };
    let wire: [f32; 25] = joints.into_lola();
    assert_eq!(wire[24], 42.0);
    for slot in &wire[..24] {
        assert_eq!(*slot, 0.0);
    }
}

#[test]
fn joint_wire_order_is_the_order_of_the_controller() {
    let joints = JointArray::<&str> {
        head_yaw: "head_yaw",
        head_pitch: "head_pitch",
        left_shoulder_pitch: "left_shoulder_pitch",
        left_shoulder_roll: "left_shoulder_roll",
        left_elbow_yaw: "left_elbow_yaw",
        left_elbow_roll: "left_elbow_roll",
        left_wrist_yaw: "left_wrist_yaw",
        left_hip_yaw_pitch: "left_hip_yaw_pitch",
        left_hip_roll: "left_hip_roll",
        left_hip_pitch: "left_hip_pitch",
        left_knee_pitch: "left_knee_pitch",
        left_ankle_pitch: "left_ankle_pitch",
        left_ankle_roll: "left_ankle_roll",
        right_shoulder_pitch: "right_shoulder_pitch",
        right_shoulder_roll: "right_shoulder_roll",
        right_elbow_yaw: "right_elbow_yaw",
        right_elbow_roll: "right_elbow_roll",
        right_wrist_yaw: "right_wrist_yaw",
        right_hip_roll: "right_hip_roll",
        right_hip_pitch: "right_hip_pitch",
        right_knee_pitch: "right_knee_pitch",
        right_ankle_pitch: "right_ankle_pitch",
        right_ankle_roll: "right_ankle_roll",
        left_hand: "left_hand",
        right_hand: "right_hand",
    };
    let wire = <[&str; 25]>::from_nidhogg(joints.clone());
    assert_eq!(
        wire,
        [
            "head_yaw",
            "head_pitch",
            "left_shoulder_pitch",
            "left_shoulder_roll",
            "left_elbow_yaw",
            "left_elbow_roll",
            "left_wrist_yaw",
            "left_hip_yaw_pitch",
            "left_hip_roll",
            "left_hip_pitch",
            "left_knee_pitch",
            "left_ankle_pitch",
            "left_ankle_roll",
            "right_hip_roll",
            "right_hip_pitch",
            "right_knee_pitch",
            "right_ankle_pitch",
            "right_ankle_roll",
            "right_shoulder_pitch",
            "right_shoulder_roll",
            "right_elbow_yaw",
            "right_elbow_roll",
            "right_wrist_yaw",
            "left_hand",
            "right_hand",
        ]
    );
    assert_eq!(JointArray::from_lola(wire), joints);
}

#[test]
fn joint_wire_position_is_the_index_of_get() {
    let wire: [i32; 25] = core::array::from_fn(|i| i as i32);
    let joints = JointArray::from_lola(wire);
    assert_eq!(joints.right_hip_roll, 13);
    assert_eq!(joints.right_shoulder_pitch, 18);
    assert_eq!(joints.left_hip_yaw_pitch, 7);
    for p in 0..25 {
        assert_eq!(joints.get(p), Some(&wire[p]));
    }
    assert_eq!(joints.clone().as_array(), wire);
    assert_eq!(<[i32; 25]>::from_nidhogg(joints.clone()), joints.as_array());
}

#[test]
fn left_ear_is_wired_in_the_order_of_its_angles() {
    let ear = LeftEar::<f32> {
        intensity_108_deg: 0.7,
        ..Default::default()
    };
    let wire: [f32; 10] = ear.clone().into_lola();
    assert_eq!(wire, [0.0, 0.0, 0.0, 0.7, 0.0, 0.0, 0.0, 0.0, 0.0, 0.0]);
    assert_eq!(LeftEar::from_lola(wire), ear);
}

#[test]
fn right_ear_is_wired_the_other_way_round() {
    let ear = RightEar::<f32> {
        intensity_108_deg: 0.7,
        ..Default::default()
    };
    let wire: [f32; 10] = ear.clone().into_lola();
    assert_eq!(wire, [0.0, 0.0, 0.0, 0.0, 0.0, 0.0, 0.7, 0.0, 0.0, 0.0]);
    assert_eq!(RightEar::from_lola(wire), ear);
}

#[test]
fn ears_mirror_each_other_on_the_wire() {
    let wire: [f32; 10] = numbered(1.0);
    let right = RightEar::from_lola(wire);
    let left = LeftEar {
        intensity_0_deg: right.intensity_0_deg,
        intensity_36_deg: right.intensity_36_deg,
        intensity_72_deg: right.intensity_72_deg,
        intensity_108_deg: right.intensity_108_deg,
        intensity_144_deg: right.intensity_144_deg,
        intensity_180_deg: right.intensity_180_deg,
        intensity_216_deg: right.intensity_216_deg,
        intensity_252_deg: right.intensity_252_deg,
        intensity_288_deg: right.intensity_288_deg,
        intensity_324_deg: right.intensity_324_deg,
    };
    let right_wire = <[f32; 10]>::from_nidhogg(right);
    let left_wire = <[f32; 10]>::from_nidhogg(left);
    for i in 0..10 {
        assert_eq!(right_wire[i], left_wire[9 - i]);
    }
    assert_eq!(right_wire, wire);
}

#[test]
fn left_eye_goes_channel_by_channel_from_45_degrees() {
    let eye = LeftEye::<f32> {
        color_0_deg: Rgb::new(0.0, 0.5, 1.0),
        color_45_deg: Rgb::new(45.0, 45.5, 46.0),
        color_90_deg: Rgb::new(90.0, 90.5, 91.0),
        color_135_deg: Rgb::new(135.0, 135.5, 136.0),
        color_180_deg: Rgb::new(180.0, 180.5, 181.0),
        color_225_deg: Rgb::new(225.0, 225.5, 226.0),
        color_270_deg: Rgb::new(270.0, 270.5, 271.0),
        color_315_deg: Rgb::new(315.0, 315.5, 316.0),
    };
    let wire: [f32; 24] = eye.clone().into_lola();
    assert_eq!(
        wire,
        [
            45.0, 0.0, 315.0, 270.0, 225.0, 180.0, 135.0, 90.0, // red
            45.5, 0.5, 315.5, 270.5, 225.5, 180.5, 135.5, 90.5, // green
            46.0, 1.0, 316.0, 271.0, 226.0, 181.0, 136.0, 91.0, // blue
        ]
    );
    assert_eq!(LeftEye::from_lola(wire), eye);
}

#[test]
fn right_eye_goes_channel_by_channel_from_0_degrees() {
    let eye = RightEye::<f32> {
        color_0_deg: Rgb::new(0.0, 0.5, 1.0),
        color_45_deg: Rgb::new(45.0, 45.5, 46.0),
        color_90_deg: Rgb::new(90.0, 90.5, 91.0),
        color_135_deg: Rgb::new(135.0, 135.5, 136.0),
        color_180_deg: Rgb::new(180.0, 180.5, 181.0),
        color_225_deg: Rgb::new(225.0, 225.5, 226.0),
        color_270_deg: Rgb::new(270.0, 270.5, 271.0),
        color_315_deg: Rgb::new(315.0, 315.5, 316.0),
    };
    let wire: [f32; 24] = eye.clone().into_lola();
    assert_eq!(
        wire,
        [
            0.0, 45.0, 90.0, 135.0, 180.0, 225.0, 270.0, 315.0, // red
            0.5, 45.5, 90.5, 135.5, 180.5, 225.5, 270.5, 315.5, // green
            1.0, 46.0, 91.0, 136.0, 181.0, 226.0, 271.0, 316.0, // blue
        ]
    );
    assert_eq!(RightEye::from_lola(wire), eye);
}

#[test]
fn skull_is_wired_as_a_walk_around_the_head() {
    let skull = Skull::<&str> {
        left_front_0: "left_front_0",
        left_front_1: "left_front_1",
        left_middle_0: "left_middle_0",
        left_rear_0: "left_rear_0",
        left_rear_1: "left_rear_1",
        left_rear_2: "left_rear_2",
        right_front_0: "right_front_0",
        right_front_1: "right_front_1",
        right_middle_0: "right_middle_0",
        right_rear_0: "right_rear_0",
        right_rear_1: "right_rear_1",
        right_rear_2: "right_rear_2",
    };
    let wire: [&str; 12] = skull.clone().into_lola();
    assert_eq!(
        wire,
        [
            "left_front_0",
            "left_front_1",
            "left_middle_0",
            "left_rear_0",
            "left_rear_1",
            "left_rear_2",
            "right_rear_2",
            "right_rear_1",
            "right_rear_0",
            "right_middle_0",
            "right_front_0",
            "right_front_1",
        ]
    );
    assert_eq!(Skull::from_lola(wire), skull);
}

#[test]
fn every_wire_array_survives_the_way_to_the_model_and_back() {
    let ear: [f32; 10] = numbered(1.0);
    assert_eq!(<[f32; 10]>::from_nidhogg(LeftEar::from_lola(ear)), ear);
    assert_eq!(<[f32; 10]>::from_nidhogg(RightEar::from_lola(ear)), ear);
    let eye: [f32; 24] = numbered(1.0);
    assert_eq!(<[f32; 24]>::from_nidhogg(LeftEye::from_lola(eye)), eye);
    assert_eq!(<[f32; 24]>::from_nidhogg(RightEye::from_lola(eye)), eye);
    let skull: [f32; 12] = numbered(1.0);
    assert_eq!(<[f32; 12]>::from_nidhogg(Skull::from_lola(skull)), skull);
    let joints: [f32; 25] = numbered(1.0);
    assert_eq!(<[f32; 25]>::from_nidhogg(JointArray::from_lola(joints)), joints);
    let four: [f32; 4] = numbered(1.0);
    assert_eq!(<[f32; 4]>::from_nidhogg(Battery::from_lola(four)), four);
    assert_eq!(
        <[f32; 4]>::from_nidhogg(ForceSensitiveResistorFoot::from_lola(four)),
        four
    );
    let fsr: [f32; 8] = numbered(1.0);
    assert_eq!(
        <[f32; 8]>::from_nidhogg(ForceSensitiveResistors::from_lola(fsr)),
        fsr
    );
    let touch: [f32; 14] = numbered(1.0);
    assert_eq!(<[f32; 14]>::from_nidhogg(Touch::from_lola(touch)), touch);
    let two: [f32; 2] = numbered(1.0);
    assert_eq!(<[f32; 2]>::from_nidhogg(SonarValues::from_lola(two)), two);
    assert_eq!(<[f32; 2]>::from_nidhogg(Vector2::from_lola(two)), two);
    let three: [f32; 3] = numbered(1.0);
    assert_eq!(<[f32; 3]>::from_nidhogg(Vector3::from_lola(three)), three);
    assert_eq!(<[f32; 3]>::from_nidhogg(Rgb::from_lola(three)), three);
    assert_eq!(
        <[bool; 2]>::from_nidhogg(SonarEnabled::from_lola([true, false])),
        [true, false]
    );
}

#[test]
fn every_model_survives_the_way_to_the_wire_and_back() {
    let battery = Battery::<f32> {
        charge: 0.9,
        current: -0.3,
        status: 1.0,
        temperature: 31.5,
    };
    let wire: [f32; 4] = battery.clone().into_lola();
    assert_eq!(wire, [0.9, -0.3, 1.0, 31.5]);
    let back: Battery<f32> = wire.into_nidhogg();
    assert_eq!(back, battery);

    let sonar = SonarValues::<f32> {
        left: 0.25,
        right: 4.5,
    };
    let wire: [f32; 2] = sonar.clone().into_lola();
    assert_eq!(wire, [0.25, 4.5]);
    assert_eq!(SonarValues::from_lola(wire), sonar);

    let enabled = SonarEnabled {
        left: false,
        right: true,
    };
    let wire: [bool; 2] = enabled.clone().into_lola();
    assert_eq!(wire, [false, true]);
    assert_eq!(SonarEnabled::from_lola(wire), enabled);

    let color = Rgb::<f32>::new(1.0, 0.5, 0.25);
    let wire: [f32; 3] = color.into_lola();
    assert_eq!(wire, [1.0, 0.5, 0.25]);
    assert_eq!(Rgb::from_lola(wire), color);

    let vector = Vector3::<f32> {
        x: 0.1,
        y: 0.2,
        z: 9.81,
    };
    let wire: [f32; 3] = vector.into_lola();
    assert_eq!(wire, [0.1, 0.2, 9.81]);
    assert_eq!(Vector3::from_lola(wire), vector);

    let angles = Vector2::<f32> { x: -0.5, y: 0.5 };
    let wire: [f32; 2] = angles.into_lola();
    assert_eq!(wire, [-0.5, 0.5]);
    assert_eq!(Vector2::from_lola(wire), angles);
}

#[test]
fn control_round_trip() {
    let message = NaoControlMessage::<f32> {
        chest: Rgb::new(1.0, 0.0, 0.0),
        ..Default::default()
    };
    let raw = LolaControlMsg::from(message.clone());
    assert_eq!(raw.chest, [1.0, 0.0, 0.0]);
    assert_eq!(raw.position, [-1.0; 25]);
    assert_eq!(raw.stiffness, [0.0; 25]);
    assert_eq!(raw.sonar, [true, true]);
    assert_eq!(raw.r_ear, [0.0; 10]);
    assert_eq!(raw.l_ear, [0.0; 10]);
    assert_eq!(raw.l_eye, [0.0; 24]);
    assert_eq!(raw.r_eye, [0.0; 24]);
    assert_eq!(raw.l_foot, [0.0; 3]);
    assert_eq!(raw.r_foot, [0.0; 3]);
    assert_eq!(raw.skull, [0.0; 12]);
    assert_eq!(NaoControlMessage::from(raw), message);
}

#[test]
fn control_message_of_the_builder_leaves_unset_fields_at_their_defaults() {
    let message = NaoControlMessage::<f32>::builder()
        .chest(Rgb::new(1.0, 0.0, 1.0))
        .sonar(SonarEnabled {
            left: false,
            right: true,
        })
        .build();
    assert_eq!(message.chest, Rgb::new(1.0, 0.0, 1.0));
    assert_eq!(
        message.sonar,
        SonarEnabled {
            left: false,
            right: true
        }
    );
    assert_eq!(message.position, JointArray::fill(-1.0));
    assert_eq!(message.stiffness, JointArray::fill(0.0));
    assert_eq!(message.skull, Skull::fill(0.0));
    assert_eq!(message.left_eye, LeftEye::fill(Rgb::new(0.0, 0.0, 0.0)));
}

fn crafted_state() -> LolaNaoState<f32> {
    LolaNaoState {
        stiffness: numbered(100.0),
        position: numbered(200.0),
        temperature: numbered(300.0),
        current: numbered(400.0),
        battery: [0.83, -1.25, 2.0, 36.5],
        accelerometer: [0.1, -0.2, 9.81],
        gyroscope: [0.01, 0.02, -0.03],
        angles: [0.05, -0.06],
        sonar: [0.4, 2.5],
        f_s_r: [1.0, 2.0, 3.0, 4.0, 5.0, 6.0, 7.0, 8.0],
        touch: numbered(1.0),
        status: core::array::from_fn(|i| i as i32),
        robot_config: [
            "P0000074A05S94700012".to_string(),
            "6.0.0".to_string(),
            "P0000073A07S93U00046".to_string(),
            "6.0.0".to_string(),
        ],
    }
}

#[test]
fn state_decode() {
    let state = NaoState::from(crafted_state());

    assert_eq!(
        state.battery,
        Battery {
            charge: 0.83,
            current: -1.25,
            status: 2.0,
            temperature: 36.5
        }
    );
    assert_eq!(
        state.force_sensitive_resistors.left_foot,
        ForceSensitiveResistorFoot {
            front_left: 1.0,
            front_right: 2.0,
            rear_left: 3.0,
            rear_right: 4.0
        }
    );
    assert_eq!(
        state.force_sensitive_resistors.right_foot,
        ForceSensitiveResistorFoot {
            front_left: 5.0,
            front_right: 6.0,
            rear_left: 7.0,
            rear_right: 8.0
        }
    );
    assert_eq!(
        state.touch,
        Touch {
            chest_board: 1.0,
            head_front: 2.0,
            head_middle: 3.0,
            head_rear: 4.0,
            left_foot_left: 5.0,
            left_foot_right: 6.0,
            left_hand_back: 7.0,
            left_hand_left: 8.0,
            left_hand_right: 9.0,
            right_foot_left: 10.0,
            right_foot_right: 11.0,
            right_hand_back: 12.0,
            right_hand_left: 13.0,
            right_hand_right: 14.0,
        }
    );
    assert_eq!(
        state.accelerometer,
        Vector3 {
            x: 0.1,
            y: -0.2,
            z: 9.81
        }
    );
    assert_eq!(
        state.gyroscope,
        Vector3 {
            x: 0.01,
            y: 0.02,
            z: -0.03
        }
    );
    assert_eq!(state.angles, Vector2 { x: 0.05, y: -0.06 });
    assert_eq!(
        state.sonar,
        SonarValues {
            left: 0.4,
            right: 2.5
        }
    );
    assert_eq!(state.position.head_yaw, 200.0);
    assert_eq!(state.position.right_hip_roll, 213.0);
    assert_eq!(state.position.right_shoulder_pitch, 218.0);
    assert_eq!(state.stiffness.right_hand, 124.0);
    assert_eq!(state.temperature.left_hand, 323.0);
    assert_eq!(state.current.left_hip_yaw_pitch, 407.0);
    assert_eq!(state.status.right_ankle_roll, 17);
    assert_eq!(state.status.right_wrist_yaw, 22);
}

#[test]
fn hardware_info_is_the_robot_config_of_a_frame() {
    let info = HardwareInfo::from(crafted_state());
    assert_eq!(
        info,
        HardwareInfo {
            body_id: "P0000074A05S94700012".to_string(),
            body_version: "6.0.0".to_string(),
            head_id: "P0000073A07S93U00046".to_string(),
            head_version: "6.0.0".to_string(),
        }
    );
}

#[test]
fn wire_orders_are_the_tables() {
    let joints = JointArray::from_iter(0..25);
    let wire: [i32; 25] = joints.clone().into_lola();
    for p in 0..25 {
        assert_eq!(wire[p], joints.clone().to_vec()[JOINT_WIRE_ORDER[p]]);
        assert_eq!(Some(&wire[p]), joints.get(p));
    }
    assert_eq!(
        wire,
        [0, 1, 2, 3, 4, 5, 6, 7, 8, 9, 10, 11, 12, 18, 19, 20, 21, 22, 13, 14, 15, 16, 17, 23, 24]
    );

    // an ear that holds its angle at every LED
    let ear: [usize; 10] = LeftEar::from_lola(numbered::<10>(0.0).map(|v| v as usize)).into_lola();
    assert_eq!(ear, LEFT_EAR_WIRE_ORDER);
    let right = RightEar {
        intensity_0_deg: 0,
        intensity_36_deg: 1,
        intensity_72_deg: 2,
        intensity_108_deg: 3,
        intensity_144_deg: 4,
        intensity_180_deg: 5,
        intensity_216_deg: 6,
        intensity_252_deg: 7,
        intensity_288_deg: 8,
        intensity_324_deg: 9,
    };
    assert_eq!(<[usize; 10]>::from_nidhogg(right), RIGHT_EAR_WIRE_ORDER);

    // eyes that hold the number of their angle in every channel
    let left = LeftEye {
        color_0_deg: Rgb::new(0, 0, 0),
        color_45_deg: Rgb::new(1, 1, 1),
        color_90_deg: Rgb::new(2, 2, 2),
        color_135_deg: Rgb::new(3, 3, 3),
        color_180_deg: Rgb::new(4, 4, 4),
        color_225_deg: Rgb::new(5, 5, 5),
        color_270_deg: Rgb::new(6, 6, 6),
        color_315_deg: Rgb::new(7, 7, 7),
    };
    let wire = <[usize; 24]>::from_nidhogg(left);
    for channel in 0..3 {
        assert_eq!(wire[8 * channel..8 * channel + 8], LEFT_EYE_WIRE_ORDER);
    }
    let right = RightEye {
        color_0_deg: Rgb::new(0, 0, 0),
        color_45_deg: Rgb::new(1, 1, 1),
        color_90_deg: Rgb::new(2, 2, 2),
        color_135_deg: Rgb::new(3, 3, 3),
        color_180_deg: Rgb::new(4, 4, 4),
        color_225_deg: Rgb::new(5, 5, 5),
        color_270_deg: Rgb::new(6, 6, 6),
        color_315_deg: Rgb::new(7, 7, 7),
    };
    let wire = <[usize; 24]>::from_nidhogg(right);
    for channel in 0..3 {
        assert_eq!(wire[8 * channel..8 * channel + 8], RIGHT_EYE_WIRE_ORDER);
    }

    let skull = Skull {
        left_front_0: 0,
        left_front_1: 1,
        left_middle_0: 2,
        left_rear_0: 3,
        left_rear_1: 4,
        left_rear_2: 5,
        right_front_0: 6,
        right_front_1: 7,
        right_middle_0: 8,
        right_rear_0: 9,
        right_rear_1: 10,
        right_rear_2: 11,
    };
    assert_eq!(<[usize; 12]>::from_nidhogg(skull), SKULL_WIRE_ORDER);
}
