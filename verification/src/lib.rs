//! A high level abstraction layer for interfacing with NAO V6 robots.
//!
//! The crate gives one typed data model for what the robot senses and what it is told to do,
//! and the exact mapping between that model and the flat arrays of the `LoLA` wire protocol.
//! Every type is generic over the scalar it carries, so the model serves any numeric
//! representation a backend works in.
//!
//! ## Backends
//! A backend implements the [`NaoBackend`] trait. What this crate holds of a backend is what
//! can be said without a robot at hand: the wire order of every field, the size of a frame,
//! and the rule by which a connection is tried again.

pub mod backend;
pub mod error;
pub mod types;

pub use error::Error;

use backend::lola::FromLoLA;
use types::{
    Battery, FillExt, ForceSensitiveResistors, JointArray, LeftEar, LeftEye, Rgb, RightEar,
    RightEye, Skull, SonarEnabled, SonarValues, Touch, Vector2, Vector3,
};
use vstd::prelude::*;
use vstd::std_specs::convert::FromSpec;

verus! {

/// Generic backend trait used for implementing a NAO interface.
pub trait NaoBackend: Sized {
    /// The scalar in which the backend measures and commands: joint angles, stiffness, LED
    /// intensities and sensor readings are all of this type.
    type Scalar;

    /// Connects to a NAO backend
    fn connect() -> Result<Self, Error>;

    /// Converts a control message to the format required by the backend and writes it to that
    /// backend.
    fn send_control_msg(&mut self, update: NaoControlMessage<Self::Scalar>) -> Result<(), Error>;

    /// Reads the current sensor data from the chosen backend
    fn read_nao_state(&mut self) -> Result<NaoState<Self::Scalar>, Error>;
}

/// Generic backend extension to support disconnecting.
pub trait DisconnectExt {
    /// Disconnects a NAO backend
    fn disconnect(self) -> Result<(), Error>;
}

/// High level representation of the `LoLA` state message.
#[derive(Debug, Clone, PartialEq)]
pub struct NaoState<T> {
    pub position: JointArray<T>,
    pub stiffness: JointArray<T>,
    /// Accelerometer (Inertial Measurement Unit):
    ///
    /// The Accelerometer measures the proper acceleration along three axes (x, y, and z)
    /// in meters per second squared (m/s²). The Z axis is facing up.
    ///
    /// Position relative to the torso frame: (-0.008, 0.00606, 0.027) in meters.
    pub accelerometer: Vector3<T>,
    /// Gyroscope (Inertial Measurement Unit):
    ///
    /// The Gyroscope provides direct measurements of the rotational speed along
    /// three axes (x, y and z) in radians per second (rad/s). The Z axis is facing up.
    ///
    /// Position relative to the torso frame: (-0.008, 0.006, 0.029) in meters.
    pub gyroscope: Vector3<T>,
    /// Angles:
    ///
    /// Using data from the Gyroscope and Accelerometer, the inertial board in the NAO robot
    /// calculates two inclination angles (x, y) of the robot's body.
    ///
    /// These angles represent the orientation of the robot and are measured in radians.
    pub angles: Vector2<T>,
    /// Sonar:
    ///
    /// The values measured by the sonar sensors located in the Nao's torso.
    ///
    /// The values represent the distance measured in meters.
    pub sonar: SonarValues<T>,
    pub force_sensitive_resistors: ForceSensitiveResistors<T>,
    pub touch: Touch<T>,
    // Diagnostics
    pub battery: Battery<T>,
    pub temperature: JointArray<T>,
    pub current: JointArray<T>,
    pub status: JointArray<i32>,
}

/// High level representation of the `LoLA` update message.
#[derive(Clone, Debug, PartialEq)]
pub struct NaoControlMessage<T> {
    pub position: JointArray<T>,
    pub stiffness: JointArray<T>,
    /// The sonar state for the left and right sonar.
    ///
    /// In the default state both sonars are enabled.
    pub sonar: SonarEnabled,
    // LEDs
    pub left_ear: LeftEar<T>,
    pub right_ear: RightEar<T>,
    pub chest: Rgb<T>,
    pub left_eye: LeftEye<T>,
    pub right_eye: RightEye<T>,
    pub left_foot: Rgb<T>,
    pub right_foot: Rgb<T>,
    pub skull: Skull<T>,
}

impl<T: Copy> NaoControlMessage<T> {
    /// The control message that holds `position` in every joint position, `off` in every
    /// stiffness and in every LED, and that enables both sonars.
    pub open spec fn resting(position: T, off: T) -> Self {
        NaoControlMessage {
            position: JointArray::filled(position),
            stiffness: JointArray::filled(off),
            sonar: SonarEnabled { left: true, right: true },
            left_ear: LeftEar::filled(off),
            right_ear: RightEar::filled(off),
            chest: Rgb { red: off, green: off, blue: off },
            left_eye: LeftEye::filled(Rgb { red: off, green: off, blue: off }),
            right_eye: RightEye::filled(Rgb { red: off, green: off, blue: off }),
            left_foot: Rgb { red: off, green: off, blue: off },
            right_foot: Rgb { red: off, green: off, blue: off },
            skull: Skull::filled(off),
        }
    }
}

impl<T: From<i8> + Copy> Default for NaoControlMessage<T> {
    /// A message that asks nothing of the robot: every joint position holds -1, the value
    /// that stands for "no position", every stiffness and every LED holds 0, and both sonars
    /// are enabled.
    ///
    /// The two values are what `T` makes of -1 and of 0. The message is what a control frame
    /// stands for that holds the one in every slot of `Position` and the other in every slot
    /// of every other field.
    fn default() -> (r: Self)
        ensures
            exists|position: T, off: T|
                call_ensures(T::from, (-1i8,), position) && call_ensures(T::from, (0i8,), off)
                    && #[trigger] Self::resting(position, off) == r,
            T::obeys_from_spec() ==> r == Self::resting(T::from_spec(-1i8), T::from_spec(0i8)),
    {
        let position = T::from(-1i8);
        let off = T::from(0i8);
        let r = Self {
            position: JointArray::from_lola([position; 25]),
            stiffness: JointArray::from_lola([off; 25]),
            sonar: SonarEnabled::default(),
            left_ear: LeftEar::from_lola([off; 10]),
            right_ear: RightEar::from_lola([off; 10]),
            chest: Rgb::new(off, off, off),
            left_eye: LeftEye::from_lola([off; 24]),
            right_eye: RightEye::from_lola([off; 24]),
            left_foot: Rgb::new(off, off, off),
            right_foot: Rgb::new(off, off, off),
            skull: Skull::from_lola([off; 12]),
        };
        assert(Self::resting(position, off) == r);
        r
    }
}

/// Builder struct for [`NaoControlMessage`].
#[must_use]
pub struct NaoControlMessageBuilder<T> {
    pub position: Option<JointArray<T>>,
    pub stiffness: Option<JointArray<T>>,
    pub sonar: Option<SonarEnabled>,
    pub left_ear: Option<LeftEar<T>>,
    pub right_ear: Option<RightEar<T>>,
    pub chest: Option<Rgb<T>>,
    pub left_eye: Option<LeftEye<T>>,
    pub right_eye: Option<RightEye<T>>,
    pub left_foot: Option<Rgb<T>>,
    pub right_foot: Option<Rgb<T>>,
    pub skull: Option<Skull<T>>,
}

impl<T> NaoControlMessage<T> {
    /// A builder in which no field is set yet.
    pub fn builder() -> (r: NaoControlMessageBuilder<T>)
        ensures
            r == (NaoControlMessageBuilder::<T> {
                position: None,
                stiffness: None,
                sonar: None,
                left_ear: None,
                right_ear: None,
                chest: None,
                left_eye: None,
                right_eye: None,
                left_foot: None,
                right_foot: None,
                skull: None,
            }),
    {
        NaoControlMessageBuilder {
            position: None,
            stiffness: None,
            sonar: None,
            left_ear: None,
            right_ear: None,
            chest: None,
            left_eye: None,
            right_eye: None,
            left_foot: None,
            right_foot: None,
            skull: None,
        }
    }
}

impl<T> NaoControlMessageBuilder<T> {
    /// Set the `position` value to the provided value.
    pub fn position(self, position: JointArray<T>) -> (r: Self)
        ensures
            r == (NaoControlMessageBuilder { position: Some(position), ..self }),
    {
        let mut builder = self;
        builder.position = Some(position);
        builder
    }

    /// Set the `stiffness` value to the provided value.
    pub fn stiffness(self, stiffness: JointArray<T>) -> (r: Self)
        ensures
            r == (NaoControlMessageBuilder { stiffness: Some(stiffness), ..self }),
    {
        let mut builder = self;
        builder.stiffness = Some(stiffness);
        builder
    }

    /// Set the `sonar` value to the provided value.
    pub fn sonar(self, sonar: SonarEnabled) -> (r: Self)
        ensures
            r == (NaoControlMessageBuilder { sonar: Some(sonar), ..self }),
    {
        let mut builder = self;
        builder.sonar = Some(sonar);
        builder
    }

    /// Set the `left_ear` value to the provided value.
    pub fn left_ear(self, left_ear: LeftEar<T>) -> (r: Self)
        ensures
            r == (NaoControlMessageBuilder { left_ear: Some(left_ear), ..self }),
    {
        let mut builder = self;
        builder.left_ear = Some(left_ear);
        builder
    }

    /// Set the `right_ear` value to the provided value.
    pub fn right_ear(self, right_ear: RightEar<T>) -> (r: Self)
        ensures
            r == (NaoControlMessageBuilder { right_ear: Some(right_ear), ..self }),
    {
        let mut builder = self;
        builder.right_ear = Some(right_ear);
        builder
    }

    /// Set the `chest` value to the provided value.
    pub fn chest(self, chest: Rgb<T>) -> (r: Self)
        ensures
            r == (NaoControlMessageBuilder { chest: Some(chest), ..self }),
    {
        let mut builder = self;
        builder.chest = Some(chest);
        builder
    }

    /// Set the `left_eye` value to the provided value.
    pub fn left_eye(self, left_eye: LeftEye<T>) -> (r: Self)
        ensures
            r == (NaoControlMessageBuilder { left_eye: Some(left_eye), ..self }),
    {
        let mut builder = self;
        builder.left_eye = Some(left_eye);
        builder
    }

    /// Set the `right_eye` value to the provided value.
    pub fn right_eye(self, right_eye: RightEye<T>) -> (r: Self)
        ensures
            r == (NaoControlMessageBuilder { right_eye: Some(right_eye), ..self }),
    {
        let mut builder = self;
        builder.right_eye = Some(right_eye);
        builder
    }

    /// Set the `left_foot` value to the provided value.
    pub fn left_foot(self, left_foot: Rgb<T>) -> (r: Self)
        ensures
            r == (NaoControlMessageBuilder { left_foot: Some(left_foot), ..self }),
    {
        let mut builder = self;
        builder.left_foot = Some(left_foot);
        builder
    }

    /// Set the `right_foot` value to the provided value.
    pub fn right_foot(self, right_foot: Rgb<T>) -> (r: Self)
        ensures
            r == (NaoControlMessageBuilder { right_foot: Some(right_foot), ..self }),
    {
        let mut builder = self;
        builder.right_foot = Some(right_foot);
        builder
    }

    /// Set the `skull` value to the provided value.
    pub fn skull(self, skull: Skull<T>) -> (r: Self)
        ensures
            r == (NaoControlMessageBuilder { skull: Some(skull), ..self }),
    {
        let mut builder = self;
        builder.skull = Some(skull);
        builder
    }
}

impl<T: Copy> NaoControlMessageBuilder<T> {
    /// The message that is built where the fields that were not set are taken from `unset`.
    pub open spec fn spec_build(self, unset: NaoControlMessage<T>) -> NaoControlMessage<T> {
        NaoControlMessage {
            position: if let Some(position) = self.position {
                position
            } else {
                unset.position
            },
            stiffness: if let Some(stiffness) = self.stiffness {
                stiffness
            } else {
                unset.stiffness
            },
            sonar: if let Some(sonar) = self.sonar {
                sonar
            } else {
                unset.sonar
            },
            left_ear: if let Some(left_ear) = self.left_ear {
                left_ear
            } else {
                unset.left_ear
            },
            right_ear: if let Some(right_ear) = self.right_ear {
                right_ear
            } else {
                unset.right_ear
            },
            chest: if let Some(chest) = self.chest {
                chest
            } else {
                unset.chest
            },
            left_eye: if let Some(left_eye) = self.left_eye {
                left_eye
            } else {
                unset.left_eye
            },
            right_eye: if let Some(right_eye) = self.right_eye {
                right_eye
            } else {
                unset.right_eye
            },
            left_foot: if let Some(left_foot) = self.left_foot {
                left_foot
            } else {
                unset.left_foot
            },
            right_foot: if let Some(right_foot) = self.right_foot {
                right_foot
            } else {
                unset.right_foot
            },
            skull: if let Some(skull) = self.skull {
                skull
            } else {
                unset.skull
            },
        }
    }
}

impl<T: From<i8> + Copy> NaoControlMessageBuilder<T> {
    /// Use the provided values to build a new instance of [`NaoControlMessage`].
    ///
    /// Not explicitly defined fields will use their value in the default control message.
    pub fn build(self) -> (r: NaoControlMessage<T>)
        ensures
            exists|position: T, off: T|
                call_ensures(T::from, (-1i8,), position) && call_ensures(T::from, (0i8,), off)
                    && self.spec_build(#[trigger] NaoControlMessage::resting(position, off)) == r,
            T::obeys_from_spec() ==> r == self.spec_build(
                NaoControlMessage::resting(T::from_spec(-1i8), T::from_spec(0i8)),
            ),
    {
        let unset = NaoControlMessage::<T>::default();
        let r = NaoControlMessage {
            position: match self.position {
                Some(position) => position,
                None => unset.position,
            },
            stiffness: match self.stiffness {
                Some(stiffness) => stiffness,
                None => unset.stiffness,
            },
            sonar: match self.sonar {
                Some(sonar) => sonar,
                None => unset.sonar,
            },
            left_ear: match self.left_ear {
                Some(left_ear) => left_ear,
                None => unset.left_ear,
            },
            right_ear: match self.right_ear {
                Some(right_ear) => right_ear,
                None => unset.right_ear,
            },
            chest: match self.chest {
                Some(chest) => chest,
                None => unset.chest,
            },
            left_eye: match self.left_eye {
                Some(left_eye) => left_eye,
                None => unset.left_eye,
            },
            right_eye: match self.right_eye {
                Some(right_eye) => right_eye,
                None => unset.right_eye,
            },
            left_foot: match self.left_foot {
                Some(left_foot) => left_foot,
                None => unset.left_foot,
            },
            right_foot: match self.right_foot {
                Some(right_foot) => right_foot,
                None => unset.right_foot,
            },
            skull: match self.skull {
                Some(skull) => skull,
                None => unset.skull,
            },
        };
        proof {
            let (position, off) = choose|position: T, off: T|
                call_ensures(T::from, (-1i8,), position) && call_ensures(T::from, (0i8,), off)
                    && #[trigger] NaoControlMessage::resting(position, off) == unset;
            assert(self.spec_build(NaoControlMessage::resting(position, off)) == r);
        }
        r
    }
}


/// Struct containing the hardware identifiers for the NAO V6 robot.
#[derive(Debug, Clone, PartialEq, Eq)]
pub struct HardwareInfo {
    pub body_id: String,
    pub body_version: String,
    pub head_id: String,
    pub head_version: String,
}

} // verus!
