//! The [`Rgb`] colour triple that the LEDs of the robot are set with.

use std::ops::Div;
use vstd::prelude::*;
use vstd::std_specs::convert::FromSpec;
use vstd::std_specs::ops::DivSpec;

verus! {

/// A colour with 8 bits per channel.
pub type RgbU8 = Rgb<u8>;

/// Struct representing an RGB color.
#[derive(Debug, Copy, PartialEq)]
pub struct Rgb<T> {
    pub red: T,
    pub green: T,
    pub blue: T,
}

impl<T: Clone> Clone for Rgb<T> {
    /// A colour whose channels are clones of the channels of `self`.
    fn clone(&self) -> (r: Self)
        ensures
            cloned(self.red, r.red),
            cloned(self.green, r.green),
            cloned(self.blue, r.blue),
    {
        Rgb { red: self.red.clone(), green: self.green.clone(), blue: self.blue.clone() }
    }
}

impl<T> View for Rgb<T> {
    type V = Seq<T>;

    /// The three channels: red, green, blue.
    open spec fn view(&self) -> Seq<T> {
        seq![self.red, self.green, self.blue]
    }
}

impl<T: Default> Rgb<T> {
    /// Whether every channel holds a default value of `T`.
    pub open spec fn is_default(self) -> bool {
        &&& call_ensures(T::default, (), self.red)
        &&& call_ensures(T::default, (), self.green)
        &&& call_ensures(T::default, (), self.blue)
    }
}

impl<T: Default> Default for Rgb<T> {
    fn default() -> (r: Self)
        ensures
            r.is_default(),
    {
        Rgb { red: T::default(), green: T::default(), blue: T::default() }
    }
}

impl<T> Rgb<T> {
    #[must_use]
    pub fn new(red: T, green: T, blue: T) -> (r: Rgb<T>)
        ensures
            r.red == red,
            r.green == green,
            r.blue == blue,
    {
        Rgb { red, green, blue }
    }
}

impl<T: From<u8> + Div<Output = T>> Rgb<T> {
    /// The intensity that stands for the 8-bit value `value` of a channel: its share of 255,
    /// the full intensity.
    pub open spec fn intensity(value: u8) -> T {
        T::from_spec(value).div_spec(T::from_spec(255u8))
    }

    /// Whether the 8-bit value `value` of a channel can be turned into an intensity.
    pub open spec fn intensity_req(value: u8) -> bool {
        T::from_spec(value).div_req(T::from_spec(255u8))
    }

    /// Create a new color from three `u8` values.
    pub fn new_u8(red: u8, green: u8, blue: u8) -> (r: Self)
        requires
            T::obeys_from_spec(),
            Self::intensity_req(red),
            Self::intensity_req(green),
            Self::intensity_req(blue),
        ensures
            T::obeys_div_spec() ==> r == (Rgb {
                red: Self::intensity(red),
                green: Self::intensity(green),
                blue: Self::intensity(blue),
            }),
    {
        Self {
            red: T::from(red) / T::from(255u8),
            green: T::from(green) / T::from(255u8),
            blue: T::from(blue) / T::from(255u8),
        }
    }

    /// Create a new color from a u32 value, written as `0xRRGGBB`.
    pub fn new_u32(color: u32) -> (r: Self)
        requires
            T::obeys_from_spec(),
            Self::intensity_req(Rgb::<u8>::from_spec(color).red),
            Self::intensity_req(Rgb::<u8>::from_spec(color).green),
            Self::intensity_req(Rgb::<u8>::from_spec(color).blue),
        ensures
            T::obeys_div_spec() ==> r == (Rgb {
                red: Self::intensity(Rgb::<u8>::from_spec(color).red),
                green: Self::intensity(Rgb::<u8>::from_spec(color).green),
                blue: Self::intensity(Rgb::<u8>::from_spec(color).blue),
            }),
    {
        let channels = Rgb::<u8>::from(color);
        Self::new_u8(channels.red, channels.green, channels.blue)
    }
}

impl vstd::std_specs::convert::FromSpecImpl<u32> for Rgb<u8> {
    open spec fn obeys_from_spec() -> bool {
        true
    }

    /// The channels of a colour written as `0xRRGGBB`; what stands above the low 24 bits is
    /// ignored.
    open spec fn from_spec(color: u32) -> Self {
        Rgb {
            red: ((color >> 16) & 0xFF) as u8,
            green: ((color >> 8) & 0xFF) as u8,
            blue: (color & 0xFF) as u8,
        }
    }
}

impl From<u32> for Rgb<u8> {
    fn from(color: u32) -> (r: Self) {
        assert((color >> 16) & 0xFF < 256) by (bit_vector);
        assert((color >> 8) & 0xFF < 256) by (bit_vector);
        assert(color & 0xFF < 256) by (bit_vector);
        Rgb {
            red: ((color >> 16) & 0xFF) as u8,
            green: ((color >> 8) & 0xFF) as u8,
            blue: (color & 0xFF) as u8,
        }
    }
}

impl<T> vstd::std_specs::convert::FromSpecImpl<Rgb<T>> for [T; 3] {
    open spec fn obeys_from_spec() -> bool {
        true
    }

    open spec fn from_spec(value: Rgb<T>) -> Self {
        [value.red, value.green, value.blue]
    }
}

impl<T> From<Rgb<T>> for [T; 3] {
    fn from(value: Rgb<T>) -> (r: Self) {
        [value.red, value.green, value.blue]
    }
}

impl<T: Copy> vstd::std_specs::convert::FromSpecImpl<[T; 3]> for Rgb<T> {
    open spec fn obeys_from_spec() -> bool {
        true
    }

    open spec fn from_spec(value: [T; 3]) -> Self {
        Rgb { red: value@[0], green: value@[1], blue: value@[2] }
    }
}

impl<T: Copy> From<[T; 3]> for Rgb<T> {
    fn from(value: [T; 3]) -> (r: Self) {
        Rgb { red: value[0], green: value[1], blue: value[2] }
    }
}

} // verus!
