use vstd::prelude::*;

use crate::libretro::{
    DEVICE_ANALOG, DEVICE_ID_ANALOG_X, DEVICE_ID_ANALOG_Y, DEVICE_INDEX_ANALOG_LEFT,
    DEVICE_INDEX_ANALOG_RIGHT, DEVICE_JOYPAD,
};
use crate::retropad::{pad_index_spec, pad_pressed_spec, RetroPad, FULL_PRESSURE};

verus! {

/// The two axes of one analog stick.
#[derive(Clone, Copy, Debug, PartialEq, Eq, Structural)]
pub struct Stick {
    pub x: i16,
    pub y: i16,
}

impl Stick {
    /// A centred stick.
    pub fn new() -> (r: Stick)
        ensures
            r == (Stick { x: 0, y: 0 }),
    {
        Stick { x: 0, y: 0 }
    }

    /// Centres the stick.
    pub fn clear(&mut self)
        ensures
            *final(self) == (Stick { x: 0, y: 0 }),
    {
        self.x = 0;
        self.y = 0;
    }
}

/// The analog RetroPad: the RetroPad's buttons plus a left and a right stick.
pub struct AnalogRetroPad {
    pad: RetroPad,
    left_stick: Stick,
    right_stick: Stick,
}

/// The stick an analog index names, if any.
pub open spec fn stick_of(index: u32, left: Stick, right: Stick) -> Option<Stick> {
    if index == DEVICE_INDEX_ANALOG_LEFT {
        Some(left)
    } else if index == DEVICE_INDEX_ANALOG_RIGHT {
        Some(right)
    } else {
        None
    }
}

/// The value of axis `id` of a stick; ids other than the two axes read 0.
pub open spec fn axis_spec(stick: Stick, id: u32) -> i16 {
    if id == DEVICE_ID_ANALOG_X {
        stick.x
    } else if id == DEVICE_ID_ANALOG_Y {
        stick.y
    } else {
        0
    }
}

/// A stick after setting axis `id` to `value`; other ids change nothing.
pub open spec fn stick_set_spec(stick: Stick, id: u32, value: i16) -> Stick {
    if id == DEVICE_ID_ANALOG_X {
        Stick { x: value, ..stick }
    } else if id == DEVICE_ID_ANALOG_Y {
        Stick { y: value, ..stick }
    } else {
        stick
    }
}

impl AnalogRetroPad {
    pub closed spec fn buttons(self) -> Seq<i16> {
        self.pad@
    }

    pub closed spec fn left(self) -> Stick {
        self.left_stick
    }

    pub closed spec fn right(self) -> Stick {
        self.right_stick
    }

    /// A pad with every button released and both sticks centred.
    pub fn new() -> (r: AnalogRetroPad)
        ensures
            r.buttons() == Seq::new(16, |i: int| 0i16),
            r.left() == (Stick { x: 0, y: 0 }),
            r.right() == (Stick { x: 0, y: 0 }),
    {
        AnalogRetroPad { pad: RetroPad::new(), left_stick: Stick::new(), right_stick: Stick::new() }
    }

    /// The device type this pad reports.
    pub fn device_type(&self) -> (r: u32)
        ensures
            r == DEVICE_ANALOG,
    {
        DEVICE_ANALOG
    }

    /// True for the RetroPad's device type and for the analog pad's own.
    pub fn device_type_compatible(&self, id: u32) -> (r: bool)
        ensures
            r == (id == DEVICE_JOYPAD || id == DEVICE_ANALOG),
    {
        if self.pad.device_type_compatible(id) {
            true
        } else {
            id == self.device_type()
        }
    }

    /// Releases every button and centres both sticks.
    pub fn reset(&mut self)
        ensures
            final(self).buttons() == Seq::new(16, |i: int| 0i16),
            final(self).left() == (Stick { x: 0, y: 0 }),
            final(self).right() == (Stick { x: 0, y: 0 }),
    {
        self.pad.reset();
        self.left_stick.clear();
        self.right_stick.clear();
    }

    /// An axis of the stick that `index` names, or otherwise the RetroPad's
    /// button `id`.
    pub fn get_index(&self, index: u32, id: u32) -> (r: i16)
        ensures
            stick_of(index, self.left(), self.right()) is Some ==> r == axis_spec(
                stick_of(index, self.left(), self.right())->Some_0,
                id,
            ),
            stick_of(index, self.left(), self.right()) is None ==> r == pad_index_spec(
                self.buttons(),
                0,
                id,
            ),
    {
        if index == DEVICE_INDEX_ANALOG_LEFT {
            Self::axis(&self.left_stick, id)
        } else if index == DEVICE_INDEX_ANALOG_RIGHT {
            Self::axis(&self.right_stick, id)
        } else {
            self.pad.get_index(0, id)
        }
    }

    fn axis(stick: &Stick, id: u32) -> (r: i16)
        ensures
            r == axis_spec(*stick, id),
    {
        if id == DEVICE_ID_ANALOG_X {
            stick.x
        } else if id == DEVICE_ID_ANALOG_Y {
            stick.y
        } else {
            0
        }
    }

    fn set_axis(stick: &mut Stick, id: u32, value: i16)
        ensures
            *final(stick) == stick_set_spec(*old(stick), id, value),
    {
        if id == DEVICE_ID_ANALOG_X {
            stick.x = value;
        } else if id == DEVICE_ID_ANALOG_Y {
            stick.y = value;
        }
    }

    /// Presses one of the RetroPad's buttons.
    pub fn press_button(&mut self, id: u32, pressure: Option<i16>)
        ensures
            final(self).buttons() == pad_pressed_spec(old(self).buttons(), id, pressure),
            final(self).left() == old(self).left(),
            final(self).right() == old(self).right(),
    {
        self.pad.press_button_friend(id, pressure);
    }

    /// Sets axis `id` of the stick that `index` names to `pressure`, or to
    /// full deflection where none is given. Other indices and ids change
    /// nothing.
    pub fn press_analog_axis(&mut self, index: u32, id: u32, pressure: Option<i16>)
        ensures
            final(self).buttons() == old(self).buttons(),
            final(self).left() == if index == DEVICE_INDEX_ANALOG_LEFT {
                stick_set_spec(
                    old(self).left(),
                    id,
                    match pressure {
                        Some(p) => p,
                        None => FULL_PRESSURE,
                    },
                )
            } else {
                old(self).left()
            },
            final(self).right() == if index == DEVICE_INDEX_ANALOG_RIGHT {
                stick_set_spec(
                    old(self).right(),
                    id,
                    match pressure {
                        Some(p) => p,
                        None => FULL_PRESSURE,
                    },
                )
            } else {
                old(self).right()
            },
    {
        let value = match pressure {
            Some(pressure_value) => pressure_value,
            None => FULL_PRESSURE,
        };
        if index == DEVICE_INDEX_ANALOG_LEFT {
            Self::set_axis(&mut self.left_stick, id, value);
        } else if index == DEVICE_INDEX_ANALOG_RIGHT {
            Self::set_axis(&mut self.right_stick, id, value);
        }
    }
}

} // verus!
