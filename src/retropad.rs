use vstd::prelude::*;

use crate::libretro::{DEVICE_ID_JOYPAD_MASK, DEVICE_JOYPAD};

verus! {

/// Number of buttons on the pad.
pub const BUTTON_COUNT: usize = 16;

/// Pressure stored for a press that gives none.
pub const FULL_PRESSURE: i16 = 0x7fff;

/// The mask of the first `n` buttons: bit `i` is set when button `i` is held.
pub open spec fn mask_upto(buttons: Seq<i16>, n: int) -> u16
    decreases n,
{
    if n <= 0 {
        0
    } else {
        mask_upto(buttons, n - 1) | if buttons[n - 1] != 0 {
            (1u16 << ((n - 1) as u16))
        } else {
            0u16
        }
    }
}

proof fn lemma_or_bit(m: u16, k: u16, j: u16)
    by (bit_vector)
    requires
        k < 16,
        j < 16,
    ensures
        ((m | (1u16 << k)) >> j) & 1u16 == (if j == k {
            1u16
        } else {
            (m >> j) & 1u16
        }),
        ((m | 0u16) >> j) & 1u16 == (m >> j) & 1u16,
        (0u16 >> j) & 1u16 == 0u16,
{
}

proof fn lemma_mask_upto_bits(buttons: Seq<i16>, n: int)
    requires
        0 <= n <= 16,
        buttons.len() == 16,
    ensures
        forall|j: u16|
            j < 16 ==> ((#[trigger] (mask_upto(buttons, n) >> j) & 1u16) == 1u16 <==> (j < n
                && buttons[j as int] != 0)),
    decreases n,
{
    if n == 0 {
        assert forall|j: u16| j < 16 implies ((#[trigger] (mask_upto(buttons, n) >> j) & 1u16)
            == 1u16 <==> (j < n && buttons[j as int] != 0)) by {
            lemma_or_bit(0, 0, j);
        }
    } else {
        lemma_mask_upto_bits(buttons, n - 1);
        let m = mask_upto(buttons, n - 1);
        assert forall|j: u16| j < 16 implies ((#[trigger] (mask_upto(buttons, n) >> j) & 1u16)
            == 1u16 <==> (j < n && buttons[j as int] != 0)) by {
            lemma_or_bit(m, (n - 1) as u16, j);
        }
    }
}

/// Bit `i` of the button mask is set exactly when button `i` is held (its
/// pressure is not zero), for each of the sixteen buttons.
pub proof fn lemma_button_mask_bits(buttons: Seq<i16>)
    requires
        buttons.len() == 16,
    ensures
        forall|i: u16|
            i < 16 ==> ((#[trigger] (mask_upto(buttons, 16) >> i) & 1u16) == 1u16 <==> buttons[i as int]
                != 0),
{
    lemma_mask_upto_bits(buttons, 16);
}

/// The RetroPad: a standard pad of sixteen buttons, each holding a pressure
/// (zero when released).
pub struct RetroPad {
    buttons: [i16; 16],
}

impl View for RetroPad {
    type V = Seq<i16>;

    closed spec fn view(&self) -> Seq<i16> {
        self.buttons@
    }
}

/// What `get_index` returns for a pad in state `buttons`.
pub open spec fn pad_index_spec(buttons: Seq<i16>, index: u32, id: u32) -> i16 {
    if index != 0 {
        0
    } else if id == DEVICE_ID_JOYPAD_MASK {
        mask_upto(buttons, 16) as i16
    } else if id < 16 {
        buttons[id as int]
    } else {
        0
    }
}

/// A pad state after pressing button `id` with `pressure`, or with full
/// pressure where none is given; ids past the last button change nothing.
pub open spec fn pad_pressed_spec(buttons: Seq<i16>, id: u32, pressure: Option<i16>) -> Seq<i16> {
    if id < 16 {
        buttons.update(
            id as int,
            match pressure {
                Some(p) => p,
                None => FULL_PRESSURE,
            },
        )
    } else {
        buttons
    }
}

impl RetroPad {
    /// A pad with every button released.
    pub fn new() -> (r: RetroPad)
        ensures
            r@ == Seq::new(16, |i: int| 0i16),
    {
        let r = RetroPad { buttons: [0i16; 16] };
        proof {
            assert(r@ =~= Seq::new(16, |i: int| 0i16));
        }
        r
    }

    /// The bit mask of held buttons: bit `i` is set when button `i` is not zero.
    pub fn button_mask(&self) -> (r: i16)
        ensures
            r == mask_upto(self@, 16) as i16,
    {
        let mut mask: u16 = 0;
        let mut i: usize = 0;
        while i < BUTTON_COUNT
            invariant
                i <= 16,
                self.buttons@.len() == 16,
                mask == mask_upto(self.buttons@, i as int),
            decreases 16 - i,
        {
            let bit: u16 = if self.buttons[i] != 0 {
                1u16 << (i as u16)
            } else {
                0
            };
            proof {
                assert(mask | 0u16 == mask) by (bit_vector);
            }
            mask = mask | bit;
            i = i + 1;
        }
        #[verifier::truncate]
        (mask as i16)
    }

    /// Presses button `id` with `pressure`, or with full pressure where none
    /// is given. Ids past the last button are ignored.
    pub fn press_button_friend(&mut self, id: u32, pressure: Option<i16>)
        ensures
            final(self)@ == pad_pressed_spec(old(self)@, id, pressure),
    {
        if id >= 16 {
            return;
        }
        let value = match pressure {
            Some(pressure_value) => pressure_value,
            None => FULL_PRESSURE,
        };
        self.buttons[id as usize] = value;
    }

    /// The device type this pad reports.
    pub fn device_type(&self) -> (r: u32)
        ensures
            r == DEVICE_JOYPAD,
    {
        DEVICE_JOYPAD
    }

    /// True only for the RetroPad's own device type.
    pub fn device_type_compatible(&self, id: u32) -> (r: bool)
        ensures
            r == (id == DEVICE_JOYPAD),
    {
        id == self.device_type()
    }

    /// The state of one button, or the mask of all of them for the mask id.
    /// Only index 0 has buttons; anything else reads as released.
    pub fn get_index(&self, index: u32, id: u32) -> (r: i16)
        ensures
            r == pad_index_spec(self@, index, id),
    {
        if index != 0 {
            return 0;
        }
        if id == DEVICE_ID_JOYPAD_MASK {
            return self.button_mask();
        }
        if id >= 16 {
            0
        } else {
            self.buttons[id as usize]
        }
    }

    /// Releases every button.
    pub fn reset(&mut self)
        ensures
            final(self)@ == Seq::new(16, |i: int| 0i16),
    {
        self.buttons = [0i16; 16];
        proof {
            assert(self@ =~= Seq::new(16, |i: int| 0i16));
        }
    }

    /// Presses a button. Pressure is ignored: a press is stored as 1.
    pub fn press_button(&mut self, id: u32, pressure: Option<i16>)
        ensures
            final(self)@ == pad_pressed_spec(old(self)@, id, Some(1i16)),
    {
        self.press_button_friend(id, Some(1));
    }
}

} // verus!
