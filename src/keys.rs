use vstd::prelude::*;
use vstd::std_specs::iter::IteratorSpec;

verus! {

/// Number of keys on the keypad.
pub const NUM_KEYS: usize = 16;

/// Which of the sixteen keys `0` to `F` are currently held down.
#[derive(Debug, Default, Clone, Copy, PartialEq, Eq, Hash)]
pub struct Keys([bool; 16]);

impl View for Keys {
    type V = Seq<bool>;

    closed spec fn view(&self) -> Seq<bool> {
        self.0@
    }
}

/// The lowest-numbered key that is down, if any.
pub open spec fn first_down_spec(keys: Seq<bool>) -> Option<u8> {
    if exists|k: int| 0 <= k < keys.len() && keys[k] {
        let k = choose|k: int| 0 <= k < keys.len() && keys[k] && forall|j: int| 0 <= j < k ==> !keys[j];
        Some(k as u8)
    } else {
        None
    }
}

impl Keys {
    /// A keypad on which no key is down.
    pub fn new() -> (r: Self)
        ensures
            r@.len() == NUM_KEYS,
            forall|k: int| 0 <= k < NUM_KEYS ==> !r@[k],
    {
        Keys([false;16])
    }

    /// Whether key `x` is down; the key number is taken modulo 16.
    pub fn get(&self, x: u8) -> (r: bool)
        ensures
            r == self@[x as int % 16],
    {
        self.0[x as usize % 16]
    }

    /// The sixteen flags in key order.
    pub fn iter(&self) -> (r: core::slice::Iter<'_, bool>)
        ensures
            r.remaining() == self@.map_values(|b: bool| &b),
    {
        let r = self.0.iter();
        assert(r.remaining() =~= self@.map_values(|b: bool| &b));
        r
    }

    /// Replaces every flag at once: key `k` is down after the call exactly when
    /// `down[k]` holds.
    pub fn set(&mut self, down: [bool; 16])
        ensures
            final(self)@ == down@,
    {
        self.0 = down;
    }

    /// The lowest-numbered key that is down, if any.
    pub fn first_down(&self) -> (r: Option<u8>)
        ensures
            r == first_down_spec(self@),
            r matches Some(k) ==> k < NUM_KEYS && self@[k as int] && forall|j: int|
                0 <= j < k ==> !self@[j],
            r is None ==> forall|j: int| 0 <= j < NUM_KEYS ==> !self@[j],
    {
        let mut k: u8 = 0;
        while k < 16
            invariant
                k <= 16,
                self@.len() == NUM_KEYS,
                forall|j: int| 0 <= j < k ==> !self@[j],
            decreases 16 - k,
        {
            if self.0[k as usize] {
                proof {
                    let c = choose|c: int|
                        0 <= c < self@.len() && self@[c] && forall|j: int| 0 <= j < c ==> !self@[j];
                    assert(c == k as int) by {
                        if c < k {
                            assert(!self@[c]);
                        } else if c > k {
                            assert(!self@[k as int]);
                        }
                    }
                }
                return Some(k);
            }
            k += 1;
        }
        None
    }
}

} // verus!
