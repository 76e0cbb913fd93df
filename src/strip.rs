use crate::led::Led;
use vstd::arithmetic::div_mod::{
    lemma_add_mod_noop_right, lemma_mod_add_multiples_vanish, lemma_small_mod,
    lemma_sub_mod_noop_right,
};
use vstd::prelude::*;

verus! {

/// The bytes sent to the strip for a whole buffer: each slot's encoding, in slot order.
pub open spec fn frame_of(leds: Seq<Led>) -> Seq<u8> {
    leds.map_values(|led: Led| led.encoded()).flatten()
}

/// `s` rotated toward the front by `count` places: slot 0 moves to the end.
pub open spec fn rotated_left<A>(s: Seq<A>, count: int) -> Seq<A> {
    if s.len() == 0 {
        s
    } else {
        Seq::new(s.len(), |i: int| s[(i + count) % (s.len() as int)])
    }
}

/// `s` rotated toward the back by `count` places: the last slot moves to slot 0.
pub open spec fn rotated_right<A>(s: Seq<A>, count: int) -> Seq<A> {
    if s.len() == 0 {
        s
    } else {
        Seq::new(s.len(), |i: int| s[(i - count) % (s.len() as int)])
    }
}

/// The frame of a buffer holds 32 bytes per slot, and slot `i` occupies bytes
/// `32 * i` up to `32 * i + 32`, holding that slot's encoding.
pub proof fn lemma_frame_layout(leds: Seq<Led>)
    ensures
        frame_of(leds).len() == 32 * leds.len(),
        forall|i: int, j: int|
            0 <= i < leds.len() && 0 <= j < 32 ==> #[trigger] frame_of(leds)[32 * i + j]
                == leds[i].encoded()[j],
    decreases leds.len(),
{
    if leds.len() > 0 {
        let enc = |led: Led| led.encoded();
        let front = leds.drop_last();
        lemma_frame_layout(front);
        assert(leds.map_values(enc) =~= front.map_values(enc).push(leds.last().encoded()));
        front.map_values(enc).lemma_flatten_push(leds.last().encoded());
        let n = leds.len() as int;
        assert forall|i: int, j: int| 0 <= i < n && 0 <= j < 32 implies #[trigger] frame_of(
            leds,
        )[32 * i + j] == leds[i].encoded()[j] by {
            if i < n - 1 {
                assert(32 * i + j < 32 * (n - 1)) by (nonlinear_arith)
                    requires
                        i < n - 1,
                        j < 32,
                ;
                assert(front[i] == leds[i]);
            } else {
                assert(32 * i + j - 32 * (n - 1) == j);
            }
        }
    }
}

/// Two transmissions of buffers with the same contents send the same bytes:
/// with no change to the slots between two updates, the strip receives two
/// identical frames.
pub proof fn lemma_retransmission_identical<T>(first: &Strip<T>, second: &Strip<T>)
    requires
        first.leds@ == second.leds@,
    ensures
        first.frame() == second.frame(),
{
}

/// Where slot `i` of a left rotation by `count` reads from, for `k == count % n`.
proof fn lemma_left_source(i: int, count: int, k: int, n: int)
    requires
        0 <= i < n,
        k == count % n,
    ensures
        i < n - k ==> (i + count) % n == i + k,
        i >= n - k ==> (i + count) % n == i - (n - k),
{
    lemma_add_mod_noop_right(i, count, n);
    if i < n - k {
        lemma_small_mod((i + k) as nat, n as nat);
    } else {
        lemma_mod_add_multiples_vanish(i + k - n, n);
        lemma_small_mod((i + k - n) as nat, n as nat);
    }
}

/// Where slot `i` of a right rotation by `count` reads from, for `k == count % n`.
proof fn lemma_right_source(i: int, count: int, k: int, n: int)
    requires
        0 <= i < n,
        k == count % n,
    ensures
        i >= k ==> (i - count) % n == i - k,
        i < k ==> (i - count) % n == i + (n - k),
{
    lemma_sub_mod_noop_right(i, count, n);
    if i >= k {
        lemma_small_mod((i - k) as nat, n as nat);
    } else {
        lemma_mod_add_multiples_vanish(i - k, n);
        lemma_small_mod((i - k + n) as nat, n as nat);
    }
}

/// A strip of LEDs: a buffer of colors, one per slot, and the serial transport
/// that carries the encoded buffer to the hardware.
pub struct Strip<T> {
    pub transport: T,
    pub leds: Vec<Led>,
}

impl<T> Strip<T> {
    /// The bytes that a transmission of this buffer sends.
    pub open spec fn frame(&self) -> Seq<u8> {
        frame_of(self.leds@)
    }

    /// A strip of `amount_of_leds` slots, all dark, driven through `transport`.
    pub fn new(transport: T, amount_of_leds: usize) -> (strip: Strip<T>)
        ensures
            strip.transport == transport,
            strip.leds@ == Seq::new(amount_of_leds as nat, |i: int| Led::zero()),
    {
        let mut leds: Vec<Led> = Vec::with_capacity(amount_of_leds);
        let mut i: usize = 0;
        while i < amount_of_leds
            invariant
                i <= amount_of_leds,
                leds@ == Seq::new(i as nat, |j: int| Led::zero()),
            decreases amount_of_leds - i,
        {
            leds.push(Led::new());
            i = i + 1;
            assert(leds@ =~= Seq::new(i as nat, |j: int| Led::zero()));
        }
        Strip { transport, leds }
    }

    /// Sets every slot to `led`.
    pub fn fill(&mut self, led: Led)
        ensures
            final(self).transport == old(self).transport,
            final(self).leds@ == Seq::new(old(self).leds@.len(), |i: int| led),
    {
        let n = self.leds.len();
        let mut i: usize = 0;
        while i < n
            invariant
                self.transport == old(self).transport,
                n == old(self).leds@.len(),
                self.leds@.len() == n,
                i <= n,
                forall|j: int| 0 <= j < i ==> self.leds@[j] == led,
            decreases n - i,
        {
            self.leds[i] = led;
            i = i + 1;
        }
        assert(self.leds@ =~= Seq::new(n as nat, |i: int| led));
    }

    /// Sets every slot to `led`; the same as `fill`.
    pub fn set_color(&mut self, led: &Led)
        ensures
            final(self).transport == old(self).transport,
            final(self).leds@ == Seq::new(old(self).leds@.len(), |i: int| *led),
    {
        self.fill(*led);
    }

    /// Turns every LED off.
    pub fn clear(&mut self)
        ensures
            final(self).transport == old(self).transport,
            final(self).leds@ == Seq::new(old(self).leds@.len(), |i: int| Led::zero()),
    {
        self.fill(Led::new());
    }

    /// Paints the strip with colors sampled from a gradient, one sample per slot
    /// in slot order. Slots past the last sample keep their color, so an empty
    /// sample list changes nothing.
    pub fn set_gradient(&mut self, samples: &[Led])
        ensures
            final(self).transport == old(self).transport,
            final(self).leds@ == Seq::new(
                old(self).leds@.len(),
                |i: int|
                    if i < samples@.len() {
                        samples@[i]
                    } else {
                        old(self).leds@[i]
                    },
            ),
    {
        let n = self.leds.len();
        let mut i: usize = 0;
        while i < n && i < samples.len()
            invariant
                self.transport == old(self).transport,
                n == old(self).leds@.len(),
                self.leds@.len() == n,
                i <= n,
                i <= samples@.len(),
                forall|j: int| 0 <= j < i ==> self.leds@[j] == samples@[j],
                forall|j: int| i <= j < n ==> self.leds@[j] == old(self).leds@[j],
            decreases n - i,
        {
            self.leds[i] = samples[i];
            i = i + 1;
        }
        assert(self.leds@ =~= Seq::new(
            n as nat,
            |j: int|
                if j < samples@.len() {
                    samples@[j]
                } else {
                    old(self).leds@[j]
                },
        ));
    }

    /// Rotates the buffer toward the front by `count` places (taken modulo the
    /// length): the first LED's color moves to the end.
    pub fn shift_left(&mut self, count: usize)
        ensures
            final(self).transport == old(self).transport,
            final(self).leds@ == rotated_left(old(self).leds@, count as int),
    {
        let n = self.leds.len();
        if n == 0 {
            return;
        }
        let k = count % n;
        let mut rotated: Vec<Led> = Vec::with_capacity(n);
        let mut i: usize = 0;
        while i < n
            invariant
                n == self.leds@.len(),
                n > 0,
                k == count % n,
                i <= n,
                rotated@.len() == i,
                forall|j: int|
                    0 <= j < i ==> rotated@[j] == self.leds@[(j + count) % (n as int)],
            decreases n - i,
        {
            proof {
                lemma_left_source(i as int, count as int, k as int, n as int);
            }
            let source = if i < n - k {
                i + k
            } else {
                i - (n - k)
            };
            rotated.push(self.leds[source]);
            i = i + 1;
        }
        assert(rotated@ =~= rotated_left(self.leds@, count as int));
        self.leds = rotated;
    }

    /// Rotates the buffer toward the back by `count` places (taken modulo the
    /// length): the last LED's color moves to the front.
    pub fn shift_right(&mut self, count: usize)
        ensures
            final(self).transport == old(self).transport,
            final(self).leds@ == rotated_right(old(self).leds@, count as int),
    {
        let n = self.leds.len();
        if n == 0 {
            return;
        }
        let k = count % n;
        let mut rotated: Vec<Led> = Vec::with_capacity(n);
        let mut i: usize = 0;
        while i < n
            invariant
                n == self.leds@.len(),
                n > 0,
                k == count % n,
                i <= n,
                rotated@.len() == i,
                forall|j: int|
                    0 <= j < i ==> rotated@[j] == self.leds@[(j - count) % (n as int)],
            decreases n - i,
        {
            proof {
                lemma_right_source(i as int, count as int, k as int, n as int);
            }
            let source = if i >= k {
                i - k
            } else {
                i + (n - k)
            };
            rotated.push(self.leds[source]);
            i = i + 1;
        }
        assert(rotated@ =~= rotated_right(self.leds@, count as int));
        self.leds = rotated;
    }

    /// Flattens the buffer, slot by slot, into the byte stream for the strip.
    pub fn get_led_data(&self) -> (data: Vec<u8>)
        ensures
            data@ == self.frame(),
            data@.len() == 32 * self.leds@.len(),
    {
        proof {
            lemma_frame_layout(self.leds@);
        }
        let mut data: Vec<u8> = Vec::new();
        let mut i: usize = 0;
        while i < self.leds.len()
            invariant
                i <= self.leds@.len(),
                data@ == frame_of(self.leds@.subrange(0, i as int)),
            decreases self.leds@.len() - i,
        {
            let mut bytes = self.leds[i].to_raw_led_bytes();
            proof {
                let enc = |led: Led| led.encoded();
                let before = self.leds@.subrange(0, i as int);
                assert(self.leds@.subrange(0, i + 1).map_values(enc) =~= before.map_values(
                    enc,
                ).push(self.leds@[i as int].encoded()));
                before.map_values(enc).lemma_flatten_push(self.leds@[i as int].encoded());
            }
            data.append(&mut bytes);
            i = i + 1;
        }
        assert(self.leds@.subrange(0, self.leds@.len() as int) =~= self.leds@);
        data
    }
}

impl<T> std::ops::ShlAssign<usize> for Strip<T> {
    /// `strip <<= n` is `strip.shift_left(n)`.
    fn shl_assign(&mut self, rhs: usize)
        ensures
            final(self).transport == old(self).transport,
            final(self).leds@ == rotated_left(old(self).leds@, rhs as int),
    {
        self.shift_left(rhs);
    }
}

impl<T> std::ops::ShrAssign<usize> for Strip<T> {
    /// `strip >>= n` is `strip.shift_right(n)`.
    fn shr_assign(&mut self, rhs: usize)
        ensures
            final(self).transport == old(self).transport,
            final(self).leds@ == rotated_right(old(self).leds@, rhs as int),
    {
        self.shift_right(rhs);
    }
}

} // verus!
