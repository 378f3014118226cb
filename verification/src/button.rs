//! Debouncing of a push button sampled at a fixed rate.
//!
//! The button pulls its pin high while it is held. Each tick the sample is
//! shifted into a sixteen-bit register as it was read, a one for a closed
//! contact; the bits above the window are forced high, so that comparing the
//! whole register with one pattern looks at the most recent `window + 1`
//! samples only. The filter is edge-triggered: it reports a press on the one
//! tick at which the last `window` samples are all high and the sample
//! before them was low, and not again while the button stays held.
//!
//! The debounce time is `window` divided by the tick rate: the default
//! window of 12 samples at 200 ticks per second gives 60 ms, a window of 8 at
//! 400 ticks per second gives 20 ms. The tick rate should be more than twice
//! the fastest bounce that the contact is expected to show; a faster bounce
//! is aliased and may go unseen for some ticks.

use vstd::prelude::*;

verus! {

/// The bit of the input port that carries the button.
pub const BUTTON_MASK: u32 = 0x0000_0001;

/// The window of a button made by `Button::new`, in samples.
pub const WINDOW: u8 = 12;

/// Whether the button's contact is closed in a value of the input port.
/// Every other bit of the port is ignored.
pub open spec fn contact(port: u32) -> bool {
    port & BUTTON_MASK != 0
}

/// The recent samples after one more: the new sample comes first, the
/// oldest is dropped.
pub open spec fn pushed(recent: Seq<bool>, sample: bool) -> Seq<bool> {
    seq![sample] + recent.drop_last()
}

/// The recent samples, newest first, show a press that has just become
/// stable: all are high but the oldest.
pub open spec fn edge(recent: Seq<bool>) -> bool {
    &&& recent.len() >= 2
    &&& !recent.last()
    &&& forall|j: int| 0 <= j < recent.len() - 1 ==> #[trigger] recent[j]
}

/// Bit `j` of the register.
pub open spec fn bit(h: u16, j: u16) -> bool {
    (h >> j) & 1 == 1
}

/// The low `n` bits, for `n` from 1 to 16.
pub open spec fn low_mask(n: u16) -> u16 {
    0xFFFFu16 >> ((16 - n) as u16)
}

/// The bits above bit `w`, which every shift forces high.
pub open spec fn guard(w: u16) -> u16 {
    !low_mask((w + 1) as u16)
}

/// The register of a press that has just become stable: the guard bits and
/// every bit below bit `w`, with bit `w` itself clear.
pub open spec fn target(w: u16) -> u16 {
    guard(w) | low_mask(w)
}

/// The register after one more sample; `r` is 1 for a closed contact.
pub open spec fn shifted(h: u16, w: u16, r: u16) -> u16 {
    (h << 1) | r | guard(w)
}

/// A register of ones holds high samples only.
proof fn lemma_full_register()
    by (bit_vector)
    ensures
        forall|j: u16| j < 16 ==> bit(0xFFFF, j),
{
}

/// A shift moves every sample one place up, puts the new one at the
/// bottom and sets the guard bits.
proof fn lemma_shifted_bit(h: u16, w: u16, r: u16, j: u16)
    by (bit_vector)
    requires
        1 <= w <= 15,
        r <= 1,
        j <= w,
    ensures
        j == 0 ==> bit(shifted(h, w, r), j) == (r == 1),
        j >= 1 ==> bit(shifted(h, w, r), j) == bit(h, (j - 1) as u16),
        shifted(h, w, r) | guard(w) == shifted(h, w, r),
{
}

/// Within the window the target has every bit set but bit `w`.
proof fn lemma_target_bit(w: u16, j: u16)
    by (bit_vector)
    requires
        1 <= w <= 15,
        j <= w,
    ensures
        bit(target(w), j) == (j != w),
        target(w) | guard(w) == target(w),
{
}

/// Two registers with the same lowest bit agree on their low one bit.
proof fn lemma_low_first(x: u16, y: u16)
    by (bit_vector)
    requires
        bit(x, 0) == bit(y, 0),
    ensures
        x & low_mask(1) == y & low_mask(1),
{
}

/// Two registers that agree on their low `n` bits and on bit `n` agree on
/// their low `n + 1` bits.
proof fn lemma_low_next(x: u16, y: u16, n: u16)
    by (bit_vector)
    requires
        1 <= n <= 15,
        x & low_mask(n) == y & low_mask(n),
        bit(x, n) == bit(y, n),
    ensures
        x & low_mask((n + 1) as u16) == y & low_mask((n + 1) as u16),
{
}

/// Two registers with the guard bits set that agree below them are equal.
proof fn lemma_guarded_equal(x: u16, y: u16, w: u16)
    by (bit_vector)
    requires
        1 <= w <= 15,
        x | guard(w) == x,
        y | guard(w) == y,
        x & low_mask((w + 1) as u16) == y & low_mask((w + 1) as u16),
    ensures
        x == y,
{
}

/// Two registers that agree on each of their low `n` bits agree on the low
/// `n` bits as a whole.
proof fn lemma_low_from_bits(x: u16, y: u16, n: u16)
    requires
        1 <= n <= 16,
        forall|j: u16| j < n ==> bit(x, j) == bit(y, j),
    ensures
        x & low_mask(n) == y & low_mask(n),
    decreases n,
{
    if n == 1 {
        assert(bit(x, 0) == bit(y, 0));
        lemma_low_first(x, y);
    } else {
        let m = (n - 1) as u16;
        lemma_low_from_bits(x, y, m);
        assert(bit(x, m) == bit(y, m));
        lemma_low_next(x, y, m);
    }
}

/// The samples that a register holds for a window of `w`: sample `j` is high
/// where bit `j` is set.
pub open spec fn samples_of(h: u16, w: u16) -> Seq<bool> {
    Seq::new((w + 1) as nat, |j: int| bit(h, j as u16))
}

/// A register with its guard bits set is the target exactly when its
/// samples show a press that has just become stable.
pub proof fn lemma_target_is_edge(h: u16, w: u16)
    requires
        1 <= w <= 15,
        h | guard(w) == h,
    ensures
        (h == target(w)) == edge(samples_of(h, w)),
{
    let v = samples_of(h, w);
    let n = (w + 1) as u16;
    if h == target(w) {
        assert forall|j: int| 0 <= j < v.len() - 1 implies #[trigger] v[j] by {
            lemma_target_bit(w, j as u16);
        }
        lemma_target_bit(w, w);
        assert(!v[w as int]);
    }
    if edge(v) {
        assert forall|j: u16| j < n implies bit(h, j) == bit(target(w), j) by {
            lemma_target_bit(w, j);
            if j < w {
                assert(v[j as int]);
            } else {
                assert(!v[w as int]);
            }
        }
        lemma_low_from_bits(h, target(w), n);
        lemma_target_bit(w, 0);
        lemma_guarded_equal(h, target(w), w);
    }
}

/// A debounced push button. It owns the history of its samples; one value
/// stands for one physical button.
pub struct Button {
    count: u16,
    window: u8,
}

impl View for Button {
    type V = Seq<bool>;

    /// The last `window + 1` samples, newest first; `true` is a closed
    /// contact.
    open spec fn view(&self) -> Seq<bool> {
        samples_of(self.register(), self.window() as u16)
    }
}

impl Button {
    /// The number of consecutive high samples that make a press.
    pub closed spec fn window(&self) -> nat {
        self.window as nat
    }

    /// The shift register: bit `j` is set where the contact was closed `j`
    /// ticks ago.
    pub closed spec fn register(&self) -> u16 {
        self.count
    }

    /// The window fits the register, and the view holds one sample more
    /// than the window.
    #[verifier::type_invariant]
    pub closed spec fn inv(&self) -> bool {
        1 <= self.window <= 15
    }

    /// The shift register as it stands.
    pub fn history(&self) -> (r: u16)
        ensures
            r == self.register(),
    {
        self.count
    }

    /// The window of this button, in samples.
    pub fn samples(&self) -> (r: u8)
        ensures
            r == self.window(),
            1 <= r <= 15,
            self@.len() == r + 1,
    {
        proof {
            use_type_invariant(self);
        }
        self.window
    }

    /// A button with the default window. Its history reads as if the button
    /// had been held all along, so that a contact that is closed at power-up
    /// is not taken for a press.
    pub fn new() -> (r: Button)
        ensures
            r.window() == WINDOW,
            r.register() == 0xFFFF,
            r@ =~= Seq::new((WINDOW + 1) as nat, |j: int| true),
    {
        proof {
            lemma_full_register();
        }
        Button { count: 0xFFFF, window: WINDOW }
    }

    /// A button with a window of the caller's choice, which must be from 1
    /// to 15 samples.
    pub fn with_window(window: u8) -> (r: Option<Button>)
        ensures
            r.is_some() == (1 <= window <= 15),
            r matches Some(b) ==> b.window() == window && b.register() == 0xFFFF && b@ =~= Seq::new(
                (window + 1) as nat,
                |j: int| true,
            ),
    {
        if 1 <= window && window <= 15 {
            proof {
                lemma_full_register();
            }
            Some(Button { count: 0xFFFF, window })
        } else {
            None
        }
    }

    /// Takes the value read from the input port at this tick, shifts the
    /// button's sample into the history and reports whether a press has
    /// become stable at this very tick. To be called once per timer tick, in
    /// tick order.
    pub fn is_pressed(&mut self, port: u32) -> (r: bool)
        ensures
            final(self).window() == old(self).window(),
            final(self)@.len() == old(self)@.len() == old(self).window() + 1,
            final(self).register() == shifted(
                old(self).register(),
                old(self).window() as u16,
                if contact(port) {
                    1
                } else {
                    0
                },
            ),
            final(self).register() | guard(old(self).window() as u16) == final(self).register(),
            r == (final(self).register() == target(old(self).window() as u16)),
            final(self)@ =~= pushed(old(self)@, contact(port)),
            r == edge(final(self)@),
    {
        proof {
            use_type_invariant(&*self);
        }
        let masked_reg: u32 = port & BUTTON_MASK;
        let mut new_in: u16 = 0;
        if masked_reg != 0 {
            new_in = 1;
        }
        let w: u16 = self.window as u16;
        let ghost before: u16 = self.count;
        let guard_bits: u16 = !(0xFFFFu16 >> (15 - w));
        let target_bits: u16 = guard_bits | (0xFFFFu16 >> (16 - w));
        let next: u16 = (self.count << 1) | new_in | guard_bits;
        proof {
            assert(guard_bits == guard(w));
            assert(target_bits == target(w));
            assert(next == shifted(before, w, new_in));
            lemma_shifted_bit(before, w, new_in, 0);
            lemma_target_is_edge(next, w);
            let old_view = samples_of(before, w);
            let new_view = samples_of(next, w);
            assert forall|j: int| 0 <= j < new_view.len() implies new_view[j] == pushed(
                old_view,
                contact(port),
            )[j] by {
                lemma_shifted_bit(before, w, new_in, j as u16);
            }
        }
        self.count = next;
        self.count == target_bits
    }
}

} // verus!
