//! What holds of the decoder over whole runs of readings.
//!
//! A run is a sequence of two-bit readings, oldest first, fed to a decoder
//! one per tick. The functions here are proofs: they state when a click can
//! and cannot come out of a run.

use vstd::prelude::*;
use crate::rotary_encoder::{EncoderState, State, step, click, run, event_at};

verus! {

/// Every reading of a run is a two-bit value.
pub open spec fn two_bit(inputs: Seq<u8>) -> bool {
    forall|i: int| 0 <= i < inputs.len() ==> #[trigger] inputs[i] < 4
}

/// How many ticks of the run `inputs`, started in `s`, report `e`.
pub open spec fn count(s: EncoderState, inputs: Seq<u8>, e: State) -> nat
    decreases inputs.len(),
{
    if inputs.len() == 0 {
        0
    } else {
        let earlier = count(s, inputs.drop_last(), e);
        if click(run(s, inputs.drop_last()), inputs.last()) == e {
            earlier + 1
        } else {
            earlier
        }
    }
}

/// The reading that starts a detent: 1 for clockwise, 2 for
/// counter-clockwise.
pub open spec fn opening(cw: bool) -> u8 {
    if cw { 1 } else { 2 }
}

/// The reading of the last step before rest: 2 for clockwise, 1 for
/// counter-clockwise.
pub open spec fn closing(cw: bool) -> u8 {
    if cw { 2 } else { 1 }
}

/// The click of a direction.
pub open spec fn click_of(cw: bool) -> State {
    if cw { State::CW } else { State::CCW }
}

/// How far `s` is into a detent of the given direction: 1, 2 or 3 for its
/// three intermediate states, 0 for every other state.
pub open spec fn stage(s: EncoderState, cw: bool) -> int {
    match s {
        EncoderState::CW01 => if cw { 1 } else { 0 },
        EncoderState::CW00 => if cw { 2 } else { 0 },
        EncoderState::CW10 => if cw { 3 } else { 0 },
        EncoderState::CCW10 => if cw { 0 } else { 1 },
        EncoderState::CCW00 => if cw { 0 } else { 2 },
        EncoderState::CCW01 => if cw { 0 } else { 3 },
        EncoderState::Idle => 0,
    }
}

/// The readings before tick `k` show a detent that was opened at tick `a`
/// and has not been left since.
pub open spec fn opened(inputs: Seq<u8>, k: int, cw: bool, a: int) -> bool {
    &&& 0 <= a < k <= inputs.len()
    &&& inputs[a] == opening(cw)
    &&& forall|m: int| a < m < k ==> #[trigger] inputs[m] != 3
}

/// The readings before tick `k` show a detent of the given direction that
/// was opened at tick `a`, read 0 at tick `c - 1`, took its last step at
/// tick `c` and has read no 0 since.
pub open spec fn turned(inputs: Seq<u8>, k: int, cw: bool, a: int, c: int) -> bool {
    &&& opened(inputs, k, cw, a)
    &&& a < c - 1
    &&& c < k
    &&& inputs[c - 1] == 0
    &&& inputs[c] == closing(cw)
    &&& forall|m: int| c < m < k ==> #[trigger] inputs[m] != 0
}

/// A loss of synchronisation is absorbed. The reading 3 leads to rest from
/// every state, the last intermediate states included, and the tick reports
/// nothing.
pub proof fn lemma_fault_resets(s: EncoderState)
    ensures
        step(s, 3) == EncoderState::Idle,
        click(s, 3) == State::IDLE,
{
}

/// When a click is reported: exactly on the tick where the decoder stands
/// at the last step of a direction and reads the closing 0. The decoder is
/// at rest afterwards.
pub proof fn lemma_click_exact(s: EncoderState, input: u8, cw: bool)
    requires
        input < 4,
    ensures
        (click(s, input) == click_of(cw)) == (stage(s, cw) == 3 && input == 0),
        click(s, input) == click_of(cw) ==> step(s, input) == EncoderState::Idle && input != 3,
        click(s, input) != State::CW && click(s, input) != State::CCW ==> click(s, input)
            == State::IDLE,
{
}

/// Two ticks in a row never both report a click.
pub proof fn lemma_no_click_after_click(s: EncoderState, first: u8, second: u8)
    requires
        first < 4,
        second < 4,
        click(s, first) != State::IDLE,
    ensures
        click(step(s, first), second) == State::IDLE,
{
}

/// The state before tick `k` follows from the state before tick `k - 1`.
pub proof fn lemma_run_unfold(s: EncoderState, inputs: Seq<u8>, k: int)
    requires
        0 < k <= inputs.len(),
    ensures
        run(s, inputs.take(k)) == step(run(s, inputs.take(k - 1)), inputs[k - 1]),
{
    assert(inputs.take(k).drop_last() =~= inputs.take(k - 1));
}

/// Where a decoder that started at rest stands inside a detent before tick
/// `k`, the readings show how it got there: the detent was opened and not
/// left; at the second step the last reading was 0; at the third step the
/// readings show the whole turn.
pub proof fn lemma_stage_history(inputs: Seq<u8>, k: int, cw: bool) -> (w: (int, int))
    requires
        0 <= k <= inputs.len(),
        two_bit(inputs),
        stage(run(EncoderState::Idle, inputs.take(k)), cw) > 0,
    ensures
        opened(inputs, k, cw, w.0),
        stage(run(EncoderState::Idle, inputs.take(k)), cw) == 2 ==> {
            &&& w.0 < k - 1
            &&& inputs[k - 1] == 0
        },
        stage(run(EncoderState::Idle, inputs.take(k)), cw) == 3 ==> turned(inputs, k, cw, w.0, w.1),
    decreases k,
{
    if k == 0 {
        assert(inputs.take(0).len() == 0);
        (0, 0)
    } else {
        lemma_run_unfold(EncoderState::Idle, inputs, k);
        let before = run(EncoderState::Idle, inputs.take(k - 1));
        let now = run(EncoderState::Idle, inputs.take(k));
        let input = inputs[k - 1];
        assert(input < 4);
        assert(now == step(before, input));
        if stage(before, cw) == 0 {
            (k - 1, 0)
        } else {
            let w = lemma_stage_history(inputs, k - 1, cw);
            if stage(now, cw) == 3 && stage(before, cw) == 2 {
                (w.0, k - 1)
            } else {
                w
            }
        }
    }
}

/// A click needs a full turn. Where tick `k` of a decoder that started at
/// rest reports a click, that tick reads the closing 0, and the readings
/// before it show a detent of that direction: opened, then 0, then the last
/// step, with no reading 3 and no other 0 in between. A rotation that turns
/// back before its last step therefore gives no click.
pub proof fn lemma_click_needs_full_turn(inputs: Seq<u8>, k: int, cw: bool) -> (w: (int, int))
    requires
        0 <= k < inputs.len(),
        two_bit(inputs),
        event_at(EncoderState::Idle, inputs, k) == click_of(cw),
    ensures
        inputs[k] == 0,
        turned(inputs, k, cw, w.0, w.1),
{
    let before = run(EncoderState::Idle, inputs.take(k));
    lemma_click_exact(before, inputs[k], cw);
    lemma_stage_history(inputs, k, cw)
}

/// The reading `v` seen on `n` ticks in a row.
pub open spec fn held(v: u8, n: nat) -> Seq<u8> {
    Seq::new(n, |i: int| v)
}

/// One clean detent as the sampler sees it: the opening reading on `a`
/// ticks, 0 on `b` ticks, the reading of the last step on `c` ticks, then 0
/// again on `d` ticks.
pub open spec fn detent(cw: bool, a: nat, b: nat, c: nat, d: nat) -> Seq<u8> {
    held(opening(cw), a) + held(0, b) + held(closing(cw), c) + held(0, d)
}

/// A run fed in two parts: the second part starts where the first ended, and
/// the events of the parts add up.
pub proof fn lemma_run_append(s: EncoderState, x: Seq<u8>, y: Seq<u8>, e: State)
    ensures
        run(s, x + y) == run(run(s, x), y),
        count(s, x + y, e) == count(s, x, e) + count(run(s, x), y, e),
    decreases y.len(),
{
    if y.len() == 0 {
        assert(x + y =~= x);
    } else {
        assert((x + y).drop_last() =~= x + y.drop_last());
        assert((x + y).last() == y.last());
        lemma_run_append(s, x, y.drop_last(), e);
    }
}

/// A reading that repeats: once the decoder has followed it to a state in
/// which that reading changes nothing, it stays there, and only the first
/// of those ticks can report anything.
pub proof fn lemma_run_held(s: EncoderState, v: u8, n: nat, e: State)
    requires
        n >= 1,
        step(step(s, v), v) == step(s, v),
        click(step(s, v), v) != e,
    ensures
        run(s, held(v, n)) == step(s, v),
        count(s, held(v, n), e) == if click(s, v) == e { 1nat } else { 0nat },
    decreases n,
{
    let h = held(v, n);
    assert(h.last() == v);
    assert(h.drop_last() =~= held(v, (n - 1) as nat));
    if n == 1 {
        assert(run(s, h.drop_last()) == s);
        assert(count(s, h.drop_last(), e) == 0);
    } else {
        lemma_run_held(s, v, (n - 1) as nat, e);
    }
}

/// One clean detent gives one click. However many ticks each reading of the
/// detent lasts, a decoder at rest reports the click of that direction
/// exactly once, on the first tick of the closing 0, reports no click of
/// the other direction, and is at rest again afterwards.
pub proof fn lemma_clean_detent(cw: bool, a: nat, b: nat, c: nat, d: nat)
    requires
        a >= 1,
        b >= 1,
        c >= 1,
        d >= 1,
    ensures
        run(EncoderState::Idle, detent(cw, a, b, c, d)) == EncoderState::Idle,
        count(EncoderState::Idle, detent(cw, a, b, c, d), click_of(cw)) == 1,
        count(EncoderState::Idle, detent(cw, a, b, c, d), click_of(!cw)) == 0,
        event_at(EncoderState::Idle, detent(cw, a, b, c, d), (a + b + c) as int) == click_of(cw),
{
    let x3 = held(opening(cw), a) + held(0, b) + held(closing(cw), c);
    let all = x3 + held(0, d);
    let k = (a + b + c) as int;
    assert(all.take(k) =~= x3);
    assert(all[k] == 0);
    lemma_detent_count(cw, a, b, c, d, click_of(cw));
    lemma_detent_count(cw, a, b, c, d, click_of(!cw));
}

/// The count behind `lemma_clean_detent`, for one kind of click.
proof fn lemma_detent_count(cw: bool, a: nat, b: nat, c: nat, d: nat, e: State)
    requires
        a >= 1,
        b >= 1,
        c >= 1,
        d >= 1,
        e != State::IDLE,
    ensures
        run(EncoderState::Idle, detent(cw, a, b, c, d)) == EncoderState::Idle,
        run(
            EncoderState::Idle,
            held(opening(cw), a) + held(0, b) + held(closing(cw), c),
        ) == step(step(step(EncoderState::Idle, opening(cw)), 0), closing(cw)),
        count(EncoderState::Idle, detent(cw, a, b, c, d), e) == if e == click_of(cw) {
            1nat
        } else {
            0nat
        },
{
    let s0 = EncoderState::Idle;
    let s1 = step(s0, opening(cw));
    let s2 = step(s1, 0);
    let s3 = step(s2, closing(cw));
    let x1 = held(opening(cw), a);
    let x2 = x1 + held(0, b);
    let x3 = x2 + held(closing(cw), c);
    lemma_run_held(s0, opening(cw), a, e);
    lemma_run_held(s1, 0, b, e);
    lemma_run_held(s2, closing(cw), c, e);
    lemma_run_held(s3, 0, d, e);
    lemma_run_append(s0, x1, held(0, b), e);
    lemma_run_append(s0, x2, held(closing(cw), c), e);
    lemma_run_append(s0, x3, held(0, d), e);
}

} // verus!
