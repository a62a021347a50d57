//! Per-pad pressure debouncing.
//!
//! Each pad keeps a sliding window of the last [`MEDIAN_KERNEL_LENGTH`] raw
//! pressure samples (12-bit values, `0..=4095`).  Feeding a sample evicts the
//! oldest one, takes the median of the window, and drives a three-state
//! machine that turns the noisy pressure stream into discrete
//! press/aftertouch/release transitions.

use vstd::prelude::*;

verus! {

/// Number of samples in the median window.  Odd, so the median is exact.
pub const MEDIAN_KERNEL_LENGTH: usize = 15;

/// The largest raw sample: pressures are 12-bit values.
pub const PRESSURE_MAX: u16 = 4095;

/// A median at or above this raw value counts as "pressed above threshold".
/// On samples scaled to `0..=4095` this is the least raw median `m` with
/// `m / 4095 > 32 / 4096`, the noise floor of the transducer.
pub const PRESSURE_THRESHOLD: u16 = 32;

/// Internal mode of one pad's debounce state machine.
#[derive(Copy, Clone, PartialEq, Eq, Structural, Debug)]
pub enum MaschinePadState {
    Unpressed,
    PressedBelowThreshold,
    PressedAboveThreshold,
}

/// Discrete transition emitted for one fed sample.
#[derive(Copy, Clone, PartialEq, Eq, Structural, Debug)]
pub enum MaschinePadStateTransition {
    AtRest,
    Pressed,
    Aftertouch,
    Released,
}

/// Mode after one step of the state machine, given the median of the
/// window with the new sample already pushed.
pub open spec fn step_state(st: MaschinePadState, med: u16) -> MaschinePadState {
    match st {
        MaschinePadState::Unpressed => if med >= PRESSURE_THRESHOLD {
            MaschinePadState::PressedAboveThreshold
        } else if med > 0 {
            MaschinePadState::PressedBelowThreshold
        } else {
            MaschinePadState::Unpressed
        },
        MaschinePadState::PressedBelowThreshold => if med == 0 {
            MaschinePadState::Unpressed
        } else {
            MaschinePadState::PressedBelowThreshold
        },
        MaschinePadState::PressedAboveThreshold => if med == 0 {
            MaschinePadState::Unpressed
        } else {
            MaschinePadState::PressedAboveThreshold
        },
    }
}

/// Transition emitted by one step of the state machine.
pub open spec fn step_transition(st: MaschinePadState, med: u16) -> MaschinePadStateTransition {
    match st {
        MaschinePadState::Unpressed => if med >= PRESSURE_THRESHOLD {
            MaschinePadStateTransition::Pressed
        } else {
            MaschinePadStateTransition::AtRest
        },
        MaschinePadState::PressedBelowThreshold => MaschinePadStateTransition::AtRest,
        MaschinePadState::PressedAboveThreshold => if med == 0 {
            MaschinePadStateTransition::Released
        } else {
            MaschinePadStateTransition::Aftertouch
        },
    }
}

/// The sample window after pushing `raw`: the oldest sample leaves.
pub open spec fn feed_window(w: Seq<u16>, raw: u16) -> Seq<u16> {
    w.drop_first().push(raw)
}

/// The ordering by which the sample window is sorted for the median.
pub open spec fn sample_leq() -> spec_fn(u16, u16) -> bool {
    |a: u16, b: u16| a <= b
}

/// The sample window in ascending order.
pub open spec fn sorted_window(w: Seq<u16>) -> Seq<u16> {
    w.sort_by(sample_leq())
}

/// Median of a sample window: the middle order statistic for odd lengths;
/// for even lengths the average (rounded down) of the two central order
/// statistics, a tie-break kept for robustness although the live kernel
/// length is odd.
pub open spec fn spec_median(w: Seq<u16>) -> u16
    recommends
        w.len() > 0,
{
    let s = sorted_window(w);
    if w.len() % 2 == 1 {
        s[w.len() as int / 2]
    } else {
        (((s[w.len() as int / 2 - 1] + s[w.len() as int / 2]) as int) / 2) as u16
    }
}

/// Inserting `x` at the first position whose element exceeds it keeps a
/// sorted sequence sorted.
proof fn lemma_insert_sorted(r_old: Seq<u16>, x: u16, j: int)
    requires
        vstd::relations::sorted_by(r_old, sample_leq()),
        0 <= j <= r_old.len(),
        forall|k: int| 0 <= k < j ==> r_old[k] <= x,
        j < r_old.len() ==> !(r_old[j] <= x),
    ensures
        vstd::relations::sorted_by(r_old.insert(j, x), sample_leq()),
{
    let leq = sample_leq();
    let r_new = r_old.insert(j, x);
    r_old.insert_ensures(j, x);
    assert forall|p: int, q: int| 0 <= p < q < r_new.len() implies leq(r_new[p], r_new[q]) by {
        if q < j {
            assert(r_new[p] == r_old[p] && r_new[q] == r_old[q]);
            assert(leq(r_old[p], r_old[q]));
        } else if q == j {
            assert(r_new[p] == r_old[p] && r_new[q] == x);
        } else if p < j {
            assert(r_new[p] == r_old[p] && r_new[q] == r_old[q - 1]);
            assert(leq(r_old[p], r_old[q - 1]));
        } else if p == j {
            assert(r_new[p] == x && r_new[q] == r_old[q - 1]);
            assert(!(r_old[j] <= x));
            if j < q - 1 {
                assert(leq(r_old[j], r_old[q - 1]));
            }
        } else {
            assert(r_new[p] == r_old[p - 1] && r_new[q] == r_old[q - 1]);
            assert(leq(r_old[p - 1], r_old[q - 1]));
        }
    }
}

proof fn lemma_sample_leq_total_ordering()
    ensures
        vstd::relations::total_ordering(sample_leq()),
{
    let leq = sample_leq();
    assert forall|a: u16, b: u16| #[trigger] leq(a, b) || #[trigger] leq(b, a) by {}
}

/// Ascending insertion sort; the result is the unique sorted permutation of
/// the input, i.e. `sorted_window` of it.
fn sort_samples(v: &Vec<u16>) -> (r: Vec<u16>)
    ensures
        r@ == sorted_window(v@),
        r@.len() == v@.len(),
{
    broadcast use vstd::seq_lib::group_to_multiset_ensures;

    let mut r: Vec<u16> = Vec::new();
    let mut i: usize = 0;
    while i < v.len()
        invariant
            i <= v@.len(),
            r@.len() == i,
            vstd::relations::sorted_by(r@, sample_leq()),
            r@.to_multiset() == v@.take(i as int).to_multiset(),
        decreases v@.len() - i,
    {
        let x = v[i];
        let mut j: usize = 0;
        while j < r.len() && r[j] <= x
            invariant
                j <= r@.len(),
                forall|k: int| 0 <= k < j ==> r@[k] <= x,
            decreases r@.len() - j,
        {
            j += 1;
        }
        let ghost r_old = r@;
        r.insert(j, x);
        proof {
            lemma_insert_sorted(r_old, x, j as int);
            assert(v@.take(i + 1) =~= v@.take(i as int).push(v@[i as int]));
            vstd::seq_lib::to_multiset_insert(r_old, j as int, x);
            vstd::seq_lib::to_multiset_build(v@.take(i as int), v@[i as int]);
            assert(r@.to_multiset() =~= v@.take(i + 1).to_multiset());
        }
        i += 1;
    }
    proof {
        assert(v@.take(v@.len() as int) =~= v@);
        v@.lemma_sort_by_ensures(sample_leq());
        lemma_sample_leq_total_ordering();
        vstd::seq_lib::lemma_sorted_unique(r@, sorted_window(v@), sample_leq());
    }
    r
}

/// The median never exceeds a bound that every sample respects.
pub proof fn lemma_median_bounded(w: Seq<u16>, bound: u16)
    requires
        w.len() > 0,
        forall|i: int| 0 <= i < w.len() ==> w[i] <= bound,
    ensures
        spec_median(w) <= bound,
{
    broadcast use vstd::seq_lib::group_to_multiset_ensures;

    w.lemma_sort_by_ensures(sample_leq());
    let s = sorted_window(w);
    vstd::seq_lib::to_multiset_len(s);
    vstd::seq_lib::to_multiset_len(w);
    assert(s.len() == w.len());
    assert forall|k: int| 0 <= k < s.len() implies s[k] <= bound by {
        assert(s.contains(s[k]));
        assert(w.to_multiset().contains(s[k]));
        assert(w.contains(s[k]));
        let i = choose|i: int| 0 <= i < w.len() && w[i] == s[k];
        assert(w[i] <= bound);
    }
}

/// Window after feeding a whole sequence of raw samples.
pub open spec fn run_window(w: Seq<u16>, raws: Seq<u16>) -> Seq<u16>
    decreases raws.len(),
{
    if raws.len() == 0 {
        w
    } else {
        run_window(feed_window(w, raws[0]), raws.drop_first())
    }
}

/// Machine mode after feeding a whole sequence of raw samples.
pub open spec fn run_state(w: Seq<u16>, st: MaschinePadState, raws: Seq<u16>) -> MaschinePadState
    decreases raws.len(),
{
    if raws.len() == 0 {
        st
    } else {
        let w1 = feed_window(w, raws[0]);
        run_state(w1, step_state(st, spec_median(w1)), raws.drop_first())
    }
}

/// The transitions emitted while feeding a whole sequence of raw samples.
pub open spec fn run_transitions(w: Seq<u16>, st: MaschinePadState, raws: Seq<u16>) -> Seq<
    MaschinePadStateTransition,
>
    decreases raws.len(),
{
    if raws.len() == 0 {
        Seq::empty()
    } else {
        let w1 = feed_window(w, raws[0]);
        let med = spec_median(w1);
        seq![step_transition(st, med)] + run_transitions(
            w1,
            step_state(st, med),
            raws.drop_first(),
        )
    }
}

/// One transition is emitted per fed sample.
pub proof fn lemma_run_transitions_len(w: Seq<u16>, st: MaschinePadState, raws: Seq<u16>)
    ensures
        run_transitions(w, st, raws).len() == raws.len(),
    decreases raws.len(),
{
    if raws.len() > 0 {
        let w1 = feed_window(w, raws[0]);
        lemma_run_transitions_len(w1, step_state(st, spec_median(w1)), raws.drop_first());
    }
}

/// Unfolding a run at step `n`: the window and mode before the step are
/// those of the run over the first `n` samples, and the emitted transition
/// and next mode are one machine step from there.
proof fn lemma_run_unfold_at(w: Seq<u16>, st: MaschinePadState, raws: Seq<u16>, n: int)
    requires
        0 <= n < raws.len(),
    ensures
        ({
            let w_n = run_window(w, raws.take(n));
            let st_n = run_state(w, st, raws.take(n));
            let med = spec_median(feed_window(w_n, raws[n]));
            &&& run_transitions(w, st, raws)[n] == step_transition(st_n, med)
            &&& run_window(w, raws.take(n + 1)) == feed_window(w_n, raws[n])
            &&& run_state(w, st, raws.take(n + 1)) == step_state(st_n, med)
        }),
    decreases n,
{
    lemma_run_transitions_len(w, st, raws);
    let w1 = feed_window(w, raws[0]);
    let med0 = spec_median(w1);
    let st1 = step_state(st, med0);
    let raws1 = raws.drop_first();
    if n == 0 {
        assert(raws.take(0) =~= Seq::<u16>::empty());
        assert(raws.take(1) =~= seq![raws[0]]);
        assert(seq![raws[0]].drop_first() =~= Seq::<u16>::empty());
        assert(run_window(w, raws.take(1)) == run_window(w1, seq![raws[0]].drop_first()));
        assert(run_state(w, st, raws.take(1)) == run_state(w1, st1, seq![raws[0]].drop_first()));
    } else {
        lemma_run_unfold_at(w1, st1, raws1, n - 1);
        lemma_run_transitions_len(w1, st1, raws1);
        assert(raws.take(n).drop_first() =~= raws1.take(n - 1));
        assert(raws.take(n + 1).drop_first() =~= raws1.take(n));
        assert(raws1[n - 1] == raws[n]);
        assert(run_transitions(w, st, raws)[n] == run_transitions(w1, st1, raws1)[n - 1]);
        assert(run_window(w, raws.take(n)) == run_window(w1, raws1.take(n - 1)));
        assert(run_state(w, st, raws.take(n)) == run_state(w1, st1, raws1.take(n - 1)));
        assert(run_window(w, raws.take(n + 1)) == run_window(w1, raws1.take(n)));
        assert(run_state(w, st, raws.take(n + 1)) == run_state(w1, st1, raws1.take(n)));
    }
}

/// While no `Released` has been emitted, a pad that was held above the
/// threshold is still held above the threshold.
proof fn lemma_stays_pressed(w: Seq<u16>, raws: Seq<u16>, j: int)
    requires
        0 <= j <= raws.len(),
        forall|k: int|
            0 <= k < j ==> run_transitions(w, MaschinePadState::PressedAboveThreshold, raws)[k]
                != MaschinePadStateTransition::Released,
    ensures
        run_state(w, MaschinePadState::PressedAboveThreshold, raws.take(j))
            == MaschinePadState::PressedAboveThreshold,
    decreases j,
{
    let held = MaschinePadState::PressedAboveThreshold;
    if j > 0 {
        lemma_run_transitions_len(w, held, raws);
        let w1 = feed_window(w, raws[0]);
        let med = spec_median(w1);
        assert(run_transitions(w, held, raws)[0] == step_transition(held, med));
        assert(med != 0);
        assert(step_state(held, med) == held);
        let raws1 = raws.drop_first();
        assert forall|k: int| 0 <= k < j - 1 implies run_transitions(w1, held, raws1)[k]
            != MaschinePadStateTransition::Released by {
            assert(run_transitions(w, held, raws)[k + 1] == run_transitions(w1, held, raws1)[k]);
        }
        lemma_stays_pressed(w1, raws1, j - 1);
        assert(raws.take(j).drop_first() =~= raws1.take(j - 1));
        assert(run_state(w, held, raws.take(j)) == run_state(w1, held, raws1.take(j - 1)));
    } else {
        assert(raws.take(0) =~= Seq::<u16>::empty());
    }
}

/// Two presses are always separated by a release: in the transition stream
/// produced by any raw sample sequence, from any starting filter state,
/// a second `Pressed` can only follow an intervening `Released`.
pub proof fn lemma_pressed_requires_release(
    w: Seq<u16>,
    st: MaschinePadState,
    raws: Seq<u16>,
    i: int,
    j: int,
)
    requires
        0 <= i < j < raws.len(),
        run_transitions(w, st, raws)[i] == MaschinePadStateTransition::Pressed,
        run_transitions(w, st, raws)[j] == MaschinePadStateTransition::Pressed,
    ensures
        exists|k: int|
            i < k < j && run_transitions(w, st, raws)[k]
                == MaschinePadStateTransition::Released,
    decreases i,
{
    lemma_run_transitions_len(w, st, raws);
    let held = MaschinePadState::PressedAboveThreshold;
    let t = run_transitions(w, st, raws);
    let w1 = feed_window(w, raws[0]);
    let med0 = spec_median(w1);
    let st1 = step_state(st, spec_median(w1));
    let raws1 = raws.drop_first();
    let t1 = run_transitions(w1, st1, raws1);
    lemma_run_transitions_len(w1, st1, raws1);
    assert(forall|k: int| 0 <= k < raws1.len() ==> t[k + 1] == t1[k]);
    if i > 0 {
        lemma_pressed_requires_release(w1, st1, raws1, i - 1, j - 1);
        let k1 = choose|k1: int|
            i - 1 < k1 < j - 1 && t1[k1] == MaschinePadStateTransition::Released;
        assert(t[k1 + 1] == MaschinePadStateTransition::Released);
    } else {
        // The press at step 0 leaves the machine held above the threshold.
        assert(t[0] == step_transition(st, med0));
        assert(st1 == held);
        if forall|k: int| 0 < k < j ==> t[k] != MaschinePadStateTransition::Released {
            assert forall|k: int| 0 <= k < j - 1 implies t1[k]
                != MaschinePadStateTransition::Released by {
                assert(t[k + 1] == t1[k]);
            }
            lemma_stays_pressed(w1, raws1, j - 1);
            lemma_run_unfold_at(w1, held, raws1, j - 1);
            // From a held pad the machine can only emit Aftertouch or
            // Released, never a second Pressed.
            assert(t1[j - 1] == MaschinePadStateTransition::Pressed);
            assert(false);
        }
    }
}

/// `Aftertouch` is emitted only while the pad is held above the threshold:
/// the mode is `PressedAboveThreshold` both before and after the sample
/// whose transition is `Aftertouch`.
pub proof fn lemma_aftertouch_only_while_held(
    w: Seq<u16>,
    st: MaschinePadState,
    raws: Seq<u16>,
    i: int,
)
    requires
        0 <= i < raws.len(),
        run_transitions(w, st, raws)[i] == MaschinePadStateTransition::Aftertouch,
    ensures
        run_state(w, st, raws.take(i)) == MaschinePadState::PressedAboveThreshold,
        run_state(w, st, raws.take(i + 1)) == MaschinePadState::PressedAboveThreshold,
{
    lemma_run_unfold_at(w, st, raws, i);
}

/// One pad's debounce filter and state machine.
pub struct MaschinePad {
    state: MaschinePadState,
    pressure: Vec<u16>,
}

impl MaschinePad {
    /// The current sample window, oldest sample first.
    pub closed spec fn window(&self) -> Seq<u16> {
        self.pressure@
    }

    /// The current mode of the state machine.
    pub closed spec fn state(&self) -> MaschinePadState {
        self.state
    }

    /// The window always holds exactly `MEDIAN_KERNEL_LENGTH` samples, all
    /// within the 12-bit sample range.
    pub open spec fn wf(&self) -> bool {
        &&& self.window().len() == MEDIAN_KERNEL_LENGTH
        &&& (forall|i: int| 0 <= i < self.window().len() ==> self.window()[i] <= PRESSURE_MAX)
    }

    /// The pad's pressure as reported to callers: the filtered (median)
    /// value while held above the threshold, and zero otherwise.
    pub open spec fn spec_pressure(&self) -> u16 {
        if self.state() == MaschinePadState::PressedAboveThreshold {
            spec_median(self.window())
        } else {
            0
        }
    }

    /// Median of the current sample window.
    fn filtered_pressure(&self) -> (m: u16)
        requires
            self.wf(),
        ensures
            m == spec_median(self.window()),
    {
        let sorted = sort_samples(&self.pressure);
        proof {
            self.window().lemma_sort_by_ensures(sample_leq());
        }
        let middle = MEDIAN_KERNEL_LENGTH / 2;
        if MEDIAN_KERNEL_LENGTH % 2 == 1 {
            sorted[middle]
        } else {
            (((sorted[middle - 1] as u32) + (sorted[middle] as u32)) / 2) as u16
        }
    }

    /// Push one raw sample, refilter, and step the state machine.
    ///
    /// The emitted transition and the new mode are exactly those of
    /// [`step_transition`] and [`step_state`] applied to the median of the
    /// window with the new sample pushed.
    pub fn pressure_val(&mut self, pressure: u16) -> (t: MaschinePadStateTransition)
        requires
            old(self).wf(),
            pressure <= PRESSURE_MAX,
        ensures
            final(self).wf(),
            final(self).window() == feed_window(old(self).window(), pressure),
            final(self).state() == step_state(
                old(self).state(),
                spec_median(final(self).window()),
            ),
            t == step_transition(old(self).state(), spec_median(final(self).window())),
    {
        self.pressure.remove(0);
        self.pressure.push(pressure);
        proof {
            assert(self.pressure@ =~= feed_window(old(self).window(), pressure));
        }
        let filtered = self.filtered_pressure();

        match self.state {
            MaschinePadState::Unpressed => {
                if filtered >= PRESSURE_THRESHOLD {
                    self.state = MaschinePadState::PressedAboveThreshold;
                    return MaschinePadStateTransition::Pressed;
                } else if filtered > 0 {
                    self.state = MaschinePadState::PressedBelowThreshold;
                }
            },
            MaschinePadState::PressedBelowThreshold => {
                if filtered == 0 {
                    self.state = MaschinePadState::Unpressed;
                }
            },
            MaschinePadState::PressedAboveThreshold => {
                if filtered == 0 {
                    self.state = MaschinePadState::Unpressed;
                    return MaschinePadStateTransition::Released;
                } else {
                    return MaschinePadStateTransition::Aftertouch;
                }
            },
        }

        MaschinePadStateTransition::AtRest
    }

    /// Feed a whole sequence of raw samples, collecting the transitions.
    ///
    /// The result is exactly the transition stream of the spec-level run,
    /// so the laws about [`run_transitions`] — no second `Pressed` without
    /// an intervening `Released`, `Aftertouch` only while held — hold of
    /// what this filter emits.
    pub fn feed_sequence(&mut self, samples: &Vec<u16>) -> (ts: Vec<MaschinePadStateTransition>)
        requires
            old(self).wf(),
            forall|i: int| 0 <= i < samples@.len() ==> samples@[i] <= PRESSURE_MAX,
        ensures
            final(self).wf(),
            ts@ == run_transitions(old(self).window(), old(self).state(), samples@),
            final(self).window() == run_window(old(self).window(), samples@),
            final(self).state() == run_state(old(self).window(), old(self).state(), samples@),
    {
        let ghost w0 = old(self).window();
        let ghost s0 = old(self).state();
        proof {
            lemma_run_transitions_len(w0, s0, samples@);
        }
        let mut ts: Vec<MaschinePadStateTransition> = Vec::new();
        let mut i: usize = 0;
        while i < samples.len()
            invariant
                i <= samples@.len(),
                self.wf(),
                forall|k: int| 0 <= k < samples@.len() ==> samples@[k] <= PRESSURE_MAX,
                run_transitions(w0, s0, samples@).len() == samples@.len(),
                ts@ == run_transitions(w0, s0, samples@).take(i as int),
                self.window() == run_window(w0, samples@.take(i as int)),
                self.state() == run_state(w0, s0, samples@.take(i as int)),
            decreases samples@.len() - i,
        {
            let t = self.pressure_val(samples[i]);
            ts.push(t);
            proof {
                lemma_run_unfold_at(w0, s0, samples@, i as int);
                assert(ts@ =~= run_transitions(w0, s0, samples@).take(i + 1));
            }
            i += 1;
        }
        proof {
            assert(samples@.take(samples@.len() as int) =~= samples@);
            assert(ts@ =~= run_transitions(w0, s0, samples@));
        }
        ts
    }

    /// The filtered pressure while held above the threshold, zero otherwise.
    pub fn get_pressure(&self) -> (r: u16)
        requires
            self.wf(),
        ensures
            r == self.spec_pressure(),
            r <= PRESSURE_MAX,
    {
        proof {
            lemma_median_bounded(self.window(), PRESSURE_MAX);
        }
        match self.state {
            MaschinePadState::PressedAboveThreshold => self.filtered_pressure(),
            _ => 0,
        }
    }

    /// True exactly while the pad is held above the threshold.
    pub fn is_pressed(&self) -> (r: bool)
        ensures
            r == (self.state() == MaschinePadState::PressedAboveThreshold),
    {
        match self.state {
            MaschinePadState::PressedAboveThreshold => true,
            _ => false,
        }
    }
}

impl Default for MaschinePad {
    /// A fresh pad: unpressed, window pre-filled with zeros.
    fn default() -> (r: Self)
        ensures
            r.wf(),
            r.state() == MaschinePadState::Unpressed,
            r.window() =~= Seq::<u16>::new(MEDIAN_KERNEL_LENGTH as nat, |i: int| 0u16),
    {
        let mut pressure: Vec<u16> = Vec::new();
        let mut i: usize = 0;
        while i < MEDIAN_KERNEL_LENGTH
            invariant
                i <= MEDIAN_KERNEL_LENGTH,
                pressure@.len() == i,
                forall|j: int| 0 <= j < i ==> pressure@[j] == 0u16,
            decreases MEDIAN_KERNEL_LENGTH - i,
        {
            pressure.push(0u16);
            i += 1;
        }
        MaschinePad { state: MaschinePadState::Unpressed, pressure }
    }
}

} // verus!
