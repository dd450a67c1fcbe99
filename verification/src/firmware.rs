//! Writing button maps into the mouse firmware: each map is written, read
//! back, written once more where the read-back differs, and the whole write
//! fails where it still differs.
//!
//! The decisions stand here as a state machine; the caller performs each
//! attempt (send the write packet, wait, read the map back) and hands the
//! outcome back.

use vstd::prelude::*;
use crate::actions::{hardware_mouse_value, spec_hardware_mouse_value, Action};
use crate::hid::{
    button_map_write_packet, spec_button_map_write, HidError, BTN_INDEX_EXTRA, BTN_INDEX_SIDE,
};

verus! {

/// Most write packets sent for one button before the write fails.
pub const MAX_ATTEMPTS: u8 = 2;

/// Where a write of button maps stands.
pub struct WriterView {
    /// The (button index, map value) pairs to write, in order.
    pub jobs: Seq<(u8, u16)>,
    /// The pair under way; the number of pairs confirmed so far.
    pub next: int,
    /// Write packets sent for the pair under way.
    pub attempt: int,
    pub done: bool,
    /// On `done`: whether every pair was confirmed.
    pub ok: bool,
}

impl WriterView {
    pub open spec fn wf(self) -> bool {
        &&& 0 <= self.next <= self.jobs.len()
        &&& 0 <= self.attempt <= MAX_ATTEMPTS
        &&& !self.done ==> self.next < self.jobs.len() && 1 <= self.attempt <= MAX_ATTEMPTS
        &&& (self.done && self.ok) ==> self.next == self.jobs.len()
        &&& (self.done && !self.ok) ==> self.next < self.jobs.len()
    }

    /// A write that has just started.
    pub open spec fn start(jobs: Seq<(u8, u16)>) -> WriterView {
        if jobs.len() == 0 {
            WriterView { jobs, next: 0, attempt: 0, done: true, ok: true }
        } else {
            WriterView { jobs, next: 0, attempt: 1, done: false, ok: false }
        }
    }

    /// The next state, given the outcome of the attempt under way: an error
    /// ends the write; a read-back equal to the value confirms the pair and
    /// moves to the next one; a different read-back leads to one more
    /// attempt, or ends the write where the attempts are used up.
    pub open spec fn step(self, outcome: Result<u16, HidError>) -> WriterView {
        match outcome {
            Err(_) => WriterView { jobs: self.jobs, next: self.next, attempt: self.attempt, done: true, ok: false },
            Ok(got) => {
                if got == self.jobs[self.next].1 {
                    if self.next + 1 == self.jobs.len() {
                        WriterView { jobs: self.jobs, next: self.next + 1, attempt: 0, done: true, ok: true }
                    } else {
                        WriterView { jobs: self.jobs, next: self.next + 1, attempt: 1, done: false, ok: false }
                    }
                } else if self.attempt < MAX_ATTEMPTS {
                    WriterView { jobs: self.jobs, next: self.next, attempt: self.attempt + 1, done: false, ok: false }
                } else {
                    WriterView { jobs: self.jobs, next: self.next, attempt: self.attempt, done: true, ok: false }
                }
            },
        }
    }

    /// The state after a run of outcomes; outcomes after the end are not read.
    pub open spec fn run(self, outcomes: Seq<Result<u16, HidError>>) -> WriterView
        decreases outcomes.len(),
    {
        if outcomes.len() == 0 || self.done {
            self
        } else {
            self.step(outcomes[0]).run(outcomes.drop_first())
        }
    }

    /// `st` is what a writer in this state asks for: the next attempt, with
    /// the write packet of the pair under way, or the end of an
    /// all-confirmed write.
    pub open spec fn asks(self, st: WriteStep) -> bool {
        match st {
            WriteStep::Attempt { btn_index, packet } => {
                &&& !self.done
                &&& btn_index == self.jobs[self.next].0
                &&& packet@ == spec_button_map_write(self.jobs[self.next].0, self.jobs[self.next].1)
            },
            WriteStep::Finished(r) => self.done && (r is Ok <==> self.ok),
        }
    }
}

/// What a write of button maps asks of its caller next.
pub enum WriteStep {
    /// Send `packet`, wait, read the map of `btn_index` back and hand over
    /// the read value, or the error on the way.
    Attempt { btn_index: u8, packet: Vec<u8> },
    /// The write is over, with this result.
    Finished(Result<(), HidError>),
}

#[derive(Clone, Copy)]
struct Progress {
    next: usize,
    attempt: u8,
    done: bool,
    ok: bool,
}

/// A write of button maps under way.
pub struct ButtonMapWriter {
    jobs: Vec<(u8, u16)>,
    progress: Progress,
}

impl View for ButtonMapWriter {
    type V = WriterView;

    closed spec fn view(&self) -> WriterView {
        WriterView {
            jobs: self.jobs@,
            next: self.progress.next as int,
            attempt: self.progress.attempt as int,
            done: self.progress.done,
            ok: self.progress.ok,
        }
    }
}

impl ButtonMapWriter {
    #[verifier::type_invariant]
    closed spec fn inv(self) -> bool {
        self@.wf()
    }

    fn attempt_step(&self) -> (st: WriteStep)
        requires
            !self@.done,
            self@.wf(),
        ensures
            self@.asks(st),
    {
        let job = self.jobs[self.progress.next];
        WriteStep::Attempt { btn_index: job.0, packet: button_map_write_packet(job.0, job.1) }
    }

    /// Starts a write of the pairs `jobs`, in order.
    pub fn begin(jobs: Vec<(u8, u16)>) -> (res: (ButtonMapWriter, WriteStep))
        ensures
            res.0@ == WriterView::start(jobs@),
            res.0@.wf(),
            res.0@.asks(res.1),
    {
        if jobs.len() == 0 {
            let w = ButtonMapWriter { jobs, progress: Progress { next: 0, attempt: 0, done: true, ok: true } };
            (w, WriteStep::Finished(Ok(())))
        } else {
            let w = ButtonMapWriter { jobs, progress: Progress { next: 0, attempt: 1, done: false, ok: false } };
            let st = w.attempt_step();
            (w, st)
        }
    }

    /// Whether the write is over.
    pub fn is_done(&self) -> (r: bool)
        ensures
            r == self@.done,
    {
        self.progress.done
    }

    /// Takes the outcome of the attempt under way and says what comes next.
    /// An error of the attempt ends the write with that error; two
    /// read-backs that differ from the value end it with `BadReply`.
    pub fn step(&mut self, outcome: Result<u16, HidError>) -> (st: WriteStep)
        requires
            !old(self)@.done,
        ensures
            final(self)@ == old(self)@.step(outcome),
            final(self)@.wf(),
            final(self)@.asks(st),
            outcome matches Err(e) ==> st matches WriteStep::Finished(Err(e2)) && e2 == e,
            outcome is Ok ==> (st matches WriteStep::Finished(Err(e)) ==> e is BadReply),
    {
        proof {
            use_type_invariant(&*self);
        }
        let p = self.progress;
        let job = self.jobs[p.next];
        match outcome {
            Err(e) => {
                self.progress = Progress { next: p.next, attempt: p.attempt, done: true, ok: false };
                WriteStep::Finished(Err(e))
            },
            Ok(got) => {
                if got == job.1 {
                    if p.next == self.jobs.len() - 1 {
                        self.progress = Progress { next: p.next + 1, attempt: 0, done: true, ok: true };
                        WriteStep::Finished(Ok(()))
                    } else {
                        self.progress = Progress { next: p.next + 1, attempt: 1, done: false, ok: false };
                        self.attempt_step()
                    }
                } else if p.attempt < MAX_ATTEMPTS {
                    self.progress = Progress { next: p.next, attempt: p.attempt + 1, done: false, ok: false };
                    self.attempt_step()
                } else {
                    self.progress = Progress { next: p.next, attempt: p.attempt, done: true, ok: false };
                    WriteStep::Finished(Err(HidError::BadReply))
                }
            },
        }
    }
}

/// The pairs that saving the side buttons writes: the rear button, then the
/// front button.
pub open spec fn side_button_jobs(side: u16, extra: u16) -> Seq<(u8, u16)> {
    seq![(BTN_INDEX_SIDE, side), (BTN_INDEX_EXTRA, extra)]
}

/// Saves the side buttons in the mouse firmware (so that they persist
/// without software): starts the write of `side` to the rear button and then
/// of `extra` to the front button.
pub fn write_side_button_maps(side: u16, extra: u16) -> (res: (ButtonMapWriter, WriteStep))
    ensures
        res.0@ == WriterView::start(side_button_jobs(side, extra)),
        res.0@.wf(),
        res.0@.asks(res.1),
{
    let jobs: Vec<(u8, u16)> = vec![(BTN_INDEX_SIDE, side), (BTN_INDEX_EXTRA, extra)];
    assert(jobs@ =~= side_button_jobs(side, extra));
    ButtonMapWriter::begin(jobs)
}

/// Factory map of the rear side button: Back.
pub const FACTORY_SIDE_MAP: u16 = 5;

/// Factory map of the front side button: Forward.
pub const FACTORY_EXTRA_MAP: u16 = 4;

/// Resets the side buttons in the mouse firmware to the factory maps.
pub fn write_factory_button_maps() -> (res: (ButtonMapWriter, WriteStep))
    ensures
        res.0@ == WriterView::start(side_button_jobs(FACTORY_SIDE_MAP, FACTORY_EXTRA_MAP)),
        res.0@.wf(),
        res.0@.asks(res.1),
{
    write_side_button_maps(FACTORY_SIDE_MAP, FACTORY_EXTRA_MAP)
}

/// One of the two side buttons.
#[derive(Debug, Clone, Copy, PartialEq, Eq, Structural)]
pub enum Slot {
    /// The rear button.
    Side,
    /// The front button.
    Extra,
}

pub open spec fn slot_btn_index(slot: Slot) -> u8 {
    match slot {
        Slot::Side => BTN_INDEX_SIDE,
        Slot::Extra => BTN_INDEX_EXTRA,
    }
}

pub open spec fn slot_factory_map(slot: Slot) -> u16 {
    match slot {
        Slot::Side => FACTORY_SIDE_MAP,
        Slot::Extra => FACTORY_EXTRA_MAP,
    }
}

/// What saving a button's action to the firmware writes.
#[derive(Debug, Clone, Copy, PartialEq, Eq, Structural)]
pub enum SlotValue {
    /// This map value.
    Fixed(u16),
    /// What the firmware holds now for `btn_index`, as read back; `fallback`
    /// where it cannot be read.
    Current { btn_index: u8, fallback: u16 },
    /// Nothing: the action needs the software remapper.
    NeedsDaemon,
}

pub open spec fn spec_slot_value(slot: Slot, action: Action) -> SlotValue {
    match spec_hardware_mouse_value(action) {
        Some(v) => SlotValue::Fixed(v),
        None => if action == Action::Default {
            SlotValue::Current { btn_index: slot_btn_index(slot), fallback: slot_factory_map(slot) }
        } else {
            SlotValue::NeedsDaemon
        },
    }
}

/// The firmware value for `action` on `slot`: its hardware map value where
/// it has one; for `Default`, what the firmware holds now (the factory map
/// where that cannot be read); otherwise none, as the action needs the
/// software remapper.
pub fn slot_value(slot: Slot, action: Action) -> (r: SlotValue)
    ensures
        r == spec_slot_value(slot, action),
{
    match hardware_mouse_value(action) {
        Some(v) => SlotValue::Fixed(v),
        None => {
            if action == Action::Default {
                match slot {
                    Slot::Side => SlotValue::Current { btn_index: BTN_INDEX_SIDE, fallback: FACTORY_SIDE_MAP },
                    Slot::Extra => SlotValue::Current { btn_index: BTN_INDEX_EXTRA, fallback: FACTORY_EXTRA_MAP },
                }
            } else {
                SlotValue::NeedsDaemon
            }
        },
    }
}

// -------------------------------------------------------------------- laws

/// Pair `j` was confirmed by outcome `k`: it was under way when outcome `k`
/// came, and outcome `k` read back exactly its value.
pub open spec fn confirmed_at(
    s: WriterView,
    outcomes: Seq<Result<u16, HidError>>,
    j: int,
    k: int,
) -> bool {
    let before = s.run(outcomes.take(k));
    &&& !before.done
    &&& before.next == j
    &&& outcomes[k] == Ok::<u16, HidError>(s.jobs[j].1)
}

/// Some outcome confirmed pair `j`.
pub open spec fn pair_confirmed(s: WriterView, outcomes: Seq<Result<u16, HidError>>, j: int) -> bool {
    exists|k: int| 0 <= k < outcomes.len() && #[trigger] confirmed_at(s, outcomes, j, k)
}

/// A step from a well-formed state that is not over is well formed, and keeps
/// the pairs.
pub proof fn lemma_step_wf(s: WriterView, outcome: Result<u16, HidError>)
    requires
        s.wf(),
        !s.done,
    ensures
        s.step(outcome).wf(),
        s.step(outcome).jobs == s.jobs,
        s.step(outcome).next >= s.next,
{
}

/// A write that has just started is well formed.
pub proof fn lemma_start_wf(jobs: Seq<(u8, u16)>)
    ensures
        WriterView::start(jobs).wf(),
{
}

proof fn lemma_run_confirms(s: WriterView, outcomes: Seq<Result<u16, HidError>>)
    requires
        s.wf(),
        s.run(outcomes).done,
        s.run(outcomes).ok,
    ensures
        forall|j: int| s.next <= j < s.jobs.len() ==> #[trigger] pair_confirmed(s, outcomes, j),
    decreases outcomes.len(),
{
    if outcomes.len() == 0 || s.done {
    } else {
        let s1 = s.step(outcomes[0]);
        let rest = outcomes.drop_first();
        lemma_step_wf(s, outcomes[0]);
        assert(s.run(outcomes) == s1.run(rest));
        if s1.done {
            assert(s1.run(rest) == s1);
        }
        lemma_run_confirms(s1, rest);
        assert forall|j: int| s.next <= j < s.jobs.len() implies #[trigger] pair_confirmed(
            s,
            outcomes,
            j,
        ) by {
            if j < s1.next {
                assert(outcomes.take(0) =~= Seq::<Result<u16, HidError>>::empty());
                assert(s.run(outcomes.take(0)) == s);
                assert(confirmed_at(s, outcomes, j, 0));
            } else {
                assert(pair_confirmed(s1, rest, j));
                let k1 = choose|k1: int| 0 <= k1 < rest.len() && #[trigger] confirmed_at(s1, rest, j, k1);
                let pre = outcomes.take(k1 + 1);
                assert(pre.drop_first() =~= rest.take(k1));
                assert(pre[0] == outcomes[0]);
                assert(s.run(pre) == s1.run(rest.take(k1)));
                assert(outcomes[k1 + 1] == rest[k1]);
                assert(confirmed_at(s, outcomes, j, k1 + 1));
            }
        }
    }
}

/// A write of button maps ends in success only if every pair was confirmed:
/// for each pair, some outcome handed over while it was under way read back
/// exactly its value.
pub proof fn lemma_success_confirms_every_pair(
    jobs: Seq<(u8, u16)>,
    outcomes: Seq<Result<u16, HidError>>,
)
    requires
        WriterView::start(jobs).run(outcomes).done,
        WriterView::start(jobs).run(outcomes).ok,
    ensures
        forall|j: int|
            0 <= j < jobs.len() ==> #[trigger] pair_confirmed(WriterView::start(jobs), outcomes, j),
{
    lemma_run_confirms(WriterView::start(jobs), outcomes);
}

/// No pair gets more than `MAX_ATTEMPTS` write packets: in every state that a
/// run reaches from a fresh start, the attempt count stays within it.
pub proof fn lemma_attempts_bounded(s: WriterView, outcomes: Seq<Result<u16, HidError>>)
    requires
        s.wf(),
    ensures
        s.run(outcomes).wf(),
        s.run(outcomes).attempt <= MAX_ATTEMPTS,
        s.run(outcomes).jobs == s.jobs,
    decreases outcomes.len(),
{
    if outcomes.len() == 0 || s.done {
    } else {
        lemma_step_wf(s, outcomes[0]);
        lemma_attempts_bounded(s.step(outcomes[0]), outcomes.drop_first());
    }
}

/// Moving on after a confirmation starts the next pair afresh: the next
/// pair is under way with one write packet sent, however many the pair
/// before it used, so every pair has `MAX_ATTEMPTS` packets of its own; a
/// confirmation of the last pair ends the write in success.
pub proof fn lemma_each_pair_starts_fresh(s: WriterView, got: u16)
    requires
        s.wf(),
        !s.done,
        got == s.jobs[s.next].1,
    ensures
        s.step(Ok(got)).next == s.next + 1,
        s.step(Ok(got)).jobs == s.jobs,
        s.next + 1 < s.jobs.len() ==> !s.step(Ok(got)).done && s.step(Ok(got)).attempt == 1,
        s.next + 1 == s.jobs.len() ==> s.step(Ok(got)).done && s.step(Ok(got)).ok,
{
}

/// A pair whose first read-back differs and whose second matches is
/// confirmed, whatever came before it: the mismatch leads to a second
/// attempt on the same pair, and the match then moves on.
pub proof fn lemma_retry_confirms(s: WriterView, bad: u16, good: u16)
    requires
        s.wf(),
        !s.done,
        s.attempt == 1,
        bad != s.jobs[s.next].1,
        good == s.jobs[s.next].1,
    ensures
        !s.step(Ok(bad)).done,
        s.step(Ok(bad)).next == s.next,
        s.step(Ok(bad)).attempt == 2,
        s.step(Ok(bad)).step(Ok(good)).next == s.next + 1,
        s.next + 1 < s.jobs.len() ==> !s.step(Ok(bad)).step(Ok(good)).done,
        s.next + 1 == s.jobs.len() ==> s.step(Ok(bad)).step(Ok(good)).done && s.step(
            Ok(bad),
        ).step(Ok(good)).ok,
{
}

/// A pair whose read-back differs twice ends the write in failure, on that
/// pair.
pub proof fn lemma_second_mismatch_fails(s: WriterView, bad1: u16, bad2: u16)
    requires
        s.wf(),
        !s.done,
        s.attempt == 1,
        bad1 != s.jobs[s.next].1,
        bad2 != s.jobs[s.next].1,
    ensures
        s.step(Ok(bad1)).step(Ok(bad2)).done,
        !s.step(Ok(bad1)).step(Ok(bad2)).ok,
        s.step(Ok(bad1)).step(Ok(bad2)).next == s.next,
{
}

/// Saving the side buttons succeeds when each button's first read-back
/// differs and its second matches: each button has its own retry.
pub proof fn lemma_side_buttons_each_retry(side: u16, extra: u16, bad_side: u16, bad_extra: u16)
    requires
        bad_side != side,
        bad_extra != extra,
    ensures
        ({
            let end = WriterView::start(side_button_jobs(side, extra)).run(
                seq![
                    Ok::<u16, HidError>(bad_side),
                    Ok::<u16, HidError>(side),
                    Ok::<u16, HidError>(bad_extra),
                    Ok::<u16, HidError>(extra)
                ],
            );
            end.done && end.ok
        }),
{
    let outs = seq![
        Ok::<u16, HidError>(bad_side),
        Ok::<u16, HidError>(side),
        Ok::<u16, HidError>(bad_extra),
        Ok::<u16, HidError>(extra)
    ];
    let s0 = WriterView::start(side_button_jobs(side, extra));
    let s1 = s0.step(outs[0]);
    let s2 = s1.step(outs[1]);
    let s3 = s2.step(outs[2]);
    let s4 = s3.step(outs[3]);
    assert(s2.next == 1 && s2.attempt == 1 && !s2.done);
    assert(s4.done && s4.ok);
    assert(outs.drop_first() =~= seq![outs[1], outs[2], outs[3]]);
    assert(outs.drop_first().drop_first() =~= seq![outs[2], outs[3]]);
    assert(outs.drop_first().drop_first().drop_first() =~= seq![outs[3]]);
    assert(outs.drop_first().drop_first().drop_first().drop_first() =~= Seq::<Result<u16, HidError>>::empty());
    assert(s4.run(Seq::<Result<u16, HidError>>::empty()) == s4);
    assert(s3.run(seq![outs[3]]) == s4);
    assert(s2.run(seq![outs[2], outs[3]]) == s4);
    assert(s1.run(seq![outs[1], outs[2], outs[3]]) == s4);
}

/// Saving an action to a button writes its firmware value where it has
/// one; `Default` keeps what that button's firmware holds, read from that
/// button's own index, with the button's factory map (the value of Back for
/// the rear button, of Forward for the front one) where it cannot be read;
/// every other action needs the software remapper.
pub proof fn lemma_slot_value_choices(slot: Slot, action: Action)
    ensures
        spec_hardware_mouse_value(action) matches Some(v) ==> spec_slot_value(slot, action)
            == SlotValue::Fixed(v),
        action == Action::Default && slot == Slot::Side ==> spec_slot_value(slot, action)
            == (SlotValue::Current { btn_index: 3, fallback: spec_hardware_mouse_value(Action::Back)->0 }),
        action == Action::Default && slot == Slot::Extra ==> spec_slot_value(slot, action)
            == (SlotValue::Current { btn_index: 4, fallback: spec_hardware_mouse_value(Action::Forward)->0 }),
        spec_hardware_mouse_value(action) is None && action != Action::Default ==> spec_slot_value(
            slot,
            action,
        ) == SlotValue::NeedsDaemon,
{
}

/// The factory maps are the hardware values of the actions the buttons
/// carry out of the box: Back on the rear button, Forward on the front one.
pub proof fn lemma_factory_maps_are_back_and_forward()
    ensures
        spec_hardware_mouse_value(Action::Back) == Some(FACTORY_SIDE_MAP),
        spec_hardware_mouse_value(Action::Forward) == Some(FACTORY_EXTRA_MAP),
{
}

} // verus!
