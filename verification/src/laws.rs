//! What holds of the agent and of the collector it relies on, whatever the
//! desktops, the instants and the answers.

use vstd::prelude::*;
use crate::bucket::{bucket_id_of, bucket_id_prefix, bucket_outcome, described, BucketView};
use crate::collector::{
    after_create, beat, create_reply, extended, stored_from, within_pulse, Buckets, StoredView,
};
use crate::decimal::{decimal_digits, lemma_decimal_digits_nonempty, lemma_decimal_round_trip};
use crate::event::{
    built, lemma_keys_differ, state_key, title_key, NANOS_PER_SEC, POLL_INTERVAL_SECS,
    PULSETIME_SECS, PULSE_WIDTH_SECS,
};
use crate::label::{normalized, positional_label, positional_prefix};
use crate::report::ReportError;
use crate::scheduler::{next, state_of, ActionView, Exit, InputView, LoopState, Phase};

verus! {

/// A desktop with a name is labelled by exactly that name; a desktop without
/// one is labelled by its one-based position.
pub proof fn law_label_is_name_or_position(name: Seq<char>, index: u32)
    ensures
        name.len() > 0 ==> normalized(name, index) == name,
        name.len() == 0 ==> normalized(name, index) == "Desktop "@ + decimal_digits(
            (index + 1) as nat,
        ),
{
}

/// No name and no position yield an empty label.
pub proof fn law_label_is_never_empty(name: Seq<char>, index: u32)
    ensures
        normalized(name, index).len() > 0,
{
    lemma_decimal_digits_nonempty((index + 1) as nat);
}

/// Unnamed desktops at different positions have different labels.
pub proof fn law_positions_have_distinct_labels(i: u32, j: u32)
    requires
        i != j,
    ensures
        positional_label(i) != positional_label(j),
{
    let prefix = positional_prefix();
    let a = decimal_digits((i + 1) as nat);
    let b = decimal_digits((j + 1) as nat);
    lemma_decimal_round_trip((i + 1) as nat);
    lemma_decimal_round_trip((j + 1) as nat);
    if prefix + a == prefix + b {
        assert((prefix + a).subrange(prefix.len() as int, (prefix + a).len() as int) =~= a);
        assert((prefix + b).subrange(prefix.len() as int, (prefix + b).len() as int) =~= b);
        assert(a == b);
    }
}

/// An event reports the label that it was built for, and spans the nominal
/// width from the instant of its sample.
pub proof fn lemma_built_event(label: Seq<char>, now: int)
    ensures
        built(label, now).label() == label,
        built(label, now).timestamp == now,
        built(label, now).end() == now + PULSE_WIDTH_SECS * NANOS_PER_SEC,
        built(label, now).data.dom() =~= set![state_key(), title_key()],
        built(label, now).data[title_key()] == Some(label),
{
    lemma_keys_differ();
}

/// A machine has one bucket id, and machines with different names have
/// different ones.
pub proof fn law_bucket_id_tells_hosts_apart(first: Seq<char>, second: Seq<char>)
    ensures
        bucket_id_of(first) == bucket_id_of(second) <==> first == second,
        described(first).id == bucket_id_of(first),
{
    let prefix = bucket_id_prefix();
    if prefix + first == prefix + second {
        assert((prefix + first).subrange(prefix.len() as int, (prefix + first).len() as int)
            =~= first);
        assert((prefix + second).subrange(prefix.len() as int, (prefix + second).len() as int)
            =~= second);
    }
}

/// Making sure of a bucket twice under one id: the second request is
/// answered as a success, and it leaves every bucket, description and
/// events, as the first request left it.
pub proof fn law_ensure_bucket_is_idempotent(buckets: Buckets, first: BucketView, second: BucketView)
    requires
        first.id == second.id,
    ensures
        bucket_outcome(create_reply(after_create(buckets, first), second)) is Ok,
        after_create(after_create(buckets, first), second) == after_create(buckets, first),
{
}

/// Two samples in a row with one label, the second taken less than the
/// tolerated gap after the first, are stored as one event: the second
/// heartbeat adds none. The event ends where the later of the two ends.
pub proof fn law_same_label_merges(
    events: Seq<StoredView>,
    label: Seq<char>,
    first_at: int,
    second_at: int,
    pulsetime_secs: nat,
)
    requires
        second_at - first_at < pulsetime_secs * NANOS_PER_SEC,
    ensures
        ({
            let once = beat(events, built(label, first_at), pulsetime_secs);
            let twice = beat(once, built(label, second_at), pulsetime_secs);
            &&& twice.len() == once.len()
            &&& twice.last() == extended(once.last(), built(label, second_at))
            &&& twice.last().label == label
            &&& twice.last().start == once.last().start
            &&& twice.drop_last() == once.drop_last()
        }),
        ({
            let once = beat(Seq::empty(), built(label, first_at), pulsetime_secs);
            let twice = beat(once, built(label, second_at), pulsetime_secs);
            &&& twice.len() == 1
            &&& twice[0].label == label
            &&& twice[0].start == first_at
            &&& twice[0].end == (if second_at > first_at {
                second_at
            } else {
                first_at
            }) + PULSE_WIDTH_SECS * NANOS_PER_SEC
        }),
{
    lemma_built_event(label, first_at);
    lemma_built_event(label, second_at);
    let once = beat(events, built(label, first_at), pulsetime_secs);
    let twice = beat(once, built(label, second_at), pulsetime_secs);
    assert(once.last().label == label);
    assert(once.last().end >= first_at + PULSE_WIDTH_SECS * NANOS_PER_SEC);
    assert(within_pulse(once.last(), built(label, second_at), pulsetime_secs));
    assert(twice.drop_last() =~= once.drop_last());
}

/// Two samples in a row with different labels are stored as two events,
/// however close in time they are: the second heartbeat leaves what is stored
/// as it is and adds an event of its own.
pub proof fn law_other_label_appends(
    events: Seq<StoredView>,
    first_label: Seq<char>,
    second_label: Seq<char>,
    first_at: int,
    second_at: int,
    pulsetime_secs: nat,
)
    requires
        first_label != second_label,
    ensures
        ({
            let once = beat(events, built(first_label, first_at), pulsetime_secs);
            let twice = beat(once, built(second_label, second_at), pulsetime_secs);
            &&& twice.len() == once.len() + 1
            &&& twice.drop_last() == once
            &&& twice.last() == stored_from(built(second_label, second_at))
            &&& twice.last().label == second_label
            &&& once.last().label == first_label
        }),
{
    lemma_built_event(first_label, first_at);
    lemma_built_event(second_label, second_at);
    let once = beat(events, built(first_label, first_at), pulsetime_secs);
    let twice = beat(once, built(second_label, second_at), pulsetime_secs);
    assert(once.last().label == first_label);
    assert(twice.drop_last() =~= once);
}

/// The events of a bucket that was empty after `ticks` samples of one
/// desktop, the first at `first_at` and each a polling interval after the one
/// before, every one of them reported with the agent's tolerance.
pub open spec fn after_steady_ticks(label: Seq<char>, first_at: int, ticks: nat) -> Seq<StoredView>
    decreases ticks,
{
    if ticks == 0 {
        Seq::empty()
    } else {
        beat(
            after_steady_ticks(label, first_at, (ticks - 1) as nat),
            built(label, first_at + (ticks - 1) * (POLL_INTERVAL_SECS * NANOS_PER_SEC)),
            PULSETIME_SECS as nat,
        )
    }
}

/// An unbroken stay on one desktop is stored as one event, however long it
/// lasts. The event begins with the first sample and ends the nominal width
/// after the last.
pub proof fn law_steady_desktop_is_one_event(label: Seq<char>, first_at: int, ticks: nat)
    requires
        ticks > 0,
    ensures
        after_steady_ticks(label, first_at, ticks) == seq![
            StoredView {
                label,
                start: first_at,
                end: first_at + (ticks - 1) * (POLL_INTERVAL_SECS * NANOS_PER_SEC)
                    + PULSE_WIDTH_SECS * NANOS_PER_SEC,
            },
        ],
    decreases ticks,
{
    let step: int = POLL_INTERVAL_SECS * NANOS_PER_SEC;
    let width: int = PULSE_WIDTH_SECS * NANOS_PER_SEC;
    let at = first_at + (ticks - 1) * step;
    let whole = StoredView { label, start: first_at, end: at + width };
    lemma_built_event(label, at);
    if ticks == 1 {
        assert(after_steady_ticks(label, first_at, 0) =~= Seq::empty());
        assert((ticks - 1) * step == 0) by (nonlinear_arith)
            requires
                ticks == 1,
        ;
        assert(stored_from(built(label, at)) == whole);
        assert(after_steady_ticks(label, first_at, 1) =~= seq![whole]);
    } else {
        let before = after_steady_ticks(label, first_at, (ticks - 1) as nat);
        law_steady_desktop_is_one_event(label, first_at, (ticks - 1) as nat);
        assert((ticks - 1) * step == (ticks - 2) * step + step) by (nonlinear_arith);
        assert(before.last() == (StoredView { label, start: first_at, end: at - step + width }));
        assert(within_pulse(before.last(), built(label, at), PULSETIME_SECS as nat));
        assert(extended(before.last(), built(label, at)) == whole);
        assert(after_steady_ticks(label, first_at, ticks) =~= seq![whole]);
    }
}

/// The loop samples more often than its events are wide and than the
/// collector is asked to tolerate, so that the events of an unbroken stay on
/// one desktop overlap.
pub proof fn law_ticks_overlap()
    ensures
        POLL_INTERVAL_SECS < PULSE_WIDTH_SECS,
        POLL_INTERVAL_SECS < PULSETIME_SECS,
{
}

/// The loop never asks for a wait of more than the polling interval, and a
/// cancellation during a wait ends it in that very step.
pub proof fn law_wait_is_short_and_can_be_cancelled(phase: Phase, input: InputView)
    ensures
        next(phase, input) matches Some((after, ActionView::Wait(secs))) ==> secs
            == POLL_INTERVAL_SECS && after == Phase::Waiting,
        next(Phase::Waiting, InputView::Cancelled) == Some(
            (Phase::Stopped(Exit::Cancelled), ActionView::Stop(Exit::Cancelled)),
        ),
{
}

/// A report that fails for the moment does not end the loop, and its event
/// is not sent again: the loop waits, then samples afresh, and whatever it
/// reports is built from the sample it was just told of.
pub proof fn law_transient_failure_is_passed_over(phase: Phase, input: InputView)
    ensures
        next(Phase::Reporting, InputView::Reported(Err(ReportError::Transient))) matches Some(
            (after, asked),
        ) && after == Phase::Waiting && asked == ActionView::Wait(POLL_INTERVAL_SECS as nat),
        next(Phase::Waiting, InputView::Elapsed) == Some((Phase::Sampling, ActionView::Sample)),
        next(phase, input) matches Some((_, ActionView::Report(event, pulsetime_secs))) ==> {
            &&& phase == Phase::Sampling
            &&& input matches InputView::Sampled(Ok((label, at)))
            &&& event == built(label, at)
            &&& pulsetime_secs == PULSETIME_SECS
        },
{
}

/// The loop runs until it is cancelled or a report is refused for good;
/// nothing else ends it, and once ended it takes no further step.
pub proof fn law_loop_ends_only_on_cancel_or_refusal(phase: Phase, input: InputView)
    ensures
        next(phase, input) matches Some((after, _)) ==> {
            &&& state_of(phase) == LoopState::Running
            &&& (state_of(after) == LoopState::Terminating <==> (input == InputView::Cancelled
                || input == InputView::Reported(Err(ReportError::Fatal))))
        },
        state_of(phase) == LoopState::Terminating ==> next(phase, input) is None,
{
}

} // verus!
