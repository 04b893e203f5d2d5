//! Health labels: the UP / UNHEALTHY / DOWN classification derived from the
//! consecutive-failure counter and the configured failure threshold.

use vstd::prelude::*;

verus! {

/// The per-iteration health label shown to the user.
#[derive(Clone, Copy, Debug, PartialEq, Eq, Structural)]
pub enum Label {
    Up,
    Unhealthy,
    Down,
}

/// The colour a rendered piece of the status line is painted with.
#[derive(Clone, Copy, Debug, PartialEq, Eq, Structural)]
pub enum Tint {
    Green,
    Yellow,
    Red,
}

/// The label derived from a consecutive-failure count and a threshold:
/// DOWN once the count reaches the threshold, UNHEALTHY for any smaller
/// positive count, UP at zero.
pub open spec fn label_spec(failures: nat, threshold: u64) -> Label {
    if failures >= threshold {
        Label::Down
    } else if failures > 0 {
        Label::Unhealthy
    } else {
        Label::Up
    }
}

/// The colour of a health label: green for UP, yellow for UNHEALTHY,
/// red for DOWN.
pub open spec fn label_tint_spec(label: Label) -> Tint {
    match label {
        Label::Up => Tint::Green,
        Label::Unhealthy => Tint::Yellow,
        Label::Down => Tint::Red,
    }
}

/// Derive the health label from the consecutive-failure count.
pub fn label_of(failures: u64, threshold: u64) -> (label: Label)
    ensures
        label == label_spec(failures as nat, threshold),
{
    if failures >= threshold {
        Label::Down
    } else if failures > 0 {
        Label::Unhealthy
    } else {
        Label::Up
    }
}

/// The colour the label is painted with.
pub fn label_tint(label: Label) -> (tint: Tint)
    ensures
        tint == label_tint_spec(label),
{
    match label {
        Label::Up => Tint::Green,
        Label::Unhealthy => Tint::Yellow,
        Label::Down => Tint::Red,
    }
}

/// The colour of the outcome description: red when this iteration's probe
/// failed, green otherwise.
pub fn outcome_tint(failed: bool) -> (tint: Tint)
    ensures
        tint == (if failed { Tint::Red } else { Tint::Green }),
{
    if failed {
        Tint::Red
    } else {
        Tint::Green
    }
}

/// For any threshold of at least one, the three labels partition the
/// counter values: UP exactly at zero, DOWN exactly at or above the
/// threshold, UNHEALTHY exactly strictly in between.
pub proof fn lemma_label_partition(failures: nat, threshold: u64)
    requires
        threshold >= 1,
    ensures
        (label_spec(failures, threshold) == Label::Up) <==> (failures == 0),
        (label_spec(failures, threshold) == Label::Down) <==> (failures >= threshold),
        (label_spec(failures, threshold) == Label::Unhealthy) <==> (0 < failures
            < threshold),
{
}

/// With a threshold of one, any positive failure count is already DOWN,
/// so UNHEALTHY is never observed.
pub proof fn lemma_threshold_one_skips_unhealthy(failures: nat)
    ensures
        failures >= 1 ==> label_spec(failures, 1) == Label::Down,
        label_spec(failures, 1) != Label::Unhealthy,
{
}

} // verus!
