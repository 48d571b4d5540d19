//! Range tables: the snapshots of a flight picked at even distances.

use vstd::prelude::*;
use crate::config::Parameters;
use crate::fixed::{add_sat, plus};
use crate::trajectory::{
    has_packet, lemma_time_advances, packet_at, state_at, Packet, Trajectory,
};
use crate::units::{Angle, Length};

verus! {

/// How far the picking of rows has come.
pub struct Sampling {
    /// The rows picked so far.
    pub rows: Seq<Packet>,
    /// The distance from which the next row is picked.
    pub next: i64,
    /// Whether no snapshot has passed the limit yet.
    pub open: bool,
}

/// Takes one more snapshot into account.  After a snapshot past `limit`
/// nothing is picked any more; a snapshot at or past the distance `next`
/// becomes a row, and `next` moves on by `step`.
pub open spec fn sample_one(before: Sampling, pk: Packet, step: i64, limit: i64) -> Sampling {
    if !before.open || pk.distance.nanometers > limit {
        Sampling { open: false, ..before }
    } else if pk.distance.nanometers >= before.next {
        Sampling {
            rows: before.rows.push(pk),
            next: plus(before.next as int, step as int),
            open: true,
        }
    } else {
        before
    }
}

/// Picks rows from snapshots in the order of the flight, the first from
/// the distance `start` on.
#[verifier::opaque]
pub open spec fn sampling(packets: Seq<Packet>, start: i64, step: i64, limit: i64) -> Sampling
    decreases packets.len(),
{
    if packets.len() == 0 {
        Sampling { rows: Seq::empty(), next: start, open: true }
    } else {
        sample_one(sampling(packets.drop_last(), start, step, limit), packets.last(), step, limit)
    }
}

/// Picking from one more snapshot takes that snapshot into account last.
pub proof fn lemma_sampling_push(packets: Seq<Packet>, pk: Packet, start: i64, step: i64, limit: i64)
    ensures
        sampling(packets.push(pk), start, step, limit) == sample_one(
            sampling(packets, start, step, limit),
            pk,
            step,
            limit,
        ),
{
    reveal(sampling);
    assert(packets.push(pk).drop_last() == packets);
}

/// From no snapshots nothing is picked.
pub proof fn lemma_sampling_empty(start: i64, step: i64, limit: i64)
    ensures
        sampling(Seq::empty(), start, step, limit) == (Sampling {
            rows: Seq::empty(),
            next: start,
            open: true,
        }),
{
    reveal(sampling);
}

/// A flight's snapshots up to one more are its snapshots so far and that
/// one.
pub proof fn lemma_packets_between_push(p: Parameters, pitch: Angle, yaw: Angle, from: nat, count: nat)
    ensures
        packets_between(p, pitch, yaw, from, count + 1) == packets_between(
            p,
            pitch,
            yaw,
            from,
            count,
        ).push(packet_at(p, pitch, yaw, from + count)),
        packets_between(p, pitch, yaw, from, 0) == Seq::<Packet>::empty(),
{
    reveal(packets_between);
}

/// The `count` snapshots of a flight that start with the one after `from`
/// steps.
#[verifier::opaque]
pub open spec fn packets_between(
    p: Parameters,
    pitch: Angle,
    yaw: Angle,
    from: nat,
    count: nat,
) -> Seq<Packet> {
    Seq::new(count, |i: int| packet_at(p, pitch, yaw, (from + i) as nat))
}

/// Draws snapshots from a trajectory and picks the rows of a range table:
/// the first snapshot at or past `start`, then the first at or past one
/// `step` further, and so on.  Stops at the first snapshot past `end` plus
/// `step`, or where the flight ends.
#[verifier::rlimit(30)]
pub fn range_table(trajectory: &mut Trajectory, start: Length, end: Length, step: Length) -> (rows:
    Vec<Packet>)
    ensures
        final(trajectory)@.parameters == old(trajectory)@.parameters,
        final(trajectory)@.pitch == old(trajectory)@.pitch,
        final(trajectory)@.yaw == old(trajectory)@.yaw,
        final(trajectory)@.steps >= old(trajectory)@.steps,
        ({
            let picked = sampling(
                packets_between(
                    old(trajectory)@.parameters,
                    old(trajectory)@.pitch,
                    old(trajectory)@.yaw,
                    old(trajectory)@.steps,
                    (final(trajectory)@.steps - old(trajectory)@.steps) as nat,
                ),
                start.nanometers,
                step.nanometers,
                plus(end.nanometers as int, step.nanometers as int),
            );
            &&& rows@ == picked.rows
            &&& (!picked.open || !has_packet(
                final(trajectory)@.parameters,
                final(trajectory)@.pitch,
                final(trajectory)@.yaw,
                final(trajectory)@.steps,
            ))
        }),
{
    let limit = add_sat(end.nanometers, step.nanometers);
    let mut next = start.nanometers;
    let mut rows: Vec<Packet> = Vec::new();
    let ghost p = trajectory@.parameters;
    let ghost pitch = trajectory@.pitch;
    let ghost yaw = trajectory@.yaw;
    let ghost from = trajectory@.steps;
    proof {
        lemma_packets_between_push(p, pitch, yaw, from, 0);
        lemma_sampling_empty(start.nanometers, step.nanometers, limit);
    }
    loop
        invariant
            p == old(trajectory)@.parameters,
            pitch == old(trajectory)@.pitch,
            yaw == old(trajectory)@.yaw,
            from == old(trajectory)@.steps,
            trajectory@.parameters == p,
            trajectory@.pitch == pitch,
            trajectory@.yaw == yaw,
            trajectory@.steps >= from,
            limit == plus(end.nanometers as int, step.nanometers as int),
            sampling(
                packets_between(p, pitch, yaw, from, (trajectory@.steps - from) as nat),
                start.nanometers,
                step.nanometers,
                limit,
            ) == (Sampling { rows: rows@, next, open: true }),
        decreases i64::MAX - state_at(p, pitch, yaw, trajectory@.steps).time.nanoseconds,
    {
        let ghost n = trajectory@.steps;
        let ghost before = packets_between(p, pitch, yaw, from, (n - from) as nat);
        let current = trajectory.state();
        match trajectory.next() {
            None => {
                return rows;
            },
            Some(pk) => {
                proof {
                    lemma_packets_between_push(p, pitch, yaw, from, (n - from) as nat);
                    lemma_sampling_push(before, pk, start.nanometers, step.nanometers, limit);
                    lemma_time_advances(p, current);
                    assert(state_at(p, pitch, yaw, n + 1) == crate::integrator::step_spec(
                        p,
                        state_at(p, pitch, yaw, n),
                    ));
                }
                if pk.distance.nanometers > limit {
                    return rows;
                }
                if pk.distance.nanometers >= next {
                    next = add_sat(next, step.nanometers);
                    rows.push(pk);
                }
            },
        }
    }
}

} // verus!
