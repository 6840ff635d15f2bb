//! Fixed-step integration of a flight: the stepping loop and its stopping
//! rule.
//!
//! The step from one state to the next is the caller's: a function that is
//! handed the current state and the time step and returns the state one step
//! later.  The loop decides when to stop and collects the samples.

use vstd::prelude::*;
use vstd::arithmetic::power2::lemma2_to64_rest;
use crate::binary64::Binary64;
use crate::vector3::Vector3;

verus! {

/// The bits of the time step, one tenth as binary64 holds it.
pub const TIME_STEP_BITS: u64 = 0x3FB9_9999_9999_999A;

/// The state of a flight at one of its samples.
#[derive(Clone, Copy, Debug)]
pub struct FlightState {
    pub position: Vector3,
    pub velocity: Vector3,
    /// Time since the start of the flight.
    pub elapsed: Binary64,
}

/// A sampled flight.
#[derive(Debug)]
pub struct Flight {
    /// The start and the state after each step, in order.
    pub samples: Vec<FlightState>,
    /// Whether the stopping rule ended the flight.  False when the cap on
    /// the number of steps cut it short.
    pub finished: bool,
}

/// The time step.
pub open spec fn spec_time_step() -> Binary64 {
    Binary64 { bits: TIME_STEP_BITS }
}

/// The state a flight starts in: no time has passed.
pub open spec fn initial_state(position: Vector3, velocity: Vector3) -> FlightState {
    FlightState { position, velocity, elapsed: Binary64::spec_zero() }
}

/// Whether a step from `before` to `after` lost height.
pub open spec fn spec_descends(before: Vector3, after: Vector3) -> bool {
    before.z.spec_gt(after.z)
}

/// The stepping rule: from `state`, reached falling or not, another step is
/// taken while the projectile is above the end height and falling, or while
/// time is left.
pub open spec fn spec_continues(
    state: FlightState,
    falling: bool,
    end_height: Binary64,
    max_time: Binary64,
) -> bool {
    (state.position.z.spec_gt(end_height) && falling) || state.elapsed.spec_lt(max_time)
}

/// Whether sample `k` was reached by a step that lost height.  The start is
/// not falling.
pub open spec fn falling_at(samples: Seq<FlightState>, k: int) -> bool {
    k > 0 && spec_descends(samples[k - 1].position, samples[k].position)
}

/// Whether the stepping rule asks for a step from sample `k`.
pub open spec fn continues_at(
    samples: Seq<FlightState>,
    k: int,
    end_height: Binary64,
    max_time: Binary64,
) -> bool {
    spec_continues(samples[k], falling_at(samples, k), end_height, max_time)
}

/// Whether `samples` is a flight under `advance`: each sample but the last
/// asked for a step, and `advance` may return the next sample for it.
pub open spec fn is_flight<F: Fn(FlightState, Binary64) -> FlightState>(
    advance: F,
    samples: Seq<FlightState>,
    end_height: Binary64,
    max_time: Binary64,
) -> bool {
    &&& samples.len() >= 1
    &&& forall|k: int|
        #![trigger samples[k]]
        0 <= k < samples.len() - 1 ==> {
            &&& continues_at(samples, k, end_height, max_time)
            &&& call_ensures(advance, (samples[k], spec_time_step()), samples[k + 1])
        }
}

/// Whether `samples` and `finished` are what integrating from `position` and
/// `velocity` may return: a flight from the initial state of at most
/// `max_steps` steps, finished when its last sample asks for no step, and
/// cut short only at the cap.
pub open spec fn is_trajectory<F: Fn(FlightState, Binary64) -> FlightState>(
    advance: F,
    position: Vector3,
    velocity: Vector3,
    end_height: Binary64,
    max_time: Binary64,
    max_steps: usize,
    samples: Seq<FlightState>,
    finished: bool,
) -> bool {
    &&& is_flight(advance, samples, end_height, max_time)
    &&& samples[0] == initial_state(position, velocity)
    &&& samples.len() <= max_steps + 1
    &&& finished == !continues_at(samples, samples.len() - 1, end_height, max_time)
    &&& !finished ==> samples.len() == max_steps + 1
}

/// Whether `advance` can return only one state for each state it is given.
pub open spec fn is_deterministic<F: Fn(FlightState, Binary64) -> FlightState>(advance: F) -> bool {
    forall|state: FlightState, one: FlightState, other: FlightState|
        #![trigger
            call_ensures(advance, (state, spec_time_step()), one),
            call_ensures(advance, (state, spec_time_step()), other)
        ]
        call_ensures(advance, (state, spec_time_step()), one) && call_ensures(
            advance,
            (state, spec_time_step()),
            other,
        ) ==> one == other
}

/// The positions of the samples, in order.
pub open spec fn positions(samples: Seq<FlightState>) -> Seq<Vector3> {
    Seq::new(samples.len(), |k: int| samples[k].position)
}

/// Two flights under one deterministic step that start in the same state
/// agree on every sample that both have.
pub proof fn lemma_flights_share_prefix<F: Fn(FlightState, Binary64) -> FlightState>(
    advance: F,
    first: Seq<FlightState>,
    second: Seq<FlightState>,
    end_height: Binary64,
    max_time: Binary64,
    k: int,
)
    requires
        is_deterministic(advance),
        is_flight(advance, first, end_height, max_time),
        is_flight(advance, second, end_height, max_time),
        first[0] == second[0],
        0 <= k < first.len(),
        k < second.len(),
    ensures
        first[k] == second[k],
    decreases k,
{
    if k > 0 {
        lemma_flights_share_prefix(advance, first, second, end_height, max_time, k - 1);
        assert(call_ensures(advance, (first[k - 1], spec_time_step()), first[k]));
        assert(call_ensures(advance, (second[k - 1], spec_time_step()), second[k]));
    }
}

/// Integration is determined by its inputs: with a deterministic step, any
/// two results for the same start, stopping rule and cap hold the same
/// samples and the same verdict.
pub proof fn lemma_trajectory_is_unique<F: Fn(FlightState, Binary64) -> FlightState>(
    advance: F,
    position: Vector3,
    velocity: Vector3,
    end_height: Binary64,
    max_time: Binary64,
    max_steps: usize,
    first: Seq<FlightState>,
    first_finished: bool,
    second: Seq<FlightState>,
    second_finished: bool,
)
    requires
        is_deterministic(advance),
        is_trajectory(
            advance,
            position,
            velocity,
            end_height,
            max_time,
            max_steps,
            first,
            first_finished,
        ),
        is_trajectory(
            advance,
            position,
            velocity,
            end_height,
            max_time,
            max_steps,
            second,
            second_finished,
        ),
    ensures
        first == second,
        first_finished == second_finished,
{
    let shorter = if first.len() <= second.len() { first } else { second };
    let longer = if first.len() <= second.len() { second } else { first };
    let last = shorter.len() - 1;
    lemma_flights_share_prefix(advance, first, second, end_height, max_time, last);
    if last > 0 {
        lemma_flights_share_prefix(advance, first, second, end_height, max_time, last - 1);
    }
    // The shorter flight asks for a step from its last sample just when the
    // longer one does there, and the longer one took that step if it has one.
    assert(continues_at(shorter, last, end_height, max_time) == continues_at(
        longer,
        last,
        end_height,
        max_time,
    ));
    if shorter.len() < longer.len() {
        assert(continues_at(longer, last, end_height, max_time));
    }
    assert(first.len() == second.len());
    assert forall|k: int| 0 <= k < first.len() implies first[k] == second[k] by {
        lemma_flights_share_prefix(advance, first, second, end_height, max_time, k);
    }
    assert(first =~= second);
}

/// The number of samples when only the clock keeps the flight going: if
/// the samples with time left are exactly the first `steps`, and no sample
/// whose time is up is both above the end height and falling, a finished
/// flight has one sample more than `steps`.
pub proof fn lemma_sample_count<F: Fn(FlightState, Binary64) -> FlightState>(
    advance: F,
    samples: Seq<FlightState>,
    end_height: Binary64,
    max_time: Binary64,
    steps: nat,
)
    requires
        is_flight(advance, samples, end_height, max_time),
        !continues_at(samples, samples.len() - 1, end_height, max_time),
        forall|k: int|
            #![trigger samples[k]]
            0 <= k < samples.len() ==> (samples[k].elapsed.spec_lt(max_time) <==> k < steps),
        forall|k: int|
            #![trigger samples[k]]
            0 <= k < samples.len() && !samples[k].elapsed.spec_lt(max_time) ==> !(
            samples[k].position.z.spec_gt(end_height) && falling_at(samples, k)),
    ensures
        samples.len() == steps + 1,
{
    let last = samples.len() - 1;
    assert(!samples[last].elapsed.spec_lt(max_time));
    if steps < last {
        assert(!samples[steps as int].elapsed.spec_lt(max_time));
        assert(continues_at(samples, steps as int, end_height, max_time));
    }
}

/// The time step lies within half a spacing of one tenth.
pub proof fn lemma_time_step_is_a_tenth()
    ensures
        time_step().approximates(1, 10),
{
    lemma2_to64_rest();
    spec_time_step().lemma_approximates(1, 10, 56);
}

/// The time step.
#[verifier::when_used_as_spec(spec_time_step)]
pub fn time_step() -> (step: Binary64)
    ensures
        step == spec_time_step(),
{
    Binary64::from_bits(TIME_STEP_BITS)
}

/// Whether a step from `before` to `after` lost height.
#[verifier::when_used_as_spec(spec_descends)]
pub fn descends(before: Vector3, after: Vector3) -> (falling: bool)
    ensures
        falling == spec_descends(before, after),
{
    before.z.gt(after.z)
}

/// Whether another step is taken from `state`.
#[verifier::when_used_as_spec(spec_continues)]
pub fn continues(
    state: FlightState,
    falling: bool,
    end_height: Binary64,
    max_time: Binary64,
) -> (going: bool)
    ensures
        going == spec_continues(state, falling, end_height, max_time),
{
    (state.position.z.gt(end_height) && falling) || state.elapsed.lt(max_time)
}

/// Integrates a flight from `position` and `velocity`, one time step at a
/// time, until the stepping rule stops it or `max_steps` steps are taken.
///
/// The flight starts with no time passed and not falling.  For each step
/// `advance` is handed the current state and the time step, and returns the
/// next state, elapsed time included; the flight is falling when that step
/// lost height.  Each state is sampled, the start first.
pub fn trajectory<F: Fn(FlightState, Binary64) -> FlightState>(
    position: Vector3,
    velocity: Vector3,
    advance: F,
    end_height: Binary64,
    max_time: Binary64,
    max_steps: usize,
) -> (flight: Flight)
    requires
        forall|state: FlightState| call_requires(advance, (state, spec_time_step())),
    ensures
        is_trajectory(
            advance,
            position,
            velocity,
            end_height,
            max_time,
            max_steps,
            flight.samples@,
            flight.finished,
        ),
{
    let mut state = FlightState { position, velocity, elapsed: Binary64::zero() };
    let mut samples: Vec<FlightState> = Vec::new();
    samples.push(state);
    let mut falling = false;
    let mut steps: usize = 0;
    let mut going = continues(state, falling, end_height, max_time);
    while going && steps < max_steps
        invariant
            forall|state: FlightState| call_requires(advance, (state, spec_time_step())),
            steps <= max_steps,
            samples@.len() == steps + 1,
            samples@[0] == initial_state(position, velocity),
            state == samples@[steps as int],
            falling == falling_at(samples@, steps as int),
            going == continues_at(samples@, steps as int, end_height, max_time),
            is_flight(advance, samples@, end_height, max_time),
        decreases max_steps - steps,
    {
        let ghost before = samples@;
        let next = advance(state, time_step());
        falling = descends(state.position, next.position);
        state = next;
        samples.push(state);
        steps = steps + 1;
        going = continues(state, falling, end_height, max_time);
        proof {
            assert forall|k: int| 0 <= k < samples@.len() - 1 implies {
                &&& continues_at(samples@, k, end_height, max_time)
                &&& call_ensures(advance, (#[trigger] samples@[k], spec_time_step()), samples@[k + 1])
            } by {
                assert(samples@[k] == before[k]);
                if k < before.len() - 1 {
                    assert(samples@[k + 1] == before[k + 1]);
                    assert(continues_at(before, k, end_height, max_time));
                }
            }
        }
    }
    Flight { samples, finished: !going }
}

impl Flight {
    /// The positions of the samples, in order.
    pub fn path(&self) -> (path: Vec<Vector3>)
        ensures
            path@ == positions(self.samples@),
    {
        let mut path: Vec<Vector3> = Vec::new();
        let mut k: usize = 0;
        while k < self.samples.len()
            invariant
                k <= self.samples@.len(),
                path@ == positions(self.samples@.take(k as int)),
            decreases self.samples@.len() - k,
        {
            path.push(self.samples[k].position);
            k = k + 1;
        }
        assert(self.samples@.take(k as int) == self.samples@);
        path
    }
}

} // verus!
