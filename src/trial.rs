//! One round of the three-door game, and playing it within a run.
use rand::Rng;
use vstd::prelude::*;
use crate::state::{ProgState, RunView};

verus! {

/// The number of doors; they are numbered from 0.
pub const DOORS: usize = 3;

/// Relies on rand::thread_rng and rand's Rng::gen_range: a value drawn from
/// `low..high`, which panics when the range is empty.
#[verifier::external_body]
fn random_below(bound: usize) -> (r: usize)
    requires
        bound > 0,
    ensures
        r < bound,
{
    rand::thread_rng().gen_range(0, bound)
}

/// The two doors that do not hide the car, lower first.
pub open spec fn goats_of(car_door: int) -> (int, int) {
    if car_door == 0 {
        (1, 2)
    } else if car_door == 1 {
        (0, 2)
    } else {
        (0, 1)
    }
}

/// The door that the host opens: the one goat door that the contestant did
/// not pick or, when the contestant picked the car, the goat door at
/// position `tie_pick` of the two.
pub open spec fn host_door(car_door: int, contestant_door: int, tie_pick: int) -> int {
    let goats = goats_of(car_door);
    if contestant_door == goats.0 {
        goats.1
    } else if contestant_door == goats.1 {
        goats.0
    } else if tie_pick == 0 {
        goats.0
    } else {
        goats.1
    }
}

/// The doors that hide goats when the car is behind `car_door`.
pub fn goat_doors(car_door: usize) -> (r: (usize, usize))
    requires
        car_door < DOORS,
    ensures
        r.0 as int == goats_of(car_door as int).0,
        r.1 as int == goats_of(car_door as int).1,
        r.0 < r.1 < DOORS,
        r.0 != car_door && r.1 != car_door,
{
    if car_door == 0 {
        (1, 2)
    } else if car_door == 1 {
        (0, 2)
    } else {
        (0, 1)
    }
}

/// Whether keeping the first pick wins: it does exactly when that pick is
/// the car's door; otherwise switching wins.
pub fn staying_wins(car_door: usize, contestant_door: usize) -> (r: bool)
    ensures
        r == (car_door == contestant_door),
{
    car_door == contestant_door
}

/// The door that the host opens; `tie_pick` (0 or 1) chooses between the two
/// goat doors when the contestant picked the car.
pub fn host_opens(car_door: usize, contestant_door: usize, tie_pick: usize) -> (r: usize)
    requires
        car_door < DOORS,
        contestant_door < DOORS,
        tie_pick < 2,
    ensures
        r as int == host_door(car_door as int, contestant_door as int, tie_pick as int),
        r < DOORS,
        r != car_door,
        r != contestant_door,
{
    let goats = goat_doors(car_door);
    if contestant_door == goats.0 {
        goats.1
    } else if contestant_door == goats.1 {
        goats.0
    } else if tie_pick == 0 {
        goats.0
    } else {
        goats.1
    }
}

/// What happened in one trial, as the per-trial log reports it.
pub struct Trial {
    /// The number of the trial within its run, from 1.
    pub number: u128,
    pub car_door: usize,
    pub contestant_door: usize,
    /// The door that the host opened; worked out only when the run logs.
    pub opened_door: Option<usize>,
}

impl ProgState {
    /// Plays one trial: the car's door and the contestant's pick are drawn
    /// independently and uniformly, and the run counts it, as a win for
    /// staying exactly when the two are the same door.
    pub fn play_trial(&mut self) -> (t: Trial)
        requires
            old(self)@.inv(),
            old(self)@.needs_more(),
        ensures
            final(self)@ == old(self)@.record(t.car_door == t.contestant_door),
            final(self)@.inv(),
            t.number == final(self)@.performed,
            t.car_door < DOORS,
            t.contestant_door < DOORS,
            t.opened_door is Some == old(self)@.logging,
            t.opened_door matches Some(d) ==> d < DOORS && d != t.car_door && d
                != t.contestant_door,
            t.car_door != t.contestant_door ==> (t.opened_door matches Some(d) ==> d as int
                == host_door(t.car_door as int, t.contestant_door as int, 0)),
    {
        let car_door = random_below(DOORS);
        let contestant_door = random_below(DOORS);
        self.result_completed(staying_wins(car_door, contestant_door));
        let opened_door = if self.logging() {
            let tie_pick = if car_door == contestant_door {
                random_below(2)
            } else {
                0
            };
            Some(host_opens(car_door, contestant_door, tie_pick))
        } else {
            None
        };
        Trial { number: self.iterations_performed(), car_door, contestant_door, opened_door }
    }
}

} // verus!
