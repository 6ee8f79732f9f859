//! Typed celestial bodies, units and timescales, and their exact mapping
//! onto the integer codes the native ABI expects.

use vstd::prelude::*;

verus! {

/// Offset added to an asteroid's own identifier to form its native body code.
pub const ASTEROID_BASE: i32 = 2000000;

/// Native flag requesting positions in astronomical units.
pub const UNIT_AU: i32 = 1;

/// Native flag requesting positions in kilometers.
pub const UNIT_KM: i32 = 2;

/// Native flag requesting velocities per day.
pub const UNIT_DAY: i32 = 4;

/// Native flag requesting velocities per second.
pub const UNIT_SEC: i32 = 8;

/// Values for `target` and `center` of a position/velocity query.
#[derive(Debug)]
pub enum PositionTarget {
    MercuryBarycenter,
    VenusBarycenter,
    Earth,
    MarsBarycenter,
    JupiterBarycenter,
    SaturnBarycenter,
    UranusBarycenter,
    NeptuneBarycenter,
    PlutoBarycenter,
    Moon,
    Sun,
    SolarSystemBarycenter,
    EarthMoonBarycenter,
    Asteroid(i32),
}

/// The unit of the three position components of a query's result.
#[derive(Debug)]
pub enum PositionUnit {
    AstronomicalUnit,
    Kilometer,
}

/// The time unit of the three velocity components of a query's result.
#[derive(Debug)]
pub enum TimeUnit {
    Day,
    Second,
}

/// The time standard the loaded ephemeris file expresses epochs in.
#[derive(Debug, PartialEq, Eq, Structural)]
pub enum Timescale {
    TDB,
    TCB,
}

/// The native body code of a target: a fixed code 1..13 for the named
/// bodies, and `ASTEROID_BASE + n` for asteroid `n`.
pub open spec fn target_code_spec(t: PositionTarget) -> int {
    match t {
        PositionTarget::MercuryBarycenter => 1,
        PositionTarget::VenusBarycenter => 2,
        PositionTarget::Earth => 3,
        PositionTarget::MarsBarycenter => 4,
        PositionTarget::JupiterBarycenter => 5,
        PositionTarget::SaturnBarycenter => 6,
        PositionTarget::UranusBarycenter => 7,
        PositionTarget::NeptuneBarycenter => 8,
        PositionTarget::PlutoBarycenter => 9,
        PositionTarget::Moon => 10,
        PositionTarget::Sun => 11,
        PositionTarget::SolarSystemBarycenter => 12,
        PositionTarget::EarthMoonBarycenter => 13,
        PositionTarget::Asteroid(n) => ASTEROID_BASE + n,
    }
}

/// Whether a target's code fits the `i32` the native ABI takes.  Only an
/// asteroid with an identifier near the ends of the `i32` range falls out.
pub open spec fn target_code_fits(t: PositionTarget) -> bool {
    i32::MIN <= target_code_spec(t) <= i32::MAX
}

impl PositionTarget {
    /// The integer code the native ABI expects for this body.
    pub fn code(self) -> (r: i32)
        requires
            target_code_fits(self),
        ensures
            r == target_code_spec(self),
    {
        match self {
            PositionTarget::MercuryBarycenter => 1,
            PositionTarget::VenusBarycenter => 2,
            PositionTarget::Earth => 3,
            PositionTarget::MarsBarycenter => 4,
            PositionTarget::JupiterBarycenter => 5,
            PositionTarget::SaturnBarycenter => 6,
            PositionTarget::UranusBarycenter => 7,
            PositionTarget::NeptuneBarycenter => 8,
            PositionTarget::PlutoBarycenter => 9,
            PositionTarget::Moon => 10,
            PositionTarget::Sun => 11,
            PositionTarget::SolarSystemBarycenter => 12,
            PositionTarget::EarthMoonBarycenter => 13,
            PositionTarget::Asteroid(n) => ASTEROID_BASE + n,
        }
    }

    /// The integer code of this body, or `None` where an asteroid's code
    /// would overflow the `i32` the native ABI takes.
    pub fn checked_code(self) -> (r: Option<i32>)
        ensures
            r is Some <==> target_code_fits(self),
            r matches Some(c) ==> c == target_code_spec(self),
    {
        match self {
            PositionTarget::Asteroid(n) => {
                if n <= i32::MAX - ASTEROID_BASE {
                    Some(ASTEROID_BASE + n)
                } else {
                    None
                }
            },
            other => Some(other.code()),
        }
    }
}

/// Law: an asteroid's code is exactly `ASTEROID_BASE + n`, and (except for
/// the few negative identifiers whose sum lands in 1..13) differs from the
/// code of every named body.
pub proof fn lemma_asteroid_code_distinct(n: i32, t: PositionTarget)
    requires
        target_code_fits(PositionTarget::Asteroid(n)),
        !(1 <= ASTEROID_BASE + n <= 13),
        !(t is Asteroid),
    ensures
        target_code_spec(PositionTarget::Asteroid(n)) == ASTEROID_BASE + n,
        target_code_spec(PositionTarget::Asteroid(n)) != target_code_spec(t),
{
}

/// The native flag of a position unit.
pub open spec fn position_unit_code_spec(u: PositionUnit) -> int {
    match u {
        PositionUnit::AstronomicalUnit => UNIT_AU as int,
        PositionUnit::Kilometer => UNIT_KM as int,
    }
}

/// The native flag of a time unit.
pub open spec fn time_unit_code_spec(u: TimeUnit) -> int {
    match u {
        TimeUnit::Day => UNIT_DAY as int,
        TimeUnit::Second => UNIT_SEC as int,
    }
}

impl From<PositionUnit> for i32 {
    /// The native flag of this position unit.
    fn from(value: PositionUnit) -> (r: i32)
        ensures
            r == position_unit_code_spec(value),
    {
        match value {
            PositionUnit::AstronomicalUnit => UNIT_AU,
            PositionUnit::Kilometer => UNIT_KM,
        }
    }
}

impl vstd::std_specs::convert::FromSpecImpl<PositionUnit> for i32 {
    open spec fn obeys_from_spec() -> bool {
        true
    }

    open spec fn from_spec(v: PositionUnit) -> i32 {
        position_unit_code_spec(v) as i32
    }
}

impl From<TimeUnit> for i32 {
    /// The native flag of this time unit.
    fn from(value: TimeUnit) -> (r: i32)
        ensures
            r == time_unit_code_spec(value),
    {
        match value {
            TimeUnit::Day => UNIT_DAY,
            TimeUnit::Second => UNIT_SEC,
        }
    }
}

impl vstd::std_specs::convert::FromSpecImpl<TimeUnit> for i32 {
    open spec fn obeys_from_spec() -> bool {
        true
    }

    open spec fn from_spec(v: TimeUnit) -> i32 {
        time_unit_code_spec(v) as i32
    }
}

/// The combined unit code of a query: the position flag and the time flag
/// summed, which the native library reads as a request for both
/// conventions at once.  The two flag sets occupy disjoint bit ranges, so
/// the sum loses nothing.
pub open spec fn combined_unit_code_spec(p: PositionUnit, t: TimeUnit) -> int {
    position_unit_code_spec(p) + time_unit_code_spec(t)
}

/// Sums one position-unit flag and one time-unit flag into the single
/// unit argument of the native compute routine.
pub fn combined_unit_code(p: PositionUnit, t: TimeUnit) -> (r: i32)
    ensures
        r == combined_unit_code_spec(p, t),
{
    i32::from(p) + i32::from(t)
}

/// Law: the position flags and the time flags occupy disjoint numeric
/// ranges, so the summed unit code still determines both choices — two
/// queries with the same combined code ask for the same units.
pub proof fn lemma_combined_unit_code_injective(
    p1: PositionUnit,
    t1: TimeUnit,
    p2: PositionUnit,
    t2: TimeUnit,
)
    requires
        combined_unit_code_spec(p1, t1) == combined_unit_code_spec(p2, t2),
    ensures
        p1 == p2,
        t1 == t2,
{
}

} // verus!
