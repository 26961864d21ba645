//! Sensor events and the status lines logged for them.
use vstd::prelude::*;
use vstd::string::StringExecFns;
use crate::level::Level;

verus! {

/// A debounced change of one sensor, tagged with the sensor's id.
#[derive(Clone, Copy, Debug, PartialEq, Eq, Structural)]
pub enum SensorEvent {
    /// The sensor went to its active (low) level.
    Closed(u8),
    /// The sensor went back to its inactive (high) level.
    Released(u8),
}

/// The event that reports sensor `id` settled at `level` (active-low wiring).
pub open spec fn event_for(id: u8, level: Level) -> SensorEvent {
    match level {
        Level::Low => SensorEvent::Closed(id),
        Level::High => SensorEvent::Released(id),
    }
}

/// Decimal digits of `n`, most significant first, no leading zeros.
pub open spec fn decimal(n: nat) -> Seq<char>
    decreases n,
{
    if n < 10 {
        seq![digit_char(n)]
    } else {
        decimal(n / 10).push(digit_char(n % 10))
    }
}

pub open spec fn digit_char(d: nat) -> char {
    if d == 0 { '0' }
    else if d == 1 { '1' }
    else if d == 2 { '2' }
    else if d == 3 { '3' }
    else if d == 4 { '4' }
    else if d == 5 { '5' }
    else if d == 6 { '6' }
    else if d == 7 { '7' }
    else if d == 8 { '8' }
    else { '9' }
}

/// The status line logged for an event: `SENSOR <id>: CLOSED` or `SENSOR <id>: OPEN`.
pub open spec fn status_text(e: SensorEvent) -> Seq<char> {
    seq!['S', 'E', 'N', 'S', 'O', 'R', ' '] + decimal(e.id() as nat) + seq![':', ' '] + e.word()
}

fn digit_str(d: u8) -> (r: &'static str)
    requires
        d < 10,
    ensures
        r@ == seq![digit_char(d as nat)],
{
    proof {
        reveal_strlit("0");
        reveal_strlit("1");
        reveal_strlit("2");
        reveal_strlit("3");
        reveal_strlit("4");
        reveal_strlit("5");
        reveal_strlit("6");
        reveal_strlit("7");
        reveal_strlit("8");
        reveal_strlit("9");
    }
    if d == 0 { "0" }
    else if d == 1 { "1" }
    else if d == 2 { "2" }
    else if d == 3 { "3" }
    else if d == 4 { "4" }
    else if d == 5 { "5" }
    else if d == 6 { "6" }
    else if d == 7 { "7" }
    else if d == 8 { "8" }
    else { "9" }
}

impl SensorEvent {
    /// The id of the sensor this event comes from.
    pub open spec fn id(self) -> u8 {
        match self {
            SensorEvent::Closed(id) => id,
            SensorEvent::Released(id) => id,
        }
    }

    /// The level the sensor settled at, which is also the level its output
    /// line is driven to.
    pub open spec fn spec_level(self) -> Level {
        match self {
            SensorEvent::Closed(_) => Level::Low,
            SensorEvent::Released(_) => Level::High,
        }
    }

    pub open spec fn word(self) -> Seq<char> {
        match self {
            SensorEvent::Closed(_) => seq!['C', 'L', 'O', 'S', 'E', 'D'],
            SensorEvent::Released(_) => seq!['O', 'P', 'E', 'N'],
        }
    }

    /// Classifies a settled level read from sensor `id`: low is `Closed`,
    /// high is `Released`.
    pub fn classify(id: u8, level: Level) -> (r: SensorEvent)
        ensures
            r == event_for(id, level),
            r.id() == id,
            r.spec_level() == level,
    {
        match level {
            Level::Low => SensorEvent::Closed(id),
            Level::High => SensorEvent::Released(id),
        }
    }

    pub fn sensor_id(&self) -> (r: u8)
        ensures
            r == self.id(),
    {
        match self {
            SensorEvent::Closed(id) => *id,
            SensorEvent::Released(id) => *id,
        }
    }

    pub fn level(&self) -> (r: Level)
        ensures
            r == self.spec_level(),
    {
        match self {
            SensorEvent::Closed(_) => Level::Low,
            SensorEvent::Released(_) => Level::High,
        }
    }

    /// `"CLOSED"` or `"OPEN"`.
    pub fn status_word(&self) -> (r: &'static str)
        ensures
            r@ == self.word(),
    {
        proof {
            reveal_strlit("CLOSED");
            reveal_strlit("OPEN");
        }
        match self {
            SensorEvent::Closed(_) => "CLOSED",
            SensorEvent::Released(_) => "OPEN",
        }
    }

    /// The line logged when this event is handled.
    pub fn status_line(&self) -> (r: String)
        ensures
            r@ == status_text(*self),
    {
        proof {
            reveal_strlit("SENSOR ");
            reveal_strlit(": ");
        }
        let id = self.sensor_id();
        let mut s = String::from_str("SENSOR ");
        if id >= 100 {
            s.append(digit_str(id / 100));
            s.append(digit_str((id / 10) % 10));
        } else if id >= 10 {
            s.append(digit_str(id / 10));
        }
        s.append(digit_str(id % 10));
        s.append(": ");
        s.append(self.status_word());
        proof {
            let n = id as nat;
            if n >= 100 {
                assert(n / 10 >= 10);
                assert((n / 10) / 10 == n / 100);
                assert(decimal(n / 100) =~= seq![digit_char(n / 100)]);
                assert(decimal(n / 10) =~= seq![digit_char(n / 100), digit_char((n / 10) % 10)]);
                assert(decimal(n) =~= seq![digit_char(n / 100), digit_char((n / 10) % 10), digit_char(n % 10)]);
            } else if n >= 10 {
                assert(decimal(n / 10) =~= seq![digit_char(n / 10)]);
                assert(decimal(n) =~= seq![digit_char(n / 10), digit_char(n % 10)]);
            }
            assert(s@ =~= status_text(*self));
        }
        s
    }
}

} // verus!
