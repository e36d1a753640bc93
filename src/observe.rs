//! Reports a formatted reading only when it differs from the last one shown.
use vstd::prelude::*;

verus! {

/// Remembers the last movement and radius readings that were reported.
pub struct Observer {
    formatted_movement: String,
    formatted_ideal_radius: String,
}

impl Observer {
    /// The movement reading reported last.
    pub closed spec fn last_movement(&self) -> Seq<char> {
        self.formatted_movement@
    }

    /// The idealised-radius reading reported last.
    pub closed spec fn last_ideal_radius(&self) -> Seq<char> {
        self.formatted_ideal_radius@
    }

    /// An observer that has reported nothing yet.
    pub fn new() -> (r: Self)
        ensures
            r.last_movement() == Seq::<char>::empty(),
            r.last_ideal_radius() == Seq::<char>::empty(),
    {
        Observer { formatted_movement: String::new(), formatted_ideal_radius: String::new() }
    }

    /// Hands back `reading` (the formatted mean velocity) if it differs from
    /// the movement reading reported last, and remembers it.
    pub fn observe_movement(&mut self, reading: String) -> (r: Option<String>)
        ensures
            r == (if reading@ != old(self).last_movement() { Some(reading) } else { None::<String> }),
            final(self).last_movement() == reading@,
            final(self).last_ideal_radius() == old(self).last_ideal_radius(),
    {
        if reading != self.formatted_movement {
            self.formatted_movement = reading.clone();
            Some(reading)
        } else {
            None
        }
    }

    /// Hands back `reading` (the formatted radius of a uniform sphere of the
    /// gas's volume) if it differs from the radius reading reported last, and
    /// remembers it.
    pub fn observe_idealised_radius(&mut self, reading: String) -> (r: Option<String>)
        ensures
            r == (if reading@ != old(self).last_ideal_radius() { Some(reading) } else { None::<String> }),
            final(self).last_ideal_radius() == reading@,
            final(self).last_movement() == old(self).last_movement(),
    {
        if reading != self.formatted_ideal_radius {
            self.formatted_ideal_radius = reading.clone();
            Some(reading)
        } else {
            None
        }
    }
}

} // verus!
