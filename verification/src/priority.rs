use vstd::prelude::*;
use vstd::std_specs::convert::TryFromSpecImpl;
use vstd::std_specs::convert::FromSpecImpl;

verus! {

/// Priority carried by an advertisement that announces the active router is
/// shutting down.
pub const SHUTDOWN: u8 = 0;

/// Priority reserved for the router that owns the virtual addresses.
pub const OWNER: u8 = 255;

/// Priority a backup router uses when none is configured.
pub const DEFAULT: u8 = 100;

/// The configured priority of a backup router: `1..=254`.
#[derive(Clone, Copy, Debug, PartialOrd, PartialEq, Eq, Structural)]
pub struct Priority(u8);

impl Priority {
    /// The priority as a number.
    pub closed spec fn value(self) -> u8 {
        self.0
    }

    /// A configured priority is neither of the two reserved values.
    #[verifier::type_invariant]
    pub open spec fn wf(self) -> bool {
        Self::configurable(self.value())
    }

    /// The values a backup router may be configured with.
    pub open spec fn configurable(value: u8) -> bool {
        value != SHUTDOWN && value != OWNER
    }

    /// The priority a value converts to, when it is configurable.
    pub closed spec fn of(value: u8) -> Priority {
        Priority(value)
    }

    /// `of` keeps the number it is given.
    pub broadcast proof fn lemma_of_value(value: u8)
        ensures
            #[trigger] Self::of(value).value() == value,
    {
    }

    /// The priority widened to 16 bits, as the timer arithmetic wants it.
    pub fn as_u16(&self) -> (widened: u16)
        ensures
            widened == self.value(),
            1 <= widened <= 254,
            self.wf(),
    {
        proof {
            use_type_invariant(self);
        }
        self.0 as u16
    }

    /// The priority as the byte that goes on the wire.
    pub fn get(&self) -> (byte: u8)
        ensures
            byte == self.value(),
            1 <= byte <= 254,
            self.wf(),
    {
        proof {
            use_type_invariant(self);
        }
        self.0
    }
}

impl Default for Priority {
    fn default() -> (priority: Self)
        ensures
            priority.value() == DEFAULT,
            priority.wf(),
    {
        Priority(DEFAULT)
    }
}

impl TryFrom<u8> for Priority {
    type Error = ();

    /// Refuses the two reserved values and accepts every other byte.
    fn try_from(value: u8) -> (converted: Result<Self, ()>)
        ensures
            Self::configurable(value) ==> converted == Ok::<Priority, ()>(Self::of(value)),
            !Self::configurable(value) ==> converted == Err::<Priority, ()>(()),
            converted is Ok ==> converted->Ok_0.value() == value && converted->Ok_0.wf(),
    {
        if value == SHUTDOWN || value == OWNER {
            Err(())
        } else {
            Ok(Priority(value))
        }
    }
}

impl TryFromSpecImpl<u8> for Priority {
    open spec fn obeys_try_from_spec() -> bool {
        true
    }

    open spec fn try_from_spec(value: u8) -> Result<Self, ()> {
        if Self::configurable(value) {
            Ok(Self::of(value))
        } else {
            Err(())
        }
    }
}

impl From<Priority> for u8 {
    fn from(priority: Priority) -> (byte: u8)
        ensures
            byte == priority.value(),
    {
        priority.0
    }
}

impl FromSpecImpl<Priority> for u8 {
    open spec fn obeys_from_spec() -> bool {
        true
    }

    open spec fn from_spec(priority: Priority) -> u8 {
        priority.value()
    }
}

} // verus!
