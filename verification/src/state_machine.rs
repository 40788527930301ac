//! Boot-phase state machines for the sensor and for the network connection.
//!
//! Each machine advances through its phases one legal transition at a time;
//! an event that does not match the current phase is rejected and leaves the
//! state unchanged.
use vstd::prelude::*;

verus! {

/// Error returned when an event does not apply to the current state.
#[derive(Debug, PartialEq, Eq, Structural)]
pub enum FSMError {
    InvalidTransition,
}

/// Lifecycle phases of the inertial sensor.
#[derive(Clone, Copy, Debug, PartialEq, Eq, Structural)]
pub enum SensorStatus {
    Bootup,
    PeripheralSetup,
    Sampling,
}

/// Tracks the sensor through `Bootup -> PeripheralSetup -> Sampling`.
pub struct SensorFSM {
    state: SensorStatus,
}

impl SensorFSM {
    /// The current phase, as seen by specifications.
    pub closed spec fn state_spec(&self) -> SensorStatus {
        self.state
    }

    pub fn new() -> (r: Self)
        ensures
            r.state_spec() == SensorStatus::Bootup,
    {
        Self { state: SensorStatus::Bootup }
    }

    /// Leaves `Bootup` for `PeripheralSetup`; rejected in any other phase.
    pub fn bootup_complete(&mut self) -> (r: Result<(), FSMError>)
        ensures
            r is Ok <==> old(self).state_spec() == SensorStatus::Bootup,
            old(self).state_spec() == SensorStatus::Bootup ==> final(self).state_spec()
                == SensorStatus::PeripheralSetup,
            old(self).state_spec() != SensorStatus::Bootup ==> final(self).state_spec()
                == old(self).state_spec() && r == Err::<(), FSMError>(FSMError::InvalidTransition),
    {
        match self.state {
            SensorStatus::Bootup => {
                self.state = SensorStatus::PeripheralSetup;
                Ok(())
            },
            _ => Err(FSMError::InvalidTransition),
        }
    }

    /// Leaves `PeripheralSetup` for `Sampling`; rejected in any other phase.
    pub fn peripherals_complete(&mut self) -> (r: Result<(), FSMError>)
        ensures
            r is Ok <==> old(self).state_spec() == SensorStatus::PeripheralSetup,
            old(self).state_spec() == SensorStatus::PeripheralSetup ==> final(self).state_spec()
                == SensorStatus::Sampling,
            old(self).state_spec() != SensorStatus::PeripheralSetup ==> final(self).state_spec()
                == old(self).state_spec() && r == Err::<(), FSMError>(FSMError::InvalidTransition),
    {
        match self.state {
            SensorStatus::PeripheralSetup => {
                self.state = SensorStatus::Sampling;
                Ok(())
            },
            _ => Err(FSMError::InvalidTransition),
        }
    }
}

/// Lifecycle phases of the network connection.
#[derive(Clone, Copy, Debug, PartialEq, Eq, Structural)]
pub enum ConnectionStatus {
    Bootup,
    PeripheralSetup,
    Connecting,
    Connected,
}

/// Tracks the connection through `Bootup -> PeripheralSetup -> Connecting
/// <-> Connected`.
pub struct ConnectionFSM {
    state: ConnectionStatus,
}

impl ConnectionFSM {
    /// The current phase, as seen by specifications.
    pub closed spec fn state_spec(&self) -> ConnectionStatus {
        self.state
    }

    pub fn new() -> (r: Self)
        ensures
            r.state_spec() == ConnectionStatus::Bootup,
    {
        Self { state: ConnectionStatus::Bootup }
    }

    /// A snapshot of the current phase, for observers that report progress.
    pub fn get_observer(&self) -> (r: ConnectionStatus)
        ensures
            r == self.state_spec(),
    {
        self.state
    }

    /// Leaves `Bootup` for `PeripheralSetup`; rejected in any other phase.
    pub fn bootup_complete(&mut self) -> (r: Result<(), FSMError>)
        ensures
            r is Ok <==> old(self).state_spec() == ConnectionStatus::Bootup,
            old(self).state_spec() == ConnectionStatus::Bootup ==> final(self).state_spec()
                == ConnectionStatus::PeripheralSetup,
            old(self).state_spec() != ConnectionStatus::Bootup ==> final(self).state_spec()
                == old(self).state_spec() && r == Err::<(), FSMError>(FSMError::InvalidTransition),
    {
        match self.state {
            ConnectionStatus::Bootup => {
                self.state = ConnectionStatus::PeripheralSetup;
                Ok(())
            },
            _ => Err(FSMError::InvalidTransition),
        }
    }

    /// Leaves `PeripheralSetup` for `Connecting`; rejected in any other phase.
    pub fn peripherals_complete(&mut self) -> (r: Result<(), FSMError>)
        ensures
            r is Ok <==> old(self).state_spec() == ConnectionStatus::PeripheralSetup,
            old(self).state_spec() == ConnectionStatus::PeripheralSetup ==> final(self).state_spec()
                == ConnectionStatus::Connecting,
            old(self).state_spec() != ConnectionStatus::PeripheralSetup ==> final(self).state_spec()
                == old(self).state_spec() && r == Err::<(), FSMError>(FSMError::InvalidTransition),
    {
        match self.state {
            ConnectionStatus::PeripheralSetup => {
                self.state = ConnectionStatus::Connecting;
                Ok(())
            },
            _ => Err(FSMError::InvalidTransition),
        }
    }

    /// Records that the link came up: `Connecting` becomes `Connected`.
    pub fn connected(&mut self) -> (r: Result<(), FSMError>)
        ensures
            r is Ok <==> old(self).state_spec() == ConnectionStatus::Connecting,
            old(self).state_spec() == ConnectionStatus::Connecting ==> final(self).state_spec()
                == ConnectionStatus::Connected,
            old(self).state_spec() != ConnectionStatus::Connecting ==> final(self).state_spec()
                == old(self).state_spec() && r == Err::<(), FSMError>(FSMError::InvalidTransition),
    {
        match self.state {
            ConnectionStatus::Connecting => {
                self.state = ConnectionStatus::Connected;
                Ok(())
            },
            _ => Err(FSMError::InvalidTransition),
        }
    }

    /// Records that the link dropped: `Connected` falls back to `Connecting`.
    pub fn disconnected(&mut self) -> (r: Result<(), FSMError>)
        ensures
            r is Ok <==> old(self).state_spec() == ConnectionStatus::Connected,
            old(self).state_spec() == ConnectionStatus::Connected ==> final(self).state_spec()
                == ConnectionStatus::Connecting,
            old(self).state_spec() != ConnectionStatus::Connected ==> final(self).state_spec()
                == old(self).state_spec() && r == Err::<(), FSMError>(FSMError::InvalidTransition),
    {
        match self.state {
            ConnectionStatus::Connected => {
                self.state = ConnectionStatus::Connecting;
                Ok(())
            },
            _ => Err(FSMError::InvalidTransition),
        }
    }
}

} // verus!
