//! The LPS22HH pressure sensor: how it is brought up and read.

use vstd::prelude::*;

verus! {

/// What the sensor answers when it is asked who it is.
pub const WHO_AM_I: u8 = 0xb3;

/// What bringing the sensor up asks for.
#[derive(Clone, Copy, Debug, PartialEq, Eq, Structural)]
pub enum InitAction {
    /// Start a reset.
    ResetSet,
    /// Read whether the reset still runs.
    ResetGet,
    /// Ask the sensor who it is.
    DeviceId,
    /// Keep the halves of a sample together.
    BlockDataUpdate,
    /// Measure at 10 Hz with low noise.
    DataRate,
}

/// Why the sensor could not be brought up.
#[derive(Debug, PartialEq, Eq)]
pub enum InitError<E> {
    /// The bus failed.
    Bus(E),
    /// Another device answered.
    UnexpectedValue,
}

/// Where bringing the sensor up stands.
#[derive(Clone, Copy, Debug, PartialEq, Eq, Structural)]
pub enum Pressure {
    Reset,
    Resetting,
    Identify,
    BlockData,
    Rate,
    Ready,
}

impl Pressure {
    /// What is done next.
    pub open spec fn wants(self) -> Option<InitAction> {
        match self {
            Pressure::Reset => Some(InitAction::ResetSet),
            Pressure::Resetting => Some(InitAction::ResetGet),
            Pressure::Identify => Some(InitAction::DeviceId),
            Pressure::BlockData => Some(InitAction::BlockDataUpdate),
            Pressure::Rate => Some(InitAction::DataRate),
            Pressure::Ready => None,
        }
    }

    /// Where it stands after an action that read `value`, or `None` if another device answered.
    pub open spec fn after(self, value: u8) -> Option<Pressure> {
        match self {
            Pressure::Reset => Some(Pressure::Resetting),
            Pressure::Resetting => if value != 0 {
                Some(Pressure::Resetting)
            } else {
                Some(Pressure::Identify)
            },
            Pressure::Identify => if value == WHO_AM_I {
                Some(Pressure::BlockData)
            } else {
                None
            },
            Pressure::BlockData => Some(Pressure::Rate),
            Pressure::Rate => Some(Pressure::Ready),
            Pressure::Ready => Some(Pressure::Ready),
        }
    }

    /// Starts to bring the sensor up.
    pub fn new() -> (p: Pressure)
        ensures
            p == Pressure::Reset,
    {
        Pressure::Reset
    }

    /// What to do next, or `None` once the sensor is up.
    pub fn action(&self) -> (a: Option<InitAction>)
        ensures
            a == match self {
                Pressure::Reset => Some(InitAction::ResetSet),
                Pressure::Resetting => Some(InitAction::ResetGet),
                Pressure::Identify => Some(InitAction::DeviceId),
                Pressure::BlockData => Some(InitAction::BlockDataUpdate),
                Pressure::Rate => Some(InitAction::DataRate),
                Pressure::Ready => None,
            },
            a == self.wants(),
    {
        match self {
            Pressure::Reset => Some(InitAction::ResetSet),
            Pressure::Resetting => Some(InitAction::ResetGet),
            Pressure::Identify => Some(InitAction::DeviceId),
            Pressure::BlockData => Some(InitAction::BlockDataUpdate),
            Pressure::Rate => Some(InitAction::DataRate),
            Pressure::Ready => None,
        }
    }

    /// Goes on after an action, with what it read. A reset is waited for, and the id has to be the
    /// sensor's.
    pub fn step<E>(self, outcome: Result<u8, E>) -> (r: Result<Pressure, InitError<E>>)
        ensures
            r == match outcome {
                Err(e) => Err::<Pressure, InitError<E>>(InitError::Bus(e)),
                Ok(value) => match self {
                    Pressure::Reset => Ok(Pressure::Resetting),
                    Pressure::Resetting => if value != 0 {
                        Ok(Pressure::Resetting)
                    } else {
                        Ok(Pressure::Identify)
                    },
                    Pressure::Identify => if value == WHO_AM_I {
                        Ok(Pressure::BlockData)
                    } else {
                        Err(InitError::UnexpectedValue)
                    },
                    Pressure::BlockData => Ok(Pressure::Rate),
                    Pressure::Rate => Ok(Pressure::Ready),
                    Pressure::Ready => Ok(Pressure::Ready),
                },
            },
            outcome matches Ok(value) ==> match self.after(value) {
                Some(p) => r == Ok::<Pressure, InitError<E>>(p),
                None => r == Err::<Pressure, InitError<E>>(InitError::UnexpectedValue),
            },
    {
        let value: u8 = match outcome {
            Ok(value) => value,
            Err(e) => {
                return Err(InitError::Bus(e));
            },
        };
        match self {
            Pressure::Reset => Ok(Pressure::Resetting),
            Pressure::Resetting => if value != 0 {
                Ok(Pressure::Resetting)
            } else {
                Ok(Pressure::Identify)
            },
            Pressure::Identify => if value == WHO_AM_I {
                Ok(Pressure::BlockData)
            } else {
                Err(InitError::UnexpectedValue)
            },
            Pressure::BlockData => Ok(Pressure::Rate),
            Pressure::Rate => Ok(Pressure::Ready),
            Pressure::Ready => Ok(Pressure::Ready),
        }
    }

    /// Whether a new pressure is there, given the sensor's flag.
    pub fn pressure_ready(flag: u8) -> (r: bool)
        ensures
            r == (flag != 0),
    {
        flag != 0
    }
}

/// What reading a sample asks for.
#[derive(Clone, Copy, Debug, PartialEq, Eq, Structural)]
pub enum ReadAction {
    PressureFlag,
    TemperatureFlag,
    /// Read the raw pressure and the raw temperature.
    Sample,
}

/// Where reading a sample stands.
#[derive(Clone, Copy, Debug, PartialEq, Eq, Structural)]
pub enum Read {
    Pressure,
    Temperature,
    Sample,
    /// One of the two has nothing new.
    NotReady,
}

impl Read {
    /// Starts to read a sample.
    pub fn new() -> (r: Read)
        ensures
            r == Read::Pressure,
    {
        Read::Pressure
    }

    /// What to do next, or `None` if there is nothing to read.
    pub fn action(&self) -> (a: Option<ReadAction>)
        ensures
            a == match self {
                Read::Pressure => Some(ReadAction::PressureFlag),
                Read::Temperature => Some(ReadAction::TemperatureFlag),
                Read::Sample => Some(ReadAction::Sample),
                Read::NotReady => None,
            },
    {
        match self {
            Read::Pressure => Some(ReadAction::PressureFlag),
            Read::Temperature => Some(ReadAction::TemperatureFlag),
            Read::Sample => Some(ReadAction::Sample),
            Read::NotReady => None,
        }
    }

    /// Goes on after a flag was read: there is a sample only if both flags are set.
    pub fn flag(self, value: u8) -> (r: Read)
        ensures
            r == match self {
                Read::Pressure => if value == 0 {
                    Read::NotReady
                } else {
                    Read::Temperature
                },
                Read::Temperature => if value == 0 {
                    Read::NotReady
                } else {
                    Read::Sample
                },
                _ => self,
            },
    {
        match self {
            Read::Pressure => if value == 0 {
                Read::NotReady
            } else {
                Read::Temperature
            },
            Read::Temperature => if value == 0 {
                Read::NotReady
            } else {
                Read::Sample
            },
            _ => self,
        }
    }
}

/// The sensor's reset is started and waited for as long as it runs; then the sensor is asked who it
/// is, and it is set up, and is up, exactly if it answers 0xb3.
pub proof fn law_up_once_identified(a: u8, running: u8, id: u8, b: u8, c: u8)
    requires
        running != 0,
    ensures
        Pressure::Reset.wants() == Some(InitAction::ResetSet),
        Pressure::Reset.after(a) matches Some(wait) && wait.wants() == Some(InitAction::ResetGet)
            && wait.after(running) == Some(wait) && (wait.after(0) matches Some(ask) && ask.wants()
            == Some(InitAction::DeviceId) && (id == 0xb3 <==> ask.after(id) is Some) && (ask.after(
            id,
        ) matches Some(block) ==> block.wants() == Some(InitAction::BlockDataUpdate) && (
        block.after(b) matches Some(rate) && rate.wants() == Some(InitAction::DataRate) && (
        rate.after(c) matches Some(up) && up.wants() is None && up.after(a) == Some(up))))),
{
}

} // verus!
