//! The LIS2MDL magnetometer: how it is brought up.

use vstd::prelude::*;

verus! {

/// The sensor's bus address.
pub const ADDRESS: u8 = 0x1e;

/// What the sensor answers when it is asked who it is.
pub const WHO_AM_I: u8 = 0x40;

/// What bringing the sensor up asks for.
#[derive(Clone, Copy, Debug, PartialEq, Eq, Structural)]
pub enum InitAction {
    /// Reset the sensor.
    SoftwareReset,
    /// Keep the halves of a sample together.
    BlockDataUpdate,
    /// Measure continuously.
    ContinuousMode,
    /// Ask the sensor who it is.
    DeviceId,
}

/// Why the sensor could not be brought up.
#[derive(Debug, PartialEq, Eq)]
pub enum InitError<E> {
    /// The bus failed.
    Bus(E),
    /// Another device answered.
    UnexpectedValue,
}

/// Where bringing the sensor up stands.
#[derive(Clone, Copy, Debug, PartialEq, Eq, Structural)]
pub enum Magnetometer {
    Reset,
    BlockData,
    Mode,
    Identify,
    Ready,
}

impl Magnetometer {
    /// What is done next.
    pub open spec fn wants(self) -> Option<InitAction> {
        match self {
            Magnetometer::Reset => Some(InitAction::SoftwareReset),
            Magnetometer::BlockData => Some(InitAction::BlockDataUpdate),
            Magnetometer::Mode => Some(InitAction::ContinuousMode),
            Magnetometer::Identify => Some(InitAction::DeviceId),
            Magnetometer::Ready => None,
        }
    }

    /// Where it stands after an action that read `value`, or `None` if another device answered.
    pub open spec fn after(self, value: u8) -> Option<Magnetometer> {
        match self {
            Magnetometer::Reset => Some(Magnetometer::BlockData),
            Magnetometer::BlockData => Some(Magnetometer::Mode),
            Magnetometer::Mode => Some(Magnetometer::Identify),
            Magnetometer::Identify => if value == WHO_AM_I {
                Some(Magnetometer::Ready)
            } else {
                None
            },
            Magnetometer::Ready => Some(Magnetometer::Ready),
        }
    }

    /// Starts to bring the sensor up.
    pub fn new() -> (m: Magnetometer)
        ensures
            m == Magnetometer::Reset,
    {
        Magnetometer::Reset
    }

    /// What to do next, or `None` once the sensor is up.
    pub fn action(&self) -> (a: Option<InitAction>)
        ensures
            a == match self {
                Magnetometer::Reset => Some(InitAction::SoftwareReset),
                Magnetometer::BlockData => Some(InitAction::BlockDataUpdate),
                Magnetometer::Mode => Some(InitAction::ContinuousMode),
                Magnetometer::Identify => Some(InitAction::DeviceId),
                Magnetometer::Ready => None,
            },
            a == self.wants(),
    {
        match self {
            Magnetometer::Reset => Some(InitAction::SoftwareReset),
            Magnetometer::BlockData => Some(InitAction::BlockDataUpdate),
            Magnetometer::Mode => Some(InitAction::ContinuousMode),
            Magnetometer::Identify => Some(InitAction::DeviceId),
            Magnetometer::Ready => None,
        }
    }

    /// Goes on after an action, with what it read. The sensor is up only if it gave its id.
    pub fn step<E>(self, outcome: Result<u8, E>) -> (r: Result<Magnetometer, InitError<E>>)
        ensures
            r == match outcome {
                Err(e) => Err::<Magnetometer, InitError<E>>(InitError::Bus(e)),
                Ok(id) => match self {
                    Magnetometer::Reset => Ok(Magnetometer::BlockData),
                    Magnetometer::BlockData => Ok(Magnetometer::Mode),
                    Magnetometer::Mode => Ok(Magnetometer::Identify),
                    Magnetometer::Identify => if id == WHO_AM_I {
                        Ok(Magnetometer::Ready)
                    } else {
                        Err(InitError::UnexpectedValue)
                    },
                    Magnetometer::Ready => Ok(Magnetometer::Ready),
                },
            },
            outcome matches Ok(value) ==> match self.after(value) {
                Some(m) => r == Ok::<Magnetometer, InitError<E>>(m),
                None => r == Err::<Magnetometer, InitError<E>>(InitError::UnexpectedValue),
            },
    {
        let id: u8 = match outcome {
            Ok(id) => id,
            Err(e) => {
                return Err(InitError::Bus(e));
            },
        };
        match self {
            Magnetometer::Reset => Ok(Magnetometer::BlockData),
            Magnetometer::BlockData => Ok(Magnetometer::Mode),
            Magnetometer::Mode => Ok(Magnetometer::Identify),
            Magnetometer::Identify => if id == WHO_AM_I {
                Ok(Magnetometer::Ready)
            } else {
                Err(InitError::UnexpectedValue)
            },
            Magnetometer::Ready => Ok(Magnetometer::Ready),
        }
    }

    /// Whether a new sample is there, given the sensor's flag.
    pub fn data_ready(flag: u8) -> (r: bool)
        ensures
            r == (flag != 0),
    {
        flag != 0
    }
}

/// The sensor is reset, then set up, then asked who it is, and it is up exactly if it then answers
/// 0x40, whatever the writes before gave.
pub proof fn law_up_once_identified(a: u8, b: u8, c: u8, id: u8)
    ensures
        Magnetometer::Reset.wants() == Some(InitAction::SoftwareReset),
        Magnetometer::Reset.after(a) matches Some(second) && second.wants() == Some(
            InitAction::BlockDataUpdate,
        ) && (second.after(b) matches Some(third) && third.wants() == Some(
            InitAction::ContinuousMode,
        ) && (third.after(c) matches Some(fourth) && fourth.wants() == Some(InitAction::DeviceId)
            && (id == 0x40 <==> fourth.after(id) is Some) && (fourth.after(id) matches Some(up)
            ==> up.wants() is None && up.after(a) == Some(up)))),
{
}

} // verus!
