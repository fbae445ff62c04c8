//! The LSM6DSOX accelerometer and gyroscope: how it is brought up, and when it has data.

use vstd::prelude::*;

verus! {

/// What the sensor answers when it is asked who it is.
pub const WHO_AM_I: u8 = 0x6c;

/// What bringing the sensor up asks for.
#[derive(Clone, Copy, Debug, PartialEq, Eq, Structural)]
pub enum InitAction {
    /// Ask the sensor who it is.
    CheckId,
    /// Reset it, disable the bus extension, and keep the halves of a sample together.
    Setup,
    /// Run the accelerometer at 52 Hz.
    AccelRate,
    /// Run the gyroscope at 52 Hz.
    GyroRate,
}

/// Why the sensor could not be brought up.
#[derive(Debug, PartialEq, Eq)]
pub enum InitError<E> {
    /// The driver failed.
    Driver(E),
    /// The sensor did not say who it is, or another device answered.
    InvalidData,
}

/// Where bringing the sensor up stands.
#[derive(Clone, Copy, Debug, PartialEq, Eq, Structural)]
pub enum Motion {
    Identify,
    Setup,
    AccelRate,
    GyroRate,
    Ready,
}

impl Motion {
    /// Starts to bring the sensor up.
    pub fn new() -> (m: Motion)
        ensures
            m == Motion::Identify,
    {
        Motion::Identify
    }

    /// What to do next, or `None` once the sensor is up.
    pub fn action(&self) -> (a: Option<InitAction>)
        ensures
            a == match self {
                Motion::Identify => Some(InitAction::CheckId),
                Motion::Setup => Some(InitAction::Setup),
                Motion::AccelRate => Some(InitAction::AccelRate),
                Motion::GyroRate => Some(InitAction::GyroRate),
                Motion::Ready => None,
            },
    {
        match self {
            Motion::Identify => Some(InitAction::CheckId),
            Motion::Setup => Some(InitAction::Setup),
            Motion::AccelRate => Some(InitAction::AccelRate),
            Motion::GyroRate => Some(InitAction::GyroRate),
            Motion::Ready => None,
        }
    }

    /// Goes on after an action. Whatever goes wrong with the id counts as invalid data.
    pub fn step<E>(self, outcome: Result<(), E>) -> (r: Result<Motion, InitError<E>>)
        ensures
            r == match (self, outcome) {
                (Motion::Identify, Err(_)) => Err::<Motion, InitError<E>>(InitError::InvalidData),
                (_, Err(e)) => Err(InitError::Driver(e)),
                (Motion::Identify, Ok(_)) => Ok(Motion::Setup),
                (Motion::Setup, Ok(_)) => Ok(Motion::AccelRate),
                (Motion::AccelRate, Ok(_)) => Ok(Motion::GyroRate),
                (Motion::GyroRate, Ok(_)) => Ok(Motion::Ready),
                (Motion::Ready, Ok(_)) => Ok(Motion::Ready),
            },
    {
        match (self, outcome) {
            (Motion::Identify, Err(_)) => Err(InitError::InvalidData),
            (_, Err(e)) => Err(InitError::Driver(e)),
            (Motion::Identify, Ok(_)) => Ok(Motion::Setup),
            (Motion::Setup, Ok(_)) => Ok(Motion::AccelRate),
            (Motion::AccelRate, Ok(_)) => Ok(Motion::GyroRate),
            (Motion::GyroRate, Ok(_)) => Ok(Motion::Ready),
            (Motion::Ready, Ok(_)) => Ok(Motion::Ready),
        }
    }

    /// Whether a new acceleration is there, given the status register.
    pub fn accel_ready(status: u8) -> (r: bool)
        ensures
            r == (status % 2 == 1),
    {
        assert((status & 1 != 0) == (status % 2 == 1)) by (bit_vector);
        status & 0b0000_0001 != 0
    }

    /// Whether a new angular rate is there, given the status register.
    pub fn gyro_ready(status: u8) -> (r: bool)
        ensures
            r == (status / 2 % 2 == 1),
    {
        assert((status & 2 != 0) == (status / 2 % 2 == 1)) by (bit_vector);
        status & 0b0000_0010 != 0
    }
}

/// What the driver says of a read that failed.
#[derive(Debug, PartialEq, Eq)]
pub enum ReadError<E> {
    /// There is no new sample yet.
    NoDataReady,
    Other(E),
}

/// A read that has nothing new is no failure.
pub fn optional<T, E>(read: Result<T, ReadError<E>>) -> (r: Result<Option<T>, E>)
    ensures
        r == match read {
            Ok(v) => Ok::<Option<T>, E>(Some(v)),
            Err(ReadError::NoDataReady) => Ok(None),
            Err(ReadError::Other(e)) => Err(e),
        },
{
    match read {
        Ok(v) => Ok(Some(v)),
        Err(ReadError::NoDataReady) => Ok(None),
        Err(ReadError::Other(e)) => Err(e),
    }
}

} // verus!
