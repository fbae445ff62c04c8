//! A mutex between cores: data behind a hardware semaphore.
//!
//! A core that holds the semaphore already must not lock again: the wait would never end. A mutex
//! must not share its semaphore with another mutex.

use vstd::prelude::*;

use crate::multicore::sph;
use crate::multicore::sph::{
    release_steps, Acquire, AcquirePhase, SphAction, COUNT, REQ_UNLOCK,
};

verus! {

/// Data that only the core which holds semaphore `N` may use.
pub struct HwMutex<const N: usize, T> {
    cell: T,
}

impl<const N: usize, T> HwMutex<N, T> {
    /// The guarded data.
    pub closed spec fn data(self) -> T {
        self.cell
    }

    /// A mutex around `value`.
    pub fn new(value: T) -> (m: HwMutex<N, T>)
        requires
            N < COUNT,
        ensures
            m.data() == value,
    {
        HwMutex { cell: value }
    }

    /// Starts to wait for the semaphore on core `me`. [`HwMutex::enter`] takes what came of it.
    pub fn lock(&self, me: u8) -> (a: Acquire)
        ensures
            a.at() == sph::Acquiring::starting(N, me, true),
    {
        Acquire::start(N, me, true)
    }

    /// Starts an attempt on core `me` to take the semaphore, which fails if it is held, by this
    /// core or by another. [`HwMutex::enter`] takes what came of it.
    pub fn try_lock(&self, me: u8) -> (a: Acquire)
        ensures
            a.at() == sph::Acquiring::starting(N, me, false),
    {
        Acquire::start(N, me, false)
    }

    /// Hands out the data, if `acquired` holds this mutex's semaphore.
    pub fn enter<'a>(&'a mut self, acquired: Acquire) -> (g: Option<HwMutexGuard<'a, N, T>>)
        ensures
            match g {
                Some(g) => {
                    &&& acquired.at().n == N
                    &&& acquired.at().phase == AcquirePhase::Held
                    &&& *g.guarded() == *old(self)
                    &&& *final(self) == *final(g.guarded())
                },
                None => {
                    &&& !(acquired.at().n == N && acquired.at().phase == AcquirePhase::Held)
                    &&& *final(self) == *old(self)
                },
            },
    {
        if acquired.slot() == N && matches!(acquired.phase(), AcquirePhase::Held) {
            Some(HwMutexGuard { mutex: self })
        } else {
            None
        }
    }

    /// The data, through exclusive access to the mutex.
    pub fn get_mut(&mut self) -> (d: &mut T)
        ensures
            *d == old(self).data(),
            final(self).data() == *final(d),
    {
        &mut self.cell
    }

    /// The data, without the mutex.
    pub fn into_inner(self) -> (d: T)
        ensures
            d == self.data(),
    {
        self.cell
    }
}

/// The data of a mutex, while its semaphore is held.
pub struct HwMutexGuard<'a, const N: usize, T> {
    mutex: &'a mut HwMutex<N, T>,
}

impl<'a, const N: usize, T> HwMutexGuard<'a, N, T> {
    /// The mutex.
    pub closed spec fn guarded(self) -> &'a mut HwMutex<N, T> {
        self.mutex
    }

    /// The data.
    pub fn get(&self) -> (d: &T)
        ensures
            *d == self.guarded().data(),
    {
        &self.mutex.cell
    }

    /// The data, to be changed.
    pub fn get_mut(&mut self) -> (d: &mut T)
        ensures
            *d == old(self).guarded().data(),
            final(self).guarded().data() == *final(d),
            *final(final(self).guarded()) == *final(old(self).guarded()),
    {
        &mut self.mutex.cell
    }

    /// Ends the use of the data. The steps make its stores visible and release the semaphore.
    pub fn release(self) -> (r: [SphAction; 3])
        ensures
            r@ == seq![
                SphAction::CompilerFence,
                SphAction::Barrier,
                SphAction::Command { n: N, value: REQ_UNLOCK },
            ],
            *final(self.guarded()) == *self.guarded(),
    {
        release_steps(N)
    }
}

} // verus!
