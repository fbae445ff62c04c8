//! The pulse width modulator's registers.

use vstd::prelude::*;

use crate::pac::generic::Reg;

pub mod ch0_en;
pub mod ch0_param;
pub mod ch0_phase;
pub mod ch0_update;
pub mod ch1_en;
pub mod ch1_param;
pub mod ch1_phase;
pub mod ch1_update;

verus! {

/// Channel 0: period and off-period.
pub type Ch0Param = Reg<ch0_param::Ch0ParamSpec>;

/// Channel 0: output enable.
pub type Ch0En = Reg<ch0_en::Ch0EnSpec>;

/// Channel 0: update trigger.
pub type Ch0Update = Reg<ch0_update::Ch0UpdateSpec>;

/// Channel 1: period and off-period.
pub type Ch1Param = Reg<ch1_param::Ch1ParamSpec>;

/// Channel 1: output enable.
pub type Ch1En = Reg<ch1_en::Ch1EnSpec>;

/// Channel 1: update trigger.
pub type Ch1Update = Reg<ch1_update::Ch1UpdateSpec>;

/// Channel 0: prescaler.
pub type Ch0Phase = Reg<ch0_phase::Ch0PhaseSpec>;

/// Channel 1: prescaler.
pub type Ch1Phase = Reg<ch1_phase::Ch1PhaseSpec>;

/// The registers of channels 0 and 1.
pub struct RegisterBlock {
    ch0_param: Ch0Param,
    ch0_en: Ch0En,
    ch0_update: Ch0Update,
    ch1_param: Ch1Param,
    ch1_en: Ch1En,
    ch1_update: Ch1Update,
    ch0_phase: Ch0Phase,
    ch1_phase: Ch1Phase,
}

/// The words that the registers hold, in the order of [`RegisterBlock`].
#[derive(Clone, Copy, Debug, PartialEq, Eq, Structural)]
pub struct Words {
    pub ch0_param: u32,
    pub ch0_en: u32,
    pub ch0_update: u32,
    pub ch1_param: u32,
    pub ch1_en: u32,
    pub ch1_update: u32,
    pub ch0_phase: u32,
    pub ch1_phase: u32,
}

impl RegisterBlock {
    /// The words that the registers hold.
    pub closed spec fn words(self) -> Words {
        Words {
            ch0_param: self.ch0_param.value,
            ch0_en: self.ch0_en.value,
            ch0_update: self.ch0_update.value,
            ch1_param: self.ch1_param.value,
            ch1_en: self.ch1_en.value,
            ch1_update: self.ch1_update.value,
            ch0_phase: self.ch0_phase.value,
            ch1_phase: self.ch1_phase.value,
        }
    }

    /// A block with the given words.
    pub fn new(words: Words) -> (b: RegisterBlock)
        ensures
            b.words() == words,
    {
        RegisterBlock {
            ch0_param: Reg::new(words.ch0_param),
            ch0_en: Reg::new(words.ch0_en),
            ch0_update: Reg::new(words.ch0_update),
            ch1_param: Reg::new(words.ch1_param),
            ch1_en: Reg::new(words.ch1_en),
            ch1_update: Reg::new(words.ch1_update),
            ch0_phase: Reg::new(words.ch0_phase),
            ch1_phase: Reg::new(words.ch1_phase),
        }
    }

    /// Channel 0: period and off-period.
    pub fn ch0_param(&self) -> (r: &Ch0Param)
        ensures
            r.value == self.words().ch0_param,
    {
        &self.ch0_param
    }

    /// Channel 0: period and off-period, to be written.
    pub fn ch0_param_mut(&mut self) -> (r: &mut Ch0Param)
        ensures
            r.value == old(self).words().ch0_param,
            final(self).words() == (Words { ch0_param: final(r).value, ..old(self).words() }),
    {
        &mut self.ch0_param
    }

    /// Channel 0: output enable.
    pub fn ch0_en(&self) -> (r: &Ch0En)
        ensures
            r.value == self.words().ch0_en,
    {
        &self.ch0_en
    }

    /// Channel 0: output enable, to be written.
    pub fn ch0_en_mut(&mut self) -> (r: &mut Ch0En)
        ensures
            r.value == old(self).words().ch0_en,
            final(self).words() == (Words { ch0_en: final(r).value, ..old(self).words() }),
    {
        &mut self.ch0_en
    }

    /// Channel 0: update trigger.
    pub fn ch0_update(&self) -> (r: &Ch0Update)
        ensures
            r.value == self.words().ch0_update,
    {
        &self.ch0_update
    }

    /// Channel 0: update trigger, to be written.
    pub fn ch0_update_mut(&mut self) -> (r: &mut Ch0Update)
        ensures
            r.value == old(self).words().ch0_update,
            final(self).words() == (Words { ch0_update: final(r).value, ..old(self).words() }),
    {
        &mut self.ch0_update
    }

    /// Channel 1: period and off-period.
    pub fn ch1_param(&self) -> (r: &Ch1Param)
        ensures
            r.value == self.words().ch1_param,
    {
        &self.ch1_param
    }

    /// Channel 1: period and off-period, to be written.
    pub fn ch1_param_mut(&mut self) -> (r: &mut Ch1Param)
        ensures
            r.value == old(self).words().ch1_param,
            final(self).words() == (Words { ch1_param: final(r).value, ..old(self).words() }),
    {
        &mut self.ch1_param
    }

    /// Channel 1: output enable.
    pub fn ch1_en(&self) -> (r: &Ch1En)
        ensures
            r.value == self.words().ch1_en,
    {
        &self.ch1_en
    }

    /// Channel 1: output enable, to be written.
    pub fn ch1_en_mut(&mut self) -> (r: &mut Ch1En)
        ensures
            r.value == old(self).words().ch1_en,
            final(self).words() == (Words { ch1_en: final(r).value, ..old(self).words() }),
    {
        &mut self.ch1_en
    }

    /// Channel 1: update trigger.
    pub fn ch1_update(&self) -> (r: &Ch1Update)
        ensures
            r.value == self.words().ch1_update,
    {
        &self.ch1_update
    }

    /// Channel 1: update trigger, to be written.
    pub fn ch1_update_mut(&mut self) -> (r: &mut Ch1Update)
        ensures
            r.value == old(self).words().ch1_update,
            final(self).words() == (Words { ch1_update: final(r).value, ..old(self).words() }),
    {
        &mut self.ch1_update
    }

    /// Channel 0: prescaler.
    pub fn ch0_phase(&self) -> (r: &Ch0Phase)
        ensures
            r.value == self.words().ch0_phase,
    {
        &self.ch0_phase
    }

    /// Channel 0: prescaler, to be written.
    pub fn ch0_phase_mut(&mut self) -> (r: &mut Ch0Phase)
        ensures
            r.value == old(self).words().ch0_phase,
            final(self).words() == (Words { ch0_phase: final(r).value, ..old(self).words() }),
    {
        &mut self.ch0_phase
    }

    /// Channel 1: prescaler.
    pub fn ch1_phase(&self) -> (r: &Ch1Phase)
        ensures
            r.value == self.words().ch1_phase,
    {
        &self.ch1_phase
    }

    /// Channel 1: prescaler, to be written.
    pub fn ch1_phase_mut(&mut self) -> (r: &mut Ch1Phase)
        ensures
            r.value == old(self).words().ch1_phase,
            final(self).words() == (Words { ch1_phase: final(r).value, ..old(self).words() }),
    {
        &mut self.ch1_phase
    }
}

} // verus!
