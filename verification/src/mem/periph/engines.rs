//! The engines of the lunar module, as far as the channels show them.

use crate::mem::periph::Peripheral;
use vstd::prelude::*;

verus! {

pub const LM_DECEND_ENGINE: u8 = 0;

pub const LM_ASCEND_ENGINE: u8 = 1;

pub const LM_UNKNOWN_ENGINE: u8 = 2;

#[derive(Debug, Clone, Copy, PartialEq, Eq, Structural)]
pub struct LmDecendEngine {
    pub enabled: bool,
}

impl LmDecendEngine {
    pub fn new() -> (r: LmDecendEngine)
        ensures
            !r.enabled,
    {
        LmDecendEngine { enabled: false }
    }

    pub fn is_enabled(&self) -> (r: bool)
        ensures
            r == self.enabled,
    {
        self.enabled
    }

    pub fn set_enabled(&mut self, enable: bool)
        ensures
            final(self).enabled == enable,
    {
        self.enabled = enable;
    }
}

#[derive(Debug, Clone, Copy, PartialEq, Eq, Structural)]
pub struct LmEngines {
    pub decend_engine: LmDecendEngine,
    pub active: u8,
}

impl Peripheral for LmEngines {
    fn is_interrupt(&mut self) -> (r: u16)
        ensures
            r == 0,
            *final(self) == *old(self),
    {
        0
    }
}

impl LmEngines {
    /// Whether the active engine is on. Only the descent engine can be on.
    pub open spec fn engine_enabled(self) -> bool {
        self.active == LM_DECEND_ENGINE && self.decend_engine.enabled
    }

    pub fn new() -> (r: LmEngines)
        ensures
            r.active == LM_DECEND_ENGINE,
            !r.decend_engine.enabled,
    {
        LmEngines { active: LM_DECEND_ENGINE, decend_engine: LmDecendEngine::new() }
    }

    pub fn _get_engine_enable(&self) -> (r: bool)
        ensures
            r == self.engine_enabled(),
    {
        if self.active == LM_DECEND_ENGINE {
            self.decend_engine.is_enabled()
        } else {
            false
        }
    }

    /// Switches the active engine on or off; only the descent engine obeys.
    pub fn set_engine_enable(&mut self, enable: bool)
        ensures
            final(self).active == old(self).active,
            old(self).active == LM_DECEND_ENGINE ==> final(self).decend_engine.enabled == enable,
            old(self).active != LM_DECEND_ENGINE ==> final(self).decend_engine == old(
                self,
            ).decend_engine,
    {
        if self.active == LM_DECEND_ENGINE {
            self.decend_engine.set_enabled(enable);
        }
    }

    pub fn get_active_engine(&self) -> (r: u8)
        ensures
            r == self.active,
    {
        self.active
    }

    /// Makes `engine_type` the active engine, if it names an engine.
    pub fn set_active_engine(&mut self, engine_type: u8)
        ensures
            final(self).decend_engine == old(self).decend_engine,
            engine_type < LM_UNKNOWN_ENGINE ==> final(self).active == engine_type,
            engine_type >= LM_UNKNOWN_ENGINE ==> final(self).active == old(self).active,
    {
        if engine_type < LM_UNKNOWN_ENGINE {
            self.active = engine_type;
        }
    }
}

} // verus!
