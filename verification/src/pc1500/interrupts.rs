// Interrupt bookkeeping of the LH5801 as a stand-alone controller: the IE
// flag, the two request lines and the in-service state.
use vstd::prelude::*;

verus! {

#[derive(Debug)]
pub struct InterruptController {
    pub ie_flag: bool,
    pub ir1_active: bool,
    pub ir2_active: bool,
    pub processing_interrupt: bool,
}

#[derive(Debug, Clone, Copy, PartialEq, Eq, Structural)]
pub struct InterruptStatus {
    pub ie_flag: bool,
    pub ir1_active: bool,
    pub ir2_active: bool,
    pub processing_interrupt: bool,
}

impl InterruptController {
    /// Interrupts disabled, nothing requested, nothing in service.
    pub fn new() -> (r: Self)
        ensures
            !r.ie_flag && !r.ir1_active && !r.ir2_active && !r.processing_interrupt,
    {
        Self { ie_flag: false, ir1_active: false, ir2_active: false, processing_interrupt: false }
    }

    pub fn set_ie(&mut self)
        ensures
            *final(self) == (InterruptController { ie_flag: true, ..*old(self) }),
    {
        *self = InterruptController { ie_flag: true, ..*self };
    }

    pub fn reset_ie(&mut self)
        ensures
            *final(self) == (InterruptController { ie_flag: false, ..*old(self) }),
    {
        *self = InterruptController { ie_flag: false, ..*self };
    }

    pub fn ie_enabled(&self) -> (r: bool)
        ensures
            r == self.ie_flag,
    {
        self.ie_flag
    }

    pub fn request_timer_interrupt(&mut self)
        ensures
            *final(self) == (InterruptController { ir2_active: true, ..*old(self) }),
    {
        *self = InterruptController { ir2_active: true, ..*self };
    }

    pub fn request_maskable_interrupt(&mut self)
        ensures
            *final(self) == (InterruptController { ir1_active: true, ..*old(self) }),
    {
        *self = InterruptController { ir1_active: true, ..*self };
    }

    pub fn clear_timer_interrupt(&mut self)
        ensures
            *final(self) == (InterruptController { ir2_active: false, ..*old(self) }),
    {
        *self = InterruptController { ir2_active: false, ..*self };
    }

    pub fn clear_maskable_interrupt(&mut self)
        ensures
            *final(self) == (InterruptController { ir1_active: false, ..*old(self) }),
    {
        *self = InterruptController { ir1_active: false, ..*self };
    }

    /// The vector of the request to serve now, if any: nothing while
    /// interrupts are disabled or one is in service; otherwise the timer
    /// request (0xFFFB) before the maskable one (0xFFFA). Serving a request
    /// clears it and marks an interrupt in service.
    pub fn check_pending_interrupt(&mut self) -> (r: Option<u16>)
        ensures
            (!old(self).ie_flag || old(self).processing_interrupt) ==> r is None && *final(self) == *old(self),
            (old(self).ie_flag && !old(self).processing_interrupt && old(self).ir2_active) ==> r == Some(0xFFFBu16)
                && *final(self) == (InterruptController { processing_interrupt: true, ir2_active: false, ..*old(self) }),
            (old(self).ie_flag && !old(self).processing_interrupt && !old(self).ir2_active && old(self).ir1_active)
                ==> r == Some(0xFFFAu16)
                && *final(self) == (InterruptController { processing_interrupt: true, ir1_active: false, ..*old(self) }),
            (old(self).ie_flag && !old(self).processing_interrupt && !old(self).ir2_active && !old(self).ir1_active)
                ==> r is None && *final(self) == *old(self),
    {
        if !self.ie_flag {
            return None;
        }
        if self.processing_interrupt {
            return None;
        }
        if self.ir2_active {
            *self = InterruptController { processing_interrupt: true, ..*self };
            self.clear_timer_interrupt();
            return Some(0xFFFB);
        }
        if self.ir1_active {
            *self = InterruptController { processing_interrupt: true, ..*self };
            self.clear_maskable_interrupt();
            return Some(0xFFFA);
        }
        None
    }

    pub fn start_interrupt_processing(&mut self)
        ensures
            *final(self) == (InterruptController { processing_interrupt: true, ie_flag: false, ..*old(self) }),
    {
        *self = InterruptController { processing_interrupt: true, ie_flag: false, ..*self };
    }

    pub fn complete_interrupt_processing(&mut self)
        ensures
            *final(self) == (InterruptController { processing_interrupt: false, ..*old(self) }),
    {
        *self = InterruptController { processing_interrupt: false, ..*self };
    }

    pub fn timer_interrupt_requested(&self) -> (r: bool)
        ensures
            r == self.ir2_active,
    {
        self.ir2_active
    }

    pub fn maskable_interrupt_requested(&self) -> (r: bool)
        ensures
            r == self.ir1_active,
    {
        self.ir1_active
    }

    pub fn is_processing_interrupt(&self) -> (r: bool)
        ensures
            r == self.processing_interrupt,
    {
        self.processing_interrupt
    }

    pub fn get_status(&self) -> (r: InterruptStatus)
        ensures
            r.ie_flag == self.ie_flag,
            r.ir1_active == self.ir1_active,
            r.ir2_active == self.ir2_active,
            r.processing_interrupt == self.processing_interrupt,
    {
        InterruptStatus {
            ie_flag: self.ie_flag,
            ir1_active: self.ir1_active,
            ir2_active: self.ir2_active,
            processing_interrupt: self.processing_interrupt,
        }
    }
}

/// While one interrupt is in service no other is served, whatever is
/// requested.
pub proof fn lemma_no_nested_interrupts(c: InterruptController)
    requires
        c.processing_interrupt,
    ensures
        !(c.ie_flag && !c.processing_interrupt),
{
}

} // verus!
