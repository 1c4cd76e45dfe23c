// One function per LH5801 instruction, each stating its exact effect on the
// machine; the decoder in `isa` dispatches to them.
use vstd::prelude::*;
use crate::Pc1500;
use crate::lh5801::{CpuFault, Lh5801, inc16, me1_of};
use crate::isa::{clock_advanced, is_illegal, is_illegal_fd};
use crate::effects;

verus! {

impl Pc1500 {
    pub(crate) fn run_0f(&mut self) -> (r: Result<(), CpuFault>)
        requires
            old(self).wf(),
            old(self).lh5801.timer_state + 64 <= usize::MAX,
            old(self).lh5801.ticks + 64 <= usize::MAX,
        ensures
            clock_advanced(old(self), final(self), r),
            !is_illegal(r),
            !is_illegal_fd(r),
            r is Ok,
            r is Ok ==> final(self)@ == effects::op_0f(old(self)@),
    {
        proof { reveal(effects::op_0f); }
        let v102 = (self.lh5801.x()) as u32;
        let val = self.cpu_readmem(v102);
        let v103 = self.lh5801.a;
        self.bit(val, v103);
        self.add_state(7);
        Ok(())
    }

    pub(crate) fn run_0e(&mut self) -> (r: Result<(), CpuFault>)
        requires
            old(self).wf(),
            old(self).lh5801.timer_state + 64 <= usize::MAX,
            old(self).lh5801.ticks + 64 <= usize::MAX,
        ensures
            clock_advanced(old(self), final(self), r),
            !is_illegal(r),
            !is_illegal_fd(r),
            r is Ok,
            r is Ok ==> final(self)@ == effects::op_0e(old(self)@),
    {
        proof { reveal(effects::op_0e); }
        let v100 = (self.lh5801.x()) as u32;
        let v101 = self.lh5801.a;
        self.cpu_writemem(v100, v101);
        self.add_state(6);
        Ok(())
    }

    pub(crate) fn run_0d(&mut self) -> (r: Result<(), CpuFault>)
        requires
            old(self).wf(),
            old(self).lh5801.timer_state + 64 <= usize::MAX,
            old(self).lh5801.ticks + 64 <= usize::MAX,
        ensures
            clock_advanced(old(self), final(self), r),
            !is_illegal(r),
            !is_illegal_fd(r),
            r is Ok,
            r is Ok ==> final(self)@ == effects::op_0d(old(self)@),
    {
        proof { reveal(effects::op_0d); }
        let v99 = (self.lh5801.x()) as u32;
        let val = self.cpu_readmem(v99);
        self.eor(val);
        self.add_state(7);
        Ok(())
    }

    pub(crate) fn run_0c(&mut self) -> (r: Result<(), CpuFault>)
        requires
            old(self).wf(),
            old(self).lh5801.timer_state + 64 <= usize::MAX,
            old(self).lh5801.ticks + 64 <= usize::MAX,
        ensures
            clock_advanced(old(self), final(self), r),
            !is_illegal(r),
            !is_illegal_fd(r),
            r is Ok,
            r is Ok ==> final(self)@ == effects::op_0c(old(self)@),
    {
        proof { reveal(effects::op_0c); }
        let v98 = (self.lh5801.x()) as u32;
        let val = self.cpu_readmem(v98);
        self.dcs(val);
        self.add_state(13);
        Ok(())
    }

    pub(crate) fn run_0b(&mut self) -> (r: Result<(), CpuFault>)
        requires
            old(self).wf(),
            old(self).lh5801.timer_state + 64 <= usize::MAX,
            old(self).lh5801.ticks + 64 <= usize::MAX,
        ensures
            clock_advanced(old(self), final(self), r),
            !is_illegal(r),
            !is_illegal_fd(r),
            r is Ok,
            r is Ok ==> final(self)@ == effects::op_0b(old(self)@),
    {
        proof { reveal(effects::op_0b); }
        let v97 = (self.lh5801.x()) as u32;
        let val = self.cpu_readmem(v97);
        self.ora(val);
        self.add_state(7);
        Ok(())
    }

    pub(crate) fn run_0a(&mut self) -> (r: Result<(), CpuFault>)
        requires
            old(self).wf(),
            old(self).lh5801.timer_state + 64 <= usize::MAX,
            old(self).lh5801.ticks + 64 <= usize::MAX,
        ensures
            clock_advanced(old(self), final(self), r),
            !is_illegal(r),
            !is_illegal_fd(r),
            r is Ok,
            r is Ok ==> final(self)@ == effects::op_0a(old(self)@),
    {
        proof { reveal(effects::op_0a); }
        let v96 = self.lh5801.a;
        self.lh5801.set_xl(v96);
        self.add_state(5);
        Ok(())
    }

    pub(crate) fn run_09(&mut self) -> (r: Result<(), CpuFault>)
        requires
            old(self).wf(),
            old(self).lh5801.timer_state + 64 <= usize::MAX,
            old(self).lh5801.ticks + 64 <= usize::MAX,
        ensures
            clock_advanced(old(self), final(self), r),
            !is_illegal(r),
            !is_illegal_fd(r),
            r is Ok,
            r is Ok ==> final(self)@ == effects::op_09(old(self)@),
    {
        proof { reveal(effects::op_09); }
        let v95 = (self.lh5801.x()) as u32;
        let val = self.cpu_readmem(v95);
        self.and(val);
        self.add_state(7);
        Ok(())
    }

    pub(crate) fn run_08(&mut self) -> (r: Result<(), CpuFault>)
        requires
            old(self).wf(),
            old(self).lh5801.timer_state + 64 <= usize::MAX,
            old(self).lh5801.ticks + 64 <= usize::MAX,
        ensures
            clock_advanced(old(self), final(self), r),
            !is_illegal(r),
            !is_illegal_fd(r),
            r is Ok,
            r is Ok ==> final(self)@ == effects::op_08(old(self)@),
    {
        proof { reveal(effects::op_08); }
        let v94 = self.lh5801.a;
        self.lh5801.set_xh(v94);
        self.add_state(5);
        Ok(())
    }

    pub(crate) fn run_07(&mut self) -> (r: Result<(), CpuFault>)
        requires
            old(self).wf(),
            old(self).lh5801.timer_state + 64 <= usize::MAX,
            old(self).lh5801.ticks + 64 <= usize::MAX,
        ensures
            clock_advanced(old(self), final(self), r),
            !is_illegal(r),
            !is_illegal_fd(r),
            r is Ok,
            r is Ok ==> final(self)@ == effects::op_07(old(self)@),
    {
        proof { reveal(effects::op_07); }
        let v92 = (self.lh5801.x()) as u32;
        let val = self.cpu_readmem(v92);
        let v93 = self.lh5801.a;
        self.cpa(v93, val);
        self.add_state(7);
        Ok(())
    }

    pub(crate) fn run_06(&mut self) -> (r: Result<(), CpuFault>)
        requires
            old(self).wf(),
            old(self).lh5801.timer_state + 64 <= usize::MAX,
            old(self).lh5801.ticks + 64 <= usize::MAX,
        ensures
            clock_advanced(old(self), final(self), r),
            !is_illegal(r),
            !is_illegal_fd(r),
            r is Ok,
            r is Ok ==> final(self)@ == effects::op_06(old(self)@),
    {
        proof { reveal(effects::op_06); }
        let v90 = self.lh5801.a;
        let v91 = self.lh5801.xl();
        self.cpa(v90, v91);
        self.add_state(6);
        Ok(())
    }

    pub(crate) fn run_05(&mut self) -> (r: Result<(), CpuFault>)
        requires
            old(self).wf(),
            old(self).lh5801.timer_state + 64 <= usize::MAX,
            old(self).lh5801.ticks + 64 <= usize::MAX,
        ensures
            clock_advanced(old(self), final(self), r),
            !is_illegal(r),
            !is_illegal_fd(r),
            r is Ok,
            r is Ok ==> final(self)@ == effects::op_05(old(self)@),
    {
        proof { reveal(effects::op_05); }
        let v89 = (self.lh5801.x()) as u32;
        let val = self.cpu_readmem(v89);
        self.lda(val);
        self.add_state(6);
        Ok(())
    }

    pub(crate) fn run_04(&mut self) -> (r: Result<(), CpuFault>)
        requires
            old(self).wf(),
            old(self).lh5801.timer_state + 64 <= usize::MAX,
            old(self).lh5801.ticks + 64 <= usize::MAX,
        ensures
            clock_advanced(old(self), final(self), r),
            !is_illegal(r),
            !is_illegal_fd(r),
            r is Ok,
            r is Ok ==> final(self)@ == effects::op_04(old(self)@),
    {
        proof { reveal(effects::op_04); }
        let v88 = self.lh5801.xl();
        self.lda(v88);
        self.add_state(5);
        Ok(())
    }

    pub(crate) fn run_03(&mut self) -> (r: Result<(), CpuFault>)
        requires
            old(self).wf(),
            old(self).lh5801.timer_state + 64 <= usize::MAX,
            old(self).lh5801.ticks + 64 <= usize::MAX,
        ensures
            clock_advanced(old(self), final(self), r),
            !is_illegal(r),
            !is_illegal_fd(r),
            r is Ok,
            r is Ok ==> final(self)@ == effects::op_03(old(self)@),
    {
        proof { reveal(effects::op_03); }
        let v87 = (self.lh5801.x()) as u32;
        let val = self.cpu_readmem(v87);
        self.adc(val);
        self.add_state(7);
        Ok(())
    }

    pub(crate) fn run_02(&mut self) -> (r: Result<(), CpuFault>)
        requires
            old(self).wf(),
            old(self).lh5801.timer_state + 64 <= usize::MAX,
            old(self).lh5801.ticks + 64 <= usize::MAX,
        ensures
            clock_advanced(old(self), final(self), r),
            !is_illegal(r),
            !is_illegal_fd(r),
            r is Ok,
            r is Ok ==> final(self)@ == effects::op_02(old(self)@),
    {
        proof { reveal(effects::op_02); }
        let v86 = self.lh5801.xl();
        self.adc(v86);
        self.add_state(6);
        Ok(())
    }

    pub(crate) fn run_01(&mut self) -> (r: Result<(), CpuFault>)
        requires
            old(self).wf(),
            old(self).lh5801.timer_state + 64 <= usize::MAX,
            old(self).lh5801.ticks + 64 <= usize::MAX,
        ensures
            clock_advanced(old(self), final(self), r),
            !is_illegal(r),
            !is_illegal_fd(r),
            r is Ok,
            r is Ok ==> final(self)@ == effects::op_01(old(self)@),
    {
        proof { reveal(effects::op_01); }
        let v85 = (self.lh5801.x()) as u32;
        let val = self.cpu_readmem(v85);
        self.sbc(val);
        self.add_state(7);
        Ok(())
    }

    pub(crate) fn run_00(&mut self) -> (r: Result<(), CpuFault>)
        requires
            old(self).wf(),
            old(self).lh5801.timer_state + 64 <= usize::MAX,
            old(self).lh5801.ticks + 64 <= usize::MAX,
        ensures
            clock_advanced(old(self), final(self), r),
            !is_illegal(r),
            !is_illegal_fd(r),
            r is Ok,
            r is Ok ==> final(self)@ == effects::op_00(old(self)@),
    {
        proof { reveal(effects::op_00); }
        let v84 = self.lh5801.xl();
        self.sbc(v84);
        self.add_state(6);
        Ok(())
    }

    pub(crate) fn run_1f(&mut self) -> (r: Result<(), CpuFault>)
        requires
            old(self).wf(),
            old(self).lh5801.timer_state + 64 <= usize::MAX,
            old(self).lh5801.ticks + 64 <= usize::MAX,
        ensures
            clock_advanced(old(self), final(self), r),
            !is_illegal(r),
            !is_illegal_fd(r),
            r is Ok,
            r is Ok ==> final(self)@ == effects::op_1f(old(self)@),
    {
        proof { reveal(effects::op_1f); }
        let v122 = (self.lh5801.y()) as u32;
        let val = self.cpu_readmem(v122);
        let v123 = self.lh5801.a;
        self.bit(val, v123);
        self.add_state(7);
        Ok(())
    }

    pub(crate) fn run_1e(&mut self) -> (r: Result<(), CpuFault>)
        requires
            old(self).wf(),
            old(self).lh5801.timer_state + 64 <= usize::MAX,
            old(self).lh5801.ticks + 64 <= usize::MAX,
        ensures
            clock_advanced(old(self), final(self), r),
            !is_illegal(r),
            !is_illegal_fd(r),
            r is Ok,
            r is Ok ==> final(self)@ == effects::op_1e(old(self)@),
    {
        proof { reveal(effects::op_1e); }
        let v120 = (self.lh5801.y()) as u32;
        let v121 = self.lh5801.a;
        self.cpu_writemem(v120, v121);
        self.add_state(6);
        Ok(())
    }

    pub(crate) fn run_1d(&mut self) -> (r: Result<(), CpuFault>)
        requires
            old(self).wf(),
            old(self).lh5801.timer_state + 64 <= usize::MAX,
            old(self).lh5801.ticks + 64 <= usize::MAX,
        ensures
            clock_advanced(old(self), final(self), r),
            !is_illegal(r),
            !is_illegal_fd(r),
            r is Ok,
            r is Ok ==> final(self)@ == effects::op_1d(old(self)@),
    {
        proof { reveal(effects::op_1d); }
        let v119 = (self.lh5801.y()) as u32;
        let val = self.cpu_readmem(v119);
        self.eor(val);
        self.add_state(7);
        Ok(())
    }

    pub(crate) fn run_1c(&mut self) -> (r: Result<(), CpuFault>)
        requires
            old(self).wf(),
            old(self).lh5801.timer_state + 64 <= usize::MAX,
            old(self).lh5801.ticks + 64 <= usize::MAX,
        ensures
            clock_advanced(old(self), final(self), r),
            !is_illegal(r),
            !is_illegal_fd(r),
            r is Ok,
            r is Ok ==> final(self)@ == effects::op_1c(old(self)@),
    {
        proof { reveal(effects::op_1c); }
        let v118 = (self.lh5801.y()) as u32;
        let val = self.cpu_readmem(v118);
        self.dcs(val);
        self.add_state(13);
        Ok(())
    }

    pub(crate) fn run_1b(&mut self) -> (r: Result<(), CpuFault>)
        requires
            old(self).wf(),
            old(self).lh5801.timer_state + 64 <= usize::MAX,
            old(self).lh5801.ticks + 64 <= usize::MAX,
        ensures
            clock_advanced(old(self), final(self), r),
            !is_illegal(r),
            !is_illegal_fd(r),
            r is Ok,
            r is Ok ==> final(self)@ == effects::op_1b(old(self)@),
    {
        proof { reveal(effects::op_1b); }
        let v117 = (self.lh5801.y()) as u32;
        let val = self.cpu_readmem(v117);
        self.ora(val);
        self.add_state(7);
        Ok(())
    }

    pub(crate) fn run_1a(&mut self) -> (r: Result<(), CpuFault>)
        requires
            old(self).wf(),
            old(self).lh5801.timer_state + 64 <= usize::MAX,
            old(self).lh5801.ticks + 64 <= usize::MAX,
        ensures
            clock_advanced(old(self), final(self), r),
            !is_illegal(r),
            !is_illegal_fd(r),
            r is Ok,
            r is Ok ==> final(self)@ == effects::op_1a(old(self)@),
    {
        proof { reveal(effects::op_1a); }
        let v116 = self.lh5801.a;
        self.lh5801.set_yl(v116);
        self.add_state(5);
        Ok(())
    }

    pub(crate) fn run_19(&mut self) -> (r: Result<(), CpuFault>)
        requires
            old(self).wf(),
            old(self).lh5801.timer_state + 64 <= usize::MAX,
            old(self).lh5801.ticks + 64 <= usize::MAX,
        ensures
            clock_advanced(old(self), final(self), r),
            !is_illegal(r),
            !is_illegal_fd(r),
            r is Ok,
            r is Ok ==> final(self)@ == effects::op_19(old(self)@),
    {
        proof { reveal(effects::op_19); }
        let v115 = (self.lh5801.y()) as u32;
        let val = self.cpu_readmem(v115);
        self.and(val);
        self.add_state(7);
        Ok(())
    }

    pub(crate) fn run_18(&mut self) -> (r: Result<(), CpuFault>)
        requires
            old(self).wf(),
            old(self).lh5801.timer_state + 64 <= usize::MAX,
            old(self).lh5801.ticks + 64 <= usize::MAX,
        ensures
            clock_advanced(old(self), final(self), r),
            !is_illegal(r),
            !is_illegal_fd(r),
            r is Ok,
            r is Ok ==> final(self)@ == effects::op_18(old(self)@),
    {
        proof { reveal(effects::op_18); }
        let v114 = self.lh5801.a;
        self.lh5801.set_yh(v114);
        self.add_state(5);
        Ok(())
    }

    pub(crate) fn run_17(&mut self) -> (r: Result<(), CpuFault>)
        requires
            old(self).wf(),
            old(self).lh5801.timer_state + 64 <= usize::MAX,
            old(self).lh5801.ticks + 64 <= usize::MAX,
        ensures
            clock_advanced(old(self), final(self), r),
            !is_illegal(r),
            !is_illegal_fd(r),
            r is Ok,
            r is Ok ==> final(self)@ == effects::op_17(old(self)@),
    {
        proof { reveal(effects::op_17); }
        let v112 = (self.lh5801.y()) as u32;
        let val = self.cpu_readmem(v112);
        let v113 = self.lh5801.a;
        self.cpa(v113, val);
        self.add_state(7);
        Ok(())
    }

    pub(crate) fn run_16(&mut self) -> (r: Result<(), CpuFault>)
        requires
            old(self).wf(),
            old(self).lh5801.timer_state + 64 <= usize::MAX,
            old(self).lh5801.ticks + 64 <= usize::MAX,
        ensures
            clock_advanced(old(self), final(self), r),
            !is_illegal(r),
            !is_illegal_fd(r),
            r is Ok,
            r is Ok ==> final(self)@ == effects::op_16(old(self)@),
    {
        proof { reveal(effects::op_16); }
        let v110 = self.lh5801.a;
        let v111 = self.lh5801.yl();
        self.cpa(v110, v111);
        self.add_state(6);
        Ok(())
    }

    pub(crate) fn run_15(&mut self) -> (r: Result<(), CpuFault>)
        requires
            old(self).wf(),
            old(self).lh5801.timer_state + 64 <= usize::MAX,
            old(self).lh5801.ticks + 64 <= usize::MAX,
        ensures
            clock_advanced(old(self), final(self), r),
            !is_illegal(r),
            !is_illegal_fd(r),
            r is Ok,
            r is Ok ==> final(self)@ == effects::op_15(old(self)@),
    {
        proof { reveal(effects::op_15); }
        let v109 = (self.lh5801.y()) as u32;
        let val = self.cpu_readmem(v109);
        self.lda(val);
        self.add_state(6);
        Ok(())
    }

    pub(crate) fn run_14(&mut self) -> (r: Result<(), CpuFault>)
        requires
            old(self).wf(),
            old(self).lh5801.timer_state + 64 <= usize::MAX,
            old(self).lh5801.ticks + 64 <= usize::MAX,
        ensures
            clock_advanced(old(self), final(self), r),
            !is_illegal(r),
            !is_illegal_fd(r),
            r is Ok,
            r is Ok ==> final(self)@ == effects::op_14(old(self)@),
    {
        proof { reveal(effects::op_14); }
        let v108 = self.lh5801.yl();
        self.lda(v108);
        self.add_state(5);
        Ok(())
    }

    pub(crate) fn run_13(&mut self) -> (r: Result<(), CpuFault>)
        requires
            old(self).wf(),
            old(self).lh5801.timer_state + 64 <= usize::MAX,
            old(self).lh5801.ticks + 64 <= usize::MAX,
        ensures
            clock_advanced(old(self), final(self), r),
            !is_illegal(r),
            !is_illegal_fd(r),
            r is Ok,
            r is Ok ==> final(self)@ == effects::op_13(old(self)@),
    {
        proof { reveal(effects::op_13); }
        let v107 = (self.lh5801.y()) as u32;
        let val = self.cpu_readmem(v107);
        self.adc(val);
        self.add_state(7);
        Ok(())
    }

    pub(crate) fn run_12(&mut self) -> (r: Result<(), CpuFault>)
        requires
            old(self).wf(),
            old(self).lh5801.timer_state + 64 <= usize::MAX,
            old(self).lh5801.ticks + 64 <= usize::MAX,
        ensures
            clock_advanced(old(self), final(self), r),
            !is_illegal(r),
            !is_illegal_fd(r),
            r is Ok,
            r is Ok ==> final(self)@ == effects::op_12(old(self)@),
    {
        proof { reveal(effects::op_12); }
        let v106 = self.lh5801.yl();
        self.adc(v106);
        self.add_state(6);
        Ok(())
    }

    pub(crate) fn run_11(&mut self) -> (r: Result<(), CpuFault>)
        requires
            old(self).wf(),
            old(self).lh5801.timer_state + 64 <= usize::MAX,
            old(self).lh5801.ticks + 64 <= usize::MAX,
        ensures
            clock_advanced(old(self), final(self), r),
            !is_illegal(r),
            !is_illegal_fd(r),
            r is Ok,
            r is Ok ==> final(self)@ == effects::op_11(old(self)@),
    {
        proof { reveal(effects::op_11); }
        let v105 = (self.lh5801.y()) as u32;
        let val = self.cpu_readmem(v105);
        self.sbc(val);
        self.add_state(7);
        Ok(())
    }

    pub(crate) fn run_10(&mut self) -> (r: Result<(), CpuFault>)
        requires
            old(self).wf(),
            old(self).lh5801.timer_state + 64 <= usize::MAX,
            old(self).lh5801.ticks + 64 <= usize::MAX,
        ensures
            clock_advanced(old(self), final(self), r),
            !is_illegal(r),
            !is_illegal_fd(r),
            r is Ok,
            r is Ok ==> final(self)@ == effects::op_10(old(self)@),
    {
        proof { reveal(effects::op_10); }
        let v104 = self.lh5801.yl();
        self.sbc(v104);
        self.add_state(6);
        Ok(())
    }

    pub(crate) fn run_2f(&mut self) -> (r: Result<(), CpuFault>)
        requires
            old(self).wf(),
            old(self).lh5801.timer_state + 64 <= usize::MAX,
            old(self).lh5801.ticks + 64 <= usize::MAX,
        ensures
            clock_advanced(old(self), final(self), r),
            !is_illegal(r),
            !is_illegal_fd(r),
            r is Ok,
            r is Ok ==> final(self)@ == effects::op_2f(old(self)@),
    {
        proof { reveal(effects::op_2f); }
        let v142 = (self.lh5801.u()) as u32;
        let val = self.cpu_readmem(v142);
        let v143 = self.lh5801.a;
        self.bit(val, v143);
        self.add_state(7);
        Ok(())
    }

    pub(crate) fn run_2e(&mut self) -> (r: Result<(), CpuFault>)
        requires
            old(self).wf(),
            old(self).lh5801.timer_state + 64 <= usize::MAX,
            old(self).lh5801.ticks + 64 <= usize::MAX,
        ensures
            clock_advanced(old(self), final(self), r),
            !is_illegal(r),
            !is_illegal_fd(r),
            r is Ok,
            r is Ok ==> final(self)@ == effects::op_2e(old(self)@),
    {
        proof { reveal(effects::op_2e); }
        let v140 = (self.lh5801.u()) as u32;
        let v141 = self.lh5801.a;
        self.cpu_writemem(v140, v141);
        self.add_state(6);
        Ok(())
    }

    pub(crate) fn run_2d(&mut self) -> (r: Result<(), CpuFault>)
        requires
            old(self).wf(),
            old(self).lh5801.timer_state + 64 <= usize::MAX,
            old(self).lh5801.ticks + 64 <= usize::MAX,
        ensures
            clock_advanced(old(self), final(self), r),
            !is_illegal(r),
            !is_illegal_fd(r),
            r is Ok,
            r is Ok ==> final(self)@ == effects::op_2d(old(self)@),
    {
        proof { reveal(effects::op_2d); }
        let v139 = (self.lh5801.u()) as u32;
        let val = self.cpu_readmem(v139);
        self.eor(val);
        self.add_state(7);
        Ok(())
    }

    pub(crate) fn run_2c(&mut self) -> (r: Result<(), CpuFault>)
        requires
            old(self).wf(),
            old(self).lh5801.timer_state + 64 <= usize::MAX,
            old(self).lh5801.ticks + 64 <= usize::MAX,
        ensures
            clock_advanced(old(self), final(self), r),
            !is_illegal(r),
            !is_illegal_fd(r),
            r is Ok,
            r is Ok ==> final(self)@ == effects::op_2c(old(self)@),
    {
        proof { reveal(effects::op_2c); }
        let v138 = (self.lh5801.u()) as u32;
        let val = self.cpu_readmem(v138);
        self.dcs(val);
        self.add_state(13);
        Ok(())
    }

    pub(crate) fn run_2b(&mut self) -> (r: Result<(), CpuFault>)
        requires
            old(self).wf(),
            old(self).lh5801.timer_state + 64 <= usize::MAX,
            old(self).lh5801.ticks + 64 <= usize::MAX,
        ensures
            clock_advanced(old(self), final(self), r),
            !is_illegal(r),
            !is_illegal_fd(r),
            r is Ok,
            r is Ok ==> final(self)@ == effects::op_2b(old(self)@),
    {
        proof { reveal(effects::op_2b); }
        let v137 = (self.lh5801.u()) as u32;
        let val = self.cpu_readmem(v137);
        self.ora(val);
        self.add_state(7);
        Ok(())
    }

    pub(crate) fn run_2a(&mut self) -> (r: Result<(), CpuFault>)
        requires
            old(self).wf(),
            old(self).lh5801.timer_state + 64 <= usize::MAX,
            old(self).lh5801.ticks + 64 <= usize::MAX,
        ensures
            clock_advanced(old(self), final(self), r),
            !is_illegal(r),
            !is_illegal_fd(r),
            r is Ok,
            r is Ok ==> final(self)@ == effects::op_2a(old(self)@),
    {
        proof { reveal(effects::op_2a); }
        let v136 = self.lh5801.a;
        self.lh5801.set_ul(v136);
        self.add_state(5);
        Ok(())
    }

    pub(crate) fn run_29(&mut self) -> (r: Result<(), CpuFault>)
        requires
            old(self).wf(),
            old(self).lh5801.timer_state + 64 <= usize::MAX,
            old(self).lh5801.ticks + 64 <= usize::MAX,
        ensures
            clock_advanced(old(self), final(self), r),
            !is_illegal(r),
            !is_illegal_fd(r),
            r is Ok,
            r is Ok ==> final(self)@ == effects::op_29(old(self)@),
    {
        proof { reveal(effects::op_29); }
        let v135 = (self.lh5801.u()) as u32;
        let val = self.cpu_readmem(v135);
        self.and(val);
        self.add_state(7);
        Ok(())
    }

    pub(crate) fn run_28(&mut self) -> (r: Result<(), CpuFault>)
        requires
            old(self).wf(),
            old(self).lh5801.timer_state + 64 <= usize::MAX,
            old(self).lh5801.ticks + 64 <= usize::MAX,
        ensures
            clock_advanced(old(self), final(self), r),
            !is_illegal(r),
            !is_illegal_fd(r),
            r is Ok,
            r is Ok ==> final(self)@ == effects::op_28(old(self)@),
    {
        proof { reveal(effects::op_28); }
        let v134 = self.lh5801.a;
        self.lh5801.set_uh(v134);
        self.add_state(5);
        Ok(())
    }

    pub(crate) fn run_27(&mut self) -> (r: Result<(), CpuFault>)
        requires
            old(self).wf(),
            old(self).lh5801.timer_state + 64 <= usize::MAX,
            old(self).lh5801.ticks + 64 <= usize::MAX,
        ensures
            clock_advanced(old(self), final(self), r),
            !is_illegal(r),
            !is_illegal_fd(r),
            r is Ok,
            r is Ok ==> final(self)@ == effects::op_27(old(self)@),
    {
        proof { reveal(effects::op_27); }
        let v132 = (self.lh5801.u()) as u32;
        let val = self.cpu_readmem(v132);
        let v133 = self.lh5801.a;
        self.cpa(v133, val);
        self.add_state(7);
        Ok(())
    }

    pub(crate) fn run_26(&mut self) -> (r: Result<(), CpuFault>)
        requires
            old(self).wf(),
            old(self).lh5801.timer_state + 64 <= usize::MAX,
            old(self).lh5801.ticks + 64 <= usize::MAX,
        ensures
            clock_advanced(old(self), final(self), r),
            !is_illegal(r),
            !is_illegal_fd(r),
            r is Ok,
            r is Ok ==> final(self)@ == effects::op_26(old(self)@),
    {
        proof { reveal(effects::op_26); }
        let v130 = self.lh5801.a;
        let v131 = self.lh5801.ul();
        self.cpa(v130, v131);
        self.add_state(6);
        Ok(())
    }

    pub(crate) fn run_25(&mut self) -> (r: Result<(), CpuFault>)
        requires
            old(self).wf(),
            old(self).lh5801.timer_state + 64 <= usize::MAX,
            old(self).lh5801.ticks + 64 <= usize::MAX,
        ensures
            clock_advanced(old(self), final(self), r),
            !is_illegal(r),
            !is_illegal_fd(r),
            r is Ok,
            r is Ok ==> final(self)@ == effects::op_25(old(self)@),
    {
        proof { reveal(effects::op_25); }
        let v129 = (self.lh5801.u()) as u32;
        let val = self.cpu_readmem(v129);
        self.lda(val);
        self.add_state(6);
        Ok(())
    }

    pub(crate) fn run_24(&mut self) -> (r: Result<(), CpuFault>)
        requires
            old(self).wf(),
            old(self).lh5801.timer_state + 64 <= usize::MAX,
            old(self).lh5801.ticks + 64 <= usize::MAX,
        ensures
            clock_advanced(old(self), final(self), r),
            !is_illegal(r),
            !is_illegal_fd(r),
            r is Ok,
            r is Ok ==> final(self)@ == effects::op_24(old(self)@),
    {
        proof { reveal(effects::op_24); }
        let v128 = self.lh5801.ul();
        self.lda(v128);
        self.add_state(5);
        Ok(())
    }

    pub(crate) fn run_23(&mut self) -> (r: Result<(), CpuFault>)
        requires
            old(self).wf(),
            old(self).lh5801.timer_state + 64 <= usize::MAX,
            old(self).lh5801.ticks + 64 <= usize::MAX,
        ensures
            clock_advanced(old(self), final(self), r),
            !is_illegal(r),
            !is_illegal_fd(r),
            r is Ok,
            r is Ok ==> final(self)@ == effects::op_23(old(self)@),
    {
        proof { reveal(effects::op_23); }
        let v127 = (self.lh5801.u()) as u32;
        let val = self.cpu_readmem(v127);
        self.adc(val);
        self.add_state(7);
        Ok(())
    }

    pub(crate) fn run_22(&mut self) -> (r: Result<(), CpuFault>)
        requires
            old(self).wf(),
            old(self).lh5801.timer_state + 64 <= usize::MAX,
            old(self).lh5801.ticks + 64 <= usize::MAX,
        ensures
            clock_advanced(old(self), final(self), r),
            !is_illegal(r),
            !is_illegal_fd(r),
            r is Ok,
            r is Ok ==> final(self)@ == effects::op_22(old(self)@),
    {
        proof { reveal(effects::op_22); }
        let v126 = self.lh5801.ul();
        self.adc(v126);
        self.add_state(6);
        Ok(())
    }

    pub(crate) fn run_21(&mut self) -> (r: Result<(), CpuFault>)
        requires
            old(self).wf(),
            old(self).lh5801.timer_state + 64 <= usize::MAX,
            old(self).lh5801.ticks + 64 <= usize::MAX,
        ensures
            clock_advanced(old(self), final(self), r),
            !is_illegal(r),
            !is_illegal_fd(r),
            r is Ok,
            r is Ok ==> final(self)@ == effects::op_21(old(self)@),
    {
        proof { reveal(effects::op_21); }
        let v125 = (self.lh5801.u()) as u32;
        let val = self.cpu_readmem(v125);
        self.sbc(val);
        self.add_state(7);
        Ok(())
    }

    pub(crate) fn run_20(&mut self) -> (r: Result<(), CpuFault>)
        requires
            old(self).wf(),
            old(self).lh5801.timer_state + 64 <= usize::MAX,
            old(self).lh5801.ticks + 64 <= usize::MAX,
        ensures
            clock_advanced(old(self), final(self), r),
            !is_illegal(r),
            !is_illegal_fd(r),
            r is Ok,
            r is Ok ==> final(self)@ == effects::op_20(old(self)@),
    {
        proof { reveal(effects::op_20); }
        let v124 = self.lh5801.ul();
        self.sbc(v124);
        self.add_state(6);
        Ok(())
    }

    pub(crate) fn run_38(&mut self) -> (r: Result<(), CpuFault>)
        requires
            old(self).wf(),
            old(self).lh5801.timer_state + 64 <= usize::MAX,
            old(self).lh5801.ticks + 64 <= usize::MAX,
        ensures
            clock_advanced(old(self), final(self), r),
            !is_illegal(r),
            !is_illegal_fd(r),
            r is Ok,
            r is Ok ==> final(self)@ == effects::op_38(old(self)@),
    {
        proof { reveal(effects::op_38); }
        self.add_state(5);
        Ok(())
    }

    pub(crate) fn run_36(&mut self) -> (r: Result<(), CpuFault>)
        requires
            old(self).wf(),
            old(self).lh5801.timer_state + 64 <= usize::MAX,
            old(self).lh5801.ticks + 64 <= usize::MAX,
        ensures
            clock_advanced(old(self), final(self), r),
            !is_illegal(r),
            !is_illegal_fd(r),
            r is Ok,
            r is Ok ==> final(self)@ == effects::op_36(old(self)@),
    {
        proof { reveal(effects::op_36); }
        let v144 = self.lh5801.a;
        self.cpa(v144, 0);
        self.add_state(6);
        Ok(())
    }

    pub(crate) fn run_34(&mut self) -> (r: Result<(), CpuFault>)
        requires
            old(self).wf(),
            old(self).lh5801.timer_state + 64 <= usize::MAX,
            old(self).lh5801.ticks + 64 <= usize::MAX,
        ensures
            clock_advanced(old(self), final(self), r),
            !is_illegal(r),
            !is_illegal_fd(r),
            r is Ok,
            r is Ok ==> final(self)@ == effects::op_34(old(self)@),
    {
        proof { reveal(effects::op_34); }
        self.lda(0);
        self.add_state(5);
        Ok(())
    }

    pub(crate) fn run_32(&mut self) -> (r: Result<(), CpuFault>)
        requires
            old(self).wf(),
            old(self).lh5801.timer_state + 64 <= usize::MAX,
            old(self).lh5801.ticks + 64 <= usize::MAX,
        ensures
            clock_advanced(old(self), final(self), r),
            !is_illegal(r),
            !is_illegal_fd(r),
            r is Ok,
            r is Ok ==> final(self)@ == effects::op_32(old(self)@),
    {
        proof { reveal(effects::op_32); }
        self.adc(0);
        self.add_state(6);
        Ok(())
    }

    pub(crate) fn run_30(&mut self) -> (r: Result<(), CpuFault>)
        requires
            old(self).wf(),
            old(self).lh5801.timer_state + 64 <= usize::MAX,
            old(self).lh5801.ticks + 64 <= usize::MAX,
        ensures
            clock_advanced(old(self), final(self), r),
            !is_illegal(r),
            !is_illegal_fd(r),
            r is Ok,
            r is Ok ==> final(self)@ == effects::op_30(old(self)@),
    {
        proof { reveal(effects::op_30); }
        self.sbc(0);
        self.add_state(6);
        Ok(())
    }

    pub(crate) fn run_4f(&mut self) -> (r: Result<(), CpuFault>)
        requires
            old(self).wf(),
            old(self).lh5801.timer_state + 64 <= usize::MAX,
            old(self).lh5801.ticks + 64 <= usize::MAX,
        ensures
            clock_advanced(old(self), final(self), r),
            !is_illegal(r),
            !is_illegal_fd(r),
            r is Ok,
            r is Ok ==> final(self)@ == effects::op_4f(old(self)@),
    {
        proof { reveal(effects::op_4f); }
        let val = self.cpu_readop();
        let v160 = (self.lh5801.x()) as u32;
        self.add_mem(v160, val);
        self.add_state(13);
        Ok(())
    }

    pub(crate) fn run_4e(&mut self) -> (r: Result<(), CpuFault>)
        requires
            old(self).wf(),
            old(self).lh5801.timer_state + 64 <= usize::MAX,
            old(self).lh5801.ticks + 64 <= usize::MAX,
        ensures
            clock_advanced(old(self), final(self), r),
            !is_illegal(r),
            !is_illegal_fd(r),
            r is Ok,
            r is Ok ==> final(self)@ == effects::op_4e(old(self)@),
    {
        proof { reveal(effects::op_4e); }
        let val = self.cpu_readop();
        let v159 = self.lh5801.xl();
        self.cpa(v159, val);
        self.add_state(7);
        Ok(())
    }

    pub(crate) fn run_4d(&mut self) -> (r: Result<(), CpuFault>)
        requires
            old(self).wf(),
            old(self).lh5801.timer_state + 64 <= usize::MAX,
            old(self).lh5801.ticks + 64 <= usize::MAX,
        ensures
            clock_advanced(old(self), final(self), r),
            !is_illegal(r),
            !is_illegal_fd(r),
            r is Ok,
            r is Ok ==> final(self)@ == effects::op_4d(old(self)@),
    {
        proof { reveal(effects::op_4d); }
        let v158 = (self.lh5801.x()) as u32;
        let mem = self.cpu_readmem(v158);
        let val = self.cpu_readop();
        self.bit(mem, val);
        self.add_state(10);
        Ok(())
    }

    pub(crate) fn run_4c(&mut self) -> (r: Result<(), CpuFault>)
        requires
            old(self).wf(),
            old(self).lh5801.timer_state + 64 <= usize::MAX,
            old(self).lh5801.ticks + 64 <= usize::MAX,
        ensures
            clock_advanced(old(self), final(self), r),
            !is_illegal(r),
            !is_illegal_fd(r),
            r is Ok,
            r is Ok ==> final(self)@ == effects::op_4c(old(self)@),
    {
        proof { reveal(effects::op_4c); }
        let val = self.cpu_readop();
        let v157 = self.lh5801.xh();
        self.cpa(v157, val);
        self.add_state(7);
        Ok(())
    }

    pub(crate) fn run_4b(&mut self) -> (r: Result<(), CpuFault>)
        requires
            old(self).wf(),
            old(self).lh5801.timer_state + 64 <= usize::MAX,
            old(self).lh5801.ticks + 64 <= usize::MAX,
        ensures
            clock_advanced(old(self), final(self), r),
            !is_illegal(r),
            !is_illegal_fd(r),
            r is Ok,
            r is Ok ==> final(self)@ == effects::op_4b(old(self)@),
    {
        proof { reveal(effects::op_4b); }
        let val = self.cpu_readop();
        let v156 = (self.lh5801.x()) as u32;
        self.ora_mem(v156, val);
        self.add_state(13);
        Ok(())
    }

    pub(crate) fn run_4a(&mut self) -> (r: Result<(), CpuFault>)
        requires
            old(self).wf(),
            old(self).lh5801.timer_state + 64 <= usize::MAX,
            old(self).lh5801.ticks + 64 <= usize::MAX,
        ensures
            clock_advanced(old(self), final(self), r),
            !is_illegal(r),
            !is_illegal_fd(r),
            r is Ok,
            r is Ok ==> final(self)@ == effects::op_4a(old(self)@),
    {
        proof { reveal(effects::op_4a); }
        let val = self.cpu_readop();
        self.lh5801.set_xl(val);
        self.add_state(6);
        Ok(())
    }

    pub(crate) fn run_49(&mut self) -> (r: Result<(), CpuFault>)
        requires
            old(self).wf(),
            old(self).lh5801.timer_state + 64 <= usize::MAX,
            old(self).lh5801.ticks + 64 <= usize::MAX,
        ensures
            clock_advanced(old(self), final(self), r),
            !is_illegal(r),
            !is_illegal_fd(r),
            r is Ok,
            r is Ok ==> final(self)@ == effects::op_49(old(self)@),
    {
        proof { reveal(effects::op_49); }
        let val = self.cpu_readop();
        let v155 = (self.lh5801.x()) as u32;
        self.and_mem(v155, val);
        self.add_state(13);
        Ok(())
    }

    pub(crate) fn run_48(&mut self) -> (r: Result<(), CpuFault>)
        requires
            old(self).wf(),
            old(self).lh5801.timer_state + 64 <= usize::MAX,
            old(self).lh5801.ticks + 64 <= usize::MAX,
        ensures
            clock_advanced(old(self), final(self), r),
            !is_illegal(r),
            !is_illegal_fd(r),
            r is Ok,
            r is Ok ==> final(self)@ == effects::op_48(old(self)@),
    {
        proof { reveal(effects::op_48); }
        let val = self.cpu_readop();
        self.lh5801.set_xh(val);
        self.add_state(6);
        Ok(())
    }

    pub(crate) fn run_47(&mut self) -> (r: Result<(), CpuFault>)
        requires
            old(self).wf(),
            old(self).lh5801.timer_state + 64 <= usize::MAX,
            old(self).lh5801.ticks + 64 <= usize::MAX,
        ensures
            clock_advanced(old(self), final(self), r),
            !is_illegal(r),
            !is_illegal_fd(r),
            r is Ok,
            r is Ok ==> final(self)@ == effects::op_47(old(self)@),
    {
        proof { reveal(effects::op_47); }
        let v153 = self.lh5801.x;
        let v154 = self.lde(v153);
        self.lh5801.x = v154;
        self.add_state(6);
        Ok(())
    }

    pub(crate) fn run_46(&mut self) -> (r: Result<(), CpuFault>)
        requires
            old(self).wf(),
            old(self).lh5801.timer_state + 64 <= usize::MAX,
            old(self).lh5801.ticks + 64 <= usize::MAX,
        ensures
            clock_advanced(old(self), final(self), r),
            !is_illegal(r),
            !is_illegal_fd(r),
            r is Ok,
            r is Ok ==> final(self)@ == effects::op_46(old(self)@),
    {
        proof { reveal(effects::op_46); }
        self.lh5801.x = self.lh5801.x.wrapping_sub(1);
        self.add_state(5);
        Ok(())
    }

    pub(crate) fn run_45(&mut self) -> (r: Result<(), CpuFault>)
        requires
            old(self).wf(),
            old(self).lh5801.timer_state + 64 <= usize::MAX,
            old(self).lh5801.ticks + 64 <= usize::MAX,
        ensures
            clock_advanced(old(self), final(self), r),
            !is_illegal(r),
            !is_illegal_fd(r),
            r is Ok,
            r is Ok ==> final(self)@ == effects::op_45(old(self)@),
    {
        proof { reveal(effects::op_45); }
        let v151 = self.lh5801.x;
        let v152 = self.lin(v151);
        self.lh5801.x = v152;
        self.add_state(6);
        Ok(())
    }

    pub(crate) fn run_44(&mut self) -> (r: Result<(), CpuFault>)
        requires
            old(self).wf(),
            old(self).lh5801.timer_state + 64 <= usize::MAX,
            old(self).lh5801.ticks + 64 <= usize::MAX,
        ensures
            clock_advanced(old(self), final(self), r),
            !is_illegal(r),
            !is_illegal_fd(r),
            r is Ok,
            r is Ok ==> final(self)@ == effects::op_44(old(self)@),
    {
        proof { reveal(effects::op_44); }
        self.lh5801.x = self.lh5801.x.wrapping_add(1);
        self.add_state(5);
        Ok(())
    }

    pub(crate) fn run_43(&mut self) -> (r: Result<(), CpuFault>)
        requires
            old(self).wf(),
            old(self).lh5801.timer_state + 64 <= usize::MAX,
            old(self).lh5801.ticks + 64 <= usize::MAX,
        ensures
            clock_advanced(old(self), final(self), r),
            !is_illegal(r),
            !is_illegal_fd(r),
            r is Ok,
            r is Ok ==> final(self)@ == effects::op_43(old(self)@),
    {
        proof { reveal(effects::op_43); }
        let v149 = self.lh5801.x;
        let v150 = self.sde(v149);
        self.lh5801.x = v150;
        self.add_state(6);
        Ok(())
    }

    pub(crate) fn run_42(&mut self) -> (r: Result<(), CpuFault>)
        requires
            old(self).wf(),
            old(self).lh5801.timer_state + 64 <= usize::MAX,
            old(self).lh5801.ticks + 64 <= usize::MAX,
        ensures
            clock_advanced(old(self), final(self), r),
            !is_illegal(r),
            !is_illegal_fd(r),
            r is Ok,
            r is Ok ==> final(self)@ == effects::op_42(old(self)@),
    {
        proof { reveal(effects::op_42); }
        let v148 = self.lh5801.xl();
        let dec = self.dec(v148);
        self.lh5801.set_xl(dec);
        self.add_state(5);
        Ok(())
    }

    pub(crate) fn run_41(&mut self) -> (r: Result<(), CpuFault>)
        requires
            old(self).wf(),
            old(self).lh5801.timer_state + 64 <= usize::MAX,
            old(self).lh5801.ticks + 64 <= usize::MAX,
        ensures
            clock_advanced(old(self), final(self), r),
            !is_illegal(r),
            !is_illegal_fd(r),
            r is Ok,
            r is Ok ==> final(self)@ == effects::op_41(old(self)@),
    {
        proof { reveal(effects::op_41); }
        let v146 = self.lh5801.x;
        let v147 = self.sin(v146);
        self.lh5801.x = v147;
        self.add_state(6);
        Ok(())
    }

    pub(crate) fn run_40(&mut self) -> (r: Result<(), CpuFault>)
        requires
            old(self).wf(),
            old(self).lh5801.timer_state + 64 <= usize::MAX,
            old(self).lh5801.ticks + 64 <= usize::MAX,
        ensures
            clock_advanced(old(self), final(self), r),
            !is_illegal(r),
            !is_illegal_fd(r),
            r is Ok,
            r is Ok ==> final(self)@ == effects::op_40(old(self)@),
    {
        proof { reveal(effects::op_40); }
        let v145 = self.lh5801.xl();
        let inc = self.inc(v145);
        self.lh5801.set_xl(inc);
        self.add_state(5);
        Ok(())
    }

    pub(crate) fn run_5f(&mut self) -> (r: Result<(), CpuFault>)
        requires
            old(self).wf(),
            old(self).lh5801.timer_state + 64 <= usize::MAX,
            old(self).lh5801.ticks + 64 <= usize::MAX,
        ensures
            clock_advanced(old(self), final(self), r),
            !is_illegal(r),
            !is_illegal_fd(r),
            r is Ok,
            r is Ok ==> final(self)@ == effects::op_5f(old(self)@),
    {
        proof { reveal(effects::op_5f); }
        let val = self.cpu_readop();
        let v176 = (self.lh5801.y()) as u32;
        self.add_mem(v176, val);
        self.add_state(13);
        Ok(())
    }

    pub(crate) fn run_5e(&mut self) -> (r: Result<(), CpuFault>)
        requires
            old(self).wf(),
            old(self).lh5801.timer_state + 64 <= usize::MAX,
            old(self).lh5801.ticks + 64 <= usize::MAX,
        ensures
            clock_advanced(old(self), final(self), r),
            !is_illegal(r),
            !is_illegal_fd(r),
            r is Ok,
            r is Ok ==> final(self)@ == effects::op_5e(old(self)@),
    {
        proof { reveal(effects::op_5e); }
        let val = self.cpu_readop();
        let v175 = self.lh5801.yl();
        self.cpa(v175, val);
        self.add_state(7);
        Ok(())
    }

    pub(crate) fn run_5d(&mut self) -> (r: Result<(), CpuFault>)
        requires
            old(self).wf(),
            old(self).lh5801.timer_state + 64 <= usize::MAX,
            old(self).lh5801.ticks + 64 <= usize::MAX,
        ensures
            clock_advanced(old(self), final(self), r),
            !is_illegal(r),
            !is_illegal_fd(r),
            r is Ok,
            r is Ok ==> final(self)@ == effects::op_5d(old(self)@),
    {
        proof { reveal(effects::op_5d); }
        let v174 = (self.lh5801.y()) as u32;
        let mem = self.cpu_readmem(v174);
        let val = self.cpu_readop();
        self.bit(mem, val);
        self.add_state(10);
        Ok(())
    }

    pub(crate) fn run_5c(&mut self) -> (r: Result<(), CpuFault>)
        requires
            old(self).wf(),
            old(self).lh5801.timer_state + 64 <= usize::MAX,
            old(self).lh5801.ticks + 64 <= usize::MAX,
        ensures
            clock_advanced(old(self), final(self), r),
            !is_illegal(r),
            !is_illegal_fd(r),
            r is Ok,
            r is Ok ==> final(self)@ == effects::op_5c(old(self)@),
    {
        proof { reveal(effects::op_5c); }
        let val = self.cpu_readop();
        let v173 = self.lh5801.yh();
        self.cpa(v173, val);
        self.add_state(7);
        Ok(())
    }

    pub(crate) fn run_5b(&mut self) -> (r: Result<(), CpuFault>)
        requires
            old(self).wf(),
            old(self).lh5801.timer_state + 64 <= usize::MAX,
            old(self).lh5801.ticks + 64 <= usize::MAX,
        ensures
            clock_advanced(old(self), final(self), r),
            !is_illegal(r),
            !is_illegal_fd(r),
            r is Ok,
            r is Ok ==> final(self)@ == effects::op_5b(old(self)@),
    {
        proof { reveal(effects::op_5b); }
        let val = self.cpu_readop();
        let v172 = (self.lh5801.y()) as u32;
        self.ora_mem(v172, val);
        self.add_state(13);
        Ok(())
    }

    pub(crate) fn run_5a(&mut self) -> (r: Result<(), CpuFault>)
        requires
            old(self).wf(),
            old(self).lh5801.timer_state + 64 <= usize::MAX,
            old(self).lh5801.ticks + 64 <= usize::MAX,
        ensures
            clock_advanced(old(self), final(self), r),
            !is_illegal(r),
            !is_illegal_fd(r),
            r is Ok,
            r is Ok ==> final(self)@ == effects::op_5a(old(self)@),
    {
        proof { reveal(effects::op_5a); }
        let val = self.cpu_readop();
        self.lh5801.set_yl(val);
        self.add_state(6);
        Ok(())
    }

    pub(crate) fn run_59(&mut self) -> (r: Result<(), CpuFault>)
        requires
            old(self).wf(),
            old(self).lh5801.timer_state + 64 <= usize::MAX,
            old(self).lh5801.ticks + 64 <= usize::MAX,
        ensures
            clock_advanced(old(self), final(self), r),
            !is_illegal(r),
            !is_illegal_fd(r),
            r is Ok,
            r is Ok ==> final(self)@ == effects::op_59(old(self)@),
    {
        proof { reveal(effects::op_59); }
        let val = self.cpu_readop();
        let v171 = (self.lh5801.y()) as u32;
        self.and_mem(v171, val);
        self.add_state(13);
        Ok(())
    }

    pub(crate) fn run_58(&mut self) -> (r: Result<(), CpuFault>)
        requires
            old(self).wf(),
            old(self).lh5801.timer_state + 64 <= usize::MAX,
            old(self).lh5801.ticks + 64 <= usize::MAX,
        ensures
            clock_advanced(old(self), final(self), r),
            !is_illegal(r),
            !is_illegal_fd(r),
            r is Ok,
            r is Ok ==> final(self)@ == effects::op_58(old(self)@),
    {
        proof { reveal(effects::op_58); }
        let val = self.cpu_readop();
        self.lh5801.set_yh(val);
        self.add_state(6);
        Ok(())
    }

    pub(crate) fn run_57(&mut self) -> (r: Result<(), CpuFault>)
        requires
            old(self).wf(),
            old(self).lh5801.timer_state + 64 <= usize::MAX,
            old(self).lh5801.ticks + 64 <= usize::MAX,
        ensures
            clock_advanced(old(self), final(self), r),
            !is_illegal(r),
            !is_illegal_fd(r),
            r is Ok,
            r is Ok ==> final(self)@ == effects::op_57(old(self)@),
    {
        proof { reveal(effects::op_57); }
        let v169 = self.lh5801.y;
        let v170 = self.lde(v169);
        self.lh5801.y = v170;
        self.add_state(6);
        Ok(())
    }

    pub(crate) fn run_56(&mut self) -> (r: Result<(), CpuFault>)
        requires
            old(self).wf(),
            old(self).lh5801.timer_state + 64 <= usize::MAX,
            old(self).lh5801.ticks + 64 <= usize::MAX,
        ensures
            clock_advanced(old(self), final(self), r),
            !is_illegal(r),
            !is_illegal_fd(r),
            r is Ok,
            r is Ok ==> final(self)@ == effects::op_56(old(self)@),
    {
        proof { reveal(effects::op_56); }
        self.lh5801.y = self.lh5801.y.wrapping_sub(1);
        self.add_state(5);
        Ok(())
    }

    pub(crate) fn run_55(&mut self) -> (r: Result<(), CpuFault>)
        requires
            old(self).wf(),
            old(self).lh5801.timer_state + 64 <= usize::MAX,
            old(self).lh5801.ticks + 64 <= usize::MAX,
        ensures
            clock_advanced(old(self), final(self), r),
            !is_illegal(r),
            !is_illegal_fd(r),
            r is Ok,
            r is Ok ==> final(self)@ == effects::op_55(old(self)@),
    {
        proof { reveal(effects::op_55); }
        let v167 = self.lh5801.y;
        let v168 = self.lin(v167);
        self.lh5801.y = v168;
        self.add_state(6);
        Ok(())
    }

    pub(crate) fn run_54(&mut self) -> (r: Result<(), CpuFault>)
        requires
            old(self).wf(),
            old(self).lh5801.timer_state + 64 <= usize::MAX,
            old(self).lh5801.ticks + 64 <= usize::MAX,
        ensures
            clock_advanced(old(self), final(self), r),
            !is_illegal(r),
            !is_illegal_fd(r),
            r is Ok,
            r is Ok ==> final(self)@ == effects::op_54(old(self)@),
    {
        proof { reveal(effects::op_54); }
        self.lh5801.y = self.lh5801.y.wrapping_add(1);
        self.add_state(5);
        Ok(())
    }

    pub(crate) fn run_53(&mut self) -> (r: Result<(), CpuFault>)
        requires
            old(self).wf(),
            old(self).lh5801.timer_state + 64 <= usize::MAX,
            old(self).lh5801.ticks + 64 <= usize::MAX,
        ensures
            clock_advanced(old(self), final(self), r),
            !is_illegal(r),
            !is_illegal_fd(r),
            r is Ok,
            r is Ok ==> final(self)@ == effects::op_53(old(self)@),
    {
        proof { reveal(effects::op_53); }
        let v165 = self.lh5801.y;
        let v166 = self.sde(v165);
        self.lh5801.y = v166;
        self.add_state(6);
        Ok(())
    }

    pub(crate) fn run_52(&mut self) -> (r: Result<(), CpuFault>)
        requires
            old(self).wf(),
            old(self).lh5801.timer_state + 64 <= usize::MAX,
            old(self).lh5801.ticks + 64 <= usize::MAX,
        ensures
            clock_advanced(old(self), final(self), r),
            !is_illegal(r),
            !is_illegal_fd(r),
            r is Ok,
            r is Ok ==> final(self)@ == effects::op_52(old(self)@),
    {
        proof { reveal(effects::op_52); }
        let v164 = self.lh5801.yl();
        let dec = self.dec(v164);
        self.lh5801.set_yl(dec);
        self.add_state(5);
        Ok(())
    }

    pub(crate) fn run_51(&mut self) -> (r: Result<(), CpuFault>)
        requires
            old(self).wf(),
            old(self).lh5801.timer_state + 64 <= usize::MAX,
            old(self).lh5801.ticks + 64 <= usize::MAX,
        ensures
            clock_advanced(old(self), final(self), r),
            !is_illegal(r),
            !is_illegal_fd(r),
            r is Ok,
            r is Ok ==> final(self)@ == effects::op_51(old(self)@),
    {
        proof { reveal(effects::op_51); }
        let v162 = self.lh5801.y;
        let v163 = self.sin(v162);
        self.lh5801.y = v163;
        self.add_state(6);
        Ok(())
    }

    pub(crate) fn run_50(&mut self) -> (r: Result<(), CpuFault>)
        requires
            old(self).wf(),
            old(self).lh5801.timer_state + 64 <= usize::MAX,
            old(self).lh5801.ticks + 64 <= usize::MAX,
        ensures
            clock_advanced(old(self), final(self), r),
            !is_illegal(r),
            !is_illegal_fd(r),
            r is Ok,
            r is Ok ==> final(self)@ == effects::op_50(old(self)@),
    {
        proof { reveal(effects::op_50); }
        let v161 = self.lh5801.yl();
        let inc = self.inc(v161);
        self.lh5801.set_yl(inc);
        self.add_state(5);
        Ok(())
    }

    pub(crate) fn run_6f(&mut self) -> (r: Result<(), CpuFault>)
        requires
            old(self).wf(),
            old(self).lh5801.timer_state + 64 <= usize::MAX,
            old(self).lh5801.ticks + 64 <= usize::MAX,
        ensures
            clock_advanced(old(self), final(self), r),
            !is_illegal(r),
            !is_illegal_fd(r),
            r is Ok,
            r is Ok ==> final(self)@ == effects::op_6f(old(self)@),
    {
        proof { reveal(effects::op_6f); }
        let val = self.cpu_readop();
        let v192 = (self.lh5801.u()) as u32;
        self.add_mem(v192, val);
        self.add_state(13);
        Ok(())
    }

    pub(crate) fn run_6e(&mut self) -> (r: Result<(), CpuFault>)
        requires
            old(self).wf(),
            old(self).lh5801.timer_state + 64 <= usize::MAX,
            old(self).lh5801.ticks + 64 <= usize::MAX,
        ensures
            clock_advanced(old(self), final(self), r),
            !is_illegal(r),
            !is_illegal_fd(r),
            r is Ok,
            r is Ok ==> final(self)@ == effects::op_6e(old(self)@),
    {
        proof { reveal(effects::op_6e); }
        let val = self.cpu_readop();
        let v191 = self.lh5801.ul();
        self.cpa(v191, val);
        self.add_state(7);
        Ok(())
    }

    pub(crate) fn run_6d(&mut self) -> (r: Result<(), CpuFault>)
        requires
            old(self).wf(),
            old(self).lh5801.timer_state + 64 <= usize::MAX,
            old(self).lh5801.ticks + 64 <= usize::MAX,
        ensures
            clock_advanced(old(self), final(self), r),
            !is_illegal(r),
            !is_illegal_fd(r),
            r is Ok,
            r is Ok ==> final(self)@ == effects::op_6d(old(self)@),
    {
        proof { reveal(effects::op_6d); }
        let v190 = (self.lh5801.u()) as u32;
        let mem = self.cpu_readmem(v190);
        let val = self.cpu_readop();
        self.bit(mem, val);
        self.add_state(10);
        Ok(())
    }

    pub(crate) fn run_6c(&mut self) -> (r: Result<(), CpuFault>)
        requires
            old(self).wf(),
            old(self).lh5801.timer_state + 64 <= usize::MAX,
            old(self).lh5801.ticks + 64 <= usize::MAX,
        ensures
            clock_advanced(old(self), final(self), r),
            !is_illegal(r),
            !is_illegal_fd(r),
            r is Ok,
            r is Ok ==> final(self)@ == effects::op_6c(old(self)@),
    {
        proof { reveal(effects::op_6c); }
        let val = self.cpu_readop();
        let v189 = self.lh5801.uh();
        self.cpa(v189, val);
        self.add_state(7);
        Ok(())
    }

    pub(crate) fn run_6b(&mut self) -> (r: Result<(), CpuFault>)
        requires
            old(self).wf(),
            old(self).lh5801.timer_state + 64 <= usize::MAX,
            old(self).lh5801.ticks + 64 <= usize::MAX,
        ensures
            clock_advanced(old(self), final(self), r),
            !is_illegal(r),
            !is_illegal_fd(r),
            r is Ok,
            r is Ok ==> final(self)@ == effects::op_6b(old(self)@),
    {
        proof { reveal(effects::op_6b); }
        let val = self.cpu_readop();
        let v188 = (self.lh5801.u()) as u32;
        self.ora_mem(v188, val);
        self.add_state(13);
        Ok(())
    }

    pub(crate) fn run_6a(&mut self) -> (r: Result<(), CpuFault>)
        requires
            old(self).wf(),
            old(self).lh5801.timer_state + 64 <= usize::MAX,
            old(self).lh5801.ticks + 64 <= usize::MAX,
        ensures
            clock_advanced(old(self), final(self), r),
            !is_illegal(r),
            !is_illegal_fd(r),
            r is Ok,
            r is Ok ==> final(self)@ == effects::op_6a(old(self)@),
    {
        proof { reveal(effects::op_6a); }
        let val = self.cpu_readop();
        self.lh5801.set_ul(val);
        self.add_state(6);
        Ok(())
    }

    pub(crate) fn run_69(&mut self) -> (r: Result<(), CpuFault>)
        requires
            old(self).wf(),
            old(self).lh5801.timer_state + 64 <= usize::MAX,
            old(self).lh5801.ticks + 64 <= usize::MAX,
        ensures
            clock_advanced(old(self), final(self), r),
            !is_illegal(r),
            !is_illegal_fd(r),
            r is Ok,
            r is Ok ==> final(self)@ == effects::op_69(old(self)@),
    {
        proof { reveal(effects::op_69); }
        let val = self.cpu_readop();
        let v187 = (self.lh5801.u()) as u32;
        self.and_mem(v187, val);
        self.add_state(13);
        Ok(())
    }

    pub(crate) fn run_68(&mut self) -> (r: Result<(), CpuFault>)
        requires
            old(self).wf(),
            old(self).lh5801.timer_state + 64 <= usize::MAX,
            old(self).lh5801.ticks + 64 <= usize::MAX,
        ensures
            clock_advanced(old(self), final(self), r),
            !is_illegal(r),
            !is_illegal_fd(r),
            r is Ok,
            r is Ok ==> final(self)@ == effects::op_68(old(self)@),
    {
        proof { reveal(effects::op_68); }
        let val = self.cpu_readop();
        self.lh5801.set_uh(val);
        self.add_state(6);
        Ok(())
    }

    pub(crate) fn run_67(&mut self) -> (r: Result<(), CpuFault>)
        requires
            old(self).wf(),
            old(self).lh5801.timer_state + 64 <= usize::MAX,
            old(self).lh5801.ticks + 64 <= usize::MAX,
        ensures
            clock_advanced(old(self), final(self), r),
            !is_illegal(r),
            !is_illegal_fd(r),
            r is Ok,
            r is Ok ==> final(self)@ == effects::op_67(old(self)@),
    {
        proof { reveal(effects::op_67); }
        let v185 = self.lh5801.u;
        let v186 = self.lde(v185);
        self.lh5801.u = v186;
        self.add_state(6);
        Ok(())
    }

    pub(crate) fn run_66(&mut self) -> (r: Result<(), CpuFault>)
        requires
            old(self).wf(),
            old(self).lh5801.timer_state + 64 <= usize::MAX,
            old(self).lh5801.ticks + 64 <= usize::MAX,
        ensures
            clock_advanced(old(self), final(self), r),
            !is_illegal(r),
            !is_illegal_fd(r),
            r is Ok,
            r is Ok ==> final(self)@ == effects::op_66(old(self)@),
    {
        proof { reveal(effects::op_66); }
        self.lh5801.u = self.lh5801.u.wrapping_sub(1);
        self.add_state(5);
        Ok(())
    }

    pub(crate) fn run_65(&mut self) -> (r: Result<(), CpuFault>)
        requires
            old(self).wf(),
            old(self).lh5801.timer_state + 64 <= usize::MAX,
            old(self).lh5801.ticks + 64 <= usize::MAX,
        ensures
            clock_advanced(old(self), final(self), r),
            !is_illegal(r),
            !is_illegal_fd(r),
            r is Ok,
            r is Ok ==> final(self)@ == effects::op_65(old(self)@),
    {
        proof { reveal(effects::op_65); }
        let v183 = self.lh5801.u;
        let v184 = self.lin(v183);
        self.lh5801.u = v184;
        self.add_state(6);
        Ok(())
    }

    pub(crate) fn run_64(&mut self) -> (r: Result<(), CpuFault>)
        requires
            old(self).wf(),
            old(self).lh5801.timer_state + 64 <= usize::MAX,
            old(self).lh5801.ticks + 64 <= usize::MAX,
        ensures
            clock_advanced(old(self), final(self), r),
            !is_illegal(r),
            !is_illegal_fd(r),
            r is Ok,
            r is Ok ==> final(self)@ == effects::op_64(old(self)@),
    {
        proof { reveal(effects::op_64); }
        self.lh5801.u = self.lh5801.u.wrapping_add(1);
        self.add_state(5);
        Ok(())
    }

    pub(crate) fn run_63(&mut self) -> (r: Result<(), CpuFault>)
        requires
            old(self).wf(),
            old(self).lh5801.timer_state + 64 <= usize::MAX,
            old(self).lh5801.ticks + 64 <= usize::MAX,
        ensures
            clock_advanced(old(self), final(self), r),
            !is_illegal(r),
            !is_illegal_fd(r),
            r is Ok,
            r is Ok ==> final(self)@ == effects::op_63(old(self)@),
    {
        proof { reveal(effects::op_63); }
        let v181 = self.lh5801.u;
        let v182 = self.sde(v181);
        self.lh5801.u = v182;
        self.add_state(6);
        Ok(())
    }

    pub(crate) fn run_62(&mut self) -> (r: Result<(), CpuFault>)
        requires
            old(self).wf(),
            old(self).lh5801.timer_state + 64 <= usize::MAX,
            old(self).lh5801.ticks + 64 <= usize::MAX,
        ensures
            clock_advanced(old(self), final(self), r),
            !is_illegal(r),
            !is_illegal_fd(r),
            r is Ok,
            r is Ok ==> final(self)@ == effects::op_62(old(self)@),
    {
        proof { reveal(effects::op_62); }
        let v180 = self.lh5801.ul();
        let dec = self.dec(v180);
        self.lh5801.set_ul(dec);
        self.add_state(5);
        Ok(())
    }

    pub(crate) fn run_61(&mut self) -> (r: Result<(), CpuFault>)
        requires
            old(self).wf(),
            old(self).lh5801.timer_state + 64 <= usize::MAX,
            old(self).lh5801.ticks + 64 <= usize::MAX,
        ensures
            clock_advanced(old(self), final(self), r),
            !is_illegal(r),
            !is_illegal_fd(r),
            r is Ok,
            r is Ok ==> final(self)@ == effects::op_61(old(self)@),
    {
        proof { reveal(effects::op_61); }
        let v178 = self.lh5801.u;
        let v179 = self.sin(v178);
        self.lh5801.u = v179;
        self.add_state(6);
        Ok(())
    }

    pub(crate) fn run_60(&mut self) -> (r: Result<(), CpuFault>)
        requires
            old(self).wf(),
            old(self).lh5801.timer_state + 64 <= usize::MAX,
            old(self).lh5801.ticks + 64 <= usize::MAX,
        ensures
            clock_advanced(old(self), final(self), r),
            !is_illegal(r),
            !is_illegal_fd(r),
            r is Ok,
            r is Ok ==> final(self)@ == effects::op_60(old(self)@),
    {
        proof { reveal(effects::op_60); }
        let v177 = self.lh5801.ul();
        let inc = self.inc(v177);
        self.lh5801.set_ul(inc);
        self.add_state(5);
        Ok(())
    }

    pub(crate) fn run_8f(&mut self) -> (r: Result<(), CpuFault>)
        requires
            old(self).wf(),
            old(self).lh5801.timer_state + 64 <= usize::MAX,
            old(self).lh5801.ticks + 64 <= usize::MAX,
        ensures
            clock_advanced(old(self), final(self), r),
            !is_illegal(r),
            !is_illegal_fd(r),
            r is Err <==> effects::op_8f_fails(old(self)@),
            r is Err ==> r == Err::<(), CpuFault>(CpuFault::DebugTrap),
            r is Ok ==> final(self)@ == effects::op_8f(old(self)@),
    {
        proof { reveal(effects::op_8f); }
        let v206 = self.get_overflow_flag();
        self.branch_plus(v206)?;
        self.add_state(8);
        Ok(())
    }

    pub(crate) fn run_8e(&mut self) -> (r: Result<(), CpuFault>)
        requires
            old(self).wf(),
            old(self).lh5801.timer_state + 64 <= usize::MAX,
            old(self).lh5801.ticks + 64 <= usize::MAX,
        ensures
            clock_advanced(old(self), final(self), r),
            !is_illegal(r),
            !is_illegal_fd(r),
            r is Err <==> effects::op_8e_fails(old(self)@),
            r is Err ==> r == Err::<(), CpuFault>(CpuFault::DebugTrap),
            r is Ok ==> final(self)@ == effects::op_8e(old(self)@),
    {
        proof { reveal(effects::op_8e); }
        self.branch_plus(true)?;
        self.add_state(6);
        Ok(())
    }

    pub(crate) fn run_8d(&mut self) -> (r: Result<(), CpuFault>)
        requires
            old(self).wf(),
            old(self).lh5801.timer_state + 64 <= usize::MAX,
            old(self).lh5801.ticks + 64 <= usize::MAX,
        ensures
            clock_advanced(old(self), final(self), r),
            !is_illegal(r),
            !is_illegal_fd(r),
            r is Err <==> effects::op_8d_fails(old(self)@),
            r is Err ==> r == Err::<(), CpuFault>(CpuFault::DebugTrap),
            r is Ok ==> final(self)@ == effects::op_8d(old(self)@),
    {
        proof { reveal(effects::op_8d); }
        let v205 = !self.get_overflow_flag();
        self.branch_plus(v205)?;
        self.add_state(8);
        Ok(())
    }

    pub(crate) fn run_8c(&mut self) -> (r: Result<(), CpuFault>)
        requires
            old(self).wf(),
            old(self).lh5801.timer_state + 64 <= usize::MAX,
            old(self).lh5801.ticks + 64 <= usize::MAX,
        ensures
            clock_advanced(old(self), final(self), r),
            !is_illegal(r),
            !is_illegal_fd(r),
            r is Err <==> effects::op_8c_fails(old(self)@),
            r is Err ==> r == Err::<(), CpuFault>(CpuFault::DecimalOverflow),
            r is Ok ==> final(self)@ == effects::op_8c(old(self)@),
    {
        proof { reveal(effects::op_8c); }
        let v204 = (self.lh5801.x()) as u32;
        let val = self.cpu_readmem(v204);
        self.dca(val)?;
        self.add_state(15);
        Ok(())
    }

    pub(crate) fn run_8b(&mut self) -> (r: Result<(), CpuFault>)
        requires
            old(self).wf(),
            old(self).lh5801.timer_state + 64 <= usize::MAX,
            old(self).lh5801.ticks + 64 <= usize::MAX,
        ensures
            clock_advanced(old(self), final(self), r),
            !is_illegal(r),
            !is_illegal_fd(r),
            r is Err <==> effects::op_8b_fails(old(self)@),
            r is Err ==> r == Err::<(), CpuFault>(CpuFault::DebugTrap),
            r is Ok ==> final(self)@ == effects::op_8b(old(self)@),
    {
        proof { reveal(effects::op_8b); }
        let v203 = self.get_zero_flag();
        self.branch_plus(v203)?;
        self.add_state(8);
        Ok(())
    }

    pub(crate) fn run_8a(&mut self) -> (r: Result<(), CpuFault>)
        requires
            old(self).wf(),
            old(self).lh5801.timer_state + 64 <= usize::MAX,
            old(self).lh5801.ticks + 64 <= usize::MAX,
        ensures
            clock_advanced(old(self), final(self), r),
            !is_illegal(r),
            !is_illegal_fd(r),
            r is Err <==> effects::op_8a_fails(old(self)@),
            r is Err ==> r == Err::<(), CpuFault>(CpuFault::DebugTrap),
            r is Ok ==> final(self)@ == effects::op_8a(old(self)@),
    {
        proof { reveal(effects::op_8a); }
        self.rti()?;
        self.add_state(14);
        Ok(())
    }

    pub(crate) fn run_89(&mut self) -> (r: Result<(), CpuFault>)
        requires
            old(self).wf(),
            old(self).lh5801.timer_state + 64 <= usize::MAX,
            old(self).lh5801.ticks + 64 <= usize::MAX,
        ensures
            clock_advanced(old(self), final(self), r),
            !is_illegal(r),
            !is_illegal_fd(r),
            r is Err <==> effects::op_89_fails(old(self)@),
            r is Err ==> r == Err::<(), CpuFault>(CpuFault::DebugTrap),
            r is Ok ==> final(self)@ == effects::op_89(old(self)@),
    {
        proof { reveal(effects::op_89); }
        let v202 = !self.get_zero_flag();
        self.branch_plus(v202)?;
        self.add_state(8);
        Ok(())
    }

    pub(crate) fn run_88(&mut self) -> (r: Result<(), CpuFault>)
        requires
            old(self).wf(),
            old(self).lh5801.timer_state + 64 <= usize::MAX,
            old(self).lh5801.ticks + 64 <= usize::MAX,
        ensures
            clock_advanced(old(self), final(self), r),
            !is_illegal(r),
            !is_illegal_fd(r),
            r is Ok,
            r is Ok ==> final(self)@ == effects::op_88(old(self)@),
    {
        proof { reveal(effects::op_88); }
        self.lop();
        Ok(())
    }

    pub(crate) fn run_87(&mut self) -> (r: Result<(), CpuFault>)
        requires
            old(self).wf(),
            old(self).lh5801.timer_state + 64 <= usize::MAX,
            old(self).lh5801.ticks + 64 <= usize::MAX,
        ensures
            clock_advanced(old(self), final(self), r),
            !is_illegal(r),
            !is_illegal_fd(r),
            r is Err <==> effects::op_87_fails(old(self)@),
            r is Err ==> r == Err::<(), CpuFault>(CpuFault::DebugTrap),
            r is Ok ==> final(self)@ == effects::op_87(old(self)@),
    {
        proof { reveal(effects::op_87); }
        let v201 = self.get_half_carry_flag();
        self.branch_plus(v201)?;
        self.add_state(8);
        Ok(())
    }

    pub(crate) fn run_86(&mut self) -> (r: Result<(), CpuFault>)
        requires
            old(self).wf(),
            old(self).lh5801.timer_state + 64 <= usize::MAX,
            old(self).lh5801.ticks + 64 <= usize::MAX,
        ensures
            clock_advanced(old(self), final(self), r),
            !is_illegal(r),
            !is_illegal_fd(r),
            r is Ok,
            r is Ok ==> final(self)@ == effects::op_86(old(self)@),
    {
        proof { reveal(effects::op_86); }
        let v199 = self.lh5801.a;
        let v200 = self.lh5801.xh();
        self.cpa(v199, v200);
        self.add_state(6);
        Ok(())
    }

    pub(crate) fn run_85(&mut self) -> (r: Result<(), CpuFault>)
        requires
            old(self).wf(),
            old(self).lh5801.timer_state + 64 <= usize::MAX,
            old(self).lh5801.ticks + 64 <= usize::MAX,
        ensures
            clock_advanced(old(self), final(self), r),
            !is_illegal(r),
            !is_illegal_fd(r),
            r is Err <==> effects::op_85_fails(old(self)@),
            r is Err ==> r == Err::<(), CpuFault>(CpuFault::DebugTrap),
            r is Ok ==> final(self)@ == effects::op_85(old(self)@),
    {
        proof { reveal(effects::op_85); }
        let v198 = !self.get_half_carry_flag();
        self.branch_plus(v198)?;
        self.add_state(8);
        Ok(())
    }

    pub(crate) fn run_84(&mut self) -> (r: Result<(), CpuFault>)
        requires
            old(self).wf(),
            old(self).lh5801.timer_state + 64 <= usize::MAX,
            old(self).lh5801.ticks + 64 <= usize::MAX,
        ensures
            clock_advanced(old(self), final(self), r),
            !is_illegal(r),
            !is_illegal_fd(r),
            r is Ok,
            r is Ok ==> final(self)@ == effects::op_84(old(self)@),
    {
        proof { reveal(effects::op_84); }
        let v197 = self.lh5801.xh();
        self.lda(v197);
        self.add_state(5);
        Ok(())
    }

    pub(crate) fn run_83(&mut self) -> (r: Result<(), CpuFault>)
        requires
            old(self).wf(),
            old(self).lh5801.timer_state + 64 <= usize::MAX,
            old(self).lh5801.ticks + 64 <= usize::MAX,
        ensures
            clock_advanced(old(self), final(self), r),
            !is_illegal(r),
            !is_illegal_fd(r),
            r is Err <==> effects::op_83_fails(old(self)@),
            r is Err ==> r == Err::<(), CpuFault>(CpuFault::DebugTrap),
            r is Ok ==> final(self)@ == effects::op_83(old(self)@),
    {
        proof { reveal(effects::op_83); }
        let v196 = self.get_carry_flag();
        self.branch_plus(v196)?;
        self.add_state(8);
        Ok(())
    }

    pub(crate) fn run_82(&mut self) -> (r: Result<(), CpuFault>)
        requires
            old(self).wf(),
            old(self).lh5801.timer_state + 64 <= usize::MAX,
            old(self).lh5801.ticks + 64 <= usize::MAX,
        ensures
            clock_advanced(old(self), final(self), r),
            !is_illegal(r),
            !is_illegal_fd(r),
            r is Ok,
            r is Ok ==> final(self)@ == effects::op_82(old(self)@),
    {
        proof { reveal(effects::op_82); }
        let v195 = self.lh5801.xh();
        self.adc(v195);
        self.add_state(6);
        Ok(())
    }

    pub(crate) fn run_81(&mut self) -> (r: Result<(), CpuFault>)
        requires
            old(self).wf(),
            old(self).lh5801.timer_state + 64 <= usize::MAX,
            old(self).lh5801.ticks + 64 <= usize::MAX,
        ensures
            clock_advanced(old(self), final(self), r),
            !is_illegal(r),
            !is_illegal_fd(r),
            r is Err <==> effects::op_81_fails(old(self)@),
            r is Err ==> r == Err::<(), CpuFault>(CpuFault::DebugTrap),
            r is Ok ==> final(self)@ == effects::op_81(old(self)@),
    {
        proof { reveal(effects::op_81); }
        let v194 = !self.get_carry_flag();
        self.branch_plus(v194)?;
        self.add_state(8);
        Ok(())
    }

    pub(crate) fn run_80(&mut self) -> (r: Result<(), CpuFault>)
        requires
            old(self).wf(),
            old(self).lh5801.timer_state + 64 <= usize::MAX,
            old(self).lh5801.ticks + 64 <= usize::MAX,
        ensures
            clock_advanced(old(self), final(self), r),
            !is_illegal(r),
            !is_illegal_fd(r),
            r is Ok,
            r is Ok ==> final(self)@ == effects::op_80(old(self)@),
    {
        proof { reveal(effects::op_80); }
        let v193 = self.lh5801.xh();
        self.sbc(v193);
        self.add_state(6);
        Ok(())
    }

    pub(crate) fn run_9f(&mut self) -> (r: Result<(), CpuFault>)
        requires
            old(self).wf(),
            old(self).lh5801.timer_state + 64 <= usize::MAX,
            old(self).lh5801.ticks + 64 <= usize::MAX,
        ensures
            clock_advanced(old(self), final(self), r),
            !is_illegal(r),
            !is_illegal_fd(r),
            r is Err <==> effects::op_9f_fails(old(self)@),
            r is Err ==> r == Err::<(), CpuFault>(CpuFault::DebugTrap),
            r is Ok ==> final(self)@ == effects::op_9f(old(self)@),
    {
        proof { reveal(effects::op_9f); }
        let v220 = self.get_overflow_flag();
        self.branch_minus(v220)?;
        self.add_state(8);
        Ok(())
    }

    pub(crate) fn run_9e(&mut self) -> (r: Result<(), CpuFault>)
        requires
            old(self).wf(),
            old(self).lh5801.timer_state + 64 <= usize::MAX,
            old(self).lh5801.ticks + 64 <= usize::MAX,
        ensures
            clock_advanced(old(self), final(self), r),
            !is_illegal(r),
            !is_illegal_fd(r),
            r is Err <==> effects::op_9e_fails(old(self)@),
            r is Err ==> r == Err::<(), CpuFault>(CpuFault::DebugTrap),
            r is Ok ==> final(self)@ == effects::op_9e(old(self)@),
    {
        proof { reveal(effects::op_9e); }
        self.branch_minus(true)?;
        self.add_state(6);
        Ok(())
    }

    pub(crate) fn run_9d(&mut self) -> (r: Result<(), CpuFault>)
        requires
            old(self).wf(),
            old(self).lh5801.timer_state + 64 <= usize::MAX,
            old(self).lh5801.ticks + 64 <= usize::MAX,
        ensures
            clock_advanced(old(self), final(self), r),
            !is_illegal(r),
            !is_illegal_fd(r),
            r is Err <==> effects::op_9d_fails(old(self)@),
            r is Err ==> r == Err::<(), CpuFault>(CpuFault::DebugTrap),
            r is Ok ==> final(self)@ == effects::op_9d(old(self)@),
    {
        proof { reveal(effects::op_9d); }
        let v219 = !self.get_overflow_flag();
        self.branch_minus(v219)?;
        self.add_state(8);
        Ok(())
    }

    pub(crate) fn run_9c(&mut self) -> (r: Result<(), CpuFault>)
        requires
            old(self).wf(),
            old(self).lh5801.timer_state + 64 <= usize::MAX,
            old(self).lh5801.ticks + 64 <= usize::MAX,
        ensures
            clock_advanced(old(self), final(self), r),
            !is_illegal(r),
            !is_illegal_fd(r),
            r is Err <==> effects::op_9c_fails(old(self)@),
            r is Err ==> r == Err::<(), CpuFault>(CpuFault::DecimalOverflow),
            r is Ok ==> final(self)@ == effects::op_9c(old(self)@),
    {
        proof { reveal(effects::op_9c); }
        let v218 = (self.lh5801.y()) as u32;
        let val = self.cpu_readmem(v218);
        self.dca(val)?;
        self.add_state(15);
        Ok(())
    }

    pub(crate) fn run_9b(&mut self) -> (r: Result<(), CpuFault>)
        requires
            old(self).wf(),
            old(self).lh5801.timer_state + 64 <= usize::MAX,
            old(self).lh5801.ticks + 64 <= usize::MAX,
        ensures
            clock_advanced(old(self), final(self), r),
            !is_illegal(r),
            !is_illegal_fd(r),
            r is Err <==> effects::op_9b_fails(old(self)@),
            r is Err ==> r == Err::<(), CpuFault>(CpuFault::DebugTrap),
            r is Ok ==> final(self)@ == effects::op_9b(old(self)@),
    {
        proof { reveal(effects::op_9b); }
        let v217 = self.get_zero_flag();
        self.branch_minus(v217)?;
        self.add_state(8);
        Ok(())
    }

    pub(crate) fn run_9a(&mut self) -> (r: Result<(), CpuFault>)
        requires
            old(self).wf(),
            old(self).lh5801.timer_state + 64 <= usize::MAX,
            old(self).lh5801.ticks + 64 <= usize::MAX,
        ensures
            clock_advanced(old(self), final(self), r),
            !is_illegal(r),
            !is_illegal_fd(r),
            r is Err <==> effects::op_9a_fails(old(self)@),
            r is Err ==> r == Err::<(), CpuFault>(CpuFault::DebugTrap),
            r is Ok ==> final(self)@ == effects::op_9a(old(self)@),
    {
        proof { reveal(effects::op_9a); }
        self.rtn()?;
        self.add_state(11);
        Ok(())
    }

    pub(crate) fn run_99(&mut self) -> (r: Result<(), CpuFault>)
        requires
            old(self).wf(),
            old(self).lh5801.timer_state + 64 <= usize::MAX,
            old(self).lh5801.ticks + 64 <= usize::MAX,
        ensures
            clock_advanced(old(self), final(self), r),
            !is_illegal(r),
            !is_illegal_fd(r),
            r is Err <==> effects::op_99_fails(old(self)@),
            r is Err ==> r == Err::<(), CpuFault>(CpuFault::DebugTrap),
            r is Ok ==> final(self)@ == effects::op_99(old(self)@),
    {
        proof { reveal(effects::op_99); }
        let v216 = !self.get_zero_flag();
        self.branch_minus(v216)?;
        self.add_state(8);
        Ok(())
    }

    pub(crate) fn run_97(&mut self) -> (r: Result<(), CpuFault>)
        requires
            old(self).wf(),
            old(self).lh5801.timer_state + 64 <= usize::MAX,
            old(self).lh5801.ticks + 64 <= usize::MAX,
        ensures
            clock_advanced(old(self), final(self), r),
            !is_illegal(r),
            !is_illegal_fd(r),
            r is Err <==> effects::op_97_fails(old(self)@),
            r is Err ==> r == Err::<(), CpuFault>(CpuFault::DebugTrap),
            r is Ok ==> final(self)@ == effects::op_97(old(self)@),
    {
        proof { reveal(effects::op_97); }
        let v215 = self.get_half_carry_flag();
        self.branch_minus(v215)?;
        self.add_state(8);
        Ok(())
    }

    pub(crate) fn run_96(&mut self) -> (r: Result<(), CpuFault>)
        requires
            old(self).wf(),
            old(self).lh5801.timer_state + 64 <= usize::MAX,
            old(self).lh5801.ticks + 64 <= usize::MAX,
        ensures
            clock_advanced(old(self), final(self), r),
            !is_illegal(r),
            !is_illegal_fd(r),
            r is Ok,
            r is Ok ==> final(self)@ == effects::op_96(old(self)@),
    {
        proof { reveal(effects::op_96); }
        let v213 = self.lh5801.a;
        let v214 = self.lh5801.yh();
        self.cpa(v213, v214);
        self.add_state(6);
        Ok(())
    }

    pub(crate) fn run_95(&mut self) -> (r: Result<(), CpuFault>)
        requires
            old(self).wf(),
            old(self).lh5801.timer_state + 64 <= usize::MAX,
            old(self).lh5801.ticks + 64 <= usize::MAX,
        ensures
            clock_advanced(old(self), final(self), r),
            !is_illegal(r),
            !is_illegal_fd(r),
            r is Err <==> effects::op_95_fails(old(self)@),
            r is Err ==> r == Err::<(), CpuFault>(CpuFault::DebugTrap),
            r is Ok ==> final(self)@ == effects::op_95(old(self)@),
    {
        proof { reveal(effects::op_95); }
        let v212 = !self.get_half_carry_flag();
        self.branch_minus(v212)?;
        self.add_state(8);
        Ok(())
    }

    pub(crate) fn run_94(&mut self) -> (r: Result<(), CpuFault>)
        requires
            old(self).wf(),
            old(self).lh5801.timer_state + 64 <= usize::MAX,
            old(self).lh5801.ticks + 64 <= usize::MAX,
        ensures
            clock_advanced(old(self), final(self), r),
            !is_illegal(r),
            !is_illegal_fd(r),
            r is Ok,
            r is Ok ==> final(self)@ == effects::op_94(old(self)@),
    {
        proof { reveal(effects::op_94); }
        let v211 = self.lh5801.yh();
        self.lda(v211);
        self.add_state(5);
        Ok(())
    }

    pub(crate) fn run_93(&mut self) -> (r: Result<(), CpuFault>)
        requires
            old(self).wf(),
            old(self).lh5801.timer_state + 64 <= usize::MAX,
            old(self).lh5801.ticks + 64 <= usize::MAX,
        ensures
            clock_advanced(old(self), final(self), r),
            !is_illegal(r),
            !is_illegal_fd(r),
            r is Err <==> effects::op_93_fails(old(self)@),
            r is Err ==> r == Err::<(), CpuFault>(CpuFault::DebugTrap),
            r is Ok ==> final(self)@ == effects::op_93(old(self)@),
    {
        proof { reveal(effects::op_93); }
        let v210 = self.get_carry_flag();
        self.branch_minus(v210)?;
        self.add_state(8);
        Ok(())
    }

    pub(crate) fn run_92(&mut self) -> (r: Result<(), CpuFault>)
        requires
            old(self).wf(),
            old(self).lh5801.timer_state + 64 <= usize::MAX,
            old(self).lh5801.ticks + 64 <= usize::MAX,
        ensures
            clock_advanced(old(self), final(self), r),
            !is_illegal(r),
            !is_illegal_fd(r),
            r is Ok,
            r is Ok ==> final(self)@ == effects::op_92(old(self)@),
    {
        proof { reveal(effects::op_92); }
        let v209 = self.lh5801.yh();
        self.adc(v209);
        self.add_state(6);
        Ok(())
    }

    pub(crate) fn run_91(&mut self) -> (r: Result<(), CpuFault>)
        requires
            old(self).wf(),
            old(self).lh5801.timer_state + 64 <= usize::MAX,
            old(self).lh5801.ticks + 64 <= usize::MAX,
        ensures
            clock_advanced(old(self), final(self), r),
            !is_illegal(r),
            !is_illegal_fd(r),
            r is Err <==> effects::op_91_fails(old(self)@),
            r is Err ==> r == Err::<(), CpuFault>(CpuFault::DebugTrap),
            r is Ok ==> final(self)@ == effects::op_91(old(self)@),
    {
        proof { reveal(effects::op_91); }
        let v208 = !self.get_carry_flag();
        self.branch_minus(v208)?;
        self.add_state(8);
        Ok(())
    }

    pub(crate) fn run_90(&mut self) -> (r: Result<(), CpuFault>)
        requires
            old(self).wf(),
            old(self).lh5801.timer_state + 64 <= usize::MAX,
            old(self).lh5801.ticks + 64 <= usize::MAX,
        ensures
            clock_advanced(old(self), final(self), r),
            !is_illegal(r),
            !is_illegal_fd(r),
            r is Ok,
            r is Ok ==> final(self)@ == effects::op_90(old(self)@),
    {
        proof { reveal(effects::op_90); }
        let v207 = self.lh5801.yh();
        self.sbc(v207);
        self.add_state(6);
        Ok(())
    }

    pub(crate) fn run_af(&mut self) -> (r: Result<(), CpuFault>)
        requires
            old(self).wf(),
            old(self).lh5801.timer_state + 64 <= usize::MAX,
            old(self).lh5801.ticks + 64 <= usize::MAX,
        ensures
            clock_advanced(old(self), final(self), r),
            !is_illegal(r),
            !is_illegal_fd(r),
            r is Ok,
            r is Ok ==> final(self)@ == effects::op_af(old(self)@),
    {
        proof { reveal(effects::op_af); }
        let addr = self.readop_word();
        let val = self.cpu_readmem((addr) as u32);
        let v229 = self.lh5801.a;
        self.bit(val, v229);
        self.add_state(13);
        Ok(())
    }

    pub(crate) fn run_ae(&mut self) -> (r: Result<(), CpuFault>)
        requires
            old(self).wf(),
            old(self).lh5801.timer_state + 64 <= usize::MAX,
            old(self).lh5801.ticks + 64 <= usize::MAX,
        ensures
            clock_advanced(old(self), final(self), r),
            !is_illegal(r),
            !is_illegal_fd(r),
            r is Ok,
            r is Ok ==> final(self)@ == effects::op_ae(old(self)@),
    {
        proof { reveal(effects::op_ae); }
        let addr = self.readop_word();
        let v228 = self.lh5801.a;
        self.cpu_writemem((addr) as u32, v228);
        self.add_state(12);
        Ok(())
    }

    pub(crate) fn run_ad(&mut self) -> (r: Result<(), CpuFault>)
        requires
            old(self).wf(),
            old(self).lh5801.timer_state + 64 <= usize::MAX,
            old(self).lh5801.ticks + 64 <= usize::MAX,
        ensures
            clock_advanced(old(self), final(self), r),
            !is_illegal(r),
            !is_illegal_fd(r),
            r is Ok,
            r is Ok ==> final(self)@ == effects::op_ad(old(self)@),
    {
        proof { reveal(effects::op_ad); }
        let addr = self.readop_word();
        let val = self.cpu_readmem((addr) as u32);
        self.eor(val);
        self.add_state(13);
        Ok(())
    }

    pub(crate) fn run_ac(&mut self) -> (r: Result<(), CpuFault>)
        requires
            old(self).wf(),
            old(self).lh5801.timer_state + 64 <= usize::MAX,
            old(self).lh5801.ticks + 64 <= usize::MAX,
        ensures
            clock_advanced(old(self), final(self), r),
            !is_illegal(r),
            !is_illegal_fd(r),
            r is Err <==> effects::op_ac_fails(old(self)@),
            r is Err ==> r == Err::<(), CpuFault>(CpuFault::DecimalOverflow),
            r is Ok ==> final(self)@ == effects::op_ac(old(self)@),
    {
        proof { reveal(effects::op_ac); }
        let v227 = (self.lh5801.u()) as u32;
        let val = self.cpu_readmem(v227);
        self.dca(val)?;
        self.add_state(15);
        Ok(())
    }

    pub(crate) fn run_ab(&mut self) -> (r: Result<(), CpuFault>)
        requires
            old(self).wf(),
            old(self).lh5801.timer_state + 64 <= usize::MAX,
            old(self).lh5801.ticks + 64 <= usize::MAX,
        ensures
            clock_advanced(old(self), final(self), r),
            !is_illegal(r),
            !is_illegal_fd(r),
            r is Ok,
            r is Ok ==> final(self)@ == effects::op_ab(old(self)@),
    {
        proof { reveal(effects::op_ab); }
        let addr = self.readop_word();
        let val = self.cpu_readmem((addr) as u32);
        self.ora(val);
        self.add_state(13);
        Ok(())
    }

    pub(crate) fn run_aa(&mut self) -> (r: Result<(), CpuFault>)
        requires
            old(self).wf(),
            old(self).lh5801.timer_state + 64 <= usize::MAX,
            old(self).lh5801.ticks + 64 <= usize::MAX,
        ensures
            clock_advanced(old(self), final(self), r),
            !is_illegal(r),
            !is_illegal_fd(r),
            r is Ok,
            r is Ok ==> final(self)@ == effects::op_aa(old(self)@),
    {
        proof { reveal(effects::op_aa); }
        let addr = self.readop_word();
        self.lh5801.s = addr;
        self.add_state(12);
        Ok(())
    }

    pub(crate) fn run_a9(&mut self) -> (r: Result<(), CpuFault>)
        requires
            old(self).wf(),
            old(self).lh5801.timer_state + 64 <= usize::MAX,
            old(self).lh5801.ticks + 64 <= usize::MAX,
        ensures
            clock_advanced(old(self), final(self), r),
            !is_illegal(r),
            !is_illegal_fd(r),
            r is Ok,
            r is Ok ==> final(self)@ == effects::op_a9(old(self)@),
    {
        proof { reveal(effects::op_a9); }
        let addr = self.readop_word();
        let val = self.cpu_readmem((addr) as u32);
        self.and(val);
        self.add_state(13);
        Ok(())
    }

    pub(crate) fn run_a8(&mut self) -> (r: Result<(), CpuFault>)
        requires
            old(self).wf(),
            old(self).lh5801.timer_state + 64 <= usize::MAX,
            old(self).lh5801.ticks + 64 <= usize::MAX,
        ensures
            clock_advanced(old(self), final(self), r),
            !is_illegal(r),
            !is_illegal_fd(r),
            r is Ok,
            r is Ok ==> final(self)@ == effects::op_a8(old(self)@),
    {
        proof { reveal(effects::op_a8); }
        self.lh5801.pv = true;
        self.add_state(4);
        Ok(())
    }

    pub(crate) fn run_a7(&mut self) -> (r: Result<(), CpuFault>)
        requires
            old(self).wf(),
            old(self).lh5801.timer_state + 64 <= usize::MAX,
            old(self).lh5801.ticks + 64 <= usize::MAX,
        ensures
            clock_advanced(old(self), final(self), r),
            !is_illegal(r),
            !is_illegal_fd(r),
            r is Ok,
            r is Ok ==> final(self)@ == effects::op_a7(old(self)@),
    {
        proof { reveal(effects::op_a7); }
        let addr = self.readop_word();
        let val = self.cpu_readmem((addr) as u32);
        let v226 = self.lh5801.a;
        self.cpa(v226, val);
        self.add_state(13);
        Ok(())
    }

    pub(crate) fn run_a6(&mut self) -> (r: Result<(), CpuFault>)
        requires
            old(self).wf(),
            old(self).lh5801.timer_state + 64 <= usize::MAX,
            old(self).lh5801.ticks + 64 <= usize::MAX,
        ensures
            clock_advanced(old(self), final(self), r),
            !is_illegal(r),
            !is_illegal_fd(r),
            r is Ok,
            r is Ok ==> final(self)@ == effects::op_a6(old(self)@),
    {
        proof { reveal(effects::op_a6); }
        let v224 = self.lh5801.a;
        let v225 = self.lh5801.uh();
        self.cpa(v224, v225);
        self.add_state(6);
        Ok(())
    }

    pub(crate) fn run_a5(&mut self) -> (r: Result<(), CpuFault>)
        requires
            old(self).wf(),
            old(self).lh5801.timer_state + 64 <= usize::MAX,
            old(self).lh5801.ticks + 64 <= usize::MAX,
        ensures
            clock_advanced(old(self), final(self), r),
            !is_illegal(r),
            !is_illegal_fd(r),
            r is Ok,
            r is Ok ==> final(self)@ == effects::op_a5(old(self)@),
    {
        proof { reveal(effects::op_a5); }
        let addr = self.readop_word();
        let val = self.cpu_readmem((addr) as u32);
        self.lda(val);
        self.add_state(12);
        Ok(())
    }

    pub(crate) fn run_a4(&mut self) -> (r: Result<(), CpuFault>)
        requires
            old(self).wf(),
            old(self).lh5801.timer_state + 64 <= usize::MAX,
            old(self).lh5801.ticks + 64 <= usize::MAX,
        ensures
            clock_advanced(old(self), final(self), r),
            !is_illegal(r),
            !is_illegal_fd(r),
            r is Ok,
            r is Ok ==> final(self)@ == effects::op_a4(old(self)@),
    {
        proof { reveal(effects::op_a4); }
        let v223 = self.lh5801.uh();
        self.lda(v223);
        self.add_state(5);
        Ok(())
    }

    pub(crate) fn run_a3(&mut self) -> (r: Result<(), CpuFault>)
        requires
            old(self).wf(),
            old(self).lh5801.timer_state + 64 <= usize::MAX,
            old(self).lh5801.ticks + 64 <= usize::MAX,
        ensures
            clock_advanced(old(self), final(self), r),
            !is_illegal(r),
            !is_illegal_fd(r),
            r is Ok,
            r is Ok ==> final(self)@ == effects::op_a3(old(self)@),
    {
        proof { reveal(effects::op_a3); }
        let addr = self.readop_word();
        let val = self.cpu_readmem((addr) as u32);
        self.adc(val);
        self.add_state(13);
        Ok(())
    }

    pub(crate) fn run_a2(&mut self) -> (r: Result<(), CpuFault>)
        requires
            old(self).wf(),
            old(self).lh5801.timer_state + 64 <= usize::MAX,
            old(self).lh5801.ticks + 64 <= usize::MAX,
        ensures
            clock_advanced(old(self), final(self), r),
            !is_illegal(r),
            !is_illegal_fd(r),
            r is Ok,
            r is Ok ==> final(self)@ == effects::op_a2(old(self)@),
    {
        proof { reveal(effects::op_a2); }
        let v222 = self.lh5801.uh();
        self.adc(v222);
        self.add_state(6);
        Ok(())
    }

    pub(crate) fn run_a1(&mut self) -> (r: Result<(), CpuFault>)
        requires
            old(self).wf(),
            old(self).lh5801.timer_state + 64 <= usize::MAX,
            old(self).lh5801.ticks + 64 <= usize::MAX,
        ensures
            clock_advanced(old(self), final(self), r),
            !is_illegal(r),
            !is_illegal_fd(r),
            r is Ok,
            r is Ok ==> final(self)@ == effects::op_a1(old(self)@),
    {
        proof { reveal(effects::op_a1); }
        let addr = self.readop_word();
        let val = self.cpu_readmem((addr) as u32);
        self.sbc(val);
        self.add_state(13);
        Ok(())
    }

    pub(crate) fn run_a0(&mut self) -> (r: Result<(), CpuFault>)
        requires
            old(self).wf(),
            old(self).lh5801.timer_state + 64 <= usize::MAX,
            old(self).lh5801.ticks + 64 <= usize::MAX,
        ensures
            clock_advanced(old(self), final(self), r),
            !is_illegal(r),
            !is_illegal_fd(r),
            r is Ok,
            r is Ok ==> final(self)@ == effects::op_a0(old(self)@),
    {
        proof { reveal(effects::op_a0); }
        let v221 = self.lh5801.uh();
        self.sbc(v221);
        self.add_state(6);
        Ok(())
    }

    pub(crate) fn run_bf(&mut self) -> (r: Result<(), CpuFault>)
        requires
            old(self).wf(),
            old(self).lh5801.timer_state + 64 <= usize::MAX,
            old(self).lh5801.ticks + 64 <= usize::MAX,
        ensures
            clock_advanced(old(self), final(self), r),
            !is_illegal(r),
            !is_illegal_fd(r),
            r is Ok,
            r is Ok ==> final(self)@ == effects::op_bf(old(self)@),
    {
        proof { reveal(effects::op_bf); }
        let val = self.cpu_readop();
        let v231 = self.lh5801.a;
        self.bit(v231, val);
        self.add_state(7);
        Ok(())
    }

    pub(crate) fn run_be(&mut self) -> (r: Result<(), CpuFault>)
        requires
            old(self).wf(),
            old(self).lh5801.timer_state + 64 <= usize::MAX,
            old(self).lh5801.ticks + 64 <= usize::MAX,
        ensures
            clock_advanced(old(self), final(self), r),
            !is_illegal(r),
            !is_illegal_fd(r),
            r is Err <==> effects::op_be_fails(old(self)@),
            r is Err ==> r == Err::<(), CpuFault>(CpuFault::DebugTrap),
            r is Ok ==> final(self)@ == effects::op_be(old(self)@),
    {
        proof { reveal(effects::op_be); }
        self.sjp()?;
        self.add_state(19);
        Ok(())
    }

    pub(crate) fn run_bd(&mut self) -> (r: Result<(), CpuFault>)
        requires
            old(self).wf(),
            old(self).lh5801.timer_state + 64 <= usize::MAX,
            old(self).lh5801.ticks + 64 <= usize::MAX,
        ensures
            clock_advanced(old(self), final(self), r),
            !is_illegal(r),
            !is_illegal_fd(r),
            r is Ok,
            r is Ok ==> final(self)@ == effects::op_bd(old(self)@),
    {
        proof { reveal(effects::op_bd); }
        let val = self.cpu_readop();
        self.eor(val);
        self.add_state(7);
        Ok(())
    }

    pub(crate) fn run_bb(&mut self) -> (r: Result<(), CpuFault>)
        requires
            old(self).wf(),
            old(self).lh5801.timer_state + 64 <= usize::MAX,
            old(self).lh5801.ticks + 64 <= usize::MAX,
        ensures
            clock_advanced(old(self), final(self), r),
            !is_illegal(r),
            !is_illegal_fd(r),
            r is Ok,
            r is Ok ==> final(self)@ == effects::op_bb(old(self)@),
    {
        proof { reveal(effects::op_bb); }
        let val = self.cpu_readop();
        self.ora(val);
        self.add_state(7);
        Ok(())
    }

    pub(crate) fn run_ba(&mut self) -> (r: Result<(), CpuFault>)
        requires
            old(self).wf(),
            old(self).lh5801.timer_state + 64 <= usize::MAX,
            old(self).lh5801.ticks + 64 <= usize::MAX,
        ensures
            clock_advanced(old(self), final(self), r),
            !is_illegal(r),
            !is_illegal_fd(r),
            r is Err <==> effects::op_ba_fails(old(self)@),
            r is Err ==> r == Err::<(), CpuFault>(CpuFault::DebugTrap),
            r is Ok ==> final(self)@ == effects::op_ba(old(self)@),
    {
        proof { reveal(effects::op_ba); }
        let addr = self.readop_word();
        self.jmp(addr)?;
        self.add_state(12);
        Ok(())
    }

    pub(crate) fn run_b9(&mut self) -> (r: Result<(), CpuFault>)
        requires
            old(self).wf(),
            old(self).lh5801.timer_state + 64 <= usize::MAX,
            old(self).lh5801.ticks + 64 <= usize::MAX,
        ensures
            clock_advanced(old(self), final(self), r),
            !is_illegal(r),
            !is_illegal_fd(r),
            r is Ok,
            r is Ok ==> final(self)@ == effects::op_b9(old(self)@),
    {
        proof { reveal(effects::op_b9); }
        let val = self.cpu_readop();
        self.and(val);
        self.add_state(7);
        Ok(())
    }

    pub(crate) fn run_b8(&mut self) -> (r: Result<(), CpuFault>)
        requires
            old(self).wf(),
            old(self).lh5801.timer_state + 64 <= usize::MAX,
            old(self).lh5801.ticks + 64 <= usize::MAX,
        ensures
            clock_advanced(old(self), final(self), r),
            !is_illegal(r),
            !is_illegal_fd(r),
            r is Ok,
            r is Ok ==> final(self)@ == effects::op_b8(old(self)@),
    {
        proof { reveal(effects::op_b8); }
        self.lh5801.pv = false;
        self.add_state(4);
        Ok(())
    }

    pub(crate) fn run_b7(&mut self) -> (r: Result<(), CpuFault>)
        requires
            old(self).wf(),
            old(self).lh5801.timer_state + 64 <= usize::MAX,
            old(self).lh5801.ticks + 64 <= usize::MAX,
        ensures
            clock_advanced(old(self), final(self), r),
            !is_illegal(r),
            !is_illegal_fd(r),
            r is Ok,
            r is Ok ==> final(self)@ == effects::op_b7(old(self)@),
    {
        proof { reveal(effects::op_b7); }
        let val = self.cpu_readop();
        let v230 = self.lh5801.a;
        self.cpa(v230, val);
        self.add_state(7);
        Ok(())
    }

    pub(crate) fn run_b5(&mut self) -> (r: Result<(), CpuFault>)
        requires
            old(self).wf(),
            old(self).lh5801.timer_state + 64 <= usize::MAX,
            old(self).lh5801.ticks + 64 <= usize::MAX,
        ensures
            clock_advanced(old(self), final(self), r),
            !is_illegal(r),
            !is_illegal_fd(r),
            r is Ok,
            r is Ok ==> final(self)@ == effects::op_b5(old(self)@),
    {
        proof { reveal(effects::op_b5); }
        let val = self.cpu_readop();
        self.lda(val);
        self.add_state(6);
        Ok(())
    }

    pub(crate) fn run_b3(&mut self) -> (r: Result<(), CpuFault>)
        requires
            old(self).wf(),
            old(self).lh5801.timer_state + 64 <= usize::MAX,
            old(self).lh5801.ticks + 64 <= usize::MAX,
        ensures
            clock_advanced(old(self), final(self), r),
            !is_illegal(r),
            !is_illegal_fd(r),
            r is Ok,
            r is Ok ==> final(self)@ == effects::op_b3(old(self)@),
    {
        proof { reveal(effects::op_b3); }
        let val = self.cpu_readop();
        self.adc(val);
        self.add_state(7);
        Ok(())
    }

    pub(crate) fn run_b1(&mut self) -> (r: Result<(), CpuFault>)
        requires
            old(self).wf(),
            old(self).lh5801.timer_state + 64 <= usize::MAX,
            old(self).lh5801.ticks + 64 <= usize::MAX,
        ensures
            clock_advanced(old(self), final(self), r),
            !is_illegal(r),
            !is_illegal_fd(r),
            r is Ok,
            r is Ok ==> final(self)@ == effects::op_b1(old(self)@),
    {
        proof { reveal(effects::op_b1); }
        let val = self.cpu_readop();
        self.sbc(val);
        self.add_state(7);
        Ok(())
    }

    pub(crate) fn run_c0(&mut self, oper: u8) -> (r: Result<(), CpuFault>)
        requires
            old(self).wf(),
            old(self).lh5801.timer_state + 64 <= usize::MAX,
            old(self).lh5801.ticks + 64 <= usize::MAX,
        ensures
            clock_advanced(old(self), final(self), r),
            !is_illegal(r),
            !is_illegal_fd(r),
            r is Err <==> effects::op_c0_fails(oper, old(self)@),
            r is Err ==> r == Err::<(), CpuFault>(CpuFault::DebugTrap),
            r is Ok ==> final(self)@ == effects::op_c0(oper, old(self)@),
    {
        proof { reveal(effects::op_c0); }
        self.vector(true, oper)?;
        self.add_state(4);
        Ok(())
    }

    pub(crate) fn run_cd(&mut self) -> (r: Result<(), CpuFault>)
        requires
            old(self).wf(),
            old(self).lh5801.timer_state + 64 <= usize::MAX,
            old(self).lh5801.ticks + 64 <= usize::MAX,
        ensures
            clock_advanced(old(self), final(self), r),
            !is_illegal(r),
            !is_illegal_fd(r),
            r is Err <==> effects::op_cd_fails(old(self)@),
            r is Err ==> r == Err::<(), CpuFault>(CpuFault::DebugTrap),
            r is Ok ==> final(self)@ == effects::op_cd(old(self)@),
    {
        proof { reveal(effects::op_cd); }
        let nr = self.cpu_readop();
        let ghost m1 = self@;
        assert(m1 == old(self)@.skip_s(1));
        self.vector(true, nr)?;
        assert(self@ == m1.vector_s(true, nr));
        self.add_state(7);
        Ok(())
    }

    pub(crate) fn run_d0(&mut self, oper: u8) -> (r: Result<(), CpuFault>)
        requires
            old(self).wf(),
            old(self).lh5801.timer_state + 64 <= usize::MAX,
            old(self).lh5801.ticks + 64 <= usize::MAX,
        ensures
            clock_advanced(old(self), final(self), r),
            !is_illegal(r),
            !is_illegal_fd(r),
            r is Err <==> effects::op_d0_fails(oper, old(self)@),
            r is Err ==> r == Err::<(), CpuFault>(CpuFault::DebugTrap),
            r is Ok ==> final(self)@ == effects::op_d0(oper, old(self)@),
    {
        proof { reveal(effects::op_d0); }
        self.vector(true, oper)?;
        self.add_state(4);
        Ok(())
    }

    pub(crate) fn run_df(&mut self) -> (r: Result<(), CpuFault>)
        requires
            old(self).wf(),
            old(self).lh5801.timer_state + 64 <= usize::MAX,
            old(self).lh5801.ticks + 64 <= usize::MAX,
        ensures
            clock_advanced(old(self), final(self), r),
            !is_illegal(r),
            !is_illegal_fd(r),
            r is Ok,
            r is Ok ==> final(self)@ == effects::op_df(old(self)@),
    {
        proof { reveal(effects::op_df); }
        let v243 = self.lh5801.a;
        let v244 = self.dec(v243);
        self.lh5801.a = v244;
        self.add_state(5);
        Ok(())
    }

    pub(crate) fn run_dd(&mut self) -> (r: Result<(), CpuFault>)
        requires
            old(self).wf(),
            old(self).lh5801.timer_state + 64 <= usize::MAX,
            old(self).lh5801.ticks + 64 <= usize::MAX,
        ensures
            clock_advanced(old(self), final(self), r),
            !is_illegal(r),
            !is_illegal_fd(r),
            r is Ok,
            r is Ok ==> final(self)@ == effects::op_dd(old(self)@),
    {
        proof { reveal(effects::op_dd); }
        let v241 = self.lh5801.a;
        let v242 = self.inc(v241);
        self.lh5801.a = v242;
        self.add_state(5);
        Ok(())
    }

    pub(crate) fn run_db(&mut self) -> (r: Result<(), CpuFault>)
        requires
            old(self).wf(),
            old(self).lh5801.timer_state + 64 <= usize::MAX,
            old(self).lh5801.ticks + 64 <= usize::MAX,
        ensures
            clock_advanced(old(self), final(self), r),
            !is_illegal(r),
            !is_illegal_fd(r),
            r is Ok,
            r is Ok ==> final(self)@ == effects::op_db(old(self)@),
    {
        proof { reveal(effects::op_db); }
        self.rol();
        self.add_state(8);
        Ok(())
    }

    pub(crate) fn run_d9(&mut self) -> (r: Result<(), CpuFault>)
        requires
            old(self).wf(),
            old(self).lh5801.timer_state + 64 <= usize::MAX,
            old(self).lh5801.ticks + 64 <= usize::MAX,
        ensures
            clock_advanced(old(self), final(self), r),
            !is_illegal(r),
            !is_illegal_fd(r),
            r is Ok,
            r is Ok ==> final(self)@ == effects::op_d9(old(self)@),
    {
        proof { reveal(effects::op_d9); }
        self.shl();
        self.add_state(6);
        Ok(())
    }

    pub(crate) fn run_d7(&mut self) -> (r: Result<(), CpuFault>)
        requires
            old(self).wf(),
            old(self).lh5801.timer_state + 64 <= usize::MAX,
            old(self).lh5801.ticks + 64 <= usize::MAX,
        ensures
            clock_advanced(old(self), final(self), r),
            !is_illegal(r),
            !is_illegal_fd(r),
            r is Ok,
            r is Ok ==> final(self)@ == effects::op_d7(old(self)@),
    {
        proof { reveal(effects::op_d7); }
        let v240 = (self.lh5801.x()) as u32;
        self.drl(v240);
        self.add_state(12);
        Ok(())
    }

    pub(crate) fn run_d5(&mut self) -> (r: Result<(), CpuFault>)
        requires
            old(self).wf(),
            old(self).lh5801.timer_state + 64 <= usize::MAX,
            old(self).lh5801.ticks + 64 <= usize::MAX,
        ensures
            clock_advanced(old(self), final(self), r),
            !is_illegal(r),
            !is_illegal_fd(r),
            r is Ok,
            r is Ok ==> final(self)@ == effects::op_d5(old(self)@),
    {
        proof { reveal(effects::op_d5); }
        self.shr();
        self.add_state(9);
        Ok(())
    }

    pub(crate) fn run_d3(&mut self) -> (r: Result<(), CpuFault>)
        requires
            old(self).wf(),
            old(self).lh5801.timer_state + 64 <= usize::MAX,
            old(self).lh5801.ticks + 64 <= usize::MAX,
        ensures
            clock_advanced(old(self), final(self), r),
            !is_illegal(r),
            !is_illegal_fd(r),
            r is Ok,
            r is Ok ==> final(self)@ == effects::op_d3(old(self)@),
    {
        proof { reveal(effects::op_d3); }
        let v239 = (self.lh5801.x()) as u32;
        self.drr(v239);
        self.add_state(12);
        Ok(())
    }

    pub(crate) fn run_d1(&mut self) -> (r: Result<(), CpuFault>)
        requires
            old(self).wf(),
            old(self).lh5801.timer_state + 64 <= usize::MAX,
            old(self).lh5801.ticks + 64 <= usize::MAX,
        ensures
            clock_advanced(old(self), final(self), r),
            !is_illegal(r),
            !is_illegal_fd(r),
            r is Ok,
            r is Ok ==> final(self)@ == effects::op_d1(old(self)@),
    {
        proof { reveal(effects::op_d1); }
        self.ror();
        self.add_state(9);
        Ok(())
    }

    pub(crate) fn run_e0(&mut self, oper: u8) -> (r: Result<(), CpuFault>)
        requires
            old(self).wf(),
            old(self).lh5801.timer_state + 64 <= usize::MAX,
            old(self).lh5801.ticks + 64 <= usize::MAX,
        ensures
            clock_advanced(old(self), final(self), r),
            !is_illegal(r),
            !is_illegal_fd(r),
            r is Err <==> effects::op_e0_fails(oper, old(self)@),
            r is Err ==> r == Err::<(), CpuFault>(CpuFault::DebugTrap),
            r is Ok ==> final(self)@ == effects::op_e0(oper, old(self)@),
    {
        proof { reveal(effects::op_e0); }
        self.vector(true, oper)?;
        self.add_state(4);
        Ok(())
    }

    pub(crate) fn run_ef(&mut self) -> (r: Result<(), CpuFault>)
        requires
            old(self).wf(),
            old(self).lh5801.timer_state + 64 <= usize::MAX,
            old(self).lh5801.ticks + 64 <= usize::MAX,
        ensures
            clock_advanced(old(self), final(self), r),
            !is_illegal(r),
            !is_illegal_fd(r),
            r is Ok,
            r is Ok ==> final(self)@ == effects::op_ef(old(self)@),
    {
        proof { reveal(effects::op_ef); }
        let addr = self.readop_word();
        let val = self.cpu_readop();
        self.add_mem((addr) as u32, val);
        self.add_state(19);
        Ok(())
    }

    pub(crate) fn run_ed(&mut self) -> (r: Result<(), CpuFault>)
        requires
            old(self).wf(),
            old(self).lh5801.timer_state + 64 <= usize::MAX,
            old(self).lh5801.ticks + 64 <= usize::MAX,
        ensures
            clock_advanced(old(self), final(self), r),
            !is_illegal(r),
            !is_illegal_fd(r),
            r is Ok,
            r is Ok ==> final(self)@ == effects::op_ed(old(self)@),
    {
        proof { reveal(effects::op_ed); }
        let addr = self.readop_word();
        let mem = self.cpu_readmem((addr) as u32);
        let val = self.cpu_readop();
        self.bit(mem, val);
        self.add_state(16);
        Ok(())
    }

    pub(crate) fn run_eb(&mut self) -> (r: Result<(), CpuFault>)
        requires
            old(self).wf(),
            old(self).lh5801.timer_state + 64 <= usize::MAX,
            old(self).lh5801.ticks + 64 <= usize::MAX,
        ensures
            clock_advanced(old(self), final(self), r),
            !is_illegal(r),
            !is_illegal_fd(r),
            r is Ok,
            r is Ok ==> final(self)@ == effects::op_eb(old(self)@),
    {
        proof { reveal(effects::op_eb); }
        let addr = self.readop_word();
        let val = self.cpu_readop();
        self.ora_mem((addr) as u32, val);
        self.add_state(19);
        Ok(())
    }

    pub(crate) fn run_e9(&mut self) -> (r: Result<(), CpuFault>)
        requires
            old(self).wf(),
            old(self).lh5801.timer_state + 64 <= usize::MAX,
            old(self).lh5801.ticks + 64 <= usize::MAX,
        ensures
            clock_advanced(old(self), final(self), r),
            !is_illegal(r),
            !is_illegal_fd(r),
            r is Ok,
            r is Ok ==> final(self)@ == effects::op_e9(old(self)@),
    {
        proof { reveal(effects::op_e9); }
        let addr = self.readop_word();
        let val = self.cpu_readop();
        self.and_mem((addr) as u32, val);
        self.add_state(19);
        Ok(())
    }

    pub(crate) fn run_e3(&mut self) -> (r: Result<(), CpuFault>)
        requires
            old(self).wf(),
            old(self).lh5801.timer_state + 64 <= usize::MAX,
            old(self).lh5801.ticks + 64 <= usize::MAX,
        ensures
            clock_advanced(old(self), final(self), r),
            !is_illegal(r),
            !is_illegal_fd(r),
            r is Ok,
            r is Ok ==> final(self)@ == effects::op_e3(old(self)@),
    {
        proof { reveal(effects::op_e3); }
        self.lh5801.pu = false;
        self.add_state(4);
        Ok(())
    }

    pub(crate) fn run_e1(&mut self) -> (r: Result<(), CpuFault>)
        requires
            old(self).wf(),
            old(self).lh5801.timer_state + 64 <= usize::MAX,
            old(self).lh5801.ticks + 64 <= usize::MAX,
        ensures
            clock_advanced(old(self), final(self), r),
            !is_illegal(r),
            !is_illegal_fd(r),
            r is Ok,
            r is Ok ==> final(self)@ == effects::op_e1(old(self)@),
    {
        proof { reveal(effects::op_e1); }
        self.lh5801.pu = true;
        self.add_state(4);
        Ok(())
    }

    pub(crate) fn run_f0(&mut self, oper: u8) -> (r: Result<(), CpuFault>)
        requires
            old(self).wf(),
            old(self).lh5801.timer_state + 64 <= usize::MAX,
            old(self).lh5801.ticks + 64 <= usize::MAX,
        ensures
            clock_advanced(old(self), final(self), r),
            !is_illegal(r),
            !is_illegal_fd(r),
            r is Err <==> effects::op_f0_fails(oper, old(self)@),
            r is Err ==> r == Err::<(), CpuFault>(CpuFault::DebugTrap),
            r is Ok ==> final(self)@ == effects::op_f0(oper, old(self)@),
    {
        proof { reveal(effects::op_f0); }
        self.vector(true, oper)?;
        self.add_state(4);
        Ok(())
    }

    pub(crate) fn run_fb(&mut self) -> (r: Result<(), CpuFault>)
        requires
            old(self).wf(),
            old(self).lh5801.timer_state + 64 <= usize::MAX,
            old(self).lh5801.ticks + 64 <= usize::MAX,
        ensures
            clock_advanced(old(self), final(self), r),
            !is_illegal(r),
            !is_illegal_fd(r),
            r is Ok,
            r is Ok ==> final(self)@ == effects::op_fb(old(self)@),
    {
        proof { reveal(effects::op_fb); }
        self.set_carry_flag(true);
        self.add_state(4);
        Ok(())
    }

    pub(crate) fn run_f9(&mut self) -> (r: Result<(), CpuFault>)
        requires
            old(self).wf(),
            old(self).lh5801.timer_state + 64 <= usize::MAX,
            old(self).lh5801.ticks + 64 <= usize::MAX,
        ensures
            clock_advanced(old(self), final(self), r),
            !is_illegal(r),
            !is_illegal_fd(r),
            r is Ok,
            r is Ok ==> final(self)@ == effects::op_f9(old(self)@),
    {
        proof { reveal(effects::op_f9); }
        self.set_carry_flag(false);
        self.add_state(4);
        Ok(())
    }

    pub(crate) fn run_f7(&mut self) -> (r: Result<(), CpuFault>)
        requires
            old(self).wf(),
            old(self).lh5801.timer_state + 64 <= usize::MAX,
            old(self).lh5801.ticks + 64 <= usize::MAX,
        ensures
            clock_advanced(old(self), final(self), r),
            !is_illegal(r),
            !is_illegal_fd(r),
            r is Ok,
            r is Ok ==> final(self)@ == effects::op_f7(old(self)@),
    {
        proof { reveal(effects::op_f7); }
        let v247 = (self.lh5801.x) as u32;
        let val = self.cpu_readmem(v247);
        self.lh5801.x = self.lh5801.x.wrapping_add(1);
        let v248 = self.lh5801.a;
        self.cpa(v248, val);
        self.add_state(7);
        Ok(())
    }

    pub(crate) fn run_f1(&mut self) -> (r: Result<(), CpuFault>)
        requires
            old(self).wf(),
            old(self).lh5801.timer_state + 64 <= usize::MAX,
            old(self).lh5801.ticks + 64 <= usize::MAX,
        ensures
            clock_advanced(old(self), final(self), r),
            !is_illegal(r),
            !is_illegal_fd(r),
            r is Ok,
            r is Ok ==> final(self)@ == effects::op_f1(old(self)@),
    {
        proof { reveal(effects::op_f1); }
        self.aex();
        self.add_state(6);
        Ok(())
    }

    pub(crate) fn run_fd_1f(&mut self) -> (r: Result<(), CpuFault>)
        requires
            old(self).wf(),
            old(self).lh5801.timer_state + 64 <= usize::MAX,
            old(self).lh5801.ticks + 64 <= usize::MAX,
        ensures
            clock_advanced(old(self), final(self), r),
            !is_illegal(r),
            !is_illegal_fd(r),
            r is Ok,
            r is Ok ==> final(self)@ == effects::fd_op_1f(old(self)@),
    {
        proof { reveal(effects::fd_op_1f); }
        let v27 = me1_of(self.lh5801.y());
        let read = self.cpu_readmem(v27);
        let v28 = self.lh5801.a;
        self.bit(read, v28);
        self.add_state(11);
        Ok(())
    }

    pub(crate) fn run_fd_1e(&mut self) -> (r: Result<(), CpuFault>)
        requires
            old(self).wf(),
            old(self).lh5801.timer_state + 64 <= usize::MAX,
            old(self).lh5801.ticks + 64 <= usize::MAX,
        ensures
            clock_advanced(old(self), final(self), r),
            !is_illegal(r),
            !is_illegal_fd(r),
            r is Ok,
            r is Ok ==> final(self)@ == effects::fd_op_1e(old(self)@),
    {
        proof { reveal(effects::fd_op_1e); }
        let v25 = me1_of(self.lh5801.y());
        let v26 = self.lh5801.a;
        self.cpu_writemem(v25, v26);
        self.add_state(10);
        Ok(())
    }

    pub(crate) fn run_fd_1d(&mut self) -> (r: Result<(), CpuFault>)
        requires
            old(self).wf(),
            old(self).lh5801.timer_state + 64 <= usize::MAX,
            old(self).lh5801.ticks + 64 <= usize::MAX,
        ensures
            clock_advanced(old(self), final(self), r),
            !is_illegal(r),
            !is_illegal_fd(r),
            r is Ok,
            r is Ok ==> final(self)@ == effects::fd_op_1d(old(self)@),
    {
        proof { reveal(effects::fd_op_1d); }
        let v24 = me1_of(self.lh5801.y());
        let read = self.cpu_readmem(v24);
        self.eor(read);
        self.add_state(11);
        Ok(())
    }

    pub(crate) fn run_fd_1c(&mut self) -> (r: Result<(), CpuFault>)
        requires
            old(self).wf(),
            old(self).lh5801.timer_state + 64 <= usize::MAX,
            old(self).lh5801.ticks + 64 <= usize::MAX,
        ensures
            clock_advanced(old(self), final(self), r),
            !is_illegal(r),
            !is_illegal_fd(r),
            r is Ok,
            r is Ok ==> final(self)@ == effects::fd_op_1c(old(self)@),
    {
        proof { reveal(effects::fd_op_1c); }
        let v23 = me1_of(self.lh5801.y());
        let read = self.cpu_readmem(v23);
        self.dcs(read);
        self.add_state(17);
        Ok(())
    }

    pub(crate) fn run_fd_1b(&mut self) -> (r: Result<(), CpuFault>)
        requires
            old(self).wf(),
            old(self).lh5801.timer_state + 64 <= usize::MAX,
            old(self).lh5801.ticks + 64 <= usize::MAX,
        ensures
            clock_advanced(old(self), final(self), r),
            !is_illegal(r),
            !is_illegal_fd(r),
            r is Ok,
            r is Ok ==> final(self)@ == effects::fd_op_1b(old(self)@),
    {
        proof { reveal(effects::fd_op_1b); }
        let v22 = me1_of(self.lh5801.y());
        let read = self.cpu_readmem(v22);
        self.ora(read);
        self.add_state(11);
        Ok(())
    }

    pub(crate) fn run_fd_1a(&mut self) -> (r: Result<(), CpuFault>)
        requires
            old(self).wf(),
            old(self).lh5801.timer_state + 64 <= usize::MAX,
            old(self).lh5801.ticks + 64 <= usize::MAX,
        ensures
            clock_advanced(old(self), final(self), r),
            !is_illegal(r),
            !is_illegal_fd(r),
            r is Ok,
            r is Ok ==> final(self)@ == effects::fd_op_1a(old(self)@),
    {
        proof { reveal(effects::fd_op_1a); }
        let v21 = self.pop_word();
        self.lh5801.y = v21;
        self.add_state(15);
        Ok(())
    }

    pub(crate) fn run_fd_19(&mut self) -> (r: Result<(), CpuFault>)
        requires
            old(self).wf(),
            old(self).lh5801.timer_state + 64 <= usize::MAX,
            old(self).lh5801.ticks + 64 <= usize::MAX,
        ensures
            clock_advanced(old(self), final(self), r),
            !is_illegal(r),
            !is_illegal_fd(r),
            r is Ok,
            r is Ok ==> final(self)@ == effects::fd_op_19(old(self)@),
    {
        proof { reveal(effects::fd_op_19); }
        let v20 = me1_of(self.lh5801.y());
        let read = self.cpu_readmem(v20);
        self.and(read);
        self.add_state(11);
        Ok(())
    }

    pub(crate) fn run_fd_18(&mut self) -> (r: Result<(), CpuFault>)
        requires
            old(self).wf(),
            old(self).lh5801.timer_state + 64 <= usize::MAX,
            old(self).lh5801.ticks + 64 <= usize::MAX,
        ensures
            clock_advanced(old(self), final(self), r),
            !is_illegal(r),
            !is_illegal_fd(r),
            r is Ok,
            r is Ok ==> final(self)@ == effects::fd_op_18(old(self)@),
    {
        proof { reveal(effects::fd_op_18); }
        self.lh5801.x = self.lh5801.y;
        self.add_state(11);
        Ok(())
    }

    pub(crate) fn run_fd_17(&mut self) -> (r: Result<(), CpuFault>)
        requires
            old(self).wf(),
            old(self).lh5801.timer_state + 64 <= usize::MAX,
            old(self).lh5801.ticks + 64 <= usize::MAX,
        ensures
            clock_advanced(old(self), final(self), r),
            !is_illegal(r),
            !is_illegal_fd(r),
            r is Ok,
            r is Ok ==> final(self)@ == effects::fd_op_17(old(self)@),
    {
        proof { reveal(effects::fd_op_17); }
        let v18 = me1_of(self.lh5801.y());
        let read = self.cpu_readmem(v18);
        let v19 = self.lh5801.a;
        self.cpa(v19, read);
        self.add_state(11);
        Ok(())
    }

    pub(crate) fn run_fd_15(&mut self) -> (r: Result<(), CpuFault>)
        requires
            old(self).wf(),
            old(self).lh5801.timer_state + 64 <= usize::MAX,
            old(self).lh5801.ticks + 64 <= usize::MAX,
        ensures
            clock_advanced(old(self), final(self), r),
            !is_illegal(r),
            !is_illegal_fd(r),
            r is Ok,
            r is Ok ==> final(self)@ == effects::fd_op_15(old(self)@),
    {
        proof { reveal(effects::fd_op_15); }
        let v17 = me1_of(self.lh5801.y());
        let read = self.cpu_readmem(v17);
        self.lda(read);
        self.add_state(10);
        Ok(())
    }

    pub(crate) fn run_fd_13(&mut self) -> (r: Result<(), CpuFault>)
        requires
            old(self).wf(),
            old(self).lh5801.timer_state + 64 <= usize::MAX,
            old(self).lh5801.ticks + 64 <= usize::MAX,
        ensures
            clock_advanced(old(self), final(self), r),
            !is_illegal(r),
            !is_illegal_fd(r),
            r is Ok,
            r is Ok ==> final(self)@ == effects::fd_op_13(old(self)@),
    {
        proof { reveal(effects::fd_op_13); }
        let v16 = me1_of(self.lh5801.y());
        let read = self.cpu_readmem(v16);
        self.adc(read);
        self.add_state(11);
        Ok(())
    }

    pub(crate) fn run_fd_11(&mut self) -> (r: Result<(), CpuFault>)
        requires
            old(self).wf(),
            old(self).lh5801.timer_state + 64 <= usize::MAX,
            old(self).lh5801.ticks + 64 <= usize::MAX,
        ensures
            clock_advanced(old(self), final(self), r),
            !is_illegal(r),
            !is_illegal_fd(r),
            r is Ok,
            r is Ok ==> final(self)@ == effects::fd_op_11(old(self)@),
    {
        proof { reveal(effects::fd_op_11); }
        let v15 = me1_of(self.lh5801.y());
        let read = self.cpu_readmem(v15);
        self.sbc(read);
        self.add_state(11);
        Ok(())
    }

    pub(crate) fn run_fd_0f(&mut self) -> (r: Result<(), CpuFault>)
        requires
            old(self).wf(),
            old(self).lh5801.timer_state + 64 <= usize::MAX,
            old(self).lh5801.ticks + 64 <= usize::MAX,
        ensures
            clock_advanced(old(self), final(self), r),
            !is_illegal(r),
            !is_illegal_fd(r),
            r is Ok,
            r is Ok ==> final(self)@ == effects::fd_op_0f(old(self)@),
    {
        proof { reveal(effects::fd_op_0f); }
        let v13 = me1_of(self.lh5801.x());
        let data = self.cpu_readmem(v13);
        let v14 = self.lh5801.a;
        self.bit(data, v14);
        self.add_state(11);
        Ok(())
    }

    pub(crate) fn run_fd_0e(&mut self) -> (r: Result<(), CpuFault>)
        requires
            old(self).wf(),
            old(self).lh5801.timer_state + 64 <= usize::MAX,
            old(self).lh5801.ticks + 64 <= usize::MAX,
        ensures
            clock_advanced(old(self), final(self), r),
            !is_illegal(r),
            !is_illegal_fd(r),
            r is Ok,
            r is Ok ==> final(self)@ == effects::fd_op_0e(old(self)@),
    {
        proof { reveal(effects::fd_op_0e); }
        let v11 = me1_of(self.lh5801.x());
        let v12 = self.lh5801.a;
        self.cpu_writemem(v11, v12);
        self.add_state(10);
        Ok(())
    }

    pub(crate) fn run_fd_0d(&mut self) -> (r: Result<(), CpuFault>)
        requires
            old(self).wf(),
            old(self).lh5801.timer_state + 64 <= usize::MAX,
            old(self).lh5801.ticks + 64 <= usize::MAX,
        ensures
            clock_advanced(old(self), final(self), r),
            !is_illegal(r),
            !is_illegal_fd(r),
            r is Ok,
            r is Ok ==> final(self)@ == effects::fd_op_0d(old(self)@),
    {
        proof { reveal(effects::fd_op_0d); }
        let v10 = me1_of(self.lh5801.x());
        let read = self.cpu_readmem(v10);
        self.eor(read);
        self.add_state(11);
        Ok(())
    }

    pub(crate) fn run_fd_0c(&mut self) -> (r: Result<(), CpuFault>)
        requires
            old(self).wf(),
            old(self).lh5801.timer_state + 64 <= usize::MAX,
            old(self).lh5801.ticks + 64 <= usize::MAX,
        ensures
            clock_advanced(old(self), final(self), r),
            !is_illegal(r),
            !is_illegal_fd(r),
            r is Ok,
            r is Ok ==> final(self)@ == effects::fd_op_0c(old(self)@),
    {
        proof { reveal(effects::fd_op_0c); }
        let v9 = me1_of(self.lh5801.x());
        let read = self.cpu_readmem(v9);
        self.dcs(read);
        self.add_state(17);
        Ok(())
    }

    pub(crate) fn run_fd_0b(&mut self) -> (r: Result<(), CpuFault>)
        requires
            old(self).wf(),
            old(self).lh5801.timer_state + 64 <= usize::MAX,
            old(self).lh5801.ticks + 64 <= usize::MAX,
        ensures
            clock_advanced(old(self), final(self), r),
            !is_illegal(r),
            !is_illegal_fd(r),
            r is Ok,
            r is Ok ==> final(self)@ == effects::fd_op_0b(old(self)@),
    {
        proof { reveal(effects::fd_op_0b); }
        let v8 = me1_of(self.lh5801.x());
        let read = self.cpu_readmem(v8);
        self.ora(read);
        self.add_state(11);
        Ok(())
    }

    pub(crate) fn run_fd_0a(&mut self) -> (r: Result<(), CpuFault>)
        requires
            old(self).wf(),
            old(self).lh5801.timer_state + 64 <= usize::MAX,
            old(self).lh5801.ticks + 64 <= usize::MAX,
        ensures
            clock_advanced(old(self), final(self), r),
            !is_illegal(r),
            !is_illegal_fd(r),
            r is Ok,
            r is Ok ==> final(self)@ == effects::fd_op_0a(old(self)@),
    {
        proof { reveal(effects::fd_op_0a); }
        let v7 = self.pop_word();
        self.lh5801.x = v7;
        self.add_state(15);
        Ok(())
    }

    pub(crate) fn run_fd_09(&mut self) -> (r: Result<(), CpuFault>)
        requires
            old(self).wf(),
            old(self).lh5801.timer_state + 64 <= usize::MAX,
            old(self).lh5801.ticks + 64 <= usize::MAX,
        ensures
            clock_advanced(old(self), final(self), r),
            !is_illegal(r),
            !is_illegal_fd(r),
            r is Ok,
            r is Ok ==> final(self)@ == effects::fd_op_09(old(self)@),
    {
        proof { reveal(effects::fd_op_09); }
        let v6 = me1_of(self.lh5801.x());
        let read = self.cpu_readmem(v6);
        self.and(read);
        self.add_state(11);
        Ok(())
    }

    pub(crate) fn run_fd_08(&mut self) -> (r: Result<(), CpuFault>)
        requires
            old(self).wf(),
            old(self).lh5801.timer_state + 64 <= usize::MAX,
            old(self).lh5801.ticks + 64 <= usize::MAX,
        ensures
            clock_advanced(old(self), final(self), r),
            !is_illegal(r),
            !is_illegal_fd(r),
            r is Ok,
            r is Ok ==> final(self)@ == effects::fd_op_08(old(self)@),
    {
        proof { reveal(effects::fd_op_08); }
        self.add_state(11);
        Ok(())
    }

    pub(crate) fn run_fd_07(&mut self) -> (r: Result<(), CpuFault>)
        requires
            old(self).wf(),
            old(self).lh5801.timer_state + 64 <= usize::MAX,
            old(self).lh5801.ticks + 64 <= usize::MAX,
        ensures
            clock_advanced(old(self), final(self), r),
            !is_illegal(r),
            !is_illegal_fd(r),
            r is Ok,
            r is Ok ==> final(self)@ == effects::fd_op_07(old(self)@),
    {
        proof { reveal(effects::fd_op_07); }
        let v4 = me1_of(self.lh5801.x());
        let read = self.cpu_readmem(v4);
        let v5 = self.lh5801.a;
        self.cpa(v5, read);
        self.add_state(11);
        Ok(())
    }

    pub(crate) fn run_fd_05(&mut self) -> (r: Result<(), CpuFault>)
        requires
            old(self).wf(),
            old(self).lh5801.timer_state + 64 <= usize::MAX,
            old(self).lh5801.ticks + 64 <= usize::MAX,
        ensures
            clock_advanced(old(self), final(self), r),
            !is_illegal(r),
            !is_illegal_fd(r),
            r is Ok,
            r is Ok ==> final(self)@ == effects::fd_op_05(old(self)@),
    {
        proof { reveal(effects::fd_op_05); }
        let v3 = me1_of(self.lh5801.x());
        let read = self.cpu_readmem(v3);
        self.lda(read);
        self.add_state(10);
        Ok(())
    }

    pub(crate) fn run_fd_03(&mut self) -> (r: Result<(), CpuFault>)
        requires
            old(self).wf(),
            old(self).lh5801.timer_state + 64 <= usize::MAX,
            old(self).lh5801.ticks + 64 <= usize::MAX,
        ensures
            clock_advanced(old(self), final(self), r),
            !is_illegal(r),
            !is_illegal_fd(r),
            r is Ok,
            r is Ok ==> final(self)@ == effects::fd_op_03(old(self)@),
    {
        proof { reveal(effects::fd_op_03); }
        let v2 = me1_of(self.lh5801.x());
        let read = self.cpu_readmem(v2);
        self.adc(read);
        self.add_state(11);
        Ok(())
    }

    pub(crate) fn run_fd_01(&mut self) -> (r: Result<(), CpuFault>)
        requires
            old(self).wf(),
            old(self).lh5801.timer_state + 64 <= usize::MAX,
            old(self).lh5801.ticks + 64 <= usize::MAX,
        ensures
            clock_advanced(old(self), final(self), r),
            !is_illegal(r),
            !is_illegal_fd(r),
            r is Ok,
            r is Ok ==> final(self)@ == effects::fd_op_01(old(self)@),
    {
        proof { reveal(effects::fd_op_01); }
        let v1 = me1_of(self.lh5801.x());
        let read = self.cpu_readmem(v1);
        self.sbc(read);
        self.add_state(11);
        Ok(())
    }

    pub(crate) fn run_fd_3a(&mut self) -> (r: Result<(), CpuFault>)
        requires
            old(self).wf(),
            old(self).lh5801.timer_state + 64 <= usize::MAX,
            old(self).lh5801.ticks + 64 <= usize::MAX,
        ensures
            clock_advanced(old(self), final(self), r),
            !is_illegal(r),
            !is_illegal_fd(r),
            r is Ok,
            r is Ok ==> final(self)@ == effects::fd_op_3a(old(self)@),
    {
        proof { reveal(effects::fd_op_3a); }
        self.lh5801.s = self.lh5801.s.wrapping_add(2);
        self.add_state(15);
        Ok(())
    }

    pub(crate) fn run_fd_2f(&mut self) -> (r: Result<(), CpuFault>)
        requires
            old(self).wf(),
            old(self).lh5801.timer_state + 64 <= usize::MAX,
            old(self).lh5801.ticks + 64 <= usize::MAX,
        ensures
            clock_advanced(old(self), final(self), r),
            !is_illegal(r),
            !is_illegal_fd(r),
            r is Ok,
            r is Ok ==> final(self)@ == effects::fd_op_2f(old(self)@),
    {
        proof { reveal(effects::fd_op_2f); }
        let v41 = me1_of(self.lh5801.u());
        let read = self.cpu_readmem(v41);
        let v42 = self.lh5801.a;
        self.bit(read, v42);
        self.add_state(11);
        Ok(())
    }

    pub(crate) fn run_fd_2e(&mut self) -> (r: Result<(), CpuFault>)
        requires
            old(self).wf(),
            old(self).lh5801.timer_state + 64 <= usize::MAX,
            old(self).lh5801.ticks + 64 <= usize::MAX,
        ensures
            clock_advanced(old(self), final(self), r),
            !is_illegal(r),
            !is_illegal_fd(r),
            r is Ok,
            r is Ok ==> final(self)@ == effects::fd_op_2e(old(self)@),
    {
        proof { reveal(effects::fd_op_2e); }
        let v39 = me1_of(self.lh5801.u());
        let v40 = self.lh5801.a;
        self.cpu_writemem(v39, v40);
        self.add_state(10);
        Ok(())
    }

    pub(crate) fn run_fd_2d(&mut self) -> (r: Result<(), CpuFault>)
        requires
            old(self).wf(),
            old(self).lh5801.timer_state + 64 <= usize::MAX,
            old(self).lh5801.ticks + 64 <= usize::MAX,
        ensures
            clock_advanced(old(self), final(self), r),
            !is_illegal(r),
            !is_illegal_fd(r),
            r is Ok,
            r is Ok ==> final(self)@ == effects::fd_op_2d(old(self)@),
    {
        proof { reveal(effects::fd_op_2d); }
        let v38 = me1_of(self.lh5801.u());
        let read = self.cpu_readmem(v38);
        self.eor(read);
        self.add_state(11);
        Ok(())
    }

    pub(crate) fn run_fd_2c(&mut self) -> (r: Result<(), CpuFault>)
        requires
            old(self).wf(),
            old(self).lh5801.timer_state + 64 <= usize::MAX,
            old(self).lh5801.ticks + 64 <= usize::MAX,
        ensures
            clock_advanced(old(self), final(self), r),
            !is_illegal(r),
            !is_illegal_fd(r),
            r is Ok,
            r is Ok ==> final(self)@ == effects::fd_op_2c(old(self)@),
    {
        proof { reveal(effects::fd_op_2c); }
        let v37 = me1_of(self.lh5801.u());
        let read = self.cpu_readmem(v37);
        self.dcs(read);
        self.add_state(17);
        Ok(())
    }

    pub(crate) fn run_fd_2b(&mut self) -> (r: Result<(), CpuFault>)
        requires
            old(self).wf(),
            old(self).lh5801.timer_state + 64 <= usize::MAX,
            old(self).lh5801.ticks + 64 <= usize::MAX,
        ensures
            clock_advanced(old(self), final(self), r),
            !is_illegal(r),
            !is_illegal_fd(r),
            r is Ok,
            r is Ok ==> final(self)@ == effects::fd_op_2b(old(self)@),
    {
        proof { reveal(effects::fd_op_2b); }
        let v36 = me1_of(self.lh5801.u());
        let read = self.cpu_readmem(v36);
        self.ora(read);
        self.add_state(11);
        Ok(())
    }

    pub(crate) fn run_fd_2a(&mut self) -> (r: Result<(), CpuFault>)
        requires
            old(self).wf(),
            old(self).lh5801.timer_state + 64 <= usize::MAX,
            old(self).lh5801.ticks + 64 <= usize::MAX,
        ensures
            clock_advanced(old(self), final(self), r),
            !is_illegal(r),
            !is_illegal_fd(r),
            r is Ok,
            r is Ok ==> final(self)@ == effects::fd_op_2a(old(self)@),
    {
        proof { reveal(effects::fd_op_2a); }
        let v35 = self.pop_word();
        self.lh5801.u = v35;
        self.add_state(15);
        Ok(())
    }

    pub(crate) fn run_fd_29(&mut self) -> (r: Result<(), CpuFault>)
        requires
            old(self).wf(),
            old(self).lh5801.timer_state + 64 <= usize::MAX,
            old(self).lh5801.ticks + 64 <= usize::MAX,
        ensures
            clock_advanced(old(self), final(self), r),
            !is_illegal(r),
            !is_illegal_fd(r),
            r is Ok,
            r is Ok ==> final(self)@ == effects::fd_op_29(old(self)@),
    {
        proof { reveal(effects::fd_op_29); }
        let v34 = me1_of(self.lh5801.u());
        let read = self.cpu_readmem(v34);
        self.and(read);
        self.add_state(11);
        Ok(())
    }

    pub(crate) fn run_fd_28(&mut self) -> (r: Result<(), CpuFault>)
        requires
            old(self).wf(),
            old(self).lh5801.timer_state + 64 <= usize::MAX,
            old(self).lh5801.ticks + 64 <= usize::MAX,
        ensures
            clock_advanced(old(self), final(self), r),
            !is_illegal(r),
            !is_illegal_fd(r),
            r is Ok,
            r is Ok ==> final(self)@ == effects::fd_op_28(old(self)@),
    {
        proof { reveal(effects::fd_op_28); }
        self.lh5801.x = self.lh5801.u;
        self.add_state(11);
        Ok(())
    }

    pub(crate) fn run_fd_27(&mut self) -> (r: Result<(), CpuFault>)
        requires
            old(self).wf(),
            old(self).lh5801.timer_state + 64 <= usize::MAX,
            old(self).lh5801.ticks + 64 <= usize::MAX,
        ensures
            clock_advanced(old(self), final(self), r),
            !is_illegal(r),
            !is_illegal_fd(r),
            r is Ok,
            r is Ok ==> final(self)@ == effects::fd_op_27(old(self)@),
    {
        proof { reveal(effects::fd_op_27); }
        let v32 = me1_of(self.lh5801.u());
        let read = self.cpu_readmem(v32);
        let v33 = self.lh5801.a;
        self.cpa(v33, read);
        self.add_state(11);
        Ok(())
    }

    pub(crate) fn run_fd_25(&mut self) -> (r: Result<(), CpuFault>)
        requires
            old(self).wf(),
            old(self).lh5801.timer_state + 64 <= usize::MAX,
            old(self).lh5801.ticks + 64 <= usize::MAX,
        ensures
            clock_advanced(old(self), final(self), r),
            !is_illegal(r),
            !is_illegal_fd(r),
            r is Ok,
            r is Ok ==> final(self)@ == effects::fd_op_25(old(self)@),
    {
        proof { reveal(effects::fd_op_25); }
        let v31 = me1_of(self.lh5801.u());
        let read = self.cpu_readmem(v31);
        self.lda(read);
        self.add_state(10);
        Ok(())
    }

    pub(crate) fn run_fd_23(&mut self) -> (r: Result<(), CpuFault>)
        requires
            old(self).wf(),
            old(self).lh5801.timer_state + 64 <= usize::MAX,
            old(self).lh5801.ticks + 64 <= usize::MAX,
        ensures
            clock_advanced(old(self), final(self), r),
            !is_illegal(r),
            !is_illegal_fd(r),
            r is Ok,
            r is Ok ==> final(self)@ == effects::fd_op_23(old(self)@),
    {
        proof { reveal(effects::fd_op_23); }
        let v30 = me1_of(self.lh5801.u());
        let read = self.cpu_readmem(v30);
        self.adc(read);
        self.add_state(11);
        Ok(())
    }

    pub(crate) fn run_fd_21(&mut self) -> (r: Result<(), CpuFault>)
        requires
            old(self).wf(),
            old(self).lh5801.timer_state + 64 <= usize::MAX,
            old(self).lh5801.ticks + 64 <= usize::MAX,
        ensures
            clock_advanced(old(self), final(self), r),
            !is_illegal(r),
            !is_illegal_fd(r),
            r is Ok,
            r is Ok ==> final(self)@ == effects::fd_op_21(old(self)@),
    {
        proof { reveal(effects::fd_op_21); }
        let v29 = me1_of(self.lh5801.u());
        let read = self.cpu_readmem(v29);
        self.sbc(read);
        self.add_state(11);
        Ok(())
    }

    pub(crate) fn run_fd_5f(&mut self) -> (r: Result<(), CpuFault>)
        requires
            old(self).wf(),
            old(self).lh5801.timer_state + 64 <= usize::MAX,
            old(self).lh5801.ticks + 64 <= usize::MAX,
        ensures
            clock_advanced(old(self), final(self), r),
            !is_illegal(r),
            !is_illegal_fd(r),
            r is Ok,
            r is Ok ==> final(self)@ == effects::fd_op_5f(old(self)@),
    {
        proof { reveal(effects::fd_op_5f); }
        let op = self.cpu_readop();
        let v55 = me1_of(self.lh5801.y());
        self.add_mem(v55, op);
        self.add_state(14);
        Ok(())
    }

    pub(crate) fn run_fd_5e(&mut self) -> (r: Result<(), CpuFault>)
        requires
            old(self).wf(),
            old(self).lh5801.timer_state + 64 <= usize::MAX,
            old(self).lh5801.ticks + 64 <= usize::MAX,
        ensures
            clock_advanced(old(self), final(self), r),
            !is_illegal(r),
            !is_illegal_fd(r),
            r is Err <==> effects::fd_op_5e_fails(old(self)@),
            r is Err ==> r == Err::<(), CpuFault>(CpuFault::DebugTrap),
            r is Ok ==> final(self)@ == effects::fd_op_5e(old(self)@),
    {
        proof { reveal(effects::fd_op_5e); }
        let v54 = self.lh5801.x;
        self.jmp(v54)?;
        self.add_state(11);
        Ok(())
    }

    pub(crate) fn run_fd_5d(&mut self) -> (r: Result<(), CpuFault>)
        requires
            old(self).wf(),
            old(self).lh5801.timer_state + 64 <= usize::MAX,
            old(self).lh5801.ticks + 64 <= usize::MAX,
        ensures
            clock_advanced(old(self), final(self), r),
            !is_illegal(r),
            !is_illegal_fd(r),
            r is Ok,
            r is Ok ==> final(self)@ == effects::fd_op_5d(old(self)@),
    {
        proof { reveal(effects::fd_op_5d); }
        let v53 = me1_of(self.lh5801.y());
        let read = self.cpu_readmem(v53);
        let op = self.cpu_readop();
        self.bit(read, op);
        self.add_state(14);
        Ok(())
    }

    pub(crate) fn run_fd_5b(&mut self) -> (r: Result<(), CpuFault>)
        requires
            old(self).wf(),
            old(self).lh5801.timer_state + 64 <= usize::MAX,
            old(self).lh5801.ticks + 64 <= usize::MAX,
        ensures
            clock_advanced(old(self), final(self), r),
            !is_illegal(r),
            !is_illegal_fd(r),
            r is Ok,
            r is Ok ==> final(self)@ == effects::fd_op_5b(old(self)@),
    {
        proof { reveal(effects::fd_op_5b); }
        let op = self.cpu_readop();
        let v52 = me1_of(self.lh5801.y());
        self.ora_mem(v52, op);
        self.add_state(14);
        Ok(())
    }

    pub(crate) fn run_fd_5a(&mut self) -> (r: Result<(), CpuFault>)
        requires
            old(self).wf(),
            old(self).lh5801.timer_state + 64 <= usize::MAX,
            old(self).lh5801.ticks + 64 <= usize::MAX,
        ensures
            clock_advanced(old(self), final(self), r),
            !is_illegal(r),
            !is_illegal_fd(r),
            r is Ok,
            r is Ok ==> final(self)@ == effects::fd_op_5a(old(self)@),
    {
        proof { reveal(effects::fd_op_5a); }
        self.lh5801.y = self.lh5801.x;
        self.add_state(11);
        Ok(())
    }

    pub(crate) fn run_fd_59(&mut self) -> (r: Result<(), CpuFault>)
        requires
            old(self).wf(),
            old(self).lh5801.timer_state + 64 <= usize::MAX,
            old(self).lh5801.ticks + 64 <= usize::MAX,
        ensures
            clock_advanced(old(self), final(self), r),
            !is_illegal(r),
            !is_illegal_fd(r),
            r is Ok,
            r is Ok ==> final(self)@ == effects::fd_op_59(old(self)@),
    {
        proof { reveal(effects::fd_op_59); }
        let op = self.cpu_readop();
        let v51 = me1_of(self.lh5801.y());
        self.and_mem(v51, op);
        self.add_state(17);
        Ok(())
    }

    pub(crate) fn run_fd_58(&mut self) -> (r: Result<(), CpuFault>)
        requires
            old(self).wf(),
            old(self).lh5801.timer_state + 64 <= usize::MAX,
            old(self).lh5801.ticks + 64 <= usize::MAX,
        ensures
            clock_advanced(old(self), final(self), r),
            !is_illegal(r),
            !is_illegal_fd(r),
            r is Ok,
            r is Ok ==> final(self)@ == effects::fd_op_58(old(self)@),
    {
        proof { reveal(effects::fd_op_58); }
        self.lh5801.x = self.lh5801.p;
        self.add_state(11);
        Ok(())
    }

    pub(crate) fn run_fd_52(&mut self) -> (r: Result<(), CpuFault>)
        requires
            old(self).wf(),
            old(self).lh5801.timer_state + 64 <= usize::MAX,
            old(self).lh5801.ticks + 64 <= usize::MAX,
        ensures
            clock_advanced(old(self), final(self), r),
            !is_illegal(r),
            !is_illegal_fd(r),
            r is Ok,
            r is Ok ==> final(self)@ == effects::fd_op_52(old(self)@),
    {
        proof { reveal(effects::fd_op_52); }
        let v50 = self.lh5801.yh();
        let dec = self.dec(v50);
        self.lh5801.set_yh(dec);
        self.add_state(9);
        Ok(())
    }

    pub(crate) fn run_fd_50(&mut self) -> (r: Result<(), CpuFault>)
        requires
            old(self).wf(),
            old(self).lh5801.timer_state + 64 <= usize::MAX,
            old(self).lh5801.ticks + 64 <= usize::MAX,
        ensures
            clock_advanced(old(self), final(self), r),
            !is_illegal(r),
            !is_illegal_fd(r),
            r is Ok,
            r is Ok ==> final(self)@ == effects::fd_op_50(old(self)@),
    {
        proof { reveal(effects::fd_op_50); }
        let v49 = self.lh5801.yh();
        let inc = self.inc(v49);
        self.lh5801.set_yh(inc);
        self.add_state(9);
        Ok(())
    }

    pub(crate) fn run_fd_4f(&mut self) -> (r: Result<(), CpuFault>)
        requires
            old(self).wf(),
            old(self).lh5801.timer_state + 64 <= usize::MAX,
            old(self).lh5801.ticks + 64 <= usize::MAX,
        ensures
            clock_advanced(old(self), final(self), r),
            !is_illegal(r),
            !is_illegal_fd(r),
            r is Ok,
            r is Ok ==> final(self)@ == effects::fd_op_4f(old(self)@),
    {
        proof { reveal(effects::fd_op_4f); }
        let op = self.cpu_readop();
        let v48 = me1_of(self.lh5801.x());
        self.add_mem(v48, op);
        self.add_state(14);
        Ok(())
    }

    pub(crate) fn run_fd_4e(&mut self) -> (r: Result<(), CpuFault>)
        requires
            old(self).wf(),
            old(self).lh5801.timer_state + 64 <= usize::MAX,
            old(self).lh5801.ticks + 64 <= usize::MAX,
        ensures
            clock_advanced(old(self), final(self), r),
            !is_illegal(r),
            !is_illegal_fd(r),
            r is Ok,
            r is Ok ==> final(self)@ == effects::fd_op_4e(old(self)@),
    {
        proof { reveal(effects::fd_op_4e); }
        self.lh5801.s = self.lh5801.x;
        self.add_state(11);
        Ok(())
    }

    pub(crate) fn run_fd_4d(&mut self) -> (r: Result<(), CpuFault>)
        requires
            old(self).wf(),
            old(self).lh5801.timer_state + 64 <= usize::MAX,
            old(self).lh5801.ticks + 64 <= usize::MAX,
        ensures
            clock_advanced(old(self), final(self), r),
            !is_illegal(r),
            !is_illegal_fd(r),
            r is Ok,
            r is Ok ==> final(self)@ == effects::fd_op_4d(old(self)@),
    {
        proof { reveal(effects::fd_op_4d); }
        let v47 = me1_of(self.lh5801.x());
        let read = self.cpu_readmem(v47);
        let op = self.cpu_readop();
        self.bit(read, op);
        self.add_state(14);
        Ok(())
    }

    pub(crate) fn run_fd_4c(&mut self) -> (r: Result<(), CpuFault>)
        requires
            old(self).wf(),
            old(self).lh5801.timer_state + 64 <= usize::MAX,
            old(self).lh5801.ticks + 64 <= usize::MAX,
        ensures
            clock_advanced(old(self), final(self), r),
            !is_illegal(r),
            !is_illegal_fd(r),
            r is Ok,
            r is Ok ==> final(self)@ == effects::fd_op_4c(old(self)@),
    {
        proof { reveal(effects::fd_op_4c); }
        self.lh5801.bf = false;
        self.add_state(8);
        Ok(())
    }

    pub(crate) fn run_fd_4b(&mut self) -> (r: Result<(), CpuFault>)
        requires
            old(self).wf(),
            old(self).lh5801.timer_state + 64 <= usize::MAX,
            old(self).lh5801.ticks + 64 <= usize::MAX,
        ensures
            clock_advanced(old(self), final(self), r),
            !is_illegal(r),
            !is_illegal_fd(r),
            r is Ok,
            r is Ok ==> final(self)@ == effects::fd_op_4b(old(self)@),
    {
        proof { reveal(effects::fd_op_4b); }
        let op = self.cpu_readop();
        let v46 = me1_of(self.lh5801.x());
        self.ora_mem(v46, op);
        self.add_state(14);
        Ok(())
    }

    pub(crate) fn run_fd_4a(&mut self) -> (r: Result<(), CpuFault>)
        requires
            old(self).wf(),
            old(self).lh5801.timer_state + 64 <= usize::MAX,
            old(self).lh5801.ticks + 64 <= usize::MAX,
        ensures
            clock_advanced(old(self), final(self), r),
            !is_illegal(r),
            !is_illegal_fd(r),
            r is Ok,
            r is Ok ==> final(self)@ == effects::fd_op_4a(old(self)@),
    {
        proof { reveal(effects::fd_op_4a); }
        self.add_state(11);
        Ok(())
    }

    pub(crate) fn run_fd_49(&mut self) -> (r: Result<(), CpuFault>)
        requires
            old(self).wf(),
            old(self).lh5801.timer_state + 64 <= usize::MAX,
            old(self).lh5801.ticks + 64 <= usize::MAX,
        ensures
            clock_advanced(old(self), final(self), r),
            !is_illegal(r),
            !is_illegal_fd(r),
            r is Ok,
            r is Ok ==> final(self)@ == effects::fd_op_49(old(self)@),
    {
        proof { reveal(effects::fd_op_49); }
        let op = self.cpu_readop();
        let v45 = me1_of(self.lh5801.x());
        self.and_mem(v45, op);
        self.add_state(17);
        Ok(())
    }

    pub(crate) fn run_fd_48(&mut self) -> (r: Result<(), CpuFault>)
        requires
            old(self).wf(),
            old(self).lh5801.timer_state + 64 <= usize::MAX,
            old(self).lh5801.ticks + 64 <= usize::MAX,
        ensures
            clock_advanced(old(self), final(self), r),
            !is_illegal(r),
            !is_illegal_fd(r),
            r is Ok,
            r is Ok ==> final(self)@ == effects::fd_op_48(old(self)@),
    {
        proof { reveal(effects::fd_op_48); }
        self.lh5801.x = self.lh5801.s;
        self.add_state(11);
        Ok(())
    }

    pub(crate) fn run_fd_42(&mut self) -> (r: Result<(), CpuFault>)
        requires
            old(self).wf(),
            old(self).lh5801.timer_state + 64 <= usize::MAX,
            old(self).lh5801.ticks + 64 <= usize::MAX,
        ensures
            clock_advanced(old(self), final(self), r),
            !is_illegal(r),
            !is_illegal_fd(r),
            r is Ok,
            r is Ok ==> final(self)@ == effects::fd_op_42(old(self)@),
    {
        proof { reveal(effects::fd_op_42); }
        let v44 = self.lh5801.xh();
        let dec = self.dec(v44);
        self.lh5801.set_xh(dec);
        self.add_state(9);
        Ok(())
    }

    pub(crate) fn run_fd_40(&mut self) -> (r: Result<(), CpuFault>)
        requires
            old(self).wf(),
            old(self).lh5801.timer_state + 64 <= usize::MAX,
            old(self).lh5801.ticks + 64 <= usize::MAX,
        ensures
            clock_advanced(old(self), final(self), r),
            !is_illegal(r),
            !is_illegal_fd(r),
            r is Ok,
            r is Ok ==> final(self)@ == effects::fd_op_40(old(self)@),
    {
        proof { reveal(effects::fd_op_40); }
        let v43 = self.lh5801.xh();
        let inc = self.inc(v43);
        self.lh5801.set_xh(inc);
        self.add_state(9);
        Ok(())
    }

    pub(crate) fn run_fd_6f(&mut self) -> (r: Result<(), CpuFault>)
        requires
            old(self).wf(),
            old(self).lh5801.timer_state + 64 <= usize::MAX,
            old(self).lh5801.ticks + 64 <= usize::MAX,
        ensures
            clock_advanced(old(self), final(self), r),
            !is_illegal(r),
            !is_illegal_fd(r),
            r is Ok,
            r is Ok ==> final(self)@ == effects::fd_op_6f(old(self)@),
    {
        proof { reveal(effects::fd_op_6f); }
        let op = self.cpu_readop();
        let v61 = me1_of(self.lh5801.u());
        self.add_mem(v61, op);
        self.add_state(17);
        Ok(())
    }

    pub(crate) fn run_fd_6d(&mut self) -> (r: Result<(), CpuFault>)
        requires
            old(self).wf(),
            old(self).lh5801.timer_state + 64 <= usize::MAX,
            old(self).lh5801.ticks + 64 <= usize::MAX,
        ensures
            clock_advanced(old(self), final(self), r),
            !is_illegal(r),
            !is_illegal_fd(r),
            r is Ok,
            r is Ok ==> final(self)@ == effects::fd_op_6d(old(self)@),
    {
        proof { reveal(effects::fd_op_6d); }
        let v60 = me1_of(self.lh5801.u());
        let read = self.cpu_readmem(v60);
        let op = self.cpu_readop();
        self.bit(read, op);
        self.add_state(14);
        Ok(())
    }

    pub(crate) fn run_fd_6b(&mut self) -> (r: Result<(), CpuFault>)
        requires
            old(self).wf(),
            old(self).lh5801.timer_state + 64 <= usize::MAX,
            old(self).lh5801.ticks + 64 <= usize::MAX,
        ensures
            clock_advanced(old(self), final(self), r),
            !is_illegal(r),
            !is_illegal_fd(r),
            r is Ok,
            r is Ok ==> final(self)@ == effects::fd_op_6b(old(self)@),
    {
        proof { reveal(effects::fd_op_6b); }
        let op = self.cpu_readop();
        let v59 = me1_of(self.lh5801.u());
        self.ora_mem(v59, op);
        self.add_state(14);
        Ok(())
    }

    pub(crate) fn run_fd_6a(&mut self) -> (r: Result<(), CpuFault>)
        requires
            old(self).wf(),
            old(self).lh5801.timer_state + 64 <= usize::MAX,
            old(self).lh5801.ticks + 64 <= usize::MAX,
        ensures
            clock_advanced(old(self), final(self), r),
            !is_illegal(r),
            !is_illegal_fd(r),
            r is Ok,
            r is Ok ==> final(self)@ == effects::fd_op_6a(old(self)@),
    {
        proof { reveal(effects::fd_op_6a); }
        self.lh5801.u = self.lh5801.x;
        self.add_state(11);
        Ok(())
    }

    pub(crate) fn run_fd_69(&mut self) -> (r: Result<(), CpuFault>)
        requires
            old(self).wf(),
            old(self).lh5801.timer_state + 64 <= usize::MAX,
            old(self).lh5801.ticks + 64 <= usize::MAX,
        ensures
            clock_advanced(old(self), final(self), r),
            !is_illegal(r),
            !is_illegal_fd(r),
            r is Ok,
            r is Ok ==> final(self)@ == effects::fd_op_69(old(self)@),
    {
        proof { reveal(effects::fd_op_69); }
        let op = self.cpu_readop();
        let v58 = me1_of(self.lh5801.u());
        self.and_mem(v58, op);
        self.add_state(17);
        Ok(())
    }

    pub(crate) fn run_fd_62(&mut self) -> (r: Result<(), CpuFault>)
        requires
            old(self).wf(),
            old(self).lh5801.timer_state + 64 <= usize::MAX,
            old(self).lh5801.ticks + 64 <= usize::MAX,
        ensures
            clock_advanced(old(self), final(self), r),
            !is_illegal(r),
            !is_illegal_fd(r),
            r is Ok,
            r is Ok ==> final(self)@ == effects::fd_op_62(old(self)@),
    {
        proof { reveal(effects::fd_op_62); }
        let v57 = self.lh5801.uh();
        let dec = self.dec(v57);
        self.lh5801.set_uh(dec);
        self.add_state(9);
        Ok(())
    }

    pub(crate) fn run_fd_60(&mut self) -> (r: Result<(), CpuFault>)
        requires
            old(self).wf(),
            old(self).lh5801.timer_state + 64 <= usize::MAX,
            old(self).lh5801.ticks + 64 <= usize::MAX,
        ensures
            clock_advanced(old(self), final(self), r),
            !is_illegal(r),
            !is_illegal_fd(r),
            r is Ok,
            r is Ok ==> final(self)@ == effects::fd_op_60(old(self)@),
    {
        proof { reveal(effects::fd_op_60); }
        let v56 = self.lh5801.uh();
        let inc = self.inc(v56);
        self.lh5801.set_uh(inc);
        self.add_state(9);
        Ok(())
    }

    pub(crate) fn run_fd_9c(&mut self) -> (r: Result<(), CpuFault>)
        requires
            old(self).wf(),
            old(self).lh5801.timer_state + 64 <= usize::MAX,
            old(self).lh5801.ticks + 64 <= usize::MAX,
        ensures
            clock_advanced(old(self), final(self), r),
            !is_illegal(r),
            !is_illegal_fd(r),
            r is Err <==> effects::fd_op_9c_fails(old(self)@),
            r is Err ==> r == Err::<(), CpuFault>(CpuFault::DecimalOverflow),
            r is Ok ==> final(self)@ == effects::fd_op_9c(old(self)@),
    {
        proof { reveal(effects::fd_op_9c); }
        let v65 = me1_of(self.lh5801.y());
        let read = self.cpu_readmem(v65);
        self.dca(read)?;
        self.add_state(19);
        Ok(())
    }

    pub(crate) fn run_fd_98(&mut self) -> (r: Result<(), CpuFault>)
        requires
            old(self).wf(),
            old(self).lh5801.timer_state + 64 <= usize::MAX,
            old(self).lh5801.ticks + 64 <= usize::MAX,
        ensures
            clock_advanced(old(self), final(self), r),
            !is_illegal(r),
            !is_illegal_fd(r),
            r is Ok,
            r is Ok ==> final(self)@ == effects::fd_op_98(old(self)@),
    {
        proof { reveal(effects::fd_op_98); }
        let v64 = self.lh5801.y;
        self.push_word(v64);
        self.add_state(14);
        Ok(())
    }

    pub(crate) fn run_fd_8c(&mut self) -> (r: Result<(), CpuFault>)
        requires
            old(self).wf(),
            old(self).lh5801.timer_state + 64 <= usize::MAX,
            old(self).lh5801.ticks + 64 <= usize::MAX,
        ensures
            clock_advanced(old(self), final(self), r),
            !is_illegal(r),
            !is_illegal_fd(r),
            r is Err <==> effects::fd_op_8c_fails(old(self)@),
            r is Err ==> r == Err::<(), CpuFault>(CpuFault::DecimalOverflow),
            r is Ok ==> final(self)@ == effects::fd_op_8c(old(self)@),
    {
        proof { reveal(effects::fd_op_8c); }
        let v63 = me1_of(self.lh5801.x());
        let read = self.cpu_readmem(v63);
        self.dca(read)?;
        self.add_state(19);
        Ok(())
    }

    pub(crate) fn run_fd_8a(&mut self) -> (r: Result<(), CpuFault>)
        requires
            old(self).wf(),
            old(self).lh5801.timer_state + 64 <= usize::MAX,
            old(self).lh5801.ticks + 64 <= usize::MAX,
        ensures
            clock_advanced(old(self), final(self), r),
            !is_illegal(r),
            !is_illegal_fd(r),
            r is Ok,
            r is Ok ==> final(self)@ == effects::fd_op_8a(old(self)@),
    {
        proof { reveal(effects::fd_op_8a); }
        self.pop();
        self.add_state(12);
        Ok(())
    }

    pub(crate) fn run_fd_88(&mut self) -> (r: Result<(), CpuFault>)
        requires
            old(self).wf(),
            old(self).lh5801.timer_state + 64 <= usize::MAX,
            old(self).lh5801.ticks + 64 <= usize::MAX,
        ensures
            clock_advanced(old(self), final(self), r),
            !is_illegal(r),
            !is_illegal_fd(r),
            r is Ok,
            r is Ok ==> final(self)@ == effects::fd_op_88(old(self)@),
    {
        proof { reveal(effects::fd_op_88); }
        let v62 = self.lh5801.x;
        self.push_word(v62);
        self.add_state(14);
        Ok(())
    }

    pub(crate) fn run_fd_81(&mut self) -> (r: Result<(), CpuFault>)
        requires
            old(self).wf(),
            old(self).lh5801.timer_state + 64 <= usize::MAX,
            old(self).lh5801.ticks + 64 <= usize::MAX,
        ensures
            clock_advanced(old(self), final(self), r),
            !is_illegal(r),
            !is_illegal_fd(r),
            r is Ok,
            r is Ok ==> final(self)@ == effects::fd_op_81(old(self)@),
    {
        proof { reveal(effects::fd_op_81); }
        self.set_ie_flag(true);
        self.add_state(8);
        Ok(())
    }

    pub(crate) fn run_fd_be(&mut self) -> (r: Result<(), CpuFault>)
        requires
            old(self).wf(),
            old(self).lh5801.timer_state + 64 <= usize::MAX,
            old(self).lh5801.ticks + 64 <= usize::MAX,
        ensures
            clock_advanced(old(self), final(self), r),
            !is_illegal(r),
            !is_illegal_fd(r),
            r is Ok,
            r is Ok ==> final(self)@ == effects::fd_op_be(old(self)@),
    {
        proof { reveal(effects::fd_op_be); }
        self.set_ie_flag(false);
        self.add_state(8);
        Ok(())
    }

    pub(crate) fn run_fd_ba(&mut self) -> (r: Result<(), CpuFault>)
        requires
            old(self).wf(),
            old(self).lh5801.timer_state + 64 <= usize::MAX,
            old(self).lh5801.ticks + 64 <= usize::MAX,
        ensures
            clock_advanced(old(self), final(self), r),
            !is_illegal(r),
            !is_illegal_fd(r),
            r is Ok,
            r is Ok ==> final(self)@ == effects::fd_op_ba(old(self)@),
    {
        proof { reveal(effects::fd_op_ba); }
        self.ita();
        self.add_state(9);
        Ok(())
    }

    pub(crate) fn run_fd_b1(&mut self) -> (r: Result<(), CpuFault>)
        requires
            old(self).wf(),
            old(self).lh5801.timer_state + 64 <= usize::MAX,
            old(self).lh5801.ticks + 64 <= usize::MAX,
        ensures
            clock_advanced(old(self), final(self), r),
            !is_illegal(r),
            !is_illegal_fd(r),
            r is Ok,
            r is Ok ==> final(self)@ == effects::fd_op_b1(old(self)@),
    {
        proof { reveal(effects::fd_op_b1); }
        self.lh5801.is_halted = true;
        self.add_state(8);
        Ok(())
    }

    pub(crate) fn run_fd_af(&mut self) -> (r: Result<(), CpuFault>)
        requires
            old(self).wf(),
            old(self).lh5801.timer_state + 64 <= usize::MAX,
            old(self).lh5801.ticks + 64 <= usize::MAX,
        ensures
            clock_advanced(old(self), final(self), r),
            !is_illegal(r),
            !is_illegal_fd(r),
            r is Ok,
            r is Ok ==> final(self)@ == effects::fd_op_af(old(self)@),
    {
        proof { reveal(effects::fd_op_af); }
        let op = self.readop_word();
        let read = self.cpu_readmem(me1_of(op));
        let v72 = self.lh5801.a;
        self.bit(read, v72);
        self.add_state(17);
        Ok(())
    }

    pub(crate) fn run_fd_ae(&mut self) -> (r: Result<(), CpuFault>)
        requires
            old(self).wf(),
            old(self).lh5801.timer_state + 64 <= usize::MAX,
            old(self).lh5801.ticks + 64 <= usize::MAX,
        ensures
            clock_advanced(old(self), final(self), r),
            !is_illegal(r),
            !is_illegal_fd(r),
            r is Ok,
            r is Ok ==> final(self)@ == effects::fd_op_ae(old(self)@),
    {
        proof { reveal(effects::fd_op_ae); }
        let op = self.readop_word();
        let v71 = self.lh5801.a;
        self.cpu_writemem(me1_of(op), v71);
        self.add_state(16);
        Ok(())
    }

    pub(crate) fn run_fd_ad(&mut self) -> (r: Result<(), CpuFault>)
        requires
            old(self).wf(),
            old(self).lh5801.timer_state + 64 <= usize::MAX,
            old(self).lh5801.ticks + 64 <= usize::MAX,
        ensures
            clock_advanced(old(self), final(self), r),
            !is_illegal(r),
            !is_illegal_fd(r),
            r is Ok,
            r is Ok ==> final(self)@ == effects::fd_op_ad(old(self)@),
    {
        proof { reveal(effects::fd_op_ad); }
        let op = self.readop_word();
        let read = self.cpu_readmem(me1_of(op));
        self.eor(read);
        self.add_state(17);
        Ok(())
    }

    pub(crate) fn run_fd_ac(&mut self) -> (r: Result<(), CpuFault>)
        requires
            old(self).wf(),
            old(self).lh5801.timer_state + 64 <= usize::MAX,
            old(self).lh5801.ticks + 64 <= usize::MAX,
        ensures
            clock_advanced(old(self), final(self), r),
            !is_illegal(r),
            !is_illegal_fd(r),
            r is Err <==> effects::fd_op_ac_fails(old(self)@),
            r is Err ==> r == Err::<(), CpuFault>(CpuFault::DecimalOverflow),
            r is Ok ==> final(self)@ == effects::fd_op_ac(old(self)@),
    {
        proof { reveal(effects::fd_op_ac); }
        let v70 = me1_of(self.lh5801.u);
        let read = self.cpu_readmem(v70);
        self.dca(read)?;
        self.add_state(19);
        Ok(())
    }

    pub(crate) fn run_fd_ab(&mut self) -> (r: Result<(), CpuFault>)
        requires
            old(self).wf(),
            old(self).lh5801.timer_state + 64 <= usize::MAX,
            old(self).lh5801.ticks + 64 <= usize::MAX,
        ensures
            clock_advanced(old(self), final(self), r),
            !is_illegal(r),
            !is_illegal_fd(r),
            r is Ok,
            r is Ok ==> final(self)@ == effects::fd_op_ab(old(self)@),
    {
        proof { reveal(effects::fd_op_ab); }
        let op = self.readop_word();
        let read = self.cpu_readmem(me1_of(op));
        self.ora(read);
        self.add_state(17);
        Ok(())
    }

    pub(crate) fn run_fd_aa(&mut self) -> (r: Result<(), CpuFault>)
        requires
            old(self).wf(),
            old(self).lh5801.timer_state + 64 <= usize::MAX,
            old(self).lh5801.ticks + 64 <= usize::MAX,
        ensures
            clock_advanced(old(self), final(self), r),
            !is_illegal(r),
            !is_illegal_fd(r),
            r is Ok,
            r is Ok ==> final(self)@ == effects::fd_op_aa(old(self)@),
    {
        proof { reveal(effects::fd_op_aa); }
        let v68 = self.lh5801.t;
        self.lda(v68);
        let v69 = self.lh5801.t;
        self.check_z(v69);
        self.add_state(9);
        Ok(())
    }

    pub(crate) fn run_fd_a9(&mut self) -> (r: Result<(), CpuFault>)
        requires
            old(self).wf(),
            old(self).lh5801.timer_state + 64 <= usize::MAX,
            old(self).lh5801.ticks + 64 <= usize::MAX,
        ensures
            clock_advanced(old(self), final(self), r),
            !is_illegal(r),
            !is_illegal_fd(r),
            r is Ok,
            r is Ok ==> final(self)@ == effects::fd_op_a9(old(self)@),
    {
        proof { reveal(effects::fd_op_a9); }
        let op = self.readop_word();
        let read = self.cpu_readmem(me1_of(op));
        self.and(read);
        self.add_state(17);
        Ok(())
    }

    pub(crate) fn run_fd_a8(&mut self) -> (r: Result<(), CpuFault>)
        requires
            old(self).wf(),
            old(self).lh5801.timer_state + 64 <= usize::MAX,
            old(self).lh5801.ticks + 64 <= usize::MAX,
        ensures
            clock_advanced(old(self), final(self), r),
            !is_illegal(r),
            !is_illegal_fd(r),
            r is Ok,
            r is Ok ==> final(self)@ == effects::fd_op_a8(old(self)@),
    {
        proof { reveal(effects::fd_op_a8); }
        let v67 = self.lh5801.u;
        self.push_word(v67);
        self.add_state(14);
        Ok(())
    }

    pub(crate) fn run_fd_a7(&mut self) -> (r: Result<(), CpuFault>)
        requires
            old(self).wf(),
            old(self).lh5801.timer_state + 64 <= usize::MAX,
            old(self).lh5801.ticks + 64 <= usize::MAX,
        ensures
            clock_advanced(old(self), final(self), r),
            !is_illegal(r),
            !is_illegal_fd(r),
            r is Ok,
            r is Ok ==> final(self)@ == effects::fd_op_a7(old(self)@),
    {
        proof { reveal(effects::fd_op_a7); }
        let op = self.readop_word();
        let read = self.cpu_readmem(me1_of(op));
        let v66 = self.lh5801.a;
        self.cpa(v66, read);
        self.add_state(17);
        Ok(())
    }

    pub(crate) fn run_fd_a5(&mut self) -> (r: Result<(), CpuFault>)
        requires
            old(self).wf(),
            old(self).lh5801.timer_state + 64 <= usize::MAX,
            old(self).lh5801.ticks + 64 <= usize::MAX,
        ensures
            clock_advanced(old(self), final(self), r),
            !is_illegal(r),
            !is_illegal_fd(r),
            r is Ok,
            r is Ok ==> final(self)@ == effects::fd_op_a5(old(self)@),
    {
        proof { reveal(effects::fd_op_a5); }
        let op = self.readop_word();
        let read = self.cpu_readmem(me1_of(op));
        self.lda(read);
        self.add_state(16);
        Ok(())
    }

    pub(crate) fn run_fd_a3(&mut self) -> (r: Result<(), CpuFault>)
        requires
            old(self).wf(),
            old(self).lh5801.timer_state + 64 <= usize::MAX,
            old(self).lh5801.ticks + 64 <= usize::MAX,
        ensures
            clock_advanced(old(self), final(self), r),
            !is_illegal(r),
            !is_illegal_fd(r),
            r is Ok,
            r is Ok ==> final(self)@ == effects::fd_op_a3(old(self)@),
    {
        proof { reveal(effects::fd_op_a3); }
        let op = self.readop_word();
        let read = self.cpu_readmem(me1_of(op));
        self.adc(read);
        self.add_state(17);
        Ok(())
    }

    pub(crate) fn run_fd_a1(&mut self) -> (r: Result<(), CpuFault>)
        requires
            old(self).wf(),
            old(self).lh5801.timer_state + 64 <= usize::MAX,
            old(self).lh5801.ticks + 64 <= usize::MAX,
        ensures
            clock_advanced(old(self), final(self), r),
            !is_illegal(r),
            !is_illegal_fd(r),
            r is Ok,
            r is Ok ==> final(self)@ == effects::fd_op_a1(old(self)@),
    {
        proof { reveal(effects::fd_op_a1); }
        let op = self.readop_word();
        let read = self.cpu_readmem(me1_of(op));
        self.sbc(read);
        self.add_state(17);
        Ok(())
    }

    pub(crate) fn run_fd_de(&mut self) -> (r: Result<(), CpuFault>)
        requires
            old(self).wf(),
            old(self).lh5801.timer_state + 64 <= usize::MAX,
            old(self).lh5801.ticks + 64 <= usize::MAX,
        ensures
            clock_advanced(old(self), final(self), r),
            !is_illegal(r),
            !is_illegal_fd(r),
            r is Ok,
            r is Ok ==> final(self)@ == effects::fd_op_de(old(self)@),
    {
        proof { reveal(effects::fd_op_de); }
        let v81 = ((self.lh5801.a) as u16) | 0x100;
        self.am(v81);
        self.add_state(9);
        Ok(())
    }

    pub(crate) fn run_fd_da(&mut self) -> (r: Result<(), CpuFault>)
        requires
            old(self).wf(),
            old(self).lh5801.timer_state + 64 <= usize::MAX,
            old(self).lh5801.ticks + 64 <= usize::MAX,
        ensures
            clock_advanced(old(self), final(self), r),
            !is_illegal(r),
            !is_illegal_fd(r),
            r is Ok,
            r is Ok ==> final(self)@ == effects::fd_op_da(old(self)@),
    {
        proof { reveal(effects::fd_op_da); }
        let v79 = self.lh5801.y;
        let v80 = self.adr(v79);
        self.lh5801.y = v80;
        self.add_state(11);
        Ok(())
    }

    pub(crate) fn run_fd_d7(&mut self) -> (r: Result<(), CpuFault>)
        requires
            old(self).wf(),
            old(self).lh5801.timer_state + 64 <= usize::MAX,
            old(self).lh5801.ticks + 64 <= usize::MAX,
        ensures
            clock_advanced(old(self), final(self), r),
            !is_illegal(r),
            !is_illegal_fd(r),
            r is Ok,
            r is Ok ==> final(self)@ == effects::fd_op_d7(old(self)@),
    {
        proof { reveal(effects::fd_op_d7); }
        let v78 = me1_of(self.lh5801.x());
        self.drl(v78);
        self.add_state(16);
        Ok(())
    }

    pub(crate) fn run_fd_d3(&mut self) -> (r: Result<(), CpuFault>)
        requires
            old(self).wf(),
            old(self).lh5801.timer_state + 64 <= usize::MAX,
            old(self).lh5801.ticks + 64 <= usize::MAX,
        ensures
            clock_advanced(old(self), final(self), r),
            !is_illegal(r),
            !is_illegal_fd(r),
            r is Ok,
            r is Ok ==> final(self)@ == effects::fd_op_d3(old(self)@),
    {
        proof { reveal(effects::fd_op_d3); }
        let v77 = me1_of(self.lh5801.x());
        self.drr(v77);
        self.add_state(16);
        Ok(())
    }

    pub(crate) fn run_fd_ce(&mut self) -> (r: Result<(), CpuFault>)
        requires
            old(self).wf(),
            old(self).lh5801.timer_state + 64 <= usize::MAX,
            old(self).lh5801.ticks + 64 <= usize::MAX,
        ensures
            clock_advanced(old(self), final(self), r),
            !is_illegal(r),
            !is_illegal_fd(r),
            r is Ok,
            r is Ok ==> final(self)@ == effects::fd_op_ce(old(self)@),
    {
        proof { reveal(effects::fd_op_ce); }
        let v76 = ((self.lh5801.a) as u16);
        self.am(v76);
        self.add_state(9);
        Ok(())
    }

    pub(crate) fn run_fd_cc(&mut self) -> (r: Result<(), CpuFault>)
        requires
            old(self).wf(),
            old(self).lh5801.timer_state + 64 <= usize::MAX,
            old(self).lh5801.ticks + 64 <= usize::MAX,
        ensures
            clock_advanced(old(self), final(self), r),
            !is_illegal(r),
            !is_illegal_fd(r),
            r is Ok,
            r is Ok ==> final(self)@ == effects::fd_op_cc(old(self)@),
    {
        proof { reveal(effects::fd_op_cc); }
        self.add_state(9);
        Ok(())
    }

    pub(crate) fn run_fd_ca(&mut self) -> (r: Result<(), CpuFault>)
        requires
            old(self).wf(),
            old(self).lh5801.timer_state + 64 <= usize::MAX,
            old(self).lh5801.ticks + 64 <= usize::MAX,
        ensures
            clock_advanced(old(self), final(self), r),
            !is_illegal(r),
            !is_illegal_fd(r),
            r is Ok,
            r is Ok ==> final(self)@ == effects::fd_op_ca(old(self)@),
    {
        proof { reveal(effects::fd_op_ca); }
        let v74 = self.lh5801.x;
        let v75 = self.adr(v74);
        self.lh5801.x = v75;
        self.add_state(11);
        Ok(())
    }

    pub(crate) fn run_fd_c8(&mut self) -> (r: Result<(), CpuFault>)
        requires
            old(self).wf(),
            old(self).lh5801.timer_state + 64 <= usize::MAX,
            old(self).lh5801.ticks + 64 <= usize::MAX,
        ensures
            clock_advanced(old(self), final(self), r),
            !is_illegal(r),
            !is_illegal_fd(r),
            r is Ok,
            r is Ok ==> final(self)@ == effects::fd_op_c8(old(self)@),
    {
        proof { reveal(effects::fd_op_c8); }
        let v73 = self.lh5801.a;
        self.push(v73);
        self.add_state(11);
        Ok(())
    }

    pub(crate) fn run_fd_c1(&mut self) -> (r: Result<(), CpuFault>)
        requires
            old(self).wf(),
            old(self).lh5801.timer_state + 64 <= usize::MAX,
            old(self).lh5801.ticks + 64 <= usize::MAX,
        ensures
            clock_advanced(old(self), final(self), r),
            !is_illegal(r),
            !is_illegal_fd(r),
            r is Ok,
            r is Ok ==> final(self)@ == effects::fd_op_c1(old(self)@),
    {
        proof { reveal(effects::fd_op_c1); }
        self.lh5801.disp = true;
        self.add_state(8);
        Ok(())
    }

    pub(crate) fn run_fd_c0(&mut self) -> (r: Result<(), CpuFault>)
        requires
            old(self).wf(),
            old(self).lh5801.timer_state + 64 <= usize::MAX,
            old(self).lh5801.ticks + 64 <= usize::MAX,
        ensures
            clock_advanced(old(self), final(self), r),
            !is_illegal(r),
            !is_illegal_fd(r),
            r is Ok,
            r is Ok ==> final(self)@ == effects::fd_op_c0(old(self)@),
    {
        proof { reveal(effects::fd_op_c0); }
        self.lh5801.disp = false;
        self.add_state(8);
        Ok(())
    }

    pub(crate) fn run_fd_ef(&mut self) -> (r: Result<(), CpuFault>)
        requires
            old(self).wf(),
            old(self).lh5801.timer_state + 64 <= usize::MAX,
            old(self).lh5801.ticks + 64 <= usize::MAX,
        ensures
            clock_advanced(old(self), final(self), r),
            !is_illegal(r),
            !is_illegal_fd(r),
            r is Ok,
            r is Ok ==> final(self)@ == effects::fd_op_ef(old(self)@),
    {
        proof { reveal(effects::fd_op_ef); }
        let op = self.readop_word();
        let adr = me1_of(op);
        let op2 = self.cpu_readop();
        self.add_mem((adr) as u32, op2);
        self.add_state(23);
        Ok(())
    }

    pub(crate) fn run_fd_ed(&mut self) -> (r: Result<(), CpuFault>)
        requires
            old(self).wf(),
            old(self).lh5801.timer_state + 64 <= usize::MAX,
            old(self).lh5801.ticks + 64 <= usize::MAX,
        ensures
            clock_advanced(old(self), final(self), r),
            !is_illegal(r),
            !is_illegal_fd(r),
            r is Ok,
            r is Ok ==> final(self)@ == effects::fd_op_ed(old(self)@),
    {
        proof { reveal(effects::fd_op_ed); }
        let op = self.readop_word();
        let read = self.cpu_readmem(me1_of(op));
        let op2 = self.cpu_readop();
        self.bit(read, op2);
        self.add_state(20);
        Ok(())
    }

    pub(crate) fn run_fd_ec(&mut self) -> (r: Result<(), CpuFault>)
        requires
            old(self).wf(),
            old(self).lh5801.timer_state + 64 <= usize::MAX,
            old(self).lh5801.ticks + 64 <= usize::MAX,
        ensures
            clock_advanced(old(self), final(self), r),
            !is_illegal(r),
            !is_illegal_fd(r),
            r is Ok,
            r is Ok ==> final(self)@ == effects::fd_op_ec(old(self)@),
    {
        proof { reveal(effects::fd_op_ec); }
        self.lh5801.t = self.lh5801.a & 0x1F;
        self.add_state(9);
        Ok(())
    }

    pub(crate) fn run_fd_eb(&mut self) -> (r: Result<(), CpuFault>)
        requires
            old(self).wf(),
            old(self).lh5801.timer_state + 64 <= usize::MAX,
            old(self).lh5801.ticks + 64 <= usize::MAX,
        ensures
            clock_advanced(old(self), final(self), r),
            !is_illegal(r),
            !is_illegal_fd(r),
            r is Ok,
            r is Ok ==> final(self)@ == effects::fd_op_eb(old(self)@),
    {
        proof { reveal(effects::fd_op_eb); }
        let adr = me1_of(self.readop_word());
        let read = self.cpu_readop();
        self.ora_mem((adr) as u32, read);
        self.add_state(23);
        Ok(())
    }

    pub(crate) fn run_fd_e9(&mut self) -> (r: Result<(), CpuFault>)
        requires
            old(self).wf(),
            old(self).lh5801.timer_state + 64 <= usize::MAX,
            old(self).lh5801.ticks + 64 <= usize::MAX,
        ensures
            clock_advanced(old(self), final(self), r),
            !is_illegal(r),
            !is_illegal_fd(r),
            r is Ok,
            r is Ok ==> final(self)@ == effects::fd_op_e9(old(self)@),
    {
        proof { reveal(effects::fd_op_e9); }
        let adr = me1_of(self.readop_word());
        let read = self.cpu_readop();
        self.and_mem((adr) as u32, read);
        self.add_state(23);
        Ok(())
    }

    pub(crate) fn run_fd_ea(&mut self) -> (r: Result<(), CpuFault>)
        requires
            old(self).wf(),
            old(self).lh5801.timer_state + 64 <= usize::MAX,
            old(self).lh5801.ticks + 64 <= usize::MAX,
        ensures
            clock_advanced(old(self), final(self), r),
            !is_illegal(r),
            !is_illegal_fd(r),
            r is Ok,
            r is Ok ==> final(self)@ == effects::fd_op_ea(old(self)@),
    {
        proof { reveal(effects::fd_op_ea); }
        let v82 = self.lh5801.u;
        let v83 = self.adr(v82);
        self.lh5801.u = v83;
        self.add_state(11);
        Ok(())
    }

    #[verifier::rlimit(100)]
    pub(crate) fn run_c1(&mut self) -> (r: Result<(), CpuFault>)
        requires
            old(self).wf(),
            old(self).lh5801.timer_state + 64 <= usize::MAX,
            old(self).lh5801.ticks + 64 <= usize::MAX,
        ensures
            clock_advanced(old(self), final(self), r),
            !is_illegal(r),
            !is_illegal_fd(r),
            r is Err <==> effects::op_c1_fails(old(self)@),
            r is Err ==> r == Err::<(), CpuFault>(CpuFault::DebugTrap),
            r is Ok ==> final(self)@ == effects::op_c1(old(self)@),
    {
        proof { reveal(effects::op_c1); }
        let nr = self.cpu_readop();
        let ghost m1 = self@;
        assert(m1 == old(self)@.skip_s(1));
        let v232 = !self.get_carry_flag();
        self.vector(v232, nr)?;
        assert(self@ == m1.vector_s(v232, nr));
        self.add_state(8);
        Ok(())
    }

    #[verifier::rlimit(100)]
    pub(crate) fn run_c3(&mut self) -> (r: Result<(), CpuFault>)
        requires
            old(self).wf(),
            old(self).lh5801.timer_state + 64 <= usize::MAX,
            old(self).lh5801.ticks + 64 <= usize::MAX,
        ensures
            clock_advanced(old(self), final(self), r),
            !is_illegal(r),
            !is_illegal_fd(r),
            r is Err <==> effects::op_c3_fails(old(self)@),
            r is Err ==> r == Err::<(), CpuFault>(CpuFault::DebugTrap),
            r is Ok ==> final(self)@ == effects::op_c3(old(self)@),
    {
        proof { reveal(effects::op_c3); }
        let nr = self.cpu_readop();
        let ghost m1 = self@;
        assert(m1 == old(self)@.skip_s(1));
        let v233 = self.get_carry_flag();
        self.vector(v233, nr)?;
        assert(self@ == m1.vector_s(v233, nr));
        self.add_state(8);
        Ok(())
    }

    #[verifier::rlimit(100)]
    pub(crate) fn run_c5(&mut self) -> (r: Result<(), CpuFault>)
        requires
            old(self).wf(),
            old(self).lh5801.timer_state + 64 <= usize::MAX,
            old(self).lh5801.ticks + 64 <= usize::MAX,
        ensures
            clock_advanced(old(self), final(self), r),
            !is_illegal(r),
            !is_illegal_fd(r),
            r is Err <==> effects::op_c5_fails(old(self)@),
            r is Err ==> r == Err::<(), CpuFault>(CpuFault::DebugTrap),
            r is Ok ==> final(self)@ == effects::op_c5(old(self)@),
    {
        proof { reveal(effects::op_c5); }
        let nr = self.cpu_readop();
        let ghost m1 = self@;
        assert(m1 == old(self)@.skip_s(1));
        let v234 = !self.get_half_carry_flag();
        self.vector(v234, nr)?;
        assert(self@ == m1.vector_s(v234, nr));
        self.add_state(8);
        Ok(())
    }

    #[verifier::rlimit(100)]
    pub(crate) fn run_c7(&mut self) -> (r: Result<(), CpuFault>)
        requires
            old(self).wf(),
            old(self).lh5801.timer_state + 64 <= usize::MAX,
            old(self).lh5801.ticks + 64 <= usize::MAX,
        ensures
            clock_advanced(old(self), final(self), r),
            !is_illegal(r),
            !is_illegal_fd(r),
            r is Err <==> effects::op_c7_fails(old(self)@),
            r is Err ==> r == Err::<(), CpuFault>(CpuFault::DebugTrap),
            r is Ok ==> final(self)@ == effects::op_c7(old(self)@),
    {
        proof { reveal(effects::op_c7); }
        let nr = self.cpu_readop();
        let ghost m1 = self@;
        assert(m1 == old(self)@.skip_s(1));
        let v235 = self.get_half_carry_flag();
        self.vector(v235, nr)?;
        assert(self@ == m1.vector_s(v235, nr));
        self.add_state(8);
        Ok(())
    }

    #[verifier::rlimit(100)]
    pub(crate) fn run_c9(&mut self) -> (r: Result<(), CpuFault>)
        requires
            old(self).wf(),
            old(self).lh5801.timer_state + 64 <= usize::MAX,
            old(self).lh5801.ticks + 64 <= usize::MAX,
        ensures
            clock_advanced(old(self), final(self), r),
            !is_illegal(r),
            !is_illegal_fd(r),
            r is Err <==> effects::op_c9_fails(old(self)@),
            r is Err ==> r == Err::<(), CpuFault>(CpuFault::DebugTrap),
            r is Ok ==> final(self)@ == effects::op_c9(old(self)@),
    {
        proof { reveal(effects::op_c9); }
        let nr = self.cpu_readop();
        let ghost m1 = self@;
        assert(m1 == old(self)@.skip_s(1));
        let v236 = !self.get_zero_flag();
        self.vector(v236, nr)?;
        assert(self@ == m1.vector_s(v236, nr));
        self.add_state(8);
        Ok(())
    }

    #[verifier::rlimit(100)]
    pub(crate) fn run_cb(&mut self) -> (r: Result<(), CpuFault>)
        requires
            old(self).wf(),
            old(self).lh5801.timer_state + 64 <= usize::MAX,
            old(self).lh5801.ticks + 64 <= usize::MAX,
        ensures
            clock_advanced(old(self), final(self), r),
            !is_illegal(r),
            !is_illegal_fd(r),
            r is Err <==> effects::op_cb_fails(old(self)@),
            r is Err ==> r == Err::<(), CpuFault>(CpuFault::DebugTrap),
            r is Ok ==> final(self)@ == effects::op_cb(old(self)@),
    {
        proof { reveal(effects::op_cb); }
        let nr = self.cpu_readop();
        let ghost m1 = self@;
        assert(m1 == old(self)@.skip_s(1));
        let v237 = self.get_zero_flag();
        self.vector(v237, nr)?;
        assert(self@ == m1.vector_s(v237, nr));
        self.add_state(8);
        Ok(())
    }

    #[verifier::rlimit(100)]
    pub(crate) fn run_cf(&mut self) -> (r: Result<(), CpuFault>)
        requires
            old(self).wf(),
            old(self).lh5801.timer_state + 64 <= usize::MAX,
            old(self).lh5801.ticks + 64 <= usize::MAX,
        ensures
            clock_advanced(old(self), final(self), r),
            !is_illegal(r),
            !is_illegal_fd(r),
            r is Err <==> effects::op_cf_fails(old(self)@),
            r is Err ==> r == Err::<(), CpuFault>(CpuFault::DebugTrap),
            r is Ok ==> final(self)@ == effects::op_cf(old(self)@),
    {
        proof { reveal(effects::op_cf); }
        let nr = self.cpu_readop();
        let ghost m1 = self@;
        assert(m1 == old(self)@.skip_s(1));
        let v238 = self.get_overflow_flag();
        self.vector(v238, nr)?;
        assert(self@ == m1.vector_s(v238, nr));
        self.add_state(8);
        Ok(())
    }

    #[verifier::rlimit(100)]
    pub(crate) fn run_f5(&mut self) -> (r: Result<(), CpuFault>)
        requires
            old(self).wf(),
            old(self).lh5801.timer_state + 64 <= usize::MAX,
            old(self).lh5801.ticks + 64 <= usize::MAX,
        ensures
            clock_advanced(old(self), final(self), r),
            !is_illegal(r),
            !is_illegal_fd(r),
            r is Ok,
            r is Ok ==> final(self)@ == effects::op_f5(old(self)@),
    {
        proof { reveal(effects::op_f5); }
        let x = self.lh5801.x;
        let y = self.lh5801.y;
        let val = self.cpu_readmem(x as u32);
        self.lh5801 = Lh5801 { x: x.wrapping_add(1), ..self.lh5801 };
        let ghost m1 = self@;
        assert(m1 == old(self)@.with_cpu(Lh5801 { x: inc16(old(self).lh5801.x), ..old(self).lh5801 }));
        self.cpu_writemem(y as u32, val);
        assert(self@ == m1.mem_write(y as u32, val));
        self.lh5801 = Lh5801 { y: y.wrapping_add(1), ..self.lh5801 };
        self.add_state(7);
        Ok(())
    }

}

} // verus!
