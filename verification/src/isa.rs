// Instruction decoding of the LH5801: the opcode map and its execution.
use vstd::prelude::*;
use crate::{Pc1500, Pc1500View};
use crate::lh5801::{CpuFault, inc16, me1_of};
use crate::effects::{main_effect, fd_effect, main_fails, fd_fails, fails_00, fails_10, fails_20, fails_30, fails_40, fails_50, fails_60, fails_70, fails_80, fails_90, fails_a0, fails_b0, fails_c0, fails_d0, fails_e0, fails_f0, fails_fd_00, fails_fd_20, fails_fd_40, fails_fd_60, fails_fd_80, fails_fd_a0, fails_fd_c0, fails_fd_e0, effect_00, effect_10, effect_20, effect_30, effect_40, effect_50, effect_60, effect_70, effect_80, effect_90, effect_a0, effect_b0, effect_c0, effect_d0, effect_e0, effect_f0, effect_fd_00, effect_fd_20, effect_fd_40, effect_fd_60, effect_fd_80, effect_fd_a0, effect_fd_c0, effect_fd_e0};

verus! {

/// The step stopped on an opcode the CPU does not define.
pub open spec fn is_illegal(r: Result<(), CpuFault>) -> bool {
    r matches Err(CpuFault::IllegalOpcode { .. })
}

/// The step stopped on an undefined opcode after the FD prefix.
pub open spec fn is_illegal_fd(r: Result<(), CpuFault>) -> bool {
    r matches Err(CpuFault::IllegalFdOpcode { .. })
}

/// An instruction keeps the machine well formed, advances machine time and
/// the tick counter together by at most 40 cycles, and by at least one
/// cycle when it completes.
pub open spec fn clock_advanced(a: &Pc1500, b: &Pc1500, r: Result<(), CpuFault>) -> bool {
    &&& b.wf()
    &&& a.lh5801.ticks <= b.lh5801.ticks <= a.lh5801.ticks + 40
    &&& b.lh5801.timer_state - a.lh5801.timer_state == b.lh5801.ticks - a.lh5801.ticks
    &&& (r is Ok ==> b.lh5801.ticks > a.lh5801.ticks)
    &&& b.lh5801.reset_flag == a.lh5801.reset_flag
}

impl Pc1500 {
    /// Executes the instruction after an FD prefix.
    #[verifier::rlimit(100)]
    pub(crate) fn instruction_fd(&mut self) -> (r: Result<(), CpuFault>)
        requires
            old(self).wf(),
            old(self).lh5801.timer_state + 64 <= usize::MAX,
            old(self).lh5801.ticks + 64 <= usize::MAX,
        ensures
            clock_advanced(old(self), final(self), r),
            !is_illegal(r),
            is_illegal_fd(r) <==> !fd_opcode(old(self)@.mem_read(old(self).lh5801.p as u32)),
            r is Ok ==> final(self)@ == fd_effect(old(self)@.mem_read(old(self).lh5801.p as u32), old(self)@.skip_s(1)),
            fd_opcode(old(self)@.mem_read(old(self).lh5801.p as u32)) ==> (r is Err <==> fd_fails(old(self)@.mem_read(old(self).lh5801.p as u32), old(self)@.skip_s(1))),
    {
        let oper = self.cpu_readop();
        if oper < 0x20 {
            self.exec_fd_00(oper)
        } else if oper < 0x40 {
            self.exec_fd_20(oper)
        } else if oper < 0x60 {
            self.exec_fd_40(oper)
        } else if oper < 0x80 {
            self.exec_fd_60(oper)
        } else if oper < 0xa0 {
            self.exec_fd_80(oper)
        } else if oper < 0xc0 {
            self.exec_fd_a0(oper)
        } else if oper < 0xe0 {
            self.exec_fd_c0(oper)
        } else {
            self.exec_fd_e0(oper)
        }
    }

    /// Fetches and executes one instruction.
    #[verifier::rlimit(100)]
    pub(crate) fn instruction(&mut self) -> (r: Result<(), CpuFault>)
        requires
            old(self).wf(),
            old(self).lh5801.timer_state + 64 <= usize::MAX,
            old(self).lh5801.ticks + 64 <= usize::MAX,
        ensures
            clock_advanced(old(self), final(self), r),
            ({
                let op = old(self)@.mem_read(old(self).lh5801.p as u32);
                let op2 = old(self)@.mem_read(inc16(old(self).lh5801.p) as u32);
                &&& (is_illegal(r) <==> !main_opcode(op))
                &&& (is_illegal_fd(r) <==> op == 0xfd && !fd_opcode(op2))
                &&& (r is Ok && op != 0xfd ==> final(self)@ == main_effect(op, old(self)@.skip_s(1)))
                &&& (r is Ok && op == 0xfd ==> final(self)@ == fd_effect(op2, old(self)@.skip_s(1).skip_s(1)))
                &&& (op != 0xfd && main_opcode(op) ==> (r is Err <==> main_fails(op, old(self)@.skip_s(1))))
                &&& (op == 0xfd && fd_opcode(op2) ==> (r is Err <==> fd_fails(op2, old(self)@.skip_s(1).skip_s(1))))
            }),
    {
        let oper = self.cpu_readop();
        if oper == 0xfd {
            return self.instruction_fd();
        }
        if oper < 0x10 {
            self.exec_00(oper)
        } else if oper < 0x20 {
            self.exec_10(oper)
        } else if oper < 0x30 {
            self.exec_20(oper)
        } else if oper < 0x40 {
            self.exec_30(oper)
        } else if oper < 0x50 {
            self.exec_40(oper)
        } else if oper < 0x60 {
            self.exec_50(oper)
        } else if oper < 0x70 {
            self.exec_60(oper)
        } else if oper < 0x80 {
            self.exec_70(oper)
        } else if oper < 0x90 {
            self.exec_80(oper)
        } else if oper < 0xa0 {
            self.exec_90(oper)
        } else if oper < 0xb0 {
            self.exec_a0(oper)
        } else if oper < 0xc0 {
            self.exec_b0(oper)
        } else if oper < 0xd0 {
            self.exec_c0(oper)
        } else if oper < 0xe0 {
            self.exec_d0(oper)
        } else if oper < 0xf0 {
            self.exec_e0(oper)
        } else {
            self.exec_f0(oper)
        }
    }
}

/// Opcodes the LH5801 defines without prefix.
pub open spec fn main_opcode(op: u8) -> bool {
        op == 0x00 || op == 0x01 || op == 0x02 || op == 0x03 || op == 0x04 || op == 0x05 ||
        op == 0x06 || op == 0x07 || op == 0x08 || op == 0x09 || op == 0x0a || op == 0x0b ||
        op == 0x0c || op == 0x0d || op == 0x0e || op == 0x0f || op == 0x10 || op == 0x11 ||
        op == 0x12 || op == 0x13 || op == 0x14 || op == 0x15 || op == 0x16 || op == 0x17 ||
        op == 0x18 || op == 0x19 || op == 0x1a || op == 0x1b || op == 0x1c || op == 0x1d ||
        op == 0x1e || op == 0x1f || op == 0x20 || op == 0x21 || op == 0x22 || op == 0x23 ||
        op == 0x24 || op == 0x25 || op == 0x26 || op == 0x27 || op == 0x28 || op == 0x29 ||
        op == 0x2a || op == 0x2b || op == 0x2c || op == 0x2d || op == 0x2e || op == 0x2f ||
        op == 0x30 || op == 0x32 || op == 0x34 || op == 0x36 || op == 0x38 || op == 0x40 ||
        op == 0x41 || op == 0x42 || op == 0x43 || op == 0x44 || op == 0x45 || op == 0x46 ||
        op == 0x47 || op == 0x48 || op == 0x49 || op == 0x4a || op == 0x4b || op == 0x4c ||
        op == 0x4d || op == 0x4e || op == 0x4f || op == 0x50 || op == 0x51 || op == 0x52 ||
        op == 0x53 || op == 0x54 || op == 0x55 || op == 0x56 || op == 0x57 || op == 0x58 ||
        op == 0x59 || op == 0x5a || op == 0x5b || op == 0x5c || op == 0x5d || op == 0x5e ||
        op == 0x5f || op == 0x60 || op == 0x61 || op == 0x62 || op == 0x63 || op == 0x64 ||
        op == 0x65 || op == 0x66 || op == 0x67 || op == 0x68 || op == 0x69 || op == 0x6a ||
        op == 0x6b || op == 0x6c || op == 0x6d || op == 0x6e || op == 0x6f || op == 0x80 ||
        op == 0x81 || op == 0x82 || op == 0x83 || op == 0x84 || op == 0x85 || op == 0x86 ||
        op == 0x87 || op == 0x88 || op == 0x89 || op == 0x8a || op == 0x8b || op == 0x8c ||
        op == 0x8d || op == 0x8e || op == 0x8f || op == 0x90 || op == 0x91 || op == 0x92 ||
        op == 0x93 || op == 0x94 || op == 0x95 || op == 0x96 || op == 0x97 || op == 0x99 ||
        op == 0x9a || op == 0x9b || op == 0x9c || op == 0x9d || op == 0x9e || op == 0x9f ||
        op == 0xa0 || op == 0xa1 || op == 0xa2 || op == 0xa3 || op == 0xa4 || op == 0xa5 ||
        op == 0xa6 || op == 0xa7 || op == 0xa8 || op == 0xa9 || op == 0xaa || op == 0xab ||
        op == 0xac || op == 0xad || op == 0xae || op == 0xaf || op == 0xb1 || op == 0xb3 ||
        op == 0xb5 || op == 0xb7 || op == 0xb8 || op == 0xb9 || op == 0xba || op == 0xbb ||
        op == 0xbd || op == 0xbe || op == 0xbf || op == 0xc0 || op == 0xc1 || op == 0xc2 ||
        op == 0xc3 || op == 0xc4 || op == 0xc5 || op == 0xc6 || op == 0xc7 || op == 0xc8 ||
        op == 0xc9 || op == 0xca || op == 0xcb || op == 0xcc || op == 0xcd || op == 0xce ||
        op == 0xcf || op == 0xd0 || op == 0xd1 || op == 0xd2 || op == 0xd3 || op == 0xd4 ||
        op == 0xd5 || op == 0xd6 || op == 0xd7 || op == 0xd8 || op == 0xd9 || op == 0xda ||
        op == 0xdb || op == 0xdc || op == 0xdd || op == 0xde || op == 0xdf || op == 0xe0 ||
        op == 0xe1 || op == 0xe2 || op == 0xe3 || op == 0xe4 || op == 0xe6 || op == 0xe8 ||
        op == 0xe9 || op == 0xea || op == 0xeb || op == 0xec || op == 0xed || op == 0xee ||
        op == 0xef || op == 0xf0 || op == 0xf1 || op == 0xf2 || op == 0xf4 || op == 0xf5 ||
        op == 0xf6 || op == 0xf7 || op == 0xf9 || op == 0xfb || op == 0xfd
}

/// Opcodes the LH5801 defines after the FD prefix.
pub open spec fn fd_opcode(op: u8) -> bool {
        op == 0x01 || op == 0x03 || op == 0x05 || op == 0x07 || op == 0x08 || op == 0x09 ||
        op == 0x0a || op == 0x0b || op == 0x0c || op == 0x0d || op == 0x0e || op == 0x0f ||
        op == 0x11 || op == 0x13 || op == 0x15 || op == 0x17 || op == 0x18 || op == 0x19 ||
        op == 0x1a || op == 0x1b || op == 0x1c || op == 0x1d || op == 0x1e || op == 0x1f ||
        op == 0x21 || op == 0x23 || op == 0x25 || op == 0x27 || op == 0x28 || op == 0x29 ||
        op == 0x2a || op == 0x2b || op == 0x2c || op == 0x2d || op == 0x2e || op == 0x2f ||
        op == 0x3a || op == 0x40 || op == 0x42 || op == 0x48 || op == 0x49 || op == 0x4a ||
        op == 0x4b || op == 0x4c || op == 0x4d || op == 0x4e || op == 0x4f || op == 0x50 ||
        op == 0x52 || op == 0x58 || op == 0x59 || op == 0x5a || op == 0x5b || op == 0x5d ||
        op == 0x5e || op == 0x5f || op == 0x60 || op == 0x62 || op == 0x69 || op == 0x6a ||
        op == 0x6b || op == 0x6d || op == 0x6f || op == 0x81 || op == 0x88 || op == 0x8a ||
        op == 0x8c || op == 0x98 || op == 0x9c || op == 0xa1 || op == 0xa3 || op == 0xa5 ||
        op == 0xa7 || op == 0xa8 || op == 0xa9 || op == 0xaa || op == 0xab || op == 0xac ||
        op == 0xad || op == 0xae || op == 0xaf || op == 0xb1 || op == 0xba || op == 0xbe ||
        op == 0xc0 || op == 0xc1 || op == 0xc8 || op == 0xca || op == 0xcc || op == 0xce ||
        op == 0xd3 || op == 0xd7 || op == 0xda || op == 0xde || op == 0xe9 || op == 0xea ||
        op == 0xeb || op == 0xec || op == 0xed || op == 0xef
}

impl Pc1500 {
    #[verifier::rlimit(100)]
    fn exec_00(&mut self, oper: u8) -> (r: Result<(), CpuFault>)
        requires
            old(self).wf(),
            0 <= oper < 16,
            oper != 0xfd,
            old(self).lh5801.timer_state + 64 <= usize::MAX,
            old(self).lh5801.ticks + 64 <= usize::MAX,
        ensures
            clock_advanced(old(self), final(self), r),
            main_opcode(oper) ==> (r is Err <==> fails_00(oper, old(self)@)),
            r is Ok ==> final(self)@ == effect_00(oper, old(self)@),
            is_illegal(r) <==> !main_opcode(oper),
            !is_illegal_fd(r),
    {
        proof { reveal(effect_00); reveal(fails_00); }
        match oper {
            0x00 => self.run_00(),
            0x01 => self.run_01(),
            0x02 => self.run_02(),
            0x03 => self.run_03(),
            0x04 => self.run_04(),
            0x05 => self.run_05(),
            0x06 => self.run_06(),
            0x07 => self.run_07(),
            0x08 => self.run_08(),
            0x09 => self.run_09(),
            0x0a => self.run_0a(),
            0x0b => self.run_0b(),
            0x0c => self.run_0c(),
            0x0d => self.run_0d(),
            0x0e => self.run_0e(),
            0x0f => self.run_0f(),
            _ => Err(CpuFault::IllegalOpcode { op: oper, pc: self.lh5801.p.wrapping_sub(1) }),
        }
    }

    #[verifier::rlimit(100)]
    fn exec_10(&mut self, oper: u8) -> (r: Result<(), CpuFault>)
        requires
            old(self).wf(),
            16 <= oper < 32,
            oper != 0xfd,
            old(self).lh5801.timer_state + 64 <= usize::MAX,
            old(self).lh5801.ticks + 64 <= usize::MAX,
        ensures
            clock_advanced(old(self), final(self), r),
            main_opcode(oper) ==> (r is Err <==> fails_10(oper, old(self)@)),
            r is Ok ==> final(self)@ == effect_10(oper, old(self)@),
            is_illegal(r) <==> !main_opcode(oper),
            !is_illegal_fd(r),
    {
        proof { reveal(effect_10); reveal(fails_10); }
        match oper {
            0x10 => self.run_10(),
            0x11 => self.run_11(),
            0x12 => self.run_12(),
            0x13 => self.run_13(),
            0x14 => self.run_14(),
            0x15 => self.run_15(),
            0x16 => self.run_16(),
            0x17 => self.run_17(),
            0x18 => self.run_18(),
            0x19 => self.run_19(),
            0x1a => self.run_1a(),
            0x1b => self.run_1b(),
            0x1c => self.run_1c(),
            0x1d => self.run_1d(),
            0x1e => self.run_1e(),
            0x1f => self.run_1f(),
            _ => Err(CpuFault::IllegalOpcode { op: oper, pc: self.lh5801.p.wrapping_sub(1) }),
        }
    }

    #[verifier::rlimit(100)]
    fn exec_20(&mut self, oper: u8) -> (r: Result<(), CpuFault>)
        requires
            old(self).wf(),
            32 <= oper < 48,
            oper != 0xfd,
            old(self).lh5801.timer_state + 64 <= usize::MAX,
            old(self).lh5801.ticks + 64 <= usize::MAX,
        ensures
            clock_advanced(old(self), final(self), r),
            main_opcode(oper) ==> (r is Err <==> fails_20(oper, old(self)@)),
            r is Ok ==> final(self)@ == effect_20(oper, old(self)@),
            is_illegal(r) <==> !main_opcode(oper),
            !is_illegal_fd(r),
    {
        proof { reveal(effect_20); reveal(fails_20); }
        match oper {
            0x20 => self.run_20(),
            0x21 => self.run_21(),
            0x22 => self.run_22(),
            0x23 => self.run_23(),
            0x24 => self.run_24(),
            0x25 => self.run_25(),
            0x26 => self.run_26(),
            0x27 => self.run_27(),
            0x28 => self.run_28(),
            0x29 => self.run_29(),
            0x2a => self.run_2a(),
            0x2b => self.run_2b(),
            0x2c => self.run_2c(),
            0x2d => self.run_2d(),
            0x2e => self.run_2e(),
            0x2f => self.run_2f(),
            _ => Err(CpuFault::IllegalOpcode { op: oper, pc: self.lh5801.p.wrapping_sub(1) }),
        }
    }

    #[verifier::rlimit(100)]
    fn exec_30(&mut self, oper: u8) -> (r: Result<(), CpuFault>)
        requires
            old(self).wf(),
            48 <= oper < 64,
            oper != 0xfd,
            old(self).lh5801.timer_state + 64 <= usize::MAX,
            old(self).lh5801.ticks + 64 <= usize::MAX,
        ensures
            clock_advanced(old(self), final(self), r),
            main_opcode(oper) ==> (r is Err <==> fails_30(oper, old(self)@)),
            r is Ok ==> final(self)@ == effect_30(oper, old(self)@),
            is_illegal(r) <==> !main_opcode(oper),
            !is_illegal_fd(r),
    {
        proof { reveal(effect_30); reveal(fails_30); }
        match oper {
            0x30 => self.run_30(),
            0x32 => self.run_32(),
            0x34 => self.run_34(),
            0x36 => self.run_36(),
            0x38 => self.run_38(),
            _ => Err(CpuFault::IllegalOpcode { op: oper, pc: self.lh5801.p.wrapping_sub(1) }),
        }
    }

    #[verifier::rlimit(100)]
    fn exec_40(&mut self, oper: u8) -> (r: Result<(), CpuFault>)
        requires
            old(self).wf(),
            64 <= oper < 80,
            oper != 0xfd,
            old(self).lh5801.timer_state + 64 <= usize::MAX,
            old(self).lh5801.ticks + 64 <= usize::MAX,
        ensures
            clock_advanced(old(self), final(self), r),
            main_opcode(oper) ==> (r is Err <==> fails_40(oper, old(self)@)),
            r is Ok ==> final(self)@ == effect_40(oper, old(self)@),
            is_illegal(r) <==> !main_opcode(oper),
            !is_illegal_fd(r),
    {
        proof { reveal(effect_40); reveal(fails_40); }
        match oper {
            0x40 => self.run_40(),
            0x41 => self.run_41(),
            0x42 => self.run_42(),
            0x43 => self.run_43(),
            0x44 => self.run_44(),
            0x45 => self.run_45(),
            0x46 => self.run_46(),
            0x47 => self.run_47(),
            0x48 => self.run_48(),
            0x49 => self.run_49(),
            0x4a => self.run_4a(),
            0x4b => self.run_4b(),
            0x4c => self.run_4c(),
            0x4d => self.run_4d(),
            0x4e => self.run_4e(),
            0x4f => self.run_4f(),
            _ => Err(CpuFault::IllegalOpcode { op: oper, pc: self.lh5801.p.wrapping_sub(1) }),
        }
    }

    #[verifier::rlimit(100)]
    fn exec_50(&mut self, oper: u8) -> (r: Result<(), CpuFault>)
        requires
            old(self).wf(),
            80 <= oper < 96,
            oper != 0xfd,
            old(self).lh5801.timer_state + 64 <= usize::MAX,
            old(self).lh5801.ticks + 64 <= usize::MAX,
        ensures
            clock_advanced(old(self), final(self), r),
            main_opcode(oper) ==> (r is Err <==> fails_50(oper, old(self)@)),
            r is Ok ==> final(self)@ == effect_50(oper, old(self)@),
            is_illegal(r) <==> !main_opcode(oper),
            !is_illegal_fd(r),
    {
        proof { reveal(effect_50); reveal(fails_50); }
        match oper {
            0x50 => self.run_50(),
            0x51 => self.run_51(),
            0x52 => self.run_52(),
            0x53 => self.run_53(),
            0x54 => self.run_54(),
            0x55 => self.run_55(),
            0x56 => self.run_56(),
            0x57 => self.run_57(),
            0x58 => self.run_58(),
            0x59 => self.run_59(),
            0x5a => self.run_5a(),
            0x5b => self.run_5b(),
            0x5c => self.run_5c(),
            0x5d => self.run_5d(),
            0x5e => self.run_5e(),
            0x5f => self.run_5f(),
            _ => Err(CpuFault::IllegalOpcode { op: oper, pc: self.lh5801.p.wrapping_sub(1) }),
        }
    }

    #[verifier::rlimit(100)]
    fn exec_60(&mut self, oper: u8) -> (r: Result<(), CpuFault>)
        requires
            old(self).wf(),
            96 <= oper < 112,
            oper != 0xfd,
            old(self).lh5801.timer_state + 64 <= usize::MAX,
            old(self).lh5801.ticks + 64 <= usize::MAX,
        ensures
            clock_advanced(old(self), final(self), r),
            main_opcode(oper) ==> (r is Err <==> fails_60(oper, old(self)@)),
            r is Ok ==> final(self)@ == effect_60(oper, old(self)@),
            is_illegal(r) <==> !main_opcode(oper),
            !is_illegal_fd(r),
    {
        proof { reveal(effect_60); reveal(fails_60); }
        match oper {
            0x60 => self.run_60(),
            0x61 => self.run_61(),
            0x62 => self.run_62(),
            0x63 => self.run_63(),
            0x64 => self.run_64(),
            0x65 => self.run_65(),
            0x66 => self.run_66(),
            0x67 => self.run_67(),
            0x68 => self.run_68(),
            0x69 => self.run_69(),
            0x6a => self.run_6a(),
            0x6b => self.run_6b(),
            0x6c => self.run_6c(),
            0x6d => self.run_6d(),
            0x6e => self.run_6e(),
            0x6f => self.run_6f(),
            _ => Err(CpuFault::IllegalOpcode { op: oper, pc: self.lh5801.p.wrapping_sub(1) }),
        }
    }

    #[verifier::rlimit(100)]
    fn exec_70(&mut self, oper: u8) -> (r: Result<(), CpuFault>)
        requires
            old(self).wf(),
            112 <= oper < 128,
            oper != 0xfd,
            old(self).lh5801.timer_state + 64 <= usize::MAX,
            old(self).lh5801.ticks + 64 <= usize::MAX,
        ensures
            clock_advanced(old(self), final(self), r),
            main_opcode(oper) ==> (r is Err <==> fails_70(oper, old(self)@)),
            r is Ok ==> final(self)@ == effect_70(oper, old(self)@),
            is_illegal(r) <==> !main_opcode(oper),
            !is_illegal_fd(r),
    {
        proof { reveal(effect_70); reveal(fails_70); }
        Err(CpuFault::IllegalOpcode { op: oper, pc: self.lh5801.p.wrapping_sub(1) })
    }

    #[verifier::rlimit(100)]
    fn exec_80(&mut self, oper: u8) -> (r: Result<(), CpuFault>)
        requires
            old(self).wf(),
            128 <= oper < 144,
            oper != 0xfd,
            old(self).lh5801.timer_state + 64 <= usize::MAX,
            old(self).lh5801.ticks + 64 <= usize::MAX,
        ensures
            clock_advanced(old(self), final(self), r),
            main_opcode(oper) ==> (r is Err <==> fails_80(oper, old(self)@)),
            r is Ok ==> final(self)@ == effect_80(oper, old(self)@),
            is_illegal(r) <==> !main_opcode(oper),
            !is_illegal_fd(r),
    {
        proof { reveal(effect_80); reveal(fails_80); }
        match oper {
            0x80 => self.run_80(),
            0x81 => self.run_81(),
            0x82 => self.run_82(),
            0x83 => self.run_83(),
            0x84 => self.run_84(),
            0x85 => self.run_85(),
            0x86 => self.run_86(),
            0x87 => self.run_87(),
            0x88 => self.run_88(),
            0x89 => self.run_89(),
            0x8a => self.run_8a(),
            0x8b => self.run_8b(),
            0x8c => self.run_8c(),
            0x8d => self.run_8d(),
            0x8e => self.run_8e(),
            0x8f => self.run_8f(),
            _ => Err(CpuFault::IllegalOpcode { op: oper, pc: self.lh5801.p.wrapping_sub(1) }),
        }
    }

    #[verifier::rlimit(100)]
    fn exec_90(&mut self, oper: u8) -> (r: Result<(), CpuFault>)
        requires
            old(self).wf(),
            144 <= oper < 160,
            oper != 0xfd,
            old(self).lh5801.timer_state + 64 <= usize::MAX,
            old(self).lh5801.ticks + 64 <= usize::MAX,
        ensures
            clock_advanced(old(self), final(self), r),
            main_opcode(oper) ==> (r is Err <==> fails_90(oper, old(self)@)),
            r is Ok ==> final(self)@ == effect_90(oper, old(self)@),
            is_illegal(r) <==> !main_opcode(oper),
            !is_illegal_fd(r),
    {
        proof { reveal(effect_90); reveal(fails_90); }
        match oper {
            0x90 => self.run_90(),
            0x91 => self.run_91(),
            0x92 => self.run_92(),
            0x93 => self.run_93(),
            0x94 => self.run_94(),
            0x95 => self.run_95(),
            0x96 => self.run_96(),
            0x97 => self.run_97(),
            0x99 => self.run_99(),
            0x9a => self.run_9a(),
            0x9b => self.run_9b(),
            0x9c => self.run_9c(),
            0x9d => self.run_9d(),
            0x9e => self.run_9e(),
            0x9f => self.run_9f(),
            _ => Err(CpuFault::IllegalOpcode { op: oper, pc: self.lh5801.p.wrapping_sub(1) }),
        }
    }

    #[verifier::rlimit(100)]
    fn exec_a0(&mut self, oper: u8) -> (r: Result<(), CpuFault>)
        requires
            old(self).wf(),
            160 <= oper < 176,
            oper != 0xfd,
            old(self).lh5801.timer_state + 64 <= usize::MAX,
            old(self).lh5801.ticks + 64 <= usize::MAX,
        ensures
            clock_advanced(old(self), final(self), r),
            main_opcode(oper) ==> (r is Err <==> fails_a0(oper, old(self)@)),
            r is Ok ==> final(self)@ == effect_a0(oper, old(self)@),
            is_illegal(r) <==> !main_opcode(oper),
            !is_illegal_fd(r),
    {
        proof { reveal(effect_a0); reveal(fails_a0); }
        match oper {
            0xa0 => self.run_a0(),
            0xa1 => self.run_a1(),
            0xa2 => self.run_a2(),
            0xa3 => self.run_a3(),
            0xa4 => self.run_a4(),
            0xa5 => self.run_a5(),
            0xa6 => self.run_a6(),
            0xa7 => self.run_a7(),
            0xa8 => self.run_a8(),
            0xa9 => self.run_a9(),
            0xaa => self.run_aa(),
            0xab => self.run_ab(),
            0xac => self.run_ac(),
            0xad => self.run_ad(),
            0xae => self.run_ae(),
            0xaf => self.run_af(),
            _ => Err(CpuFault::IllegalOpcode { op: oper, pc: self.lh5801.p.wrapping_sub(1) }),
        }
    }

    #[verifier::rlimit(100)]
    fn exec_b0(&mut self, oper: u8) -> (r: Result<(), CpuFault>)
        requires
            old(self).wf(),
            176 <= oper < 192,
            oper != 0xfd,
            old(self).lh5801.timer_state + 64 <= usize::MAX,
            old(self).lh5801.ticks + 64 <= usize::MAX,
        ensures
            clock_advanced(old(self), final(self), r),
            main_opcode(oper) ==> (r is Err <==> fails_b0(oper, old(self)@)),
            r is Ok ==> final(self)@ == effect_b0(oper, old(self)@),
            is_illegal(r) <==> !main_opcode(oper),
            !is_illegal_fd(r),
    {
        proof { reveal(effect_b0); reveal(fails_b0); }
        match oper {
            0xb1 => self.run_b1(),
            0xb3 => self.run_b3(),
            0xb5 => self.run_b5(),
            0xb7 => self.run_b7(),
            0xb8 => self.run_b8(),
            0xb9 => self.run_b9(),
            0xba => self.run_ba(),
            0xbb => self.run_bb(),
            0xbd => self.run_bd(),
            0xbe => self.run_be(),
            0xbf => self.run_bf(),
            _ => Err(CpuFault::IllegalOpcode { op: oper, pc: self.lh5801.p.wrapping_sub(1) }),
        }
    }

    #[verifier::rlimit(100)]
    fn exec_c0(&mut self, oper: u8) -> (r: Result<(), CpuFault>)
        requires
            old(self).wf(),
            192 <= oper < 208,
            oper != 0xfd,
            old(self).lh5801.timer_state + 64 <= usize::MAX,
            old(self).lh5801.ticks + 64 <= usize::MAX,
        ensures
            clock_advanced(old(self), final(self), r),
            main_opcode(oper) ==> (r is Err <==> fails_c0(oper, old(self)@)),
            r is Ok ==> final(self)@ == effect_c0(oper, old(self)@),
            is_illegal(r) <==> !main_opcode(oper),
            !is_illegal_fd(r),
    {
        proof { reveal(effect_c0); reveal(fails_c0); }
        match oper {
            0xc1 => self.run_c1(),
            0xc3 => self.run_c3(),
            0xc5 => self.run_c5(),
            0xc7 => self.run_c7(),
            0xc9 => self.run_c9(),
            0xcb => self.run_cb(),
            0xcd => self.run_cd(),
            0xcf => self.run_cf(),
            0xc0 | 0xc2 | 0xc4 | 0xc6 | 0xc8 | 0xca | 0xcc | 0xce => self.run_c0(oper),
            _ => Err(CpuFault::IllegalOpcode { op: oper, pc: self.lh5801.p.wrapping_sub(1) }),
        }
    }

    #[verifier::rlimit(100)]
    fn exec_d0(&mut self, oper: u8) -> (r: Result<(), CpuFault>)
        requires
            old(self).wf(),
            208 <= oper < 224,
            oper != 0xfd,
            old(self).lh5801.timer_state + 64 <= usize::MAX,
            old(self).lh5801.ticks + 64 <= usize::MAX,
        ensures
            clock_advanced(old(self), final(self), r),
            main_opcode(oper) ==> (r is Err <==> fails_d0(oper, old(self)@)),
            r is Ok ==> final(self)@ == effect_d0(oper, old(self)@),
            is_illegal(r) <==> !main_opcode(oper),
            !is_illegal_fd(r),
    {
        proof { reveal(effect_d0); reveal(fails_d0); }
        match oper {
            0xd1 => self.run_d1(),
            0xd3 => self.run_d3(),
            0xd5 => self.run_d5(),
            0xd7 => self.run_d7(),
            0xd9 => self.run_d9(),
            0xdb => self.run_db(),
            0xdd => self.run_dd(),
            0xdf => self.run_df(),
            0xd0 | 0xd2 | 0xd4 | 0xd6 | 0xd8 | 0xda | 0xdc | 0xde => self.run_d0(oper),
            _ => Err(CpuFault::IllegalOpcode { op: oper, pc: self.lh5801.p.wrapping_sub(1) }),
        }
    }

    #[verifier::rlimit(100)]
    fn exec_e0(&mut self, oper: u8) -> (r: Result<(), CpuFault>)
        requires
            old(self).wf(),
            224 <= oper < 240,
            oper != 0xfd,
            old(self).lh5801.timer_state + 64 <= usize::MAX,
            old(self).lh5801.ticks + 64 <= usize::MAX,
        ensures
            clock_advanced(old(self), final(self), r),
            main_opcode(oper) ==> (r is Err <==> fails_e0(oper, old(self)@)),
            r is Ok ==> final(self)@ == effect_e0(oper, old(self)@),
            is_illegal(r) <==> !main_opcode(oper),
            !is_illegal_fd(r),
    {
        proof { reveal(effect_e0); reveal(fails_e0); }
        match oper {
            0xe1 => self.run_e1(),
            0xe3 => self.run_e3(),
            0xe9 => self.run_e9(),
            0xeb => self.run_eb(),
            0xed => self.run_ed(),
            0xef => self.run_ef(),
            0xe0 | 0xe2 | 0xe4 | 0xe6 | 0xe8 | 0xea | 0xec | 0xee => self.run_e0(oper),
            _ => Err(CpuFault::IllegalOpcode { op: oper, pc: self.lh5801.p.wrapping_sub(1) }),
        }
    }

    #[verifier::rlimit(100)]
    fn exec_f0(&mut self, oper: u8) -> (r: Result<(), CpuFault>)
        requires
            old(self).wf(),
            240 <= oper < 256,
            oper != 0xfd,
            old(self).lh5801.timer_state + 64 <= usize::MAX,
            old(self).lh5801.ticks + 64 <= usize::MAX,
        ensures
            clock_advanced(old(self), final(self), r),
            main_opcode(oper) ==> (r is Err <==> fails_f0(oper, old(self)@)),
            r is Ok ==> final(self)@ == effect_f0(oper, old(self)@),
            is_illegal(r) <==> !main_opcode(oper),
            !is_illegal_fd(r),
    {
        proof { reveal(effect_f0); reveal(fails_f0); }
        match oper {
            0xf1 => self.run_f1(),
            0xf5 => self.run_f5(),
            0xf7 => self.run_f7(),
            0xf9 => self.run_f9(),
            0xfb => self.run_fb(),
            0xf0 | 0xf2 | 0xf4 | 0xf6 => self.run_f0(oper),
            _ => Err(CpuFault::IllegalOpcode { op: oper, pc: self.lh5801.p.wrapping_sub(1) }),
        }
    }

    #[verifier::rlimit(100)]
    fn exec_fd_00(&mut self, oper: u8) -> (r: Result<(), CpuFault>)
        requires
            old(self).wf(),
            0 <= oper < 32,
            old(self).lh5801.timer_state + 64 <= usize::MAX,
            old(self).lh5801.ticks + 64 <= usize::MAX,
        ensures
            clock_advanced(old(self), final(self), r),
            fd_opcode(oper) ==> (r is Err <==> fails_fd_00(oper, old(self)@)),
            r is Ok ==> final(self)@ == effect_fd_00(oper, old(self)@),
            is_illegal_fd(r) <==> !fd_opcode(oper),
            !is_illegal(r),
    {
        proof { reveal(effect_fd_00); reveal(fails_fd_00); }
        match oper {
            0x01 => self.run_fd_01(),
            0x03 => self.run_fd_03(),
            0x05 => self.run_fd_05(),
            0x07 => self.run_fd_07(),
            0x08 => self.run_fd_08(),
            0x09 => self.run_fd_09(),
            0x0a => self.run_fd_0a(),
            0x0b => self.run_fd_0b(),
            0x0c => self.run_fd_0c(),
            0x0d => self.run_fd_0d(),
            0x0e => self.run_fd_0e(),
            0x0f => self.run_fd_0f(),
            0x11 => self.run_fd_11(),
            0x13 => self.run_fd_13(),
            0x15 => self.run_fd_15(),
            0x17 => self.run_fd_17(),
            0x18 => self.run_fd_18(),
            0x19 => self.run_fd_19(),
            0x1a => self.run_fd_1a(),
            0x1b => self.run_fd_1b(),
            0x1c => self.run_fd_1c(),
            0x1d => self.run_fd_1d(),
            0x1e => self.run_fd_1e(),
            0x1f => self.run_fd_1f(),
            _ => Err(CpuFault::IllegalFdOpcode { op: oper, pc: self.lh5801.p }),
        }
    }

    #[verifier::rlimit(100)]
    fn exec_fd_20(&mut self, oper: u8) -> (r: Result<(), CpuFault>)
        requires
            old(self).wf(),
            32 <= oper < 64,
            old(self).lh5801.timer_state + 64 <= usize::MAX,
            old(self).lh5801.ticks + 64 <= usize::MAX,
        ensures
            clock_advanced(old(self), final(self), r),
            fd_opcode(oper) ==> (r is Err <==> fails_fd_20(oper, old(self)@)),
            r is Ok ==> final(self)@ == effect_fd_20(oper, old(self)@),
            is_illegal_fd(r) <==> !fd_opcode(oper),
            !is_illegal(r),
    {
        proof { reveal(effect_fd_20); reveal(fails_fd_20); }
        match oper {
            0x21 => self.run_fd_21(),
            0x23 => self.run_fd_23(),
            0x25 => self.run_fd_25(),
            0x27 => self.run_fd_27(),
            0x28 => self.run_fd_28(),
            0x29 => self.run_fd_29(),
            0x2a => self.run_fd_2a(),
            0x2b => self.run_fd_2b(),
            0x2c => self.run_fd_2c(),
            0x2d => self.run_fd_2d(),
            0x2e => self.run_fd_2e(),
            0x2f => self.run_fd_2f(),
            0x3a => self.run_fd_3a(),
            _ => Err(CpuFault::IllegalFdOpcode { op: oper, pc: self.lh5801.p }),
        }
    }

    #[verifier::rlimit(100)]
    fn exec_fd_40(&mut self, oper: u8) -> (r: Result<(), CpuFault>)
        requires
            old(self).wf(),
            64 <= oper < 96,
            old(self).lh5801.timer_state + 64 <= usize::MAX,
            old(self).lh5801.ticks + 64 <= usize::MAX,
        ensures
            clock_advanced(old(self), final(self), r),
            fd_opcode(oper) ==> (r is Err <==> fails_fd_40(oper, old(self)@)),
            r is Ok ==> final(self)@ == effect_fd_40(oper, old(self)@),
            is_illegal_fd(r) <==> !fd_opcode(oper),
            !is_illegal(r),
    {
        proof { reveal(effect_fd_40); reveal(fails_fd_40); }
        match oper {
            0x40 => self.run_fd_40(),
            0x42 => self.run_fd_42(),
            0x48 => self.run_fd_48(),
            0x49 => self.run_fd_49(),
            0x4a => self.run_fd_4a(),
            0x4b => self.run_fd_4b(),
            0x4c => self.run_fd_4c(),
            0x4d => self.run_fd_4d(),
            0x4e => self.run_fd_4e(),
            0x4f => self.run_fd_4f(),
            0x50 => self.run_fd_50(),
            0x52 => self.run_fd_52(),
            0x58 => self.run_fd_58(),
            0x59 => self.run_fd_59(),
            0x5a => self.run_fd_5a(),
            0x5b => self.run_fd_5b(),
            0x5d => self.run_fd_5d(),
            0x5e => self.run_fd_5e(),
            0x5f => self.run_fd_5f(),
            _ => Err(CpuFault::IllegalFdOpcode { op: oper, pc: self.lh5801.p }),
        }
    }

    #[verifier::rlimit(100)]
    fn exec_fd_60(&mut self, oper: u8) -> (r: Result<(), CpuFault>)
        requires
            old(self).wf(),
            96 <= oper < 128,
            old(self).lh5801.timer_state + 64 <= usize::MAX,
            old(self).lh5801.ticks + 64 <= usize::MAX,
        ensures
            clock_advanced(old(self), final(self), r),
            fd_opcode(oper) ==> (r is Err <==> fails_fd_60(oper, old(self)@)),
            r is Ok ==> final(self)@ == effect_fd_60(oper, old(self)@),
            is_illegal_fd(r) <==> !fd_opcode(oper),
            !is_illegal(r),
    {
        proof { reveal(effect_fd_60); reveal(fails_fd_60); }
        match oper {
            0x60 => self.run_fd_60(),
            0x62 => self.run_fd_62(),
            0x69 => self.run_fd_69(),
            0x6a => self.run_fd_6a(),
            0x6b => self.run_fd_6b(),
            0x6d => self.run_fd_6d(),
            0x6f => self.run_fd_6f(),
            _ => Err(CpuFault::IllegalFdOpcode { op: oper, pc: self.lh5801.p }),
        }
    }

    #[verifier::rlimit(100)]
    fn exec_fd_80(&mut self, oper: u8) -> (r: Result<(), CpuFault>)
        requires
            old(self).wf(),
            128 <= oper < 160,
            old(self).lh5801.timer_state + 64 <= usize::MAX,
            old(self).lh5801.ticks + 64 <= usize::MAX,
        ensures
            clock_advanced(old(self), final(self), r),
            fd_opcode(oper) ==> (r is Err <==> fails_fd_80(oper, old(self)@)),
            r is Ok ==> final(self)@ == effect_fd_80(oper, old(self)@),
            is_illegal_fd(r) <==> !fd_opcode(oper),
            !is_illegal(r),
    {
        proof { reveal(effect_fd_80); reveal(fails_fd_80); }
        match oper {
            0x81 => self.run_fd_81(),
            0x88 => self.run_fd_88(),
            0x8a => self.run_fd_8a(),
            0x8c => self.run_fd_8c(),
            0x98 => self.run_fd_98(),
            0x9c => self.run_fd_9c(),
            _ => Err(CpuFault::IllegalFdOpcode { op: oper, pc: self.lh5801.p }),
        }
    }

    #[verifier::rlimit(100)]
    fn exec_fd_a0(&mut self, oper: u8) -> (r: Result<(), CpuFault>)
        requires
            old(self).wf(),
            160 <= oper < 192,
            old(self).lh5801.timer_state + 64 <= usize::MAX,
            old(self).lh5801.ticks + 64 <= usize::MAX,
        ensures
            clock_advanced(old(self), final(self), r),
            fd_opcode(oper) ==> (r is Err <==> fails_fd_a0(oper, old(self)@)),
            r is Ok ==> final(self)@ == effect_fd_a0(oper, old(self)@),
            is_illegal_fd(r) <==> !fd_opcode(oper),
            !is_illegal(r),
    {
        proof { reveal(effect_fd_a0); reveal(fails_fd_a0); }
        match oper {
            0xa1 => self.run_fd_a1(),
            0xa3 => self.run_fd_a3(),
            0xa5 => self.run_fd_a5(),
            0xa7 => self.run_fd_a7(),
            0xa8 => self.run_fd_a8(),
            0xa9 => self.run_fd_a9(),
            0xaa => self.run_fd_aa(),
            0xab => self.run_fd_ab(),
            0xac => self.run_fd_ac(),
            0xad => self.run_fd_ad(),
            0xae => self.run_fd_ae(),
            0xaf => self.run_fd_af(),
            0xb1 => self.run_fd_b1(),
            0xba => self.run_fd_ba(),
            0xbe => self.run_fd_be(),
            _ => Err(CpuFault::IllegalFdOpcode { op: oper, pc: self.lh5801.p }),
        }
    }

    #[verifier::rlimit(100)]
    fn exec_fd_c0(&mut self, oper: u8) -> (r: Result<(), CpuFault>)
        requires
            old(self).wf(),
            192 <= oper < 224,
            old(self).lh5801.timer_state + 64 <= usize::MAX,
            old(self).lh5801.ticks + 64 <= usize::MAX,
        ensures
            clock_advanced(old(self), final(self), r),
            fd_opcode(oper) ==> (r is Err <==> fails_fd_c0(oper, old(self)@)),
            r is Ok ==> final(self)@ == effect_fd_c0(oper, old(self)@),
            is_illegal_fd(r) <==> !fd_opcode(oper),
            !is_illegal(r),
    {
        proof { reveal(effect_fd_c0); reveal(fails_fd_c0); }
        match oper {
            0xc0 => self.run_fd_c0(),
            0xc1 => self.run_fd_c1(),
            0xc8 => self.run_fd_c8(),
            0xca => self.run_fd_ca(),
            0xcc => self.run_fd_cc(),
            0xce => self.run_fd_ce(),
            0xd3 => self.run_fd_d3(),
            0xd7 => self.run_fd_d7(),
            0xda => self.run_fd_da(),
            0xde => self.run_fd_de(),
            _ => Err(CpuFault::IllegalFdOpcode { op: oper, pc: self.lh5801.p }),
        }
    }

    #[verifier::rlimit(100)]
    fn exec_fd_e0(&mut self, oper: u8) -> (r: Result<(), CpuFault>)
        requires
            old(self).wf(),
            224 <= oper < 256,
            old(self).lh5801.timer_state + 64 <= usize::MAX,
            old(self).lh5801.ticks + 64 <= usize::MAX,
        ensures
            clock_advanced(old(self), final(self), r),
            fd_opcode(oper) ==> (r is Err <==> fails_fd_e0(oper, old(self)@)),
            r is Ok ==> final(self)@ == effect_fd_e0(oper, old(self)@),
            is_illegal_fd(r) <==> !fd_opcode(oper),
            !is_illegal(r),
    {
        proof { reveal(effect_fd_e0); reveal(fails_fd_e0); }
        match oper {
            0xea => self.run_fd_ea(),
            0xe9 => self.run_fd_e9(),
            0xeb => self.run_fd_eb(),
            0xec => self.run_fd_ec(),
            0xed => self.run_fd_ed(),
            0xef => self.run_fd_ef(),
            _ => Err(CpuFault::IllegalFdOpcode { op: oper, pc: self.lh5801.p }),
        }
    }
}

} // verus!
