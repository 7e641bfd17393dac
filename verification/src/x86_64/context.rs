use vstd::prelude::*;

verus! {

/// The saved state of the floating point unit.
#[derive(Clone, Debug)]
pub struct FpuContext {
    pub data: [u8; 512],
}

/// The saved registers of the processor, in the order in which they are
/// stored: the stack pointer comes last.
#[derive(Clone, Copy, Debug, PartialEq, Eq, Structural)]
pub struct CpuContext {
    pub rip: u64,
    pub rflags: u64,
    pub rax: u64,
    pub rcx: u64,
    pub rdx: u64,
    pub rbx: u64,
    pub rbp: u64,
    pub rsi: u64,
    pub rdi: u64,
    pub r8: u64,
    pub r9: u64,
    pub r10: u64,
    pub r11: u64,
    pub r12: u64,
    pub r13: u64,
    pub r14: u64,
    pub r15: u64,
    pub rsp: u64,
}

impl CpuContext {
    /// The registers in the order in which they are stored.
    pub open spec fn spec_frame(&self) -> Seq<u64> {
        seq![
            self.rip, self.rflags, self.rax, self.rcx, self.rdx, self.rbx, self.rbp, self.rsi,
            self.rdi, self.r8, self.r9, self.r10, self.r11, self.r12, self.r13, self.r14,
            self.r15, self.rsp,
        ]
    }

    /// Every register zero.
    pub fn default() -> (r: CpuContext)
        ensures
            r.spec_frame() == Seq::new(18, |i: int| 0u64),
    {
        let r = CpuContext {
            rip: 0,
            rflags: 0,
            rax: 0,
            rcx: 0,
            rdx: 0,
            rbx: 0,
            rbp: 0,
            rsi: 0,
            rdi: 0,
            r8: 0,
            r9: 0,
            r10: 0,
            r11: 0,
            r12: 0,
            r13: 0,
            r14: 0,
            r15: 0,
            rsp: 0,
        };
        assert(r.spec_frame() =~= Seq::new(18, |i: int| 0u64));
        r
    }

    /// The registers in the order in which they are stored, so that the
    /// whole can be pushed and popped as one frame.
    pub fn frame(&self) -> (r: [u64; 18])
        ensures
            r@ == self.spec_frame(),
    {
        let r = [
            self.rip, self.rflags, self.rax, self.rcx, self.rdx, self.rbx, self.rbp, self.rsi,
            self.rdi, self.r8, self.r9, self.r10, self.r11, self.r12, self.r13, self.r14,
            self.r15, self.rsp,
        ];
        assert(r@ =~= self.spec_frame());
        r
    }
}

/// The complete saved state of one side of a privilege transition.
#[derive(Clone, Debug)]
pub struct ExecutionContext {
    pub fpu: FpuContext,
    pub cpu: CpuContext,
}

impl ExecutionContext {
    /// The state with every byte zero.
    pub fn default() -> (r: ExecutionContext)
        ensures
            r.fpu.data@ == Seq::new(512, |i: int| 0u8),
            r.cpu.spec_frame() == Seq::new(18, |i: int| 0u64),
    {
        let r = ExecutionContext { fpu: FpuContext { data: [0u8;512] }, cpu: CpuContext::default() };
        assert(r.fpu.data@ =~= Seq::new(512, |i: int| 0u8));
        r
    }
}

/// What the kernel does when the application hands control back.
#[derive(Debug, Copy, Clone, PartialEq, Eq, Structural)]
pub enum AppStep {
    /// The application has returned with this code.
    Exit(i64),
    /// The application has yielded: let the other tasks run, then enter it
    /// again.
    Yield,
}

/// Decides what to do when the application hands control back with the
/// exit reason `exit_reason` and the return code `retcode`: a reason of
/// zero means that it has returned, any other that it has yielded.
pub fn app_step(exit_reason: i64, retcode: i64) -> (r: AppStep)
    ensures
        exit_reason == 0 ==> r == AppStep::Exit(retcode),
        exit_reason != 0 ==> r == AppStep::Yield,
{
    if exit_reason == 0 {
        AppStep::Exit(retcode)
    } else {
        AppStep::Yield
    }
}

} // verus!
