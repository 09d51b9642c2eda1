//! Interrupt set-up and the decisions of the IRQ handler.
use vstd::prelude::*;
use crate::regs::{has_flag, RegOp, Register};
use crate::uart::{Uart, UartObserver};

verus! {

/// Core 0 interrupt source: GPU interrupt.
pub const CORE0_IRQ_GPU_INTERRUPT: u32 = 1 << 8;
/// Core 0 timer control: enable the IRQ of the virtual timer.
pub const CORE0_TIMER_IRQ_ENABLE: u32 = 1 << 3;
/// Core 0 interrupt source: timer interrupt.
pub const CORE0_IRQ_TIMER_INTERRUPT: u32 = 1 << 3;
/// Basic pending register: something is pending in pending register 2.
pub const IRQ_BASIC_PENDING2: u32 = 1 << 9;
/// Pending register 2: UART interrupt.
pub const IRQ_PENDING2_UART: u32 = 1 << 25;
/// Disable register 2: UART interrupt.
pub const IRQ_DISABLE2_UART: u32 = 1 << 25;
/// Enable register 2: UART interrupt.
pub const IRQ_ENABLE2_UART: u32 = 1 << 25;

/// Ticks of the virtual timer between two timer interrupts, for a counter
/// that runs at `freq` ticks per second: a ten-thousandth of a second.
pub open spec fn timer_interval_spec(freq: u64) -> u64 {
    freq / 10000
}

/// The reload value of the virtual timer for a counter frequency `freq`.
pub fn timer_interval(freq: u64) -> (r: u64)
    ensures
        r == timer_interval_spec(freq),
{
    freq / 10000
}

/// The register write that routes the virtual timer to an IRQ of core 0.
pub fn timer_enable_op() -> (r: RegOp)
    ensures
        r == RegOp::Write(Register::Core0TimerInterruptCtl, CORE0_TIMER_IRQ_ENABLE),
{
    RegOp::Write(Register::Core0TimerInterruptCtl, CORE0_TIMER_IRQ_ENABLE)
}

/// The register writes of interrupt set-up: unmask the UART interrupt,
/// route GPU interrupts to core 0, then initialise the UART.
pub open spec fn init_ops_spec() -> Seq<RegOp> {
    seq![
        RegOp::Write(Register::IrqEnable2, IRQ_ENABLE2_UART),
        RegOp::Write(Register::GpuInterruptsRouting, 0),
    ] + crate::uart::init_ops()
}

/// One step of interrupt set-up.
#[derive(Clone, Copy, Debug, PartialEq, Eq, Structural)]
pub enum SetupStep {
    /// Perform this register access.
    Access(RegOp),
    /// Load the virtual timer with `timer_interval` of the counter frequency
    /// and perform `timer_enable_op`.
    ReloadTimer,
    /// Start the virtual timer of the CPU.
    StartVirtualTimer,
    /// Unmask IRQs in the CPU.
    UnmaskIrqs,
}

/// Interrupt set-up, in order: the register writes of `init_ops_spec`, then
/// the timer is loaded and started, and IRQs are unmasked last.
pub open spec fn init_steps() -> Seq<SetupStep> {
    init_ops_spec().map_values(|op: RegOp| SetupStep::Access(op)) + seq![
        SetupStep::ReloadTimer,
        SetupStep::StartVirtualTimer,
        SetupStep::UnmaskIrqs,
    ]
}

/// The plan that sets up interrupts, the UART and the timer.
pub fn init<O: UartObserver>(uart: &Uart<O>) -> (r: Vec<SetupStep>)
    ensures
        r@ == init_steps(),
{
    let mut ops: Vec<RegOp> = Vec::new();
    ops.push(RegOp::Write(Register::IrqEnable2, IRQ_ENABLE2_UART));
    ops.push(RegOp::Write(Register::GpuInterruptsRouting, 0x0));
    let mut u = uart.init();
    ops.append(&mut u);
    assert(ops@ =~= init_ops_spec());
    let mut steps: Vec<SetupStep> = Vec::new();
    let mut i: usize = 0;
    while i < ops.len()
        invariant
            i <= ops@.len(),
            ops@ == init_ops_spec(),
            steps@ == ops@.take(i as int).map_values(|op: RegOp| SetupStep::Access(op)),
        decreases ops@.len() - i,
    {
        steps.push(SetupStep::Access(ops[i]));
        i = i + 1;
        assert(steps@ =~= ops@.take(i as int).map_values(|op: RegOp| SetupStep::Access(op)));
    }
    assert(ops@.take(i as int) =~= ops@);
    steps.push(SetupStep::ReloadTimer);
    steps.push(SetupStep::StartVirtualTimer);
    steps.push(SetupStep::UnmaskIrqs);
    assert(steps@ =~= init_steps());
    steps
}

/// The interrupt bits, as the BCM2836 core-local block and the BCM2835
/// interrupt controller define them: GPU interrupt is bit 8 and the virtual
/// timer bit 3 of core 0's source and timer control, pending register 2 is
/// bit 9 of the basic pending register, and the UART is bit 25 (IRQ 57) of
/// pending, enable and disable register 2.
pub proof fn lemma_interrupt_bits()
    ensures
        CORE0_IRQ_GPU_INTERRUPT == 0x100,
        CORE0_TIMER_IRQ_ENABLE == 0x8,
        CORE0_IRQ_TIMER_INTERRUPT == 0x8,
        IRQ_BASIC_PENDING2 == 0x200,
        IRQ_PENDING2_UART == 0x0200_0000,
        IRQ_DISABLE2_UART == 0x0200_0000,
        IRQ_ENABLE2_UART == 0x0200_0000,
{
    assert(CORE0_IRQ_GPU_INTERRUPT == 0x100) by (bit_vector);
    assert(CORE0_TIMER_IRQ_ENABLE == 0x8) by (bit_vector);
    assert(IRQ_BASIC_PENDING2 == 0x200) by (bit_vector);
    assert(IRQ_PENDING2_UART == 0x0200_0000) by (bit_vector);
}

/// The timer is reloaded with the number of counter ticks in a
/// ten-thousandth of a second, rounded down.
pub proof fn lemma_timer_interval(freq: u64)
    ensures
        timer_interval_spec(freq) * 10000 <= freq < (timer_interval_spec(freq) + 1) * 10000,
{
}

/// Interrupt set-up unmasks the UART interrupt and routes GPU interrupts to
/// core 0, then sets up the UART, then loads and starts the timer, and only
/// then unmasks IRQs in the CPU.
pub proof fn lemma_setup_order()
    ensures
        init_steps().len() == 15,
        init_steps()[0] == SetupStep::Access(RegOp::Write(Register::IrqEnable2, 0x0200_0000)),
        init_steps()[1] == SetupStep::Access(RegOp::Write(Register::GpuInterruptsRouting, 0)),
        forall|i: int|
            2 <= i < 12 ==> #[trigger] init_steps()[i] == SetupStep::Access(
                crate::uart::init_ops()[i - 2],
            ),
        init_steps()[12] == SetupStep::ReloadTimer,
        init_steps()[13] == SetupStep::StartVirtualTimer,
        init_steps()[14] == SetupStep::UnmaskIrqs,
        forall|i: int| 0 <= i < 14 ==> #[trigger] init_steps()[i] != SetupStep::UnmaskIrqs,
{
    lemma_interrupt_bits();
    let ops = init_ops_spec();
    assert(ops.len() == 12);
    assert forall|i: int| 0 <= i < 12 implies #[trigger] init_steps()[i] == SetupStep::Access(
        ops[i],
    ) by {}
}

/// Where the IRQ handler stands.
#[derive(Clone, Copy, Debug, PartialEq, Eq, Structural)]
pub enum IrqState {
    /// Nothing read yet.
    Start,
    /// The interrupt source of core 0 was read, to look for a GPU interrupt.
    CheckGpu,
    /// The basic pending register was read.
    CheckBasic,
    /// Pending register 2 was read.
    CheckPend2,
    /// The UART interrupt was masked.
    UartMasked,
    /// The UART was serviced.
    UartServiced,
    /// The UART interrupt was unmasked again.
    UartUnmasked,
    /// The interrupt source of core 0 was read again, to look for the timer.
    CheckTimer,
    /// The handler is finished.
    Done,
}

/// What the IRQ handler asks for next.
#[derive(Clone, Copy, Debug, PartialEq, Eq, Structural)]
pub enum IrqAction {
    /// Perform this register access; a read hands its value to the next step.
    Access(RegOp),
    /// Run the UART's interrupt routine.
    ServiceUart,
    /// Reload the virtual timer.
    ReloadTimer,
    /// Return from the interrupt.
    Return,
}

/// The handler's transition: in `state`, having loaded `value` by the last
/// read it asked for, it moves to the first component and asks for the
/// second.
pub open spec fn irq_next(state: IrqState, value: u32) -> (IrqState, IrqAction) {
    let read_source = IrqAction::Access(RegOp::Read(Register::Core0InterruptSource));
    match state {
        IrqState::Start => (IrqState::CheckGpu, read_source),
        IrqState::CheckGpu => if value & CORE0_IRQ_GPU_INTERRUPT == CORE0_IRQ_GPU_INTERRUPT {
            (IrqState::CheckBasic, IrqAction::Access(RegOp::Read(Register::IrqBasic)))
        } else {
            (IrqState::CheckTimer, read_source)
        },
        IrqState::CheckBasic => if value & IRQ_BASIC_PENDING2 == IRQ_BASIC_PENDING2 {
            (IrqState::CheckPend2, IrqAction::Access(RegOp::Read(Register::IrqPend2)))
        } else {
            (IrqState::CheckTimer, read_source)
        },
        IrqState::CheckPend2 => if value & IRQ_PENDING2_UART == IRQ_PENDING2_UART {
            (
                IrqState::UartMasked,
                IrqAction::Access(RegOp::Write(Register::IrqDisable2, IRQ_DISABLE2_UART)),
            )
        } else {
            (IrqState::CheckTimer, read_source)
        },
        IrqState::UartMasked => (IrqState::UartServiced, IrqAction::ServiceUart),
        IrqState::UartServiced => (
            IrqState::UartUnmasked,
            IrqAction::Access(RegOp::Write(Register::IrqEnable2, IRQ_ENABLE2_UART)),
        ),
        IrqState::UartUnmasked => (IrqState::CheckTimer, read_source),
        IrqState::CheckTimer => if value & CORE0_IRQ_TIMER_INTERRUPT == CORE0_IRQ_TIMER_INTERRUPT {
            (IrqState::Done, IrqAction::ReloadTimer)
        } else {
            (IrqState::Done, IrqAction::Return)
        },
        IrqState::Done => (IrqState::Done, IrqAction::Return),
    }
}

/// One step of the IRQ handler: `value` is what the last read it asked for
/// loaded (any value where it asked for none).
pub fn irq_step(state: IrqState, value: u32) -> (r: (IrqState, IrqAction))
    ensures
        r == irq_next(state, value),
{
    let read_source = IrqAction::Access(RegOp::Read(Register::Core0InterruptSource));
    match state {
        IrqState::Start => (IrqState::CheckGpu, read_source),
        IrqState::CheckGpu => {
            if has_flag(value, CORE0_IRQ_GPU_INTERRUPT) {
                (IrqState::CheckBasic, IrqAction::Access(RegOp::Read(Register::IrqBasic)))
            } else {
                (IrqState::CheckTimer, read_source)
            }
        },
        IrqState::CheckBasic => {
            if has_flag(value, IRQ_BASIC_PENDING2) {
                (IrqState::CheckPend2, IrqAction::Access(RegOp::Read(Register::IrqPend2)))
            } else {
                (IrqState::CheckTimer, read_source)
            }
        },
        IrqState::CheckPend2 => {
            if has_flag(value, IRQ_PENDING2_UART) {
                (
                    IrqState::UartMasked,
                    IrqAction::Access(RegOp::Write(Register::IrqDisable2, IRQ_DISABLE2_UART)),
                )
            } else {
                (IrqState::CheckTimer, read_source)
            }
        },
        IrqState::UartMasked => (IrqState::UartServiced, IrqAction::ServiceUart),
        IrqState::UartServiced => (
            IrqState::UartUnmasked,
            IrqAction::Access(RegOp::Write(Register::IrqEnable2, IRQ_ENABLE2_UART)),
        ),
        IrqState::UartUnmasked => (IrqState::CheckTimer, read_source),
        IrqState::CheckTimer => {
            if has_flag(value, CORE0_IRQ_TIMER_INTERRUPT) {
                (IrqState::Done, IrqAction::ReloadTimer)
            } else {
                (IrqState::Done, IrqAction::Return)
            }
        },
        IrqState::Done => (IrqState::Done, IrqAction::Return),
    }
}


/// The value that the read asked for by `a`, on the way to `next`, loads
/// while the interrupt source of core 0 holds `source` at the first read and
/// `timer_source` at the second, the basic pending register `basic` and
/// pending register 2 `pend2`; zero for any other action.
pub open spec fn loaded(
    next: IrqState,
    a: IrqAction,
    source: u32,
    timer_source: u32,
    basic: u32,
    pend2: u32,
) -> u32 {
    match a {
        IrqAction::Access(RegOp::Read(Register::Core0InterruptSource)) => if next
            == IrqState::CheckGpu {
            source
        } else {
            timer_source
        },
        IrqAction::Access(RegOp::Read(Register::IrqBasic)) => basic,
        IrqAction::Access(RegOp::Read(Register::IrqPend2)) => pend2,
        _ => 0,
    }
}

/// The actions the handler asks for, from `state` with `value` loaded,
/// while the registers answer as `loaded` says, up to and including its
/// return, for at most `fuel` steps.
pub open spec fn irq_trace(
    state: IrqState,
    value: u32,
    source: u32,
    timer_source: u32,
    basic: u32,
    pend2: u32,
    fuel: nat,
) -> Seq<IrqAction>
    decreases fuel,
{
    if fuel == 0 {
        Seq::empty()
    } else {
        let (next, act) = irq_next(state, value);
        if act == IrqAction::Return {
            seq![act]
        } else {
            seq![act] + irq_trace(
                next,
                loaded(next, act, source, timer_source, basic, pend2),
                source,
                timer_source,
                basic,
                pend2,
                (fuel - 1) as nat,
            )
        }
    }
}

/// What one interrupt is answered with when the interrupt source of core 0
/// reads `source` first and `timer_source` the second time, and the other
/// status registers read `basic` and `pend2`: the source is read; on a GPU interrupt
/// the basic pending register is read, and when it shows pending register 2
/// that one is read too; when all three show the UART, the UART interrupt
/// is masked, the UART serviced and the interrupt unmasked; then the source
/// is read again, the timer is reloaded when it shows the timer, and the
/// handler returns.
pub open spec fn irq_response(
    source: u32,
    timer_source: u32,
    basic: u32,
    pend2: u32,
) -> Seq<IrqAction> {
    let gpu = source & CORE0_IRQ_GPU_INTERRUPT == CORE0_IRQ_GPU_INTERRUPT;
    let pending2 = basic & IRQ_BASIC_PENDING2 == IRQ_BASIC_PENDING2;
    let uart = pend2 & IRQ_PENDING2_UART == IRQ_PENDING2_UART;
    let timer = timer_source & CORE0_IRQ_TIMER_INTERRUPT == CORE0_IRQ_TIMER_INTERRUPT;
    let read_source = IrqAction::Access(RegOp::Read(Register::Core0InterruptSource));
    seq![read_source] + (if gpu {
        seq![IrqAction::Access(RegOp::Read(Register::IrqBasic))] + (if pending2 {
            seq![IrqAction::Access(RegOp::Read(Register::IrqPend2))]
        } else {
            Seq::empty()
        })
    } else {
        Seq::empty()
    }) + (if gpu && pending2 && uart {
        seq![
            IrqAction::Access(RegOp::Write(Register::IrqDisable2, IRQ_DISABLE2_UART)),
            IrqAction::ServiceUart,
            IrqAction::Access(RegOp::Write(Register::IrqEnable2, IRQ_ENABLE2_UART)),
        ]
    } else {
        Seq::empty()
    }) + seq![read_source] + (if timer {
        seq![IrqAction::ReloadTimer, IrqAction::Return]
    } else {
        seq![IrqAction::Return]
    })
}

/// Driven from its start, the handler answers the interrupt as
/// `irq_response` says, and returns within ten steps: the UART is serviced
/// exactly when the first read of the source, the basic pending register and
/// pending register 2 all show it, and the timer is reloaded exactly when the
/// second read of the source shows it.
pub proof fn lemma_irq_handler_response(source: u32, timer_source: u32, basic: u32, pend2: u32)
    ensures
        irq_trace(IrqState::Start, 0, source, timer_source, basic, pend2, 10) == irq_response(
            source,
            timer_source,
            basic,
            pend2,
        ),
{
    reveal_with_fuel(irq_trace, 11);
    let t = irq_trace(IrqState::Start, 0, source, timer_source, basic, pend2, 10);
    let e = irq_response(source, timer_source, basic, pend2);
    assert(t =~= e);
}

} // verus!
