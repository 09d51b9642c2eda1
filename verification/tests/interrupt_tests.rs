use rpi_kernel::interrupt::{
    init, irq_step, timer_enable_op, timer_interval, IrqAction, IrqState, SetupStep,
    CORE0_IRQ_GPU_INTERRUPT,
    CORE0_IRQ_TIMER_INTERRUPT, IRQ_BASIC_PENDING2, IRQ_PENDING2_UART,
};
use rpi_kernel::regs::{RegOp, Register};
use rpi_kernel::shell::Shell;
use rpi_kernel::uart::Uart;

/// Drives the handler with fixed register contents and collects its actions.
fn run(source: u32, basic: u32, pend2: u32) -> Vec<IrqAction> {
    run2(source, source, basic, pend2)
}

/// As `run`, with the second read of the source giving `timer_source`.
fn run2(source: u32, timer_source: u32, basic: u32, pend2: u32) -> Vec<IrqAction> {
    let mut state = IrqState::Start;
    let mut value = 0;
    let mut actions = Vec::new();
    for _ in 0..20 {
        let (next, action) = irq_step(state, value);
        actions.push(action);
        value = match action {
            IrqAction::Access(RegOp::Read(Register::Core0InterruptSource)) => {
                if next == IrqState::CheckGpu {
                    source
                } else {
                    timer_source
                }
            }
            IrqAction::Access(RegOp::Read(Register::IrqBasic)) => basic,
            IrqAction::Access(RegOp::Read(Register::IrqPend2)) => pend2,
            _ => 0,
        };
        if action == IrqAction::Return {
            return actions;
        }
        state = next;
    }
    panic!("handler did not return");
}

fn read(r: Register) -> IrqAction {
    IrqAction::Access(RegOp::Read(r))
}

#[test]
fn uart_interrupt_is_serviced() {
    let actions = run(CORE0_IRQ_GPU_INTERRUPT, IRQ_BASIC_PENDING2, IRQ_PENDING2_UART);
    assert_eq!(
        actions,
        vec![
            read(Register::Core0InterruptSource),
            read(Register::IrqBasic),
            read(Register::IrqPend2),
            IrqAction::Access(RegOp::Write(Register::IrqDisable2, 1 << 25)),
            IrqAction::ServiceUart,
            IrqAction::Access(RegOp::Write(Register::IrqEnable2, 1 << 25)),
            read(Register::Core0InterruptSource),
            IrqAction::Return,
        ]
    );
}

#[test]
fn timer_interrupt_reloads_timer() {
    let actions = run(CORE0_IRQ_TIMER_INTERRUPT, 0, 0);
    assert_eq!(
        actions,
        vec![
            read(Register::Core0InterruptSource),
            read(Register::Core0InterruptSource),
            IrqAction::ReloadTimer,
            IrqAction::Return,
        ]
    );
}

#[test]
fn gpu_without_uart_is_ignored() {
    let actions = run(CORE0_IRQ_GPU_INTERRUPT, IRQ_BASIC_PENDING2, 1 << 24);
    assert!(!actions.contains(&IrqAction::ServiceUart));
    let actions = run(CORE0_IRQ_GPU_INTERRUPT, 0, IRQ_PENDING2_UART);
    assert!(!actions.contains(&IrqAction::ServiceUart));
    assert_eq!(actions.len(), 4);
    let actions = run(0, IRQ_BASIC_PENDING2, IRQ_PENDING2_UART);
    assert_eq!(actions, vec![
        read(Register::Core0InterruptSource),
        read(Register::Core0InterruptSource),
        IrqAction::Return,
    ]);
}

#[test]
fn both_interrupts_at_once() {
    let actions = run(
        CORE0_IRQ_GPU_INTERRUPT | CORE0_IRQ_TIMER_INTERRUPT,
        IRQ_BASIC_PENDING2,
        IRQ_PENDING2_UART,
    );
    assert_eq!(actions.len(), 9);
    assert_eq!(actions[4], IrqAction::ServiceUart);
    assert_eq!(actions[7], IrqAction::ReloadTimer);
}

#[test]
fn finished_handler_keeps_returning() {
    assert_eq!(irq_step(IrqState::Done, 123), (IrqState::Done, IrqAction::Return));
}

#[test]
fn interrupt_setup() {
    let uart: Uart<Shell> = Uart::new();
    let steps = init(&uart);
    assert_eq!(steps.len(), 15);
    assert_eq!(steps[0], SetupStep::Access(RegOp::Write(Register::IrqEnable2, 1 << 25)));
    assert_eq!(steps[1], SetupStep::Access(RegOp::Write(Register::GpuInterruptsRouting, 0)));
    let uart_steps: Vec<SetupStep> = uart.init().into_iter().map(SetupStep::Access).collect();
    assert_eq!(steps[2..12].to_vec(), uart_steps);
    assert_eq!(
        steps[12..].to_vec(),
        vec![SetupStep::ReloadTimer, SetupStep::StartVirtualTimer, SetupStep::UnmaskIrqs]
    );
}

#[test]
fn timer_settings() {
    assert_eq!(timer_interval(19_200_000), 1920);
    assert_eq!(timer_interval(62_500_000), 6250);
    assert_eq!(timer_interval(9_999), 0);
    assert_eq!(
        timer_enable_op(),
        RegOp::Write(Register::Core0TimerInterruptCtl, 1 << 3)
    );
}

#[test]
fn timer_decided_by_second_read() {
    let actions = run2(0, CORE0_IRQ_TIMER_INTERRUPT, 0, 0);
    assert!(actions.contains(&IrqAction::ReloadTimer));
    let actions = run2(CORE0_IRQ_TIMER_INTERRUPT, 0, 0, 0);
    assert!(!actions.contains(&IrqAction::ReloadTimer));
}
