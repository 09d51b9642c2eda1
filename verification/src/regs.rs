//! The memory-mapped registers of the board and the operations a driver
//! asks the bus to perform on them.
use vstd::prelude::*;

verus! {

/// Base address of the GPIO block.
pub const GPIO_BASE: u32 = 0x3F200000;
/// Base address of the PL011 UART0 block.
pub const UART0_BASE: u32 = 0x3F201000;
/// Base address of the interrupt controller.
pub const IRQ_BASE: u32 = 0x3F00B200;

/// The device registers used by the kernel.
#[derive(Clone, Copy, Debug, PartialEq, Eq, Structural)]
pub enum Register {
    // GPU
    GpuInterruptsRouting,
    // GPIO
    GpioUd,
    GpioUdclk0,
    // UART0
    Uart0Dr,
    Uart0Rsrecr,
    Uart0Fr,
    Uart0Ilpr,
    Uart0Ibrd,
    Uart0Fbrd,
    Uart0Lcrh,
    Uart0Cr,
    Uart0Ifls,
    Uart0Imsc,
    Uart0Ris,
    Uart0Mis,
    Uart0Icr,
    Uart0Dmacr,
    Uart0Itcr,
    Uart0Itip,
    Uart0Itop,
    Uart0Tdr,
    // CORE0
    Core0TimerInterruptCtl,
    Core0InterruptSource,
    // IRQ
    IrqBasic,
    IrqPend1,
    IrqPend2,
    IrqFiq,
    IrqEnable1,
    IrqEnable2,
    IrqEnableBasic,
    IrqDisable1,
    IrqDisable2,
    IrqDisableBasic,
}

/// The physical address of each register.
pub open spec fn register_address(r: Register) -> int {
    match r {
        Register::GpuInterruptsRouting => 0x4000000C,
        Register::GpioUd => GPIO_BASE + 0x94,
        Register::GpioUdclk0 => GPIO_BASE + 0x98,
        Register::Uart0Dr => UART0_BASE + 0x00,
        Register::Uart0Rsrecr => UART0_BASE + 0x04,
        Register::Uart0Fr => UART0_BASE + 0x18,
        Register::Uart0Ilpr => UART0_BASE + 0x20,
        Register::Uart0Ibrd => UART0_BASE + 0x24,
        Register::Uart0Fbrd => UART0_BASE + 0x28,
        Register::Uart0Lcrh => UART0_BASE + 0x2C,
        Register::Uart0Cr => UART0_BASE + 0x30,
        Register::Uart0Ifls => UART0_BASE + 0x34,
        Register::Uart0Imsc => UART0_BASE + 0x38,
        Register::Uart0Ris => UART0_BASE + 0x3C,
        Register::Uart0Mis => UART0_BASE + 0x40,
        Register::Uart0Icr => UART0_BASE + 0x44,
        Register::Uart0Dmacr => UART0_BASE + 0x48,
        Register::Uart0Itcr => UART0_BASE + 0x80,
        Register::Uart0Itip => UART0_BASE + 0x84,
        Register::Uart0Itop => UART0_BASE + 0x88,
        Register::Uart0Tdr => UART0_BASE + 0x8C,
        Register::Core0TimerInterruptCtl => 0x40000040,
        Register::Core0InterruptSource => 0x40000060,
        Register::IrqBasic => IRQ_BASE + 0x00,
        Register::IrqPend1 => IRQ_BASE + 0x04,
        Register::IrqPend2 => IRQ_BASE + 0x08,
        Register::IrqFiq => IRQ_BASE + 0x0C,
        Register::IrqEnable1 => IRQ_BASE + 0x10,
        Register::IrqEnable2 => IRQ_BASE + 0x14,
        Register::IrqEnableBasic => IRQ_BASE + 0x18,
        Register::IrqDisable1 => IRQ_BASE + 0x1C,
        Register::IrqDisable2 => IRQ_BASE + 0x20,
        Register::IrqDisableBasic => IRQ_BASE + 0x24,
    }
}

impl Register {
    /// The physical address at which the register is mapped.
    pub fn address(&self) -> (a: u32)
        ensures
            a == register_address(*self),
    {
        match self {
            Register::GpuInterruptsRouting => 0x4000000C,
            Register::GpioUd => GPIO_BASE + 0x94,
            Register::GpioUdclk0 => GPIO_BASE + 0x98,
            Register::Uart0Dr => UART0_BASE + 0x00,
            Register::Uart0Rsrecr => UART0_BASE + 0x04,
            Register::Uart0Fr => UART0_BASE + 0x18,
            Register::Uart0Ilpr => UART0_BASE + 0x20,
            Register::Uart0Ibrd => UART0_BASE + 0x24,
            Register::Uart0Fbrd => UART0_BASE + 0x28,
            Register::Uart0Lcrh => UART0_BASE + 0x2C,
            Register::Uart0Cr => UART0_BASE + 0x30,
            Register::Uart0Ifls => UART0_BASE + 0x34,
            Register::Uart0Imsc => UART0_BASE + 0x38,
            Register::Uart0Ris => UART0_BASE + 0x3C,
            Register::Uart0Mis => UART0_BASE + 0x40,
            Register::Uart0Icr => UART0_BASE + 0x44,
            Register::Uart0Dmacr => UART0_BASE + 0x48,
            Register::Uart0Itcr => UART0_BASE + 0x80,
            Register::Uart0Itip => UART0_BASE + 0x84,
            Register::Uart0Itop => UART0_BASE + 0x88,
            Register::Uart0Tdr => UART0_BASE + 0x8C,
            Register::Core0TimerInterruptCtl => 0x40000040,
            Register::Core0InterruptSource => 0x40000060,
            Register::IrqBasic => IRQ_BASE + 0x00,
            Register::IrqPend1 => IRQ_BASE + 0x04,
            Register::IrqPend2 => IRQ_BASE + 0x08,
            Register::IrqFiq => IRQ_BASE + 0x0C,
            Register::IrqEnable1 => IRQ_BASE + 0x10,
            Register::IrqEnable2 => IRQ_BASE + 0x14,
            Register::IrqEnableBasic => IRQ_BASE + 0x18,
            Register::IrqDisable1 => IRQ_BASE + 0x1C,
            Register::IrqDisable2 => IRQ_BASE + 0x20,
            Register::IrqDisableBasic => IRQ_BASE + 0x24,
        }
    }
}

/// One access that a driver asks the memory bus to perform.
#[derive(Clone, Copy, Debug, PartialEq, Eq, Structural)]
pub enum RegOp {
    /// Store `value` into `reg`.
    Write(Register, u32),
    /// Load `reg`; the driver takes the loaded value as the result of the plan.
    Read(Register),
    /// Load `reg` again and again for as long as every bit of `mask` is set
    /// in the loaded value (see `has_flag`).
    WaitWhileSet(Register, u32),
}

/// Whether every bit of `mask` is set in `value`: the test
/// `mask == value & mask` that the drivers apply to status registers.
pub fn has_flag(value: u32, mask: u32) -> (b: bool)
    ensures
        b == (value & mask == mask),
{
    mask == value & mask
}

/// The register map of the board (BCM2837 peripherals at 0x3F000000, the
/// core-local block at 0x40000000), register by register.
pub proof fn lemma_register_map()
    ensures
        register_address(Register::GpuInterruptsRouting) == 0x4000000C,
        register_address(Register::GpioUd) == 0x3F200094,
        register_address(Register::GpioUdclk0) == 0x3F200098,
        register_address(Register::Uart0Dr) == 0x3F201000,
        register_address(Register::Uart0Rsrecr) == 0x3F201004,
        register_address(Register::Uart0Fr) == 0x3F201018,
        register_address(Register::Uart0Ilpr) == 0x3F201020,
        register_address(Register::Uart0Ibrd) == 0x3F201024,
        register_address(Register::Uart0Fbrd) == 0x3F201028,
        register_address(Register::Uart0Lcrh) == 0x3F20102C,
        register_address(Register::Uart0Cr) == 0x3F201030,
        register_address(Register::Uart0Ifls) == 0x3F201034,
        register_address(Register::Uart0Imsc) == 0x3F201038,
        register_address(Register::Uart0Ris) == 0x3F20103C,
        register_address(Register::Uart0Mis) == 0x3F201040,
        register_address(Register::Uart0Icr) == 0x3F201044,
        register_address(Register::Uart0Dmacr) == 0x3F201048,
        register_address(Register::Uart0Itcr) == 0x3F201080,
        register_address(Register::Uart0Itip) == 0x3F201084,
        register_address(Register::Uart0Itop) == 0x3F201088,
        register_address(Register::Uart0Tdr) == 0x3F20108C,
        register_address(Register::Core0TimerInterruptCtl) == 0x40000040,
        register_address(Register::Core0InterruptSource) == 0x40000060,
        register_address(Register::IrqBasic) == 0x3F00B200,
        register_address(Register::IrqPend1) == 0x3F00B204,
        register_address(Register::IrqPend2) == 0x3F00B208,
        register_address(Register::IrqFiq) == 0x3F00B20C,
        register_address(Register::IrqEnable1) == 0x3F00B210,
        register_address(Register::IrqEnable2) == 0x3F00B214,
        register_address(Register::IrqEnableBasic) == 0x3F00B218,
        register_address(Register::IrqDisable1) == 0x3F00B21C,
        register_address(Register::IrqDisable2) == 0x3F00B220,
        register_address(Register::IrqDisableBasic) == 0x3F00B224,
{
}

/// Distinct registers are mapped at distinct addresses, so a write to one
/// register never lands on another.
pub proof fn lemma_register_addresses_distinct(a: Register, b: Register)
    requires
        a != b,
    ensures
        register_address(a) != register_address(b),
{
}

} // verus!
