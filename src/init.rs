//! The bring-up chain and the teardown, as stages: which stage follows which, what
//! a failure reports, and what the teardown writes.
use vstd::prelude::*;

use crate::error::DrvError;

verus! {

/// GPIO low time of the power sequence, in milliseconds.
pub const POWER_LOW_MS: u32 = 50;

/// GPIO high time of the power sequence, in milliseconds.
pub const POWER_HIGH_MS: u32 = 50;

/// Wait after power-up before the first SDIO access, in milliseconds.
pub const POST_POWER_STABLE_MS: u32 = 1000;

/// Wait after SDIO init before the first IPC, in milliseconds.
pub const POST_SDIO_INIT_DELAY_MS: u32 = 500;

/// Base address of GPIO controller 0; controllers 1..3 follow every 4 KiB.
pub const GPIO0_BASE: u32 = 0x0302_0000;

/// Data and direction registers of a GPIO controller.
pub const GPIO_SWPORTA_DR: u32 = 0x00;
pub const GPIO_SWPORTA_DDR: u32 = 0x04;

/// A GPIO pin: controller and pin number.
#[derive(Clone, Copy, Debug, PartialEq, Eq, Structural)]
pub struct GpioPin {
    pub controller: u8,
    pub pin: u8,
}

impl GpioPin {
    /// The pin `pin` of controller `controller`.
    pub fn new(controller: u8, pin: u8) -> (r: GpioPin)
        ensures
            r == (GpioPin { controller, pin }),
    {
        GpioPin { controller, pin }
    }
}

/// The WiFi power-enable pin (GPIOA_26).
pub fn wifi_power_pin() -> (r: GpioPin)
    ensures
        r == (GpioPin { controller: 0, pin: 26 }),
{
    GpioPin::new(0, 26)
}

/// The base address of a GPIO controller; `None` beyond controller 3.
pub fn gpio_base(controller: u8) -> (r: Option<u32>)
    ensures
        controller < 4 ==> r == Some((GPIO0_BASE + 0x1000 * controller) as u32),
        controller >= 4 ==> r is None,
{
    if controller < 4 {
        Some(GPIO0_BASE + 0x1000 * controller as u32)
    } else {
        None
    }
}

/// The data (or direction) register value with bit `pin` set or cleared.
pub fn gpio_bit_value(current: u32, pin: u8, set: bool) -> (r: u32)
    requires
        pin < 32,
    ensures
        r == if set {
            current | (1u32 << pin)
        } else {
            current & !(1u32 << pin)
        },
{
    if set {
        current | (1u32 << pin)
    } else {
        current & !(1u32 << pin)
    }
}

/// Stages of the bring-up, in order.
#[derive(Clone, Copy, Debug, PartialEq, Eq, Structural)]
pub enum InitStage {
    Power,
    Enumerate,
    FunctionEnable,
    Cis,
    FwUpload,
    StartApp,
    Done,
}

/// A failed bring-up: the stage that failed and why.
#[derive(Clone, Copy, Debug, PartialEq, Eq, Structural)]
pub struct InitError {
    pub stage: InitStage,
    pub err: DrvError,
}

/// The stage after `s`.
pub open spec fn next_stage(s: InitStage) -> InitStage {
    match s {
        InitStage::Power => InitStage::Enumerate,
        InitStage::Enumerate => InitStage::FunctionEnable,
        InitStage::FunctionEnable => InitStage::Cis,
        InitStage::Cis => InitStage::FwUpload,
        InitStage::FwUpload => InitStage::StartApp,
        InitStage::StartApp => InitStage::Done,
        InitStage::Done => InitStage::Done,
    }
}

/// The bring-up after stage `stage` ended with `result`: the next stage on success;
/// on failure an error naming the stage. The chain never retries a stage.
pub fn init_advance(stage: InitStage, result: Result<(), DrvError>) -> (r: Result<InitStage, InitError>)
    ensures
        result is Ok ==> r == Ok::<InitStage, InitError>(next_stage(stage)),
        result matches Err(e) ==> r == Err::<InitStage, InitError>(InitError { stage, err: e }),
{
    match result {
        Ok(()) => Ok(
            match stage {
                InitStage::Power => InitStage::Enumerate,
                InitStage::Enumerate => InitStage::FunctionEnable,
                InitStage::FunctionEnable => InitStage::Cis,
                InitStage::Cis => InitStage::FwUpload,
                InitStage::FwUpload => InitStage::StartApp,
                InitStage::StartApp => InitStage::Done,
                InitStage::Done => InitStage::Done,
            },
        ),
        Err(e) => Err(InitError { stage, err: e }),
    }
}

/// The bring-up chain reaches `Done` from `Power` after exactly six successful
/// stages, and any failure stops it with the failing stage named.
pub proof fn lemma_init_chain_order()
    ensures
        next_stage(next_stage(next_stage(next_stage(next_stage(next_stage(InitStage::Power))))))
            == InitStage::Done,
        forall|s: InitStage| s != InitStage::Done ==> next_stage(s) != s,
{
}

/// What the teardown must do, in order.
#[derive(Clone, Copy, Debug, PartialEq, Eq, Structural)]
pub struct TeardownPlan {
    /// IO_ENABLE value with functions 1 and 2 disabled.
    pub io_enable: u8,
    /// Clear both workers' running flags.
    pub stop_workers: bool,
    /// Post the TX-trigger and SDIO-IRQ queues so the workers wake and exit.
    pub post_queues: bool,
    /// Release the DMA slot and clear the device pointers.
    pub release: bool,
}

/// The teardown for the current IO_ENABLE value.
pub fn teardown_plan(io_enable: u8) -> (r: TeardownPlan)
    ensures
        r.io_enable == io_enable & !0x06u8,
        r.stop_workers && r.post_queues && r.release,
{
    TeardownPlan { io_enable: io_enable & !0x06u8, stop_workers: true, post_queues: true, release: true }
}

} // verus!
