//! MMC/SDIO core types: device ids, bus settings, cards, and the function and host
//! interfaces a controller driver offers.
use vstd::prelude::*;

use crate::error::DrvError;
use crate::sdhci::{CMD0_XFER_MODE, CMD3_XFER_MODE, CMD5_XFER_MODE, CMD7_XFER_MODE};

verus! {

/// Wildcard class.
pub const SDIO_ANY_ID: u8 = 0xff;

/// Wildcard vendor or device.
pub const SDIO_ANY_ID_U16: u16 = 0xffff;

/// Default block size of a function.
pub const SDIO_FUNC_BLOCKSIZE_DEFAULT: u16 = 512;

/// Clock of the identification phase, in Hz.
pub const MMC_LEGACY_CLOCK_HZ: u32 = 400_000;

/// An SDIO device id: class, vendor, device; each may be a wildcard.
#[derive(Clone, Copy, Debug, PartialEq, Eq, Structural)]
pub struct SdioDeviceId {
    pub class: u8,
    pub vendor: u16,
    pub device: u16,
}

/// `pattern` matches `id` field by field, a wildcard matching anything.
pub open spec fn id_matches(pattern: SdioDeviceId, id: SdioDeviceId) -> bool {
    &&& (pattern.class == SDIO_ANY_ID || pattern.class == id.class)
    &&& (pattern.vendor == SDIO_ANY_ID_U16 || pattern.vendor == id.vendor)
    &&& (pattern.device == SDIO_ANY_ID_U16 || pattern.device == id.device)
}

impl SdioDeviceId {
    /// The id that matches every device.
    pub fn any() -> (r: SdioDeviceId)
        ensures
            r == (SdioDeviceId { class: SDIO_ANY_ID, vendor: SDIO_ANY_ID_U16, device: SDIO_ANY_ID_U16 }),
    {
        SdioDeviceId { class: SDIO_ANY_ID, vendor: SDIO_ANY_ID_U16, device: SDIO_ANY_ID_U16 }
    }

    /// The id with the given fields.
    pub fn new(class: u8, vendor: u16, device: u16) -> (r: SdioDeviceId)
        ensures
            r == (SdioDeviceId { class, vendor, device }),
    {
        SdioDeviceId { class, vendor, device }
    }

    /// Whether this id, as a pattern, matches `other`.
    pub fn matches(&self, other: &SdioDeviceId) -> (r: bool)
        ensures
            r == id_matches(*self, *other),
    {
        (self.class == SDIO_ANY_ID || self.class == other.class) && (self.vendor == SDIO_ANY_ID_U16
            || self.vendor == other.vendor) && (self.device == SDIO_ANY_ID_U16 || self.device
            == other.device)
    }
}

/// Bus width.
#[derive(Clone, Copy, Debug, PartialEq, Eq, Structural)]
pub enum MmcBusWidth {
    OneBit,
    FourBit,
    EightBit,
}

/// Bus settings: clock and width.
#[derive(Clone, Copy, Debug, PartialEq, Eq, Structural)]
pub struct MmcIos {
    pub clock: u32,
    pub bus_width: MmcBusWidth,
}

impl MmcIos {
    /// The settings of the identification phase: 400 kHz, 1-bit.
    pub fn default_legacy() -> (r: MmcIos)
        ensures
            r == (MmcIos { clock: MMC_LEGACY_CLOCK_HZ, bus_width: MmcBusWidth::OneBit }),
    {
        MmcIos { clock: MMC_LEGACY_CLOCK_HZ, bus_width: MmcBusWidth::OneBit }
    }
}

/// A selected card: its relative card address.
#[derive(Clone, Copy, Debug, PartialEq, Eq, Structural)]
pub struct MmcCard {
    pub rca: u16,
}

impl MmcCard {
    /// The card with address `rca`.
    pub fn new(rca: u16) -> (r: MmcCard)
        ensures
            r.rca == rca,
    {
        MmcCard { rca }
    }
}

/// The relative card address in an R6 response: its upper 16 bits.
pub fn rca_from_r6(resp: u32) -> (r: u16)
    ensures
        r == resp / 65536,
{
    (resp / 65536) as u16
}

/// Whether an R4 response (CMD5) reports the card ready: bit 31.
pub fn r4_ready(resp: u32) -> (r: bool)
    ensures
        r == (resp >= 0x8000_0000),
{
    resp >= 0x8000_0000
}

/// The CMD5 argument that selects voltages from an OCR: bits 8..23.
pub fn cmd5_voltage_arg(ocr: u32) -> (r: u32)
    ensures
        r == ocr & 0x00FF_FF00,
{
    ocr & 0x00FF_FF00
}

/// The CMD7 argument that selects the card with address `rca`.
pub fn cmd7_arg(rca: u16) -> (r: u32)
    ensures
        r == rca * 65536,
{
    rca as u32 * 65536
}

/// Most CMD5 voltage-selection commands before enumeration gives up.
pub const CMD5_MAX_TRIES: u32 = 100;

/// Where card enumeration stands: which command's result is awaited next.
#[derive(Clone, Copy, Debug, PartialEq, Eq, Structural)]
pub enum EnumState {
    /// Nothing sent yet.
    Idle,
    /// CMD0 sent.
    Reset,
    /// CMD5 with argument 0 sent, to read the OCR.
    ProbeOcr,
    /// CMD5 selecting the OCR's voltages sent, `tries` times before this one.
    SelectVoltage { ocr: u32, tries: u32 },
    /// CMD3 sent.
    AssignRca,
    /// CMD7 selecting the card `rca` sent.
    Select { rca: u16 },
    /// Waiting for the card to release DAT0.
    Done { rca: u16 },
}

/// What enumeration asks the host to do next.
#[derive(Clone, Copy, Debug, PartialEq, Eq)]
pub enum EnumAction {
    /// Issue a command and report its response.
    Send { arg: u32, xfer_mode: u32 },
    /// Wait for the inhibit bits to clear and report the outcome.
    WaitNotInhibit,
    /// Enumeration is over: the card's address, or why it failed.
    Finish(Result<u16, DrvError>),
}

/// One step of card enumeration (CMD0, CMD5 probe, CMD5 voltage selection until the
/// card reports ready, CMD3, CMD7, wait for DAT0), given the outcome `resp` of the
/// action the previous step asked for (ignored from `Idle`). A zero OCR means no
/// card; a card not ready after 100 voltage-selection commands is a timeout; any
/// failure of a command other than CMD0 ends enumeration with that failure.
pub fn enum_step(st: EnumState, resp: Result<u32, DrvError>) -> (r: (EnumState, EnumAction))
    ensures
        match (st, resp) {
            (EnumState::Idle, _) => r == (
                EnumState::Reset,
                EnumAction::Send { arg: 0, xfer_mode: CMD0_XFER_MODE },
            ),
            (EnumState::Reset, _) => r == (
                EnumState::ProbeOcr,
                EnumAction::Send { arg: 0, xfer_mode: CMD5_XFER_MODE },
            ),
            (_, Err(e)) => r.1 == EnumAction::Finish(Err(e)),
            (EnumState::ProbeOcr, Ok(ocr)) => if ocr == 0 {
                r.1 == EnumAction::Finish(Err(DrvError::NoDevice))
            } else {
                r == (
                    EnumState::SelectVoltage { ocr, tries: 0 },
                    EnumAction::Send { arg: ocr & 0x00FF_FF00, xfer_mode: CMD5_XFER_MODE },
                )
            },
            (EnumState::SelectVoltage { ocr, tries }, Ok(v)) => if v >= 0x8000_0000 {
                r == (EnumState::AssignRca, EnumAction::Send { arg: 0, xfer_mode: CMD3_XFER_MODE })
            } else if tries + 1 < CMD5_MAX_TRIES {
                r == (
                    EnumState::SelectVoltage { ocr, tries: (tries + 1) as u32 },
                    EnumAction::Send { arg: ocr & 0x00FF_FF00, xfer_mode: CMD5_XFER_MODE },
                )
            } else {
                r.1 == EnumAction::Finish(Err(DrvError::Timeout))
            },
            (EnumState::AssignRca, Ok(v)) => r == (
                EnumState::Select { rca: (v / 65536) as u16 },
                EnumAction::Send { arg: ((v / 65536) * 65536) as u32, xfer_mode: CMD7_XFER_MODE },
            ),
            (EnumState::Select { rca }, Ok(_)) => r == (
                EnumState::Done { rca },
                EnumAction::WaitNotInhibit,
            ),
            (EnumState::Done { rca }, Ok(_)) => r.1 == EnumAction::Finish(Ok(rca)),
        },
{
    match st {
        EnumState::Idle => (EnumState::Reset, EnumAction::Send { arg: 0, xfer_mode: CMD0_XFER_MODE }),
        EnumState::Reset => (
            EnumState::ProbeOcr,
            EnumAction::Send { arg: 0, xfer_mode: CMD5_XFER_MODE },
        ),
        _ => {
            let v = match resp {
                Ok(v) => v,
                Err(e) => {
                    return (st, EnumAction::Finish(Err(e)));
                },
            };
            match st {
                EnumState::ProbeOcr => {
                    if v == 0 {
                        (st, EnumAction::Finish(Err(DrvError::NoDevice)))
                    } else {
                        (
                            EnumState::SelectVoltage { ocr: v, tries: 0 },
                            EnumAction::Send { arg: cmd5_voltage_arg(v), xfer_mode: CMD5_XFER_MODE },
                        )
                    }
                },
                EnumState::SelectVoltage { ocr, tries } => {
                    if r4_ready(v) {
                        (EnumState::AssignRca, EnumAction::Send { arg: 0, xfer_mode: CMD3_XFER_MODE })
                    } else if tries < CMD5_MAX_TRIES - 1 {
                        (
                            EnumState::SelectVoltage { ocr, tries: tries + 1 },
                            EnumAction::Send { arg: cmd5_voltage_arg(ocr), xfer_mode: CMD5_XFER_MODE },
                        )
                    } else {
                        (st, EnumAction::Finish(Err(DrvError::Timeout)))
                    }
                },
                EnumState::AssignRca => {
                    let rca = rca_from_r6(v);
                    (EnumState::Select { rca }, EnumAction::Send { arg: cmd7_arg(rca), xfer_mode: CMD7_XFER_MODE })
                },
                EnumState::Select { rca } => (EnumState::Done { rca }, EnumAction::WaitNotInhibit),
                EnumState::Done { rca } => (st, EnumAction::Finish(Ok(rca))),
                _ => (st, EnumAction::Finish(Err(DrvError::Invalid))),
            }
        },
    }
}

/// Where enabling an SDIO function stands: which CMD52's result is awaited next.
#[derive(Clone, Copy, Debug, PartialEq, Eq, Structural)]
pub enum FnEnableState {
    Start,
    ReadIoEnable,
    WriteIoEnable,
    PollReady { waited_ms: u32 },
    BlockSizeLow,
    BlockSizeHigh,
}

/// What enabling a function asks the host to do next.
#[derive(Clone, Copy, Debug, PartialEq, Eq)]
pub enum FnEnableAction {
    /// Read the function-0 register `addr` after waiting `delay_ms`; report the byte.
    Read { addr: u32, delay_ms: u32 },
    /// Write `val` to the function-0 register `addr`.
    Write { addr: u32, val: u8 },
    /// Done, or why not.
    Finish(Result<(), DrvError>),
}

/// One step of enabling function `func` with block size `blksz`: read IO_ENABLE, set
/// the function's bit, poll IO_READY every millisecond for up to 100 ms until the
/// function's bit or bit 4 is set, then write the block size low and high bytes at
/// FBR + 0x10 and + 0x11. `resp` is the outcome of the previous action (ignored from
/// `Start`); any failure ends the sequence with it.
pub fn fn_enable_step(func: u8, blksz: u16, st: FnEnableState, resp: Result<u8, DrvError>) -> (r: (FnEnableState, FnEnableAction))
    requires
        func < 8,
    ensures
        match (st, resp) {
            (FnEnableState::Start, _) => r == (
                FnEnableState::ReadIoEnable,
                FnEnableAction::Read { addr: 0x02, delay_ms: 0 },
            ),
            (_, Err(e)) => r.1 == FnEnableAction::Finish(Err(e)),
            (FnEnableState::ReadIoEnable, Ok(cur)) => r == (
                FnEnableState::WriteIoEnable,
                FnEnableAction::Write { addr: 0x02, val: cur | (1u8 << func) },
            ),
            (FnEnableState::WriteIoEnable, Ok(_)) => r == (
                FnEnableState::PollReady { waited_ms: 0 },
                FnEnableAction::Read { addr: 0x03, delay_ms: 0 },
            ),
            (FnEnableState::PollReady { waited_ms }, Ok(rdy)) => if rdy & (1u8 << func) != 0 || rdy
                & 0x10 != 0 {
                r == (
                    FnEnableState::BlockSizeLow,
                    FnEnableAction::Write {
                        addr: (func * 0x100 + 0x10) as u32,
                        val: (blksz % 256) as u8,
                    },
                )
            } else if waited_ms + 1 < 100 {
                r == (
                    FnEnableState::PollReady { waited_ms: (waited_ms + 1) as u32 },
                    FnEnableAction::Read { addr: 0x03, delay_ms: 1 },
                )
            } else {
                r.1 == FnEnableAction::Finish(Err(DrvError::Timeout))
            },
            (FnEnableState::BlockSizeLow, Ok(_)) => r == (
                FnEnableState::BlockSizeHigh,
                FnEnableAction::Write { addr: (func * 0x100 + 0x11) as u32, val: (blksz / 256) as u8 },
            ),
            (FnEnableState::BlockSizeHigh, Ok(_)) => r.1 == FnEnableAction::Finish(Ok(())),
        },
{
    if let FnEnableState::Start = st {
        return (FnEnableState::ReadIoEnable, FnEnableAction::Read { addr: 0x02, delay_ms: 0 });
    }
    let v = match resp {
        Ok(v) => v,
        Err(e) => {
            return (st, FnEnableAction::Finish(Err(e)));
        },
    };
    let base = func as u32 * 0x100;
    match st {
        FnEnableState::ReadIoEnable => (
            FnEnableState::WriteIoEnable,
            FnEnableAction::Write { addr: 0x02, val: crate::cis::io_enable_value(v, func) },
        ),
        FnEnableState::WriteIoEnable => (
            FnEnableState::PollReady { waited_ms: 0 },
            FnEnableAction::Read { addr: 0x03, delay_ms: 0 },
        ),
        FnEnableState::PollReady { waited_ms } => {
            if crate::cis::io_ready_ok(v, func) {
                (FnEnableState::BlockSizeLow, FnEnableAction::Write { addr: base + 0x10, val: (blksz % 256) as u8 })
            } else if waited_ms < 99 {
                (FnEnableState::PollReady { waited_ms: waited_ms + 1 }, FnEnableAction::Read { addr: 0x03, delay_ms: 1 })
            } else {
                (st, FnEnableAction::Finish(Err(DrvError::Timeout)))
            }
        },
        FnEnableState::BlockSizeLow => (
            FnEnableState::BlockSizeHigh,
            FnEnableAction::Write { addr: base + 0x11, val: (blksz / 256) as u8 },
        ),
        FnEnableState::BlockSizeHigh => (st, FnEnableAction::Finish(Ok(()))),
        FnEnableState::Start => (FnEnableState::ReadIoEnable, FnEnableAction::Read { addr: 0x02, delay_ms: 0 }),
    }
}

/// The default block size of a function.
pub fn default_func_blocksize() -> (r: u16)
    ensures
        r == SDIO_FUNC_BLOCKSIZE_DEFAULT,
{
    SDIO_FUNC_BLOCKSIZE_DEFAULT
}

/// `sz` rounded up to a whole number of `blk`-byte blocks; `sz` itself when `blk` is 0.
pub fn align_size(sz: usize, blk: u16) -> (r: usize)
    requires
        sz + blk <= usize::MAX,
    ensures
        blk == 0 ==> r == sz,
        blk > 0 ==> r == (sz + blk - 1) / (blk as int) * blk,
{
    if blk == 0 {
        return sz;
    }
    let b = blk as usize;
    let q = (sz + b - 1) / b;
    proof {
        assert(q * b <= sz + b - 1) by (nonlinear_arith)
            requires
                q == (sz + b - 1) / (b as int),
                b > 0,
        ;
    }
    q * b
}

/// One SDIO function of a card.
pub trait SdioFunc {
    fn num(&self) -> u8;

    fn vendor(&self) -> u16;

    fn device(&self) -> u16;

    fn class(&self) -> u8;

    fn cur_blksize(&self) -> u16;

    fn readb(&self, addr: u32) -> Result<u8, i32>;

    fn writeb(&self, addr: u32, b: u8) -> Result<(), i32>;

    fn set_block_size(&self, blksz: u16) -> Result<(), i32>;

    fn enable_func(&self) -> Result<(), i32>;

    fn disable_func(&self) -> Result<(), i32>;
}

/// A host controller whose bus can be claimed and configured.
pub trait MmcHost {
    fn set_ios(&self, ios: &MmcIos) -> Result<(), i32>;
}

} // verus!
