//! SDIO card registers: CCCR and FBR addressing, function enable, and the CIS
//! tuple walk that yields the vendor and device ids.
use vstd::prelude::*;

use crate::bytes::from_le16;
use crate::chip::{family_of, ProductId};
use crate::error::DrvError;

verus! {

/// CIS pointer offset in the CCCR and in each FBR.
pub const SDIO_FBR_CIS: u32 = 0x09;

/// Tuple code of the manufacturer id tuple.
pub const CISTPL_MANFID: u8 = 0x20;

/// Tuple code that ends the chain.
pub const CISTPL_END: u8 = 0xff;

/// Tuple code of a one-byte null tuple.
pub const CISTPL_NULL: u8 = 0x00;

/// Mask of the 17-bit SDIO register address.
pub const SDIO_ADDR_17BIT_MASK: u32 = 0x1_FFFF;

/// Most tuples walked before giving up.
pub const MAX_TUPLES: u32 = 256;

/// CCCR registers.
pub const SDIO_CCCR_IOEX: u32 = 0x02;
pub const SDIO_CCCR_IORX: u32 = 0x03;
pub const SDIO_CCCR_INTX: u32 = 0x05;
pub const SDIO_CCCR_IF: u32 = 0x07;
pub const SDIO_CCCR_SPEED: u32 = 0x13;

/// Bus-width code for a 4-bit bus in CCCR IF.
pub const SDIO_BUS_WIDTH_4BIT: u8 = 0x02;

/// Mask of the bus-width field of CCCR IF.
pub const SDIO_BUS_WIDTH_MASK: u8 = 0x03;

/// Alternate ready bit some AIC parts use in IO_READY.
pub const IO_READY_ALT_BIT: u8 = 0x10;

/// Timeout of the wait for IO_READY, in milliseconds.
pub const IO_READY_TIMEOUT_MS: u32 = 100;

/// The base address of function `func`'s FBR.
pub fn sdio_fbr_base(func_num: u8) -> (r: u32)
    ensures
        r == func_num * 0x100,
{
    func_num as u32 * 0x100
}

/// The CIS pointer held little-endian in three bytes, masked to 17 bits.
pub fn cis_ptr_from_bytes(b0: u8, b1: u8, b2: u8) -> (r: u32)
    ensures
        r == (b0 + 256 * b1 + 65536 * b2) % 0x2_0000,
{
    (b0 as u32 + 256 * b1 as u32 + 65536 * b2 as u32) % 0x2_0000
}

/// Whether a raw 24-bit CIS pointer is worth following (neither 0 nor all ones).
pub fn cis_ptr_valid(raw: u32) -> (r: bool)
    ensures
        r == (raw != 0 && raw != 0xFF_FFFF),
{
    raw != 0 && raw != 0xFF_FFFF
}

/// The manufacturer ids found by walking the tuples of `b` from `p`, with at most
/// `fuel` tuples left: NULL tuples are one byte, END or a link of 0xFF stops the
/// walk, a MANFID tuple with a link of at least 4 gives (vendor LE16, device LE16).
pub open spec fn cis_scan(b: Seq<u8>, p: int, fuel: nat) -> Option<(u16, u16)>
    decreases fuel,
{
    if fuel == 0 || p < 0 || p >= b.len() {
        None
    } else {
        let code = b[p];
        if code == CISTPL_END {
            None
        } else if code == CISTPL_NULL {
            cis_scan(b, p + 1, (fuel - 1) as nat)
        } else if p + 1 >= b.len() {
            None
        } else {
            let link = b[p + 1];
            if link == CISTPL_END {
                None
            } else if code == CISTPL_MANFID && link >= 4 {
                if p + 6 <= b.len() {
                    Some(
                        (
                            from_le16(b[p + 2], b[p + 3]) as u16,
                            from_le16(b[p + 4], b[p + 5]) as u16,
                        ),
                    )
                } else {
                    None
                }
            } else {
                cis_scan(b, p + 2 + link, (fuel - 1) as nat)
            }
        }
    }
}

/// Walks the CIS tuples held in `cis` (the bytes read from the CIS pointer on) and
/// returns the (vendor, device) of the first MANFID tuple, if any lies in `cis`.
pub fn parse_cis_for_manfid(cis: &[u8]) -> (r: Option<(u16, u16)>)
    ensures
        r == cis_scan(cis@, 0, MAX_TUPLES as nat),
{
    let mut p: usize = 0;
    let mut fuel: u32 = MAX_TUPLES;
    while fuel > 0
        invariant
            cis_scan(cis@, p as int, fuel as nat) == cis_scan(cis@, 0, MAX_TUPLES as nat),
            p <= cis@.len(),
        decreases fuel,
    {
        if p >= cis.len() {
            return None;
        }
        let code = cis[p];
        if code == CISTPL_END {
            return None;
        }
        if code == CISTPL_NULL {
            p = p + 1;
            fuel = fuel - 1;
            continue;
        }
        if p + 1 >= cis.len() {
            return None;
        }
        let link = cis[p + 1];
        if link == CISTPL_END {
            return None;
        }
        if code == CISTPL_MANFID && link >= 4 {
            if cis.len() - p >= 6 {
                let vendor = crate::bytes::get_u16_le(cis, p + 2);
                let device = crate::bytes::get_u16_le(cis, p + 4);
                return Some((vendor, device));
            }
            return None;
        }
        if cis.len() - (p + 2) < link as usize {
            assert(cis_scan(cis@, p + 2 + link, (fuel - 1) as nat) is None);
            return None;
        }
        p = p + 2 + link as usize;
        fuel = fuel - 1;
    }
    None
}

/// The product family named by the CIS bytes; no-device when the CIS holds no
/// MANFID tuple or names a chip off the allow-list.
pub fn identify_chip_from_cis(cis: &[u8]) -> (r: Result<ProductId, DrvError>)
    ensures
        ({
            match cis_scan(cis@, 0, MAX_TUPLES as nat) {
                Some((v, d)) => match family_of(v, d) {
                    Some(p) => r == Ok::<ProductId, DrvError>(p),
                    None => r == Err::<ProductId, DrvError>(DrvError::NoDevice),
                },
                None => r == Err::<ProductId, DrvError>(DrvError::NoDevice),
            }
        }),
{
    match parse_cis_for_manfid(cis) {
        Some((v, d)) => crate::chip::identify_chip(v, d),
        None => Err(DrvError::NoDevice),
    }
}

/// The (vendor, device) found first in the common CIS, then in the function's CIS;
/// no-device when neither holds one. The common CIS is skipped when its pointer is
/// not worth following.
pub fn read_vendor_device(common_ptr_raw: u32, common_cis: &[u8], func_cis: &[u8]) -> (r: Result<(u16, u16), DrvError>)
    ensures
        ({
            let c = if common_ptr_raw != 0 && common_ptr_raw != 0xFF_FFFF {
                cis_scan(common_cis@, 0, MAX_TUPLES as nat)
            } else {
                None
            };
            let f = cis_scan(func_cis@, 0, MAX_TUPLES as nat);
            if c is Some {
                r == Ok::<(u16, u16), DrvError>(c->0)
            } else if f is Some {
                r == Ok::<(u16, u16), DrvError>(f->0)
            } else {
                r == Err::<(u16, u16), DrvError>(DrvError::NoDevice)
            }
        }),
{
    if cis_ptr_valid(common_ptr_raw) {
        if let Some(ids) = parse_cis_for_manfid(common_cis) {
            return Ok(ids);
        }
    }
    match parse_cis_for_manfid(func_cis) {
        Some(ids) => Ok(ids),
        None => Err(DrvError::NoDevice),
    }
}

/// The IO_ENABLE value that enables function `func` on top of `current`.
pub fn io_enable_value(current: u8, func: u8) -> (r: u8)
    requires
        func < 8,
    ensures
        r == current | (1u8 << func),
{
    current | (1u8 << func)
}

/// The IO_ENABLE value that disables function `func` on top of `current`.
pub fn io_disable_value(current: u8, func: u8) -> (r: u8)
    requires
        func < 8,
    ensures
        r == current & !(1u8 << func),
{
    current & !(1u8 << func)
}

/// Whether IO_READY shows function `func` ready: its bit, or the alternate bit 4.
pub fn io_ready_ok(ready: u8, func: u8) -> (r: bool)
    requires
        func < 8,
    ensures
        r == (ready & (1u8 << func) != 0 || ready & IO_READY_ALT_BIT != 0),
{
    ready & (1u8 << func) != 0 || ready & IO_READY_ALT_BIT != 0
}

/// The two CMD52 writes (address on function 0, value) that set function `func`'s
/// block size: low byte at FBR + 0x10, high byte at FBR + 0x11.
pub fn block_size_writes(func: u8, size: u16) -> (r: ((u32, u8), (u32, u8)))
    ensures
        r.0.0 == func * 0x100 + 0x10,
        r.0.1 == size % 256,
        r.1.0 == func * 0x100 + 0x11,
        r.1.1 == size / 256,
{
    let base = sdio_fbr_base(func);
    ((base + 0x10, (size % 256) as u8), (base + 0x11, (size / 256) as u8))
}

/// The CCCR IF value that selects a 4-bit bus on top of `current`.
pub fn bus_if_4bit_value(current: u8) -> (r: u8)
    ensures
        r == (current & !SDIO_BUS_WIDTH_MASK) | SDIO_BUS_WIDTH_4BIT,
{
    (current & !SDIO_BUS_WIDTH_MASK) | SDIO_BUS_WIDTH_4BIT
}

/// The HOST_CTRL1 value with the 4-bit data width bit (bit 1) set or cleared.
pub fn host_ctrl_bus_width(current: u32, width_4: bool) -> (r: u32)
    ensures
        r == if width_4 {
            current | 2
        } else {
            current & !2u32
        },
{
    if width_4 {
        current | 2
    } else {
        current & !2u32
    }
}

/// The product family guessed from function-2 readiness and the F0 vendor bytes:
/// a ready function 2 means the DC family; otherwise any vendor byte other than
/// 0xFF means the D80; else the DC.
pub fn probe_chip_type(io_ready: u8, f0: u8, f1: u8, f2: u8) -> (r: ProductId)
    ensures
        r == if io_ready & 0x04 != 0 || io_ready & 0x10 != 0 {
            ProductId::Aic8800Dc
        } else if f0 != 0xFF || f1 != 0xFF || f2 != 0xFF {
            ProductId::Aic8800D80
        } else {
            ProductId::Aic8800Dc
        },
{
    if io_ready & 0x04 != 0 || io_ready & 0x10 != 0 {
        ProductId::Aic8800Dc
    } else if f0 != 0xFF || f1 != 0xFF || f2 != 0xFF {
        ProductId::Aic8800D80
    } else {
        ProductId::Aic8800Dc
    }
}

} // verus!
