//! Chip identity: product families, SDIO vendor/device matching, chip revision.
use vstd::prelude::*;

use crate::error::DrvError;

verus! {

pub const VENDOR_AIC8801: u16 = 0x5449;
pub const DEVICE_AIC8801: u16 = 0x0145;
pub const DEVICE_AIC8801_FUNC2: u16 = 0x0146;
pub const VENDOR_AIC8800DC: u16 = 0xc8a1;
pub const DEVICE_AIC8800DC: u16 = 0xc08d;
pub const VENDOR_AIC8800D80: u16 = 0xc8a1;
pub const DEVICE_AIC8800D80: u16 = 0x0082;
pub const DEVICE_AIC8800D80_FUNC2: u16 = 0x0182;
pub const VENDOR_AIC8800D80X2: u16 = 0xc8a1;
pub const DEVICE_AIC8800D80X2: u16 = 0x2082;

/// Memory address holding the chip revision.
pub const CHIP_REV_MEM_ADDR: u32 = 0x4050_0000;

/// Chip revision U02 of the 8801.
pub const CHIP_REV_U02: u8 = 3;

/// Chip revision U03 (and U04) of the 8801.
pub const CHIP_REV_U03: u8 = 7;

/// Power state of the SDIO link.
#[derive(Clone, Copy, Debug, PartialEq, Eq, Structural)]
pub enum SdioState {
    Sleep,
    Active,
}

/// The chip families the driver supports.
#[derive(Clone, Copy, Debug, PartialEq, Eq, Structural)]
pub enum ProductId {
    Aic8801,
    Aic8800Dc,
    Aic8800Dw,
    Aic8800D80,
    Aic8800D80X2,
}

/// Type of an SDIO frame.
#[derive(Clone, Copy, Debug, PartialEq, Eq, Structural)]
pub enum SdioType {
    Data,
    Cfg,
    CfgCmdRsp,
    CfgDataCfm,
}

impl SdioType {
    /// The type code on the bus.
    pub fn code(&self) -> (r: u8)
        ensures
            r == match *self {
                SdioType::Data => 0x00u8,
                SdioType::Cfg => 0x10u8,
                SdioType::CfgCmdRsp => 0x11u8,
                SdioType::CfgDataCfm => 0x12u8,
            },
    {
        match self {
            SdioType::Data => 0x00,
            SdioType::Cfg => 0x10,
            SdioType::CfgCmdRsp => 0x11,
            SdioType::CfgDataCfm => 0x12,
        }
    }
}

/// The family a (vendor, device) pair read from the CIS belongs to, if any.
pub open spec fn family_of(vid: u16, did: u16) -> Option<ProductId> {
    if vid == VENDOR_AIC8801 && (did == DEVICE_AIC8801 || did == DEVICE_AIC8801_FUNC2) {
        Some(ProductId::Aic8801)
    } else if vid == VENDOR_AIC8800DC && did == DEVICE_AIC8800DC {
        Some(ProductId::Aic8800Dc)
    } else if vid == VENDOR_AIC8800D80 && (did == DEVICE_AIC8800D80 || did
        == DEVICE_AIC8800D80_FUNC2) {
        Some(ProductId::Aic8800D80)
    } else if vid == VENDOR_AIC8800D80X2 && did == DEVICE_AIC8800D80X2 {
        Some(ProductId::Aic8800D80X2)
    } else {
        None
    }
}

/// Whether (vendor, device) is on the allow-list of supported chips.
pub fn is_known_aic_sdio(vid: u16, did: u16) -> (r: bool)
    ensures
        r == family_of(vid, did) is Some,
{
    if vid == VENDOR_AIC8801 && (did == DEVICE_AIC8801 || did == DEVICE_AIC8801_FUNC2) {
        return true;
    }
    if vid == VENDOR_AIC8800DC && did == DEVICE_AIC8800DC {
        return true;
    }
    if vid == VENDOR_AIC8800D80 && (did == DEVICE_AIC8800D80 || did == DEVICE_AIC8800D80_FUNC2) {
        return true;
    }
    if vid == VENDOR_AIC8800D80X2 && did == DEVICE_AIC8800D80X2 {
        return true;
    }
    false
}

/// The product family of (vendor, device), if it is a supported chip.
pub fn chipmatch(vid: u16, did: u16) -> (r: Option<ProductId>)
    ensures
        r == family_of(vid, did),
{
    if vid == VENDOR_AIC8801 && (did == DEVICE_AIC8801 || did == DEVICE_AIC8801_FUNC2) {
        Some(ProductId::Aic8801)
    } else if vid == VENDOR_AIC8800DC && did == DEVICE_AIC8800DC {
        Some(ProductId::Aic8800Dc)
    } else if vid == VENDOR_AIC8800D80 && (did == DEVICE_AIC8800D80 || did
        == DEVICE_AIC8800D80_FUNC2) {
        Some(ProductId::Aic8800D80)
    } else if vid == VENDOR_AIC8800D80X2 && did == DEVICE_AIC8800D80X2 {
        Some(ProductId::Aic8800D80X2)
    } else {
        None
    }
}

/// Same as `chipmatch`.
pub fn aicwf_sdio_chipmatch(vid: u16, did: u16) -> (r: Option<ProductId>)
    ensures
        r == family_of(vid, did),
{
    chipmatch(vid, did)
}

/// The product family of (vendor, device); no-device for any chip off the allow-list.
pub fn identify_chip(vid: u16, did: u16) -> (r: Result<ProductId, DrvError>)
    ensures
        family_of(vid, did) matches Some(p) ==> r == Ok::<ProductId, DrvError>(p),
        family_of(vid, did) is None ==> r == Err::<ProductId, DrvError>(DrvError::NoDevice),
{
    match chipmatch(vid, did) {
        Some(p) => Ok(p),
        None => Err(DrvError::NoDevice),
    }
}

/// The (vendor, device) pair of a product family, function 1 ids.
pub fn product_id_to_vid_did(p: ProductId) -> (r: (u16, u16))
    ensures
        family_of(r.0, r.1) == Some(
            if p == ProductId::Aic8800Dw {
                ProductId::Aic8800Dc
            } else {
                p
            },
        ),
{
    match p {
        ProductId::Aic8801 => (VENDOR_AIC8801, DEVICE_AIC8801),
        ProductId::Aic8800Dc => (VENDOR_AIC8800DC, DEVICE_AIC8800DC),
        ProductId::Aic8800Dw => (VENDOR_AIC8800DC, DEVICE_AIC8800DC),
        ProductId::Aic8800D80 => (VENDOR_AIC8800D80, DEVICE_AIC8800D80),
        ProductId::Aic8800D80X2 => (VENDOR_AIC8800D80X2, DEVICE_AIC8800D80X2),
    }
}

/// The chip revision and the H flag read from the revision word: for the 8801 the
/// byte at bits 16..23; for the other families bits 16..21, and the H flag when
/// bits 22..23 are both set (never for the D80X2).
pub open spec fn chip_rev_spec(p: ProductId, memdata: u32) -> (u8, bool) {
    let b = (memdata / 65536) % 256;
    match p {
        ProductId::Aic8801 => (b as u8, false),
        ProductId::Aic8800D80X2 => ((b % 64) as u8, false),
        _ => ((b % 64) as u8, b / 64 == 3),
    }
}

/// Decodes the revision word read from `CHIP_REV_MEM_ADDR`.
pub fn decode_chip_rev(p: ProductId, memdata: u32) -> (r: (u8, bool))
    ensures
        r == chip_rev_spec(p, memdata),
{
    let b: u32 = (memdata / 65536) % 256;
    match p {
        ProductId::Aic8801 => (b as u8, false),
        ProductId::Aic8800D80X2 => ((b % 64) as u8, false),
        _ => ((b % 64) as u8, b / 64 == 3),
    }
}

/// Whether an 8801 revision is one the driver accepts (U02 or U03/U04).
pub fn is_supported_rev_8801(rev: u8) -> (r: bool)
    ensures
        r == (rev == CHIP_REV_U02 || rev == CHIP_REV_U03),
{
    rev == CHIP_REV_U02 || rev == CHIP_REV_U03
}

/// The 8801 chip revision of a revision word; invalid-argument unless it is U02 or U03.
pub fn chip_rev_8801(memdata: u32) -> (r: Result<u8, DrvError>)
    ensures
        ({
            let b = ((memdata / 65536) % 256) as u8;
            if b == CHIP_REV_U02 || b == CHIP_REV_U03 {
                r == Ok::<u8, DrvError>(b)
            } else {
                r == Err::<u8, DrvError>(DrvError::Invalid)
            }
        }),
{
    let (rev, _) = decode_chip_rev(ProductId::Aic8801, memdata);
    if is_supported_rev_8801(rev) {
        Ok(rev)
    } else {
        Err(DrvError::Invalid)
    }
}

/// Whether the chip must stay on a 1-bit bus on this platform (the 8801 does).
pub fn needs_1bit_bus(p: ProductId) -> (r: bool)
    ensures
        r == (p == ProductId::Aic8801),
{
    match p {
        ProductId::Aic8801 => true,
        _ => false,
    }
}

} // verus!
