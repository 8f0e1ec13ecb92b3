//! Board support information and the choice of firmware table.
use vstd::prelude::*;

use crate::chip::ProductId;

verus! {

/// Subsystems of the chip.
#[derive(Clone, Copy, Debug, PartialEq, Eq, Structural)]
pub enum AicBspSubsys {
    Bluetooth,
    Wifi,
}

/// Power state of a subsystem.
#[derive(Clone, Copy, Debug, PartialEq, Eq, Structural)]
pub enum AicBspPwrState {
    Off,
    On,
}

/// Kinds of preallocated packet buffers.
#[derive(Clone, Copy, Debug, PartialEq, Eq, Structural)]
pub enum SkBuffId {
    TxData,
}

/// Board features.
#[derive(Clone, Copy, Debug, PartialEq, Eq, Structural)]
pub struct AicBspFeature {
    pub hwinfo: i32,
    pub sdio_clock: u32,
    pub sdio_phase: u8,
    pub fwlog_en: bool,
    pub irqf: u8,
}

/// Board state kept across the bring-up.
#[derive(Clone, Copy, Debug, PartialEq, Eq, Structural)]
pub struct AicBspInfo {
    pub cpmode: u8,
    pub hwinfo_r: i32,
    pub hwinfo: i32,
    pub chip_rev: u8,
    pub fwlog_en: bool,
}

impl AicBspInfo {
    /// All fields zero.
    pub fn default_const() -> (r: AicBspInfo)
        ensures
            r == (AicBspInfo { cpmode: 0, hwinfo_r: 0, hwinfo: 0, chip_rev: 0, fwlog_en: false }),
    {
        AicBspInfo { cpmode: 0, hwinfo_r: 0, hwinfo: 0, chip_rev: 0, fwlog_en: false }
    }
}

/// Chip revisions.
#[derive(Clone, Copy, Debug, PartialEq, Eq, Structural)]
pub enum ChipRev {
    U01,
    U02,
    U03,
}

/// The revision number of a chip revision.
pub open spec fn rev_code(r: ChipRev) -> u8 {
    match r {
        ChipRev::U01 => 1,
        ChipRev::U02 => 3,
        ChipRev::U03 => 7,
    }
}

impl ChipRev {
    /// The revision with number `v`, if any.
    pub fn from_u8(v: u8) -> (r: Option<ChipRev>)
        ensures
            r matches Some(c) ==> rev_code(c) == v,
            r is None ==> v != 1 && v != 3 && v != 7,
    {
        if v == 1 {
            Some(ChipRev::U01)
        } else if v == 3 {
            Some(ChipRev::U02)
        } else if v == 7 {
            Some(ChipRev::U03)
        } else {
            None
        }
    }
}

/// Firmware mode: normal work or RF test.
#[derive(Clone, Copy, Debug, PartialEq, Eq, Structural)]
pub enum AicBspCpMode {
    Work,
    Test,
    Max,
}

/// The firmware tables, one per chip family and revision.
#[derive(Clone, Copy, Debug, PartialEq, Eq, Structural)]
pub enum FwTable {
    U02,
    U03,
    DcU01,
    DcU02,
    DcHU02,
    D80U01,
    D80U02,
    D80HU02,
    D80X2,
}

/// The firmware table for a chip: the 8801 takes U02 or U03 by revision; the DC/DW
/// family takes its H table when the H flag is set, else U01 or U02 by revision,
/// for revisions 1, 3 and 7 only; the D80 likewise without a revision check; the
/// D80X2 needs a revision of at least 15.
pub open spec fn fw_table_of(p: ProductId, chip_rev: u8, is_h: bool) -> Option<FwTable> {
    let rev = chip_rev % 64;
    match p {
        ProductId::Aic8801 => if chip_rev == 3 {
            Some(FwTable::U02)
        } else if chip_rev == 7 {
            Some(FwTable::U03)
        } else {
            None
        },
        ProductId::Aic8800Dc | ProductId::Aic8800Dw => if rev != 1 && rev != 3 && rev != 7 {
            None
        } else if is_h {
            Some(FwTable::DcHU02)
        } else if rev == 1 {
            Some(FwTable::DcU01)
        } else {
            Some(FwTable::DcU02)
        },
        ProductId::Aic8800D80 => if is_h {
            Some(FwTable::D80HU02)
        } else if rev == 1 {
            Some(FwTable::D80U01)
        } else {
            Some(FwTable::D80U02)
        },
        ProductId::Aic8800D80X2 => if rev >= 15 {
            Some(FwTable::D80X2)
        } else {
            None
        },
    }
}

/// Picks the firmware table for a chip (see `fw_table_of`).
pub fn get_firmware_list(product_id: ProductId, chip_rev: u8, is_chip_id_h: bool) -> (r: Option<FwTable>)
    ensures
        r == fw_table_of(product_id, chip_rev, is_chip_id_h),
{
    let rev = chip_rev % 64;
    match product_id {
        ProductId::Aic8801 => {
            if chip_rev == 3 {
                Some(FwTable::U02)
            } else if chip_rev == 7 {
                Some(FwTable::U03)
            } else {
                None
            }
        },
        ProductId::Aic8800Dc | ProductId::Aic8800Dw => {
            if rev != 1 && rev != 3 && rev != 7 {
                None
            } else if is_chip_id_h {
                Some(FwTable::DcHU02)
            } else if rev == 1 {
                Some(FwTable::DcU01)
            } else {
                Some(FwTable::DcU02)
            }
        },
        ProductId::Aic8800D80 => {
            if is_chip_id_h {
                Some(FwTable::D80HU02)
            } else if rev == 1 {
                Some(FwTable::D80U01)
            } else {
                Some(FwTable::D80U02)
            }
        },
        ProductId::Aic8800D80X2 => {
            if rev >= 15 {
                Some(FwTable::D80X2)
            } else {
                None
            }
        },
    }
}

/// The file name of the WiFi firmware of a table in a mode.
pub open spec fn wl_fw_of(t: FwTable, test: bool) -> Seq<char> {
    match t {
        FwTable::U02 | FwTable::U03 => if test {
            "fmacfw_rf.bin"@
        } else {
            "fmacfw.bin"@
        },
        FwTable::DcU01 | FwTable::DcU02 | FwTable::DcHU02 => if test {
            "lmacfw_rf_8800dc.bin"@
        } else {
            "fmacfw_patch_8800dc_u02.bin"@
        },
        _ => if test {
            "lmacfw_rf_8800d80_u02.bin"@
        } else {
            "fmacfw_8800d80_u02.bin"@
        },
    }
}

/// The file name of the WiFi firmware of a table: entry 0 (normal work) or entry 1
/// (RF test) by the mode.
pub fn wl_fw_name(t: FwTable, mode: AicBspCpMode) -> (r: &'static str)
    ensures
        r@ == wl_fw_of(t, mode == AicBspCpMode::Test),
{
    let test = match mode {
        AicBspCpMode::Test => true,
        _ => false,
    };
    match t {
        FwTable::U02 | FwTable::U03 => if test {
            "fmacfw_rf.bin"
        } else {
            "fmacfw.bin"
        },
        FwTable::DcU01 | FwTable::DcU02 | FwTable::DcHU02 => if test {
            "lmacfw_rf_8800dc.bin"
        } else {
            "fmacfw_patch_8800dc_u02.bin"
        },
        _ => if test {
            "lmacfw_rf_8800d80_u02.bin"
        } else {
            "fmacfw_8800d80_u02.bin"
        },
    }
}

} // verus!
