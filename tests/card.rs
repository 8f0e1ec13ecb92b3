use aic8800_sdio::chip::{chipmatch, identify_chip, is_known_aic_sdio, product_id_to_vid_did, ProductId};
use aic8800_sdio::cis::{
    block_size_writes, cis_ptr_from_bytes, identify_chip_from_cis, io_disable_value, io_enable_value, io_ready_ok,
    parse_cis_for_manfid, probe_chip_type, read_vendor_device, sdio_fbr_base,
};
use aic8800_sdio::error::DrvError;
use aic8800_sdio::firmware::{get_firmware_list, wl_fw_name, AicBspCpMode, ChipRev, FwTable};
use aic8800_sdio::init::{init_advance, teardown_plan, InitError, InitStage};
use aic8800_sdio::mmc::{enum_step, fn_enable_step, EnumAction, EnumState, FnEnableAction, FnEnableState, align_size, cmd5_voltage_arg, cmd7_arg, r4_ready, rca_from_r6, MmcIos, SdioDeviceId};

#[test]
fn enumeration_values() {
    let ocr = 0x00FF_8000u32;
    assert_eq!(cmd5_voltage_arg(ocr | 0x20), 0x00FF_8000);
    assert!(r4_ready(0x80FF_8000));
    assert!(!r4_ready(0x00FF_8000));
    assert_eq!(rca_from_r6(0x1234_0500), 0x1234);
    assert_eq!(cmd7_arg(0x1234), 0x1234_0000);
    assert_eq!(MmcIos::default_legacy().clock, 400_000);
}

#[test]
fn enable_function_1() {
    assert_eq!(io_enable_value(0x00, 1), 0x02);
    assert_eq!(io_disable_value(0x06, 1), 0x04);
    assert!(io_ready_ok(0x02, 1));
    assert!(io_ready_ok(0x10, 1));
    assert!(!io_ready_ok(0x04, 1));
    assert_eq!(block_size_writes(1, 512), ((0x110, 0x00), (0x111, 0x02)));
    assert_eq!(sdio_fbr_base(2), 0x200);
}

#[test]
fn cis_walk_finds_manfid() {
    let cis = [0x00, 0x21, 0x02, 0xAA, 0xBB, 0x20, 0x04, 0x49, 0x54, 0x45, 0x01, 0xFF];
    assert_eq!(parse_cis_for_manfid(&cis), Some((0x5449, 0x0145)));
    assert_eq!(identify_chip_from_cis(&cis), Ok(ProductId::Aic8801));
    assert_eq!(parse_cis_for_manfid(&[0xFF]), None);
    assert_eq!(parse_cis_for_manfid(&[0x20, 0x04, 0x49]), None);
    let other = [0x20, 0x04, 0x34, 0x12, 0x78, 0x56];
    assert_eq!(identify_chip_from_cis(&other), Err(DrvError::NoDevice));
    assert_eq!(read_vendor_device(0, &cis, &other), Ok((0x1234, 0x5678)));
    assert_eq!(read_vendor_device(0x1000, &cis, &other), Ok((0x5449, 0x0145)));
    assert_eq!(read_vendor_device(0xFF_FFFF, &[0xFF], &[0xFF]), Err(DrvError::NoDevice));
    assert_eq!(cis_ptr_from_bytes(0x00, 0x10, 0x00), 0x1000);
    assert_eq!(cis_ptr_from_bytes(0xFF, 0xFF, 0xFF), 0x1_FFFF);
    assert_eq!(DrvError::NoDevice.code(), -19);
}

#[test]
fn chip_allow_list() {
    assert_eq!(chipmatch(0x5449, 0x0145), Some(ProductId::Aic8801));
    assert_eq!(chipmatch(0x5449, 0x0146), Some(ProductId::Aic8801));
    assert_eq!(chipmatch(0xc8a1, 0xc08d), Some(ProductId::Aic8800Dc));
    assert_eq!(chipmatch(0xc8a1, 0x0082), Some(ProductId::Aic8800D80));
    assert_eq!(chipmatch(0xc8a1, 0x0182), Some(ProductId::Aic8800D80));
    assert_eq!(chipmatch(0xc8a1, 0x2082), Some(ProductId::Aic8800D80X2));
    assert_eq!(chipmatch(0x8800, 0x0001), None);
    assert!(!is_known_aic_sdio(0x5449, 0x0082));
    assert_eq!(identify_chip(0x1111, 0x2222), Err(DrvError::NoDevice));
    assert_eq!(product_id_to_vid_did(ProductId::Aic8800Dw), (0xc8a1, 0xc08d));
    assert_eq!(probe_chip_type(0x04, 0xFF, 0xFF, 0xFF), ProductId::Aic8800Dc);
    assert_eq!(probe_chip_type(0x00, 0x12, 0xFF, 0xFF), ProductId::Aic8800D80);
}

#[test]
fn firmware_table_choice() {
    assert_eq!(get_firmware_list(ProductId::Aic8801, 3, false), Some(FwTable::U02));
    assert_eq!(get_firmware_list(ProductId::Aic8801, 7, false), Some(FwTable::U03));
    assert_eq!(get_firmware_list(ProductId::Aic8801, 1, false), None);
    assert_eq!(get_firmware_list(ProductId::Aic8800Dc, 0xC1, true), Some(FwTable::DcHU02));
    assert_eq!(get_firmware_list(ProductId::Aic8800Dw, 1, false), Some(FwTable::DcU01));
    assert_eq!(get_firmware_list(ProductId::Aic8800Dc, 2, false), None);
    assert_eq!(get_firmware_list(ProductId::Aic8800D80X2, 14, false), None);
    assert_eq!(get_firmware_list(ProductId::Aic8800D80X2, 15, false), Some(FwTable::D80X2));
    assert_eq!(wl_fw_name(FwTable::U02, AicBspCpMode::Work), "fmacfw.bin");
    assert_eq!(wl_fw_name(FwTable::U03, AicBspCpMode::Test), "fmacfw_rf.bin");
    assert_eq!(ChipRev::from_u8(3), Some(ChipRev::U02));
    assert_eq!(ChipRev::from_u8(4), None);
}

#[test]
fn bring_up_stages_and_teardown() {
    assert_eq!(init_advance(InitStage::Power, Ok(())), Ok(InitStage::Enumerate));
    assert_eq!(init_advance(InitStage::StartApp, Ok(())), Ok(InitStage::Done));
    assert_eq!(
        init_advance(InitStage::FwUpload, Err(DrvError::Timeout)),
        Err(InitError { stage: InitStage::FwUpload, err: DrvError::Timeout })
    );
    let t = teardown_plan(0x06);
    assert_eq!(t.io_enable, 0x00);
    assert!(t.stop_workers && t.post_queues && t.release);
    assert_eq!(teardown_plan(0x0F).io_enable, 0x09);
}

#[test]
fn device_ids_and_alignment() {
    let any = SdioDeviceId::any();
    let id = SdioDeviceId::new(7, 0x5449, 0x0145);
    assert!(any.matches(&id));
    assert!(id.matches(&id));
    assert!(!SdioDeviceId::new(7, 0x5449, 0x0146).matches(&id));
    assert_eq!(align_size(1000, 512), 1024);
    assert_eq!(align_size(1000, 0), 1000);
}

#[test]
fn enumeration_steps() {
    let (st, a) = enum_step(EnumState::Idle, Ok(0));
    assert_eq!(a, EnumAction::Send { arg: 0, xfer_mode: 0 });
    let (st, a) = enum_step(st, Err(DrvError::Timeout));
    assert_eq!(st, EnumState::ProbeOcr);
    assert_eq!(a, EnumAction::Send { arg: 0, xfer_mode: 0x0502_0000 });
    assert_eq!(enum_step(st, Ok(0)).1, EnumAction::Finish(Err(DrvError::NoDevice)));
    assert_eq!(enum_step(st, Err(DrvError::BadCrc)).1, EnumAction::Finish(Err(DrvError::BadCrc)));
    let (mut st, a) = enum_step(st, Ok(0x20FF_8000));
    assert_eq!(a, EnumAction::Send { arg: 0x00FF_8000, xfer_mode: 0x0502_0000 });
    let mut sends = 1;
    loop {
        let (n, a) = enum_step(st, Ok(0x00FF_8000));
        st = n;
        match a {
            EnumAction::Send { .. } => sends += 1,
            EnumAction::Finish(r) => {
                assert_eq!(r, Err(DrvError::Timeout));
                break;
            }
            EnumAction::WaitNotInhibit => panic!("not ready yet"),
        }
    }
    assert_eq!(sends, 100);
    let (st, a) = enum_step(EnumState::SelectVoltage { ocr: 0x00FF_8000, tries: 3 }, Ok(0x80FF_8000));
    assert_eq!(st, EnumState::AssignRca);
    assert_eq!(a, EnumAction::Send { arg: 0, xfer_mode: 0x031A_0000 });
    let (st, a) = enum_step(st, Ok(0x1234_0500));
    assert_eq!(st, EnumState::Select { rca: 0x1234 });
    assert_eq!(a, EnumAction::Send { arg: 0x1234_0000, xfer_mode: 0x071B_0000 });
    let (st, a) = enum_step(st, Ok(0));
    assert_eq!(a, EnumAction::WaitNotInhibit);
    assert_eq!(enum_step(st, Ok(0)).1, EnumAction::Finish(Ok(0x1234)));
}

#[test]
fn function_enable_steps() {
    let (st, a) = fn_enable_step(1, 512, FnEnableState::Start, Ok(0));
    assert_eq!(a, FnEnableAction::Read { addr: 0x02, delay_ms: 0 });
    let (st, a) = fn_enable_step(1, 512, st, Ok(0x00));
    assert_eq!(a, FnEnableAction::Write { addr: 0x02, val: 0x02 });
    let (st, a) = fn_enable_step(1, 512, st, Ok(0));
    assert_eq!(a, FnEnableAction::Read { addr: 0x03, delay_ms: 0 });
    let (st2, a) = fn_enable_step(1, 512, st, Ok(0x00));
    assert_eq!(a, FnEnableAction::Read { addr: 0x03, delay_ms: 1 });
    let (st3, a) = fn_enable_step(1, 512, st2, Ok(0x10));
    assert_eq!(a, FnEnableAction::Write { addr: 0x110, val: 0x00 });
    let (st4, a) = fn_enable_step(1, 512, st3, Ok(0));
    assert_eq!(a, FnEnableAction::Write { addr: 0x111, val: 0x02 });
    assert_eq!(fn_enable_step(1, 512, st4, Ok(0)).1, FnEnableAction::Finish(Ok(())));
    assert_eq!(
        fn_enable_step(1, 512, FnEnableState::PollReady { waited_ms: 99 }, Ok(0)).1,
        FnEnableAction::Finish(Err(DrvError::Timeout))
    );
    assert_eq!(fn_enable_step(1, 512, st, Err(DrvError::Io)).1, FnEnableAction::Finish(Err(DrvError::Io)));
}
