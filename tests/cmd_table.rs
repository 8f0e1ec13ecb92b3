use aic8800_sdio::cmd::{LmacMsg, RwnxCmdMgr, TaskId, WaitStep, CMD_MGR_MAX_PENDING};
use aic8800_sdio::error::DrvError;
use aic8800_sdio::fw_load::{finish_request, push_request, DBG_MEM_READ_CFM};

#[test]
fn push_confirm_take_reuses_slot() {
    let mut m = RwnxCmdMgr::new();
    let t = m.push(1025).unwrap();
    assert_eq!(t, 0);
    assert!(!m.is_done(t));
    assert!(m.on_cfm(1025, &[1, 2, 3]));
    assert!(m.is_done(t));
    // a second confirmation for the same id finds no pending slot
    assert!(!m.on_cfm(1025, &[9, 9, 9]));
    let mut out = vec![0u8; 8];
    assert_eq!(m.take_cfm(t, &mut out), Some(3));
    assert_eq!(&out[..3], &[1, 2, 3]);
    assert!(!m.is_done(t));
    assert_eq!(m.push(7), Some(t));
}

#[test]
fn push_into_full_table_is_out_of_memory() {
    let mut m = RwnxCmdMgr::new();
    for i in 0..CMD_MGR_MAX_PENDING {
        assert_eq!(m.push(i as u16), Some(i));
    }
    assert_eq!(m.push(99), None);
    let r = push_request(&mut m, DBG_MEM_READ_CFM);
    assert_eq!(r, Err(DrvError::NoMem));
    assert_eq!(DrvError::NoMem.code(), -12);
}

#[test]
fn unmatched_confirmation_is_dropped() {
    let mut m = RwnxCmdMgr::new();
    let t = m.push(1027).unwrap();
    assert!(!m.on_cfm(1035, &[0; 4]));
    assert!(!m.is_done(t));
    assert_eq!(finish_request(&mut m, t), Err(DrvError::Io));
}

#[test]
fn confirmation_is_capped_at_256_bytes() {
    let mut m = RwnxCmdMgr::new();
    let t = m.push(5).unwrap();
    let big = vec![0xABu8; 300];
    assert!(m.on_cfm(5, &big));
    let mut out = vec![0u8; 400];
    assert_eq!(m.take_cfm(t, &mut out), Some(256));
    assert_eq!(out[255], 0xAB);
    assert_eq!(out[256], 0);
}

#[test]
fn first_matching_slot_takes_confirmation() {
    let mut m = RwnxCmdMgr::new();
    let a = m.push(40).unwrap();
    let b = m.push(40).unwrap();
    assert!(m.on_cfm(40, &[1]));
    assert!(m.is_done(a));
    assert!(!m.is_done(b));
    assert!(m.on_cfm(40, &[2]));
    assert!(m.is_done(b));
    assert!(!m.is_done(CMD_MGR_MAX_PENDING));
}

#[test]
fn take_of_unconfirmed_slot_frees_it() {
    let mut m = RwnxCmdMgr::new();
    let t = m.push(3).unwrap();
    let mut out = vec![7u8; 2];
    assert_eq!(m.take_cfm(t, &mut out), None);
    assert_eq!(out, vec![7u8, 7]);
    assert_eq!(m.push(4), Some(t));
}

#[test]
fn wait_step_times_out_and_ticks() {
    let mut waited = 0u32;
    assert_eq!(RwnxCmdMgr::wait_done_until(3, &mut waited, false, 2), WaitStep::Continue { tick: false });
    assert_eq!(RwnxCmdMgr::wait_done_until(3, &mut waited, false, 2), WaitStep::Continue { tick: false });
    assert_eq!(RwnxCmdMgr::wait_done_until(3, &mut waited, false, 2), WaitStep::Continue { tick: true });
    assert_eq!(waited, 3);
    assert_eq!(RwnxCmdMgr::wait_done_until(3, &mut waited, true, 2), WaitStep::TimedOut);
    let mut w2 = 1u32;
    assert_eq!(RwnxCmdMgr::wait_done_until(3, &mut w2, true, 2), WaitStep::Done);
}

#[test]
fn serialize_header_and_params() {
    let mut msg = LmacMsg::new(0x0400, 1, 100, 4);
    msg.param[0] = 0xAA;
    msg.param[3] = 0xBB;
    let mut buf = vec![0xEEu8; 16];
    assert_eq!(msg.serialize(&mut buf), 12);
    assert_eq!(&buf[..12], &[0x00, 0x04, 0x01, 0x00, 0x64, 0x00, 0x04, 0x00, 0xAA, 0, 0, 0xBB]);
    assert_eq!(&buf[12..], &[0xEE; 4]);
    assert_eq!(TaskId::Dbg.code(), 1);
    assert_eq!(TaskId::Unset.code(), 0xFF);
}
