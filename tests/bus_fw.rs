use aic8800_sdio::bus::{
    aicwf_sdio_tx_msg_pad, dispatch_rx, flow_ctrl_start, flow_ctrl_step, ipc_send_len_8801, parse_rx_frames,
    rx_data_len, rx_needs_bytemode_len, FlowAction, RxFrame,
};
use aic8800_sdio::chip::{chip_rev_8801, decode_chip_rev, ProductId, CHIP_REV_MEM_ADDR};
use aic8800_sdio::cmd::RwnxCmdMgr;
use aic8800_sdio::error::DrvError;
use aic8800_sdio::fw_load::{
    patch_config_base_req,
    aicbsp_syscfg_tbl_8801, aicbsp_system_config_8801, aicwifi_patch_config_8801, aicwifi_sys_config_8801,
    build_dbg_mem_block_write_req, build_dbg_mem_read_req, build_dbg_mem_write_req, build_dbg_start_app_req,
    finish_dbg_mem_read, fw_block_msg, fw_upload_plan, parse_dbg_mem_read_cfm, push_request, DBG_MEM_READ_CFM,
    DBG_MEM_READ_REQ, DBG_MEM_WRITE_REQ, RAM_FMAC_FW_ADDR,
};
use aic8800_sdio::txq::{wait_tx_done_step, TxMailbox, TxWait};

fn cfm_frame(msg_id: u16, param: &[u8]) -> Vec<u8> {
    let mut f = vec![0u8; 16];
    let total = (12 + param.len()) as u16;
    f[0..2].copy_from_slice(&total.to_le_bytes());
    f[2] = 0x11;
    f[4..6].copy_from_slice(&msg_id.to_le_bytes());
    f[10..12].copy_from_slice(&(param.len() as u16).to_le_bytes());
    f.extend_from_slice(param);
    f
}

#[test]
fn chip_revision_read_8801() {
    let msg = build_dbg_mem_read_req(CHIP_REV_MEM_ADDR);
    assert_eq!(msg.header.id, DBG_MEM_READ_REQ);
    assert_eq!(msg.header.param_len, 4);
    assert_eq!(&msg.param[..4], &[0x00, 0x00, 0x50, 0x40]);
    let mut buf = vec![0u8; 1536];
    let len = msg.serialize_8801(&mut buf);
    assert_eq!(len, 20);
    assert_eq!(&buf[..8], &[16, 0, 0x11, 0, 0, 0, 0, 0]);
    assert_eq!(&buf[8..16], &[0x00, 0x04, 0x01, 0x00, 0x64, 0x00, 0x04, 0x00]);
    assert_eq!(&buf[16..20], &[0x00, 0x00, 0x50, 0x40]);
    assert_eq!(aicwf_sdio_tx_msg_pad(&mut buf, len), 512);
    assert_eq!(ipc_send_len_8801(len), 512);
    let mut mgr = RwnxCmdMgr::new();
    let t = push_request(&mut mgr, DBG_MEM_READ_CFM).unwrap();
    let rx = cfm_frame(DBG_MEM_READ_CFM, &[0x00, 0x00, 0x50, 0x40, 0x00, 0x00, 0x03, 0x00]);
    let (frames, woke) = dispatch_rx(&rx, rx.len(), &mut mgr);
    assert!(woke);
    assert_eq!(frames, vec![RxFrame::Cfm { msg_id: DBG_MEM_READ_CFM, param_start: 16, param_len: 8 }]);
    assert!(mgr.is_done(t));
    let memdata = finish_dbg_mem_read(&mut mgr, t).unwrap();
    assert_eq!(memdata, 0x0003_0000);
    assert_eq!(chip_rev_8801(memdata), Ok(3));
    assert_eq!(chip_rev_8801(0x0007_0000), Ok(7));
    assert_eq!(chip_rev_8801(0x0001_0000), Err(DrvError::Invalid));
    assert_eq!(decode_chip_rev(ProductId::Aic8800Dc, 0x00C3_0000), (3, true));
}

#[test]
fn memory_write_then_read_same_address() {
    let w = build_dbg_mem_write_req(0x4050_0014, 0x0000_0101);
    assert_eq!(w.header.id, DBG_MEM_WRITE_REQ);
    assert_eq!(&w.param[..8], &[0x14, 0x00, 0x50, 0x40, 0x01, 0x01, 0x00, 0x00]);
    let r = build_dbg_mem_read_req(0x4050_0014);
    assert_eq!(&r.param[..4], &w.param[..4]);
    assert_eq!(parse_dbg_mem_read_cfm(&[0x14, 0x00, 0x50, 0x40, 0x01, 0x01, 0x00, 0x00]), Some(0x0000_0101));
    assert_eq!(parse_dbg_mem_read_cfm(&[0; 7]), None);
}

#[test]
fn firmware_upload_of_128k_takes_128_blocks() {
    let plan = fw_upload_plan(RAM_FMAC_FW_ADDR, 128 * 1024);
    assert_eq!(plan.len(), 128);
    for (i, b) in plan.iter().enumerate() {
        assert_eq!(b.len, 1024);
        assert_eq!(b.offset, i * 1024);
        assert_eq!(b.addr, 0x0012_0000 + (i as u32) * 1024);
    }
    let blob = vec![0x5Au8; 128 * 1024];
    let m = fw_block_msg(&blob, plan[5]).unwrap();
    assert_eq!(m.header.param_len, 1032);
    assert_eq!(&m.param[..8], &[0x00, 0x14, 0x12, 0x00, 0x00, 0x04, 0x00, 0x00]);
    let short = fw_upload_plan(0x0019_0000, 1500);
    assert_eq!(short.len(), 2);
    assert_eq!(short[1].len, 476);
    assert!(fw_upload_plan(0, 0).is_empty());
    assert!(build_dbg_mem_block_write_req(0, 0, &vec![0u8; 1025]).is_none());
    assert!(build_dbg_mem_block_write_req(0, 0, &vec![0u8; 1024]).is_some());
}

#[test]
fn start_app_and_config_tables() {
    let m = build_dbg_start_app_req(0x0012_0000, 1);
    assert_eq!(m.header.id, 1036);
    assert_eq!(&m.param[..8], &[0x00, 0x00, 0x12, 0x00, 0x01, 0x00, 0x00, 0x00]);
    let tbl = aicbsp_syscfg_tbl_8801();
    assert_eq!(tbl.len(), 10);
    assert_eq!(tbl[0], (0x4050_0014, 0x0000_0101));
    assert_eq!(tbl[9], (0x5001_7008, 0));
    let msgs = aicbsp_system_config_8801();
    assert_eq!(msgs.len(), 10);
    assert_eq!(&msgs[7].param[..8], &[0x00, 0x00, 0x00, 0x50, 0x04, 0x02, 0x22, 0x03]);
    let p = aicwifi_patch_config_8801(0x1000);
    assert_eq!(p[0], (0x1e5318, 0x1e6000));
    assert_eq!(p[1], (0x1e531c, 6));
    assert_eq!(p[2], (0x1e6000, 0x1104));
    assert_eq!(p[7], (0x1e6014, 0x0011_FC00));
    let base_req = patch_config_base_req();
    assert_eq!(base_req.header.id, DBG_MEM_READ_REQ);
    assert_eq!(&base_req.param[..4], &[0x80, 0x01, 0x19, 0x00]);
    let s = aicwifi_sys_config_8801();
    assert_eq!(s[0].header.id, 1038);
    assert_eq!(s[0].header.param_len, 12);
}

#[test]
fn flow_control_gate() {
    let mut st = flow_ctrl_start();
    assert_eq!(flow_ctrl_step(&mut st, 0x02, 1500), FlowAction::Send);
    let mut st = flow_ctrl_start();
    let mut last = FlowAction::Send;
    let mut reads = 0;
    for _ in 0..50 {
        reads += 1;
        last = flow_ctrl_step(&mut st, 0x00, 1500);
        if last == FlowAction::GiveUp {
            break;
        }
    }
    assert_eq!(last, FlowAction::GiveUp);
    assert_eq!(reads, 50);
    assert_eq!(DrvError::Timeout.code(), -110);
    let mut st = flow_ctrl_start();
    assert_eq!(flow_ctrl_step(&mut st, 0x00, 10), FlowAction::Poll(200));
    let mut st = flow_ctrl_start();
    assert_eq!(flow_ctrl_step(&mut st, 0x81, 1536), FlowAction::Poll(0));
    assert_eq!(st.outer, 1);
}

#[test]
fn tx_padding_lengths() {
    let mut b = vec![0xFFu8; 1536];
    assert_eq!(aicwf_sdio_tx_msg_pad(&mut b, 1048), 1536);
    assert_eq!(b[1047], 0xFF);
    assert!(b[1048..1536].iter().all(|&x| x == 0));
    let mut c = vec![0xFFu8; 1536];
    assert_eq!(aicwf_sdio_tx_msg_pad(&mut c, 512), 512);
    assert_eq!(c[512], 0xFF);
    let mut d = vec![0xAAu8; 1536];
    assert_eq!(aicwf_sdio_tx_msg_pad(&mut d, 508), 512);
    assert_eq!(&d[508..512], &[0; 4]);
    assert_eq!(d[512], 0xAA);
    assert_eq!(ipc_send_len_8801(508), 512);
    assert_eq!(ipc_send_len_8801(1048), 1536);
}

#[test]
fn rx_length_and_frames() {
    assert_eq!(rx_data_len(0, 9), 0);
    assert_eq!(rx_data_len(2, 9), 1024);
    assert_eq!(rx_data_len(64, 9), 36);
    assert!(rx_needs_bytemode_len(64));
    assert!(!rx_needs_bytemode_len(63));
    let mut buf = vec![0u8; 3 + 64];
    buf[0] = 1;
    buf[2] = 0x00;
    let mut two = buf.clone();
    two.extend(cfm_frame(0x1001, &[7, 8]));
    let frames = parse_rx_frames(&two, two.len());
    assert_eq!(frames, vec![
        RxFrame::Data { start: 0, len: 64 },
        RxFrame::Cfm { msg_id: 0x1001, param_start: 67 + 16, param_len: 2 },
    ]);
    let mut mgr = RwnxCmdMgr::new();
    let (_, woke) = dispatch_rx(&two, two.len(), &mut mgr);
    assert!(!woke);
    let junk = vec![0x55u8, 0x55, 0x55, 0x55, 0, 0, 0, 0];
    assert!(parse_rx_frames(&junk, junk.len()).is_empty());
}

#[test]
fn tx_submissions_never_overlap() {
    let mut mb = TxMailbox::new();
    assert_eq!(mb.submit(&[1, 2, 3], 3), Ok(()));
    assert_eq!(mb.submit(&[4], 1), Err(DrvError::Again));
    let (buf, len) = mb.take_pending().unwrap();
    assert_eq!(len, 3);
    assert_eq!(buf.len(), 1536);
    assert_eq!(&buf[..4], &[1, 2, 3, 0]);
    assert_eq!(mb.submit(&[4], 1), Err(DrvError::Again));
    assert!(mb.post_result(-110));
    assert_eq!(mb.submit(&[4], 1), Err(DrvError::Again));
    assert_eq!(mb.take_result(), Some(Err(-110)));
    assert_eq!(mb.submit(&[4], 1), Ok(()));
    assert_eq!(mb.submit(&vec![0u8; 1537], 1537), Err(DrvError::NoMem));
    let mut fresh = TxMailbox::new();
    assert_eq!(fresh.submit(&[1, 2], 3), Err(DrvError::Invalid));
    let mut el = 4950u32;
    assert!(matches!(wait_tx_done_step(&mut el, None, true), TxWait::TimedOut));
    let mut el = 0u32;
    assert!(matches!(wait_tx_done_step(&mut el, Some(Ok(())), false), TxWait::Finished(Ok(()))));
}
