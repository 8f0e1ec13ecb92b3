use aic8800_sdio::cfgfile::{
    find_tag, hex_nibble, parse_configfile, parse_hex8, parse_karst_configfile, parse_mac_addr, RwnxConfFile,
    RwnxKarstConf,
};
use aic8800_sdio::fdrv::{mac_key, WiphyOpsImpl, bus_transition, u32_before, AndroidWifiPrivCmd, BusState, NetDevice, SdioDev, SdioHostEnv, SdioReg, WifiManager, WifiState};
use aic8800_sdio::chip::ProductId;
use aic8800_sdio::error::DrvError;
use aic8800_sdio::ieee80211::{
    channel_to_freq, frame_control, is_action, is_auth, is_beacon, is_deauth, is_mgmt, is_probe_req,
    wlan_cipher_to_mac, Band, Channel, MacCipherSuite, WlanEid,
};
use aic8800_sdio::lmac::{
    build_apm_start_req, build_apm_stop_req, build_mm_add_if_req, build_mm_key_add_req, build_mm_set_power_req,
    build_scanu_start_req, build_sm_connect_req, build_sm_disconnect_req, parse_apm_start_cfm,
    parse_mm_get_sta_info_cfm, parse_mm_rssi_status_ind, parse_scan_result_to_bss_info, parse_scanu_result_ind,
    parse_scanu_start_cfm, parse_sm_connect_ind, parse_sm_disconnect_ind, MacVifType, APM_START_REQ, SM_CONNECT_REQ,
};
use aic8800_sdio::skb::{FrameQueue, SkBuff, SkbQueue};

#[test]
fn lmac_requests() {
    let scan = build_scanu_start_req(2, 1000).unwrap();
    assert_eq!(scan.header.param_len, 329);
    assert_eq!(scan.header.dest_id, 4);
    assert_eq!(&scan.param[309..315], &[0xFF; 6]);
    assert_eq!(scan.param[321], 2);
    assert_eq!(&scan.param[325..329], &[0xE8, 0x03, 0, 0]);
    let c = build_sm_connect_req(1, b"home", None, Some(2437)).unwrap();
    assert_eq!(c.header.id, SM_CONNECT_REQ);
    assert_eq!(c.header.param_len, 313);
    assert_eq!(&c.param[..5], &[4, b'h', b'o', b'm', b'e']);
    assert_eq!(&c.param[33..39], &[0xFF; 6]);
    assert_eq!(&c.param[39..41], &2437u16.to_le_bytes());
    assert_eq!(c.param[56], 1);
    let a = build_mm_add_if_req(MacVifType::Ap, &[1, 2, 3, 4, 5, 6], true);
    assert_eq!(&a.param[..8], &[2, 1, 2, 3, 4, 5, 6, 1]);
    let d = build_sm_disconnect_req(3, 0x0102);
    assert_eq!(&d.param[..3], &[0x02, 0x01, 3]);
    let k = build_mm_key_add_req(1, 2, 0xFF, &[0x11; 16], MacCipherSuite::Ccmp, true).unwrap();
    assert_eq!(k.header.param_len, 39);
    assert_eq!(&k.param[..3], &[2, 0xFF, 16]);
    assert_eq!(&k.param[35..39], &[2, 1, 0, 1]);
    let p = build_mm_set_power_req(0, -3);
    assert_eq!(&p.param[..2], &[0, 0xFD]);
    let ap = build_apm_start_req(0, 6, 100, &[0x82, 0x84]).unwrap();
    assert_eq!(ap.header.id, APM_START_REQ);
    assert_eq!(ap.header.param_len, 45);
    assert_eq!(&ap.param[..3], &[2, 0x82, 0x84]);
    assert_eq!(&ap.param[13..15], &2437u16.to_le_bytes());
    assert_eq!(ap.param[17], 20);
    assert_eq!(ap.param[44], 0);
    assert_eq!(build_apm_stop_req(5).param[0], 5);
}

#[test]
fn lmac_parsers() {
    assert_eq!(parse_scanu_start_cfm(&[1, 0, 9]), Some(0));
    assert_eq!(parse_scanu_start_cfm(&[1, 0]), None);
    let ind = parse_scanu_result_ind(&[100, 0, 0x80, 0, 0x85, 0x09, 0, 1, 0, 0xC4]).unwrap();
    assert_eq!(ind.length, 100);
    assert_eq!(ind.center_freq, 2437);
    assert_eq!(ind.rssi, -60);
    assert_eq!(ind.payload_offset, 10);
    let mut p = vec![0u8; 10];
    let mut frame = vec![0u8; 34];
    frame[16..22].copy_from_slice(&[0xA, 0xB, 0xC, 0xD, 0xE, 0xF]);
    frame.extend_from_slice(&[1, 1, 0x82, 0, 3, b'n', b'e', b't']);
    p.extend_from_slice(&frame);
    let bss = parse_scan_result_to_bss_info(&ind, &p).unwrap();
    assert_eq!(bss.bssid, vec![0xA, 0xB, 0xC, 0xD, 0xE, 0xF]);
    assert_eq!(bss.ssid_len, 3);
    assert_eq!(&bss.ssid[..3], b"net");
    assert_eq!(bss.freq, 2437);
    assert!(parse_scan_result_to_bss_info(&ind, &p[..40]).is_none());
    let ci = parse_sm_connect_ind(&[0, 0, 1, 2, 3, 4, 5, 6, 0, 2, 7]).unwrap();
    assert_eq!(ci.bssid, vec![1, 2, 3, 4, 5, 6]);
    assert_eq!(ci.ap_idx, 7);
    assert_eq!(parse_sm_disconnect_ind(&[3, 0, 1]).unwrap().reason_code, 3);
    assert!(parse_mm_rssi_status_ind(&[0, 1, 0xB0]).unwrap().rssi_status);
    let mut info = vec![0u8; 32];
    info[8] = 0xC4;
    info[12] = 5;
    let s = parse_mm_get_sta_info_cfm(&info).unwrap();
    assert_eq!(s.rssi, -60);
    assert_eq!(s.chan_time, 5);
    assert!(parse_mm_get_sta_info_cfm(&info[..31]).is_none());
    assert_eq!(parse_apm_start_cfm(&[0, 1, 2, 3]).unwrap().bcmc_idx, 3);
}

#[test]
fn ieee_helpers() {
    assert_eq!(frame_control(&[0x80, 0x00, 1]), 0x0080);
    assert_eq!(frame_control(&[0x80]), 0);
    assert!(is_beacon(0x0080));
    assert!(is_mgmt(0x00B0) && is_auth(0x00B0));
    assert!(!is_beacon(0x0088));
    assert!(is_deauth(0x00C0));
    assert!(is_probe_req(0x0040));
    assert!(is_action(0x00D0));
    assert_eq!(wlan_cipher_to_mac(0x000F_AC04), Some(MacCipherSuite::Ccmp));
    assert_eq!(wlan_cipher_to_mac(0x000F_AC06), Some(MacCipherSuite::BipCmac128));
    assert_eq!(wlan_cipher_to_mac(0x1234), None);
    assert_eq!(MacCipherSuite::Invalid.code(), 0xFF);
    assert_eq!(WlanEid::VhtCapability.as_u8(), 191);
    assert_eq!(Channel::new_5g(5180, 20).band, Band::FiveGhz);
    assert_eq!(Channel::new_2g(2412, 20).center_freq, 2412);
    assert_eq!(channel_to_freq(1), 2412);
    assert_eq!(channel_to_freq(36), 5180);
    assert_eq!(channel_to_freq(200), 2412);
}

#[test]
fn config_files() {
    let data = b"# cfg\nMAC_ADDR=88:00:33:77:10:ab\nOTHER=1\n";
    assert_eq!(find_tag(data, b"OTHER="), Some(b"1".to_vec()));
    assert_eq!(find_tag(data, b"NONE="), None);
    let mut conf = RwnxConfFile { mac_addr: vec![] };
    assert_eq!(parse_configfile(data, &mut conf), Ok(()));
    assert_eq!(conf.mac_addr, vec![0x88, 0x00, 0x33, 0x77, 0x10, 0xab]);
    assert_eq!(parse_configfile(b"MAC_ADDR=zz\n", &mut conf), Ok(()));
    assert_eq!(conf.mac_addr, vec![0, 111, 111, 111, 111, 0]);
    assert_eq!(parse_mac_addr(b"0011223344ff"), Some(vec![0, 0x11, 0x22, 0x33, 0x44, 0xff]));
    assert_eq!(parse_mac_addr(b"00:11:22"), None);
    assert_eq!(hex_nibble(b'F'), Some(15));
    assert_eq!(hex_nibble(b'g'), None);
    assert_eq!(parse_hex8(b"01000000"), Some(0x0100_0000));
    assert_eq!(parse_hex8(b"0100000"), None);
    assert_eq!(parse_hex8(b"0100000x"), None);
    let karst = b"KARST_TX_IQ_COMP_2_4G_PATH_0=12345678\nKARST_DEFAULT_PATH=1\n";
    let mut k = RwnxKarstConf {
        tx_iq_comp_2_4g_path_0: 0,
        tx_iq_comp_2_4g_path_1: 0,
        rx_iq_comp_2_4g_path_0: 0,
        rx_iq_comp_2_4g_path_1: 0,
        tx_iq_comp_5g_path_0: 0,
        tx_iq_comp_5g_path_1: 0,
        rx_iq_comp_5g_path_0: 0,
        rx_iq_comp_5g_path_1: 0,
        default_path: 9,
    };
    assert_eq!(parse_karst_configfile(karst, &mut k), Ok(()));
    assert_eq!(k.tx_iq_comp_2_4g_path_0, 0x1234_5678);
    assert_eq!(k.tx_iq_comp_2_4g_path_1, 0x0100_0000);
    assert_eq!(k.default_path, 1);
}

#[test]
fn queues_by_priority() {
    let mut q = SkbQueue::new();
    assert!(q.is_empty());
    q.push_tail(SkBuff::allocate(4));
    q.push_tail(SkBuff::alloc_with_headroom(8, 2));
    assert_eq!(q.len(), 2);
    assert_eq!(q.pop_head().unwrap().headroom(), 0);
    assert_eq!(q.pop_tail().unwrap().headroom(), 2);
    assert!(q.pop_head().is_none());
    let mut f = FrameQueue::new(4);
    assert!(f.is_empty());
    f.enqueue(SkBuff::alloc_with_headroom(8, 1), 2);
    f.enqueue(SkBuff::alloc_with_headroom(8, 3), 9);
    assert!(!f.is_empty());
    assert_eq!(f.dequeue().unwrap().headroom(), 1);
    assert_eq!(f.dequeue().unwrap().headroom(), 3);
    assert!(f.dequeue().is_none());
    assert!(f.is_empty());
}

#[test]
fn skb_room_and_copies() {
    let mut skb = SkBuff::alloc_with_headroom(16, 4);
    assert_eq!(skb.tailroom(), 12);
    assert_eq!(skb.put(13), None);
    let at = skb.put(4).unwrap();
    skb.write(at, &[9, 8, 7, 6]);
    assert!(skb.push(2));
    assert_eq!(skb.data(), &[0, 0, 9, 8, 7, 6]);
    assert!(!skb.push(3));
    skb.reserve(5);
    assert_eq!(skb.headroom(), 5);
    assert_eq!(skb.data(), &[0, 0, 9, 8, 7, 6]);
    let mut dst = vec![1u8; 3];
    assert_eq!(skb.copy_bits(&mut dst, 2, 10), 3);
    assert_eq!(dst, vec![9, 8, 7]);
    assert_eq!(skb.data_len(2), vec![0, 0]);
    skb.pull(100);
    assert!(skb.is_empty());
    skb.set_len(100);
    assert_eq!(skb.len(), 8);
}

#[test]
fn driver_records() {
    assert_eq!(SdioReg::for_product(ProductId::Aic8800D80).wr_fifo_addr, 0x10);
    assert_eq!(SdioReg::for_product(ProductId::Aic8801).wr_fifo_addr, 0x07);
    let mut dev = SdioDev::new(ProductId::Aic8800D80X2);
    assert!(dev.is_v3());
    dev.set_sleep();
    assert_eq!(dev.state, 0);
    assert_eq!(bus_transition(BusState::Down, true), Ok(BusState::Up));
    assert_eq!(bus_transition(BusState::Up, true), Err(DrvError::Invalid));
    let mut env = SdioHostEnv::init();
    env.txdesc_push(1, 77);
    env.txdesc_push(1, 78);
    assert_eq!(env.tx_cfm_advance(1), Some(77));
    assert_eq!(env.tx_cfm_advance(1), Some(78));
    assert_eq!(env.tx_cfm_advance(4), None);
    let mut m = WifiManager::new("wlan0");
    assert_eq!(m.state(), WifiState::Down);
    assert_eq!(m.up(), Ok(()));
    assert_eq!(m.state(), WifiState::Up);
    assert_eq!(m.interface_name(), "wlan0");
    let mut nd = NetDevice::new("wlan0-very-long-name");
    assert_eq!(&nd.name[..15], b"wlan0-very-long");
    assert_eq!(nd.name[15], 0);
    nd.set_mac_addr(&[1, 2, 3, 4, 5, 6]);
    nd.carrier_on();
    assert!(nd.carrier_ok);
    assert!(u32_before(5, 6));
    assert!(u32_before(0xFFFF_FFF0, 3));
    assert!(!u32_before(7, 6));
    let c = AndroidWifiPrivCmd::from_buf(b"SCAN now");
    assert_eq!(c.used_len, 8);
    assert_eq!(AndroidWifiPrivCmd::new(4).buf, vec![0; 4]);
}

#[test]
fn station_table() {
    let mut w = WiphyOpsImpl::new();
    let ap = [0x10, 0x20, 0x30, 0x40, 0x50, 0x60];
    assert_eq!(w.lookup_sta_idx(&ap), None);
    w.register_sta_from_connect_ind(0, &ap, 3);
    assert_eq!(w.lookup_sta_idx(&ap), Some(3));
    w.register_sta_from_connect_ind(0, &ap, 5);
    assert_eq!(w.lookup_sta_idx(&ap), Some(5));
    w.unregister_sta_by_mac(&ap);
    assert_eq!(w.lookup_sta_idx(&ap), None);
    assert_eq!(mac_key(&[1, 0, 0, 0, 0, 2]), 0x0200_0000_0001);
}
