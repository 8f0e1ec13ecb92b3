//! LMAC requests of the 802.11 control path, and the parsers of their
//! confirmations and indications.
use vstd::prelude::*;

use crate::bytes::{fill_seq, from_le16, from_le32, get_u16_le, get_u32_le, le16, le32, push_bytes, push_fill, push_u16_le, push_u32_le};
use crate::cmd::{msg_of, LmacMsg};
use crate::ieee80211::{channel_to_freq, cipher_code, BssInfo, MacCipherSuite};

verus! {

/// Firmware tasks of the control path.
pub const TASK_MM: u16 = 0;
pub const TASK_SCANU: u16 = 4;
pub const TASK_SM: u16 = 6;
pub const TASK_APM: u16 = 7;

/// Message ids: the task number times 1024, plus the message's index in the task.
pub const MM_ADD_IF_REQ: u16 = 6;
pub const MM_ADD_IF_CFM: u16 = 7;
pub const MM_REMOVE_IF_REQ: u16 = 8;
pub const MM_REMOVE_IF_CFM: u16 = 9;
pub const MM_STA_ADD_REQ: u16 = 10;
pub const MM_STA_ADD_CFM: u16 = 11;
pub const MM_STA_DEL_REQ: u16 = 12;
pub const MM_STA_DEL_CFM: u16 = 13;
pub const MM_KEY_ADD_REQ: u16 = 36;
pub const MM_KEY_ADD_CFM: u16 = 37;
pub const MM_KEY_DEL_REQ: u16 = 38;
pub const MM_KEY_DEL_CFM: u16 = 39;
pub const MM_SET_POWER_REQ: u16 = 46;
pub const MM_SET_POWER_CFM: u16 = 47;
pub const SCANU_START_REQ: u16 = 4096;
pub const SCANU_START_CFM: u16 = 4097;
pub const SCANU_RESULT_IND: u16 = 4098;
pub const SM_CONNECT_REQ: u16 = 6144;
pub const SM_CONNECT_CFM: u16 = 6145;
pub const SM_CONNECT_IND: u16 = 6146;
pub const SM_DISCONNECT_REQ: u16 = 6147;
pub const SM_DISCONNECT_CFM: u16 = 6148;
pub const SM_DISCONNECT_IND: u16 = 6149;
pub const APM_START_REQ: u16 = 7168;
pub const APM_START_CFM: u16 = 7169;
pub const APM_STOP_REQ: u16 = 7170;
pub const APM_STOP_CFM: u16 = 7171;

/// Largest key.
pub const MAC_SEC_KEY_LEN: usize = 32;

/// Entries of a rate set.
pub const MAC_RATESET_LEN: usize = 12;

/// Largest SSID.
pub const MAC_SSID_LEN: usize = 32;

/// Channels of a scan request's channel list.
pub const SCAN_CHANNEL_MAX: usize = 42;

/// Bytes of one channel definition.
pub const MAC_CHAN_DEF_SIZE: usize = 5;

/// EAPOL ethertype used as the controlled-port ethertype.
pub const ETH_P_PAE: u16 = 0x888E;

/// The parameters of SCANU_START_REQ: an all-zero channel list (scan every channel),
/// three empty SSIDs, the broadcast BSSID, no extra IEs, the interface, no channel
/// and SSID counts, CCK allowed, then the dwell time.
pub open spec fn scanu_start_params(vif_idx: u8, duration_us: u32) -> Seq<u8> {
    fill_seq(210, 0) + fill_seq(99, 0) + fill_seq(6, 0xFF) + fill_seq(6, 0) + seq![
        vif_idx,
        0u8,
        0u8,
        0u8,
    ] + le32(duration_us)
}

/// SCANU_START_REQ for interface `vif_idx`.
pub fn build_scanu_start_req(vif_idx: u8, duration_us: u32) -> (r: Option<LmacMsg>)
    ensures
        r matches Some(m) && msg_of(m, SCANU_START_REQ, TASK_SCANU, scanu_start_params(vif_idx, duration_us)),
{
    let mut p: Vec<u8> = Vec::new();
    push_fill(&mut p, SCAN_CHANNEL_MAX * MAC_CHAN_DEF_SIZE, 0);
    push_fill(&mut p, 99, 0);
    push_fill(&mut p, 6, 0xFF);
    push_fill(&mut p, 6, 0);
    p.push(vif_idx);
    p.push(0);
    p.push(0);
    p.push(0);
    push_u32_le(&mut p, duration_us);
    assert(p@ =~= scanu_start_params(vif_idx, duration_us));
    Some(LmacMsg::with_params(SCANU_START_REQ, TASK_SCANU, &p))
}

/// `n` capped at `m`.
pub open spec fn min_len(n: int, m: int) -> int {
    if n < m {
        n
    } else {
        m
    }
}

/// The parameters of SM_CONNECT_REQ: the SSID (length byte, then 32 bytes), the
/// BSSID (broadcast when none is given), the channel frequency (zero when none is
/// given), zeroed flags, ethertype, IE length and listen interval, open
/// authentication, the interface, and an empty 256-byte IE buffer.
pub open spec fn sm_connect_params(vif_idx: u8, ssid: Seq<u8>, bssid: Option<Seq<u8>>, chan_freq: Option<u16>) -> Seq<u8> {
    let n = min_len(ssid.len() as int, 32);
    seq![n as u8] + ssid.take(n) + fill_seq((32 - n) as nat, 0) + match bssid {
        Some(b) => b.take(6),
        None => fill_seq(6, 0xFF),
    } + match chan_freq {
        Some(f) => le16(f) + seq![0u8, 0u8],
        None => fill_seq(4, 0),
    } + fill_seq(10, 0) + seq![0u8, 0u8, 0u8, vif_idx] + fill_seq(256, 0)
}

/// SM_CONNECT_REQ for `ssid` (cut to 32 bytes) on interface `vif_idx`.
pub fn build_sm_connect_req(vif_idx: u8, ssid: &[u8], bssid: Option<&[u8]>, chan_freq: Option<u16>) -> (r: Option<LmacMsg>)
    requires
        bssid matches Some(b) ==> b@.len() >= 6,
    ensures
        r matches Some(m) && msg_of(
            m,
            SM_CONNECT_REQ,
            TASK_SM,
            sm_connect_params(
                vif_idx,
                ssid@,
                match bssid {
                    Some(b) => Some(b@),
                    None => None,
                },
                chan_freq,
            ),
        ),
{
    let n = if ssid.len() < MAC_SSID_LEN {
        ssid.len()
    } else {
        MAC_SSID_LEN
    };
    let mut p: Vec<u8> = Vec::new();
    p.push(n as u8);
    push_bytes(&mut p, ssid, n);
    push_fill(&mut p, MAC_SSID_LEN - n, 0);
    match bssid {
        Some(b) => push_bytes(&mut p, b, 6),
        None => push_fill(&mut p, 6, 0xFF),
    }
    match chan_freq {
        Some(f) => {
            push_u16_le(&mut p, f);
            p.push(0);
            p.push(0);
        },
        None => push_fill(&mut p, 4, 0),
    }
    push_fill(&mut p, 10, 0);
    p.push(0);
    p.push(0);
    p.push(0);
    p.push(vif_idx);
    push_fill(&mut p, 256, 0);
    proof {
        let bs = match bssid {
            Some(b) => Some(b@),
            None => None,
        };
        assert(p@ =~= sm_connect_params(vif_idx, ssid@, bs, chan_freq));
    }
    Some(LmacMsg::with_params(SM_CONNECT_REQ, TASK_SM, &p))
}

/// Virtual interface types.
#[derive(Clone, Copy, Debug, PartialEq, Eq, Structural)]
pub enum MacVifType {
    Sta,
    Ibss,
    Ap,
    MeshPoint,
    Monitor,
    Unknown,
}

/// The firmware's number for an interface type.
pub open spec fn vif_code(t: MacVifType) -> u8 {
    match t {
        MacVifType::Sta => 0,
        MacVifType::Ibss => 1,
        MacVifType::Ap => 2,
        MacVifType::MeshPoint => 3,
        MacVifType::Monitor => 4,
        MacVifType::Unknown => 5,
    }
}

impl MacVifType {
    /// The firmware's number for this interface type.
    pub fn code(&self) -> (r: u8)
        ensures
            r == vif_code(*self),
    {
        match self {
            MacVifType::Sta => 0,
            MacVifType::Ibss => 1,
            MacVifType::Ap => 2,
            MacVifType::MeshPoint => 3,
            MacVifType::Monitor => 4,
            MacVifType::Unknown => 5,
        }
    }
}

/// MM_ADD_IF_REQ: interface type, MAC address, P2P flag.
pub fn build_mm_add_if_req(vif_type: MacVifType, mac_addr: &[u8], p2p: bool) -> (r: LmacMsg)
    requires
        mac_addr@.len() >= 6,
    ensures
        msg_of(
            r,
            MM_ADD_IF_REQ,
            TASK_MM,
            seq![vif_code(vif_type)] + mac_addr@.take(6) + seq![if p2p { 1u8 } else { 0u8 }],
        ),
{
    let mut p: Vec<u8> = Vec::new();
    p.push(vif_type.code());
    push_bytes(&mut p, mac_addr, 6);
    p.push(
        if p2p {
            1
        } else {
            0
        },
    );
    assert(p@ =~= seq![vif_code(vif_type)] + mac_addr@.take(6) + seq![if p2p { 1u8 } else { 0u8 }]);
    LmacMsg::with_params(MM_ADD_IF_REQ, TASK_MM, &p)
}

/// MM_ADD_IF_CFM: status and instance number.
#[derive(Clone, Copy, Debug, PartialEq, Eq, Structural)]
pub struct MmAddIfCfm {
    pub status: u8,
    pub inst_nbr: u8,
}

/// Parses MM_ADD_IF_CFM; `None` below 2 bytes.
pub fn parse_mm_add_if_cfm(param: &[u8]) -> (r: Option<MmAddIfCfm>)
    ensures
        param@.len() < 2 ==> r is None,
        param@.len() >= 2 ==> r == Some(MmAddIfCfm { status: param@[0], inst_nbr: param@[1] }),
{
    if param.len() < 2 {
        return None;
    }
    Some(MmAddIfCfm { status: param[0], inst_nbr: param[1] })
}

/// MM_REMOVE_IF_REQ for instance `inst_nbr`.
pub fn build_mm_remove_if_req(inst_nbr: u8) -> (r: LmacMsg)
    ensures
        msg_of(r, MM_REMOVE_IF_REQ, TASK_MM, seq![inst_nbr]),
{
    let mut p: Vec<u8> = Vec::new();
    p.push(inst_nbr);
    assert(p@ =~= seq![inst_nbr]);
    LmacMsg::with_params(MM_REMOVE_IF_REQ, TASK_MM, &p)
}

/// SM_DISCONNECT_REQ: reason code, interface.
pub fn build_sm_disconnect_req(vif_idx: u8, reason_code: u16) -> (r: LmacMsg)
    ensures
        msg_of(r, SM_DISCONNECT_REQ, TASK_SM, le16(reason_code) + seq![vif_idx]),
{
    let mut p: Vec<u8> = Vec::new();
    push_u16_le(&mut p, reason_code);
    p.push(vif_idx);
    assert(p@ =~= le16(reason_code) + seq![vif_idx]);
    LmacMsg::with_params(SM_DISCONNECT_REQ, TASK_SM, &p)
}

/// SCANU_START_CFM: interface, status, number of results.
#[derive(Clone, Copy, Debug, PartialEq, Eq, Structural)]
pub struct ScanuStartCfm {
    pub vif_idx: u8,
    pub status: u8,
    pub result_cnt: u8,
}

/// Parses SCANU_START_CFM; `None` below 3 bytes.
pub fn parse_scanu_start_cfm_full(param: &[u8]) -> (r: Option<ScanuStartCfm>)
    ensures
        param@.len() < 3 ==> r is None,
        param@.len() >= 3 ==> r == Some(
            ScanuStartCfm { vif_idx: param@[0], status: param@[1], result_cnt: param@[2] },
        ),
{
    if param.len() < 3 {
        return None;
    }
    Some(ScanuStartCfm { vif_idx: param[0], status: param[1], result_cnt: param[2] })
}

/// The status of SCANU_START_CFM; `None` below 3 bytes.
pub fn parse_scanu_start_cfm(param: &[u8]) -> (r: Option<u8>)
    ensures
        param@.len() < 3 ==> r is None,
        param@.len() >= 3 ==> r == Some(param@[1]),
{
    match parse_scanu_start_cfm_full(param) {
        Some(c) => Some(c.status),
        None => None,
    }
}

/// The head of SCANU_RESULT_IND; the management frame follows at `payload_offset`.
#[derive(Clone, Copy, Debug, PartialEq, Eq, Structural)]
pub struct ScanuResultInd {
    pub length: u16,
    pub center_freq: u16,
    pub rssi: i8,
    pub payload_offset: usize,
}

/// Parses the head of SCANU_RESULT_IND; `None` below 10 bytes.
pub fn parse_scanu_result_ind(param: &[u8]) -> (r: Option<ScanuResultInd>)
    ensures
        param@.len() < 10 ==> r is None,
        param@.len() >= 10 ==> r == Some(
            ScanuResultInd {
                length: from_le16(param@[0], param@[1]) as u16,
                center_freq: from_le16(param@[4], param@[5]) as u16,
                rssi: param@[9] as i8,
                payload_offset: 10,
            },
        ),
{
    if param.len() < 10 {
        return None;
    }
    Some(
        ScanuResultInd {
            length: get_u16_le(param, 0),
            center_freq: get_u16_le(param, 4),
            rssi: param[9] as i8,
            payload_offset: 10,
        },
    )
}

/// The SSID element found by walking the elements of `ies` from `i`: the first
/// element with id 0 and a length of at most 32; the walk stops at the first element
/// that does not fit.
pub open spec fn ssid_ie(ies: Seq<u8>, i: int) -> Option<Seq<u8>>
    decreases ies.len() - i,
{
    if i < 0 || i + 2 > ies.len() {
        None
    } else {
        let len = ies[i + 1] as int;
        if i + 2 + len > ies.len() {
            None
        } else if ies[i] == 0 && len <= 32 {
            Some(ies.subrange(i + 2, i + 2 + len))
        } else {
            ssid_ie(ies, i + 2 + len)
        }
    }
}

/// An SSID element holds at most 32 bytes.
pub proof fn lemma_ssid_ie_len(ies: Seq<u8>, i: int)
    ensures
        ssid_ie(ies, i) matches Some(s) ==> s.len() <= 32,
    decreases ies.len() - i,
{
    if !(i < 0 || i + 2 > ies.len()) {
        let len = ies[i + 1] as int;
        if !(i + 2 + len > ies.len()) && !(ies[i] == 0 && len <= 32) {
            lemma_ssid_ie_len(ies, i + 2 + len);
        }
    }
}

/// Looks for the SSID element in `ies`.
pub fn find_ssid_ie(ies: &[u8]) -> (r: Option<Vec<u8>>)
    ensures
        match ssid_ie(ies@, 0) {
            Some(s) => r matches Some(v) && v@ == s,
            None => r is None,
        },
{
    let mut i: usize = 0;
    while i < ies.len() && ies.len() - i >= 2
        invariant
            i <= ies@.len(),
            ssid_ie(ies@, i as int) == ssid_ie(ies@, 0),
        decreases ies@.len() - i,
    {
        let len = ies[i + 1] as usize;
        if ies.len() - (i + 2) < len {
            return None;
        }
        if ies[i] == 0 && len <= 32 {
            return Some(crate::bus::slice_of(ies, i + 2, len));
        }
        i = i + 2 + len;
    }
    None
}

/// Length of the fixed part of a beacon or probe response, headers included.
pub const BEACON_PROBERESP_FIXED: usize = 34;

/// The BSS described by SCANU_RESULT_IND: the BSSID at bytes 16..22 of the
/// management frame, the SSID from its elements (empty when none is found), and the
/// frequency and signal of the indication. `None` when the frame is shorter than
/// its fixed part.
pub fn parse_scan_result_to_bss_info(ind: &ScanuResultInd, param: &[u8]) -> (r: Option<BssInfo>)
    ensures
        ind.payload_offset + BEACON_PROBERESP_FIXED > param@.len() ==> r is None,
        ind.payload_offset + BEACON_PROBERESP_FIXED <= param@.len() ==> (r matches Some(b) && {
            let f = param@.subrange(ind.payload_offset as int, param@.len() as int);
            let s = match ssid_ie(f.subrange(34, f.len() as int), 0) {
                Some(s) => s,
                None => Seq::empty(),
            };
            &&& b.bssid@ == f.subrange(16, 22)
            &&& b.freq == ind.center_freq
            &&& b.rssi == ind.rssi
            &&& b.ssid_len == s.len()
            &&& b.ssid@ == s + fill_seq((32 - s.len()) as nat, 0)
        }),
{
    if param.len() < BEACON_PROBERESP_FIXED || ind.payload_offset > param.len() - BEACON_PROBERESP_FIXED {
        return None;
    }
    let off = ind.payload_offset;
    let frame = crate::bus::slice_of(param, off, param.len() - off);
    let bssid = crate::bus::slice_of(frame.as_slice(), 16, 6);
    let ies = crate::bus::slice_of(frame.as_slice(), 34, frame.len() - 34);
    let mut ssid: Vec<u8> = Vec::new();
    let found = find_ssid_ie(ies.as_slice());
    proof {
        lemma_ssid_ie_len(ies@, 0);
    }
    let n: usize = match &found {
        Some(s) => {
            push_bytes(&mut ssid, s.as_slice(), s.len());
            s.len()
        },
        None => 0,
    };
    push_fill(&mut ssid, 32 - n, 0);
    proof {
        let s = match ssid_ie(ies@, 0) {
            Some(s) => s,
            None => Seq::<u8>::empty(),
        };
        assert(ssid@ =~= s + fill_seq((32 - s.len()) as nat, 0));
    }
    Some(
        BssInfo {
            bssid,
            freq: ind.center_freq as u32,
            rssi: ind.rssi as i32,
            ssid,
            ssid_len: n as u8,
        },
    )
}

/// SM_CONNECT_IND: status, BSSID, interface, and the AP's station index.
pub struct SmConnectInd {
    pub status_code: u16,
    pub bssid: Vec<u8>,
    pub vif_idx: u8,
    pub ap_idx: u8,
}

/// The status of SM_CONNECT_CFM; `None` when empty.
pub fn parse_sm_connect_cfm(param: &[u8]) -> (r: Option<u8>)
    ensures
        param@.len() == 0 ==> r is None,
        param@.len() > 0 ==> r == Some(param@[0]),
{
    if param.len() == 0 {
        return None;
    }
    Some(param[0])
}

/// Parses SM_CONNECT_IND: status (LE16), BSSID, roamed flag, interface, AP index;
/// `None` below 11 bytes.
pub fn parse_sm_connect_ind(param: &[u8]) -> (r: Option<SmConnectInd>)
    ensures
        param@.len() < 11 ==> r is None,
        param@.len() >= 11 ==> (r matches Some(c) && c.status_code == from_le16(param@[0], param@[1])
            && c.bssid@ == param@.subrange(2, 8) && c.vif_idx == param@[9] && c.ap_idx == param@[10]),
{
    if param.len() < 11 {
        return None;
    }
    Some(
        SmConnectInd {
            status_code: get_u16_le(param, 0),
            bssid: crate::bus::slice_of(param, 2, 6),
            vif_idx: param[9],
            ap_idx: param[10],
        },
    )
}

/// SM_DISCONNECT_IND: reason code and interface.
#[derive(Clone, Copy, Debug, PartialEq, Eq, Structural)]
pub struct SmDisconnectInd {
    pub reason_code: u16,
    pub vif_idx: u8,
}

/// Parses SM_DISCONNECT_IND; `None` below 3 bytes.
pub fn parse_sm_disconnect_ind(param: &[u8]) -> (r: Option<SmDisconnectInd>)
    ensures
        param@.len() < 3 ==> r is None,
        param@.len() >= 3 ==> r == Some(
            SmDisconnectInd {
                reason_code: from_le16(param@[0], param@[1]) as u16,
                vif_idx: param@[2],
            },
        ),
{
    if param.len() < 3 {
        return None;
    }
    Some(SmDisconnectInd { reason_code: get_u16_le(param, 0), vif_idx: param[2] })
}

/// The parameters of MM_KEY_ADD_REQ: key index, station index, key length, the key
/// in a 32-byte field, cipher, instance, SPP off, pairwise flag.
pub open spec fn key_add_params(vif_idx: u8, key_idx: u8, sta_idx: u8, key: Seq<u8>, cipher: u8, pairwise: bool) -> Seq<u8> {
    let n = min_len(key.len() as int, 32);
    seq![key_idx, sta_idx, n as u8] + key.take(n) + fill_seq((32 - n) as nat, 0) + seq![
        cipher,
        vif_idx,
        0u8,
        if pairwise { 1u8 } else { 0u8 },
    ]
}

/// MM_KEY_ADD_REQ; a key longer than 32 bytes is cut. A station index of 0xFF
/// installs a default or group key.
pub fn build_mm_key_add_req(vif_idx: u8, key_idx: u8, sta_idx: u8, key: &[u8], cipher_suite: MacCipherSuite, pairwise: bool) -> (r: Option<LmacMsg>)
    ensures
        r matches Some(m) && msg_of(
            m,
            MM_KEY_ADD_REQ,
            TASK_MM,
            key_add_params(vif_idx, key_idx, sta_idx, key@, cipher_code(cipher_suite), pairwise),
        ),
{
    let n = if key.len() < MAC_SEC_KEY_LEN {
        key.len()
    } else {
        MAC_SEC_KEY_LEN
    };
    let mut p: Vec<u8> = Vec::new();
    p.push(key_idx);
    p.push(sta_idx);
    p.push(n as u8);
    push_bytes(&mut p, key, n);
    push_fill(&mut p, MAC_SEC_KEY_LEN - n, 0);
    p.push(cipher_suite.code());
    p.push(vif_idx);
    p.push(0);
    p.push(
        if pairwise {
            1
        } else {
            0
        },
    );
    assert(p@ =~= key_add_params(vif_idx, key_idx, sta_idx, key@, cipher_code(cipher_suite), pairwise));
    Some(LmacMsg::with_params(MM_KEY_ADD_REQ, TASK_MM, &p))
}

/// MM_KEY_ADD_CFM: status and hardware key index.
#[derive(Clone, Copy, Debug, PartialEq, Eq, Structural)]
pub struct MmKeyAddCfm {
    pub status: u8,
    pub hw_key_idx: u8,
}

/// Parses MM_KEY_ADD_CFM; `None` below 2 bytes.
pub fn parse_mm_key_add_cfm(param: &[u8]) -> (r: Option<MmKeyAddCfm>)
    ensures
        param@.len() < 2 ==> r is None,
        param@.len() >= 2 ==> r == Some(MmKeyAddCfm { status: param@[0], hw_key_idx: param@[1] }),
{
    if param.len() < 2 {
        return None;
    }
    Some(MmKeyAddCfm { status: param[0], hw_key_idx: param[1] })
}

/// MM_KEY_DEL_REQ for hardware key `hw_key_idx`.
pub fn build_mm_key_del_req(hw_key_idx: u8) -> (r: LmacMsg)
    ensures
        msg_of(r, MM_KEY_DEL_REQ, TASK_MM, seq![hw_key_idx]),
{
    let mut p: Vec<u8> = Vec::new();
    p.push(hw_key_idx);
    assert(p@ =~= seq![hw_key_idx]);
    LmacMsg::with_params(MM_KEY_DEL_REQ, TASK_MM, &p)
}

/// MM_SET_POWER_REQ: instance and power in dBm.
pub fn build_mm_set_power_req(inst_nbr: u8, power_dbm: i8) -> (r: LmacMsg)
    ensures
        msg_of(r, MM_SET_POWER_REQ, TASK_MM, seq![inst_nbr, power_dbm as u8]),
{
    let mut p: Vec<u8> = Vec::new();
    p.push(inst_nbr);
    p.push(power_dbm as u8);
    assert(p@ =~= seq![inst_nbr, power_dbm as u8]);
    LmacMsg::with_params(MM_SET_POWER_REQ, TASK_MM, &p)
}

/// MM_SET_POWER_CFM: radio index and granted power.
#[derive(Clone, Copy, Debug, PartialEq, Eq, Structural)]
pub struct MmSetPowerCfm {
    pub radio_idx: u8,
    pub power: i8,
}

/// Parses MM_SET_POWER_CFM; `None` below 2 bytes.
pub fn parse_mm_set_power_cfm(param: &[u8]) -> (r: Option<MmSetPowerCfm>)
    ensures
        param@.len() < 2 ==> r is None,
        param@.len() >= 2 ==> r == Some(MmSetPowerCfm { radio_idx: param@[0], power: param@[1] as i8 }),
{
    if param.len() < 2 {
        return None;
    }
    Some(MmSetPowerCfm { radio_idx: param[0], power: param[1] as i8 })
}

/// MM_PS_CHANGE_IND: station and its power-save state (0 active, 1 sleeping).
#[derive(Clone, Copy, Debug, PartialEq, Eq, Structural)]
pub struct MmPsChangeInd {
    pub sta_idx: u8,
    pub ps_state: u8,
}

/// Parses MM_PS_CHANGE_IND; `None` below 2 bytes.
pub fn parse_mm_ps_change_ind(param: &[u8]) -> (r: Option<MmPsChangeInd>)
    ensures
        param@.len() < 2 ==> r is None,
        param@.len() >= 2 ==> r == Some(MmPsChangeInd { sta_idx: param@[0], ps_state: param@[1] }),
{
    if param.len() < 2 {
        return None;
    }
    Some(MmPsChangeInd { sta_idx: param[0], ps_state: param[1] })
}

/// MM_RSSI_STATUS_IND: interface, threshold status, signal.
#[derive(Clone, Copy, Debug, PartialEq, Eq, Structural)]
pub struct MmRssiStatusInd {
    pub vif_index: u8,
    pub rssi_status: bool,
    pub rssi: i8,
}

/// Parses MM_RSSI_STATUS_IND; `None` below 3 bytes.
pub fn parse_mm_rssi_status_ind(param: &[u8]) -> (r: Option<MmRssiStatusInd>)
    ensures
        param@.len() < 3 ==> r is None,
        param@.len() >= 3 ==> r == Some(
            MmRssiStatusInd { vif_index: param@[0], rssi_status: param@[1] != 0, rssi: param@[2] as i8 },
        ),
{
    if param.len() < 3 {
        return None;
    }
    Some(MmRssiStatusInd { vif_index: param[0], rssi_status: param[1] != 0, rssi: param[2] as i8 })
}

/// MM_STA_ADD_REQ: the station's MAC address and the instance.
pub fn build_mm_sta_add_req(inst_nbr: u8, mac: &[u8]) -> (r: LmacMsg)
    requires
        mac@.len() >= 6,
    ensures
        msg_of(r, MM_STA_ADD_REQ, TASK_MM, mac@.take(6) + seq![inst_nbr]),
{
    let mut p: Vec<u8> = Vec::new();
    push_bytes(&mut p, mac, 6);
    p.push(inst_nbr);
    assert(p@ =~= mac@.take(6) + seq![inst_nbr]);
    LmacMsg::with_params(MM_STA_ADD_REQ, TASK_MM, &p)
}

/// The status of MM_STA_ADD_CFM; `None` when empty.
pub fn parse_mm_sta_add_cfm(param: &[u8]) -> (r: Option<u8>)
    ensures
        param@.len() == 0 ==> r is None,
        param@.len() > 0 ==> r == Some(param@[0]),
{
    if param.len() == 0 {
        return None;
    }
    Some(param[0])
}

/// MM_STA_DEL_REQ for station `sta_idx`.
pub fn build_mm_sta_del_req(sta_idx: u8) -> (r: LmacMsg)
    ensures
        msg_of(r, MM_STA_DEL_REQ, TASK_MM, seq![sta_idx]),
{
    let mut p: Vec<u8> = Vec::new();
    p.push(sta_idx);
    assert(p@ =~= seq![sta_idx]);
    LmacMsg::with_params(MM_STA_DEL_REQ, TASK_MM, &p)
}

/// The status of MM_STA_DEL_CFM; `None` when empty.
pub fn parse_mm_sta_del_cfm(param: &[u8]) -> (r: Option<u8>)
    ensures
        param@.len() == 0 ==> r is None,
        param@.len() > 0 ==> r == Some(param@[0]),
{
    if param.len() == 0 {
        return None;
    }
    Some(param[0])
}

/// MM_GET_STA_INFO_CFM: rate, failures, signal and channel statistics.
#[derive(Clone, Copy, Debug, PartialEq, Eq, Structural)]
pub struct MmGetStaInfoCfm {
    pub rate_info: u32,
    pub txfailed: u32,
    pub rssi: i8,
    pub chan_time: u32,
    pub chan_busy_time: u32,
    pub ack_fail_stat: u32,
    pub ack_succ_stat: u32,
    pub chan_tx_busy_time: u32,
}

/// The little-endian word at `o`.
pub open spec fn word_at(p: Seq<u8>, o: int) -> u32 {
    from_le32(p[o], p[o + 1], p[o + 2], p[o + 3]) as u32
}

/// Parses MM_GET_STA_INFO_CFM: words at 0 and 4, the signal at 8, three reserved
/// bytes, then five words from 12; `None` below 32 bytes.
pub fn parse_mm_get_sta_info_cfm(param: &[u8]) -> (r: Option<MmGetStaInfoCfm>)
    ensures
        param@.len() < 32 ==> r is None,
        param@.len() >= 32 ==> r == Some(
            MmGetStaInfoCfm {
                rate_info: word_at(param@, 0),
                txfailed: word_at(param@, 4),
                rssi: param@[8] as i8,
                chan_time: word_at(param@, 12),
                chan_busy_time: word_at(param@, 16),
                ack_fail_stat: word_at(param@, 20),
                ack_succ_stat: word_at(param@, 24),
                chan_tx_busy_time: word_at(param@, 28),
            },
        ),
{
    if param.len() < 32 {
        return None;
    }
    Some(
        MmGetStaInfoCfm {
            rate_info: get_u32_le(param, 0),
            txfailed: get_u32_le(param, 4),
            rssi: param[8] as i8,
            chan_time: get_u32_le(param, 12),
            chan_busy_time: get_u32_le(param, 16),
            ack_fail_stat: get_u32_le(param, 20),
            ack_succ_stat: get_u32_le(param, 24),
            chan_tx_busy_time: get_u32_le(param, 28),
        },
    )
}

/// The parameters of APM_START_REQ: the basic rate set (length byte and 12 bytes),
/// the channel (frequency, band 2.4 GHz, no flags, 20 dBm), both centre frequencies,
/// 20 MHz width, no beacon buffer, the beacon interval, no flags, the EAPOL
/// ethertype, no TIM, and the interface.
pub open spec fn apm_start_params(vif_idx: u8, freq: u16, beacon_interval: u16, rates: Seq<u8>) -> Seq<u8> {
    let n = min_len(rates.len() as int, 12);
    seq![n as u8] + rates.take(n) + fill_seq((12 - n) as nat, 0) + le16(freq) + seq![0u8, 0u8, 20u8]
        + le32(freq as u32) + le32(freq as u32) + seq![0u8] + le32(0) + le16(0) + le16(0) + le16(
        beacon_interval,
    ) + le32(0) + le16(ETH_P_PAE) + seq![0u8, vif_idx]
}

/// APM_START_REQ on channel number `channel`.
pub fn build_apm_start_req(vif_idx: u8, channel: u8, beacon_interval: u16, basic_rates: &[u8]) -> (r: Option<LmacMsg>)
    ensures
        r matches Some(m) && msg_of(
            m,
            APM_START_REQ,
            TASK_APM,
            apm_start_params(
                vif_idx,
                if 1 <= channel <= 13 {
                    (2407 + 5 * channel) as u16
                } else if 36 <= channel <= 165 {
                    (5000 + 5 * channel) as u16
                } else {
                    2412u16
                },
                beacon_interval,
                basic_rates@,
            ),
        ),
{
    let freq = channel_to_freq(channel);
    let n = if basic_rates.len() < MAC_RATESET_LEN {
        basic_rates.len()
    } else {
        MAC_RATESET_LEN
    };
    let mut p: Vec<u8> = Vec::new();
    p.push(n as u8);
    push_bytes(&mut p, basic_rates, n);
    push_fill(&mut p, MAC_RATESET_LEN - n, 0);
    push_u16_le(&mut p, freq);
    p.push(0);
    p.push(0);
    p.push(20);
    push_u32_le(&mut p, freq as u32);
    push_u32_le(&mut p, freq as u32);
    p.push(0);
    push_u32_le(&mut p, 0);
    push_u16_le(&mut p, 0);
    push_u16_le(&mut p, 0);
    push_u16_le(&mut p, beacon_interval);
    push_u32_le(&mut p, 0);
    push_u16_le(&mut p, ETH_P_PAE);
    p.push(0);
    p.push(vif_idx);
    assert(p@ =~= apm_start_params(vif_idx, freq, beacon_interval, basic_rates@));
    Some(LmacMsg::with_params(APM_START_REQ, TASK_APM, &p))
}

/// APM_START_CFM: status, interface, channel context, broadcast station index.
#[derive(Clone, Copy, Debug, PartialEq, Eq, Structural)]
pub struct ApmStartCfm {
    pub status: u8,
    pub vif_idx: u8,
    pub ch_idx: u8,
    pub bcmc_idx: u8,
}

/// Parses APM_START_CFM; `None` below 4 bytes.
pub fn parse_apm_start_cfm(param: &[u8]) -> (r: Option<ApmStartCfm>)
    ensures
        param@.len() < 4 ==> r is None,
        param@.len() >= 4 ==> r == Some(
            ApmStartCfm { status: param@[0], vif_idx: param@[1], ch_idx: param@[2], bcmc_idx: param@[3] },
        ),
{
    if param.len() < 4 {
        return None;
    }
    Some(ApmStartCfm { status: param[0], vif_idx: param[1], ch_idx: param[2], bcmc_idx: param[3] })
}

/// APM_STOP_REQ for interface `vif_idx`.
pub fn build_apm_stop_req(vif_idx: u8) -> (r: LmacMsg)
    ensures
        msg_of(r, APM_STOP_REQ, TASK_APM, seq![vif_idx]),
{
    let mut p: Vec<u8> = Vec::new();
    p.push(vif_idx);
    assert(p@ =~= seq![vif_idx]);
    LmacMsg::with_params(APM_STOP_REQ, TASK_APM, &p)
}

} // verus!
