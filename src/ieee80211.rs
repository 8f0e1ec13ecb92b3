//! IEEE 802.11 definitions: bands, channels, rates, element ids, frame-control
//! predicates, cipher suites, and the parameter types of the wireless configuration
//! interface.
use vstd::prelude::*;

use crate::bytes::from_le16;

verus! {

/// Frequency band.
#[derive(Clone, Copy, Debug, PartialEq, Eq, Structural)]
pub enum Band {
    TwoGhz,
    FiveGhz,
    SixGhz,
}

/// A channel: centre frequency in MHz, band, and power limit in dBm.
#[derive(Clone, Copy, Debug, PartialEq, Eq, Structural)]
pub struct Channel {
    pub center_freq: u32,
    pub band: Band,
    pub max_power: i8,
}

impl Channel {
    /// A 2.4 GHz channel.
    pub fn new_2g(freq_mhz: u32, max_power_dbm: i8) -> (r: Channel)
        ensures
            r == (Channel { center_freq: freq_mhz, band: Band::TwoGhz, max_power: max_power_dbm }),
    {
        Channel { center_freq: freq_mhz, band: Band::TwoGhz, max_power: max_power_dbm }
    }

    /// A 5 GHz channel.
    pub fn new_5g(freq_mhz: u32, max_power_dbm: i8) -> (r: Channel)
        ensures
            r == (Channel { center_freq: freq_mhz, band: Band::FiveGhz, max_power: max_power_dbm }),
    {
        Channel { center_freq: freq_mhz, band: Band::FiveGhz, max_power: max_power_dbm }
    }
}

/// A bit rate, in units of 100 kbit/s.
#[derive(Clone, Copy, Debug, PartialEq, Eq, Structural)]
pub struct Rate {
    pub bitrate_100kbps: u16,
    pub hw_value: u16,
    pub flags: u16,
}

/// Rate flag: short preamble.
pub const RATE_FLAG_SHORT_PREAMBLE: u16 = 1;

/// Rate flag: basic rate.
pub const RATE_FLAG_BASIC: u16 = 2;

/// Information element ids.
#[derive(Clone, Copy, Debug, PartialEq, Eq, Structural)]
pub enum WlanEid {
    Ssid,
    SupportedRates,
    DsParams,
    HtCapability,
    VhtCapability,
    Extension,
}

impl WlanEid {
    /// The element id byte.
    pub fn as_u8(self) -> (r: u8)
        ensures
            r == match self {
                WlanEid::Ssid => 0u8,
                WlanEid::SupportedRates => 1u8,
                WlanEid::DsParams => 3u8,
                WlanEid::HtCapability => 45u8,
                WlanEid::VhtCapability => 191u8,
                WlanEid::Extension => 255u8,
            },
    {
        match self {
            WlanEid::Ssid => 0,
            WlanEid::SupportedRates => 1,
            WlanEid::DsParams => 3,
            WlanEid::HtCapability => 45,
            WlanEid::VhtCapability => 191,
            WlanEid::Extension => 255,
        }
    }
}

/// Frame-control type and subtype values.
pub const FC_TYPE_MGMT: u16 = 0x0000;
pub const FC_TYPE_CTL: u16 = 0x0004;
pub const FC_TYPE_DATA: u16 = 0x0008;
pub const FC_SUBTYPE_BEACON: u16 = 0x0080;
pub const FC_SUBTYPE_ASSOC_REQ: u16 = 0x0000;
pub const FC_SUBTYPE_ASSOC_RESP: u16 = 0x0010;
pub const FC_SUBTYPE_REASSOC_REQ: u16 = 0x0020;
pub const FC_SUBTYPE_AUTH: u16 = 0x00B0;
pub const FC_SUBTYPE_DEAUTH: u16 = 0x00C0;
pub const FC_SUBTYPE_DISASSOC: u16 = 0x00A0;
pub const FC_SUBTYPE_PROBE_REQ: u16 = 0x0040;
pub const FC_SUBTYPE_PROBE_RESP: u16 = 0x0050;
pub const FC_SUBTYPE_ACTION: u16 = 0x00D0;

/// The frame-control field of a frame: its first two bytes, little-endian; 0 for a
/// frame shorter than that.
pub fn frame_control(buf: &[u8]) -> (r: u16)
    ensures
        buf@.len() >= 2 ==> r == from_le16(buf@[0], buf@[1]),
        buf@.len() < 2 ==> r == 0,
{
    if buf.len() >= 2 {
        crate::bytes::get_u16_le(buf, 0)
    } else {
        0
    }
}

/// A management frame: type bits (2..3) are 0.
pub open spec fn mgmt_spec(fc: u16) -> bool {
    fc & 0x000C == FC_TYPE_MGMT
}

/// A management frame of the given subtype.
pub open spec fn mgmt_subtype_spec(fc: u16, subtype: u16) -> bool {
    mgmt_spec(fc) && fc & 0x00F0 == subtype
}

/// Whether `fc` is a management frame.
pub fn is_mgmt(fc: u16) -> (r: bool)
    ensures
        r == mgmt_spec(fc),
{
    fc & 0x000C == FC_TYPE_MGMT
}

/// Whether `fc` is a beacon.
pub fn is_beacon(fc: u16) -> (r: bool)
    ensures
        r == mgmt_subtype_spec(fc, FC_SUBTYPE_BEACON),
{
    is_mgmt(fc) && fc & 0x00F0 == FC_SUBTYPE_BEACON
}

/// Whether `fc` is an association request.
pub fn is_assoc_req(fc: u16) -> (r: bool)
    ensures
        r == mgmt_subtype_spec(fc, FC_SUBTYPE_ASSOC_REQ),
{
    is_mgmt(fc) && fc & 0x00F0 == FC_SUBTYPE_ASSOC_REQ
}

/// Whether `fc` is a reassociation request.
pub fn is_reassoc_req(fc: u16) -> (r: bool)
    ensures
        r == mgmt_subtype_spec(fc, FC_SUBTYPE_REASSOC_REQ),
{
    is_mgmt(fc) && fc & 0x00F0 == FC_SUBTYPE_REASSOC_REQ
}

/// Whether `fc` is an authentication frame.
pub fn is_auth(fc: u16) -> (r: bool)
    ensures
        r == mgmt_subtype_spec(fc, FC_SUBTYPE_AUTH),
{
    is_mgmt(fc) && fc & 0x00F0 == FC_SUBTYPE_AUTH
}

/// Whether `fc` is a deauthentication frame.
pub fn is_deauth(fc: u16) -> (r: bool)
    ensures
        r == mgmt_subtype_spec(fc, FC_SUBTYPE_DEAUTH),
{
    is_mgmt(fc) && fc & 0x00F0 == FC_SUBTYPE_DEAUTH
}

/// Whether `fc` is a disassociation frame.
pub fn is_disassoc(fc: u16) -> (r: bool)
    ensures
        r == mgmt_subtype_spec(fc, FC_SUBTYPE_DISASSOC),
{
    is_mgmt(fc) && fc & 0x00F0 == FC_SUBTYPE_DISASSOC
}

/// Whether `fc` is a probe request.
pub fn is_probe_req(fc: u16) -> (r: bool)
    ensures
        r == mgmt_subtype_spec(fc, FC_SUBTYPE_PROBE_REQ),
{
    is_mgmt(fc) && fc & 0x00F0 == FC_SUBTYPE_PROBE_REQ
}

/// Whether `fc` is an action frame.
pub fn is_action(fc: u16) -> (r: bool)
    ensures
        r == mgmt_subtype_spec(fc, FC_SUBTYPE_ACTION),
{
    is_mgmt(fc) && fc & 0x00F0 == FC_SUBTYPE_ACTION
}

/// Cipher suite selectors of the configuration interface.
pub const WLAN_CIPHER_SUITE_WEP40: u32 = 0x000F_AC01;
pub const WLAN_CIPHER_SUITE_TKIP: u32 = 0x000F_AC02;
pub const WLAN_CIPHER_SUITE_CCMP: u32 = 0x000F_AC04;
pub const WLAN_CIPHER_SUITE_WEP104: u32 = 0x000F_AC05;
pub const WLAN_CIPHER_SUITE_AES_CMAC: u32 = 0x000F_AC06;
pub const WLAN_CIPHER_SUITE_GCMP: u32 = 0x000F_AC08;
pub const WLAN_CIPHER_SUITE_GCMP_256: u32 = 0x000F_AC09;
pub const WLAN_CIPHER_SUITE_BIP_GMAC_128: u32 = 0x000F_AC0B;
pub const WLAN_CIPHER_SUITE_BIP_GMAC_256: u32 = 0x000F_AC0C;
pub const WLAN_CIPHER_SUITE_BIP_CMAC_256: u32 = 0x000F_AC0D;
pub const WLAN_CIPHER_SUITE_CCMP_256: u32 = 0x000F_AC10;

/// The firmware's cipher suites.
#[derive(Clone, Copy, Debug, PartialEq, Eq, Structural)]
pub enum MacCipherSuite {
    Wep40,
    Tkip,
    Ccmp,
    Wep104,
    WpiSms4,
    BipCmac128,
    Gcmp128,
    Gcmp256,
    Ccmp256,
    BipGmac128,
    BipGmac256,
    BipCmac256,
    Invalid,
}

/// The firmware's number for a cipher suite.
pub open spec fn cipher_code(c: MacCipherSuite) -> u8 {
    match c {
        MacCipherSuite::Wep40 => 0,
        MacCipherSuite::Tkip => 1,
        MacCipherSuite::Ccmp => 2,
        MacCipherSuite::Wep104 => 3,
        MacCipherSuite::WpiSms4 => 4,
        MacCipherSuite::BipCmac128 => 5,
        MacCipherSuite::Gcmp128 => 6,
        MacCipherSuite::Gcmp256 => 7,
        MacCipherSuite::Ccmp256 => 8,
        MacCipherSuite::BipGmac128 => 9,
        MacCipherSuite::BipGmac256 => 10,
        MacCipherSuite::BipCmac256 => 11,
        MacCipherSuite::Invalid => 0xFF,
    }
}

impl MacCipherSuite {
    /// The firmware's number for this cipher suite.
    pub fn code(&self) -> (r: u8)
        ensures
            r == cipher_code(*self),
    {
        match self {
            MacCipherSuite::Wep40 => 0,
            MacCipherSuite::Tkip => 1,
            MacCipherSuite::Ccmp => 2,
            MacCipherSuite::Wep104 => 3,
            MacCipherSuite::WpiSms4 => 4,
            MacCipherSuite::BipCmac128 => 5,
            MacCipherSuite::Gcmp128 => 6,
            MacCipherSuite::Gcmp256 => 7,
            MacCipherSuite::Ccmp256 => 8,
            MacCipherSuite::BipGmac128 => 9,
            MacCipherSuite::BipGmac256 => 10,
            MacCipherSuite::BipCmac256 => 11,
            MacCipherSuite::Invalid => 0xFF,
        }
    }
}

/// The firmware cipher suite for a configuration-interface selector.
pub open spec fn cipher_of(cipher: u32) -> Option<MacCipherSuite> {
    if cipher == WLAN_CIPHER_SUITE_WEP40 {
        Some(MacCipherSuite::Wep40)
    } else if cipher == WLAN_CIPHER_SUITE_WEP104 {
        Some(MacCipherSuite::Wep104)
    } else if cipher == WLAN_CIPHER_SUITE_TKIP {
        Some(MacCipherSuite::Tkip)
    } else if cipher == WLAN_CIPHER_SUITE_CCMP {
        Some(MacCipherSuite::Ccmp)
    } else if cipher == WLAN_CIPHER_SUITE_AES_CMAC {
        Some(MacCipherSuite::BipCmac128)
    } else if cipher == WLAN_CIPHER_SUITE_GCMP {
        Some(MacCipherSuite::Gcmp128)
    } else if cipher == WLAN_CIPHER_SUITE_GCMP_256 {
        Some(MacCipherSuite::Gcmp256)
    } else if cipher == WLAN_CIPHER_SUITE_CCMP_256 {
        Some(MacCipherSuite::Ccmp256)
    } else if cipher == WLAN_CIPHER_SUITE_BIP_GMAC_128 {
        Some(MacCipherSuite::BipGmac128)
    } else if cipher == WLAN_CIPHER_SUITE_BIP_GMAC_256 {
        Some(MacCipherSuite::BipGmac256)
    } else if cipher == WLAN_CIPHER_SUITE_BIP_CMAC_256 {
        Some(MacCipherSuite::BipCmac256)
    } else {
        None
    }
}

/// Maps a configuration-interface cipher selector to the firmware's suite.
pub fn wlan_cipher_to_mac(cipher: u32) -> (r: Option<MacCipherSuite>)
    ensures
        r == cipher_of(cipher),
{
    if cipher == WLAN_CIPHER_SUITE_WEP40 {
        Some(MacCipherSuite::Wep40)
    } else if cipher == WLAN_CIPHER_SUITE_WEP104 {
        Some(MacCipherSuite::Wep104)
    } else if cipher == WLAN_CIPHER_SUITE_TKIP {
        Some(MacCipherSuite::Tkip)
    } else if cipher == WLAN_CIPHER_SUITE_CCMP {
        Some(MacCipherSuite::Ccmp)
    } else if cipher == WLAN_CIPHER_SUITE_AES_CMAC {
        Some(MacCipherSuite::BipCmac128)
    } else if cipher == WLAN_CIPHER_SUITE_GCMP {
        Some(MacCipherSuite::Gcmp128)
    } else if cipher == WLAN_CIPHER_SUITE_GCMP_256 {
        Some(MacCipherSuite::Gcmp256)
    } else if cipher == WLAN_CIPHER_SUITE_CCMP_256 {
        Some(MacCipherSuite::Ccmp256)
    } else if cipher == WLAN_CIPHER_SUITE_BIP_GMAC_128 {
        Some(MacCipherSuite::BipGmac128)
    } else if cipher == WLAN_CIPHER_SUITE_BIP_GMAC_256 {
        Some(MacCipherSuite::BipGmac256)
    } else if cipher == WLAN_CIPHER_SUITE_BIP_CMAC_256 {
        Some(MacCipherSuite::BipCmac256)
    } else {
        None
    }
}

/// The centre frequency of a channel number: 2407 + 5·ch for channels 1..13,
/// 5000 + 5·ch for channels 36..165, and 2412 for anything else.
pub fn channel_to_freq(ch: u8) -> (r: u16)
    ensures
        r == if 1 <= ch <= 13 {
            2407 + 5 * ch
        } else if 36 <= ch <= 165 {
            5000 + 5 * ch
        } else {
            2412
        },
{
    if ch >= 1 && ch <= 13 {
        2407 + (ch as u16) * 5
    } else if ch >= 36 && ch <= 165 {
        5000 + (ch as u16) * 5
    } else {
        2412
    }
}

/// Interface types of the configuration interface.
#[derive(Clone, Copy, Debug, PartialEq, Eq, Structural)]
pub enum Nl80211Iftype {
    Unspecified,
    AdHoc,
    Station,
    Ap,
    ApVlan,
    Wds,
    Monitor,
    MeshPoint,
    P2pClient,
    P2pGo,
    P2pDevice,
}

/// A scan request: channels, and the SSIDs to probe (each up to 32 bytes).
pub struct ScanRequest {
    pub channels: Vec<Channel>,
    pub ssids: Vec<Vec<u8>>,
}

/// Parameters of a connection request.
pub struct ConnectParams {
    pub bssid: Option<Vec<u8>>,
    pub ssid: Vec<u8>,
    pub channel: Option<Channel>,
    pub auth_type: u32,
}

/// A key to install.
pub struct KeyParams {
    pub cipher: u32,
    pub key: Vec<u8>,
    pub seq: Option<Vec<u8>>,
}

/// Whether a key is installed, and its cipher.
#[derive(Clone, Copy, Debug, PartialEq, Eq, Structural)]
pub struct KeyStatus {
    pub present: bool,
    pub cipher: u32,
}

/// A BSS found by a scan.
pub struct BssInfo {
    pub bssid: Vec<u8>,
    pub freq: u32,
    pub rssi: i32,
    pub ssid: Vec<u8>,
    pub ssid_len: u8,
}

/// Statistics of a station.
#[derive(Clone, Copy, Debug, PartialEq, Eq, Structural)]
pub struct StationInfo {
    pub filled: u64,
    pub rssi: i32,
    pub tx_rate: u32,
    pub rx_rate: u32,
    pub tx_packets: u64,
    pub rx_packets: u64,
}

/// Beacon contents of an access point.
pub struct BeaconData {
    pub head: Vec<u8>,
    pub tail: Vec<u8>,
    pub beacon_ies: Vec<u8>,
    pub proberesp_ies: Vec<u8>,
}

/// Channel widths.
#[derive(Clone, Copy, Debug, PartialEq, Eq, Structural)]
pub enum ChanWidth {
    NoHT,
    TwentyMhz,
    FortyMhz,
    EightyMhz,
    EightyPlus80Mhz,
    OneSixtyMhz,
}

/// A channel and its width.
#[derive(Clone, Copy, Debug, PartialEq, Eq, Structural)]
pub struct ChanDef {
    pub channel: Channel,
    pub width: ChanWidth,
}

/// Radio parameters.
#[derive(Clone, Copy, Debug, PartialEq, Eq, Structural)]
pub struct WiphyParams {
    pub rts_threshold: i32,
    pub frag_threshold: i32,
}

/// How the transmit power is set.
#[derive(Clone, Copy, Debug, PartialEq, Eq, Structural)]
pub enum TxPowerSetting {
    Automatic,
    Limited,
    Fixed,
}

/// A management frame to transmit.
pub struct MgmtTxParams {
    pub channel: Option<Channel>,
    pub offchan: bool,
    pub wait_ms: u32,
    pub buf: Vec<u8>,
}

/// BSS parameters that an access point may change.
#[derive(Clone, Copy, Debug, PartialEq, Eq, Structural)]
pub struct BssParams {
    pub use_cts_prot: Option<bool>,
    pub use_short_preamble: Option<bool>,
    pub use_short_slot: Option<bool>,
}

/// Parameters of an external authentication.
pub struct ExternalAuthParams {
    pub bssid: Vec<u8>,
    pub ssid: Vec<u8>,
    pub action: u8,
}

/// Channel survey results.
#[derive(Clone, Copy, Debug, PartialEq, Eq, Structural)]
pub struct SurveyInfo {
    pub filled: u64,
    pub channel: Option<Channel>,
    pub noise: i8,
    pub time_busy: u64,
    pub time_rx: u64,
    pub time_tx: u64,
}

/// The configuration operations a wireless driver offers its users. Each returns
/// a negative errno on failure.
pub trait Cfg80211Ops {
    fn add_virtual_intf(&mut self, name: &str, iftype: Nl80211Iftype) -> Result<u32, i32>;

    fn del_virtual_intf(&mut self, ifindex: u32) -> Result<(), i32>;

    fn scan(&mut self, ifindex: u32, request: ScanRequest) -> Result<(), i32>;

    fn connect(&mut self, ifindex: u32, params: ConnectParams) -> Result<(), i32>;

    fn disconnect(&mut self, ifindex: u32, reason_code: u16) -> Result<(), i32>;

    fn add_key(&mut self, ifindex: u32, key_index: u8, params: KeyParams) -> Result<(), i32>;

    fn del_key(&mut self, ifindex: u32, key_index: u8) -> Result<(), i32>;

    fn start_ap(&mut self, ifindex: u32, beacon: BeaconData, chandef: ChanDef) -> Result<(), i32>;

    fn stop_ap(&mut self, ifindex: u32) -> Result<(), i32>;

    fn set_wiphy_params(&mut self, params: WiphyParams) -> Result<(), i32>;

    fn set_tx_power(&mut self, ifindex: u32, setting: TxPowerSetting, mbm: i32) -> Result<(), i32>;

    fn get_channel(&mut self, ifindex: u32) -> Result<ChanDef, i32>;
}

/// Queue parameters of one access category.
#[derive(Clone, Copy, Debug, PartialEq, Eq, Structural)]
pub struct TxqParams {
    pub ac: u8,
    pub txop: u16,
    pub cw_min: u16,
    pub cw_max: u16,
    pub aifs: u8,
}

/// HT capabilities.
pub struct HtCap {
    pub cap: u16,
    pub ampdu_factor: u8,
    pub ampdu_density: u8,
    pub mcs: Vec<u8>,
}

/// VHT capabilities.
#[derive(Clone, Copy, Debug, PartialEq, Eq, Structural)]
pub struct VhtCap {
    pub cap: u32,
    pub rx_mcs: u16,
    pub tx_mcs: u16,
}

/// A band the radio supports: its channels and rates.
pub struct SupportedBand {
    pub band: Band,
    pub channels: Vec<Channel>,
    pub rates: Vec<Rate>,
    pub ht_cap: Option<HtCap>,
    pub vht_cap: Option<VhtCap>,
}

/// Radio configuration.
#[derive(Clone, Copy, Debug, PartialEq, Eq, Structural)]
pub struct Conf {
    pub channel: Option<Channel>,
    pub listen_interval: u16,
    pub power_level: i8,
    pub flags: u32,
}

/// The hardware side of the radio as the 802.11 stack sees it.
pub trait Hw {
    fn conf(&self) -> Conf;

    fn set_conf(&mut self, conf: &Conf) -> Result<(), i32>;

    fn report_scan_completed(&mut self, aborted: bool) -> Result<(), i32>;
}

} // verus!
