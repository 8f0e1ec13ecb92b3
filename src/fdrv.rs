//! Function-driver state: the SDIO register layout of each chip generation, the bus
//! state, the TX descriptor ring, and the device, interface and command records the
//! upper layers keep.
use vstd::prelude::*;
use vstd::string::StringSliceAdditionalSpecFns;

use crate::bytes::{copy_bytes, zeroed};
use crate::chip::ProductId;
use crate::error::DrvError;

verus! {

/// Block size of function 1.
pub const SDIOWIFI_FUNC_BLOCKSIZE: u32 = 512;

/// Number of TX queues.
pub const NX_TXQ_CNT: usize = 4;

/// Descriptors per TX queue.
pub const NX_TXDESC_CNT_MAX: usize = 64;

/// Device power states.
pub const SDIO_SLEEP_ST: u32 = 0;
pub const SDIO_ACTIVE_ST: u32 = 1;

/// Function-1 register offsets of one chip generation.
#[derive(Clone, Copy, Debug, PartialEq, Eq, Structural)]
pub struct SdioReg {
    pub bytemode_len_reg: u8,
    pub intr_config_reg: u8,
    pub sleep_reg: u8,
    pub wakeup_reg: u8,
    pub flow_ctrl_reg: u8,
    pub flowctrl_mask_reg: u8,
    pub register_block: u8,
    pub bytemode_enable_reg: u8,
    pub block_cnt_reg: u8,
    pub misc_int_status_reg: u8,
    pub rd_fifo_addr: u8,
    pub wr_fifo_addr: u8,
}

/// The register layout of the first two generations (8801, DC/DW).
pub open spec fn reg_v1_v2() -> SdioReg {
    SdioReg {
        bytemode_len_reg: 0x02,
        intr_config_reg: 0x04,
        sleep_reg: 0x05,
        wakeup_reg: 0x09,
        flow_ctrl_reg: 0x0A,
        flowctrl_mask_reg: 0x7F,
        register_block: 0x0B,
        bytemode_enable_reg: 0x11,
        block_cnt_reg: 0x12,
        misc_int_status_reg: 0,
        rd_fifo_addr: 0x08,
        wr_fifo_addr: 0x07,
    }
}

/// The register layout of the third generation (D80, D80X2).
pub open spec fn reg_v3() -> SdioReg {
    SdioReg {
        bytemode_len_reg: 0x05,
        intr_config_reg: 0,
        sleep_reg: 0,
        wakeup_reg: 0,
        flow_ctrl_reg: 0x03,
        flowctrl_mask_reg: 0,
        register_block: 0,
        bytemode_enable_reg: 0x07,
        block_cnt_reg: 0,
        misc_int_status_reg: 0x04,
        rd_fifo_addr: 0x0F,
        wr_fifo_addr: 0x10,
    }
}

/// Whether a chip is of the third generation.
pub open spec fn is_v3_chip(p: ProductId) -> bool {
    p == ProductId::Aic8800D80 || p == ProductId::Aic8800D80X2
}

impl SdioReg {
    /// The layout of the first two generations.
    pub fn v1_v2_default() -> (r: SdioReg)
        ensures
            r == reg_v1_v2(),
    {
        SdioReg {
            bytemode_len_reg: 0x02,
            intr_config_reg: 0x04,
            sleep_reg: 0x05,
            wakeup_reg: 0x09,
            flow_ctrl_reg: 0x0A,
            flowctrl_mask_reg: 0x7F,
            register_block: 0x0B,
            bytemode_enable_reg: 0x11,
            block_cnt_reg: 0x12,
            misc_int_status_reg: 0,
            rd_fifo_addr: 0x08,
            wr_fifo_addr: 0x07,
        }
    }

    /// The layout of the third generation.
    pub fn v3_default() -> (r: SdioReg)
        ensures
            r == reg_v3(),
    {
        SdioReg {
            bytemode_len_reg: 0x05,
            intr_config_reg: 0,
            sleep_reg: 0,
            wakeup_reg: 0,
            flow_ctrl_reg: 0x03,
            flowctrl_mask_reg: 0,
            register_block: 0,
            bytemode_enable_reg: 0x07,
            block_cnt_reg: 0,
            misc_int_status_reg: 0x04,
            rd_fifo_addr: 0x0F,
            wr_fifo_addr: 0x10,
        }
    }

    /// The layout of a chip.
    pub fn for_product(chipid: ProductId) -> (r: SdioReg)
        ensures
            r == if is_v3_chip(chipid) {
                reg_v3()
            } else {
                reg_v1_v2()
            },
    {
        match chipid {
            ProductId::Aic8800D80 | ProductId::Aic8800D80X2 => SdioReg::v3_default(),
            _ => SdioReg::v1_v2_default(),
        }
    }
}

/// State of the bus.
#[derive(Clone, Copy, Debug, PartialEq, Eq, Structural)]
pub enum BusState {
    Down,
    Up,
}

/// The bus state after bring-up (`up`) or teardown: only Down to Up and Up to Down
/// are allowed; any other request is refused with invalid-argument.
pub fn bus_transition(state: BusState, up: bool) -> (r: Result<BusState, DrvError>)
    ensures
        (state == BusState::Down && up) ==> r == Ok::<BusState, DrvError>(BusState::Up),
        (state == BusState::Up && !up) ==> r == Ok::<BusState, DrvError>(BusState::Down),
        (state == BusState::Down && !up) || (state == BusState::Up && up) ==> r == Err::<
            BusState,
            DrvError,
        >(DrvError::Invalid),
{
    match (state, up) {
        (BusState::Down, true) => Ok(BusState::Up),
        (BusState::Up, false) => Ok(BusState::Down),
        _ => Err(DrvError::Invalid),
    }
}

/// The operations of a bus.
pub trait BusOps {
    fn start(&self) -> Result<(), i32>;

    fn stop(&self) -> Result<(), i32>;

    fn txdata(&self, buf: &[u8]) -> Result<usize, i32>;

    fn txmsg(&self, msg: &[u8]) -> Result<usize, i32>;
}

/// The TX descriptor ring of each queue: host ids by slot, and the free and used
/// counters (which wrap).
pub struct SdioHostEnv {
    pub txdesc_free_idx: Vec<u32>,
    pub txdesc_used_idx: Vec<u32>,
    pub tx_host_id: Vec<u64>,
}

impl SdioHostEnv {
    /// Every queue has its two counters and its slots.
    pub open spec fn wf(&self) -> bool {
        &&& self.txdesc_free_idx@.len() == NX_TXQ_CNT
        &&& self.txdesc_used_idx@.len() == NX_TXQ_CNT
        &&& self.tx_host_id@.len() == NX_TXQ_CNT * NX_TXDESC_CNT_MAX
    }

    /// Empty rings.
    pub fn init() -> (r: SdioHostEnv)
        ensures
            r.wf(),
            forall|q: int| 0 <= q < NX_TXQ_CNT ==> r.txdesc_free_idx@[q] == 0 && r.txdesc_used_idx@[q] == 0,
    {
        let mut f: Vec<u32> = Vec::new();
        let mut u: Vec<u32> = Vec::new();
        let mut i: usize = 0;
        while i < NX_TXQ_CNT
            invariant
                i <= NX_TXQ_CNT,
                f@.len() == i,
                u@.len() == i,
                forall|q: int| 0 <= q < i ==> f@[q] == 0 && u@[q] == 0,
            decreases NX_TXQ_CNT - i,
        {
            f.push(0);
            u.push(0);
            i = i + 1;
        }
        let mut ids: Vec<u64> = Vec::new();
        let mut k: usize = 0;
        while k < NX_TXQ_CNT * NX_TXDESC_CNT_MAX
            invariant
                k <= NX_TXQ_CNT * NX_TXDESC_CNT_MAX,
                ids@.len() == k,
            decreases NX_TXQ_CNT * NX_TXDESC_CNT_MAX - k,
        {
            ids.push(0);
            k = k + 1;
        }
        SdioHostEnv { txdesc_free_idx: f, txdesc_used_idx: u, tx_host_id: ids }
    }

    /// Records `host_id` in the next free slot of queue `queue_idx` and advances the
    /// free counter (wrapping). A queue index out of range changes nothing.
    pub fn txdesc_push(&mut self, queue_idx: usize, host_id: u64)
        requires
            old(self).wf(),
        ensures
            final(self).wf(),
            queue_idx >= NX_TXQ_CNT ==> final(self).txdesc_free_idx@ == old(self).txdesc_free_idx@
                && final(self).tx_host_id@ == old(self).tx_host_id@,
            queue_idx < NX_TXQ_CNT ==> {
                let free = old(self).txdesc_free_idx@[queue_idx as int];
                &&& final(self).tx_host_id@ == old(self).tx_host_id@.update(
                    queue_idx * NX_TXDESC_CNT_MAX + free % 64,
                    host_id,
                )
                &&& final(self).txdesc_free_idx@ == old(self).txdesc_free_idx@.update(
                    queue_idx as int,
                    vstd::wrapping::u32_specs::wrapping_add(free, 1),
                )
            },
            final(self).txdesc_used_idx@ == old(self).txdesc_used_idx@,
    {
        if queue_idx >= NX_TXQ_CNT {
            return;
        }
        let free = self.txdesc_free_idx[queue_idx];
        let slot = queue_idx * NX_TXDESC_CNT_MAX + (free % 64) as usize;
        self.tx_host_id.set(slot, host_id);
        self.txdesc_free_idx.set(queue_idx, free.wrapping_add(1));
    }

    /// Takes the host id of the next used slot of queue `queue_idx` and advances the
    /// used counter (wrapping); `None` for a queue index out of range.
    pub fn tx_cfm_advance(&mut self, queue_idx: usize) -> (r: Option<u64>)
        requires
            old(self).wf(),
        ensures
            final(self).wf(),
            final(self).txdesc_free_idx@ == old(self).txdesc_free_idx@,
            final(self).tx_host_id@ == old(self).tx_host_id@,
            queue_idx >= NX_TXQ_CNT ==> r is None && final(self).txdesc_used_idx@ == old(self).txdesc_used_idx@,
            queue_idx < NX_TXQ_CNT ==> {
                let used = old(self).txdesc_used_idx@[queue_idx as int];
                &&& r == Some(old(self).tx_host_id@[queue_idx * NX_TXDESC_CNT_MAX + used % 64])
                &&& final(self).txdesc_used_idx@ == old(self).txdesc_used_idx@.update(
                    queue_idx as int,
                    vstd::wrapping::u32_specs::wrapping_add(used, 1),
                )
            },
    {
        if queue_idx >= NX_TXQ_CNT {
            return None;
        }
        let used = self.txdesc_used_idx[queue_idx];
        let slot = queue_idx * NX_TXDESC_CNT_MAX + (used % 64) as usize;
        let host_id = self.tx_host_id[slot];
        self.txdesc_used_idx.set(queue_idx, used.wrapping_add(1));
        Some(host_id)
    }
}

/// A probed SDIO device: its chip, register layout and power state.
#[derive(Clone, Copy, Debug, PartialEq, Eq, Structural)]
pub struct SdioDev {
    pub chipid: ProductId,
    pub sdio_reg: SdioReg,
    pub state: u32,
}

impl SdioDev {
    /// An active device of chip `chipid` with that chip's register layout.
    pub fn new(chipid: ProductId) -> (r: SdioDev)
        ensures
            r.chipid == chipid,
            r.sdio_reg == if is_v3_chip(chipid) {
                reg_v3()
            } else {
                reg_v1_v2()
            },
            r.state == SDIO_ACTIVE_ST,
    {
        SdioDev { chipid, sdio_reg: SdioReg::for_product(chipid), state: SDIO_ACTIVE_ST }
    }

    /// Marks the device asleep.
    pub fn set_sleep(&mut self)
        ensures
            *final(self) == (SdioDev { state: SDIO_SLEEP_ST, ..*old(self) }),
    {
        self.state = SDIO_SLEEP_ST;
    }

    /// Marks the device active.
    pub fn set_active(&mut self)
        ensures
            *final(self) == (SdioDev { state: SDIO_ACTIVE_ST, ..*old(self) }),
    {
        self.state = SDIO_ACTIVE_ST;
    }

    /// Whether the device is of the third generation.
    pub fn is_v3(&self) -> (r: bool)
        ensures
            r == is_v3_chip(self.chipid),
    {
        match self.chipid {
            ProductId::Aic8800D80 | ProductId::Aic8800D80X2 => true,
            _ => false,
        }
    }
}

/// The device record made at probe time.
pub fn aicwf_sdio_probe_equiv(chipid: ProductId) -> (r: SdioDev)
    ensures
        r == SdioDev::new_spec(chipid),
{
    SdioDev::new(chipid)
}

impl SdioDev {
    /// The device record `new` makes.
    pub open spec fn new_spec(chipid: ProductId) -> SdioDev {
        SdioDev {
            chipid,
            sdio_reg: if is_v3_chip(chipid) {
                reg_v3()
            } else {
                reg_v1_v2()
            },
            state: SDIO_ACTIVE_ST,
        }
    }
}

/// Messages of the daemon channel.
#[derive(Clone, Copy, Debug, PartialEq, Eq, Structural)]
pub enum NetlinkMsgType {
    DaemonOn,
    DaemonOff,
    DaemonAlive,
    DelSta,
    NewSta,
    IntfRpt,
    StaRpt,
    FrameRpt,
    TimeTick,
    PrivInfoCmd,
    BSteerCmd,
    BSteerBlockAdd,
    BSteerBlockDel,
    BSteerRoam,
    GeneralCmd,
    Customer,
    ConfigUpdate,
}

/// States of the Wi-Fi interface.
#[derive(Clone, Copy, Debug, PartialEq, Eq, Structural)]
pub enum WifiState {
    Down,
    Up,
    Scanning,
    Connecting,
    Connected,
    Disconnecting,
}

/// The interface's name and state.
pub struct WifiManager {
    state: WifiState,
    interface_name: String,
}

impl WifiManager {
    /// The state.
    pub closed spec fn state_view(&self) -> WifiState {
        self.state
    }

    /// The interface name.
    pub closed spec fn name_view(&self) -> Seq<char> {
        self.interface_name@
    }

    /// A manager of interface `interface`, down.
    pub fn new(interface: &str) -> (r: WifiManager)
        ensures
            r.state_view() == WifiState::Down,
            r.name_view() == interface@,
    {
        WifiManager { state: WifiState::Down, interface_name: interface.to_string() }
    }

    /// The state.
    pub fn state(&self) -> (r: WifiState)
        ensures
            r == self.state_view(),
    {
        self.state
    }

    /// Sets the state.
    pub fn set_state(&mut self, state: WifiState)
        ensures
            final(self).state_view() == state,
            final(self).name_view() == old(self).name_view(),
    {
        self.state = state;
    }

    /// The interface name.
    pub fn interface_name(&self) -> (r: &str)
        ensures
            r@ == self.name_view(),
    {
        self.interface_name.as_str()
    }

    /// Brings the interface up.
    pub fn up(&mut self) -> (r: Result<(), i32>)
        ensures
            r is Ok,
            final(self).state_view() == WifiState::Up,
            final(self).name_view() == old(self).name_view(),
    {
        self.state = WifiState::Up;
        Ok(())
    }

    /// Takes the interface down.
    pub fn down(&mut self) -> (r: Result<(), i32>)
        ensures
            r is Ok,
            final(self).state_view() == WifiState::Down,
            final(self).name_view() == old(self).name_view(),
    {
        self.state = WifiState::Down;
        Ok(())
    }
}

/// Length of a MAC address.
pub const ETH_ALEN: usize = 6;

/// Length of the interface name field.
pub const IFNAMSIZ: usize = 16;

/// Traffic counters of a network interface.
#[derive(Clone, Copy, Debug, PartialEq, Eq, Structural)]
pub struct NetDeviceStats {
    pub rx_packets: u32,
    pub tx_packets: u32,
    pub rx_bytes: u64,
    pub tx_bytes: u64,
    pub rx_errors: u32,
    pub tx_errors: u32,
    pub rx_dropped: u32,
    pub tx_dropped: u32,
}

/// A network interface: NUL-padded name, MAC address, link flags and counters.
pub struct NetDevice {
    pub name: Vec<u8>,
    pub mac_addr: Vec<u8>,
    pub up: bool,
    pub carrier_ok: bool,
    pub stats: NetDeviceStats,
}

impl NetDevice {
    /// An interface named by the first 15 bytes of `name`, NUL-padded to 16, with a
    /// zero MAC address, down, no carrier, zero counters.
    pub fn new(name: &str) -> (r: NetDevice)
        ensures
            ({
                let b = name.spec_bytes();
                let n = if b.len() < 15 {
                    b.len() as int
                } else {
                    15
                };
                &&& r.name@.len() == IFNAMSIZ
                &&& forall|i: int| 0 <= i < n ==> r.name@[i] == b[i]
                &&& forall|i: int| n <= i < IFNAMSIZ ==> r.name@[i] == 0
            }),
            r.mac_addr@ == Seq::new(ETH_ALEN as nat, |i: int| 0u8),
            !r.up && !r.carrier_ok,
    {
        let bytes = name.as_bytes();
        let n = if bytes.len() < 15 {
            bytes.len()
        } else {
            15
        };
        let mut nm = zeroed(IFNAMSIZ);
        copy_bytes(&mut nm, 0, bytes, 0, n);
        NetDevice {
            name: nm,
            mac_addr: zeroed(ETH_ALEN),
            up: false,
            carrier_ok: false,
            stats: NetDeviceStats {
                rx_packets: 0,
                tx_packets: 0,
                rx_bytes: 0,
                tx_bytes: 0,
                rx_errors: 0,
                tx_errors: 0,
                rx_dropped: 0,
                tx_dropped: 0,
            },
        }
    }

    /// Sets the MAC address from the first six bytes of `mac`.
    pub fn set_mac_addr(&mut self, mac: &[u8])
        requires
            mac@.len() >= ETH_ALEN,
        ensures
            final(self).mac_addr@ == mac@.take(6),
            final(self).name@ == old(self).name@,
            final(self).up == old(self).up,
            final(self).carrier_ok == old(self).carrier_ok,
    {
        self.mac_addr = crate::bus::slice_of(mac, 0, ETH_ALEN);
    }

    /// Marks the carrier present.
    pub fn carrier_on(&mut self)
        ensures
            final(self).carrier_ok,
            final(self).up == old(self).up,
            final(self).name@ == old(self).name@,
            final(self).mac_addr@ == old(self).mac_addr@,
    {
        self.carrier_ok = true;
    }

    /// Marks the carrier absent.
    pub fn carrier_off(&mut self)
        ensures
            !final(self).carrier_ok,
            final(self).up == old(self).up,
            final(self).name@ == old(self).name@,
            final(self).mac_addr@ == old(self).mac_addr@,
    {
        self.carrier_ok = false;
    }
}

/// Transmission through a network interface.
pub trait NetDeviceXmit {
    fn start_xmit(&self, buf: &[u8]) -> Result<(), i32>;
}

/// Entries of the station table.
pub const STA_TABLE_LEN: usize = 16;

/// A MAC address as a 48-bit number, first byte lowest.
pub open spec fn mac_key_spec(m: Seq<u8>) -> u64 {
    (m[0] + 256 * m[1] + 65536 * m[2] + 16777216 * m[3] + 4294967296 * m[4] + 1099511627776 * m[5]) as u64
}

/// The first six bytes of `mac` as a 48-bit number.
pub fn mac_key(mac: &[u8]) -> (r: u64)
    requires
        mac@.len() >= 6,
    ensures
        r == mac_key_spec(mac@),
{
    mac[0] as u64 + 256 * (mac[1] as u64) + 65536 * (mac[2] as u64) + 16777216 * (mac[3] as u64)
        + 4294967296 * (mac[4] as u64) + 1099511627776 * (mac[5] as u64)
}

/// One entry of the station table.
#[derive(Clone, Copy, Debug, PartialEq, Eq, Structural)]
pub struct StaEntry {
    pub mac: u64,
    pub sta_idx: u8,
    pub used: bool,
}

/// The entry that registering `key` lands in, from `i` on: the first entry that is
/// free or already holds `key`.
pub open spec fn reg_slot(t: Seq<StaEntry>, key: u64, i: int) -> Option<int>
    decreases t.len() - i,
{
    if i < 0 || i >= t.len() {
        None
    } else if !t[i].used || t[i].mac == key {
        Some(i)
    } else {
        reg_slot(t, key, i + 1)
    }
}

/// The first used entry holding `key`, from `i` on.
pub open spec fn find_slot(t: Seq<StaEntry>, key: u64, i: int) -> Option<int>
    decreases t.len() - i,
{
    if i < 0 || i >= t.len() {
        None
    } else if t[i].used && t[i].mac == key {
        Some(i)
    } else {
        find_slot(t, key, i + 1)
    }
}

/// The station table of the configuration layer: which station index the
/// firmware gave each peer.
pub struct WiphyOpsImpl {
    sta_table: Vec<StaEntry>,
}

impl View for WiphyOpsImpl {
    type V = Seq<StaEntry>;

    closed spec fn view(&self) -> Seq<StaEntry> {
        self.sta_table@
    }
}

impl WiphyOpsImpl {
    /// An empty table.
    pub fn new() -> (r: WiphyOpsImpl)
        ensures
            r@.len() == STA_TABLE_LEN,
            forall|i: int| 0 <= i < r@.len() ==> !r@[i].used,
    {
        let mut t: Vec<StaEntry> = Vec::new();
        let mut i: usize = 0;
        while i < STA_TABLE_LEN
            invariant
                i <= STA_TABLE_LEN,
                t@.len() == i,
                forall|k: int| 0 <= k < i ==> !t@[k].used,
            decreases STA_TABLE_LEN - i,
        {
            t.push(StaEntry { mac: 0, sta_idx: 0, used: false });
            i = i + 1;
        }
        WiphyOpsImpl { sta_table: t }
    }

    /// Records that peer `bssid` has station index `ap_idx`: in the first entry that
    /// is free or already holds that peer. A full table is left unchanged.
    pub fn register_sta_from_connect_ind(&mut self, vif_idx: u8, bssid: &[u8], ap_idx: u8)
        requires
            bssid@.len() >= 6,
        ensures
            match reg_slot(old(self)@, mac_key_spec(bssid@), 0) {
                Some(i) => final(self)@ == old(self)@.update(
                    i,
                    StaEntry { mac: mac_key_spec(bssid@), sta_idx: ap_idx, used: true },
                ),
                None => final(self)@ == old(self)@,
            },
    {
        let key = mac_key(bssid);
        let mut i: usize = 0;
        while i < self.sta_table.len()
            invariant
                self@ == old(self)@,
                i <= self@.len(),
                reg_slot(self@, key, i as int) == reg_slot(self@, key, 0),
                key == mac_key_spec(bssid@),
            decreases self@.len() - i,
        {
            let e = self.sta_table[i];
            if !e.used || e.mac == key {
                self.sta_table.set(i, StaEntry { mac: key, sta_idx: ap_idx, used: true });
                return;
            }
            i = i + 1;
        }
    }

    /// Frees the first used entry of peer `peer`, if any.
    pub fn unregister_sta_by_mac(&mut self, peer: &[u8])
        requires
            peer@.len() >= 6,
        ensures
            match find_slot(old(self)@, mac_key_spec(peer@), 0) {
                Some(i) => final(self)@ == old(self)@.update(i, StaEntry { used: false, ..old(self)@[i] }),
                None => final(self)@ == old(self)@,
            },
    {
        let key = mac_key(peer);
        let mut i: usize = 0;
        while i < self.sta_table.len()
            invariant
                self@ == old(self)@,
                i <= self@.len(),
                find_slot(self@, key, i as int) == find_slot(self@, key, 0),
                key == mac_key_spec(peer@),
            decreases self@.len() - i,
        {
            let e = self.sta_table[i];
            if e.used && e.mac == key {
                assert(find_slot(self@, key, i as int) == Some(i as int));
                self.sta_table.set(i, StaEntry { used: false, ..e });
                assert(self@ =~= old(self)@.update(i as int, StaEntry { used: false, ..old(self)@[i as int] }));
                return;
            }
            i = i + 1;
        }
    }

    /// The station index of peer `peer`, if it is registered.
    pub fn lookup_sta_idx(&self, peer: &[u8]) -> (r: Option<u8>)
        requires
            peer@.len() >= 6,
        ensures
            match find_slot(self@, mac_key_spec(peer@), 0) {
                Some(i) => r == Some(self@[i].sta_idx),
                None => r is None,
            },
    {
        let key = mac_key(peer);
        let mut i: usize = 0;
        while i < self.sta_table.len()
            invariant
                i <= self@.len(),
                find_slot(self@, key, i as int) == find_slot(self@, key, 0),
                key == mac_key_spec(peer@),
            decreases self@.len() - i,
        {
            let e = self.sta_table[i];
            if e.used && e.mac == key {
                assert(find_slot(self@, key, i as int) == Some(i as int));
                return Some(e.sta_idx);
            }
            i = i + 1;
        }
        None
    }
}

/// Whether sequence number `a` is at or before `b` modulo 2^32.
pub fn u32_before(a: u32, b: u32) -> (r: bool)
    ensures
        r == (vstd::wrapping::u32_specs::wrapping_sub(a, b) == 0 || vstd::wrapping::u32_specs::wrapping_sub(a, b) >= 0x8000_0000),
{
    let d = a.wrapping_sub(b);
    d == 0 || d >= 0x8000_0000
}

/// An Android private command: a buffer, and how much of it is used.
pub struct AndroidWifiPrivCmd {
    pub buf: Vec<u8>,
    pub used_len: usize,
    pub total_len: usize,
}

impl AndroidWifiPrivCmd {
    /// An empty command with a zeroed buffer of `total_len` bytes.
    pub fn new(total_len: usize) -> (r: AndroidWifiPrivCmd)
        ensures
            r.buf@ == Seq::new(total_len as nat, |i: int| 0u8),
            r.used_len == 0,
            r.total_len == total_len,
    {
        AndroidWifiPrivCmd { buf: zeroed(total_len), used_len: 0, total_len }
    }

    /// A command holding exactly `buf`.
    pub fn from_buf(buf: &[u8]) -> (r: AndroidWifiPrivCmd)
        ensures
            r.buf@ == buf@,
            r.used_len == buf@.len(),
            r.total_len == buf@.len(),
    {
        let mut cmd = AndroidWifiPrivCmd::new(buf.len());
        copy_bytes(&mut cmd.buf, 0, buf, 0, buf.len());
        assert(cmd.buf@ =~= buf@);
        cmd.used_len = buf.len();
        cmd
    }
}

} // verus!
