//! LMAC messages and the request/confirm command table.
use vstd::prelude::*;

use crate::bytes::{copy_bytes, fill_bytes, le16, put_u16_le, zeroed};

verus! {

/// Size in 32-bit words of an E2A message's parameter area.
pub const IPC_E2A_MSG_PARAM_SIZE: usize = 256;

/// Largest confirmation payload a command slot keeps.
pub const RWNX_CMD_E2AMSG_LEN_MAX: usize = 256;

/// Largest parameter block of an LMAC message: room for a 1024-byte firmware block
/// with its address and size words.
pub const LMAC_MSG_MAX_LEN: usize = 1032;

/// Timeout of an 802.11 command, in milliseconds.
pub const RWNX_80211_CMD_TIMEOUT_MS: u32 = 6000;

/// Number of slots of the command table.
pub const CMD_MGR_MAX_PENDING: usize = 8;

/// Task that the host driver sends from.
pub const DRV_TASK_ID: u16 = 100;

/// Command flag: do not block.
pub const CMD_FLAG_NONBLOCK: u16 = 1;

/// Command flag: a confirmation is expected.
pub const CMD_FLAG_REQ_CFM: u16 = 2;

/// Command flag: waiting to be pushed.
pub const CMD_FLAG_WAIT_PUSH: u16 = 4;

/// Command flag: waiting for the acknowledgement.
pub const CMD_FLAG_WAIT_ACK: u16 = 8;

/// Command flag: waiting for the confirmation.
pub const CMD_FLAG_WAIT_CFM: u16 = 16;

/// Command flag: completed.
pub const CMD_FLAG_DONE: u16 = 32;

/// A message from the embedded side to the host, as received.
pub struct IpcE2AMsg {
    pub id: u16,
    pub dummy_dest_id: u16,
    pub dummy_src_id: u16,
    pub param_len: u16,
    pub pattern: u32,
    pub param: Vec<u32>,
}

impl IpcE2AMsg {
    /// An all-zero message with a full parameter area.
    pub fn default() -> (r: IpcE2AMsg)
        ensures
            r.id == 0 && r.dummy_dest_id == 0 && r.dummy_src_id == 0,
            r.param_len == 0 && r.pattern == 0,
            r.param@ == Seq::new(IPC_E2A_MSG_PARAM_SIZE as nat, |i: int| 0u32),
    {
        let mut param: Vec<u32> = Vec::with_capacity(IPC_E2A_MSG_PARAM_SIZE);
        let mut i: usize = 0;
        while i < IPC_E2A_MSG_PARAM_SIZE
            invariant
                i <= IPC_E2A_MSG_PARAM_SIZE,
                param@ == Seq::new(i as nat, |k: int| 0u32),
            decreases IPC_E2A_MSG_PARAM_SIZE - i,
        {
            param.push(0);
            i = i + 1;
            assert(param@ =~= Seq::new(i as nat, |k: int| 0u32));
        }
        IpcE2AMsg { id: 0, dummy_dest_id: 0, dummy_src_id: 0, param_len: 0, pattern: 0, param }
    }
}

/// Header of a host-to-embedded message.
#[derive(Clone, Copy, Debug, PartialEq, Eq, Structural)]
pub struct LmacMsgHeader {
    pub id: u16,
    pub dest_id: u16,
    pub src_id: u16,
    pub param_len: u16,
}

/// The eight header bytes on the wire: id, destination, source, parameter length.
pub open spec fn header_bytes(h: LmacMsgHeader) -> Seq<u8> {
    le16(h.id) + le16(h.dest_id) + le16(h.src_id) + le16(h.param_len)
}

/// The eight-byte bus prefix that precedes the header for the 8801:
/// `[len + 4 LE16, 0x11, 0x00, 0, 0, 0, 0]` where `len = 8 + param_len`.
pub open spec fn bus_prefix_8801(param_len: u16) -> Seq<u8> {
    le16((param_len + 12) as u16) + seq![0x11u8, 0u8, 0u8, 0u8, 0u8, 0u8]
}

/// `m` is a well-formed message with id `id` to `dest`, from the driver task, whose
/// parameters are `p`.
pub open spec fn msg_of(m: LmacMsg, id: u16, dest: u16, p: Seq<u8>) -> bool {
    &&& m.wf()
    &&& m.header == (LmacMsgHeader { id, dest_id: dest, src_id: DRV_TASK_ID, param_len: p.len() as u16 })
    &&& m.params() == p
}

/// A host-to-embedded message: header and parameter block.
pub struct LmacMsg {
    pub header: LmacMsgHeader,
    pub param: Vec<u8>,
}

impl LmacMsg {
    /// The parameter block is full-sized and the declared length fits in it.
    pub open spec fn wf(&self) -> bool {
        &&& self.param@.len() == LMAC_MSG_MAX_LEN
        &&& self.header.param_len <= LMAC_MSG_MAX_LEN
    }

    /// The parameters the header declares.
    pub open spec fn params(&self) -> Seq<u8> {
        self.param@.subrange(0, self.header.param_len as int)
    }

    /// A message with the given header and a zeroed parameter block.
    pub fn new(id: u16, dest_id: u16, src_id: u16, param_len: u16) -> (r: LmacMsg)
        ensures
            r.header == (LmacMsgHeader { id, dest_id, src_id, param_len }),
            r.param@ == Seq::new(LMAC_MSG_MAX_LEN as nat, |i: int| 0u8),
    {
        LmacMsg {
            header: LmacMsgHeader { id, dest_id, src_id, param_len },
            param: zeroed(LMAC_MSG_MAX_LEN),
        }
    }

    /// A message with the given id and destination, sent from the driver task, whose
    /// parameters are `p`.
    pub fn with_params(id: u16, dest_id: u16, p: &Vec<u8>) -> (r: LmacMsg)
        requires
            p@.len() <= LMAC_MSG_MAX_LEN,
        ensures
            msg_of(r, id, dest_id, p@),
    {
        let mut msg = LmacMsg::new(id, dest_id, DRV_TASK_ID, p.len() as u16);
        copy_bytes(&mut msg.param, 0, p.as_slice(), 0, p.len());
        assert(msg.params() =~= p@);
        msg
    }

    /// Writes the header and then the parameters into `buf` and returns `8 + param_len`.
    /// The parameters are written only when `buf` has room for all of them.
    pub fn serialize(&self, buf: &mut Vec<u8>) -> (r: usize)
        requires
            self.wf(),
            old(buf)@.len() >= 8,
        ensures
            r == 8 + self.header.param_len,
            final(buf)@.len() == old(buf)@.len(),
            final(buf)@.subrange(0, 8) == header_bytes(self.header),
            old(buf)@.len() >= r ==> final(buf)@.subrange(8, r as int) == self.params(),
            forall|i: int|
                8 <= i < old(buf)@.len() && !(old(buf)@.len() >= r && i < r) ==> final(buf)@[i]
                    == old(buf)@[i],
    {
        let h = self.header;
        put_u16_le(buf, 0, h.id);
        put_u16_le(buf, 2, h.dest_id);
        put_u16_le(buf, 4, h.src_id);
        put_u16_le(buf, 6, h.param_len);
        let plen = h.param_len as usize;
        if plen > 0 && buf.len() >= 8 + plen {
            copy_bytes(buf, 8, self.param.as_slice(), 0, plen);
            assert(buf@.subrange(8, 8 + plen) =~= self.params());
        }
        assert(buf@.subrange(0, 8) =~= header_bytes(h));
        proof {
            if plen == 0 {
                assert(buf@.subrange(8, 8) =~= self.params());
            }
        }
        8 + plen
    }

    /// Writes the 8801 bus prefix, the header and then the parameters into `buf`
    /// and returns `16 + param_len`. The parameters are written only when `buf` has
    /// room for all of them.
    pub fn serialize_8801(&self, buf: &mut Vec<u8>) -> (r: usize)
        requires
            self.wf(),
            old(buf)@.len() >= 16,
        ensures
            r == 16 + self.header.param_len,
            final(buf)@.len() == old(buf)@.len(),
            final(buf)@.subrange(0, 8) == bus_prefix_8801(self.header.param_len),
            final(buf)@.subrange(8, 16) == header_bytes(self.header),
            old(buf)@.len() >= r ==> final(buf)@.subrange(16, r as int) == self.params(),
            forall|i: int|
                16 <= i < old(buf)@.len() && !(old(buf)@.len() >= r && i < r) ==> final(buf)@[i]
                    == old(buf)@[i],
    {
        let h = self.header;
        let plen = h.param_len as usize;
        let len_plus_4: u16 = h.param_len + 12;
        put_u16_le(buf, 0, len_plus_4);
        buf.set(2, 0x11);
        buf.set(3, 0x00);
        fill_bytes(buf, 4, 4, 0);
        put_u16_le(buf, 8, h.id);
        put_u16_le(buf, 10, h.dest_id);
        put_u16_le(buf, 12, h.src_id);
        put_u16_le(buf, 14, h.param_len);
        if plen > 0 && buf.len() >= 16 + plen {
            copy_bytes(buf, 16, self.param.as_slice(), 0, plen);
            assert(buf@.subrange(16, 16 + plen) =~= self.params());
        }
        assert(buf@.subrange(0, 8) =~= bus_prefix_8801(h.param_len));
        assert(buf@.subrange(8, 16) =~= header_bytes(h));
        proof {
            if plen == 0 {
                assert(buf@.subrange(16, 16) =~= self.params());
            }
        }
        16 + plen
    }
}

/// Firmware task identifiers.
#[derive(Clone, Copy, Debug, PartialEq, Eq, Structural)]
pub enum TaskId {
    Unset,
    Mm,
    Dbg,
    Scan,
    Tdls,
    Scanu,
    Me,
    Sm,
    Apm,
    Bam,
    Mesh,
    Rxu,
    LastEmb,
    Api,
    Max,
}

/// The number the firmware uses for a task.
pub open spec fn task_code(t: TaskId) -> u8 {
    match t {
        TaskId::Unset => 0xFF,
        TaskId::Mm => 0,
        TaskId::Dbg => 1,
        TaskId::Scan => 2,
        TaskId::Tdls => 3,
        TaskId::Scanu => 4,
        TaskId::Me => 5,
        TaskId::Sm => 6,
        TaskId::Apm => 7,
        TaskId::Bam => 8,
        TaskId::Mesh => 9,
        TaskId::Rxu => 10,
        TaskId::LastEmb => 11,
        TaskId::Api => 12,
        TaskId::Max => 13,
    }
}

impl TaskId {
    /// The firmware's number for the task identifier.
    pub fn code(&self) -> (r: u8)
        ensures
            r == task_code(*self),
    {
        match self {
            TaskId::Unset => 0xFF,
            TaskId::Mm => 0,
            TaskId::Dbg => 1,
            TaskId::Scan => 2,
            TaskId::Tdls => 3,
            TaskId::Scanu => 4,
            TaskId::Me => 5,
            TaskId::Sm => 6,
            TaskId::Apm => 7,
            TaskId::Bam => 8,
            TaskId::Mesh => 9,
            TaskId::Rxu => 10,
            TaskId::LastEmb => 11,
            TaskId::Api => 12,
            TaskId::Max => 13,
        }
    }
}

/// What a slot of the command table holds, as a mathematical value.
pub struct CmdSlot {
    pub reqid: u16,
    pub done: bool,
    pub cfm: Seq<u8>,
}

struct PendingCmd {
    reqid: u16,
    done: bool,
    cfm_data: Vec<u8>,
}

/// The command table: a fixed number of slots, each free or pending a confirmation.
pub struct RwnxCmdMgr {
    slots: Vec<Option<PendingCmd>>,
}

/// The slot a pending command holds.
pub open spec fn slot_of(reqid: u16) -> Option<CmdSlot> {
    Some(CmdSlot { reqid, done: false, cfm: Seq::empty() })
}

/// Slot `i` is pending the confirmation `msg_id` and has not received it.
pub open spec fn awaits(v: Seq<Option<CmdSlot>>, i: int, msg_id: u16) -> bool {
    v[i] is Some && v[i]->0.reqid == msg_id && !v[i]->0.done
}

/// The part of a confirmation payload that a slot keeps.
pub open spec fn kept_cfm(param: Seq<u8>) -> Seq<u8> {
    if param.len() <= RWNX_CMD_E2AMSG_LEN_MAX {
        param
    } else {
        param.subrange(0, RWNX_CMD_E2AMSG_LEN_MAX as int)
    }
}

/// What `push` does: the first free slot, if any, takes the request.
pub open spec fn push_post(
    v: Seq<Option<CmdSlot>>,
    reqid: u16,
    r: Option<usize>,
    v2: Seq<Option<CmdSlot>>,
) -> bool {
    &&& r is None <==> forall|i: int| 0 <= i < v.len() ==> v[i] is Some
    &&& r is None ==> v2 == v
    &&& r matches Some(t) ==> {
        &&& t < v.len()
        &&& v[t as int] is None
        &&& forall|i: int| 0 <= i < t ==> v[i] is Some
        &&& v2 == v.update(t as int, slot_of(reqid))
    }
}

/// What `on_cfm` does: the first slot awaiting `msg_id`, if any, takes the payload.
pub open spec fn cfm_post(
    v: Seq<Option<CmdSlot>>,
    msg_id: u16,
    param: Seq<u8>,
    r: bool,
    v2: Seq<Option<CmdSlot>>,
) -> bool {
    &&& r <==> exists|i: int| 0 <= i < v.len() && awaits(v, i, msg_id)
    &&& !r ==> v2 == v
    &&& r ==> exists|t: int|
        0 <= t < v.len() && awaits(v, t, msg_id) && (forall|i: int|
            0 <= i < t ==> !awaits(v, i, msg_id)) && v2 == v.update(
            t,
            Some(CmdSlot { reqid: msg_id, done: true, cfm: kept_cfm(param) }),
        )
}

/// What `take_cfm` does to the table: a valid token's slot becomes free.
pub open spec fn take_post(v: Seq<Option<CmdSlot>>, token: usize, v2: Seq<Option<CmdSlot>>) -> bool {
    if token < v.len() {
        v2 == v.update(token as int, None)
    } else {
        v2 == v
    }
}

/// The first slot at or after `i` awaiting `msg_id`, if any.
pub open spec fn first_awaiting(v: Seq<Option<CmdSlot>>, msg_id: u16, i: int) -> Option<int>
    decreases v.len() - i,
{
    if i < 0 || i >= v.len() {
        None
    } else if awaits(v, i, msg_id) {
        Some(i)
    } else {
        first_awaiting(v, msg_id, i + 1)
    }
}

/// The table after a confirmation `msg_id` with payload `param` is delivered.
pub open spec fn apply_cfm(v: Seq<Option<CmdSlot>>, msg_id: u16, param: Seq<u8>) -> Seq<Option<CmdSlot>> {
    match first_awaiting(v, msg_id, 0) {
        Some(t) => v.update(t, Some(CmdSlot { reqid: msg_id, done: true, cfm: kept_cfm(param) })),
        None => v,
    }
}

/// `first_awaiting` finds the first awaiting slot from `i` on, or shows there is none.
pub proof fn lemma_first_awaiting(v: Seq<Option<CmdSlot>>, msg_id: u16, i: int)
    requires
        0 <= i,
    ensures
        first_awaiting(v, msg_id, i) matches Some(t) ==> i <= t < v.len() && awaits(v, t, msg_id)
            && forall|k: int| i <= k < t ==> !awaits(v, k, msg_id),
        first_awaiting(v, msg_id, i) is None ==> forall|k: int| i <= k < v.len() ==> !awaits(v, k, msg_id),
    decreases v.len() - i,
{
    if i < v.len() && !awaits(v, i, msg_id) {
        lemma_first_awaiting(v, msg_id, i + 1);
    }
}

/// What `on_cfm` does is exactly `apply_cfm`.
pub proof fn lemma_cfm_post_is_apply(
    v: Seq<Option<CmdSlot>>,
    msg_id: u16,
    param: Seq<u8>,
    r: bool,
    v2: Seq<Option<CmdSlot>>,
)
    requires
        cfm_post(v, msg_id, param, r, v2),
    ensures
        v2 == apply_cfm(v, msg_id, param),
{
    lemma_first_awaiting(v, msg_id, 0);
    if r {
        let t = choose|t: int|
            0 <= t < v.len() && awaits(v, t, msg_id) && (forall|i: int|
                0 <= i < t ==> !awaits(v, i, msg_id)) && v2 == v.update(
                t,
                Some(CmdSlot { reqid: msg_id, done: true, cfm: kept_cfm(param) }),
            );
        match first_awaiting(v, msg_id, 0) {
            Some(u) => {
                if u < t {
                    assert(!awaits(v, u, msg_id));
                }
                if t < u {
                    assert(!awaits(v, t, msg_id));
                }
            },
            None => {
                assert(!awaits(v, t, msg_id));
            },
        }
    } else {
        match first_awaiting(v, msg_id, 0) {
            Some(u) => {
                assert(awaits(v, u, msg_id));
            },
            None => {},
        }
    }
}

/// After its confirmation has been taken out, a slot is free, and the next `push`
/// into the table succeeds.
pub proof fn lemma_taken_slot_is_reusable(
    v0: Seq<Option<CmdSlot>>,
    t: usize,
    v1: Seq<Option<CmdSlot>>,
    reqid: u16,
    r: Option<usize>,
    v2: Seq<Option<CmdSlot>>,
)
    requires
        t < v0.len(),
        take_post(v0, t, v1),
        push_post(v1, reqid, r, v2),
    ensures
        v1[t as int] is None,
        r is Some,
        r matches Some(u) ==> u <= t,
{
    assert(v1[t as int] is None);
    if r is None {
        assert(v1[t as int] is Some);
    }
    if let Some(u) = r {
        if u > t {
            assert(v1[t as int] is Some);
        }
    }
}

/// A slot that holds a confirmation is not touched by any later confirmation:
/// each pushed request is completed at most once.
pub proof fn lemma_done_slot_is_final(
    v1: Seq<Option<CmdSlot>>,
    t: int,
    msg_id: u16,
    param: Seq<u8>,
    r: bool,
    v2: Seq<Option<CmdSlot>>,
)
    requires
        0 <= t < v1.len(),
        v1[t] is Some,
        v1[t]->0.done,
        cfm_post(v1, msg_id, param, r, v2),
    ensures
        v2[t] == v1[t],
{
    if r {
        let u = choose|u: int|
            0 <= u < v1.len() && awaits(v1, u, msg_id) && (forall|i: int|
                0 <= i < u ==> !awaits(v1, i, msg_id)) && v2 == v1.update(
                u,
                Some(CmdSlot { reqid: msg_id, done: true, cfm: kept_cfm(param) }),
            );
        assert(u != t);
    }
}

/// A push into a table whose slots are all taken fails and changes nothing.
pub proof fn lemma_push_full_fails(
    v: Seq<Option<CmdSlot>>,
    reqid: u16,
    r: Option<usize>,
    v2: Seq<Option<CmdSlot>>,
)
    requires
        forall|i: int| 0 <= i < v.len() ==> v[i] is Some,
        push_post(v, reqid, r, v2),
    ensures
        r is None,
        v2 == v,
{
}

/// A confirmation that no slot awaits is dropped: the table is unchanged.
pub proof fn lemma_unmatched_cfm_dropped(
    v: Seq<Option<CmdSlot>>,
    msg_id: u16,
    param: Seq<u8>,
    r: bool,
    v2: Seq<Option<CmdSlot>>,
)
    requires
        forall|i: int| 0 <= i < v.len() ==> !awaits(v, i, msg_id),
        cfm_post(v, msg_id, param, r, v2),
    ensures
        !r,
        v2 == v,
{
}

impl View for RwnxCmdMgr {
    type V = Seq<Option<CmdSlot>>;

    closed spec fn view(&self) -> Seq<Option<CmdSlot>> {
        self.slots@.map_values(
            |o: Option<PendingCmd>|
                match o {
                    Some(p) => Some(CmdSlot { reqid: p.reqid, done: p.done, cfm: p.cfm_data@ }),
                    None => None,
                },
        )
    }
}


/// What a waiter for a confirmation does after looking at its condition.
#[derive(Clone, Copy, Debug, PartialEq, Eq, Structural)]
pub enum WaitStep {
    /// The condition holds: the wait succeeds.
    Done,
    /// Wait one more millisecond; `tick` says whether the progress callback is due now.
    Continue { tick: bool },
    /// The timeout has run out.
    TimedOut,
}

/// Polling period of a confirmation wait, in milliseconds.
pub const WAIT_POLL_INTERVAL_MS: u32 = 1;

impl RwnxCmdMgr {
    /// The table has its fixed number of slots.
    pub open spec fn wf(&self) -> bool {
        self@.len() == CMD_MGR_MAX_PENDING
    }

    /// An empty table.
    pub fn new() -> (r: RwnxCmdMgr)
        ensures
            r.wf(),
            forall|i: int| 0 <= i < r@.len() ==> r@[i] is None,
    {
        let mut slots: Vec<Option<PendingCmd>> = Vec::new();
        let mut i: usize = 0;
        while i < CMD_MGR_MAX_PENDING
            invariant
                i <= CMD_MGR_MAX_PENDING,
                slots@.len() == i,
                forall|k: int| 0 <= k < i ==> slots@[k] is None,
            decreases CMD_MGR_MAX_PENDING - i,
        {
            slots.push(None);
            i = i + 1;
        }
        RwnxCmdMgr { slots }
    }

    /// Registers a command awaiting `reqid` in the first free slot and returns that
    /// slot's index; `None`, with the table unchanged, when every slot is taken.
    pub fn push(&mut self, reqid: u16) -> (r: Option<usize>)
        requires
            old(self).wf(),
        ensures
            final(self).wf(),
            push_post(old(self)@, reqid, r, final(self)@),
    {
        let mut i: usize = 0;
        while i < self.slots.len()
            invariant
                self.slots@.len() == CMD_MGR_MAX_PENDING,
                self == old(self),
                i <= self.slots@.len(),
                forall|k: int| 0 <= k < i ==> self@[k] is Some,
            decreases self.slots@.len() - i,
        {
            if self.slots[i].is_none() {
                self.slots.set(i, Some(PendingCmd { reqid, done: false, cfm_data: Vec::new() }));
                assert(self@ =~= old(self)@.update(i as int, slot_of(reqid)));
                return Some(i);
            }
            i = i + 1;
        }
        None
    }

    /// Delivers a confirmation: the first slot awaiting `msg_id` takes up to
    /// `RWNX_CMD_E2AMSG_LEN_MAX` bytes of `param` and is marked done. Returns whether
    /// a slot took it, which is when waiters are to be woken; otherwise the
    /// confirmation is dropped and the table is unchanged.
    pub fn on_cfm(&mut self, msg_id: u16, param: &[u8]) -> (r: bool)
        requires
            old(self).wf(),
        ensures
            final(self).wf(),
            cfm_post(old(self)@, msg_id, param@, r, final(self)@),
    {
        let mut i: usize = 0;
        while i < self.slots.len()
            invariant
                self.slots@.len() == CMD_MGR_MAX_PENDING,
                self == old(self),
                i <= self.slots@.len(),
                forall|k: int| 0 <= k < i ==> !awaits(self@, k, msg_id),
            decreases self.slots@.len() - i,
        {
            let hit = match &self.slots[i] {
                Some(s) => s.reqid == msg_id && !s.done,
                None => false,
            };
            if hit {
                let len = if param.len() < RWNX_CMD_E2AMSG_LEN_MAX {
                    param.len()
                } else {
                    RWNX_CMD_E2AMSG_LEN_MAX
                };
                let mut data = zeroed(len);
                copy_bytes(&mut data, 0, param, 0, len);
                assert(data@ =~= kept_cfm(param@));
                self.slots.set(i, Some(PendingCmd { reqid: msg_id, done: true, cfm_data: data }));
                assert(awaits(old(self)@, i as int, msg_id));
                assert(self@ =~= old(self)@.update(
                    i as int,
                    Some(CmdSlot { reqid: msg_id, done: true, cfm: kept_cfm(param@) }),
                ));
                return true;
            }
            i = i + 1;
        }
        false
    }

    /// One round of a wait for a confirmation, with `waited_ms` the time waited so far
    /// (advanced in place) and `condition` what the caller's condition gave after this
    /// round's poll: done when it holds; timed out once `timeout_ms` has passed;
    /// otherwise one more millisecond, with the progress callback due every
    /// `log_every_ms` milliseconds.
    pub fn wait_done_until(timeout_ms: u32, waited_ms: &mut u32, condition: bool, log_every_ms: u32) -> (r: WaitStep)
        requires
            log_every_ms > 0,
        ensures
            *old(waited_ms) >= timeout_ms ==> r == WaitStep::TimedOut && *final(waited_ms) == *old(waited_ms),
            *old(waited_ms) < timeout_ms && condition ==> r == WaitStep::Done && *final(waited_ms) == *old(waited_ms),
            *old(waited_ms) < timeout_ms && !condition ==> *final(waited_ms) == *old(waited_ms) + 1
                && r == (WaitStep::Continue {
                tick: *old(waited_ms) > 0 && *old(waited_ms) % log_every_ms == 0,
            }),
    {
        if *waited_ms >= timeout_ms {
            return WaitStep::TimedOut;
        }
        if condition {
            return WaitStep::Done;
        }
        let tick = *waited_ms > 0 && *waited_ms % log_every_ms == 0;
        *waited_ms = *waited_ms + WAIT_POLL_INTERVAL_MS;
        WaitStep::Continue { tick }
    }

    /// Whether the slot `token` holds a confirmed command.
    pub fn is_done(&self, token: usize) -> (r: bool)
        requires
            self.wf(),
        ensures
            r == (token < CMD_MGR_MAX_PENDING && self@[token as int] is Some
                && self@[token as int]->0.done),
    {
        if token >= CMD_MGR_MAX_PENDING {
            return false;
        }
        match &self.slots[token] {
            Some(s) => s.done,
            None => false,
        }
    }

    /// Frees the slot `token`. When it held a confirmed command, copies as much of the
    /// confirmation as `out` has room for to the front of `out` and returns that length;
    /// otherwise returns `None` and leaves `out` alone.
    pub fn take_cfm(&mut self, token: usize, out: &mut Vec<u8>) -> (r: Option<usize>)
        requires
            old(self).wf(),
        ensures
            final(self).wf(),
            take_post(old(self)@, token, final(self)@),
            r is Some <==> (token < CMD_MGR_MAX_PENDING && old(self)@[token as int] is Some
                && old(self)@[token as int]->0.done),
            r is None ==> final(out)@ == old(out)@,
            r matches Some(n) ==> {
                let cfm = old(self)@[token as int]->0.cfm;
                &&& n as int == if cfm.len() <= old(out)@.len() {
                    cfm.len() as int
                } else {
                    old(out)@.len() as int
                }
                &&& final(out)@ == old(out)@.subrange(0, 0) + cfm.subrange(0, n as int) + old(
                    out,
                )@.subrange(n as int, old(out)@.len() as int)
            },
    {
        if token >= CMD_MGR_MAX_PENDING {
            return None;
        }
        let r = match &self.slots[token] {
            None => None,
            Some(s) => {
                if !s.done {
                    None
                } else {
                    let len = if s.cfm_data.len() < out.len() {
                        s.cfm_data.len()
                    } else {
                        out.len()
                    };
                    copy_bytes(out, 0, s.cfm_data.as_slice(), 0, len);
                    Some(len)
                }
            },
        };
        self.slots.set(token, None);
        assert(self@ =~= old(self)@.update(token as int, None));
        r
    }
}

} // verus!
