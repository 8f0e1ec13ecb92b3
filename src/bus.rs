//! The SDIO bus stack: TX padding, flow control, RX length and RX frame parsing.
use vstd::prelude::*;

use crate::bytes::{fill_bytes, from_le16, get_u16_le};
use crate::cmd::{apply_cfm, lemma_cfm_post_is_apply, CmdSlot, RwnxCmdMgr};

verus! {

/// Alignment of a TX message.
pub const TX_ALIGNMENT: usize = 4;

/// SDIO block size of function 1.
pub const SDIOWIFI_FUNC_BLOCKSIZE: usize = 512;

/// Zero tail appended to a TX message that is not block-aligned.
pub const TAIL_LEN: usize = 4;

/// Size of one receive buffer slot of the device.
pub const BUFFER_SIZE: usize = 1536;

/// Size of the TX staging buffer.
pub const PENDING_CMD_TX_CAP: usize = 1536;

/// Hardware header length of an RX data frame.
pub const RX_HWHRD_LEN_DATA: usize = 60;

/// Alignment of RX data frames.
pub const RX_ALIGNMENT: usize = 4;

/// Type bit of configuration frames.
pub const SDIO_TYPE_CFG: u8 = 0x10;

/// Type of a command-response frame.
pub const SDIO_TYPE_CFG_CMD_RSP: u8 = 0x11;

/// Largest parameter block of a received confirmation.
pub const RX_CFM_PARAM_MAX: usize = 256;

/// Reads of FLOW_CTRL before the send gives up on an empty buffer count.
pub const FLOW_CTRL_RETRY_COUNT: u32 = 50;

/// Rounds of the outer flow-control loop before the send gives up.
pub const FLOW_CTRL_OUTER_RETRIES: u32 = 10;

/// Mask of the buffer count in FLOW_CTRL.
pub const FLOWCTRL_MASK: u8 = 0x7F;

/// INTR_CONFIG value that enables the 8801's card interrupts.
pub const F1_INTR_CONFIG_ENABLE: u8 = 0x07;

/// Block-count value from which the byte-mode length register is used.
pub const BYTEMODE_THRESH: u8 = 64;

/// `n` rounded up to a multiple of 4.
pub open spec fn round_up4(n: int) -> int {
    (n + 3) / 4 * 4
}

/// Pads an 8801 message of `payload_len` bytes in place and returns the length to
/// send: aligned to 4 bytes and, when not block-aligned, grown by the 4-byte tail and
/// rounded up to a 512-byte block (`ipc_len_8801`). The bytes from `payload_len` up to that length (as far as `buf` reaches) are
/// zeroed; the payload and any byte beyond are left alone.
pub fn aicwf_sdio_tx_msg_pad(buf: &mut Vec<u8>, payload_len: usize) -> (r: usize)
    requires
        payload_len <= old(buf)@.len(),
        payload_len + 1024 <= usize::MAX,
    ensures
        r == ipc_len_8801(payload_len as int),
        final(buf)@.len() == old(buf)@.len(),
        forall|i: int|
            0 <= i < final(buf)@.len() ==> final(buf)@[i] == if payload_len <= i < r {
                0u8
            } else {
                old(buf)@[i]
            },
{
    let mut len = payload_len;
    if len % TX_ALIGNMENT != 0 {
        len = (len + TX_ALIGNMENT - 1) / TX_ALIGNMENT * TX_ALIGNMENT;
    }
    let send_len = if len % SDIOWIFI_FUNC_BLOCKSIZE != 0 {
        (len + TAIL_LEN + SDIOWIFI_FUNC_BLOCKSIZE - 1) / SDIOWIFI_FUNC_BLOCKSIZE
            * SDIOWIFI_FUNC_BLOCKSIZE
    } else {
        len
    };
    assert(len == round_up4(payload_len as int));
    let end = if send_len < buf.len() {
        send_len
    } else {
        buf.len()
    };
    if end > payload_len {
        fill_bytes(buf, payload_len, end - payload_len, 0);
    }
    send_len
}

/// The 8801 send length of a serialized message of `n` bytes: 4-byte aligned and,
/// when not block-aligned, grown by the 4-byte tail and rounded up to a block.
pub open spec fn ipc_len_8801(n: int) -> int {
    let a = round_up4(n);
    if a % 512 == 0 {
        a
    } else {
        (a + 4 + 511) / 512 * 512
    }
}

/// The length an 8801 IPC message of `serialized_len` bytes is sent with.
pub fn ipc_send_len_8801(serialized_len: usize) -> (r: usize)
    requires
        serialized_len + 1024 <= usize::MAX,
    ensures
        r == ipc_len_8801(serialized_len as int),
{
    let len4 = (serialized_len + TX_ALIGNMENT - 1) / TX_ALIGNMENT * TX_ALIGNMENT;
    if len4 % SDIOWIFI_FUNC_BLOCKSIZE == 0 {
        len4
    } else {
        (len4 + TAIL_LEN + SDIOWIFI_FUNC_BLOCKSIZE - 1) / SDIOWIFI_FUNC_BLOCKSIZE
            * SDIOWIFI_FUNC_BLOCKSIZE
    }
}

/// Whether the byte-mode length register must be read after BLOCK_CNT.
pub fn rx_needs_bytemode_len(block_cnt: u8) -> (r: bool)
    ensures
        r == (block_cnt >= BYTEMODE_THRESH),
{
    block_cnt >= BYTEMODE_THRESH
}

/// The number of bytes to drain from the RX FIFO: none when BLOCK_CNT is 0, four
/// times BYTEMODE_LEN when BLOCK_CNT is 64 or more, else BLOCK_CNT whole blocks.
pub fn rx_data_len(block_cnt: u8, byte_len: u8) -> (r: usize)
    ensures
        r == if block_cnt == 0 {
            0
        } else if block_cnt >= 64 {
            byte_len * 4
        } else {
            block_cnt * 512
        },
{
    if block_cnt == 0 {
        0
    } else if block_cnt >= BYTEMODE_THRESH {
        byte_len as usize * 4
    } else {
        block_cnt as usize * SDIOWIFI_FUNC_BLOCKSIZE
    }
}

/// Where an 8801 send stands in its flow-control wait.
#[derive(Clone, Copy, Debug, PartialEq, Eq, Structural)]
pub struct FlowCtrlState {
    /// Rounds of the outer loop done so far.
    pub outer: u32,
    /// Reads of FLOW_CTRL in this round that found no buffer.
    pub zero_reads: u32,
}

/// What to do after a read of FLOW_CTRL.
#[derive(Clone, Copy, Debug, PartialEq, Eq, Structural)]
pub enum FlowAction {
    /// The device has room: write the message to WR_FIFO.
    Send,
    /// Wait this many microseconds, then read FLOW_CTRL again.
    Poll(u32),
    /// Give up with a timeout, without writing WR_FIFO.
    GiveUp,
}

/// The wait before the next read after the `i`-th read found no buffer:
/// 200 us for the first 30, 1 ms for the next 10, 10 ms after that.
pub open spec fn flow_backoff_us(i: int) -> u32 {
    if i < 30 {
        200
    } else if i < 40 {
        1000
    } else {
        10000
    }
}

/// The state in which a send starts its flow-control wait.
pub fn flow_ctrl_start() -> (r: FlowCtrlState)
    ensures
        r == (FlowCtrlState { outer: 0, zero_reads: 0 }),
{
    FlowCtrlState { outer: 0, zero_reads: 0 }
}

/// The decision after a read of FLOW_CTRL returned `fc`, for a message of `count`
/// bytes. A buffer count (low 7 bits) of zero is read again with back-off, up to 50
/// reads, then the send times out. A non-zero count that cannot hold the message
/// (count × 1536 ≤ message) starts another round, up to 10 rounds.
pub fn flow_ctrl_step(st: &mut FlowCtrlState, fc: u8, count: usize) -> (a: FlowAction)
    requires
        old(st).zero_reads < FLOW_CTRL_RETRY_COUNT,
        old(st).outer < FLOW_CTRL_OUTER_RETRIES,
    ensures
        final(st).zero_reads < FLOW_CTRL_RETRY_COUNT,
        final(st).outer < FLOW_CTRL_OUTER_RETRIES,
        ({
            let cnt = (fc & FLOWCTRL_MASK) as int;
            if cnt == 0 {
                if old(st).zero_reads + 1 < FLOW_CTRL_RETRY_COUNT {
                    a == FlowAction::Poll(flow_backoff_us(old(st).zero_reads as int))
                        && final(st).zero_reads == old(st).zero_reads + 1 && final(st).outer == old(
                        st,
                    ).outer
                } else {
                    a == FlowAction::GiveUp
                }
            } else if count < cnt * 1536 {
                a == FlowAction::Send
            } else if old(st).outer + 1 < FLOW_CTRL_OUTER_RETRIES {
                a == FlowAction::Poll(0) && final(st).outer == old(st).outer + 1
                    && final(st).zero_reads == 0
            } else {
                a == FlowAction::GiveUp
            }
        }),
{
    let cnt = fc & FLOWCTRL_MASK;
    if cnt == 0 {
        if st.zero_reads + 1 < FLOW_CTRL_RETRY_COUNT {
            let d: u32 = if st.zero_reads < 30 {
                200
            } else if st.zero_reads < 40 {
                1000
            } else {
                10000
            };
            st.zero_reads = st.zero_reads + 1;
            FlowAction::Poll(d)
        } else {
            FlowAction::GiveUp
        }
    } else if count < cnt as usize * BUFFER_SIZE {
        FlowAction::Send
    } else if st.outer + 1 < FLOW_CTRL_OUTER_RETRIES {
        st.outer = st.outer + 1;
        st.zero_reads = 0;
        FlowAction::Poll(0)
    } else {
        FlowAction::GiveUp
    }
}

/// A frame found in an RX buffer.
#[derive(Clone, Copy, Debug, PartialEq, Eq, Structural)]
pub enum RxFrame {
    /// A confirmation or indication: message id, and where its parameters lie.
    Cfm { msg_id: u16, param_start: usize, param_len: usize },
    /// A data frame: where it starts and how long it is, headers included.
    Data { start: usize, len: usize },
}

/// The data frame at `o`, if one lies there whole: type bit 0x10 clear; length
/// `3 + pkt_len + 60`; the next frame starts `3 + round_up4(pkt_len + 60)` later.
pub open spec fn data_frame_at(b: Seq<u8>, n: int, o: int) -> Option<(RxFrame, int)> {
    if o + 3 <= n && b[o + 2] & SDIO_TYPE_CFG != SDIO_TYPE_CFG {
        let aggr = from_le16(b[o], b[o + 1]) + RX_HWHRD_LEN_DATA;
        let total = 3 + round_up4(aggr);
        if o + total <= n {
            Some((RxFrame::Data { start: o as usize, len: (3 + aggr) as usize }, total))
        } else {
            None
        }
    } else {
        None
    }
}

/// The command-response frame at `o`, if one lies there whole: a 16-byte header
/// (4-byte bus prefix, id, dest, src, param_len, pattern) whose type is 0x11,
/// then at most 256 bytes of parameters.
pub open spec fn cfm_frame_at(b: Seq<u8>, n: int, o: int) -> Option<(RxFrame, int)> {
    if o + 16 <= n && b[o + 2] & 0x7f == SDIO_TYPE_CFG_CMD_RSP {
        let plen = from_le16(b[o + 10], b[o + 11]);
        if plen <= 256 && o + 16 + plen <= n {
            Some(
                (
                    RxFrame::Cfm {
                        msg_id: from_le16(b[o + 4], b[o + 5]) as u16,
                        param_start: (o + 16) as usize,
                        param_len: plen as usize,
                    },
                    16 + plen,
                ),
            )
        } else {
            None
        }
    } else {
        None
    }
}

/// The frame at `o` and its length on the bus, if any.
pub open spec fn frame_at(b: Seq<u8>, n: int, o: int) -> Option<(RxFrame, int)> {
    if data_frame_at(b, n, o) is Some {
        data_frame_at(b, n, o)
    } else {
        cfm_frame_at(b, n, o)
    }
}

/// The frames of the first `n` bytes of `b` from offset `o` on, in order; parsing
/// stops at the first offset where no whole frame lies.
pub open spec fn frames_from(b: Seq<u8>, n: int, o: int) -> Seq<RxFrame>
    decreases n - o,
{
    if o < n {
        match frame_at(b, n, o) {
            Some((f, len)) => if len > 0 {
                seq![f] + frames_from(b, n, o + len)
            } else {
                Seq::empty()
            },
            None => Seq::empty(),
        }
    } else {
        Seq::empty()
    }
}

/// Every confirmation frame parsed from the first `n` bytes has its parameters
/// within those bytes.
pub proof fn lemma_cfm_frames_in_bounds(b: Seq<u8>, n: int, o: int)
    requires
        0 <= o,
    ensures
        forall|k: int|
            0 <= k < frames_from(b, n, o).len() ==> (#[trigger] frames_from(b, n, o)[k] matches RxFrame::Cfm {
                param_start,
                param_len,
                ..
            } ==> param_start + param_len <= n),
    decreases n - o,
{
    if o < n {
        if let Some((f, len)) = frame_at(b, n, o) {
            if len > 0 {
                lemma_cfm_frames_in_bounds(b, n, o + len);
                let rest = frames_from(b, n, o + len);
                assert(frames_from(b, n, o) == seq![f] + rest);
                assert forall|k: int| 0 <= k < frames_from(b, n, o).len() implies (
                #[trigger] frames_from(b, n, o)[k] matches RxFrame::Cfm {
                    param_start,
                    param_len,
                    ..
                } ==> param_start + param_len <= n) by {
                    if k > 0 {
                        assert(frames_from(b, n, o)[k] == rest[k - 1]);
                    }
                }
            }
        }
    }
}

/// The frame at `o` of the first `n` bytes of `buf`, with its length on the bus.
pub fn parse_frame_at(buf: &[u8], n: usize, o: usize) -> (r: Option<(RxFrame, usize)>)
    requires
        n <= buf@.len(),
        o <= n,
    ensures
        r matches Some((f, len)) ==> frame_at(buf@, n as int, o as int) == Some((f, len as int)),
        r is None ==> frame_at(buf@, n as int, o as int) is None,
{
    if n - o >= 3 && buf[o + 2] & SDIO_TYPE_CFG != SDIO_TYPE_CFG {
        let pkt_len = get_u16_le(buf, o) as usize;
        let aggr = pkt_len + RX_HWHRD_LEN_DATA;
        let adjust = (aggr + RX_ALIGNMENT - 1) / RX_ALIGNMENT * RX_ALIGNMENT;
        let total = 3 + adjust;
        if total <= n - o {
            return Some((RxFrame::Data { start: o, len: 3 + aggr }, total));
        }
    }
    if n - o >= 16 && buf[o + 2] & 0x7f == SDIO_TYPE_CFG_CMD_RSP {
        let plen = get_u16_le(buf, o + 10) as usize;
        if plen <= RX_CFM_PARAM_MAX && 16 + plen <= n - o {
            let msg_id = get_u16_le(buf, o + 4);
            return Some(
                (RxFrame::Cfm { msg_id, param_start: o + 16, param_len: plen }, 16 + plen),
            );
        }
    }
    None
}

/// All frames of the first `n` bytes of `buf`, in order.
pub fn parse_rx_frames(buf: &[u8], n: usize) -> (r: Vec<RxFrame>)
    requires
        n <= buf@.len(),
    ensures
        r@ == frames_from(buf@, n as int, 0),
{
    let mut r: Vec<RxFrame> = Vec::new();
    let mut o: usize = 0;
    while o < n
        invariant
            n <= buf@.len(),
            o <= n,
            r@ + frames_from(buf@, n as int, o as int) == frames_from(buf@, n as int, 0),
        decreases n - o,
    {
        match parse_frame_at(buf, n, o) {
            Some((f, len)) => {
                let ghost prev = r@;
                r.push(f);
                assert(frames_from(buf@, n as int, o as int) == seq![f] + frames_from(
                    buf@,
                    n as int,
                    o + len,
                ));
                assert(r@ + frames_from(buf@, n as int, o + len) =~= prev + frames_from(
                    buf@,
                    n as int,
                    o as int,
                ));
                o = o + len;
            },
            None => {
                assert(frames_from(buf@, n as int, o as int) == Seq::<RxFrame>::empty());
                assert(r@ =~= r@ + frames_from(buf@, n as int, o as int));
                return r;
            },
        }
    }
    assert(frames_from(buf@, n as int, o as int) == Seq::<RxFrame>::empty());
    assert(r@ =~= r@ + frames_from(buf@, n as int, o as int));
    r
}

/// The command table after the first `k` frames of `fr`, parsed from `b`, have been
/// delivered to it in order: each confirmation frame delivers its parameters, data
/// frames leave the table alone.
pub open spec fn cfm_fold(v: Seq<Option<CmdSlot>>, b: Seq<u8>, fr: Seq<RxFrame>, k: int) -> Seq<Option<CmdSlot>>
    decreases k,
{
    if k <= 0 {
        v
    } else {
        let prev = cfm_fold(v, b, fr, k - 1);
        match fr[k - 1] {
            RxFrame::Cfm { msg_id, param_start, param_len } => apply_cfm(
                prev,
                msg_id,
                b.subrange(param_start as int, param_start + param_len),
            ),
            RxFrame::Data { .. } => prev,
        }
    }
}

/// Parses the first `n` bytes of an RX buffer and hands every confirmation to the
/// command table, in order. Returns the frames, for the indication callbacks, and
/// whether any confirmation was taken by a slot (then waiters are to be woken).
pub fn dispatch_rx(buf: &[u8], n: usize, cmd_mgr: &mut RwnxCmdMgr) -> (r: (Vec<RxFrame>, bool))
    requires
        n <= buf@.len(),
        old(cmd_mgr).wf(),
    ensures
        r.0@ == frames_from(buf@, n as int, 0),
        final(cmd_mgr).wf(),
        final(cmd_mgr)@ == cfm_fold(old(cmd_mgr)@, buf@, r.0@, r.0@.len() as int),
        !r.1 ==> final(cmd_mgr)@ == old(cmd_mgr)@,
{
    let frames = parse_rx_frames(buf, n);
    proof {
        lemma_cfm_frames_in_bounds(buf@, n as int, 0);
    }
    let mut i: usize = 0;
    let mut woke = false;
    while i < frames.len()
        invariant
            cmd_mgr.wf(),
            n <= buf@.len(),
            i <= frames@.len(),
            frames@ == frames_from(buf@, n as int, 0),
            cmd_mgr@ == cfm_fold(old(cmd_mgr)@, buf@, frames@, i as int),
            !woke ==> cmd_mgr@ == old(cmd_mgr)@,
            forall|k: int|
                0 <= k < frames@.len() ==> (#[trigger] frames@[k] matches RxFrame::Cfm {
                    param_start,
                    param_len,
                    ..
                } ==> param_start + param_len <= n),
        decreases frames@.len() - i,
    {
        match frames[i] {
            RxFrame::Cfm { msg_id, param_start, param_len } => {
                let param = slice_of(buf, param_start, param_len);
                let ghost before = cmd_mgr@;
                let r = cmd_mgr.on_cfm(msg_id, param.as_slice());
                proof {
                    lemma_cfm_post_is_apply(before, msg_id, param@, r, cmd_mgr@);
                }
                woke = woke || r;
            },
            RxFrame::Data { .. } => {},
        }
        i = i + 1;
    }
    (frames, woke)
}

/// A copy of `len` bytes of `buf` from `start`.
pub fn slice_of(buf: &[u8], start: usize, len: usize) -> (r: Vec<u8>)
    requires
        start + len <= buf@.len(),
    ensures
        r@ == buf@.subrange(start as int, start + len),
{
    let mut r: Vec<u8> = Vec::with_capacity(len);
    let mut i: usize = 0;
    while i < len
        invariant
            i <= len,
            start + len <= buf.len(),
            r@ == buf@.subrange(start as int, start + i),
        decreases len - i,
    {
        r.push(buf[start + i]);
        i = i + 1;
        assert(r@ =~= buf@.subrange(start as int, start + i));
    }
    r
}

} // verus!
