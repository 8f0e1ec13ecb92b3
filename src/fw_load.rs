//! Firmware loading over the DBG task: memory read/write messages, block upload,
//! the 8801 configuration tables and application start.
use vstd::prelude::*;

use crate::bytes::{copy_bytes, from_le32, get_u32_le, le32, put_u32_le};
use crate::cmd::{
    kept_cfm, push_post, take_post, CmdSlot, LmacMsg, LmacMsgHeader, RwnxCmdMgr, DRV_TASK_ID,
    LMAC_MSG_MAX_LEN,
};
use crate::error::DrvError;

verus! {

pub const DBG_MEM_READ_REQ: u16 = 1024;
pub const DBG_MEM_READ_CFM: u16 = 1025;
pub const DBG_MEM_WRITE_REQ: u16 = 1026;
pub const DBG_MEM_WRITE_CFM: u16 = 1027;
pub const DBG_MEM_BLOCK_WRITE_REQ: u16 = 1034;
pub const DBG_MEM_BLOCK_WRITE_CFM: u16 = 1035;
pub const DBG_START_APP_REQ: u16 = 1036;
pub const DBG_START_APP_CFM: u16 = 1037;
pub const DBG_MEM_MASK_WRITE_REQ: u16 = 1038;
pub const DBG_MEM_MASK_WRITE_CFM: u16 = 1039;

/// The firmware's debug task.
pub const TASK_DBG: u16 = 1;

/// Load address of the main firmware of the 8801.
pub const RAM_FMAC_FW_ADDR: u32 = 0x0012_0000;

/// Load address of the firmware patch of the 8801.
pub const RAM_FMAC_FW_PATCH_ADDR: u32 = 0x0019_0000;

/// Boot type: start automatically.
pub const HOST_START_APP_AUTO: u32 = 1;

/// Boot type: dummy.
pub const HOST_START_APP_DUMMY: u32 = 0;

/// Bytes of firmware per DBG_MEM_BLOCK_WRITE_REQ.
pub const FW_BLOCK_SIZE: usize = 1024;

/// Per-block upload timeout, in milliseconds.
pub const FW_BLOCK_TIMEOUT_MS: u32 = 500;

/// Timeout of the chip revision read, in milliseconds.
pub const CHIP_REV_TIMEOUT_MS: u32 = 2000;

/// Where the 8801 patch blob keeps the config base: its load address plus 0x180.
pub const RD_PATCH_ADDR_8801: u32 = 0x0019_0180;

/// First address of the 8801 patch table.
pub const PATCH_START_ADDR_8801: u32 = 0x1e6000;

/// Register receiving the patch table address.
pub const PATCH_ADDR_REG_8801: u32 = 0x1e5318;

/// Register receiving the patch entry count.
pub const PATCH_NUM_REG_8801: u32 = 0x1e531c;

/// `m` is a well-formed DBG-task request with id `id` from the driver task, whose
/// parameters are `p`.
pub open spec fn msg_is(m: LmacMsg, id: u16, p: Seq<u8>) -> bool {
    &&& m.wf()
    &&& m.header == (LmacMsgHeader {
        id,
        dest_id: TASK_DBG,
        src_id: DRV_TASK_ID,
        param_len: p.len() as u16,
    })
    &&& m.params() == p
}

/// DBG_MEM_READ_REQ for `mem_addr`.
pub fn build_dbg_mem_read_req(mem_addr: u32) -> (r: LmacMsg)
    ensures
        msg_is(r, DBG_MEM_READ_REQ, le32(mem_addr)),
{
    let mut msg = LmacMsg::new(DBG_MEM_READ_REQ, TASK_DBG, DRV_TASK_ID, 4);
    put_u32_le(&mut msg.param, 0, mem_addr);
    assert(msg.params() =~= le32(mem_addr));
    msg
}

/// DBG_MEM_WRITE_REQ writing `mem_data` at `mem_addr`.
pub fn build_dbg_mem_write_req(mem_addr: u32, mem_data: u32) -> (r: LmacMsg)
    ensures
        msg_is(r, DBG_MEM_WRITE_REQ, le32(mem_addr) + le32(mem_data)),
{
    let mut msg = LmacMsg::new(DBG_MEM_WRITE_REQ, TASK_DBG, DRV_TASK_ID, 8);
    put_u32_le(&mut msg.param, 0, mem_addr);
    put_u32_le(&mut msg.param, 4, mem_data);
    assert(msg.params() =~= le32(mem_addr) + le32(mem_data));
    msg
}

/// DBG_MEM_MASK_WRITE_REQ writing `mem_data` under `mem_mask` at `mem_addr`.
pub fn build_dbg_mem_mask_write_req(mem_addr: u32, mem_mask: u32, mem_data: u32) -> (r: LmacMsg)
    ensures
        msg_is(r, DBG_MEM_MASK_WRITE_REQ, le32(mem_addr) + le32(mem_mask) + le32(mem_data)),
{
    let mut msg = LmacMsg::new(DBG_MEM_MASK_WRITE_REQ, TASK_DBG, DRV_TASK_ID, 12);
    put_u32_le(&mut msg.param, 0, mem_addr);
    put_u32_le(&mut msg.param, 4, mem_mask);
    put_u32_le(&mut msg.param, 8, mem_data);
    assert(msg.params() =~= le32(mem_addr) + le32(mem_mask) + le32(mem_data));
    msg
}

/// DBG_MEM_BLOCK_WRITE_REQ: `(mem_addr, mem_size, mem_data)`. `None` when the
/// parameters would not fit in a message.
pub fn build_dbg_mem_block_write_req(mem_addr: u32, mem_size: u32, mem_data: &[u8]) -> (r: Option<LmacMsg>)
    ensures
        r is None <==> 8 + mem_data@.len() > LMAC_MSG_MAX_LEN,
        r matches Some(m) ==> msg_is(
            m,
            DBG_MEM_BLOCK_WRITE_REQ,
            le32(mem_addr) + le32(mem_size) + mem_data@,
        ),
{
    if mem_data.len() > LMAC_MSG_MAX_LEN - 8 {
        return None;
    }
    let param_len = 8 + mem_data.len();
    let mut msg = LmacMsg::new(DBG_MEM_BLOCK_WRITE_REQ, TASK_DBG, DRV_TASK_ID, param_len as u16);
    put_u32_le(&mut msg.param, 0, mem_addr);
    put_u32_le(&mut msg.param, 4, mem_size);
    copy_bytes(&mut msg.param, 8, mem_data, 0, mem_data.len());
    assert(msg.params() =~= le32(mem_addr) + le32(mem_size) + mem_data@);
    Some(msg)
}

/// DBG_START_APP_REQ: `(boot_addr, boot_type)`.
pub fn build_dbg_start_app_req(boot_addr: u32, boot_type: u32) -> (r: LmacMsg)
    ensures
        msg_is(r, DBG_START_APP_REQ, le32(boot_addr) + le32(boot_type)),
{
    let mut msg = LmacMsg::new(DBG_START_APP_REQ, TASK_DBG, DRV_TASK_ID, 8);
    put_u32_le(&mut msg.param, 0, boot_addr);
    put_u32_le(&mut msg.param, 4, boot_type);
    assert(msg.params() =~= le32(boot_addr) + le32(boot_type));
    msg
}

/// The memory word of a DBG_MEM_READ_CFM: `param[4..8]` little-endian; `None` when
/// the confirmation is shorter than 8 bytes.
pub fn parse_dbg_mem_read_cfm(param: &[u8]) -> (r: Option<u32>)
    ensures
        param@.len() < 8 ==> r is None,
        param@.len() >= 8 ==> r == Some(
            from_le32(param@[4], param@[5], param@[6], param@[7]) as u32,
        ),
{
    if param.len() < 8 {
        return None;
    }
    Some(get_u32_le(param, 4))
}

/// Registers a request awaiting the confirmation `cfm_id`: the slot token, or
/// out-of-memory when every slot is taken.
pub fn push_request(cmd_mgr: &mut RwnxCmdMgr, cfm_id: u16) -> (r: Result<usize, DrvError>)
    requires
        old(cmd_mgr).wf(),
    ensures
        final(cmd_mgr).wf(),
        push_post(old(cmd_mgr)@, cfm_id, match r {
            Ok(t) => Some(t),
            Err(_) => None,
        }, final(cmd_mgr)@),
        r matches Err(e) ==> e == DrvError::NoMem,
{
    match cmd_mgr.push(cfm_id) {
        Some(t) => Ok(t),
        None => Err(DrvError::NoMem),
    }
}

/// Takes the confirmation of a DBG_MEM_READ_REQ out of slot `token` and returns the
/// memory word. The slot is freed. I/O error when the slot holds no confirmation or
/// the confirmation is too short.
pub fn finish_dbg_mem_read(cmd_mgr: &mut RwnxCmdMgr, token: usize) -> (r: Result<u32, DrvError>)
    requires
        old(cmd_mgr).wf(),
    ensures
        final(cmd_mgr).wf(),
        take_post(old(cmd_mgr)@, token, final(cmd_mgr)@),
        ({
            let v = old(cmd_mgr)@;
            if token < v.len() && v[token as int] is Some && v[token as int]->0.done
                && v[token as int]->0.cfm.len() >= 8 {
                let c = v[token as int]->0.cfm;
                r == Ok::<u32, DrvError>(from_le32(c[4], c[5], c[6], c[7]) as u32)
            } else {
                r == Err::<u32, DrvError>(DrvError::Io)
            }
        }),
{
    let mut out: Vec<u8> = crate::bytes::zeroed(16);
    match cmd_mgr.take_cfm(token, &mut out) {
        None => Err(DrvError::Io),
        Some(len) => {
            if len < 8 {
                return Err(DrvError::Io);
            }
            Ok(get_u32_le(out.as_slice(), 4))
        },
    }
}

/// Takes the confirmation out of slot `token` and frees the slot: `Ok` when it held
/// a confirmation, I/O error otherwise.
pub fn finish_request(cmd_mgr: &mut RwnxCmdMgr, token: usize) -> (r: Result<(), DrvError>)
    requires
        old(cmd_mgr).wf(),
    ensures
        final(cmd_mgr).wf(),
        take_post(old(cmd_mgr)@, token, final(cmd_mgr)@),
        r is Ok <==> (token < old(cmd_mgr)@.len() && old(cmd_mgr)@[token as int] is Some && old(
            cmd_mgr,
        )@[token as int]->0.done),
        r matches Err(e) ==> e == DrvError::Io,
{
    let mut out: Vec<u8> = Vec::new();
    match cmd_mgr.take_cfm(token, &mut out) {
        None => Err(DrvError::Io),
        Some(_) => Ok(()),
    }
}

/// One block of a firmware upload: target address, offset in the blob, length.
#[derive(Clone, Copy, Debug, PartialEq, Eq, Structural)]
pub struct FwBlock {
    pub addr: u32,
    pub offset: usize,
    pub len: usize,
}

/// The `i`-th block of an upload of `total` bytes to `base`.
pub open spec fn fw_block_spec(base: u32, total: int, i: int) -> FwBlock {
    let off = i * 1024;
    FwBlock {
        addr: (base + off) as u32,
        offset: off as usize,
        len: (if total - off < 1024 {
            total - off
        } else {
            1024
        }) as usize,
    }
}

/// The number of blocks an upload of `total` bytes takes.
pub open spec fn fw_block_count(total: int) -> int {
    (total + 1023) / 1024
}

/// How a blob of `total` bytes is uploaded to `base`: consecutive blocks of 1024
/// bytes (the last one shorter), each written at `base` plus its offset.
pub fn fw_upload_plan(base: u32, total: usize) -> (r: Vec<FwBlock>)
    requires
        base + total <= u32::MAX,
    ensures
        r@.len() == fw_block_count(total as int),
        forall|i: int| 0 <= i < r@.len() ==> r@[i] == fw_block_spec(base, total as int, i),
{
    let mut r: Vec<FwBlock> = Vec::new();
    let mut off: usize = 0;
    while off < total
        invariant
            base + total <= u32::MAX,
            off <= total,
            off < total ==> off == r@.len() * 1024,
            off == total ==> r@.len() == fw_block_count(total as int),
            forall|i: int| 0 <= i < r@.len() ==> r@[i] == fw_block_spec(base, total as int, i),
        decreases total - off,
    {
        let len = if total - off < FW_BLOCK_SIZE {
            total - off
        } else {
            FW_BLOCK_SIZE
        };
        let ghost i = r@.len() as int;
        r.push(FwBlock { addr: base + off as u32, offset: off, len });
        assert(r@[i] == fw_block_spec(base, total as int, i));
        off = off + len;
        proof {
            if off == total {
                let n = i + 1;
                assert(i * 1024 < total <= n * 1024);
                assert((total + 1023) / 1024 == n) by (nonlinear_arith)
                    requires
                        i * 1024 < total <= (i + 1) * 1024,
                        n == i + 1,
                ;
            }
        }
    }
    r
}

/// The upload message for one block of `data`.
pub fn fw_block_msg(data: &[u8], b: FwBlock) -> (r: Option<LmacMsg>)
    requires
        b.offset + b.len <= data@.len(),
        b.len <= FW_BLOCK_SIZE,
    ensures
        r matches Some(m) && msg_is(
            m,
            DBG_MEM_BLOCK_WRITE_REQ,
            le32(b.addr) + le32(b.len as u32) + data@.subrange(b.offset as int, b.offset + b.len),
        ),
{
    let chunk = crate::bus::slice_of(data, b.offset, b.len);
    build_dbg_mem_block_write_req(b.addr, b.len as u32, chunk.as_slice())
}

/// The 8801 system-config table: `(address, value)` pairs written with
/// DBG_MEM_WRITE_REQ before the firmware upload, in this order.
pub open spec fn syscfg_tbl_8801() -> Seq<(u32, u32)> {
    seq![
        (0x4050_0014u32, 0x0000_0101u32),
        (0x4050_0018u32, 0x0000_0109u32),
        (0x4050_0004u32, 0x0000_0010u32),
        (0x4004_0000u32, 0x0000_1AC8u32),
        (0x4004_0084u32, 0x0001_1580u32),
        (0x4004_0080u32, 0x0000_0001u32),
        (0x4010_0058u32, 0x0000_0000u32),
        (0x5000_0000u32, 0x0322_0204u32),
        (0x5001_9150u32, 0x0000_0002u32),
        (0x5001_7008u32, 0x0000_0000u32),
    ]
}

/// The 8801 system-config writes, in order.
pub fn aicbsp_syscfg_tbl_8801() -> (r: Vec<(u32, u32)>)
    ensures
        r@ == syscfg_tbl_8801(),
{
    let r: Vec<(u32, u32)> = vec![
        (0x4050_0014u32, 0x0000_0101u32),
        (0x4050_0018u32, 0x0000_0109u32),
        (0x4050_0004u32, 0x0000_0010u32),
        (0x4004_0000u32, 0x0000_1AC8u32),
        (0x4004_0084u32, 0x0001_1580u32),
        (0x4004_0080u32, 0x0000_0001u32),
        (0x4010_0058u32, 0x0000_0000u32),
        (0x5000_0000u32, 0x0322_0204u32),
        (0x5001_9150u32, 0x0000_0002u32),
        (0x5001_7008u32, 0x0000_0000u32),
    ];
    assert(r@ =~= syscfg_tbl_8801());
    r
}

/// The 8801 system-config messages, one DBG_MEM_WRITE_REQ per table entry, in order.
pub fn aicbsp_system_config_8801() -> (r: Vec<LmacMsg>)
    ensures
        r@.len() == syscfg_tbl_8801().len(),
        forall|i: int|
            0 <= i < r@.len() ==> msg_is(
                #[trigger] r@[i],
                DBG_MEM_WRITE_REQ,
                le32(syscfg_tbl_8801()[i].0) + le32(syscfg_tbl_8801()[i].1),
            ),
{
    let tbl = aicbsp_syscfg_tbl_8801();
    let mut r: Vec<LmacMsg> = Vec::new();
    let mut i: usize = 0;
    while i < tbl.len()
        invariant
            tbl@ == syscfg_tbl_8801(),
            i <= tbl@.len(),
            r@.len() == i,
            forall|k: int|
                0 <= k < i ==> msg_is(
                    #[trigger] r@[k],
                    DBG_MEM_WRITE_REQ,
                    le32(syscfg_tbl_8801()[k].0) + le32(syscfg_tbl_8801()[k].1),
                ),
        decreases tbl@.len() - i,
    {
        let (a, d) = tbl[i];
        r.push(build_dbg_mem_write_req(a, d));
        i = i + 1;
    }
    r
}

/// The 8801 patch table: `(offset, value)` pairs.
pub open spec fn patch_tbl_8801() -> Seq<(u32, u32)> {
    seq![(0x0104u32, 0x0000_0000u32), (0x004cu32, 0x0000_004Bu32), (0x0050u32, 0x0011_FC00u32)]
}

/// The memory writes that program the 8801 patch table, given the config base read
/// from the patch blob: the table address, the entry count (two words per entry),
/// then for entry `k` the pair `(start + 8k, offset + base)` and `(start + 8k + 4, value)`.
pub open spec fn patch_writes_spec(config_base: u32) -> Seq<(u32, u32)> {
    let t = patch_tbl_8801();
    seq![
        (PATCH_ADDR_REG_8801, PATCH_START_ADDR_8801),
        (PATCH_NUM_REG_8801, 6u32),
        (PATCH_START_ADDR_8801, (t[0].0 + config_base) as u32),
        ((PATCH_START_ADDR_8801 + 4) as u32, t[0].1),
        ((PATCH_START_ADDR_8801 + 8) as u32, (t[1].0 + config_base) as u32),
        ((PATCH_START_ADDR_8801 + 12) as u32, t[1].1),
        ((PATCH_START_ADDR_8801 + 16) as u32, (t[2].0 + config_base) as u32),
        ((PATCH_START_ADDR_8801 + 20) as u32, t[2].1),
    ]
}

/// The request that reads the 8801 config base: a DBG_MEM_READ_REQ of the patch
/// blob's load address plus 0x180.
pub fn patch_config_base_req() -> (r: LmacMsg)
    ensures
        msg_is(r, DBG_MEM_READ_REQ, le32((RAM_FMAC_FW_PATCH_ADDR + 0x180) as u32)),
{
    build_dbg_mem_read_req(RD_PATCH_ADDR_8801)
}

/// The 8801 patch-table writes for the given config base, in order.
pub fn aicwifi_patch_config_8801(config_base: u32) -> (r: Vec<(u32, u32)>)
    requires
        config_base <= u32::MAX - 0x104,
    ensures
        r@ == patch_writes_spec(config_base),
{
    let tbl: Vec<(u32, u32)> = vec![(0x0104u32, 0x0000_0000u32), (0x004cu32, 0x0000_004Bu32), (0x0050u32, 0x0011_FC00u32)];
    assert(tbl@ =~= patch_tbl_8801());
    let mut r: Vec<(u32, u32)> = Vec::new();
    r.push((PATCH_ADDR_REG_8801, PATCH_START_ADDR_8801));
    r.push((PATCH_NUM_REG_8801, (tbl.len() * 2) as u32));
    let mut cnt: usize = 0;
    while cnt < tbl.len()
        invariant
            tbl@ == patch_tbl_8801(),
            config_base <= u32::MAX - 0x104,
            cnt <= 3,
            r@.len() == 2 + 2 * cnt,
            forall|k: int| 0 <= k < r@.len() ==> r@[k] == patch_writes_spec(config_base)[k],
        decreases 3 - cnt,
    {
        let (off, val) = tbl[cnt];
        let addr: u32 = PATCH_START_ADDR_8801 + (cnt as u32) * 8;
        r.push((addr, off + config_base));
        r.push((addr + 4, val));
        cnt = cnt + 1;
    }
    assert(r@ =~= patch_writes_spec(config_base));
    r
}

/// The 8801 masked config writes applied after the patch table: `(addr, mask, value)`,
/// the system table first, then the RF table.
pub open spec fn masked_tbl_8801() -> Seq<(u32, u32, u32)> {
    seq![(0x4050_6024u32, 0x0000_00FFu32, 0x0000_00DFu32), (0x4034_4058u32, 0x0080_0000u32, 0x0000_0000u32)]
}

/// The 8801 masked config messages, one DBG_MEM_MASK_WRITE_REQ per entry, in order.
pub fn aicwifi_sys_config_8801() -> (r: Vec<LmacMsg>)
    ensures
        r@.len() == 2,
        forall|i: int|
            0 <= i < 2 ==> msg_is(
                #[trigger] r@[i],
                DBG_MEM_MASK_WRITE_REQ,
                le32(masked_tbl_8801()[i].0) + le32(masked_tbl_8801()[i].1) + le32(
                    masked_tbl_8801()[i].2,
                ),
            ),
{
    let mut r: Vec<LmacMsg> = Vec::new();
    r.push(build_dbg_mem_mask_write_req(0x4050_6024, 0x0000_00FF, 0x0000_00DF));
    r.push(build_dbg_mem_mask_write_req(0x4034_4058, 0x0080_0000, 0x0000_0000));
    r
}

} // verus!
