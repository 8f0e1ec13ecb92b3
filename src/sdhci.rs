//! SDHCI host controller: command encodings, transfer plans and interrupt decisions.
//!
//! The register accesses themselves are made by the platform layer; this module
//! decides what is written, in which order, and what a status word means.
use vstd::prelude::*;

use crate::error::{errno_of, DrvError};

verus! {

/// Register offsets of the controller.
pub const SDMA_ADDRESS: u32 = 0x00;
pub const BLK_SIZE_AND_CNT: u32 = 0x04;
pub const ARGUMENT: u32 = 0x08;
pub const TRANSFER_MODE: u32 = 0x0C;
pub const COMMAND: u32 = 0x0E;
pub const RESP31_0: u32 = 0x10;
pub const BUF_DATA: u32 = 0x20;
pub const PRESENT_STS: u32 = 0x24;
pub const HOST_CTRL1: u32 = 0x28;
pub const CLK_CTL_SWRST: u32 = 0x2C;
pub const TIMEOUT_CONTROL: u32 = 0x2E;
pub const INT_STS: u32 = 0x30;
pub const INT_STS_EN: u32 = 0x34;
pub const INT_SIG_EN: u32 = 0x38;

/// Interrupt status bits.
pub const INT_RESPONSE: u32 = 0x0000_0001;
pub const INT_DATA_END: u32 = 0x0000_0002;
pub const INT_BLK_GAP: u32 = 0x0000_0004;
pub const INT_DMA_END: u32 = 0x0000_0008;
pub const INT_SPACE_AVAIL: u32 = 0x0000_0010;
pub const INT_DATA_AVAIL: u32 = 0x0000_0020;
pub const INT_CARD_INT: u32 = 0x0000_0100;
pub const INT_RETUNE: u32 = 0x0000_1000;
pub const INT_TIMEOUT: u32 = 0x0001_0000;
pub const INT_CRC: u32 = 0x0002_0000;
pub const INT_END_BIT: u32 = 0x0004_0000;
pub const INT_INDEX: u32 = 0x0008_0000;
pub const INT_DATA_TIMEOUT: u32 = 0x0010_0000;
pub const INT_DATA_CRC: u32 = 0x0020_0000;
pub const INT_DATA_END_BIT: u32 = 0x0040_0000;
pub const INT_BUS_POWER: u32 = 0x0080_0000;
pub const INT_AUTO_CMD_ERR: u32 = 0x0100_0000;
pub const INT_ADMA_ERROR: u32 = 0x0200_0000;

/// Command-completion bits: RESPONSE, TIMEOUT, CRC, END_BIT, INDEX, AUTO_CMD_ERR.
pub const INT_CMD_MASK: u32 = 0x010F_0001;

/// Data-completion bits: DATA_END, BLK_GAP, DMA_END, SPACE_AVAIL, DATA_AVAIL,
/// DATA_TIMEOUT, DATA_CRC, DATA_END_BIT, ADMA_ERROR.
pub const INT_DATA_MASK: u32 = 0x0270_003E;

/// R5 response error bits (ERROR, FUNCTION_NUMBER, OUT_OF_RANGE), in bits 16..23 of RESP31_0.
pub const R5_ERROR_MASK: u32 = 0x0B00;

/// Mask of the 17-bit SDIO register address.
pub const SDIO_IO_RW_EXTENDED_ADDR_MASK: u32 = 0x1_FFFF;

/// Most blocks one block-mode CMD53 moves.
pub const SDIO_IO_RW_EXTENDED_MAX_BLOCKS: u32 = 511;

/// Most bytes one byte-mode CMD53 moves.
pub const CMD53_MAX_BYTES: usize = 512;

/// SDMA buffer boundary argument (512 KiB) of the block-size register.
pub const SDMA_BOUNDARY_ARG: u32 = 7;

/// SDMA buffer boundary in bytes.
pub const SDMA_BOUNDARY_SIZE: u32 = 0x8_0000;

/// Block size used for block-mode transfers.
pub const SDIO_BLOCK_SIZE: u32 = 512;

/// Timeout of a command or DMA completion wait, in milliseconds.
pub const WAIT_CMD_DMA_IRQ_TIMEOUT_MS: u32 = 1000;

/// Timeout of a wait for the inhibit bits to clear, in milliseconds.
pub const WAIT_INHIBIT_TIMEOUT_MS: u32 = 100;

/// Most passes of the interrupt handler over the status register per interrupt.
pub const MAX_IRQ_LOOPS: u32 = 16;

/// Transfer-mode/command word of a byte-mode CMD53 read.
pub const CMD53_READ_XFER_MODE: u32 = 0x353A_0012;

/// Transfer-mode/command word of a byte-mode CMD53 write.
pub const CMD53_WRITE_XFER_MODE: u32 = 0x353A_0002;

/// Transfer-mode/command word of a block-mode (SDMA) CMD53 read.
pub const CMD53_READ_MULTI_XFER_MODE: u32 = 0x353A_0033;

/// Transfer-mode/command word of a block-mode (SDMA) CMD53 write.
pub const CMD53_WRITE_MULTI_XFER_MODE: u32 = 0x353A_0023;

/// 8-bit registers: power control, block-gap control, wake-up control.
pub const POWER_CONTROL: u32 = 0x29;
pub const BLOCK_GAP_CONTROL: u32 = 0x2A;
pub const WAKE_UP_CONTROL: u32 = 0x2B;

/// Pointer to the vendor-specific register area.
pub const P_VENDOR_SPECIFIC_AREA: u32 = 0xE8;

/// Offsets in the vendor area of the PHY delay and PHY configuration registers.
pub const VENDOR_PHY_TX_RX_DLY_OFF: u32 = 0x40;
pub const VENDOR_PHY_CONFIG_OFF: u32 = 0x4C;

/// Software reset of the whole controller (CLK_CTL_SWRST bit 24).
pub const SW_RST_ALL: u32 = 1 << 24;

/// Software reset of the CMD line (bit 25) and of the DAT line (bit 26).
pub const SW_RST_CMD: u32 = 1 << 25;
pub const SW_RST_DAT: u32 = 1 << 26;

/// POWER_CONTROL value: bus power on at 3.3 V.
pub const POWER_ON_330: u8 = 0x0F;

/// Data timeout counter value (the broken-timeout quirk's fixed value).
pub const TIMEOUT_VALUE: u8 = 0x0E;

/// HOST_CTRL1 bits that force card detection (the SDIO slot has no detect pin).
pub const CARD_DET_BITS: u32 = 0xC0;

/// Vendor MSHC_CTRL bits set at setup: function enable, DS/HS, and the SD1 bit.
pub const MSHC_CTRL_BITS: u32 = 0x0001_0003;

/// PHY delay value for default and high speed.
pub const PHY_TX_RX_DLY: u32 = 0x0100_0100;

/// Default interrupt mask: RESPONSE, DATA_END, DMA_END, BUS_POWER, RETUNE, the command
/// error bits (TIMEOUT, CRC, END_BIT, INDEX) and the data error bits (DATA_TIMEOUT,
/// DATA_CRC, DATA_END_BIT).
pub const DEFAULT_IER: u32 = 0x00FF_100B;

/// The offset of the vendor register area, from the pointer register.
pub fn vendor_base(area: u32) -> (r: u32)
    ensures
        r == area & 0xFFF,
{
    area & 0xFFF
}

/// Transfer-mode/command word of CMD0 (no response).
pub const CMD0_XFER_MODE: u32 = 0x0000_0000;

/// Transfer-mode/command word of CMD5 (R4, no CRC or index check).
pub const CMD5_XFER_MODE: u32 = 0x0502_0000;

/// Transfer-mode/command word of CMD3 (R6).
pub const CMD3_XFER_MODE: u32 = 0x031A_0000;

/// Transfer-mode/command word of CMD7 (R1b).
pub const CMD7_XFER_MODE: u32 = 0x071B_0000;

/// Combined transfer-mode/command register (32-bit access).
pub const XFER_MODE_AND_CMD: u32 = 0x0C;

/// Present-state bits: command and data inhibit.
pub const PRESENT_CMD_INHIBIT: u32 = 0x1;
pub const PRESENT_DAT_INHIBIT: u32 = 0x2;

/// Interrupt status bit: PIO buffer ready to read.
pub const INT_BUF_RRDY: u32 = 0x20;

/// Interrupt status bit: PIO buffer ready to write.
pub const INT_BUF_WRDY: u32 = 0x10;

/// Transfer-mode/command word of CMD52.
pub const CMD52_XFER_MODE: u32 = 0x341A_0000;

/// The CMD52 argument: `[W at 31][fn 28..30][addr 9..25][data 0..7]`.
pub open spec fn cmd52_arg_spec(write: bool, func: u32, reg: u32, val: u8) -> u32 {
    (if write { 0x8000_0000u32 } else { 0u32 }) | ((func & 7) << 28) | ((reg & 0x1_FFFF) << 9) | (
    val as u32)
}

/// The argument of a CMD52 (IO_RW_DIRECT): read, or write of `val`, at `reg` of `func`.
pub fn cmd52_arg(write: bool, func: u32, reg: u32, val: u8) -> (r: u32)
    ensures
        r == cmd52_arg_spec(write, func, reg, if write { val } else { 0 }),
{
    let v: u8 = if write { val } else { 0 };
    (if write { 0x8000_0000u32 } else { 0u32 }) | ((func & 7) << 28) | ((reg & 0x1_FFFF) << 9) | (
    v as u32)
}

/// Whether an R5 response (RESP31_0) reports an error.
pub fn r5_has_error(resp: u32) -> (r: bool)
    ensures
        r == ((resp >> 16) & R5_ERROR_MASK != 0),
{
    (resp >> 16) & R5_ERROR_MASK != 0
}

/// The common part of a CMD53 argument: direction, function, increment flag, address.
pub open spec fn cmd53_arg_head(write: bool, fn_num: u32, addr: u32, incr_addr: bool) -> u32 {
    (if write { 0x8000_0000u32 } else { 0u32 }) | (fn_num << 28) | (if incr_addr {
        0x0400_0000u32
    } else {
        0u32
    }) | ((addr & SDIO_IO_RW_EXTENDED_ADDR_MASK) << 9)
}

/// The argument of a block-mode CMD53: block-mode bit set, `blocks` in the 9-bit count.
pub fn mmc_io_rw_extended_arg_block(
    write: bool,
    fn_num: u32,
    addr: u32,
    incr_addr: bool,
    blocks: u32,
) -> (r: u32)
    ensures
        r == cmd53_arg_head(write, fn_num, addr, incr_addr) | 0x0800_0000u32 | (blocks & 0x1FF),
{
    let mut arg: u32 = if write {
        0x8000_0000u32
    } else {
        0x0000_0000u32
    };
    arg = arg | (fn_num << 28);
    arg = arg | if incr_addr {
        0x0400_0000u32
    } else {
        0u32
    };
    arg = arg | ((addr & SDIO_IO_RW_EXTENDED_ADDR_MASK) << 9);
    arg = arg | (0x0800_0000u32 | (blocks & 0x1FF));
    proof {
        let h = cmd53_arg_head(write, fn_num, addr, incr_addr);
        assert(arg == h | 0x0800_0000u32 | (blocks & 0x1FF)) by (bit_vector)
            requires
                arg == (((if write { 0x8000_0000u32 } else { 0u32 }) | (fn_num << 28)) | (
                if incr_addr {
                    0x0400_0000u32
                } else {
                    0u32
                }) | ((addr & 0x1_FFFFu32) << 9)) | (0x0800_0000u32 | (blocks & 0x1FF)),
                h == (if write { 0x8000_0000u32 } else { 0u32 }) | (fn_num << 28) | (if incr_addr {
                    0x0400_0000u32
                } else {
                    0u32
                }) | ((addr & 0x1_FFFFu32) << 9),
        ;
    }
    arg
}

/// The 9-bit count field of a byte-mode CMD53: the byte count, with 512 written as 0.
pub open spec fn byte_count_field(blksz: u32) -> u32 {
    if blksz == 512 {
        0
    } else {
        blksz & 0x1FF
    }
}

/// The argument of a byte-mode CMD53: block-mode bit clear, the byte count in the count field.
pub fn mmc_io_rw_extended_arg_byte(
    write: bool,
    fn_num: u32,
    addr: u32,
    incr_addr: bool,
    blksz: u32,
) -> (r: u32)
    ensures
        r == cmd53_arg_head(write, fn_num, addr, incr_addr) | byte_count_field(blksz),
{
    let head: u32 = (if write {
        0x8000_0000u32
    } else {
        0x0000_0000u32
    }) | (fn_num << 28) | (if incr_addr {
        0x0400_0000u32
    } else {
        0u32
    }) | ((addr & SDIO_IO_RW_EXTENDED_ADDR_MASK) << 9);
    let cnt: u32 = if blksz == 512 {
        0
    } else {
        blksz & 0x1FF
    };
    head | cnt
}

/// The number of blocks a block-mode count field stands for (0 is read as 1).
pub fn mmc_io_rw_extended_data_blocks(blocks: u32) -> (r: u32)
    ensures
        r == if blocks == 0 {
            1
        } else {
            blocks
        },
{
    if blocks == 0 {
        1
    } else {
        blocks
    }
}

/// The block-size register value: SDMA boundary argument in bits 12..14, size in bits 0..11.
pub fn sdhci_make_blksz(sdma_boundary: u8, blksz: u16) -> (r: u16)
    ensures
        r == (((sdma_boundary as u16) & 7) << 12) | (blksz & 0xFFF),
{
    (((sdma_boundary as u16) & 7) << 12) | (blksz & 0xFFF)
}

/// The command register value: opcode in the high byte, flags in the low byte.
pub fn sdhci_make_cmd(opcode: u8, flags: u8) -> (r: u16)
    ensures
        r == ((opcode as u16) << 8) | (flags as u16),
{
    ((opcode as u16) << 8) | (flags as u16)
}

/// One register write of a planned command sequence.
#[derive(Clone, Copy, Debug, PartialEq, Eq, Structural)]
pub struct RegWrite {
    pub reg: u32,
    pub value: u32,
}

/// The register value of BLK_SIZE_AND_CNT for `blocks` blocks of 512 bytes.
pub open spec fn block_mode_blk_word(blocks: u32) -> u32 {
    ((blocks as int) * 65536 + 7 * 4096 + 512) as u32
}

/// The register writes that start a block-mode (SDMA) CMD53 of `blocks` blocks, in
/// the order they must be made: SDMA address, DMA select, block size and count,
/// argument, timeout, transfer mode, and command last.
pub fn cmd53_block_plan(write: bool, func: u32, reg: u32, blocks: u32, dma_phys: u32, host_ctrl: u32) -> (r: Result<Vec<RegWrite>, DrvError>)
    ensures
        r is Err <==> (blocks == 0 || blocks > SDIO_IO_RW_EXTENDED_MAX_BLOCKS),
        r matches Err(e) ==> e == DrvError::Invalid,
        r matches Ok(w) ==> {
            &&& w@.len() == 7
            &&& w@[0] == (RegWrite { reg: SDMA_ADDRESS, value: dma_phys })
            &&& w@[1] == (RegWrite { reg: HOST_CTRL1, value: host_ctrl & !0x18u32 })
            &&& w@[2] == (RegWrite { reg: BLK_SIZE_AND_CNT, value: block_mode_blk_word(blocks) })
            &&& w@[3].reg == ARGUMENT
            &&& w@[3].value == cmd53_arg_head(write, func & 7, reg, false) | 0x0800_0000u32 | (
            blocks & 0x1FF)
            &&& w@[4] == (RegWrite { reg: TIMEOUT_CONTROL, value: 0x0E })
            &&& w@[5] == (RegWrite {
                reg: TRANSFER_MODE,
                value: (if write { CMD53_WRITE_MULTI_XFER_MODE } else { CMD53_READ_MULTI_XFER_MODE })
                    & 0xFFFF,
            })
            &&& w@[6] == (RegWrite {
                reg: COMMAND,
                value: (if write { CMD53_WRITE_MULTI_XFER_MODE } else { CMD53_READ_MULTI_XFER_MODE })
                    >> 16,
            })
        },
{
    if blocks == 0 || blocks > SDIO_IO_RW_EXTENDED_MAX_BLOCKS {
        return Err(DrvError::Invalid);
    }
    let mode = if write {
        CMD53_WRITE_MULTI_XFER_MODE
    } else {
        CMD53_READ_MULTI_XFER_MODE
    };
    let arg = mmc_io_rw_extended_arg_block(write, func & 7, reg, false, blocks);
    let blk: u32 = blocks * 65536 + 7 * 4096 + 512;
    let mut w: Vec<RegWrite> = Vec::new();
    w.push(RegWrite { reg: SDMA_ADDRESS, value: dma_phys });
    w.push(RegWrite { reg: HOST_CTRL1, value: host_ctrl & !0x18u32 });
    w.push(RegWrite { reg: BLK_SIZE_AND_CNT, value: blk });
    w.push(RegWrite { reg: ARGUMENT, value: arg });
    w.push(RegWrite { reg: TIMEOUT_CONTROL, value: 0x0E });
    w.push(RegWrite { reg: TRANSFER_MODE, value: mode & 0xFFFF });
    w.push(RegWrite { reg: COMMAND, value: mode >> 16 });
    Ok(w)
}

/// The register writes that start a byte-mode CMD53 of `count` bytes: block size and
/// count, argument, then the combined transfer-mode/command word.
pub fn cmd53_byte_plan(write: bool, func: u32, reg: u32, count: usize) -> (r: Result<Vec<RegWrite>, DrvError>)
    ensures
        r is Err <==> (count == 0 || count > CMD53_MAX_BYTES),
        r matches Err(e) ==> e == DrvError::Invalid,
        r matches Ok(w) ==> {
            &&& w@.len() == 3
            &&& w@[0] == (RegWrite { reg: BLK_SIZE_AND_CNT, value: (65536 + count) as u32 })
            &&& w@[1].reg == ARGUMENT
            &&& w@[1].value == cmd53_arg_head(write, func & 7, reg, false) | byte_count_field(
                count as u32,
            )
            &&& w@[2] == (RegWrite {
                reg: TRANSFER_MODE,
                value: if write { CMD53_WRITE_XFER_MODE } else { CMD53_READ_XFER_MODE },
            })
        },
{
    if count == 0 || count > CMD53_MAX_BYTES {
        return Err(DrvError::Invalid);
    }
    let n = count as u32;
    let arg = mmc_io_rw_extended_arg_byte(write, func & 7, reg, false, n);
    let mut w: Vec<RegWrite> = Vec::new();
    w.push(RegWrite { reg: BLK_SIZE_AND_CNT, value: 65536 + n });
    w.push(RegWrite { reg: ARGUMENT, value: arg });
    w.push(
        RegWrite {
            reg: TRANSFER_MODE,
            value: if write {
                CMD53_WRITE_XFER_MODE
            } else {
                CMD53_READ_XFER_MODE
            },
        },
    );
    Ok(w)
}

/// One CMD53 of a longer transfer.
#[derive(Clone, Copy, Debug, PartialEq, Eq, Structural)]
pub enum Cmd53Chunk {
    /// A block-mode command of this many 512-byte blocks.
    Blocks(u32),
    /// A byte-mode command of this many bytes.
    Bytes(u32),
}

/// The number of bytes a chunk moves.
pub open spec fn chunk_len(c: Cmd53Chunk) -> int {
    match c {
        Cmd53Chunk::Blocks(b) => b * 512,
        Cmd53Chunk::Bytes(n) => n as int,
    }
}

/// A chunk is one that a single CMD53 can carry.
pub open spec fn chunk_ok(c: Cmd53Chunk) -> bool {
    match c {
        Cmd53Chunk::Blocks(b) => 1 <= b <= SDIO_IO_RW_EXTENDED_MAX_BLOCKS,
        Cmd53Chunk::Bytes(n) => 1 <= n <= CMD53_MAX_BYTES,
    }
}

/// The bytes moved by a sequence of chunks.
pub open spec fn chunks_total(s: Seq<Cmd53Chunk>) -> int
    decreases s.len(),
{
    if s.len() == 0 {
        0
    } else {
        chunks_total(s.drop_last()) + chunk_len(s.last())
    }
}

/// Byte-mode commands of at most 512 bytes for the `rem` bytes left.
pub open spec fn byte_chunks(rem: int) -> Seq<Cmd53Chunk>
    decreases rem,
{
    if rem <= 0 {
        Seq::empty()
    } else {
        let n = if rem < 512 {
            rem
        } else {
            512
        };
        seq![Cmd53Chunk::Bytes(n as u32)] + byte_chunks(rem - n)
    }
}

/// Block-mode commands of at most 511 blocks while a whole block is left, then
/// byte-mode commands for the rest.
pub open spec fn block_chunks(rem: int) -> Seq<Cmd53Chunk>
    decreases rem,
{
    if rem >= 512 {
        let b = if rem / 512 < 511 {
            rem / 512
        } else {
            511
        };
        seq![Cmd53Chunk::Blocks(b as u32)] + block_chunks(rem - b * 512)
    } else {
        byte_chunks(rem)
    }
}

/// The CMD53s of a transfer of `size` bytes: block mode first only above 512 bytes.
pub open spec fn chunk_plan(size: int) -> Seq<Cmd53Chunk> {
    if size > 512 {
        block_chunks(size)
    } else {
        byte_chunks(size)
    }
}

/// How a transfer of `size` bytes is cut into CMD53s: above 512 bytes, block-mode
/// commands of at most 511 blocks while a whole block remains; then byte-mode commands
/// of at most 512 bytes. The chunks move exactly `size` bytes, in order.
pub fn rw_ext_chunks(size: usize) -> (r: Vec<Cmd53Chunk>)
    requires
        size <= u32::MAX,
    ensures
        r@ == chunk_plan(size as int),
        chunks_total(r@) == size,
        forall|i: int| 0 <= i < r@.len() ==> chunk_ok(#[trigger] r@[i]),
        size <= CMD53_MAX_BYTES ==> forall|i: int| 0 <= i < r@.len() ==> r@[i] is Bytes,
{
    let mut r: Vec<Cmd53Chunk> = Vec::new();
    let mut offset: usize = 0;
    assert(r@ + chunk_plan(size as int) =~= chunk_plan(size as int));
    if size > CMD53_MAX_BYTES {
        while size - offset >= 512
            invariant
                offset <= size <= u32::MAX,
                chunks_total(r@) == offset,
                forall|i: int| 0 <= i < r@.len() ==> chunk_ok(#[trigger] r@[i]),
                size > 512,
                r@ + block_chunks(size - offset) == chunk_plan(size as int),
            decreases size - offset,
        {
            let rem = size - offset;
            let blocks: u32 = if rem / 512 < 511 {
                (rem / 512) as u32
            } else {
                511
            };
            let chunk: usize = blocks as usize * 512;
            let ghost prev = r@;
            r.push(Cmd53Chunk::Blocks(blocks));
            assert(r@.drop_last() == prev);
            assert(block_chunks(rem as int) == seq![Cmd53Chunk::Blocks(blocks)] + block_chunks(
                rem - chunk,
            ));
            assert(prev + block_chunks(rem as int) =~= r@ + block_chunks(rem - chunk));
            offset = offset + chunk;
        }
        assert(block_chunks(size - offset) == byte_chunks(size - offset));
    }
    while offset < size
        invariant
            offset <= size <= u32::MAX,
            chunks_total(r@) == offset,
            forall|i: int| 0 <= i < r@.len() ==> chunk_ok(#[trigger] r@[i]),
            size <= CMD53_MAX_BYTES ==> forall|i: int| 0 <= i < r@.len() ==> r@[i] is Bytes,
            r@ + byte_chunks(size - offset) == chunk_plan(size as int),
        decreases size - offset,
    {
        let n: usize = if size - offset < CMD53_MAX_BYTES {
            size - offset
        } else {
            CMD53_MAX_BYTES
        };
        let ghost prev = r@;
        r.push(Cmd53Chunk::Bytes(n as u32));
        assert(r@.drop_last() == prev);
        assert(byte_chunks(size - offset) == seq![Cmd53Chunk::Bytes(n as u32)] + byte_chunks(
            size - offset - n,
        ));
        assert(prev + byte_chunks(size - offset) =~= r@ + byte_chunks(size - offset - n));
        offset = offset + n;
    }
    assert(r@ + byte_chunks(0) =~= r@);
    r
}

/// Frequency of the controller's internal card clock, in Hz.
pub const INT_CARD_CLK_HZ: u32 = 375_000_000;

/// Clock of the identification phase, in Hz.
pub const CLOCK_IDENT_HZ: u32 = 400_000;

/// Clock-control bits: internal clock enable, internal clock stable, card clock enable.
pub const INT_CLK_EN: u32 = 1;
pub const INT_CLK_STABLE: u32 = 2;
pub const SD_CLK_EN: u32 = 4;

/// The clock divisor for a target frequency: `ceil(F_internal / (2 F_target))`,
/// clamped to 1..255.
pub open spec fn divisor_spec(target_hz: u32) -> int {
    let d = (INT_CARD_CLK_HZ + 2 * target_hz - 1) / (2 * target_hz as int);
    if d < 1 {
        1
    } else if d > 255 {
        255
    } else {
        d
    }
}

/// The clock divisor for `target_hz` (see `divisor_spec`).
pub fn clock_divisor(target_hz: u32) -> (r: u32)
    requires
        target_hz > 0,
    ensures
        r == divisor_spec(target_hz),
        1 <= r <= 255,
{
    let t = target_hz as u64;
    let d = (INT_CARD_CLK_HZ as u64 + 2 * t - 1) / (2 * t);
    if d < 1 {
        1
    } else if d > 255 {
        255
    } else {
        d as u32
    }
}

/// The clock-control value that selects divisor `div` (FREQ_SEL, bits 8..15) and
/// enables the internal clock, keeping the other bits of `current`.
pub fn clk_ctl_with_divisor(current: u32, div: u32) -> (r: u32)
    requires
        div <= 255,
    ensures
        r == (current & !0xFF00u32) | (div * 256) as u32 | INT_CLK_EN,
{
    (current & !0xFF00u32) | (div * 256) | INT_CLK_EN
}

/// The number of 32-bit words a PIO transfer of `count` bytes takes.
pub open spec fn pio_words(count: int) -> int {
    (count + 3) / 4
}

/// Byte `k` (0..3) of a little-endian word.
pub open spec fn word_byte(w: u32, k: int) -> u8 {
    if k == 0 {
        (w % 256) as u8
    } else if k == 1 {
        ((w / 256) % 256) as u8
    } else if k == 2 {
        ((w / 65536) % 256) as u8
    } else {
        (w / 16777216) as u8
    }
}

/// The byte `j` of the buffer, 0 beyond its end.
pub open spec fn byte_or_zero(b: Seq<u8>, j: int) -> u8 {
    if 0 <= j < b.len() {
        b[j]
    } else {
        0
    }
}

/// The `i`-th word written to BUF_DATA for the bytes `b`: four bytes little-endian,
/// missing bytes as zero.
pub open spec fn pio_word_of(b: Seq<u8>, i: int) -> u32 {
    crate::bytes::from_le32(
        byte_or_zero(b, 4 * i),
        byte_or_zero(b, 4 * i + 1),
        byte_or_zero(b, 4 * i + 2),
        byte_or_zero(b, 4 * i + 3),
    ) as u32
}

/// The words a byte-mode CMD53 write of the first `count` bytes of `buf` puts into
/// BUF_DATA, in order.
pub fn pio_pack_words(buf: &[u8], count: usize) -> (r: Vec<u32>)
    requires
        count <= buf@.len(),
        count <= CMD53_MAX_BYTES,
    ensures
        r@.len() == pio_words(count as int),
        forall|i: int| 0 <= i < r@.len() ==> r@[i] == pio_word_of(buf@.take(count as int), i),
{
    let ghost b = buf@.take(count as int);
    let mut r: Vec<u32> = Vec::new();
    let mut i: usize = 0;
    let words = (count + 3) / 4;
    while i < words
        invariant
            words == pio_words(count as int),
            count <= buf@.len(),
            count <= CMD53_MAX_BYTES,
            b == buf@.take(count as int),
            i <= words,
            r@.len() == i,
            forall|k: int| 0 <= k < i ==> r@[k] == pio_word_of(b, k),
        decreases words - i,
    {
        let mut bs: Vec<u8> = Vec::new();
        let mut j: usize = 0;
        while j < 4
            invariant
                j <= 4,
                i < words,
                words == pio_words(count as int),
                count <= CMD53_MAX_BYTES,
                count <= buf@.len(),
                b == buf@.take(count as int),
                bs@.len() == j,
                forall|k: int| 0 <= k < j ==> bs@[k] == byte_or_zero(b, 4 * i + k),
            decreases 4 - j,
        {
            let idx = 4 * i + j;
            bs.push(if idx < count { buf[idx] } else { 0 });
            j = j + 1;
        }
        let w = crate::bytes::get_u32_le(bs.as_slice(), 0);
        r.push(w);
        i = i + 1;
    }
    r
}

/// The bytes a byte-mode CMD53 read of `count` bytes takes from the words read out
/// of BUF_DATA: byte `j` is byte `j % 4` of word `j / 4`.
pub fn pio_unpack_words(words: &[u32], count: usize) -> (r: Vec<u8>)
    requires
        count <= 4 * words@.len(),
        count <= CMD53_MAX_BYTES,
    ensures
        r@.len() == count,
        forall|j: int| 0 <= j < count ==> r@[j] == word_byte(words@[j / 4], j % 4),
{
    let mut r: Vec<u8> = Vec::new();
    let mut j: usize = 0;
    while j < count
        invariant
            j <= count,
            count <= 4 * words@.len(),
            r@.len() == j,
            forall|k: int| 0 <= k < j ==> r@[k] == word_byte(words@[k / 4], k % 4),
        decreases count - j,
    {
        let w = words[j / 4];
        let k = j % 4;
        let b: u8 = if k == 0 {
            (w % 256) as u8
        } else if k == 1 {
            ((w / 256) % 256) as u8
        } else if k == 2 {
            ((w / 65536) % 256) as u8
        } else {
            (w / 16777216) as u8
        };
        r.push(b);
        j = j + 1;
    }
    r
}

/// Byte `k` of the little-endian word of four bytes is the `k`-th of them.
pub proof fn lemma_word_byte_le32(b0: u8, b1: u8, b2: u8, b3: u8)
    ensures
        ({
            let w = crate::bytes::from_le32(b0, b1, b2, b3) as u32;
            &&& word_byte(w, 0) == b0
            &&& word_byte(w, 1) == b1
            &&& word_byte(w, 2) == b2
            &&& word_byte(w, 3) == b3
        }),
{
    let x: int = b0 + 256 * b1 + 65536 * b2 + 16777216 * b3;
    assert(0 <= x < 0x1_0000_0000) by (nonlinear_arith)
        requires
            x == b0 + 256 * b1 + 65536 * b2 + 16777216 * b3,
            0 <= b0 < 256,
            0 <= b1 < 256,
            0 <= b2 < 256,
            0 <= b3 < 256,
    ;
    assert(x % 256 == b0 && (x / 256) % 256 == b1 && (x / 65536) % 256 == b2 && x / 16777216
        == b3) by (nonlinear_arith)
        requires
            x == b0 + 256 * b1 + 65536 * b2 + 16777216 * b3,
            0 <= b0 < 256,
            0 <= b1 < 256,
            0 <= b2 < 256,
            0 <= b3 < 256,
    ;
}

/// A byte-mode CMD53 of `count` bytes (1..512) moves exactly `count` bytes, in order:
/// the bytes packed into BUF_DATA words and taken back out of the same words are the
/// bytes that went in.
pub proof fn lemma_pio_round_trip(b: Seq<u8>, words: Seq<u32>)
    requires
        1 <= b.len() <= CMD53_MAX_BYTES,
        words.len() == pio_words(b.len() as int),
        forall|i: int| 0 <= i < words.len() ==> words[i] == pio_word_of(b, i),
    ensures
        b.len() <= 4 * words.len() < b.len() + 4,
        forall|j: int| 0 <= j < b.len() ==> word_byte(words[j / 4], j % 4) == b[j],
{
    assert forall|j: int| 0 <= j < b.len() implies word_byte(words[j / 4], j % 4) == b[j] by {
        let i = j / 4;
        assert(0 <= i < words.len());
        lemma_word_byte_le32(
            byte_or_zero(b, 4 * i),
            byte_or_zero(b, 4 * i + 1),
            byte_or_zero(b, 4 * i + 2),
            byte_or_zero(b, 4 * i + 3),
        );
        assert(j == 4 * i + j % 4);
    }
}

/// The controller's transfer state as the interrupt handler sees it.
#[derive(Clone, Copy, Debug, PartialEq, Eq, Structural)]
pub struct HostIrqState {
    /// A command is waiting for its completion.
    pub cmd_pending: bool,
    /// A DMA transfer is waiting for its data completion.
    pub dma_pending: bool,
    /// Physical base of the DMA buffer.
    pub dma_base: u32,
    /// Total bytes of the DMA transfer.
    pub dma_total: u32,
    /// Bytes transferred so far, as of the last boundary interrupt.
    pub dma_xfered: u32,
}

/// What one pass of the interrupt handler does, in this order: write `clear_first`
/// back to INT_STS; store `cmd_result` and wake CMD_DONE; handle data: store
/// `dma_result` and wake DMA_DONE, or rewrite SDMA_ADDRESS with `sdma_next`; write
/// `data_clear` back; on `card_int`, disable CARD_INT in both enable registers, mark the
/// card interrupt pending and post the work item; last, write `clear_after` back.
#[derive(Clone, Copy, Debug, PartialEq, Eq, Structural)]
pub struct IrqActions {
    pub clear_first: u32,
    pub cmd_result: Option<i32>,
    pub dma_result: Option<i32>,
    pub sdma_next: Option<u32>,
    pub data_clear: u32,
    pub card_int: bool,
    pub clear_after: u32,
}

/// The result a command-completion status stands for: timeout, bad CRC, bad message;
/// success when RESPONSE is the only command bit set; I/O error otherwise.
pub open spec fn cmd_status_code(sts: u32) -> i32 {
    if sts & INT_TIMEOUT != 0 {
        errno_of(DrvError::Timeout)
    } else if sts & INT_CRC != 0 {
        errno_of(DrvError::BadCrc)
    } else if sts & INT_END_BIT != 0 {
        errno_of(DrvError::BadMessage)
    } else if sts & INT_CMD_MASK == INT_RESPONSE {
        0
    } else {
        errno_of(DrvError::Io)
    }
}

/// The result a data-completion status stands for while a DMA transfer is pending;
/// `None` for a bare boundary interrupt (DMA_END without an end or error bit), which
/// completes nothing.
pub open spec fn data_status_code(sts: u32) -> Option<i32> {
    if sts & INT_DATA_END != 0 {
        Some(0i32)
    } else if sts & INT_DATA_TIMEOUT != 0 {
        Some(errno_of(DrvError::Timeout))
    } else if sts & INT_DATA_END_BIT != 0 {
        Some(errno_of(DrvError::BadMessage))
    } else if sts & INT_DATA_CRC != 0 {
        Some(errno_of(DrvError::BadCrc))
    } else if sts & INT_ADMA_ERROR != 0 {
        Some(errno_of(DrvError::Io))
    } else if sts & INT_DMA_END != 0 {
        None
    } else {
        Some(errno_of(DrvError::Io))
    }
}

/// The next SDMA boundary after `base + xfered`.
pub open spec fn next_boundary(base: u32, xfered: u32) -> u32 {
    vstd::wrapping::u32_specs::wrapping_add(
        vstd::wrapping::u32_specs::wrapping_add(base, xfered) & !0x7FFFFu32,
        SDMA_BOUNDARY_SIZE,
    )
}

/// The status bits one pass of the handler looks at.
pub open spec fn examined_bits(sts: u32) -> u32 {
    sts & (INT_CMD_MASK | INT_BUS_POWER | INT_DATA_MASK | INT_CARD_INT | INT_RETUNE)
}

/// Every status bit written back by one pass.
pub open spec fn cleared_bits(a: IrqActions) -> u32 {
    a.clear_first | a.data_clear | a.clear_after
}

/// What one pass does with the status word `sts` in transfer state `st`, with `ier`
/// the status-enable register (the state after the pass is stated by `host_irq_step`).
pub open spec fn irq_actions_spec(st: HostIrqState, sts: u32, ier: u32, a: IrqActions) -> bool {
    &&& a.clear_first == (sts & (INT_CMD_MASK | INT_BUS_POWER)) | (if st.dma_pending {
        0u32
    } else {
        sts & INT_DATA_MASK
    })
    &&& a.cmd_result is Some <==> (sts & INT_CMD_MASK != 0 && st.cmd_pending)
    &&& a.cmd_result matches Some(c) ==> c == cmd_status_code(sts)
    &&& a.data_clear == if sts & INT_DATA_MASK != 0 && st.dma_pending {
        sts & INT_DATA_MASK
    } else {
        0u32
    }
    &&& a.dma_result == if sts & INT_DATA_MASK != 0 && st.dma_pending {
        data_status_code(sts)
    } else {
        None::<i32>
    }
    &&& a.card_int == (sts & INT_CARD_INT != 0 && ier & INT_CARD_INT != 0)
    &&& a.clear_after == (sts & INT_CARD_INT) | (sts & INT_RETUNE)
}

/// One pass of the interrupt handler over the status word `sts`, with `ier` the
/// status-enable register. Updates the transfer state and says what to do.
pub fn host_irq_step(st: &mut HostIrqState, sts: u32, ier: u32) -> (a: IrqActions)
    ensures
        irq_actions_spec(*old(st), sts, ier, a),
        final(st).cmd_pending == (old(st).cmd_pending && a.cmd_result is None),
        (sts & INT_DATA_MASK == 0 || !old(st).dma_pending) ==> {
            &&& a.sdma_next is None
            &&& final(st).dma_pending == old(st).dma_pending
            &&& final(st).dma_xfered == old(st).dma_xfered
        },
        (sts & INT_DATA_MASK != 0 && old(st).dma_pending) ==> {
            &&& final(st).dma_pending == a.dma_result is None
            &&& a.dma_result is Some ==> a.sdma_next is None && final(st).dma_xfered == old(
                st,
            ).dma_xfered
            &&& a.dma_result is None ==> {
                let next = next_boundary(old(st).dma_base, old(st).dma_xfered);
                let moved = vstd::wrapping::u32_specs::wrapping_sub(next, old(st).dma_base);
                &&& final(st).dma_xfered == moved
                &&& a.sdma_next == if moved < old(st).dma_total {
                    Some(next)
                } else {
                    None::<u32>
                }
            }
        },
        final(st).dma_base == old(st).dma_base,
        final(st).dma_total == old(st).dma_total,
{
    let extra: u32 = if st.dma_pending {
        0
    } else {
        sts & INT_DATA_MASK
    };
    let clear_first: u32 = (sts & (INT_CMD_MASK | INT_BUS_POWER)) | extra;
    let mut cmd_result: Option<i32> = None;
    if sts & INT_CMD_MASK != 0 && st.cmd_pending {
        let code: i32 = if sts & INT_TIMEOUT != 0 {
            -110
        } else if sts & INT_CRC != 0 {
            -84
        } else if sts & INT_END_BIT != 0 {
            -74
        } else if sts & INT_CMD_MASK == INT_RESPONSE {
            0
        } else {
            -5
        };
        cmd_result = Some(code);
        st.cmd_pending = false;
    }
    let mut dma_result: Option<i32> = None;
    let mut sdma_next: Option<u32> = None;
    let mut data_clear: u32 = 0;
    if sts & INT_DATA_MASK != 0 && st.dma_pending {
        data_clear = sts & INT_DATA_MASK;
        if sts & INT_DATA_END != 0 {
            dma_result = Some(0);
        } else if sts & INT_DATA_TIMEOUT != 0 {
            dma_result = Some(-110);
        } else if sts & INT_DATA_END_BIT != 0 {
            dma_result = Some(-74);
        } else if sts & INT_DATA_CRC != 0 {
            dma_result = Some(-84);
        } else if sts & INT_ADMA_ERROR != 0 {
            dma_result = Some(-5);
        } else if sts & INT_DMA_END != 0 {
            let now = st.dma_base.wrapping_add(st.dma_xfered);
            let next = (now & !0x7FFFFu32).wrapping_add(SDMA_BOUNDARY_SIZE);
            let moved = next.wrapping_sub(st.dma_base);
            st.dma_xfered = moved;
            if moved < st.dma_total {
                sdma_next = Some(next);
            }
        } else {
            dma_result = Some(-5);
        }
        if dma_result.is_some() {
            st.dma_pending = false;
        }
    }
    let card_int = sts & INT_CARD_INT != 0 && ier & INT_CARD_INT != 0;
    let clear_after = (sts & INT_CARD_INT) | (sts & INT_RETUNE);
    IrqActions { clear_first, cmd_result, dma_result, sdma_next, data_clear, card_int, clear_after }
}

/// Within one pass, every status bit the handler examines is written back, and a
/// completion is reported only for bits that were written back before it.
pub proof fn lemma_irq_clears_what_it_examines(st: HostIrqState, sts: u32, ier: u32, a: IrqActions)
    requires
        irq_actions_spec(st, sts, ier, a),
    ensures
        examined_bits(sts) & !cleared_bits(a) == 0,
        a.cmd_result is Some ==> sts & INT_CMD_MASK != 0 && (sts & INT_CMD_MASK) & !a.clear_first
            == 0,
        a.dma_result is Some ==> sts & INT_DATA_MASK != 0 && (sts & INT_DATA_MASK) & !a.data_clear
            == 0,
{
    let cf = a.clear_first;
    let dc = a.data_clear;
    let ca = a.clear_after;
    let x: u32 = if st.dma_pending {
        0u32
    } else {
        sts & INT_DATA_MASK
    };
    assert(cf == (sts & (INT_CMD_MASK | INT_BUS_POWER)) | x);
    if st.dma_pending && sts & INT_DATA_MASK != 0 {
        assert(dc == sts & INT_DATA_MASK);
        assert((sts & (0x010F_0001u32 | 0x0080_0000u32 | 0x0270_003Eu32 | 0x100u32 | 0x1000u32))
            & !(cf | dc | ca) == 0) by (bit_vector)
            requires
                cf == (sts & (0x010F_0001u32 | 0x0080_0000u32)) | 0u32,
                dc == sts & 0x0270_003Eu32,
                ca == (sts & 0x100u32) | (sts & 0x1000u32),
        ;
    } else if st.dma_pending {
        assert(dc == 0);
        assert((sts & (0x010F_0001u32 | 0x0080_0000u32 | 0x0270_003Eu32 | 0x100u32 | 0x1000u32))
            & !(cf | dc | ca) == 0) by (bit_vector)
            requires
                cf == (sts & (0x010F_0001u32 | 0x0080_0000u32)) | 0u32,
                sts & 0x0270_003Eu32 == 0,
                dc == 0,
                ca == (sts & 0x100u32) | (sts & 0x1000u32),
        ;
    } else {
        assert(dc == 0);
        assert((sts & (0x010F_0001u32 | 0x0080_0000u32 | 0x0270_003Eu32 | 0x100u32 | 0x1000u32))
            & !(cf | dc | ca) == 0) by (bit_vector)
            requires
                cf == (sts & (0x010F_0001u32 | 0x0080_0000u32)) | (sts & 0x0270_003Eu32),
                dc == 0,
                ca == (sts & 0x100u32) | (sts & 0x1000u32),
        ;
    }
    assert((sts & 0x010F_0001u32) & !cf == 0) by (bit_vector)
        requires
            cf == (sts & (0x010F_0001u32 | 0x0080_0000u32)) | x,
    ;
    if a.dma_result is Some {
        assert((sts & 0x0270_003Eu32) & !dc == 0) by (bit_vector)
            requires
                dc == sts & 0x0270_003Eu32,
        ;
    }
}

} // verus!
