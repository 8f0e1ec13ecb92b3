use aic8800_sdio::sdhci::{
    clock_divisor, cmd52_arg, cmd53_block_plan, cmd53_byte_plan, host_irq_step, mmc_io_rw_extended_arg_block,
    mmc_io_rw_extended_arg_byte, mmc_io_rw_extended_data_blocks, pio_pack_words, pio_unpack_words, r5_has_error,
    rw_ext_chunks, sdhci_make_blksz, sdhci_make_cmd, Cmd53Chunk, HostIrqState, ARGUMENT, BLK_SIZE_AND_CNT, COMMAND,
    CMD53_READ_XFER_MODE, INT_CARD_INT, INT_CMD_MASK, INT_CRC, INT_DATA_END, INT_DATA_MASK, INT_DATA_TIMEOUT,
    INT_DMA_END, INT_RESPONSE, INT_TIMEOUT, SDMA_ADDRESS,
};
use aic8800_sdio::error::DrvError;

#[test]
fn byte_mode_count_field_512_is_zero_and_1_is_one() {
    let a512 = mmc_io_rw_extended_arg_byte(false, 1, 0x08, false, 512);
    assert_eq!(a512 & 0x1FF, 0);
    assert_eq!(a512 & 0x0800_0000, 0);
    assert_eq!(a512, (1 << 28) | (0x08 << 9));
    let a1 = mmc_io_rw_extended_arg_byte(false, 1, 0x08, false, 1);
    assert_eq!(a1 & 0x1FF, 1);
    let w = mmc_io_rw_extended_arg_byte(true, 1, 0x07, false, 100);
    assert_eq!(w, 0x8000_0000 | (1 << 28) | (0x07 << 9) | 100);
}

#[test]
fn block_mode_511_accepted_512_invalid() {
    assert!(cmd53_block_plan(true, 1, 0x07, 511, 0x8000_0000, 0).is_ok());
    assert_eq!(cmd53_block_plan(true, 1, 0x07, 512, 0x8000_0000, 0), Err(DrvError::Invalid));
    assert_eq!(cmd53_block_plan(false, 1, 0x08, 0, 0x8000_0000, 0), Err(DrvError::Invalid));
    assert_eq!(DrvError::Invalid.code(), -22);
}

#[test]
fn block_mode_plan_order_and_block_word() {
    let w = cmd53_block_plan(false, 1, 0x08, 3, 0x8123_4000, 0x18).unwrap();
    assert_eq!(w[0].reg, SDMA_ADDRESS);
    assert_eq!(w[0].value, 0x8123_4000);
    assert_eq!(w[1].value, 0);
    assert_eq!(w[2].reg, BLK_SIZE_AND_CNT);
    assert_eq!(w[2].value, (3 << 16) | (7 << 12) | 512);
    assert_eq!(w[3].reg, ARGUMENT);
    assert_eq!(w[3].value, (1 << 28) | 0x0800_0000 | (0x08 << 9) | 3);
    assert_eq!(w.last().unwrap().reg, COMMAND);
    let sdma_at = w.iter().position(|x| x.reg == SDMA_ADDRESS).unwrap();
    let cmd_at = w.iter().position(|x| x.reg == COMMAND).unwrap();
    assert!(sdma_at < cmd_at);
    let w511 = cmd53_block_plan(true, 1, 0x07, 511, 0, 0).unwrap();
    assert_eq!(w511[2].value, (511 << 16) | 0x7200);
}

#[test]
fn byte_mode_plan_values() {
    let w = cmd53_byte_plan(false, 1, 0x08, 512).unwrap();
    assert_eq!(w[0].value, (1 << 16) | 512);
    assert_eq!(w[1].value & 0x1FF, 0);
    assert_eq!(w[2].value, CMD53_READ_XFER_MODE);
    assert_eq!(cmd53_byte_plan(false, 1, 0x08, 513), Err(DrvError::Invalid));
    assert_eq!(cmd53_byte_plan(false, 1, 0x08, 0), Err(DrvError::Invalid));
}

#[test]
fn block_arg_and_helpers() {
    assert_eq!(mmc_io_rw_extended_arg_block(true, 1, 0x07, true, 2), 0x8000_0000 | (1 << 28) | 0x0400_0000 | 0x0800_0000 | (0x07 << 9) | 2);
    assert_eq!(mmc_io_rw_extended_data_blocks(0), 1);
    assert_eq!(mmc_io_rw_extended_data_blocks(9), 9);
    assert_eq!(sdhci_make_blksz(7, 512), 0x7200);
    assert_eq!(sdhci_make_cmd(53, 0x3A), 0x353A);
}

#[test]
fn cmd52_argument_layout_and_r5() {
    assert_eq!(cmd52_arg(true, 0, 0x02, 0x02), 0x8000_0000 | (0x02 << 9) | 0x02);
    assert_eq!(cmd52_arg(false, 1, 0x12, 0xFF), (1 << 28) | (0x12 << 9));
    assert!(r5_has_error(0x0800_0000));
    assert!(!r5_has_error(0x0000_2000));
}

#[test]
fn repeated_cccr0_reads_use_the_same_command() {
    let a = cmd52_arg(false, 0, 0x00, 0);
    let b = cmd52_arg(false, 0, 0x00, 0);
    assert_eq!(a, b);
    assert_eq!(a, 0);
}

#[test]
fn pio_words_carry_exactly_n_bytes_in_order() {
    for n in [1usize, 3, 4, 5, 511, 512] {
        let bytes: Vec<u8> = (0..n).map(|i| (i * 7 + 1) as u8).collect();
        let words = pio_pack_words(&bytes, n);
        assert_eq!(words.len(), (n + 3) / 4);
        let back = pio_unpack_words(&words, n);
        assert_eq!(back, bytes);
    }
    let w = pio_pack_words(&[1, 2, 3, 4, 5], 5);
    assert_eq!(w, vec![0x0403_0201, 0x0000_0005]);
}

#[test]
fn long_transfers_split_into_blocks_then_bytes() {
    assert_eq!(rw_ext_chunks(512), vec![Cmd53Chunk::Bytes(512)]);
    assert_eq!(rw_ext_chunks(1536), vec![Cmd53Chunk::Blocks(3)]);
    assert_eq!(rw_ext_chunks(1100), vec![Cmd53Chunk::Blocks(2), Cmd53Chunk::Bytes(76)]);
    let big = rw_ext_chunks(512 * 600 + 10);
    assert_eq!(big, vec![Cmd53Chunk::Blocks(511), Cmd53Chunk::Blocks(89), Cmd53Chunk::Bytes(10)]);
    assert!(rw_ext_chunks(0).is_empty());
}

#[test]
fn clock_divisor_values() {
    assert_eq!(clock_divisor(400_000), 255);
    assert_eq!(clock_divisor(25_000_000), 8);
    assert_eq!(clock_divisor(1_000_000_000), 1);
}

#[test]
fn irq_clears_before_completing_command() {
    let mut st = HostIrqState { cmd_pending: true, dma_pending: false, dma_base: 0, dma_total: 0, dma_xfered: 0 };
    let a = host_irq_step(&mut st, INT_RESPONSE | INT_DATA_END, 0);
    assert_eq!(a.clear_first, INT_RESPONSE | INT_DATA_END);
    assert_eq!(a.cmd_result, Some(0));
    assert!(!st.cmd_pending);
    assert_eq!(a.dma_result, None);
    let mut st2 = HostIrqState { cmd_pending: true, dma_pending: false, dma_base: 0, dma_total: 0, dma_xfered: 0 };
    let b = host_irq_step(&mut st2, INT_RESPONSE | INT_TIMEOUT, 0);
    assert_eq!(b.cmd_result, Some(-110));
    let mut st3 = HostIrqState { cmd_pending: true, dma_pending: false, dma_base: 0, dma_total: 0, dma_xfered: 0 };
    assert_eq!(host_irq_step(&mut st3, INT_CRC, 0).cmd_result, Some(-84));
    let mut idle = HostIrqState { cmd_pending: false, dma_pending: false, dma_base: 0, dma_total: 0, dma_xfered: 0 };
    let c = host_irq_step(&mut idle, INT_RESPONSE, 0);
    assert_eq!(c.cmd_result, None);
    let mut st4 = HostIrqState { cmd_pending: true, dma_pending: false, dma_base: 0, dma_total: 0, dma_xfered: 0 };
    assert_eq!(host_irq_step(&mut st4, INT_RESPONSE | aic8800_sdio::sdhci::INT_INDEX, 0).cmd_result, Some(-5));
    assert_eq!(c.clear_first & INT_CMD_MASK, INT_RESPONSE);
}

#[test]
fn irq_dma_completion_and_boundary() {
    let mut st = HostIrqState { cmd_pending: false, dma_pending: true, dma_base: 0x8000_0000, dma_total: 0x10_0000, dma_xfered: 0 };
    let a = host_irq_step(&mut st, INT_DMA_END, 0);
    assert_eq!(a.clear_first, 0);
    assert_eq!(a.dma_result, None);
    assert_eq!(a.sdma_next, Some(0x8008_0000));
    assert_eq!(a.data_clear, INT_DMA_END);
    let mut st3 = HostIrqState { cmd_pending: false, dma_pending: true, dma_base: 0, dma_total: 0x10_0000, dma_xfered: 0 };
    let c = host_irq_step(&mut st3, INT_DMA_END | aic8800_sdio::sdhci::INT_SPACE_AVAIL, 0);
    assert_eq!(c.data_clear, INT_DMA_END | aic8800_sdio::sdhci::INT_SPACE_AVAIL);
    assert_eq!(c.dma_result, None);
    assert!(st.dma_pending);
    assert_eq!(st.dma_xfered, 0x8_0000);
    let b = host_irq_step(&mut st, INT_DATA_END | INT_DATA_TIMEOUT, 0);
    assert_eq!(b.dma_result, Some(0));
    assert_eq!(b.data_clear, (INT_DATA_END | INT_DATA_TIMEOUT) & INT_DATA_MASK);
    assert!(!st.dma_pending);
    let mut st2 = HostIrqState { cmd_pending: false, dma_pending: true, dma_base: 0, dma_total: 512, dma_xfered: 0 };
    assert_eq!(host_irq_step(&mut st2, INT_DATA_TIMEOUT, 0).dma_result, Some(-110));
}

#[test]
fn irq_card_interrupt() {
    let mut st = HostIrqState { cmd_pending: false, dma_pending: false, dma_base: 0, dma_total: 0, dma_xfered: 0 };
    let a = host_irq_step(&mut st, INT_CARD_INT, INT_CARD_INT);
    assert!(a.card_int);
    assert_eq!(a.clear_after, INT_CARD_INT);
    let b = host_irq_step(&mut st, INT_CARD_INT, 0);
    assert!(!b.card_int);
}

#[test]
fn error_kinds_and_codes() {
    let all = [
        (DrvError::Timeout, -110),
        (DrvError::BadCrc, -84),
        (DrvError::BadMessage, -74),
        (DrvError::Io, -5),
        (DrvError::NoMem, -12),
        (DrvError::NoDevice, -19),
        (DrvError::Invalid, -22),
        (DrvError::NotSupported, -38),
        (DrvError::Again, -11),
    ];
    for (e, c) in all {
        assert_eq!(e.code(), c);
        assert_eq!(DrvError::from_code(c), Some(e));
    }
    assert_eq!(DrvError::from_code(0), None);
    assert_eq!(DrvError::from_code(-1), None);
    let mut st = HostIrqState { cmd_pending: true, dma_pending: false, dma_base: 0, dma_total: 0, dma_xfered: 0 };
    let a = host_irq_step(&mut st, aic8800_sdio::sdhci::INT_END_BIT, 0);
    assert_eq!(a.cmd_result, Some(-74));
    let mut st2 = HostIrqState { cmd_pending: false, dma_pending: true, dma_base: 0, dma_total: 512, dma_xfered: 0 };
    assert_eq!(host_irq_step(&mut st2, aic8800_sdio::sdhci::INT_ADMA_ERROR, 0).dma_result, Some(-5));
    let mut st3 = HostIrqState { cmd_pending: false, dma_pending: true, dma_base: 0, dma_total: 512, dma_xfered: 0 };
    assert_eq!(host_irq_step(&mut st3, aic8800_sdio::sdhci::INT_DATA_CRC, 0).dma_result, Some(-84));
    let mut st4 = HostIrqState { cmd_pending: false, dma_pending: true, dma_base: 0, dma_total: 512, dma_xfered: 0 };
    assert_eq!(host_irq_step(&mut st4, aic8800_sdio::sdhci::INT_DATA_END_BIT, 0).dma_result, Some(-74));
}
