use ext4_shim::sector::{
    assemble_block, fill_sector, needs_read, read_span, write_span, SectorSpan, TranslateError,
    BLOCK_SIZE, SECTOR_SIZE,
};

fn patterned_disk(sectors: usize) -> Vec<u8> {
    (0..sectors * SECTOR_SIZE).map(|i| (i * 7 % 251) as u8).collect()
}

fn read_block(disk: &Vec<u8>, offset: usize) -> Vec<u8> {
    let span = read_span(offset);
    let mut raw = Vec::new();
    for i in 0..span.count {
        let s = (span.first + i) * SECTOR_SIZE;
        raw.extend_from_slice(&disk[s..s + SECTOR_SIZE]);
    }
    assemble_block(&raw, span.skew)
}

fn write_bytes(disk: &mut Vec<u8>, offset: usize, buf: &[u8]) {
    let span = write_span(offset, buf.len()).unwrap();
    for i in 0..span.count {
        let s = (span.first + i) * SECTOR_SIZE;
        let mut data = vec![0u8; SECTOR_SIZE];
        if needs_read(buf.len(), i) {
            data.copy_from_slice(&disk[s..s + SECTOR_SIZE]);
        }
        fill_sector(buf, i, &mut data);
        disk[s..s + SECTOR_SIZE].copy_from_slice(&data);
    }
}

#[test]
fn read_span_aligned_offset() {
    assert_eq!(read_span(4096), SectorSpan { first: 8, count: 8, skew: 0 });
}

#[test]
fn read_span_skewed_offset() {
    assert_eq!(read_span(300), SectorSpan { first: 0, count: 9, skew: 300 });
    assert_eq!(read_span(1024 + 511), SectorSpan { first: 2, count: 9, skew: 511 });
}

#[test]
fn aligned_read_returns_block() {
    let disk = patterned_disk(32);
    let block = read_block(&disk, 4096);
    assert_eq!(block.len(), BLOCK_SIZE);
    assert_eq!(&block[..], &disk[4096..8192]);
}

#[test]
fn cross_boundary_read_reconstructs_every_byte() {
    let disk = patterned_disk(32);
    let block = read_block(&disk, 300);
    assert_eq!(block.len(), BLOCK_SIZE);
    for k in 0..BLOCK_SIZE {
        assert_eq!(block[k], disk[300 + k]);
    }
}

#[test]
fn assemble_takes_bytes_from_skew() {
    let raw: Vec<u8> = (0..9 * 512).map(|i| (i % 256) as u8).collect();
    let block = assemble_block(&raw, 10);
    assert_eq!(block.len(), 4096);
    assert_eq!(block[0], 10);
    assert_eq!(block[4095], ((4095 + 10) % 256) as u8);
}

#[test]
fn write_span_counts_sectors() {
    assert_eq!(write_span(1024, 1), Ok(SectorSpan { first: 2, count: 1, skew: 0 }));
    assert_eq!(write_span(0, 512), Ok(SectorSpan { first: 0, count: 1, skew: 0 }));
    assert_eq!(write_span(0, 513), Ok(SectorSpan { first: 0, count: 2, skew: 0 }));
    assert_eq!(write_span(512, 0), Ok(SectorSpan { first: 1, count: 0, skew: 0 }));
}

#[test]
fn misaligned_write_is_rejected() {
    assert_eq!(write_span(300, 512), Err(TranslateError::Misaligned));
    assert_eq!(write_span(511, 1), Err(TranslateError::Misaligned));
}

#[test]
fn needs_read_only_for_partial_sector() {
    assert!(needs_read(100, 0));
    assert!(!needs_read(512, 0));
    assert!(!needs_read(700, 0));
    assert!(needs_read(700, 1));
}

#[test]
fn fill_sector_keeps_uncovered_bytes() {
    let buf = vec![9u8; 700];
    let mut sector = vec![1u8; 512];
    fill_sector(&buf, 1, &mut sector);
    assert!(sector[..188].iter().all(|&b| b == 9));
    assert!(sector[188..].iter().all(|&b| b == 1));
}

#[test]
fn aligned_write_round_trips() {
    let mut disk = patterned_disk(32);
    let buf: Vec<u8> = (0..3000).map(|i| (i % 13) as u8 + 100).collect();
    write_bytes(&mut disk, 1024, &buf);
    let a = read_block(&disk, 1024);
    assert_eq!(&a[..3000], &buf[..]);
    let b = read_block(&disk, 512);
    assert_eq!(&b[512..3512], &buf[..]);
}

#[test]
fn partial_sector_write_preserves_tail() {
    let mut disk = patterned_disk(16);
    let before = disk.clone();
    let buf = vec![0xAAu8; 100];
    write_bytes(&mut disk, 2048, &buf);
    assert_eq!(&disk[2048..2148], &buf[..]);
    assert_eq!(&disk[2148..2560], &before[2148..2560]);
    assert_eq!(&disk[..2048], &before[..2048]);
}

#[test]
fn long_write_keeps_tail_of_last_sector() {
    let mut disk = patterned_disk(16);
    let before = disk.clone();
    let buf = vec![0x55u8; 700];
    write_bytes(&mut disk, 0, &buf);
    assert_eq!(&disk[..700], &buf[..]);
    assert_eq!(&disk[700..], &before[700..]);
}

#[test]
fn largest_offset_and_length_do_not_overflow() {
    let span = read_span(usize::MAX);
    assert_eq!(span.first, usize::MAX / 512);
    assert_eq!(span.skew, 511);
    assert_eq!(span.count, 9);
    let w = write_span(0, usize::MAX).unwrap();
    assert_eq!(w.count, usize::MAX / 512 + 1);
}
