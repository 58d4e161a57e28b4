//! Translation between byte-addressed block requests and 512-byte sectors.
//!
//! The device itself is driven by the caller: these functions say which
//! sectors a request touches and compute the bytes that move, so that every
//! step between the device and the engine is proved here.
use vstd::arithmetic::div_mod::lemma_fundamental_div_mod;
use vstd::prelude::*;

verus! {

/// Size of one addressable unit of the sector device.
pub const SECTOR_SIZE: usize = 512;

/// Size of one logical block of the engine.
pub const BLOCK_SIZE: usize = 4096;

/// A run of consecutive sectors that one request touches.
#[derive(Clone, Copy, Debug, PartialEq, Eq, Structural)]
pub struct SectorSpan {
    /// Index of the first sector.
    pub first: usize,
    /// Number of sectors, starting at `first`.
    pub count: usize,
    /// Offset of the requested range inside the first sector.
    pub skew: usize,
}

/// Why a request cannot be translated.
#[derive(Clone, Copy, Debug, PartialEq, Eq, Structural)]
pub enum TranslateError {
    /// A write that does not start on a sector boundary.
    Misaligned,
}

/// Number of sectors that hold `len` bytes from a sector boundary on.
pub open spec fn sectors_for(len: int) -> int {
    (len + 511) / 512
}

/// Number of sectors that a block read with the given skew touches.
pub open spec fn read_count(skew: int) -> int {
    sectors_for(skew + 4096)
}

/// The bytes of `count` sectors from sector `first` on, as read in order.
pub open spec fn sector_run(disk: Seq<u8>, first: int, count: int) -> Seq<u8> {
    disk.subrange(first * 512, (first + count) * 512)
}

/// The block that a read assembles out of the sectors it fetched.
pub open spec fn assembled(raw: Seq<u8>, skew: int) -> Seq<u8> {
    raw.subrange(skew, skew + 4096)
}

/// Whether every sector that a block read at `offset` fetches lies on the disk.
pub open spec fn read_fits(disk_len: int, offset: int) -> bool {
    0 <= offset && (offset / 512 + read_count(offset % 512)) * 512 <= disk_len
}

/// The block that a read at `offset` returns on the given disk contents.
pub open spec fn block_read(disk: Seq<u8>, offset: int) -> Seq<u8> {
    assembled(sector_run(disk, offset / 512, read_count(offset % 512)), offset % 512)
}

/// Which sectors a block read at `offset` fetches.
pub fn read_span(offset: usize) -> (r: SectorSpan)
    ensures
        r.first == offset / 512,
        r.skew == offset % 512,
        r.count == read_count((offset % 512) as int),
{
    let skew: usize = offset % SECTOR_SIZE;
    let count: usize = if skew == 0 { BLOCK_SIZE / SECTOR_SIZE } else { BLOCK_SIZE / SECTOR_SIZE + 1 };
    SectorSpan { first: offset / SECTOR_SIZE, count, skew }
}

/// Builds the block out of the sectors fetched for it, concatenated in order:
/// the first sector from `skew` on, then whole sectors, then the head of the
/// last one, until the block is full.
pub fn assemble_block(raw: &Vec<u8>, skew: usize) -> (r: Vec<u8>)
    requires
        skew < 512,
        raw@.len() >= skew + 4096,
    ensures
        r@ == assembled(raw@, skew as int),
        r@.len() == BLOCK_SIZE,
{
    let mut out: Vec<u8> = Vec::with_capacity(BLOCK_SIZE);
    let mut pos: usize = skew;
    while out.len() < BLOCK_SIZE
        invariant
            skew < 512,
            raw@.len() >= skew + 4096,
            pos == skew + out@.len(),
            out@.len() <= 4096,
            out@ == raw@.subrange(skew as int, pos as int),
        decreases 4096 - out@.len(),
    {
        // the rest of the current sector, or what the block still lacks
        let sector_end: usize = (pos / SECTOR_SIZE + 1) * SECTOR_SIZE;
        let missing: usize = BLOCK_SIZE - out.len();
        let end: usize = if sector_end - pos < missing { sector_end } else { pos + missing };
        while pos < end
            invariant
                skew < 512,
                raw@.len() >= skew + 4096,
                pos == skew + out@.len(),
                end <= skew + 4096,
                pos <= end,
                out@ == raw@.subrange(skew as int, pos as int),
            decreases end - pos,
        {
            out.push(raw[pos]);
            pos = pos + 1;
            assert(out@ =~= raw@.subrange(skew as int, pos as int));
        }
    }
    out
}

/// Which sectors a write of `len` bytes at `offset` covers; a write must
/// start on a sector boundary.
pub fn write_span(offset: usize, len: usize) -> (r: Result<SectorSpan, TranslateError>)
    ensures
        r is Err <==> offset % 512 != 0,
        r is Err ==> r == Err::<SectorSpan, TranslateError>(TranslateError::Misaligned),
        r matches Ok(s) ==> s.first == offset / 512 && s.skew == 0 && s.count == sectors_for(
            len as int,
        ),
{
    if offset % SECTOR_SIZE != 0 {
        return Err(TranslateError::Misaligned);
    }
    let count: usize = if len % SECTOR_SIZE == 0 { len / SECTOR_SIZE } else { len / SECTOR_SIZE + 1 };
    Ok(SectorSpan { first: offset / SECTOR_SIZE, count, skew: 0 })
}

/// Whether the `i`-th sector of a write of `len` bytes is only partly
/// covered, so that its old content must be read before it is written.
pub open spec fn is_partial(len: int, i: int) -> bool {
    len - 512 * i < 512
}

/// Whether the `i`-th sector of a write of `len` bytes must be read first.
pub fn needs_read(len: usize, i: usize) -> (r: bool)
    requires
        i < sectors_for(len as int),
    ensures
        r == is_partial(len as int, i as int),
{
    proof {
        assert(512 * i <= len + 511) by (nonlinear_arith)
            requires
                i < (len + 511) / 512,
        ;
    }
    i >= len / SECTOR_SIZE
}

/// The content of the `i`-th sector after a write of `buf`: the covered bytes
/// of `buf`, then what `old` holds beyond them.
pub open spec fn sector_image(buf: Seq<u8>, i: int, old: Seq<u8>) -> Seq<u8> {
    let lo: int = 512 * i;
    let hi: int = if buf.len() < lo + 512 { buf.len() as int } else { lo + 512 };
    buf.subrange(lo, hi) + old.subrange(hi - lo, 512)
}

/// Copies the part of `buf` that falls in its `i`-th sector into `sector`,
/// keeping the bytes of `sector` that `buf` does not reach.
pub fn fill_sector(buf: &[u8], i: usize, sector: &mut Vec<u8>)
    requires
        old(sector)@.len() == 512,
        512 * i < buf@.len(),
    ensures
        final(sector)@ == sector_image(buf@, i as int, old(sector)@),
{
    let blen: usize = buf.len();
    let lo: usize = 512 * i;
    let n: usize = if blen - lo < SECTOR_SIZE { blen - lo } else { SECTOR_SIZE };
    let mut k: usize = 0;
    while k < n
        invariant
            lo == 512 * i,
            n <= 512,
            lo + n <= buf@.len(),
            k <= n,
            sector@.len() == 512,
            old(sector)@.len() == 512,
            forall|j: int| 0 <= j < k ==> sector@[j] == buf@[lo + j],
            forall|j: int| k <= j < 512 ==> sector@[j] == old(sector)@[j],
        decreases n - k,
    {
        sector.set(k, buf[lo + k]);
        k = k + 1;
    }
    assert(sector@ =~= sector_image(buf@, i as int, old(sector)@));
}

/// `disk` with the bytes from `at` on replaced by `data`.
pub open spec fn splice(disk: Seq<u8>, at: int, data: Seq<u8>) -> Seq<u8> {
    disk.subrange(0, at) + data + disk.subrange(at + data.len(), disk.len() as int)
}

/// What the `i`-th sector of a write starts from before `buf` is copied in:
/// the sector as read from the disk where it is only partly covered, zeros
/// where `buf` covers it whole.
pub open spec fn merge_base(disk: Seq<u8>, first: int, buf: Seq<u8>, i: int) -> Seq<u8> {
    if is_partial(buf.len() as int, i) {
        disk.subrange((first + i) * 512, (first + i) * 512 + 512)
    } else {
        Seq::new(512, |k: int| 0u8)
    }
}

/// The disk after the first `n` sectors of a write of `buf` from sector
/// `first` on, each one written as `merge_base` and `fill_sector` make it.
pub open spec fn apply_write(disk: Seq<u8>, first: int, buf: Seq<u8>, n: nat) -> Seq<u8>
    decreases n,
{
    if n == 0 {
        disk
    } else {
        let d = apply_write(disk, first, buf, (n - 1) as nat);
        let i: int = n - 1;
        splice(d, (first + i) * 512, sector_image(buf, i, merge_base(d, first, buf, i)))
    }
}

/// The disk after a whole write of `buf` at the sector-aligned `offset`.
pub open spec fn disk_after_write(disk: Seq<u8>, offset: int, buf: Seq<u8>) -> Seq<u8> {
    apply_write(disk, offset / 512, buf, sectors_for(buf.len() as int) as nat)
}

/// Whether every sector that a write of `len` bytes at `offset` covers lies on the disk.
pub open spec fn write_fits(disk_len: int, offset: int, len: int) -> bool {
    0 <= offset && offset % 512 == 0 && offset + 512 * sectors_for(len) <= disk_len
}

/// After the first `n` sectors of a write, the disk holds the part of `buf`
/// that they cover, and nothing else has changed.
proof fn lemma_apply_write_prefix(disk: Seq<u8>, offset: int, buf: Seq<u8>, n: nat)
    requires
        write_fits(disk.len() as int, offset, buf.len() as int),
        n <= sectors_for(buf.len() as int),
    ensures
        apply_write(disk, offset / 512, buf, n) =~= splice(
            disk,
            offset,
            buf.subrange(0, if buf.len() < 512 * n { buf.len() as int } else { 512 * n as int }),
        ),
    decreases n,
{
    let first: int = offset / 512;
    lemma_fundamental_div_mod(offset, 512);
    assert(first * 512 == offset);
    if n == 0 {
    } else {
        let i: int = n - 1;
        lemma_apply_write_prefix(disk, offset, buf, (n - 1) as nat);
        let d = apply_write(disk, first, buf, (n - 1) as nat);
        let len: int = buf.len() as int;
        assert(512 * i < len) by (nonlinear_arith)
            requires
                i < (len + 511) / 512,
                len >= 0,
        ;
        assert(512 * n <= 512 * sectors_for(len)) by (nonlinear_arith)
            requires
                n <= sectors_for(len),
        ;
        let p: int = 512 * i;
        let q: int = if len < 512 * n { len } else { 512 * n as int };
        assert((first + i) * 512 == offset + p) by (nonlinear_arith)
            requires
                first * 512 == offset,
                p == 512 * i,
        ;
        assert(d =~= splice(disk, offset, buf.subrange(0, p)));
        let base = merge_base(d, first, buf, i);
        let img = sector_image(buf, i, base);
        assert(img =~= buf.subrange(p, q) + base.subrange(q - p, 512));
        if is_partial(len, i) {
            assert(base =~= disk.subrange(offset + p, offset + p + 512));
        }
        assert(splice(d, offset + p, img) =~= splice(disk, offset, buf.subrange(0, q)));
    }
}

/// A sector-aligned write replaces exactly the bytes it covers: the disk
/// afterwards holds `buf` from `offset` on and is unchanged everywhere else,
/// including the tail of a partly covered last sector.
pub proof fn lemma_write_replaces_range(disk: Seq<u8>, offset: int, buf: Seq<u8>)
    requires
        write_fits(disk.len() as int, offset, buf.len() as int),
    ensures
        disk_after_write(disk, offset, buf) =~= splice(disk, offset, buf),
        disk_after_write(disk, offset, buf).subrange(offset, offset + buf.len()) =~= buf,
{
    let len: int = buf.len() as int;
    assert(len <= 512 * sectors_for(len)) by (nonlinear_arith)
        requires
            len >= 0,
    ;
    lemma_apply_write_prefix(disk, offset, buf, sectors_for(len) as nat);
    assert(buf.subrange(0, len) =~= buf);
}

/// A write shorter than a sector leaves the rest of that sector as it was.
pub proof fn lemma_short_write_keeps_sector_tail(disk: Seq<u8>, offset: int, buf: Seq<u8>)
    requires
        write_fits(disk.len() as int, offset, buf.len() as int),
        buf.len() < 512,
    ensures
        disk_after_write(disk, offset, buf).subrange(offset + buf.len(), offset + 512)
            =~= disk.subrange(offset + buf.len(), offset + 512),
{
    lemma_write_replaces_range(disk, offset, buf);
}

/// A block read at any offset, aligned or not, returns the disk's bytes from
/// that offset on, byte for byte.
pub proof fn lemma_read_reconstructs(disk: Seq<u8>, offset: int)
    requires
        read_fits(disk.len() as int, offset),
    ensures
        block_read(disk, offset) =~= disk.subrange(offset, offset + 4096),
        forall|k: int| 0 <= k < 4096 ==> block_read(disk, offset)[k] == disk[offset + k],
{
    let first: int = offset / 512;
    let skew: int = offset % 512;
    lemma_fundamental_div_mod(offset, 512);
    assert(first * 512 + skew == offset);
    assert(skew + 4096 <= read_count(skew) * 512);
    assert((first + read_count(skew)) * 512 == first * 512 + read_count(skew) * 512)
        by (nonlinear_arith);
    assert(block_read(disk, offset) =~= disk.subrange(offset, offset + 4096));
}

/// Writing at a sector-aligned offset and then reading blocks back returns
/// the written bytes wherever a block read overlaps the written range.
pub proof fn lemma_write_then_read(disk: Seq<u8>, offset: int, buf: Seq<u8>, at: int)
    requires
        write_fits(disk.len() as int, offset, buf.len() as int),
        read_fits(disk.len() as int, at),
    ensures
        forall|k: int|
            0 <= k < 4096 && offset <= at + k < offset + buf.len() ==> block_read(
                disk_after_write(disk, offset, buf),
                at,
            )[k] == buf[at + k - offset],
{
    lemma_write_replaces_range(disk, offset, buf);
    let after = disk_after_write(disk, offset, buf);
    lemma_read_reconstructs(after, at);
    assert forall|k: int|
        0 <= k < 4096 && offset <= at + k < offset + buf.len() implies block_read(after, at)[k]
        == buf[at + k - offset] by {
        assert(after.subrange(offset, offset + buf.len())[at + k - offset] == after[at + k]);
    }
}

} // verus!
