//! Page-boundary splitting for program operations.
//!
//! The chip programs at most one page per transaction and a transaction
//! must not cross a page boundary. `spec_program_chunks` is the canonical
//! split of a byte range into per-page chunks; `program_chunks` computes
//! it, and `lemma_program_chunks_cover` proves the split exactly covers
//! the range, stays inside pages, and advances contiguously.

use vstd::prelude::*;

use crate::flash_chip::overwrite;

verus! {

/// The sequence of (address, length) program chunks for a write of `len`
/// bytes starting at `addr`: the first chunk runs to the end of the page
/// that `addr` falls in, every later chunk covers one whole page, and the
/// last is cut short at `len`.
pub open spec fn spec_program_chunks(addr: int, len: int) -> Seq<(int, int)>
    decreases len,
{
    if len <= 0 {
        Seq::empty()
    } else {
        let fits = 256 - addr % 256;
        let c = if fits < len {
            fits
        } else {
            len
        };
        seq![(addr, c)] + spec_program_chunks(addr + c, len - c)
    }
}

/// Sum of the chunk lengths.
pub open spec fn chunks_total(s: Seq<(int, int)>) -> int
    decreases s.len(),
{
    if s.len() == 0 {
        0
    } else {
        s[0].1 + chunks_total(s.skip(1))
    }
}

/// A chunk table as mathematical pairs.
pub open spec fn chunk_views(s: Seq<(u32, u32)>) -> Seq<(int, int)> {
    s.map_values(|p: (u32, u32)| (p.0 as int, p.1 as int))
}

/// Page-splitting correctness: the chunks for `(addr, len)` begin at
/// `addr`, are contiguous and monotonically increasing, never cross a
/// page boundary, are all nonempty, and their lengths sum to `len` — so
/// together they cover exactly `[addr, addr + len)`.
pub proof fn lemma_program_chunks_cover(addr: int, len: int)
    requires
        0 <= addr,
        0 <= len,
    ensures
        len == 0 ==> spec_program_chunks(addr, len).len() == 0,
        len > 0 ==> spec_program_chunks(addr, len).len() > 0 && spec_program_chunks(
            addr,
            len,
        )[0].0 == addr,
        forall|i: int|
            0 <= i < spec_program_chunks(addr, len).len() ==> (#[trigger] spec_program_chunks(
                addr,
                len,
            )[i]).1 > 0 && spec_program_chunks(addr, len)[i].0 % 256 + spec_program_chunks(
                addr,
                len,
            )[i].1 <= 256,
        forall|i: int|
            0 <= i < spec_program_chunks(addr, len).len() - 1 ==> (#[trigger] spec_program_chunks(
                addr,
                len,
            )[i + 1]).0 == spec_program_chunks(addr, len)[i].0 + spec_program_chunks(
                addr,
                len,
            )[i].1,
        chunks_total(spec_program_chunks(addr, len)) == len,
    decreases len,
{
    if len > 0 {
        let fits = 256 - addr % 256;
        let c = if fits < len {
            fits
        } else {
            len
        };
        let chunks = spec_program_chunks(addr, len);
        let rest = spec_program_chunks(addr + c, len - c);
        lemma_program_chunks_cover(addr + c, len - c);
        assert(chunks == seq![(addr, c)] + rest);
        assert(chunks[0] == (addr, c));
        assert(forall|i: int| 0 <= i < rest.len() ==> chunks[i + 1] == rest[i]);
        assert(addr % 256 + c <= 256);
        assert(len - c > 0 ==> (addr + c) % 256 == 0) by {
            if fits < len {
                assert((addr + (256 - addr % 256)) % 256 == 0) by (nonlinear_arith)
                    requires
                        0 <= addr,
                ;
            }
        }
        assert(chunks.skip(1) =~= rest);
        assert(chunks_total(chunks) == c + chunks_total(rest));
    }
}

/// Executable form of the split: the per-page (address, length) chunks a
/// program of `length` bytes at `address` is cut into.
pub fn program_chunks(address: u32, length: u32) -> (r: Vec<(u32, u32)>)
    requires
        address + length <= u32::MAX,
    ensures
        chunk_views(r@) == spec_program_chunks(address as int, length as int),
{
    let mut r: Vec<(u32, u32)> = Vec::new();
    let mut cursor: u32 = address;
    let mut remaining: u32 = length;
    proof {
        assert(chunk_views(r@) =~= Seq::<(int, int)>::empty());
    }
    while remaining > 0
        invariant
            cursor == address + length - remaining,
            remaining <= length,
            address + length <= u32::MAX,
            chunk_views(r@) + spec_program_chunks(cursor as int, remaining as int)
                =~= spec_program_chunks(address as int, length as int),
        decreases remaining,
    {
        let offset: u32 = cursor % 256;
        let fits: u32 = 256 - offset;
        let c: u32 = if fits < remaining {
            fits
        } else {
            remaining
        };
        let ghost r0 = r@;
        r.push((cursor, c));
        proof {
            assert(chunk_views(r@) =~= chunk_views(r0).push((cursor as int, c as int)));
            assert(spec_program_chunks(cursor as int, remaining as int) == seq![
                (cursor as int, c as int),
            ] + spec_program_chunks(cursor as int + c, remaining - c));
            assert(chunk_views(r@) + spec_program_chunks(cursor as int + c, remaining - c)
                =~= chunk_views(r0) + spec_program_chunks(cursor as int, remaining as int));
        }
        cursor = cursor + c;
        remaining = remaining - c;
    }
    proof {
        assert(spec_program_chunks(cursor as int, 0) =~= Seq::<(int, int)>::empty());
        assert(chunk_views(r@) =~= chunk_views(r@) + Seq::<(int, int)>::empty());
    }
    r
}

/// Writing `d1` at `addr` and then `d2` directly after it is one write of
/// `d1 + d2` at `addr`.
pub proof fn lemma_overwrite_append(mem: Seq<u8>, addr: int, d1: Seq<u8>, d2: Seq<u8>)
    requires
        0 <= addr,
        addr + d1.len() + d2.len() <= mem.len(),
    ensures
        overwrite(overwrite(mem, addr, d1), addr + d1.len(), d2) == overwrite(mem, addr, d1 + d2),
{
    assert(overwrite(overwrite(mem, addr, d1), addr + d1.len(), d2) =~= overwrite(
        mem,
        addr,
        d1 + d2,
    ));
}

/// A `program` of `data` at `addr` immediately followed by a `read` of the
/// same range returns the programmed bytes.
pub proof fn lemma_program_then_read(mem: Seq<u8>, addr: int, data: Seq<u8>)
    requires
        0 <= addr,
        addr + data.len() <= mem.len(),
    ensures
        overwrite(mem, addr, data).subrange(addr, addr + data.len()) == data,
{
    assert(overwrite(mem, addr, data).subrange(addr, addr + data.len()) =~= data);
}

} // verus!
