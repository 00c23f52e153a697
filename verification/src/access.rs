//! Planning of raw bus accesses to a window of the memory map.
//!
//! A bus read returns `latency` dummy words before the data, so a single
//! word is read as `latency + 1` words of which the last is the value.
use vstd::prelude::*;
use crate::regions::{first_serving, is_mapped, spec_region, MemoryRegion, Processor};

verus! {

/// An access of `nwords` words at offset `offs` ends inside the window.
pub open spec fn access_fits(mem: MemoryRegion, offs: u32, nwords: usize) -> bool {
    mem.start + offs + (nwords as u32) * 4 <= mem.end
}

/// `nwords` whole words at offset `offs` lie inside the window.
pub open spec fn words_fit(mem: MemoryRegion, offs: u32, nwords: usize) -> bool {
    mem.start + offs + nwords * 4 <= mem.end
}

/// An access of `nwords` words at RPU address `rpu_addr`, made for
/// `processor`, succeeds: a window serves the address and the words lie in
/// it, and if words are read, the window's latency is at most two words.
pub open spec fn rpu_access_ok(
    rpu_addr: u32,
    processor: Option<Processor>,
    nwords: usize,
    read: bool,
) -> bool {
    &&& is_mapped(rpu_addr, processor)
    &&& {
        let r = spec_region(first_serving(rpu_addr, processor, 0).unwrap());
        &&& words_fit(r, (rpu_addr - r.rpu_mem_start) as u32, nwords)
        &&& read ==> r.latency <= 2
    }
}

/// The bus address of an access of `nwords` words at offset `offs` of the
/// window, or `None` when the access would run past the window's end.
pub fn raw_access_address(mem: &MemoryRegion, offs: u32, nwords: usize) -> (r: Option<u32>)
    ensures
        r == if access_fits(*mem, offs, nwords) {
            Some((mem.start + offs) as u32)
        } else {
            None::<u32>
        },
{
    let len = nwords as u32;
    if len > 0x3FFF_FFFF {
        return None;
    }
    let len_bytes = len * 4;
    if offs > u32::MAX - mem.start {
        return None;
    }
    let addr = mem.start + offs;
    if len_bytes > u32::MAX - addr {
        return None;
    }
    if addr + len_bytes <= mem.end {
        Some(addr)
    } else {
        None
    }
}

/// How one word is read: the bus address and the number of words to read
/// there, of which the last is the value.
pub open spec fn spec_read32_request(mem: MemoryRegion, offs: u32) -> (u32, usize) {
    ((mem.start + offs) as u32, (mem.latency + 1) as usize)
}

/// Reading one word at offset `offs` reads from the window's bus start plus
/// the offset, `latency + 1` words (the dummy words, then the value), and
/// the word read lies inside the window when the access fits.
pub proof fn lemma_read32_request(mem: MemoryRegion, offs: u32)
    requires
        access_fits(mem, offs, 1),
        mem.latency <= 2,
    ensures
        spec_read32_request(mem, offs).0 == mem.start + offs,
        spec_read32_request(mem, offs).1 == mem.latency + 1,
        spec_read32_request(mem, offs).0 + 4 <= mem.end,
{
}

/// The bus read that fetches the word at offset `offs` of the window, or
/// `None` when the word is not inside the window or the window's latency
/// is more than two words.
pub fn raw_read32_request(mem: &MemoryRegion, offs: u32) -> (r: Option<(u32, usize)>)
    ensures
        r == if access_fits(*mem, offs, 1) && mem.latency <= 2 {
            Some(spec_read32_request(*mem, offs))
        } else {
            None::<(u32, usize)>
        },
{
    match raw_access_address(mem, offs, 1) {
        None => None,
        Some(addr) => {
            if mem.latency <= 2 {
                Some((addr, mem.latency as usize + 1))
            } else {
                None
            }
        },
    }
}

/// The value among the words that a read of one word returned.
pub fn raw_read32_value(mem: &MemoryRegion, words: &[u32]) -> (v: u32)
    requires
        words@.len() == mem.latency + 1,
    ensures
        v == words@[mem.latency as int],
{
    words[mem.latency as usize]
}

/// The reads that fetch `nwords` words from offset `offs` of the window,
/// one word at a time, or `None` when the words are not inside the window
/// or a word cannot be read because the latency is more than two words.
pub fn raw_read_requests(mem: &MemoryRegion, offs: u32, nwords: usize) -> (r: Option<
    Vec<(u32, usize)>,
>)
    ensures
        match r {
            None => !words_fit(*mem, offs, nwords) || (nwords > 0 && mem.latency > 2),
            Some(reqs) => {
                &&& words_fit(*mem, offs, nwords)
                &&& (nwords > 0 ==> mem.latency <= 2)
                &&& reqs@.len() == nwords
                &&& forall|i: int|
                    0 <= i < nwords ==> #[trigger] reqs@[i] == spec_read32_request(
                        *mem,
                        (offs + 4 * i) as u32,
                    )
            },
        },
{
    if nwords > 0x3FFF_FFFF {
        return None;
    }
    if raw_access_address(mem, offs, nwords).is_none() {
        return None;
    }
    if nwords > 0 && mem.latency > 2 {
        return None;
    }
    let mut reqs: Vec<(u32, usize)> = Vec::new();
    let mut i: usize = 0;
    while i < nwords
        invariant
            words_fit(*mem, offs, nwords),
            nwords <= 0x3FFF_FFFF,
            nwords > 0 ==> mem.latency <= 2,
            0 <= i <= nwords,
            reqs@.len() == i,
            forall|j: int|
                0 <= j < i ==> #[trigger] reqs@[j] == spec_read32_request(
                    *mem,
                    (offs + 4 * j) as u32,
                ),
        decreases nwords - i,
    {
        let o = offs + (i as u32) * 4;
        reqs.push((mem.start + o, mem.latency as usize + 1));
        i += 1;
    }
    Some(reqs)
}

} // verus!
