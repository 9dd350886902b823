//! Boot image relocation: copying initialized regions from their load
//! location into their execution location and zero-filling the
//! zero-initialized regions, before anything else may touch memory.
//!
//! Memory is modelled as a word-granular image: a vector of 32-bit words,
//! indexed by word number. A [`Region`] describes one destination range and,
//! for copy regions, the word its contents are loaded from. The relocator
//! walks each region forward one word at a time, exactly as the startup code
//! does, and its contracts pin down every word of the image afterwards:
//! copied words equal their load-time source, zeroed words are zero, and no
//! word outside a destination range changes. An empty region (`start ==
//! end`) is a no-op.

use vstd::prelude::*;

verus! {

/// Bytes per machine word of the target; regions are word granular.
pub const WORD_BYTES: usize = 4;

/// One memory region of the boot image.
///
/// `start` and `end` delimit the destination range `[start, end)` and `load`
/// is the first word of the source range, all as word indices into the
/// memory image. Zero-fill regions leave `load` unused.
pub struct Region {
    pub start: usize,
    pub end: usize,
    pub load: usize,
}

/// Two half-open ranges `[a0, a1)` and `[b0, b1)` share no index.
pub open spec fn disjoint_ranges(a0: int, a1: int, b0: int, b1: int) -> bool {
    a1 <= b0 || b1 <= a0
}

impl Region {
    /// A region is well formed when its destination range is not inverted.
    pub open spec fn wf(self) -> bool {
        self.start <= self.end
    }

    /// Number of words the region covers.
    pub open spec fn word_count(self) -> int {
        self.end - self.start
    }

    /// Word index `i` lies in the destination range.
    pub open spec fn contains(self, i: int) -> bool {
        self.start <= i < self.end
    }

    /// Destination and source ranges lie inside an image of `n` words.
    pub open spec fn fits(self, n: int) -> bool {
        self.end <= n && self.load + self.word_count() <= n
    }

    /// The destination range alone lies inside an image of `n` words.
    pub open spec fn dest_fits(self, n: int) -> bool {
        self.end <= n
    }

    /// The source range does not overlap the destination range.
    pub open spec fn src_clear_of_dest(self) -> bool {
        disjoint_ranges(
            self.load as int,
            self.load + self.word_count(),
            self.start as int,
            self.end as int,
        )
    }

    /// Builds a region from the word-aligned byte addresses the linker
    /// hands out, dividing each by the word size.
    pub fn from_byte_addrs(start: usize, end: usize, load: usize) -> (r: Region)
        requires
            start % WORD_BYTES == 0,
            end % WORD_BYTES == 0,
            load % WORD_BYTES == 0,
            start <= end,
        ensures
            r.start == start / WORD_BYTES,
            r.end == end / WORD_BYTES,
            r.load == load / WORD_BYTES,
            r.wf(),
    {
        Region { start: start / WORD_BYTES, end: end / WORD_BYTES, load: load / WORD_BYTES }
    }
}

/// After relocation, each word of `r`'s destination equals the word of the
/// pre-relocation image at the same offset from `r.load`.
pub open spec fn region_copied(pre: Seq<u32>, post: Seq<u32>, r: Region) -> bool {
    forall|k: int| 0 <= k < r.word_count() ==> #[trigger] post[r.start + k] == pre[r.load + k]
}

/// After relocation, each word of `r`'s destination is zero.
pub open spec fn region_zeroed(post: Seq<u32>, r: Region) -> bool {
    forall|k: int| 0 <= k < r.word_count() ==> #[trigger] post[r.start + k] == 0
}

/// Copies `r.word_count()` words from the load range to the destination
/// range, lowest address first. Words outside the destination are untouched;
/// an empty region changes nothing.
pub fn copy_region(mem: &mut Vec<u32>, r: &Region)
    requires
        r.wf(),
        r.fits(old(mem)@.len() as int),
        r.src_clear_of_dest(),
    ensures
        final(mem)@.len() == old(mem)@.len(),
        region_copied(old(mem)@, final(mem)@, *r),
        forall|i: int|
            0 <= i < old(mem)@.len() && !r.contains(i) ==> #[trigger] final(mem)@[i] == old(
                mem,
            )@[i],
{
    let total: usize = mem.len();
    let n: usize = r.end - r.start;
    let mut k: usize = 0;
    while k < n
        invariant
            n == r.word_count(),
            k <= n,
            r.wf(),
            total == mem@.len(),
            r.fits(mem@.len() as int),
            r.src_clear_of_dest(),
            mem@.len() == old(mem)@.len(),
            forall|j: int| 0 <= j < k ==> #[trigger] mem@[r.start + j] == old(mem)@[r.load + j],
            forall|i: int|
                0 <= i < mem@.len() && !(r.start <= i < r.start + k) ==> mem@[i] == old(
                    mem,
                )@[i],
        decreases n - k,
    {
        let w: u32 = mem[r.load + k];
        mem[r.start + k] = w;
        k += 1;
    }
}

/// Writes zero over every word of `r`'s destination range, lowest address
/// first. Words outside the destination are untouched; an empty region
/// changes nothing.
pub fn zero_region(mem: &mut Vec<u32>, r: &Region)
    requires
        r.wf(),
        r.dest_fits(old(mem)@.len() as int),
    ensures
        final(mem)@.len() == old(mem)@.len(),
        region_zeroed(final(mem)@, *r),
        forall|i: int|
            0 <= i < old(mem)@.len() && !r.contains(i) ==> #[trigger] final(mem)@[i] == old(
                mem,
            )@[i],
{
    let n: usize = r.end - r.start;
    let mut k: usize = 0;
    while k < n
        invariant
            n == r.word_count(),
            k <= n,
            r.wf(),
            r.dest_fits(mem@.len() as int),
            mem@.len() == old(mem)@.len(),
            forall|j: int| 0 <= j < k ==> #[trigger] mem@[r.start + j] == 0,
            forall|i: int|
                0 <= i < mem@.len() && !(r.start <= i < r.start + k) ==> mem@[i] == old(
                    mem,
                )@[i],
        decreases n - k,
    {
        mem[r.start + k] = 0;
        k += 1;
    }
}

/// The eight regions the startup sequence establishes, in the order it
/// processes them: five copy regions, then three zero-fill regions.
pub struct MemoryLayout {
    /// The trap vector table, copied into fast writable memory.
    pub vector: Region,
    /// General initialized data.
    pub data: Region,
    /// Fast-path code.
    pub fast_text: Region,
    /// Fast-path data.
    pub fast_data: Region,
    /// Non-cacheable data.
    pub noncacheable_data: Region,
    /// General zero-initialized data.
    pub bss: Region,
    /// Fast-path zero-initialized data.
    pub fast_bss: Region,
    /// Non-cacheable zero-initialized data.
    pub noncacheable_bss: Region,
}

impl MemoryLayout {
    /// The half-open range `[lo, hi)` overlaps none of the eight
    /// destination ranges.
    pub open spec fn clear_of_dests(self, lo: int, hi: int) -> bool {
        &&& disjoint_ranges(lo, hi, self.vector.start as int, self.vector.end as int)
        &&& disjoint_ranges(lo, hi, self.data.start as int, self.data.end as int)
        &&& disjoint_ranges(lo, hi, self.fast_text.start as int, self.fast_text.end as int)
        &&& disjoint_ranges(lo, hi, self.fast_data.start as int, self.fast_data.end as int)
        &&& disjoint_ranges(
            lo,
            hi,
            self.noncacheable_data.start as int,
            self.noncacheable_data.end as int,
        )
        &&& disjoint_ranges(lo, hi, self.bss.start as int, self.bss.end as int)
        &&& disjoint_ranges(lo, hi, self.fast_bss.start as int, self.fast_bss.end as int)
        &&& disjoint_ranges(
            lo,
            hi,
            self.noncacheable_bss.start as int,
            self.noncacheable_bss.end as int,
        )
    }

    /// The source range of copy region `r` overlaps no destination range
    /// at all, its own included.
    pub open spec fn load_clear(self, r: Region) -> bool {
        self.clear_of_dests(r.load as int, r.load + r.word_count())
    }

    /// The destination ranges of `a` and `b` share no word.
    pub open spec fn dests_disjoint(a: Region, b: Region) -> bool {
        disjoint_ranges(a.start as int, a.end as int, b.start as int, b.end as int)
    }

    /// A well-formed layout: every region is well formed, the eight
    /// destination ranges are pairwise disjoint, and no copy region's
    /// source range overlaps any destination range. The linker is obliged
    /// to produce boundary symbols with exactly these properties.
    pub open spec fn wf(self) -> bool {
        &&& self.vector.wf()
        &&& self.data.wf()
        &&& self.fast_text.wf()
        &&& self.fast_data.wf()
        &&& self.noncacheable_data.wf()
        &&& self.bss.wf()
        &&& self.fast_bss.wf()
        &&& self.noncacheable_bss.wf()
        &&& Self::dests_disjoint(self.vector, self.data)
        &&& Self::dests_disjoint(self.vector, self.fast_text)
        &&& Self::dests_disjoint(self.vector, self.fast_data)
        &&& Self::dests_disjoint(self.vector, self.noncacheable_data)
        &&& Self::dests_disjoint(self.vector, self.bss)
        &&& Self::dests_disjoint(self.vector, self.fast_bss)
        &&& Self::dests_disjoint(self.vector, self.noncacheable_bss)
        &&& Self::dests_disjoint(self.data, self.fast_text)
        &&& Self::dests_disjoint(self.data, self.fast_data)
        &&& Self::dests_disjoint(self.data, self.noncacheable_data)
        &&& Self::dests_disjoint(self.data, self.bss)
        &&& Self::dests_disjoint(self.data, self.fast_bss)
        &&& Self::dests_disjoint(self.data, self.noncacheable_bss)
        &&& Self::dests_disjoint(self.fast_text, self.fast_data)
        &&& Self::dests_disjoint(self.fast_text, self.noncacheable_data)
        &&& Self::dests_disjoint(self.fast_text, self.bss)
        &&& Self::dests_disjoint(self.fast_text, self.fast_bss)
        &&& Self::dests_disjoint(self.fast_text, self.noncacheable_bss)
        &&& Self::dests_disjoint(self.fast_data, self.noncacheable_data)
        &&& Self::dests_disjoint(self.fast_data, self.bss)
        &&& Self::dests_disjoint(self.fast_data, self.fast_bss)
        &&& Self::dests_disjoint(self.fast_data, self.noncacheable_bss)
        &&& Self::dests_disjoint(self.noncacheable_data, self.bss)
        &&& Self::dests_disjoint(self.noncacheable_data, self.fast_bss)
        &&& Self::dests_disjoint(self.noncacheable_data, self.noncacheable_bss)
        &&& Self::dests_disjoint(self.bss, self.fast_bss)
        &&& Self::dests_disjoint(self.bss, self.noncacheable_bss)
        &&& Self::dests_disjoint(self.fast_bss, self.noncacheable_bss)
        &&& self.load_clear(self.vector)
        &&& self.load_clear(self.data)
        &&& self.load_clear(self.fast_text)
        &&& self.load_clear(self.fast_data)
        &&& self.load_clear(self.noncacheable_data)
    }

    /// Every region of the layout lies inside an image of `n` words.
    pub open spec fn fits(self, n: int) -> bool {
        &&& self.vector.fits(n)
        &&& self.data.fits(n)
        &&& self.fast_text.fits(n)
        &&& self.fast_data.fits(n)
        &&& self.noncacheable_data.fits(n)
        &&& self.bss.dest_fits(n)
        &&& self.fast_bss.dest_fits(n)
        &&& self.noncacheable_bss.dest_fits(n)
    }

    /// Word index `i` lies in some destination range of the layout.
    pub open spec fn touches(self, i: int) -> bool {
        ||| self.vector.contains(i)
        ||| self.data.contains(i)
        ||| self.fast_text.contains(i)
        ||| self.fast_data.contains(i)
        ||| self.noncacheable_data.contains(i)
        ||| self.bss.contains(i)
        ||| self.fast_bss.contains(i)
        ||| self.noncacheable_bss.contains(i)
    }
}

/// An empty region (`start == end`) is a no-op: a relocation step that,
/// as the copy and zero contracts guarantee, touches nothing outside the
/// region's destination range then leaves the whole image unchanged.
pub proof fn lemma_empty_region_is_noop(pre: Seq<u32>, post: Seq<u32>, r: Region)
    requires
        r.start == r.end,
        pre.len() == post.len(),
        forall|i: int| 0 <= i < pre.len() && !r.contains(i) ==> #[trigger] post[i] == pre[i],
    ensures
        post == pre,
{
    assert(post =~= pre);
}

/// A relocation step that writes only inside `w`'s destination range
/// leaves an already-copied region `r` intact when the two destination
/// ranges are disjoint.
proof fn lemma_copied_preserved(pre: Seq<u32>, mid: Seq<u32>, post: Seq<u32>, r: Region, w: Region)
    requires
        region_copied(pre, mid, r),
        r.wf(),
        r.end <= mid.len(),
        MemoryLayout::dests_disjoint(r, w),
        forall|i: int| 0 <= i < mid.len() && !w.contains(i) ==> #[trigger] post[i] == mid[i],
    ensures
        region_copied(pre, post, r),
{
    assert forall|k: int| 0 <= k < r.word_count() implies #[trigger] post[r.start + k] == pre[
        r.load + k
    ] by {
        assert(!w.contains(r.start + k));
        assert(post[r.start + k] == mid[r.start + k]);
    }
}

/// A copy whose source range still holds its original words copies the
/// original words: if `post` was copied from `mid`, and `mid` agrees with
/// `pre` across the source range, then `post` was copied from `pre`.
proof fn lemma_copied_source_stable(pre: Seq<u32>, mid: Seq<u32>, post: Seq<u32>, r: Region)
    requires
        region_copied(mid, post, r),
        forall|k: int| 0 <= k < r.word_count() ==> #[trigger] mid[r.load + k] == pre[r.load + k],
    ensures
        region_copied(pre, post, r),
{
}

/// The same preservation for an already-zeroed region.
proof fn lemma_zeroed_preserved(mid: Seq<u32>, post: Seq<u32>, r: Region, w: Region)
    requires
        region_zeroed(mid, r),
        r.wf(),
        r.end <= mid.len(),
        MemoryLayout::dests_disjoint(r, w),
        forall|i: int| 0 <= i < mid.len() && !w.contains(i) ==> #[trigger] post[i] == mid[i],
    ensures
        region_zeroed(post, r),
{
    assert forall|k: int| 0 <= k < r.word_count() implies #[trigger] post[r.start + k] == 0 by {
        assert(!w.contains(r.start + k));
        assert(post[r.start + k] == mid[r.start + k]);
    }
}

/// Establishes the full memory image before interrupts are armed and the
/// application entry point runs: copies the vector table, general data,
/// fast-path code, fast-path data and non-cacheable data from their load
/// ranges, in that order, then zeroes the general, fast-path and
/// non-cacheable zero-initialized regions.
///
/// Afterwards every copy destination holds its load-time source words,
/// every zero destination holds zeroes, and no word outside the eight
/// destination ranges has changed.
pub fn relocate_all(mem: &mut Vec<u32>, layout: &MemoryLayout)
    requires
        layout.wf(),
        layout.fits(old(mem)@.len() as int),
    ensures
        final(mem)@.len() == old(mem)@.len(),
        region_copied(old(mem)@, final(mem)@, layout.vector),
        region_copied(old(mem)@, final(mem)@, layout.data),
        region_copied(old(mem)@, final(mem)@, layout.fast_text),
        region_copied(old(mem)@, final(mem)@, layout.fast_data),
        region_copied(old(mem)@, final(mem)@, layout.noncacheable_data),
        region_zeroed(final(mem)@, layout.bss),
        region_zeroed(final(mem)@, layout.fast_bss),
        region_zeroed(final(mem)@, layout.noncacheable_bss),
        forall|i: int|
            0 <= i < old(mem)@.len() && !layout.touches(i) ==> #[trigger] final(mem)@[i] == old(
                mem,
            )@[i],
{
    let ghost m0 = mem@;
    copy_region(mem, &layout.vector);
    let ghost m1 = mem@;
    copy_region(mem, &layout.data);
    proof {
        let r = layout.data;
        assert forall|k: int| 0 <= k < r.word_count() implies #[trigger] m1[r.load + k] == m0[
            r.load + k
        ] by {
            assert(!layout.vector.contains(r.load + k));
        }
        lemma_copied_source_stable(m0, m1, mem@, r);
        lemma_copied_preserved(m0, m1, mem@, layout.vector, layout.data);
    }
    let ghost m2 = mem@;
    copy_region(mem, &layout.fast_text);
    proof {
        let r = layout.fast_text;
        assert forall|k: int| 0 <= k < r.word_count() implies #[trigger] m2[r.load + k] == m0[
            r.load + k
        ] by {
            assert(!layout.vector.contains(r.load + k));
            assert(!layout.data.contains(r.load + k));
            assert(m1[r.load + k] == m0[r.load + k]);
        }
        lemma_copied_source_stable(m0, m2, mem@, r);
        lemma_copied_preserved(m0, m2, mem@, layout.vector, layout.fast_text);
        lemma_copied_preserved(m0, m2, mem@, layout.data, layout.fast_text);
    }
    let ghost m3 = mem@;
    copy_region(mem, &layout.fast_data);
    proof {
        let r = layout.fast_data;
        assert forall|k: int| 0 <= k < r.word_count() implies #[trigger] m3[r.load + k] == m0[
            r.load + k
        ] by {
            assert(!layout.vector.contains(r.load + k));
            assert(!layout.data.contains(r.load + k));
            assert(!layout.fast_text.contains(r.load + k));
            assert(m1[r.load + k] == m0[r.load + k]);
            assert(m2[r.load + k] == m1[r.load + k]);
        }
        lemma_copied_source_stable(m0, m3, mem@, r);
        lemma_copied_preserved(m0, m3, mem@, layout.vector, layout.fast_data);
        lemma_copied_preserved(m0, m3, mem@, layout.data, layout.fast_data);
        lemma_copied_preserved(m0, m3, mem@, layout.fast_text, layout.fast_data);
    }
    let ghost m4 = mem@;
    copy_region(mem, &layout.noncacheable_data);
    proof {
        let r = layout.noncacheable_data;
        assert forall|k: int| 0 <= k < r.word_count() implies #[trigger] m4[r.load + k] == m0[
            r.load + k
        ] by {
            assert(!layout.vector.contains(r.load + k));
            assert(!layout.data.contains(r.load + k));
            assert(!layout.fast_text.contains(r.load + k));
            assert(!layout.fast_data.contains(r.load + k));
            assert(m1[r.load + k] == m0[r.load + k]);
            assert(m2[r.load + k] == m1[r.load + k]);
            assert(m3[r.load + k] == m2[r.load + k]);
        }
        lemma_copied_source_stable(m0, m4, mem@, r);
        lemma_copied_preserved(m0, m4, mem@, layout.vector, layout.noncacheable_data);
        lemma_copied_preserved(m0, m4, mem@, layout.data, layout.noncacheable_data);
        lemma_copied_preserved(m0, m4, mem@, layout.fast_text, layout.noncacheable_data);
        lemma_copied_preserved(m0, m4, mem@, layout.fast_data, layout.noncacheable_data);
    }
    let ghost m5 = mem@;
    zero_region(mem, &layout.bss);
    proof {
        lemma_copied_preserved(m0, m5, mem@, layout.vector, layout.bss);
        lemma_copied_preserved(m0, m5, mem@, layout.data, layout.bss);
        lemma_copied_preserved(m0, m5, mem@, layout.fast_text, layout.bss);
        lemma_copied_preserved(m0, m5, mem@, layout.fast_data, layout.bss);
        lemma_copied_preserved(m0, m5, mem@, layout.noncacheable_data, layout.bss);
    }
    let ghost m6 = mem@;
    zero_region(mem, &layout.fast_bss);
    proof {
        lemma_copied_preserved(m0, m6, mem@, layout.vector, layout.fast_bss);
        lemma_copied_preserved(m0, m6, mem@, layout.data, layout.fast_bss);
        lemma_copied_preserved(m0, m6, mem@, layout.fast_text, layout.fast_bss);
        lemma_copied_preserved(m0, m6, mem@, layout.fast_data, layout.fast_bss);
        lemma_copied_preserved(m0, m6, mem@, layout.noncacheable_data, layout.fast_bss);
        lemma_zeroed_preserved(m6, mem@, layout.bss, layout.fast_bss);
    }
    let ghost m7 = mem@;
    zero_region(mem, &layout.noncacheable_bss);
    proof {
        lemma_copied_preserved(m0, m7, mem@, layout.vector, layout.noncacheable_bss);
        lemma_copied_preserved(m0, m7, mem@, layout.data, layout.noncacheable_bss);
        lemma_copied_preserved(m0, m7, mem@, layout.fast_text, layout.noncacheable_bss);
        lemma_copied_preserved(m0, m7, mem@, layout.fast_data, layout.noncacheable_bss);
        lemma_copied_preserved(m0, m7, mem@, layout.noncacheable_data, layout.noncacheable_bss);
        lemma_zeroed_preserved(m7, mem@, layout.bss, layout.noncacheable_bss);
        lemma_zeroed_preserved(m7, mem@, layout.fast_bss, layout.noncacheable_bss);
    }
}

} // verus!
