use vstd::prelude::*;
use crate::util::{
    is_pow2, lemma_pow2_divides_16, lemma_pow2_multiple_of_16, round_up_to_nearest_pow2,
    spec_next_pow2, PAGE_SIZE,
};

verus! {

/// Size of the header that precedes every region of the heap.
pub const HEADER_SIZE: usize = 16;

/// Memory type of memory that is free for use.
pub const CONVENTIONAL_MEMORY: u32 = 7;

/// Memory type of the code of the loader.
pub const LOADER_CODE: u32 = 1;

/// Memory type of the data of the loader.
pub const LOADER_DATA: u32 = 2;

/// One entry of the memory map that the firmware hands over.
#[derive(Debug, Copy, Clone, PartialEq, Eq, Structural)]
pub struct EfiMemoryDescriptor {
    pub memory_type: u32,
    pub physical_start: u64,
    pub virtual_start: u64,
    pub number_of_pages: u64,
    pub attribute: u64,
}

/// The header of a region of the heap: where it lies, how many bytes the
/// region has, the header included, and whether the region is in use.
#[derive(Debug, Copy, Clone, PartialEq, Eq, Structural)]
pub struct Header {
    pub addr: usize,
    pub size: u32,
    pub is_allocated: bool,
}

/// What a header gives out of its region to meet a request.
#[derive(Debug, Copy, Clone, PartialEq, Eq, Structural)]
pub struct Split {
    /// The address handed to the caller.
    pub allocated_addr: usize,
    /// The header of the region handed out, which ends where the request
    /// ends.
    pub allocated: Header,
    /// The header of what is left behind the region handed out, if
    /// anything is.
    pub padding: Option<Header>,
    /// The size that is left to the header that gave.
    pub shrunk_size: u32,
}

/// What the header `h` gives where `s` bytes are set aside at a multiple of
/// `a`: the region handed out lies as high in the region of `h` as `a`
/// allows, with its header before it; what lies behind it gets a header of
/// its own; and `h` keeps what lies before.
pub open spec fn split_with(h: Header, s: int, a: int) -> Split {
    let addr = align_down(h.spec_end_addr() - s, a);
    Split {
        allocated_addr: addr as usize,
        allocated: Header {
            addr: (addr - HEADER_SIZE) as usize,
            size: (s + HEADER_SIZE) as u32,
            is_allocated: true,
        },
        padding: if addr + s != h.spec_end_addr() {
            Some(
                Header {
                    addr: (addr + s) as usize,
                    size: (h.spec_end_addr() - (addr + s)) as u32,
                    is_allocated: false,
                },
            )
        } else {
            None
        },
        shrunk_size: (addr - HEADER_SIZE - h.addr) as u32,
    }
}

/// `x` rounded down to a multiple of `a`.
pub open spec fn align_down(x: int, a: int) -> int {
    x - x % a
}

/// The size that is set aside for a request of `size` bytes: the next
/// power of two, and at least the size of a header.
pub open spec fn effective_size(size: int) -> int {
    if spec_next_pow2(size) < HEADER_SIZE {
        HEADER_SIZE as int
    } else {
        spec_next_pow2(size)
    }
}

/// The alignment that a request for `align` gets: at least the size of a
/// header.
pub open spec fn effective_align(align: int) -> int {
    if align < HEADER_SIZE {
        HEADER_SIZE as int
    } else {
        align
    }
}

/// Whether a request for `size` bytes can be met at all: the size can be
/// rounded up, and the region fits the size field of a header.
pub open spec fn is_request(size: int) -> bool {
    1 <= size <= usize::MAX / 2 + 1 && effective_size(size) + HEADER_SIZE <= u32::MAX
}

impl Header {
    /// Whether the header lies where a header can lie: region and header
    /// are multiples of the header size, the region holds its header, and
    /// it ends within the address space.
    pub open spec fn wf(&self) -> bool {
        &&& self.addr % HEADER_SIZE == 0
        &&& self.size % (HEADER_SIZE as u32) == 0
        &&& self.size >= HEADER_SIZE
        &&& self.addr + self.size <= usize::MAX
    }

    /// The address behind the region.
    pub open spec fn spec_end_addr(&self) -> int {
        self.addr + self.size
    }

    /// Whether the region is large enough for `size` bytes and three
    /// headers.
    pub open spec fn spec_can_provide(&self, size: int) -> bool {
        self.size >= size + HEADER_SIZE * 3
    }

    /// The address that is handed out for a request of `size` bytes at
    /// alignment `align`: as high in the region as the alignment allows.
    pub open spec fn spec_allocated_addr(&self, size: int, align: int) -> int {
        align_down(self.spec_end_addr() - effective_size(size), effective_align(align))
    }

    /// Whether the header meets a request of `size` bytes at alignment
    /// `align`: it is free, it is large enough, and the header of the
    /// region handed out lies behind its own.
    pub open spec fn provides(&self, size: int, align: int) -> bool {
        &&& !self.is_allocated
        &&& is_request(size)
        &&& self.spec_can_provide(effective_size(size))
        &&& self.spec_allocated_addr(size, align) - HEADER_SIZE >= self.addr + HEADER_SIZE
    }

    /// What the header gives to meet a request that it meets.
    pub open spec fn split(&self, size: int, align: int) -> Split {
        split_with(*self, effective_size(size), effective_align(align))
    }

    /// Whether the region is large enough for `size` bytes and three
    /// headers.
    pub fn can_provide(&self, size: usize, _align: usize) -> (r: bool)
        ensures
            r == self.spec_can_provide(size as int),
    {
        if size > usize::MAX - HEADER_SIZE * 3 {
            false
        } else {
            self.size as usize >= size + HEADER_SIZE * 3
        }
    }

    /// Whether the region is in use.
    pub fn is_allocated(&self) -> (r: bool)
        ensures
            r == self.is_allocated,
    {
        self.is_allocated
    }

    /// Size of the region in bytes, the header included.
    pub fn size(&self) -> (r: usize)
        ensures
            r == self.size,
    {
        self.size as usize
    }

    /// The address behind the region.
    pub fn end_addr(&self) -> (r: usize)
        requires
            self.wf(),
        ensures
            r == self.spec_end_addr(),
    {
        self.addr + self.size as usize
    }

    /// The header of a free region of `size` bytes at `addr`.
    pub fn new_from_addr(addr: usize, size: u32) -> (r: Header)
        ensures
            r == (Header { addr, size, is_allocated: false }),
    {
        Header { addr, size, is_allocated: false }
    }

    /// Meets a request of `size` bytes at alignment `align` out of the
    /// region, if it can: the header keeps the low part of the region, and
    /// the high part is returned with its own header, and with a third
    /// header for what lies behind it.
    pub fn provide(&mut self, size: usize, align: usize) -> (r: Option<Split>)
        requires
            old(self).wf(),
            is_pow2(align as int),
        ensures
            old(self).provides(size as int, align as int) ==> r == Some(
                old(self).split(size as int, align as int),
            ) && *final(self) == (Header {
                size: old(self).split(size as int, align as int).shrunk_size,
                ..*old(self)
            }),
            !old(self).provides(size as int, align as int) ==> r is None && *final(self) == *old(
                self,
            ),
            r matches Some(sp) ==> split_wf(*old(self), *final(self), sp, align as int),
    {
        let size = match round_up_to_nearest_pow2(size) {
            Ok(p) => if p < HEADER_SIZE {
                HEADER_SIZE
            } else {
                p
            },
            Err(_) => {
                return None;
            },
        };
        let old_align = align;
        let align = if align < HEADER_SIZE {
            HEADER_SIZE
        } else {
            align
        };
        if self.is_allocated() || !self.can_provide(size, align) {
            return None;
        }
        if size > 0xffff_ffff - HEADER_SIZE {
            return None;
        }
        let end = self.end_addr();
        let top = end - size;
        proof {
            assert(is_pow2(16)) by {
                reveal_with_fuel(is_pow2, 6);
            }
            lemma_align_down(top as int, align as int);
        }
        let rem = top % align;
        let allocated_addr = top - rem;
        if allocated_addr < self.addr + 2 * HEADER_SIZE {
            return None;
        }
        proof {
            lemma_provide(*self, size as int, old_align as int, align as int);
        }
        let allocated = Header {
            addr: allocated_addr - HEADER_SIZE,
            size: (size + HEADER_SIZE) as u32,
            is_allocated: true,
        };
        let padding = if allocated_addr + size != end {
            Some(
                Header {
                    addr: allocated_addr + size,
                    size: (end - (allocated_addr + size)) as u32,
                    is_allocated: false,
                },
            )
        } else {
            None
        };
        let shrunk_size = (allocated_addr - HEADER_SIZE - self.addr) as u32;
        self.size = shrunk_size;
        Some(Split { allocated_addr, allocated, padding, shrunk_size })
    }
}

/// Whether the split `sp` of the header `before`, which left `after`, is
/// sound: the three regions are well formed, lie one behind the other, and
/// fill the region of `before` exactly; and the address handed out is not
/// null and is a multiple of the alignment `align` asked for.
pub open spec fn split_wf(before: Header, after: Header, sp: Split, align: int) -> bool {
    &&& after.wf()
    &&& after.addr == before.addr
    &&& after.is_allocated == before.is_allocated
    &&& after.size == sp.shrunk_size
    &&& sp.allocated.wf()
    &&& sp.allocated.is_allocated
    &&& sp.allocated.addr == after.spec_end_addr()
    &&& sp.allocated_addr == sp.allocated.addr + HEADER_SIZE
    &&& sp.allocated_addr != 0
    &&& sp.allocated_addr as int % align == 0
    &&& match sp.padding {
        Some(p) => p.wf() && !p.is_allocated && p.addr == sp.allocated.spec_end_addr()
            && p.spec_end_addr() == before.spec_end_addr(),
        None => sp.allocated.spec_end_addr() == before.spec_end_addr(),
    }
}

/// Rounding down to a multiple of `a` gives a multiple of `a` that is
/// less than `a` below.
pub proof fn lemma_align_down(x: int, a: int)
    requires
        0 <= x,
        0 < a,
    ensures
        align_down(x, a) % a == 0,
        x - a < align_down(x, a) <= x,
        0 <= align_down(x, a),
        0 <= x % a < a,
{
    vstd::arithmetic::div_mod::lemma_fundamental_div_mod(x, a);
    vstd::arithmetic::div_mod::lemma_mod_multiples_basic(x / a, a);
    assert(a * (x / a) == (x / a) * a) by (nonlinear_arith);
}

/// A multiple of a multiple of `m` is a multiple of `m`.
pub proof fn lemma_multiple_chain(y: int, a: int, m: int)
    requires
        0 < m,
        0 < a,
        y % a == 0,
        a % m == 0,
    ensures
        y % m == 0,
{
    vstd::arithmetic::div_mod::lemma_fundamental_div_mod(y, a);
    vstd::arithmetic::div_mod::lemma_fundamental_div_mod(a, m);
    let q = y / a;
    let p = a / m;
    assert(y == (p * q) * m) by (nonlinear_arith)
        requires
            y == a * q,
            a == m * p,
    ;
    vstd::arithmetic::div_mod::lemma_mod_multiples_basic(p * q, m);
}

/// What a header that meets a request gives is a sound split.
pub proof fn lemma_provide(h: Header, s: int, align: int, a: int)
    requires
        h.wf(),
        is_pow2(s),
        is_pow2(align),
        s >= HEADER_SIZE,
        a == effective_align(align),
        s + HEADER_SIZE <= u32::MAX,
        h.size >= s + HEADER_SIZE * 3,
        align_down(h.spec_end_addr() - s, a) >= h.addr + 2 * HEADER_SIZE,
    ensures
        split_wf(
            h,
            Header { size: split_with(h, s, a).shrunk_size, ..h },
            split_with(h, s, a),
            align,
        ),
        align_down(h.spec_end_addr() - s, a) + s <= h.spec_end_addr(),
{
    let end = h.spec_end_addr();
    let addr = align_down(end - s, a);
    assert(is_pow2(16)) by {
        reveal_with_fuel(is_pow2, 6);
    }
    lemma_align_down(end - s, a);
    lemma_pow2_multiple_of_16(s);
    lemma_pow2_multiple_of_16(a);
    lemma_multiple_chain(addr, a, 16);
    if align < HEADER_SIZE {
        lemma_pow2_divides_16(align);
        lemma_multiple_chain(addr, 16, align);
    }
    assert(addr % align == 0);
    let e1 = h.addr as int;
    let e2 = h.size as int;
    assert((e1 + e2 - (addr + s)) % 16 == 0 && (addr - 16 - e1) % 16 == 0 && (addr - 16) % 16 == 0
        && (addr + s) % 16 == 0 && (s + 16) % 16 == 0) by (nonlinear_arith)
        requires
            e1 % 16 == 0,
            e2 % 16 == 0,
            addr % 16 == 0,
            s % 16 == 0,
    ;
    let sp = split_with(h, s, a);
    let after = Header { size: sp.shrunk_size, ..h };
    assert(sp.allocated_addr == addr);
    assert(sp.allocated.addr == addr - 16);
    assert(sp.allocated.size == s + 16);
    assert(sp.shrunk_size == addr - 16 - e1);
    assert(after.wf());
    assert(sp.allocated.wf());
    if addr + s != end {
        assert(sp.padding == Some(
            Header { addr: (addr + s) as usize, size: (end - (addr + s)) as u32, is_allocated: false },
        ));
        assert(end - (addr + s) >= 16);
        assert(sp.padding->0.wf());
    }
    assert(sp.allocated.addr == after.spec_end_addr());
    assert(sp.allocated_addr as int % align == 0);
}

/// Whether the regions of two headers share no byte.
pub open spec fn disjoint(a: Header, b: Header) -> bool {
    a.spec_end_addr() <= b.addr || b.spec_end_addr() <= a.addr
}

/// Whether the region of `a` lies within the region of `b`.
pub open spec fn within(a: Header, b: Header) -> bool {
    b.addr <= a.addr && a.spec_end_addr() <= b.spec_end_addr()
}

/// Whether the headers are well formed and no two of their regions share
/// a byte.
pub open spec fn heap_wf(headers: Seq<Header>) -> bool {
    &&& forall|i: int| 0 <= i < headers.len() ==> (#[trigger] headers[i]).wf()
    &&& forall|i: int, j: int|
        0 <= i < j < headers.len() ==> disjoint(#[trigger] headers[i], #[trigger] headers[j])
}

/// The chain of headers after the header at `k` gave the split `sp`: the
/// header that gave is followed by the header of the region handed out,
/// then by that of the padding, then by what followed before.
pub open spec fn chain_after(headers: Seq<Header>, k: int, sp: Split) -> Seq<Header> {
    let shrunk = Header { size: sp.shrunk_size, ..headers[k] };
    let head = headers.subrange(0, k).push(shrunk).push(sp.allocated);
    let tail = headers.subrange(k + 1, headers.len() as int);
    match sp.padding {
        Some(p) => head.push(p) + tail,
        None => head + tail,
    }
}

/// The index of the first header that meets the request, if one does.
pub open spec fn first_provider(headers: Seq<Header>, size: int, align: int) -> Option<int>
    decreases headers.len(),
{
    if headers.len() == 0 {
        None
    } else if headers[0].provides(size, align) {
        Some(0)
    } else {
        match first_provider(headers.drop_first(), size, align) {
            Some(k) => Some(k + 1),
            None => None,
        }
    }
}

/// A header that meets the request, before which none does, is the first.
pub proof fn lemma_first_provider(headers: Seq<Header>, size: int, align: int, k: int)
    requires
        0 <= k <= headers.len(),
        k < headers.len() ==> headers[k].provides(size, align),
        forall|j: int| 0 <= j < k ==> !(#[trigger] headers[j]).provides(size, align),
    ensures
        first_provider(headers, size, align) == (if k < headers.len() {
            Some(k)
        } else {
            None::<int>
        }),
    decreases headers.len(),
{
    if headers.len() > 0 && k > 0 {
        let rest = headers.drop_first();
        assert(!headers[0].provides(size, align));
        assert forall|j: int| 0 <= j < k - 1 implies !(#[trigger] rest[j]).provides(
            size,
            align,
        ) by {
            assert(rest[j] == headers[j + 1]);
        }
        lemma_first_provider(rest, size, align, k - 1);
    }
}

/// Replacing a header by one whose region lies within its own keeps the
/// heap well formed.
pub proof fn lemma_heap_update(headers: Seq<Header>, k: int, h: Header)
    requires
        heap_wf(headers),
        0 <= k < headers.len(),
        h.wf(),
        within(h, headers[k]),
    ensures
        heap_wf(headers.update(k, h)),
{
    let s = headers.update(k, h);
    assert forall|i: int, j: int| 0 <= i < j < s.len() implies disjoint(
        #[trigger] s[i],
        #[trigger] s[j],
    ) by {
        assert(disjoint(headers[i], headers[j]));
    }
}

/// Inserting a header whose region shares no byte with any other keeps the
/// heap well formed.
pub proof fn lemma_heap_insert(headers: Seq<Header>, k: int, h: Header)
    requires
        heap_wf(headers),
        0 <= k <= headers.len(),
        h.wf(),
        forall|i: int| 0 <= i < headers.len() ==> disjoint(#[trigger] headers[i], h),
    ensures
        heap_wf(headers.insert(k, h)),
{
    let s = headers.insert(k, h);
    assert forall|i: int| 0 <= i < s.len() implies (#[trigger] s[i]).wf() by {
        if i < k {
            assert(s[i] == headers[i]);
        } else if i > k {
            assert(s[i] == headers[i - 1]);
        }
    }
    assert forall|i: int, j: int| 0 <= i < j < s.len() implies disjoint(
        #[trigger] s[i],
        #[trigger] s[j],
    ) by {
        let oi = if i < k {
            i
        } else {
            i - 1
        };
        let oj = if j < k {
            j
        } else {
            j - 1
        };
        if i != k && j != k {
            assert(s[i] == headers[oi]);
            assert(s[j] == headers[oj]);
            assert(disjoint(headers[oi], headers[oj]));
        } else if i == k {
            assert(s[j] == headers[oj]);
            assert(disjoint(headers[oj], h));
        } else {
            assert(s[i] == headers[oi]);
            assert(disjoint(headers[oi], h));
        }
    }
}

/// The first-fit heap allocator: the chain of headers of all regions, from
/// the header reached first.
pub struct FirstFitAllocator {
    headers: Vec<Header>,
}

impl View for FirstFitAllocator {
    type V = Seq<Header>;

    closed spec fn view(&self) -> Seq<Header> {
        self.headers@
    }
}

/// Whether the descriptor describes memory that goes to the heap.
pub open spec fn is_conventional(d: EfiMemoryDescriptor) -> bool {
    d.memory_type == CONVENTIONAL_MEMORY
}

/// Whether the memory of the descriptor can become a region of the heap:
/// it starts at a multiple of the header size, has at least one page, and
/// its size fits the size field of a header and ends within the address
/// space.
pub open spec fn is_usable(d: EfiMemoryDescriptor) -> bool {
    &&& d.physical_start % (HEADER_SIZE as u64) == 0
    &&& 1 <= d.number_of_pages
    &&& d.number_of_pages * PAGE_SIZE <= u32::MAX
    &&& d.physical_start + d.number_of_pages * PAGE_SIZE <= usize::MAX
}

/// The header of the free region that the descriptor becomes.
pub open spec fn region_of(d: EfiMemoryDescriptor) -> Header {
    Header {
        addr: d.physical_start as usize,
        size: (d.number_of_pages * PAGE_SIZE) as u32,
        is_allocated: false,
    }
}

/// The chain of headers after the first `n` descriptors of `map` were
/// taken in: each that describes conventional memory stands before those
/// taken in earlier.
pub open spec fn chain_with(headers: Seq<Header>, map: Seq<EfiMemoryDescriptor>, n: int) -> Seq<
    Header,
>
    decreases n,
{
    if n <= 0 {
        headers
    } else if is_conventional(map[n - 1]) {
        seq![region_of(map[n - 1])] + chain_with(headers, map, n - 1)
    } else {
        chain_with(headers, map, n - 1)
    }
}

/// Whether `h` was in `headers` or is the region of one of the first `n`
/// descriptors of `map`.
pub open spec fn came_from(
    h: Header,
    headers: Seq<Header>,
    map: Seq<EfiMemoryDescriptor>,
    n: int,
) -> bool {
    (exists|j: int| 0 <= j < n && is_conventional(#[trigger] map[j]) && h == region_of(map[j]))
        || (exists|j: int| 0 <= j < headers.len() && h == #[trigger] headers[j])
}

/// Whether the conventional memory in `map` can be added to the heap with
/// the chain `headers`: each descriptor is usable, and its memory shares no
/// byte with a region of the heap or with the memory of another
/// descriptor.
pub open spec fn map_fits(headers: Seq<Header>, map: Seq<EfiMemoryDescriptor>) -> bool {
    &&& forall|i: int|
        0 <= i < map.len() && is_conventional(#[trigger] map[i]) ==> is_usable(map[i])
    &&& forall|i: int, j: int|
        0 <= i < j < map.len() && is_conventional(#[trigger] map[i]) && is_conventional(
            #[trigger] map[j],
        ) ==> disjoint(region_of(map[i]), region_of(map[j]))
    &&& forall|i: int, k: int|
        0 <= i < map.len() && 0 <= k < headers.len() && is_conventional(#[trigger] map[i])
            ==> disjoint(#[trigger] headers[k], region_of(map[i]))
}

impl FirstFitAllocator {
    /// Whether the heap is well formed.
    pub open spec fn wf(&self) -> bool {
        heap_wf(self@)
    }

    /// An allocator without memory.
    pub fn new() -> (r: FirstFitAllocator)
        ensures
            r@ == Seq::<Header>::empty(),
            r.wf(),
    {
        FirstFitAllocator { headers: Vec::new() }
    }

    /// The chain of headers, from the header reached first.
    pub fn headers(&self) -> (r: &Vec<Header>)
        ensures
            r@ == self@,
    {
        &self.headers
    }

    /// Sets `size` bytes aside at a multiple of `align`, which must be a
    /// power of two, and returns their address, or null where no region
    /// meets the request.
    ///
    /// The first header of the chain that meets the request gives: its
    /// region is split, and the headers of the parts follow it in the
    /// chain.
    pub fn alloc_with_options(&mut self, size: usize, align: usize) -> (r: usize)
        requires
            old(self).wf(),
            is_pow2(align as int),
        ensures
            final(self).wf(),
            match first_provider(old(self)@, size as int, align as int) {
                Some(k) => {
                    let sp = old(self)@[k].split(size as int, align as int);
                    r == sp.allocated_addr && final(self)@ == chain_after(old(self)@, k, sp)
                },
                None => r == 0 && final(self)@ == old(self)@,
            },
            r != 0 ==> r % align == 0,
    {
        let n = self.headers.len();
        let mut i: usize = 0;
        while i < n
            invariant
                i <= n,
                n == self.headers@.len(),
                *self == *old(self),
                self.wf(),
                is_pow2(align as int),
                forall|j: int|
                    0 <= j < i ==> !(#[trigger] self.headers@[j]).provides(
                        size as int,
                        align as int,
                    ),
            decreases n - i,
        {
            let mut h = self.headers[i];
            match h.provide(size, align) {
                Some(sp) => {
                    proof {
                        lemma_first_provider(self.headers@, size as int, align as int, i as int);
                        lemma_chain_after(self.headers@, i as int, h, sp);
                    }
                    self.headers.set(i, h);
                    self.headers.insert(i + 1, sp.allocated);
                    let longer = self.headers.len();
                    match sp.padding {
                        Some(p) => {
                            self.headers.insert(i + 2, p);
                        },
                        None => {},
                    }
                    assert(self.headers@ =~= chain_after(old(self)@, i as int, sp));
                    return sp.allocated_addr;
                },
                None => {},
            }
            i = i + 1;
        }
        proof {
            lemma_first_provider(self.headers@, size as int, align as int, n as int);
        }
        0
    }

    /// Gives the region at `ptr` back: the header before it is marked as
    /// free. Neighbouring free regions are not joined. An address that no
    /// header precedes changes nothing.
    pub fn dealloc(&mut self, ptr: usize)
        requires
            old(self).wf(),
        ensures
            final(self).wf(),
            final(self)@.len() == old(self)@.len(),
            forall|i: int|
                0 <= i < old(self)@.len() ==> #[trigger] final(self)@[i] == (if old(self)@[i].addr
                    + HEADER_SIZE == ptr {
                    Header { is_allocated: false, ..old(self)@[i] }
                } else {
                    old(self)@[i]
                }),
    {
        let n = self.headers.len();
        let mut i: usize = 0;
        while i < n
            invariant
                i <= n,
                n == self.headers@.len(),
                n == old(self)@.len(),
                self.wf(),
                forall|j: int|
                    0 <= j < n ==> #[trigger] self.headers@[j] == (if j < i && old(self)@[j].addr
                        + HEADER_SIZE == ptr {
                        Header { is_allocated: false, ..old(self)@[j] }
                    } else {
                        old(self)@[j]
                    }),
            decreases n - i,
        {
            let h = self.headers[i];
            if h.addr <= ptr && ptr - h.addr == HEADER_SIZE {
                proof {
                    lemma_heap_update(
                        self.headers@,
                        i as int,
                        Header { is_allocated: false, ..h },
                    );
                }
                self.headers.set(i, Header { addr: h.addr, size: h.size, is_allocated: false });
            }
            i = i + 1;
        }
    }

    /// Adds the memory of the descriptor `desc` to the heap as one free
    /// region, at the head of the chain.
    pub fn add_free_from_descriptor(&mut self, desc: &EfiMemoryDescriptor)
        requires
            old(self).wf(),
            is_usable(*desc),
            forall|k: int|
                0 <= k < old(self)@.len() ==> disjoint(#[trigger] old(self)@[k], region_of(*desc)),
        ensures
            final(self).wf(),
            final(self)@ == seq![region_of(*desc)] + old(self)@,
    {
        let size: u64 = desc.number_of_pages * (PAGE_SIZE as u64);
        let header = Header::new_from_addr(desc.physical_start as usize, size as u32);
        proof {
            assert(header.wf()) by {
                let a = desc.physical_start as int;
                let p = desc.number_of_pages as int;
                assert((p * 4096) % 16 == 0) by (nonlinear_arith);
            }
            lemma_heap_insert(self.headers@, 0, header);
        }
        self.headers.insert(0, header);
        assert(self.headers@ =~= seq![region_of(*desc)] + old(self)@);
    }

    /// Takes the conventional memory of the memory map into the heap, one
    /// free region for each descriptor.
    pub fn init_with_mmap(&mut self, memory_map: &Vec<EfiMemoryDescriptor>)
        requires
            old(self).wf(),
            map_fits(old(self)@, memory_map@),
        ensures
            final(self).wf(),
            final(self)@ == chain_with(old(self)@, memory_map@, memory_map@.len() as int),
    {
        let n = memory_map.len();
        let mut i: usize = 0;
        assert forall|k: int| 0 <= k < self@.len() implies came_from(
            #[trigger] self@[k],
            old(self)@,
            memory_map@,
            0,
        ) by {
            assert(self@[k] == old(self)@[k]);
        }
        while i < n
            invariant
                i <= n,
                n == memory_map@.len(),
                self.wf(),
                map_fits(old(self)@, memory_map@),
                self@ == chain_with(old(self)@, memory_map@, i as int),
                forall|k: int|
                    0 <= k < self@.len() ==> came_from(
                        #[trigger] self@[k],
                        old(self)@,
                        memory_map@,
                        i as int,
                    ),
            decreases n - i,
        {
            let e = memory_map[i];
            let ghost before = self@;
            if e.memory_type == CONVENTIONAL_MEMORY {
                proof {
                    assert forall|k: int| 0 <= k < self@.len() implies disjoint(
                        #[trigger] self@[k],
                        region_of(e),
                    ) by {
                        let h = self@[k];
                        assert(came_from(h, old(self)@, memory_map@, i as int));
                        if exists|j: int|
                            0 <= j < i && is_conventional(#[trigger] memory_map@[j]) && h
                                == region_of(memory_map@[j]) {
                            let j = choose|j: int|
                                0 <= j < i && is_conventional(#[trigger] memory_map@[j]) && h
                                    == region_of(memory_map@[j]);
                            assert(disjoint(
                                region_of(memory_map@[j]),
                                region_of(memory_map@[i as int]),
                            ));
                        } else {
                            let j = choose|j: int|
                                0 <= j < old(self)@.len() && h == #[trigger] old(self)@[j];
                            assert(disjoint(old(self)@[j], region_of(memory_map@[i as int])));
                        }
                    }
                }
                self.add_free_from_descriptor(&e);
            }
            proof {
                assert forall|k: int| 0 <= k < self@.len() implies came_from(
                    #[trigger] self@[k],
                    old(self)@,
                    memory_map@,
                    i + 1,
                ) by {
                    if e.memory_type == CONVENTIONAL_MEMORY && k == 0 {
                        assert(is_conventional(memory_map@[i as int]));
                        assert(self@[0] == region_of(memory_map@[i as int]));
                    } else {
                        let h = self@[k];
                        if e.memory_type == CONVENTIONAL_MEMORY {
                            assert(h == before[k - 1]);
                        } else {
                            assert(h == before[k]);
                        }
                        assert(came_from(h, old(self)@, memory_map@, i as int));
                        if exists|j: int|
                            0 <= j < i && is_conventional(#[trigger] memory_map@[j]) && h
                                == region_of(memory_map@[j]) {
                            let j = choose|j: int|
                                0 <= j < i && is_conventional(#[trigger] memory_map@[j]) && h
                                    == region_of(memory_map@[j]);
                            assert(0 <= j < i + 1 && is_conventional(memory_map@[j]));
                        }
                    }
                }
            }
            i = i + 1;
        }
    }
}

/// The chain after a split is well formed where the chain before it was.
pub proof fn lemma_chain_after(headers: Seq<Header>, k: int, after: Header, sp: Split)
    requires
        heap_wf(headers),
        0 <= k < headers.len(),
        exists|align: int| split_wf(headers[k], after, sp, align),
    ensures
        after == (Header { size: sp.shrunk_size, ..headers[k] }),
        heap_wf(chain_after(headers, k, sp)),
        chain_after(headers, k, sp) == (match sp.padding {
            Some(p) => headers.update(k, after).insert(k + 1, sp.allocated).insert(k + 2, p),
            None => headers.update(k, after).insert(k + 1, sp.allocated),
        }),
{
    let before = headers[k];
    let s1 = headers.update(k, after);
    lemma_heap_update(headers, k, after);
    assert forall|i: int| 0 <= i < s1.len() implies disjoint(#[trigger] s1[i], sp.allocated) by {
        if i != k {
            if i < k {
                assert(disjoint(headers[i], headers[k]));
            } else {
                assert(disjoint(headers[k], headers[i]));
            }
        }
    }
    lemma_heap_insert(s1, k + 1, sp.allocated);
    let s2 = s1.insert(k + 1, sp.allocated);
    match sp.padding {
        Some(p) => {
            assert forall|i: int| 0 <= i < s2.len() implies disjoint(#[trigger] s2[i], p) by {
                if i < k {
                    assert(s2[i] == headers[i]);
                    assert(disjoint(headers[i], headers[k]));
                } else if i > k + 1 {
                    assert(s2[i] == headers[i - 1]);
                    assert(disjoint(headers[k], headers[i - 1]));
                }
            }
            lemma_heap_insert(s2, k + 2, p);
            assert(chain_after(headers, k, sp) =~= s2.insert(k + 2, p));
        },
        None => {
            assert(chain_after(headers, k, sp) =~= s2);
        },
    }
}

} // verus!
