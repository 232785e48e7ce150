//! The symbol table: a list of named address ranges, and the search for the
//! innermost range that holds an address.

use vstd::prelude::*;

verus! {

/// One named address range of a symbol table: the addresses from `start` up
/// to `start + size`, the end excluded.
#[derive(Debug)]
pub struct SymbolEntry {
    /// The symbol's name as raw bytes, not necessarily valid text.
    pub name: Vec<u8>,
    /// The first address of the range.
    pub start: usize,
    /// The number of addresses in the range.
    pub size: usize,
    /// Whether the range holds executable code rather than data.
    pub text: bool,
}

impl SymbolEntry {
    /// Whether `addr` lies inside this entry's range.
    pub open spec fn covers(self, addr: usize) -> bool {
        self.start <= addr && addr - self.start < self.size
    }

    /// Whether a search for `addr` may answer with this entry: it covers the
    /// address, and it is a text entry where only those are searched.
    pub open spec fn eligible(self, addr: usize, text_only: bool) -> bool {
        self.covers(addr) && (text_only ==> self.text)
    }

    /// Tests whether `addr` lies inside this entry's range.
    pub fn contains(&self, addr: usize) -> (r: bool)
        ensures
            r == self.covers(addr),
    {
        self.start <= addr && addr - self.start < self.size
    }
}

/// A symbol table: entries in registration order. Ranges may nest or overlap.
#[derive(Debug)]
pub struct SymbolTable {
    pub entries: Vec<SymbolEntry>,
}

impl View for SymbolTable {
    type V = Seq<SymbolEntry>;

    open spec fn view(&self) -> Seq<SymbolEntry> {
        self.entries@
    }
}

/// Entry `i` is the innermost answer for `addr`: it is eligible, no eligible
/// entry has a smaller range, and every eligible entry registered before it
/// has a strictly larger one.
pub open spec fn is_innermost(
    entries: Seq<SymbolEntry>,
    addr: usize,
    text_only: bool,
    i: int,
) -> bool {
    &&& 0 <= i < entries.len()
    &&& entries[i].eligible(addr, text_only)
    &&& forall|j: int|
        0 <= j < entries.len() && (#[trigger] entries[j]).eligible(addr, text_only)
            ==> entries[i].size <= entries[j].size
    &&& forall|j: int|
        0 <= j < i && (#[trigger] entries[j]).eligible(addr, text_only) ==> entries[i].size
            < entries[j].size
}

/// Whether any entry is eligible for `addr`.
pub open spec fn has_eligible(entries: Seq<SymbolEntry>, addr: usize, text_only: bool) -> bool {
    exists|j: int| 0 <= j < entries.len() && (#[trigger] entries[j]).eligible(addr, text_only)
}

/// The index of the innermost entry for `addr`, if any entry is eligible.
pub open spec fn innermost(entries: Seq<SymbolEntry>, addr: usize, text_only: bool) -> Option<
    int,
> {
    if exists|i: int| is_innermost(entries, addr, text_only, i) {
        Some(choose|i: int| is_innermost(entries, addr, text_only, i))
    } else {
        None
    }
}

/// At most one entry is the innermost answer for an address.
pub proof fn lemma_innermost_unique(
    entries: Seq<SymbolEntry>,
    addr: usize,
    text_only: bool,
    i: int,
    j: int,
)
    requires
        is_innermost(entries, addr, text_only, i),
        is_innermost(entries, addr, text_only, j),
    ensures
        i == j,
{
    if i < j {
        assert(entries[i].eligible(addr, text_only));
    } else if j < i {
        assert(entries[j].eligible(addr, text_only));
    }
}

/// An entry that meets the innermost conditions is the one `innermost` names.
pub proof fn lemma_innermost_is(entries: Seq<SymbolEntry>, addr: usize, text_only: bool, i: int)
    requires
        is_innermost(entries, addr, text_only, i),
    ensures
        innermost(entries, addr, text_only) == Some(i),
{
    let c = choose|c: int| is_innermost(entries, addr, text_only, c);
    lemma_innermost_unique(entries, addr, text_only, i, c);
}

/// The innermost entry among the first `n`, or -1 where none of them is
/// eligible.
proof fn lemma_prefix_innermost(
    entries: Seq<SymbolEntry>,
    addr: usize,
    text_only: bool,
    n: int,
) -> (b: int)
    requires
        0 <= n <= entries.len(),
    ensures
        -1 <= b < n,
        b == -1 ==> forall|j: int|
            0 <= j < n ==> !(#[trigger] entries[j]).eligible(addr, text_only),
        b != -1 ==> {
            &&& entries[b].eligible(addr, text_only)
            &&& forall|j: int|
                0 <= j < n && (#[trigger] entries[j]).eligible(addr, text_only) ==> entries[b].size
                    <= entries[j].size
            &&& forall|j: int|
                0 <= j < b && (#[trigger] entries[j]).eligible(addr, text_only) ==> entries[b].size
                    < entries[j].size
        },
    decreases n,
{
    if n == 0 {
        -1
    } else {
        let p = lemma_prefix_innermost(entries, addr, text_only, n - 1);
        if entries[n - 1].eligible(addr, text_only) && (p == -1 || entries[n - 1].size
            < entries[p].size) {
            n - 1
        } else {
            p
        }
    }
}

/// A search has an answer exactly where some entry is eligible, and the
/// answer meets the innermost conditions.
pub proof fn lemma_innermost_decides(entries: Seq<SymbolEntry>, addr: usize, text_only: bool)
    ensures
        innermost(entries, addr, text_only) is Some <==> has_eligible(entries, addr, text_only),
        innermost(entries, addr, text_only) matches Some(i) ==> is_innermost(
            entries,
            addr,
            text_only,
            i,
        ),
{
    let b = lemma_prefix_innermost(entries, addr, text_only, entries.len() as int);
    if b != -1 {
        assert(is_innermost(entries, addr, text_only, b));
        lemma_innermost_is(entries, addr, text_only, b);
    }
}

impl SymbolTable {
    /// Finds the innermost entry whose range holds `addr`, among the text
    /// entries only where `text_only` is set, together with the offset of
    /// `addr` from the start of that entry.
    pub fn find_symbol_containing(&self, addr: usize, text_only: bool) -> (r: Option<
        (&SymbolEntry, usize),
    >)
        ensures
            r is Some <==> has_eligible(self@, addr, text_only),
            match r {
                Some((entry, offset)) => {
                    &&& innermost(self@, addr, text_only) matches Some(i)
                    &&& *entry == self@[i]
                    &&& offset == addr - entry.start
                },
                None => innermost(self@, addr, text_only) is None,
            },
    {
        let mut best: Option<usize> = None;
        let mut i: usize = 0;
        while i < self.entries.len()
            invariant
                i <= self.entries.len(),
                best is None ==> forall|j: int|
                    0 <= j < i ==> !(#[trigger] self@[j]).eligible(addr, text_only),
                best matches Some(b) ==> {
                    &&& b < i
                    &&& self@[b as int].eligible(addr, text_only)
                    &&& forall|j: int|
                        0 <= j < i && (#[trigger] self@[j]).eligible(addr, text_only)
                            ==> self@[b as int].size <= self@[j].size
                    &&& forall|j: int|
                        0 <= j < b && (#[trigger] self@[j]).eligible(addr, text_only)
                            ==> self@[b as int].size < self@[j].size
                },
            decreases self.entries.len() - i,
        {
            let entry = &self.entries[i];
            if entry.contains(addr) && (!text_only || entry.text) {
                let closer = match best {
                    Some(b) => entry.size < self.entries[b].size,
                    None => true,
                };
                if closer {
                    best = Some(i);
                }
            }
            i += 1;
        }
        match best {
            Some(b) => {
                proof {
                    assert(is_innermost(self@, addr, text_only, b as int));
                    lemma_innermost_is(self@, addr, text_only, b as int);
                }
                let entry = &self.entries[b];
                Some((entry, addr - entry.start))
            },
            None => None,
        }
    }
}

} // verus!
