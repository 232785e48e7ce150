//! The symbol resolver: finds the symbol that owns a captured frame or a raw
//! address and hands a view of it to a callback.

use crate::backtrace::Frame;
use crate::table::has_eligible;
use crate::table::innermost;
use crate::table::lemma_innermost_decides;
use crate::table::SymbolEntry;
use crate::table::SymbolTable;
use crate::types::BytesOrWideString;
use crate::types::PathRepr;
use std::sync::Arc;
use vstd::prelude::*;

verus! {

/// The address to look up for a return address: one unit before it, which
/// lies inside the call instruction. The null address stays as it is.
pub open spec fn adjusted(addr: usize) -> usize {
    if addr == 0 {
        0usize
    } else {
        (addr - 1) as usize
    }
}

/// Moves a return address back into the call instruction before it.
pub fn adjust_ip(addr: usize) -> (r: usize)
    ensures
        r == adjusted(addr),
{
    if addr == 0 {
        0
    } else {
        addr - 1
    }
}

/// What to resolve: a raw address, searched in the table that is current now,
/// or a captured frame, searched in the table it was captured under.
pub enum ResolveWhat<'a> {
    /// A raw address, taken as a return address.
    Address(usize),
    /// A frame captured earlier.
    Frame(&'a Frame),
}

impl<'a> ResolveWhat<'a> {
    /// The return address that is resolved.
    pub open spec fn return_address(self) -> usize {
        match self {
            ResolveWhat::Address(addr) => addr,
            ResolveWhat::Frame(frame) => frame@.ip,
        }
    }

    /// The table that is searched, where `current` is the table current now.
    pub open spec fn searched(self, current: SymbolTable) -> SymbolTable {
        match self {
            ResolveWhat::Address(_) => current,
            ResolveWhat::Frame(frame) => frame@.table,
        }
    }

    /// The return address that is resolved.
    pub fn address_or_ip(&self) -> (r: usize)
        ensures
            r == self.return_address(),
    {
        match self {
            ResolveWhat::Address(addr) => *addr,
            ResolveWhat::Frame(frame) => frame.ip(),
        }
    }
}

/// The entry that a resolution finds: the innermost text entry of the
/// searched table that holds the adjusted address.
pub open spec fn resolution(what: ResolveWhat, current: SymbolTable) -> Option<SymbolEntry> {
    let table = what.searched(current)@;
    match innermost(table, adjusted(what.return_address()), true) {
        Some(i) => Some(table[i]),
        None => None,
    }
}

/// A resolved symbol: a view of one table entry, borrowed from the table and
/// good for as long as that borrow.
pub struct Symbol<'a> {
    sec: &'a SymbolEntry,
}

impl<'a> View for Symbol<'a> {
    type V = SymbolEntry;

    closed spec fn view(&self) -> SymbolEntry {
        *self.sec
    }
}

impl<'a> Symbol<'a> {
    /// The symbol that shows `entry`.
    pub closed spec fn showing(entry: SymbolEntry) -> Symbol<'a> {
        Symbol { sec: &entry }
    }

    /// The symbol that shows an entry has that entry as its view, and it is
    /// the only symbol that has.
    pub proof fn lemma_showing(entry: SymbolEntry)
        ensures
            Symbol::showing(entry)@ == entry,
            forall|symbol: Symbol| symbol@ == entry ==> symbol == Symbol::showing(entry),
    {
    }

    /// The symbol's name as raw bytes.
    pub fn name(&self) -> (r: Option<&[u8]>)
        ensures
            r matches Some(bytes) && bytes@ == self@.name@,
    {
        Some(self.sec.name.as_slice())
    }

    /// The start address of the symbol.
    pub fn addr(&self) -> (r: Option<usize>)
        ensures
            r == Some(self@.start),
    {
        Some(self.sec.start)
    }

    /// The name of the source file, as the platform keeps it. The table
    /// holds no line data, so there is none.
    pub fn filename_raw(&self) -> (r: Option<BytesOrWideString<'_>>)
        ensures
            r is None,
    {
        None
    }

    /// The source file as a path. The table holds no line data, so there is
    /// none.
    pub fn filename(&self) -> (r: Option<PathRepr<'_>>)
        ensures
            r is None,
    {
        None
    }

    /// The source line. The table holds no line data, so there is none.
    pub fn lineno(&self) -> (r: Option<u32>)
        ensures
            r is None,
    {
        None
    }

    /// The source column. The table holds no line data, so there is none.
    pub fn colno(&self) -> (r: Option<u32>)
        ensures
            r is None,
    {
        None
    }
}

/// Finds the symbol for `what`: the innermost text entry that holds the
/// adjusted address, in the frame's own table for a frame and in `current`
/// for a raw address. There is none where no text entry holds the address.
pub fn lookup<'a>(what: ResolveWhat<'a>, current: &'a Arc<SymbolTable>) -> (r: Option<Symbol<'a>>)
    ensures
        r is Some <==> has_eligible(
            what.searched(**current)@,
            adjusted(what.return_address()),
            true,
        ),
        match r {
            Some(symbol) => resolution(what, **current) == Some(symbol@),
            None => resolution(what, **current) is None,
        },
{
    let addr = adjust_ip(what.address_or_ip());
    let namespace: &'a Arc<SymbolTable> = match what {
        ResolveWhat::Address(_) => current,
        ResolveWhat::Frame(frame) => frame.namespace(),
    };
    match namespace.find_symbol_containing(addr, true) {
        Some((sec, _offset)) => Some(Symbol { sec }),
        None => None,
    }
}

/// Resolves `what` and hands `callback` a view of the symbol found: once
/// where there is one, and not at all where no text entry of the searched
/// table holds the adjusted address. Returns whether it called `callback`.
pub fn resolve<'a, F: FnMut(&Symbol<'a>)>(
    what: ResolveWhat<'a>,
    current: &'a Arc<SymbolTable>,
    callback: &mut F,
) -> (delivered: bool)
    requires
        resolution(what, **current) matches Some(entry) ==> call_requires(
            *old(callback),
            (&Symbol::showing(entry),),
        ),
    ensures
        delivered <==> resolution(what, **current) is Some,
        delivered <==> has_eligible(
            what.searched(**current)@,
            adjusted(what.return_address()),
            true,
        ),
        resolution(what, **current) matches Some(entry) ==> call_ensures(
            *old(callback),
            (&Symbol::showing(entry),),
            (),
        ),
{
    match lookup(what, current) {
        Some(symbol) => {
            callback(&symbol);
            true
        },
        None => false,
    }
}

/// What a resolution finds is a text entry of the searched table that holds
/// the adjusted address, and it finds one exactly where there is such an
/// entry. In particular an address that no text entry holds resolves to
/// nothing.
pub proof fn lemma_resolution_decides(what: ResolveWhat, current: SymbolTable)
    ensures
        resolution(what, current) is Some <==> has_eligible(
            what.searched(current)@,
            adjusted(what.return_address()),
            true,
        ),
        resolution(what, current) matches Some(entry) ==> {
            &&& entry.text
            &&& entry.covers(adjusted(what.return_address()))
            &&& what.searched(current)@.contains(entry)
        },
{
    lemma_innermost_decides(what.searched(current)@, adjusted(what.return_address()), true);
}

/// A return address that sits exactly at the end of a text entry, where the
/// next symbol may begin, resolves to an entry that holds the call
/// instruction one unit before it, and never to an entry that begins at the
/// return address. Where entry `k` is the only text entry that holds the call
/// instruction, it is the one found.
pub proof fn lemma_boundary_resolves_to_call_site(what: ResolveWhat, current: SymbolTable, k: int)
    requires
        0 <= k < what.searched(current)@.len(),
        what.searched(current)@[k].text,
        what.searched(current)@[k].size > 0,
        what.return_address() == what.searched(current)@[k].start + what.searched(
            current,
        )@[k].size,
    ensures
        resolution(what, current) matches Some(entry) && {
            &&& entry.text
            &&& entry.covers((what.return_address() - 1) as usize)
            &&& entry.start < what.return_address()
            &&& (forall|j: int|
                0 <= j < what.searched(current)@.len() && j != k && (#[trigger] what.searched(
                    current,
                )@[j]).text ==> !what.searched(current)@[j].covers(
                    (what.return_address() - 1) as usize,
                )) ==> entry == what.searched(current)@[k]
        },
{
    let table = what.searched(current)@;
    let call_site = adjusted(what.return_address());
    assert(table[k].eligible(call_site, true));
    lemma_innermost_decides(table, call_site, true);
}

/// A frame is resolved in the table it was captured under: whichever table
/// is current when it is resolved, the outcome is that of its return address
/// in the captured table.
pub proof fn lemma_frame_resolution_uses_snapshot(
    frame: &Frame,
    current: SymbolTable,
    other: SymbolTable,
)
    ensures
        resolution(ResolveWhat::Frame(frame), current) == resolution(
            ResolveWhat::Frame(frame),
            other,
        ),
        resolution(ResolveWhat::Frame(frame), current) == resolution(
            ResolveWhat::Address(frame@.ip),
            frame@.table,
        ),
{
}

/// What a resolution finds depends on the request and on the entries of the
/// searched table alone. Nothing is kept from one resolution to the next, so
/// a resolution made after the cache was cleared finds what it found before.
pub proof fn lemma_resolution_keeps_no_state(
    what: ResolveWhat,
    before: SymbolTable,
    after: SymbolTable,
)
    requires
        what.searched(before)@ == what.searched(after)@,
    ensures
        resolution(what, before) == resolution(what, after),
{
}

/// Drops what the resolver has cached. This resolver searches the table anew
/// on every call and keeps nothing, so there is nothing to drop.
pub fn clear_symbol_cache() {
}

} // verus!
