//! The stack walker: turns the register contexts read from a call stack into
//! frames and hands them to a callback, most recent first.

use crate::table::SymbolTable;
use std::sync::Arc;
use vstd::prelude::*;

verus! {

/// What was read from the registers of one stack frame. A register that could
/// not be read is absent.
#[derive(Clone, Copy, Debug)]
pub struct RegisterContext {
    /// The address at which the frame resumes once its callee returns.
    pub return_address: Option<usize>,
    /// The frame's stack pointer.
    pub stack_pointer: Option<usize>,
    /// The entry address of the function that owns the frame.
    pub initial_address: usize,
}

impl RegisterContext {
    /// Both registers that a frame cannot do without were read.
    pub open spec fn readable(self) -> bool {
        self.return_address is Some && self.stack_pointer is Some
    }
}

/// What a frame holds.
pub struct FrameView {
    /// The return address: the next instruction to run in the frame, not the
    /// call instruction before it.
    pub ip: usize,
    /// The stack pointer.
    pub sp: usize,
    /// The entry address of the owning function.
    pub symbol_address: usize,
    /// The symbol table as it was when the frame was captured.
    pub table: SymbolTable,
}

/// One stack frame as it was at capture time.
///
/// The frame keeps a shared handle to the symbol table that was current when
/// it was captured, so that a later resolution sees that table and not the one
/// that is current by then.
pub struct Frame {
    ip: usize,
    sp: usize,
    symbol_address: usize,
    namespace: Arc<SymbolTable>,
}

impl View for Frame {
    type V = FrameView;

    closed spec fn view(&self) -> FrameView {
        FrameView {
            ip: self.ip,
            sp: self.sp,
            symbol_address: self.symbol_address,
            table: *self.namespace,
        }
    }
}

impl Clone for Frame {
    /// A second frame with the same registers and a handle of its own to the
    /// same table.
    fn clone(&self) -> (copy: Frame)
        ensures
            copy == *self,
    {
        Frame {
            ip: self.ip,
            sp: self.sp,
            symbol_address: self.symbol_address,
            namespace: share(&self.namespace),
        }
    }
}

/// `Arc::clone` on a table handle: a second handle to the same table, so the
/// table it shows is the one the first handle shows.
#[verifier::external_body]
fn share(namespace: &Arc<SymbolTable>) -> (handle: Arc<SymbolTable>)
    ensures
        *handle == **namespace,
{
    Arc::clone(namespace)
}

impl Frame {
    /// The frame that a readable register context gives under `table`.
    pub closed spec fn captured(regs: RegisterContext, table: SymbolTable) -> Frame {
        Frame {
            ip: regs.return_address.unwrap(),
            sp: regs.stack_pointer.unwrap(),
            symbol_address: regs.initial_address,
            namespace: Arc::new(table),
        }
    }

    /// What a captured frame holds: the return address as it was read, not
    /// moved back to the call site, the stack pointer, the function's entry
    /// address, and the table it was captured under.
    pub open spec fn captured_view(regs: RegisterContext, table: SymbolTable) -> FrameView {
        FrameView {
            ip: regs.return_address.unwrap(),
            sp: regs.stack_pointer.unwrap(),
            symbol_address: regs.initial_address,
            table,
        }
    }

    /// A captured frame holds what `captured_view` says, and it is the only
    /// frame that does.
    pub proof fn lemma_captured(regs: RegisterContext, table: SymbolTable)
        ensures
            Frame::captured(regs, table)@ == Frame::captured_view(regs, table),
            forall|frame: Frame|
                frame@ == Frame::captured_view(regs, table) ==> frame == Frame::captured(
                    regs,
                    table,
                ),
    {
    }

    /// Builds the frame for one register context, with a handle of its own to
    /// `namespace`. There is no frame where a register is missing.
    pub fn capture(regs: &RegisterContext, namespace: &Arc<SymbolTable>) -> (r: Option<Frame>)
        ensures
            r is Some <==> regs.readable(),
            r matches Some(frame) ==> frame == Frame::captured(*regs, **namespace) && frame@
                == Frame::captured_view(*regs, **namespace),
    {
        match (regs.return_address, regs.stack_pointer) {
            (Some(ip), Some(sp)) => Some(
                Frame {
                    ip,
                    sp,
                    symbol_address: regs.initial_address,
                    namespace: share(namespace),
                },
            ),
            _ => None,
        }
    }

    /// The return address of the frame.
    pub fn ip(&self) -> (r: usize)
        ensures
            r == self@.ip,
    {
        self.ip
    }

    /// The stack pointer of the frame.
    pub fn sp(&self) -> (r: usize)
        ensures
            r == self@.sp,
    {
        self.sp
    }

    /// The entry address of the function that owns the frame.
    pub fn symbol_address(&self) -> (r: usize)
        ensures
            r == self@.symbol_address,
    {
        self.symbol_address
    }

    /// The base address of the module that holds the frame. This table has
    /// no notion of modules, so there is none.
    pub fn module_base_address(&self) -> (r: Option<usize>)
        ensures
            r is None,
    {
        None
    }

    /// The table that was current when the frame was captured.
    pub fn namespace(&self) -> (r: &Arc<SymbolTable>)
        ensures
            **r == self@.table,
    {
        &self.namespace
    }
}

/// The walk can get as far as context `i`: every context up to and including
/// it is readable, and `i` lies within the depth bound where there is one.
pub open spec fn reachable(stack: Seq<RegisterContext>, max_depth: Option<usize>, i: int) -> bool {
    &&& 0 <= i < stack.len()
    &&& max_depth matches Some(m) ==> i < m
    &&& forall|j: int| 0 <= j <= i ==> (#[trigger] stack[j]).readable()
}

/// `callback` can give `answer` when it is handed the frame of context `i`.
pub open spec fn answers<F: FnMut(&Frame) -> bool>(
    callback: F,
    stack: Seq<RegisterContext>,
    table: SymbolTable,
    i: int,
    answer: bool,
) -> bool {
    call_ensures(callback, (&Frame::captured(stack[i], table),), answer)
}

/// `callback` never answers `true`: it asks every walk to stop.
pub open spec fn always_stops<F: FnMut(&Frame) -> bool>(callback: F) -> bool {
    forall|frame: Frame| !call_ensures(callback, (&frame,), true)
}

/// The length of a walk that is stopped at once: one frame where the walk
/// can reach the first context, and none where it cannot.
pub open spec fn first_only(stack: Seq<RegisterContext>, max_depth: Option<usize>) -> usize {
    if reachable(stack, max_depth, 0) {
        1
    } else {
        0
    }
}

/// Walks `stack`, the register contexts of a call stack with the most recent
/// first, and hands `callback` one frame per context, in that order, each
/// captured under `namespace`. Returns how many frames it handed over.
///
/// The walk ends when `callback` answers `false`, when the stack is used up,
/// when `max_depth` frames were handed over, or before the first context with
/// a missing register. So the frames handed over are those of the first
/// `emitted` contexts; all but the last were answered with `true`; and where
/// the walk could have gone on, the last was answered with `false`.
pub fn trace<F: FnMut(&Frame) -> bool>(
    stack: &[RegisterContext],
    namespace: &Arc<SymbolTable>,
    max_depth: Option<usize>,
    callback: &mut F,
) -> (emitted: usize)
    requires
        forall|i: int|
            reachable(stack@, max_depth, i) ==> call_requires(
                *old(callback),
                (&Frame::captured(#[trigger] stack@[i], **namespace),),
            ),
    ensures
        emitted <= stack@.len(),
        max_depth matches Some(m) ==> emitted <= m,
        forall|i: int| 0 <= i < emitted ==> reachable(stack@, max_depth, i),
        forall|i: int|
            0 <= i < emitted - 1 ==> #[trigger] answers(
                *old(callback),
                stack@,
                **namespace,
                i,
                true,
            ),
        emitted > 0 ==> answers(*old(callback), stack@, **namespace, emitted - 1, true) || answers(
            *old(callback),
            stack@,
            **namespace,
            emitted - 1,
            false,
        ),
        reachable(stack@, max_depth, emitted as int) ==> emitted > 0 && answers(
            *old(callback),
            stack@,
            **namespace,
            emitted - 1,
            false,
        ),
        always_stops(*old(callback)) ==> emitted == first_only(stack@, max_depth),
{
    let mut emitted: usize = 0;
    let mut walking = true;
    while walking
        invariant
            emitted <= stack@.len(),
            max_depth matches Some(m) ==> emitted <= m,
            forall|i: int|
                reachable(stack@, max_depth, i) ==> call_requires(
                    *callback,
                    (&Frame::captured(#[trigger] stack@[i], **namespace),),
                ),
            forall|f: Frame, answer: bool|
                call_ensures(*callback, (&f,), answer) ==> call_ensures(
                    *old(callback),
                    (&f,),
                    answer,
                ),
            forall|i: int| 0 <= i < emitted ==> reachable(stack@, max_depth, i),
            forall|i: int|
                0 <= i < emitted - (if walking { 0int } else { 1int }) ==> #[trigger] answers(
                    *old(callback),
                    stack@,
                    **namespace,
                    i,
                    true,
                ),
            !walking ==> !reachable(stack@, max_depth, emitted as int) || (emitted > 0 && answers(
                *old(callback),
                stack@,
                **namespace,
                emitted - 1,
                false,
            )),
            emitted > 0 ==> answers(*old(callback), stack@, **namespace, emitted - 1, true)
                || answers(*old(callback), stack@, **namespace, emitted - 1, false),
        decreases stack@.len() - emitted + (if walking { 1int } else { 0int }),
    {
        let within = emitted < stack.len() && match max_depth {
            Some(m) => emitted < m,
            None => true,
        };
        if !within {
            walking = false;
        } else {
            match Frame::capture(&stack[emitted], namespace) {
                Some(frame) => {
                    assert(reachable(stack@, max_depth, emitted as int)) by {
                        assert forall|j: int| 0 <= j <= emitted implies (
                        #[trigger] stack@[j]).readable() by {
                            if j < emitted {
                                assert(reachable(stack@, max_depth, emitted - 1));
                            }
                        }
                    }
                    walking = callback(&frame);
                    assert(answers(*old(callback), stack@, **namespace, emitted as int, walking));
                    emitted += 1;
                },
                None => {
                    walking = false;
                },
            }
        }
    }
    proof {
        if emitted >= 2 {
            assert(answers(*old(callback), stack@, **namespace, 0, true));
        }
    }
    emitted
}

} // verus!
