//! The register allocator: maps virtual registers onto the fixed physical
//! file for the duration of one function, with explicit allocate, release
//! and reset. Well-formed states never bind two live virtual registers to
//! one physical slot, and a reset restores the exact initial state, so the
//! first allocation after any reset lands in the same physical register.

use vstd::prelude::*;
use crate::ir::Reg;
use super::x86reg::{
    general_pool, is_general, make_pool, param_idx, param_pool, param_reg_at, X86Reg,
};

verus! {

broadcast use vstd::std_specs::vec::group_vec_axioms;

/// The mathematical view of the allocator: bindings in the order they were
/// made, the free general slots in allocation order, and the number of
/// parameter slots already handed out.
#[verifier::ext_equal]
pub struct RegStV {
    pub binds: Seq<(usize, X86Reg)>,
    pub free: Seq<X86Reg>,
    pub cursor: int,
}

/// The state a function's compilation starts from.
pub open spec fn init_reg_st() -> RegStV {
    RegStV { binds: Seq::empty(), free: general_pool(), cursor: 0 }
}

/// The binding of virtual register `v`, if it is live.
pub open spec fn lookup(binds: Seq<(usize, X86Reg)>, v: int) -> Option<X86Reg>
    decreases binds.len(),
{
    if binds.len() == 0 {
        None
    } else if binds[0].0 == v {
        Some(binds[0].1)
    } else {
        lookup(binds.subrange(1, binds.len() as int), v)
    }
}

/// The position of the binding of `v`, or -1 when `v` is not live.
pub open spec fn lookup_at(binds: Seq<(usize, X86Reg)>, v: int) -> int
    decreases binds.len(),
{
    if binds.len() == 0 {
        -1
    } else if binds[0].0 == v {
        0
    } else {
        let r = lookup_at(binds.subrange(1, binds.len() as int), v);
        if r < 0 {
            -1
        } else {
            r + 1
        }
    }
}

/// A found binding names the entry at its position; an absent one matches
/// no entry at all.
pub proof fn lemma_lookup(binds: Seq<(usize, X86Reg)>, v: int)
    ensures
        lookup_at(binds, v) >= 0 ==> {
            &&& lookup_at(binds, v) < binds.len()
            &&& binds[lookup_at(binds, v)].0 == v
            &&& lookup(binds, v) == Some(binds[lookup_at(binds, v)].1)
            &&& forall|k: int| 0 <= k < lookup_at(binds, v) ==> (#[trigger] binds[k]).0 != v
        },
        lookup_at(binds, v) < 0 ==> lookup(binds, v) is None && forall|k: int|
            0 <= k < binds.len() ==> (#[trigger] binds[k]).0 != v,
    decreases binds.len(),
{
    if binds.len() > 0 && binds[0].0 != v {
        let rest = binds.subrange(1, binds.len() as int);
        lemma_lookup(rest, v);
        assert(forall|k: int| 1 <= k < binds.len() ==> (#[trigger] binds[k]) == rest[k - 1]);
    }
}

/// What allocating `v` yields: the existing binding if there is one, else
/// the first free general slot, else exhaustion.
pub open spec fn spec_allocate(s: RegStV, v: int) -> Result<(X86Reg, RegStV), ()> {
    match lookup(s.binds, v) {
        Some(r) => Ok((r, s)),
        None => if s.free.len() > 0 {
            Ok(
                (
                    s.free[0],
                    RegStV {
                        binds: s.binds.push((v as usize, s.free[0])),
                        free: s.free.subrange(1, s.free.len() as int),
                        cursor: s.cursor,
                    },
                ),
            )
        } else {
            Err(())
        },
    }
}

/// What allocating a parameter slot for `v` yields: the existing binding if
/// there is one, else the next parameter register of the calling
/// convention, else exhaustion.
pub open spec fn spec_param_allocate(s: RegStV, v: int) -> Result<(X86Reg, RegStV), ()> {
    match lookup(s.binds, v) {
        Some(r) => Ok((r, s)),
        None => if s.cursor < 6 {
            Ok(
                (
                    param_pool()[s.cursor],
                    RegStV {
                        binds: s.binds.push((v as usize, param_pool()[s.cursor])),
                        free: s.free,
                        cursor: s.cursor + 1,
                    },
                ),
            )
        } else {
            Err(())
        },
    }
}

/// What releasing `v` yields: its binding removed and, when the slot was a
/// general one, the slot back in the free pool; releasing an unbound
/// register changes nothing.
pub open spec fn spec_release(s: RegStV, v: int) -> RegStV {
    let i = lookup_at(s.binds, v);
    if i < 0 {
        s
    } else {
        let phys = s.binds[i].1;
        RegStV {
            binds: s.binds.remove(i),
            free: if is_general(phys) {
                s.free.push(phys)
            } else {
                s.free
            },
            cursor: s.cursor,
        }
    }
}

/// Well-formedness of an allocator state: live virtual registers are
/// distinct, no two of them share a physical slot, every bound slot is a
/// general or an already-issued parameter slot, the free pool holds only
/// general slots without duplicates, and nothing is both bound and free.
pub open spec fn reg_st_wf(s: RegStV) -> bool {
    &&& forall|i: int, j: int|
        0 <= i < j < s.binds.len() ==> (#[trigger] s.binds[i]).0 != (#[trigger] s.binds[j]).0
    &&& forall|i: int, j: int|
        0 <= i < j < s.binds.len() ==> (#[trigger] s.binds[i]).1 != (#[trigger] s.binds[j]).1
    &&& forall|i: int|
        0 <= i < s.binds.len() ==> is_general((#[trigger] s.binds[i]).1) || (0 <= param_idx(
            s.binds[i].1,
        ) < s.cursor)
    &&& forall|i: int| 0 <= i < s.free.len() ==> is_general(#[trigger] s.free[i])
    &&& forall|i: int, j: int|
        0 <= i < j < s.free.len() ==> (#[trigger] s.free[i]) != (#[trigger] s.free[j])
    &&& forall|i: int, k: int|
        0 <= i < s.binds.len() && 0 <= k < s.free.len() ==> (#[trigger] s.binds[i]).1 != (
        #[trigger] s.free[k])
    &&& 0 <= s.cursor <= 6
}

/// The initial state is well formed.
pub proof fn lemma_init_wf()
    ensures
        reg_st_wf(init_reg_st()),
{
}

/// Allocation preserves well-formedness.
pub proof fn lemma_allocate_wf(s: RegStV, v: int)
    requires
        reg_st_wf(s),
        0 <= v <= usize::MAX,
    ensures
        spec_allocate(s, v) matches Ok((r, s1)) ==> reg_st_wf(s1),
        spec_param_allocate(s, v) matches Ok((r, s1)) ==> reg_st_wf(s1),
{
    lemma_lookup(s.binds, v);
    match lookup(s.binds, v) {
        Some(_) => {},
        None => {
            let n = s.binds.len() as int;
            if s.free.len() > 0 {
                let phys = s.free[0];
                let b1 = s.binds.push((v as usize, phys));
                let f1 = s.free.subrange(1, s.free.len() as int);
                assert(forall|k: int| 0 <= k < n ==> (#[trigger] b1[k]) == s.binds[k]);
                assert(b1[n] == (v as usize, phys));
                assert(forall|k: int| 0 <= k < f1.len() ==> (#[trigger] f1[k]) == s.free[k + 1]);
                assert(reg_st_wf(RegStV { binds: b1, free: f1, cursor: s.cursor }));
            }
            if s.cursor < 6 {
                let phys = param_pool()[s.cursor];
                lemma_param_pool(s.cursor);
                let b1 = s.binds.push((v as usize, phys));
                assert(forall|k: int| 0 <= k < n ==> (#[trigger] b1[k]) == s.binds[k]);
                assert(b1[n] == (v as usize, phys));
                assert(reg_st_wf(RegStV { binds: b1, free: s.free, cursor: s.cursor + 1 }));
            }
        },
    }
}

/// Each parameter slot holds a distinct non-general register whose index is
/// its position.
pub proof fn lemma_param_pool(i: int)
    requires
        0 <= i < 6,
    ensures
        param_idx(param_pool()[i]) == i,
        !is_general(param_pool()[i]),
{
    if i == 0 {
        assert(param_pool()[0] == X86Reg::Rdi);
    } else if i == 1 {
        assert(param_pool()[1] == X86Reg::Rsi);
    } else if i == 2 {
        assert(param_pool()[2] == X86Reg::Rdx);
    } else if i == 3 {
        assert(param_pool()[3] == X86Reg::Rcx);
    } else if i == 4 {
        assert(param_pool()[4] == X86Reg::R8);
    } else {
        assert(param_pool()[5] == X86Reg::R9);
    }
}

/// Release preserves well-formedness.
pub proof fn lemma_release_wf(s: RegStV, v: int)
    requires
        reg_st_wf(s),
    ensures
        reg_st_wf(spec_release(s, v)),
{
    lemma_lookup(s.binds, v);
    let i = lookup_at(s.binds, v);
    if i >= 0 {
        let s1 = spec_release(s, v);
        assert(forall|k: int|
            0 <= k < s1.binds.len() ==> s1.binds[k] == if k < i {
                s.binds[k]
            } else {
                s.binds[k + 1]
            });
    }
}

/// No two simultaneously live virtual registers ever share a physical
/// slot: in a well-formed state, distinct live registers map to distinct
/// physical registers.
pub proof fn lemma_live_regs_distinct(s: RegStV, v1: int, v2: int)
    requires
        reg_st_wf(s),
        v1 != v2,
        lookup(s.binds, v1) is Some,
        lookup(s.binds, v2) is Some,
    ensures
        lookup(s.binds, v1) != lookup(s.binds, v2),
{
    lemma_lookup(s.binds, v1);
    lemma_lookup(s.binds, v2);
    let i1 = lookup_at(s.binds, v1);
    let i2 = lookup_at(s.binds, v2);
    assert(i1 != i2);
}

/// After a reset, the first allocation lands in the first slot of the
/// general pool, whatever virtual register asks for it: two functions
/// lowered back to back each map their first virtual register to the same
/// initial physical register.
pub proof fn lemma_reset_isolation(v1: int, v2: int)
    ensures
        spec_allocate(init_reg_st(), v1) matches Ok((r1, _)) && r1 == general_pool()[0],
        spec_allocate(init_reg_st(), v2) matches Ok((r2, _)) && r2 == general_pool()[0],
{
}

/// The allocator: bindings from virtual registers to physical slots, the
/// free general slots in order, and the parameter-slot cursor.
pub struct RegState {
    binds: Vec<(usize, X86Reg)>,
    free: Vec<X86Reg>,
    cursor: usize,
}

/// Exhaustion of the fixed register file, the one modeled runtime fault of
/// the back end.
#[derive(Debug, Clone, Copy, PartialEq, Eq, Structural)]
pub enum RegError {
    RegisterExhausted,
}

impl View for RegState {
    type V = RegStV;

    closed spec fn view(&self) -> RegStV {
        RegStV { binds: self.binds@, free: self.free@, cursor: self.cursor as int }
    }
}

impl Default for RegState {
    /// A fresh allocator: nothing bound, the whole pool free.
    fn default() -> (r: Self)
        ensures
            r@ == init_reg_st(),
    {
        let r = RegState { binds: Vec::new(), free: make_pool(), cursor: 0 };
        proof {
            assert(r@ =~= init_reg_st());
        }
        r
    }
}

impl RegState {
    /// Finds the position of the live binding of `v`, if any.
    fn find(&self, v: usize) -> (r: Option<usize>)
        ensures
            match r {
                Some(i) => i == lookup_at(self@.binds, v as int),
                None => lookup_at(self@.binds, v as int) < 0,
            },
    {
        let n = self.binds.len();
        let mut i: usize = 0;
        while i < n
            invariant
                i <= n,
                n == self.binds@.len(),
                forall|k: int| 0 <= k < i ==> (#[trigger] self.binds@[k]).0 != v,
            decreases n - i,
        {
            if self.binds[i].0 == v {
                proof {
                    lemma_lookup_at_found(self.binds@, v as int, i as int);
                }
                return Some(i);
            }
            i = i + 1;
        }
        proof {
            lemma_lookup_at_absent(self.binds@, v as int);
        }
        None
    }

    /// Returns `v`'s physical slot, assigning the next free general slot on
    /// first use; fails only when the file is exhausted.
    pub fn get_reg(&mut self, des: &Reg) -> (r: Result<X86Reg, RegError>)
        requires
            reg_st_wf(old(self)@),
        ensures
            reg_st_wf(final(self)@),
            match (r, spec_allocate(old(self)@, des.0 as int)) {
                (Ok(x), Ok((sx, ss))) => x == sx && final(self)@ == ss,
                (Err(_), Err(_)) => final(self)@ == old(self)@,
                _ => false,
            },
    {
        proof {
            lemma_lookup(self@.binds, des.0 as int);
            lemma_allocate_wf(self@, des.0 as int);
        }
        match self.find(des.0) {
            Some(i) => Ok(self.binds[i].1),
            None => {
                if self.free.len() == 0 {
                    return Err(RegError::RegisterExhausted);
                }
                let phys = self.free.remove(0);
                self.binds.push((des.0, phys));
                proof {
                    assert(self@ =~= (match spec_allocate(old(self)@, des.0 as int) {
                        Ok((_, ss)) => ss,
                        Err(_) => old(self)@,
                    }));
                }
                Ok(phys)
            },
        }
    }

    /// Returns `v`'s physical slot, assigning the next parameter register of
    /// the calling convention on first use.
    pub fn get_param_reg(&mut self, des: &Reg) -> (r: Result<X86Reg, RegError>)
        requires
            reg_st_wf(old(self)@),
        ensures
            reg_st_wf(final(self)@),
            match (r, spec_param_allocate(old(self)@, des.0 as int)) {
                (Ok(x), Ok((sx, ss))) => x == sx && final(self)@ == ss,
                (Err(_), Err(_)) => final(self)@ == old(self)@,
                _ => false,
            },
    {
        proof {
            lemma_lookup(self@.binds, des.0 as int);
            lemma_allocate_wf(self@, des.0 as int);
        }
        match self.find(des.0) {
            Some(i) => Ok(self.binds[i].1),
            None => {
                if self.cursor >= 6 {
                    return Err(RegError::RegisterExhausted);
                }
                let phys = param_reg_at(self.cursor);
                self.binds.push((des.0, phys));
                self.cursor = self.cursor + 1;
                proof {
                    assert(self@ =~= (match spec_param_allocate(old(self)@, des.0 as int) {
                        Ok((_, ss)) => ss,
                        Err(_) => old(self)@,
                    }));
                }
                Ok(phys)
            },
        }
    }

    /// Marks `v`'s slot free for reuse; a general slot rejoins the pool.
    pub fn release_reg(&mut self, des: &Reg)
        requires
            reg_st_wf(old(self)@),
        ensures
            reg_st_wf(final(self)@),
            final(self)@ == spec_release(old(self)@, des.0 as int),
    {
        proof {
            lemma_lookup(self@.binds, des.0 as int);
            lemma_release_wf(self@, des.0 as int);
        }
        match self.find(des.0) {
            None => {},
            Some(i) => {
                let (_, phys) = self.binds.remove(i);
                let general = match phys {
                    X86Reg::Rbx => true,
                    X86Reg::R11 => true,
                    X86Reg::R12 => true,
                    X86Reg::R13 => true,
                    X86Reg::R14 => true,
                    X86Reg::R15 => true,
                    _ => false,
                };
                if general {
                    self.free.push(phys);
                }
                proof {
                    assert(self@ =~= spec_release(old(self)@, des.0 as int));
                }
            },
        }
    }

    /// The fixed return slot of the calling convention, outside the pool.
    pub fn get_ret_reg(&self) -> (r: X86Reg)
        ensures
            r == X86Reg::Rax,
    {
        X86Reg::Rax
    }

    /// Clears all bindings and restores the whole pool: invoked at each
    /// function boundary, so virtual-register reuse across functions never
    /// collides physically.
    pub fn reset(&mut self)
        ensures
            final(self)@ == init_reg_st(),
            reg_st_wf(final(self)@),
    {
        self.binds.clear();
        self.free = make_pool();
        self.cursor = 0;
        proof {
            assert(self@ =~= init_reg_st());
        }
    }
}

/// A forward scan that stops at the first match finds `lookup_at`.
proof fn lemma_lookup_at_found(binds: Seq<(usize, X86Reg)>, v: int, i: int)
    requires
        0 <= i < binds.len(),
        binds[i].0 == v,
        forall|k: int| 0 <= k < i ==> (#[trigger] binds[k]).0 != v,
    ensures
        lookup_at(binds, v) == i,
    decreases i,
{
    if i > 0 {
        let rest = binds.subrange(1, binds.len() as int);
        assert(forall|k: int| 1 <= k < binds.len() ==> (#[trigger] binds[k]) == rest[k - 1]);
        lemma_lookup_at_found(rest, v, i - 1);
    }
}

/// A scan that matches nothing means `v` is not live.
proof fn lemma_lookup_at_absent(binds: Seq<(usize, X86Reg)>, v: int)
    requires
        forall|k: int| 0 <= k < binds.len() ==> (#[trigger] binds[k]).0 != v,
    ensures
        lookup_at(binds, v) < 0,
    decreases binds.len(),
{
    if binds.len() > 0 {
        let rest = binds.subrange(1, binds.len() as int);
        assert(forall|k: int| 0 <= k < rest.len() ==> (#[trigger] rest[k]) == binds[k + 1]);
        lemma_lookup_at_absent(rest, v);
    }
}

} // verus!
