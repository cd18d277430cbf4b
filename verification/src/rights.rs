//! The rights bitmask carried by every handle.
//!
//! A [`Rights`] value is a set of capability flags, one bit per flag. Rights
//! only ever shrink: a mask derived from another one is their intersection
//! with what was asked for, so it never holds a flag that the source lacked.

use vstd::prelude::*;
use crate::error::ZxError;

verus! {

/// A set of capability flags. Bit `i` of `bits` is set when flag `i` is held.
#[derive(Clone, Copy, Debug, PartialEq, Eq, Structural)]
pub struct Rights {
    pub bits: u32,
}

impl Rights {
    pub const DUPLICATE: u32 = 0x0000_0001;
    pub const TRANSFER: u32 = 0x0000_0002;
    pub const READ: u32 = 0x0000_0004;
    pub const WRITE: u32 = 0x0000_0008;
    pub const EXECUTE: u32 = 0x0000_0010;
    pub const MAP: u32 = 0x0000_0020;
    pub const GET_PROPERTY: u32 = 0x0000_0040;
    pub const SET_PROPERTY: u32 = 0x0000_0080;
    pub const ENUMERATE: u32 = 0x0000_0100;
    pub const DESTROY: u32 = 0x0000_0200;
    pub const SET_POLICY: u32 = 0x0000_0400;
    pub const GET_POLICY: u32 = 0x0000_0800;
    pub const SIGNAL: u32 = 0x0000_1000;
    pub const SIGNAL_PEER: u32 = 0x0000_2000;
    pub const WAIT: u32 = 0x0000_4000;
    pub const INSPECT: u32 = 0x0000_8000;
    pub const MANAGE_JOB: u32 = 0x0001_0000;
    pub const MANAGE_PROCESS: u32 = 0x0002_0000;
    pub const MANAGE_THREAD: u32 = 0x0004_0000;
    pub const APPLY_PROFILE: u32 = 0x0008_0000;
    pub const SAME_RIGHTS: u32 = 0x8000_0000;

    pub const BASIC: u32 = Rights::TRANSFER | Rights::DUPLICATE | Rights::WAIT | Rights::INSPECT;
    pub const IO: u32 = Rights::READ | Rights::WRITE;
    pub const PROPERTY: u32 = Rights::GET_PROPERTY | Rights::SET_PROPERTY;
    pub const POLICY: u32 = Rights::GET_POLICY | Rights::SET_POLICY;
    /// What a handle to a thread holds by default.
    pub const DEFAULT_THREAD: u32 = Rights::BASIC | Rights::IO | Rights::PROPERTY | Rights::DESTROY
        | Rights::SIGNAL | Rights::MANAGE_THREAD;
    /// What a handle to a process holds by default.
    pub const DEFAULT_PROCESS: u32 = Rights::BASIC | Rights::IO | Rights::PROPERTY
        | Rights::ENUMERATE | Rights::DESTROY | Rights::SIGNAL | Rights::MANAGE_PROCESS
        | Rights::MANAGE_THREAD;
    /// What a handle to a job holds by default.
    pub const DEFAULT_JOB: u32 = Rights::BASIC | Rights::IO | Rights::PROPERTY | Rights::POLICY
        | Rights::ENUMERATE | Rights::DESTROY | Rights::SIGNAL | Rights::MANAGE_JOB
        | Rights::MANAGE_PROCESS | Rights::MANAGE_THREAD;

    /// Whether every flag of `other` is also a flag of `self`.
    pub open spec fn spec_contains(&self, other: Rights) -> bool {
        self.bits & other.bits == other.bits
    }

    /// Whether every flag of `self` is also a flag of `other`.
    pub open spec fn subset_of(&self, other: Rights) -> bool {
        other.spec_contains(*self)
    }

    /// The flags held by both.
    pub open spec fn spec_intersection(self, other: Rights) -> Rights {
        Rights { bits: self.bits & other.bits }
    }

    /// The flags held by either.
    pub open spec fn spec_union(self, other: Rights) -> Rights {
        Rights { bits: self.bits | other.bits }
    }

    /// The rights with exactly the flags of `bits`.
    pub fn new(bits: u32) -> (r: Rights)
        ensures
            r.bits == bits,
    {
        Rights { bits }
    }

    /// The rights with no flag at all.
    pub fn empty() -> (r: Rights)
        ensures
            r.bits == 0,
    {
        Rights { bits: 0 }
    }

    pub fn bits(&self) -> (r: u32)
        ensures
            r == self.bits,
    {
        self.bits
    }

    pub fn is_empty(&self) -> (r: bool)
        ensures
            r == (self.bits == 0),
    {
        self.bits == 0
    }

    /// Whether every flag of `other` is also a flag of `self`.
    #[verifier::when_used_as_spec(spec_contains)]
    pub fn contains(&self, other: Rights) -> (r: bool)
        ensures
            r == self.spec_contains(other),
    {
        self.bits & other.bits == other.bits
    }

    /// Passes when every flag of `required` is held; `AccessDenied` when one
    /// is missing.
    pub fn check(&self, required: Rights) -> (r: Result<(), ZxError>)
        ensures
            r == if self.spec_contains(required) {
                Ok::<(), ZxError>(())
            } else {
                Err::<(), ZxError>(ZxError::AccessDenied)
            },
    {
        if self.contains(required) {
            Ok(())
        } else {
            Err(ZxError::AccessDenied)
        }
    }

    /// The flags held by both `self` and `other`.
    #[verifier::when_used_as_spec(spec_intersection)]
    pub fn intersection(self, other: Rights) -> (r: Rights)
        ensures
            r == self.spec_intersection(other),
    {
        Rights { bits: self.bits & other.bits }
    }

    /// The flags held by `self` or by `other`.
    #[verifier::when_used_as_spec(spec_union)]
    pub fn union(self, other: Rights) -> (r: Rights)
        ensures
            r == self.spec_union(other),
    {
        Rights { bits: self.bits | other.bits }
    }
}

impl core::default::Default for Rights {
    /// The empty set of rights.
    fn default() -> (r: Rights)
        ensures
            r.bits == 0,
    {
        Rights { bits: 0 }
    }
}

impl core::ops::BitAnd for Rights {
    type Output = Rights;

    fn bitand(self, rhs: Rights) -> (r: Rights) {
        Rights { bits: self.bits & rhs.bits }
    }
}

impl vstd::std_specs::ops::BitAndSpecImpl for Rights {
    open spec fn obeys_bitand_spec() -> bool {
        true
    }

    open spec fn bitand_req(self, rhs: Rights) -> bool {
        true
    }

    open spec fn bitand_spec(self, rhs: Rights) -> Rights {
        self.spec_intersection(rhs)
    }
}

impl core::ops::BitOr for Rights {
    type Output = Rights;

    fn bitor(self, rhs: Rights) -> (r: Rights) {
        Rights { bits: self.bits | rhs.bits }
    }
}

impl vstd::std_specs::ops::BitOrSpecImpl for Rights {
    open spec fn obeys_bitor_spec() -> bool {
        true
    }

    open spec fn bitor_req(self, rhs: Rights) -> bool {
        true
    }

    open spec fn bitor_spec(self, rhs: Rights) -> Rights {
        self.spec_union(rhs)
    }
}

proof fn mask_and_is_below(a: u32, b: u32)
    by (bit_vector)
    ensures
        a & (a & b) == a & b,
        b & (a & b) == a & b,
{
}

proof fn mask_below_is_transitive(a: u32, b: u32, c: u32)
    by (bit_vector)
    requires
        b & a == a,
        c & b == b,
    ensures
        c & a == a,
{
}

proof fn mask_below_both(a: u32, b: u32, c: u32)
    by (bit_vector)
    ensures
        (b & a == a && c & a == a) <==> (b & c) & a == a,
{
}

proof fn mask_holds_union(a: u32, x: u32, y: u32)
    by (bit_vector)
    ensures
        a & (x | y) == (x | y) <==> (a & x == x && a & y == y),
{
}

proof fn mask_equal_when_mutually_below(a: u32, b: u32)
    by (bit_vector)
    requires
        a & b == b,
        b & a == a,
    ensures
        a == b,
{
}

/// Non-escalation: rights derived from `source` by asking for `desired` are a
/// subset of `source` (and of `desired`), whatever was asked for.
pub proof fn lemma_derived_rights_within_source(source: Rights, desired: Rights)
    ensures
        source.spec_intersection(desired).subset_of(source),
        source.spec_intersection(desired).subset_of(desired),
{
    mask_and_is_below(source.bits, desired.bits);
}

/// Non-escalation, flag by flag: a flag that the derived rights hold is a flag
/// that the source held.
pub proof fn lemma_derived_rights_hold_no_new_flag(source: Rights, desired: Rights, flag: Rights)
    requires
        source.spec_intersection(desired).spec_contains(flag),
    ensures
        source.spec_contains(flag),
        desired.spec_contains(flag),
{
    mask_and_is_below(source.bits, desired.bits);
    mask_below_is_transitive(flag.bits, source.bits & desired.bits, source.bits);
    mask_below_is_transitive(flag.bits, source.bits & desired.bits, desired.bits);
}

/// The subset relation is a partial order on rights.
pub proof fn lemma_subset_is_partial_order(a: Rights, b: Rights, c: Rights)
    ensures
        a.subset_of(a),
        a.subset_of(b) && b.subset_of(c) ==> a.subset_of(c),
        a.subset_of(b) && b.subset_of(a) ==> a == b,
{
    assert(a.bits & a.bits == a.bits) by (bit_vector);
    if a.subset_of(b) && b.subset_of(c) {
        mask_below_is_transitive(a.bits, b.bits, c.bits);
    }
    if a.subset_of(b) && b.subset_of(a) {
        mask_equal_when_mutually_below(a.bits, b.bits);
    }
}

/// The intersection is the largest set of rights below both: `c` is a subset
/// of `a` and of `b` exactly when it is a subset of their intersection.
pub proof fn lemma_intersection_is_greatest_lower_bound(a: Rights, b: Rights, c: Rights)
    ensures
        (c.subset_of(a) && c.subset_of(b)) <==> c.subset_of(a.spec_intersection(b)),
{
    mask_below_both(c.bits, a.bits, b.bits);
}

/// The default masks, bit by bit.
pub proof fn lemma_default_masks()
    ensures
        Rights::BASIC == 0x0000_c003,
        Rights::DEFAULT_THREAD == 0x0004_d2cf,
        Rights::DEFAULT_PROCESS == 0x0006_d3cf,
        Rights::DEFAULT_JOB == 0x0007_dfcf,
        Rights::DEFAULT_THREAD & Rights::DEFAULT_PROCESS == Rights::DEFAULT_THREAD,
        Rights::DEFAULT_PROCESS & Rights::DEFAULT_JOB == Rights::DEFAULT_PROCESS,
{
    assert(Rights::BASIC == 0x0000_c003) by (bit_vector);
    assert(Rights::DEFAULT_THREAD == 0x0004_d2cf) by (bit_vector);
    assert(Rights::DEFAULT_PROCESS == 0x0006_d3cf) by (bit_vector);
    assert(Rights::DEFAULT_JOB == 0x0007_dfcf) by (bit_vector);
    assert(0x0004_d2cfu32 & 0x0006_d3cfu32 == 0x0004_d2cfu32) by (bit_vector);
    assert(0x0006_d3cfu32 & 0x0007_dfcfu32 == 0x0006_d3cfu32) by (bit_vector);
}

/// Holding a union of flags is holding each part of it.
pub proof fn lemma_contains_union(a: Rights, x: Rights, y: Rights)
    ensures
        a.spec_contains(x.spec_union(y)) <==> (a.spec_contains(x) && a.spec_contains(y)),
{
    mask_holds_union(a.bits, x.bits, y.bits);
}

} // verus!
