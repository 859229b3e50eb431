//! Secret shares and the two primitives that compute on them: the
//! confidential comparator and the oblivious selector.
//!
//! A share hides its value: the field is private and only a `SecretIndex`
//! can be opened. Every primitive records itself in the session's operation
//! log, so that the shape of a computation can be inspected.

use vstd::prelude::*;

verus! {

/// One step of a computation on secret shares.
#[derive(Clone, Copy, Debug, PartialEq, Eq, Structural)]
pub enum CircuitOp {
    /// A public constant was turned into a share.
    Share,
    /// Two shares were compared.
    Compare,
    /// One of two shares was selected.
    Select,
    /// A share was opened.
    Reveal,
}

/// A computation session: the log of the operations performed so far.
pub struct MxeContext {
    log: Vec<CircuitOp>,
}

impl View for MxeContext {
    type V = Seq<CircuitOp>;

    closed spec fn view(&self) -> Seq<CircuitOp> {
        self.log@
    }
}

/// How often `op` occurs in `ops`.
pub open spec fn occurrences(ops: Seq<CircuitOp>, op: CircuitOp) -> nat
    decreases ops.len(),
{
    if ops.len() == 0 {
        0
    } else {
        occurrences(ops.drop_last(), op) + if ops.last() == op {
            1nat
        } else {
            0nat
        }
    }
}

/// Appending one operation adds one occurrence of it and none of any other.
pub proof fn lemma_occurrences_push(ops: Seq<CircuitOp>, done: CircuitOp, op: CircuitOp)
    ensures
        occurrences(ops.push(done), op) == occurrences(ops, op) + if done == op {
            1nat
        } else {
            0nat
        },
{
    assert(ops.push(done).drop_last() =~= ops);
}

/// A secret-shared bid value.
#[derive(Clone, Copy, Debug)]
pub struct SecretValue {
    value: u64,
}

/// A secret-shared position in the bid array.
#[derive(Clone, Copy, Debug)]
pub struct SecretIndex {
    index: u32,
}

/// A secret-shared truth value.
#[derive(Clone, Copy, Debug)]
pub struct SecretFlag {
    bit: u64,
}

impl View for SecretValue {
    type V = u64;

    closed spec fn view(&self) -> u64 {
        self.value
    }
}

impl View for SecretIndex {
    type V = u32;

    closed spec fn view(&self) -> u32 {
        self.index
    }
}

impl View for SecretFlag {
    type V = bool;

    closed spec fn view(&self) -> bool {
        self.bit & 1 == 1
    }
}

impl MxeContext {
    /// A fresh session, with nothing done yet.
    pub fn new() -> (r: MxeContext)
        ensures
            r@ == Seq::<CircuitOp>::empty(),
    {
        MxeContext { log: Vec::new() }
    }

    /// The operations performed so far, oldest first.
    pub fn operations(&self) -> (r: &Vec<CircuitOp>)
        ensures
            r@ == self@,
    {
        &self.log
    }

    /// How many of the operations performed so far are `op`.
    pub fn count(&self, op: CircuitOp) -> (r: usize)
        ensures
            r == occurrences(self@, op),
    {
        let mut n: usize = 0;
        let mut i: usize = 0;
        while i < self.log.len()
            invariant
                i <= self.log.len(),
                n <= i,
                n == occurrences(self.log@.take(i as int), op),
            decreases self.log.len() - i,
        {
            proof {
                assert(self.log@.take(i + 1).drop_last() =~= self.log@.take(i as int));
            }
            if self.log[i] == op {
                n += 1;
            }
            i += 1;
        }
        proof {
            assert(self.log@.take(i as int) =~= self.log@);
        }
        n
    }

    /// Shares a public position.
    pub fn secret_share(&mut self, index: u32) -> (r: SecretIndex)
        ensures
            r@ == index,
            final(self)@ == old(self)@.push(CircuitOp::Share),
    {
        self.log.push(CircuitOp::Share);
        SecretIndex { index }
    }
}

impl SecretValue {
    /// The share that a sealed bid of this value becomes when the session
    /// takes it in.
    pub fn seal(value: u64) -> (r: SecretValue)
        ensures
            r@ == value,
    {
        SecretValue { value }
    }

    /// The comparator: a shared flag that says whether `self` is strictly
    /// greater than `other`. Neither operand is opened, and the same
    /// arithmetic runs whatever the operands hold.
    pub fn gt(&self, mxe: &mut MxeContext, other: &SecretValue) -> (r: SecretFlag)
        ensures
            r@ == (self@ > other@),
            final(mxe)@ == old(mxe)@.push(CircuitOp::Compare),
    {
        let a: u128 = self.value as u128;
        let b: u128 = other.value as u128;
        // 2^64 + b - a reaches bit 64 exactly when b >= a.
        let t: u128 = 0x1_0000_0000_0000_0000u128 + b - a;
        let carry: u128 = t >> 64;
        assert(carry == t / 0x1_0000_0000_0000_0000u128) by (bit_vector)
            requires
                carry == t >> 64,
        ;
        let bit: u64 = (1 - carry) as u64;
        assert(bit & 1 == 1 <==> bit == 1) by (bit_vector)
            requires
                bit <= 1,
        ;
        mxe.log.push(CircuitOp::Compare);
        SecretFlag { bit }
    }
}

impl SecretFlag {
    /// The selector on values: a share of `a` where the flag holds, of `b`
    /// where it does not. Nothing is opened and no branch is taken.
    pub fn select(&self, mxe: &mut MxeContext, a: SecretValue, b: SecretValue) -> (r: SecretValue)
        ensures
            r@ == (if self@ {
                a@
            } else {
                b@
            }),
            final(mxe)@ == old(mxe)@.push(CircuitOp::Select),
    {
        let raw: u64 = self.bit;
        let bit: u64 = raw & 1;
        let x: u64 = a.value;
        let y: u64 = b.value;
        assert(bit == 0 || bit == 1) by (bit_vector)
            requires
                bit == raw & 1,
        ;
        // x ^ y where the flag holds, 0 where it does not.
        let delta: u64 = (x ^ y) * bit;
        let value: u64 = y ^ delta;
        assert(bit == 1 ==> value == x) by (bit_vector)
            requires
                value == y ^ delta,
                bit == 1 ==> delta == x ^ y,
        ;
        assert(bit == 0 ==> value == y) by (bit_vector)
            requires
                value == y ^ delta,
                bit == 0 ==> delta == 0,
        ;
        mxe.log.push(CircuitOp::Select);
        SecretValue { value }
    }

    /// The selector on positions: a share of `a` where the flag holds, of
    /// `b` where it does not.
    pub fn select_index(
        &self,
        mxe: &mut MxeContext,
        a: SecretIndex,
        b: SecretIndex,
    ) -> (r: SecretIndex)
        ensures
            r@ == (if self@ {
                a@
            } else {
                b@
            }),
            final(mxe)@ == old(mxe)@.push(CircuitOp::Select),
    {
        let raw: u64 = self.bit;
        let wide: u64 = raw & 1;
        assert(wide == 0 || wide == 1) by (bit_vector)
            requires
                wide == raw & 1,
        ;
        let bit: u32 = wide as u32;
        let x: u32 = a.index;
        let y: u32 = b.index;
        let delta: u32 = (x ^ y) * bit;
        let index: u32 = y ^ delta;
        assert(bit == 1 ==> index == x) by (bit_vector)
            requires
                index == y ^ delta,
                bit == 1 ==> delta == x ^ y,
        ;
        assert(bit == 0 ==> index == y) by (bit_vector)
            requires
                index == y ^ delta,
                bit == 0 ==> delta == 0,
        ;
        mxe.log.push(CircuitOp::Select);
        SecretIndex { index }
    }
}

impl SecretIndex {
    /// Opens the share: the only way a value leaves a session.
    pub fn disclose(self, mxe: &mut MxeContext) -> (r: u32)
        ensures
            r == self@,
            final(mxe)@ == old(mxe)@.push(CircuitOp::Reveal),
    {
        mxe.log.push(CircuitOp::Reveal);
        self.index
    }
}

} // verus!
