//! The stack of model transforms. It is never empty; its top is the current
//! model transform.

use crate::error::GameError;
use crate::matrix::{mat_identity, mat_mul, representable, Matrix4};
use vstd::prelude::*;

verus! {

/// A non-empty stack of matrices.
#[derive(Clone, Debug)]
pub struct TransformStack {
    stack: Vec<Matrix4>,
}

impl View for TransformStack {
    type V = Seq<Seq<int>>;

    /// The matrices from the bottom of the stack to its top.
    closed spec fn view(&self) -> Seq<Seq<int>> {
        Seq::new(self.stack@.len(), |i: int| self.stack@[i]@)
    }
}

impl TransformStack {
    /// The stack holds at least one matrix. Every constructor establishes
    /// this and every method keeps it.
    pub open spec fn wf(&self) -> bool {
        self@.len() >= 1
    }

    /// A stack that holds the identity alone.
    pub fn new() -> (s: TransformStack)
        ensures
            s.wf(),
            s@ == seq![mat_identity()],
    {
        let mut stack: Vec<Matrix4> = Vec::new();
        stack.push(Matrix4::identity());
        let s = TransformStack { stack };
        assert(s@ =~= seq![mat_identity()]);
        s
    }

    /// The number of matrices on the stack.
    pub fn len(&self) -> (n: usize)
        ensures
            n == self@.len(),
    {
        self.stack.len()
    }

    /// The current transform: the matrix on top.
    pub fn top(&self) -> (m: Matrix4)
        requires
            self.wf(),
        ensures
            m@ == self@.last(),
    {
        self.stack[self.stack.len() - 1]
    }

    /// Pushes `transform`, or a copy of the current top where none is given.
    pub fn push(&mut self, transform: Option<Matrix4>)
        requires
            old(self).wf(),
        ensures
            final(self).wf(),
            final(self)@ == old(self)@.push(
                match transform {
                    Some(t) => t@,
                    None => old(self)@.last(),
                },
            ),
    {
        let m = match transform {
            Some(t) => t,
            None => self.stack[self.stack.len() - 1],
        };
        self.stack.push(m);
        assert(self@ =~= old(self)@.push(m@));
    }

    /// Removes the top. The last entry cannot be removed: that is refused
    /// with `TransformStackUnderflow`, and the stack stays as it is.
    pub fn pop(&mut self) -> (r: Result<(), GameError>)
        requires
            old(self).wf(),
        ensures
            final(self).wf(),
            final(self)@ == popped(old(self)@),
            old(self)@.len() > 1 ==> r is Ok && final(self)@ == old(self)@.drop_last(),
            old(self)@.len() <= 1 ==> r == Err::<(), GameError>(GameError::TransformStackUnderflow)
                && final(self)@ == old(self)@,
    {
        if self.stack.len() <= 1 {
            return Err(GameError::TransformStackUnderflow);
        }
        self.stack.pop();
        assert(self@ =~= old(self)@.drop_last());
        Ok(())
    }

    /// Replaces the top.
    pub fn set(&mut self, transform: Matrix4)
        requires
            old(self).wf(),
        ensures
            final(self).wf(),
            final(self)@ == old(self)@.drop_last().push(transform@),
    {
        let n = self.stack.len();
        self.stack[n - 1] = transform;
        assert(self@ =~= old(self)@.drop_last().push(transform@));
    }

    /// Multiplies the top from the left: the new top is `transform × top`.
    /// Where that product cannot be stored the stack stays as it is.
    pub fn mul(&mut self, transform: Matrix4) -> (r: Result<(), GameError>)
        requires
            old(self).wf(),
        ensures
            final(self).wf(),
            representable(mat_mul(transform@, old(self)@.last())) ==> r is Ok && final(self)@
                == old(self)@.drop_last().push(mat_mul(transform@, old(self)@.last())),
            !representable(mat_mul(transform@, old(self)@.last())) ==> r == Err::<(), GameError>(
                GameError::MatrixOverflow,
            ) && final(self)@ == old(self)@,
    {
        let curr = self.top();
        match transform.checked_mul(&curr) {
            Some(m) => {
                self.set(m);
                Ok(())
            },
            None => Err(GameError::MatrixOverflow),
        }
    }

    /// Resets the top to the identity.
    pub fn origin(&mut self)
        requires
            old(self).wf(),
        ensures
            final(self).wf(),
            final(self)@ == old(self)@.drop_last().push(mat_identity()),
    {
        self.set(Matrix4::identity());
    }
}

/// The stack after one nested frame was entered: a copy of the top was
/// pushed and then multiplied from the left by `m`.
pub open spec fn entered(s: Seq<Seq<int>>, m: Seq<int>) -> Seq<Seq<int>> {
    let pushed = s.push(s.last());
    pushed.drop_last().push(mat_mul(m, pushed.last()))
}

/// The stack after a frame was entered for each of `ms` in turn.
pub open spec fn entered_all(s: Seq<Seq<int>>, ms: Seq<Seq<int>>) -> Seq<Seq<int>>
    decreases ms.len(),
{
    if ms.len() == 0 {
        s
    } else {
        entered(entered_all(s, ms.drop_last()), ms.last())
    }
}

/// The product of `ms` in the order in which they were pushed, applied to
/// `base`: the last one stands leftmost.
pub open spec fn composed(ms: Seq<Seq<int>>, base: Seq<int>) -> Seq<int>
    decreases ms.len(),
{
    if ms.len() == 0 {
        base
    } else {
        mat_mul(ms.last(), composed(ms.drop_last(), base))
    }
}

/// A push followed by a pop gives the stack back as it was.
pub proof fn lemma_push_pop_restores(s: Seq<Seq<int>>, m: Seq<int>)
    requires
        s.len() >= 1,
    ensures
        s.push(m).len() > 1,
        s.push(m).last() == m,
        s.push(m).drop_last() == s,
{
    assert(s.push(m).drop_last() =~= s);
}

/// Nested frames compose. After a frame was entered for each of `ms`, the
/// top is the product of `ms` in push order applied to the old top; what lay
/// on the stack before lies there still; and one pop leads back to the
/// stack as it was before the last frame was entered.
pub proof fn lemma_nested_frames_compose(s: Seq<Seq<int>>, ms: Seq<Seq<int>>)
    requires
        s.len() >= 1,
    ensures
        entered_all(s, ms).len() == s.len() + ms.len(),
        entered_all(s, ms).last() == composed(ms, s.last()),
        entered_all(s, ms).take(s.len() as int) == s,
        ms.len() > 0 ==> entered_all(s, ms).drop_last() == entered_all(s, ms.drop_last()),
    decreases ms.len(),
{
    if ms.len() == 0 {
        assert(s.take(s.len() as int) =~= s);
    } else {
        lemma_nested_frames_compose(s, ms.drop_last());
        let before = entered_all(s, ms.drop_last());
        let after = entered(before, ms.last());
        assert(before.push(before.last()).drop_last() =~= before);
        assert(after =~= before.push(mat_mul(ms.last(), before.last())));
        assert(after.drop_last() =~= before);
        assert(after.take(s.len() as int) =~= before.take(s.len() as int));
    }
}

/// One step of nested drawing: a frame is entered with a matrix, or the
/// innermost frame is left.
pub enum FrameOp {
    /// Push a copy of the top and multiply it from the left by the matrix.
    Enter(Seq<int>),
    /// Pop.
    Leave,
}

/// The stack after a pop: without its top, or as it was if it held one
/// entry only.
pub open spec fn popped(s: Seq<Seq<int>>) -> Seq<Seq<int>> {
    if s.len() > 1 {
        s.drop_last()
    } else {
        s
    }
}

/// The stack after a sequence of steps.
pub open spec fn performed(s: Seq<Seq<int>>, ops: Seq<FrameOp>) -> Seq<Seq<int>>
    decreases ops.len(),
{
    if ops.len() == 0 {
        s
    } else {
        match ops.last() {
            FrameOp::Enter(m) => entered(performed(s, ops.drop_last()), m),
            FrameOp::Leave => popped(performed(s, ops.drop_last())),
        }
    }
}

/// The matrices of the frames that are open after a sequence of steps, in
/// the order in which they were entered; `None` if a step left a frame that
/// the sequence had not entered.
pub open spec fn open_frames(ops: Seq<FrameOp>) -> Option<Seq<Seq<int>>>
    decreases ops.len(),
{
    if ops.len() == 0 {
        Some(Seq::empty())
    } else {
        match (open_frames(ops.drop_last()), ops.last()) {
            (Some(ms), FrameOp::Enter(m)) => Some(ms.push(m)),
            (Some(ms), FrameOp::Leave) => if ms.len() > 0 {
                Some(ms.drop_last())
            } else {
                None
            },
            (None, _) => None,
        }
    }
}

/// After any sequence of steps that never leaves a frame it did not enter,
/// the top is the product of the matrices of the open frames, in the order
/// in which they were entered, applied to the top from which the sequence
/// started; and the stack is what entering just those frames gives.
pub proof fn lemma_top_is_composed_product(s: Seq<Seq<int>>, ops: Seq<FrameOp>)
    requires
        s.len() >= 1,
        open_frames(ops) is Some,
    ensures
        performed(s, ops) == entered_all(s, open_frames(ops).unwrap()),
        performed(s, ops).last() == composed(open_frames(ops).unwrap(), s.last()),
        performed(s, ops).len() == s.len() + open_frames(ops).unwrap().len(),
    decreases ops.len(),
{
    let ms = open_frames(ops).unwrap();
    if ops.len() > 0 {
        let before = open_frames(ops.drop_last()).unwrap();
        lemma_top_is_composed_product(s, ops.drop_last());
        match ops.last() {
            FrameOp::Enter(m) => {
                assert(ms.drop_last() =~= before);
            },
            FrameOp::Leave => {
                lemma_nested_frames_compose(s, before);
            },
        }
    }
    lemma_nested_frames_compose(s, ms);
}

} // verus!
