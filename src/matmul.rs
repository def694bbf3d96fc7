//! Matrix multiplication of tensors.
//!
//! Shapes are written outermost first; the native engine numbers the same
//! extents innermost first (`native_extent`). Two operands multiply when they
//! agree on every native extent but the second one, the free axis. The
//! multiplication does not broadcast: the result has the rank that
//! `mul_mat_rank` gives for the operands' ranks, and its extents are the free
//! extents of the two operands (of the right operand alone where the left one
//! is a vector and the right one is not), followed by the right operand's outer
//! extents. The result always holds `F32` elements, as the native kernel makes it.
use vstd::prelude::*;

use crate::context::{GContext, GError};
use crate::memory::{estimate_spec, fits_spec, MAX_DIMS};
use crate::tensor::{charged, GTensor};
use crate::util::GType;

verus! {

/// The rank of the product of operands of ranks `l` and `r`, where they may
/// be multiplied at all.
pub open spec fn mul_mat_rank(l: nat, r: nat) -> Option<nat> {
    if 1 <= l <= 4 && l == r {
        Some(l)
    } else if (l == 2 && r == 1) || (l == 3 && r == 1) || (l == 1 && r == 2) || (l == 1 && r
        == 3) {
        Some(1)
    } else if (l == 3 && r == 2) || (l == 2 && r == 3) {
        Some(2)
    } else {
        None
    }
}

/// Extent `i` of `s` counted innermost first, 1 beyond its rank.
pub open spec fn native_extent(s: Seq<usize>, i: int) -> usize {
    if 0 <= i < s.len() {
        s[s.len() - 1 - i]
    } else {
        1
    }
}

/// The operands agree on every native extent but the free axis.
pub open spec fn can_mul_mat_spec(l: Seq<usize>, r: Seq<usize>) -> bool {
    &&& native_extent(l, 0) == native_extent(r, 0)
    &&& native_extent(l, 2) == native_extent(r, 2)
    &&& native_extent(l, 3) == native_extent(r, 3)
}

/// Native extent `k` of the product of `l` by `r`.
pub open spec fn product_extent(l: Seq<usize>, r: Seq<usize>, k: int) -> usize {
    if l.len() == 1 && r.len() > 1 {
        native_extent(r, k + 1)
    } else if k == 0 {
        native_extent(l, 1)
    } else {
        native_extent(r, k)
    }
}

/// The shape of the product of `l` by `r` at rank `o`, outermost first.
pub open spec fn mul_mat_shape(l: Seq<usize>, r: Seq<usize>, o: nat) -> Seq<usize> {
    Seq::new(o, |j: int| product_extent(l, r, o - 1 - j))
}

/// What multiplying `l` by `r` into a rank-`o` result does to the arena `c`
/// (now `n`), and what it returns: an invalid operation where the operands
/// disagree off the free axis, insufficient memory where the product does not
/// fit, and otherwise the product, charged to the arena.
pub open spec fn mul_mat_outcome<const O: usize>(
    c: GContext,
    n: GContext,
    l: Seq<usize>,
    r: Seq<usize>,
    res: Result<GTensor<O>, GError>,
) -> bool {
    let shape = mul_mat_shape(l, r, O as nat);
    if !can_mul_mat_spec(l, r) {
        res == Err::<GTensor<O>, GError>(GError::InvalidOperation) && n == c
    } else if !fits_spec(c, GType::F32, shape) {
        res == Err::<GTensor<O>, GError>(
            GError::InsufficientMemory(estimate_spec(c, GType::F32, shape)),
        ) && n == c
    } else {
        &&& res.is_ok()
        &&& res.unwrap().wf()
        &&& res.unwrap().typ == GType::F32
        &&& res.unwrap().shape@ == shape
        &&& charged(c, n, GType::F32, shape)
    }
}

/// Operands that disagree off the free axis are refused as an invalid
/// operation whatever their ranks; operands that agree, whose product fits,
/// give a product of the rank that `mul_mat_rank` maps their ranks to.
pub proof fn lemma_mul_mat_law<const L: usize, const R: usize, const O: usize>(
    c: GContext,
    n: GContext,
    lhs: GTensor<L>,
    rhs: GTensor<R>,
    res: Result<GTensor<O>, GError>,
)
    requires
        lhs.wf(),
        rhs.wf(),
        mul_mat_rank(L as nat, R as nat) == Some(O as nat),
        mul_mat_outcome(c, n, lhs.shape@, rhs.shape@, res),
    ensures
        !can_mul_mat_spec(lhs.shape@, rhs.shape@) ==> res == Err::<GTensor<O>, GError>(
            GError::InvalidOperation,
        ),
        can_mul_mat_spec(lhs.shape@, rhs.shape@) && fits_spec(
            c,
            GType::F32,
            mul_mat_shape(lhs.shape@, rhs.shape@, O as nat),
        ) ==> res.is_ok() && res.unwrap().shape@.len() == O && Some(
            res.unwrap().shape@.len() as nat,
        ) == mul_mat_rank(L as nat, R as nat),
{
}

fn native_extent_of(s: &Vec<usize>, i: usize) -> (r: usize)
    ensures
        r == native_extent(s@, i as int),
{
    if i < s.len() {
        s[s.len() - 1 - i]
    } else {
        1
    }
}

/// Whether `l` and `r` agree on every native extent but the free axis.
pub fn can_mul_mat(l: &Vec<usize>, r: &Vec<usize>) -> (b: bool)
    ensures
        b == can_mul_mat_spec(l@, r@),
{
    native_extent_of(l, 0) == native_extent_of(r, 0) && native_extent_of(l, 2)
        == native_extent_of(r, 2) && native_extent_of(l, 3) == native_extent_of(r, 3)
}

/// The shape of the product of `l` by `r` at rank `o`.
pub fn mul_mat_output_shape(l: &Vec<usize>, r: &Vec<usize>, o: usize) -> (s: Vec<usize>)
    requires
        o <= MAX_DIMS,
    ensures
        s@ == mul_mat_shape(l@, r@, o as nat),
{
    let mut s: Vec<usize> = Vec::new();
    let mut j: usize = 0;
    while j < o
        invariant
            j <= o <= MAX_DIMS,
            s@ == mul_mat_shape(l@, r@, o as nat).take(j as int),
        decreases o - j,
    {
        let k = o - 1 - j;
        let e = if l.len() == 1 && r.len() > 1 {
            native_extent_of(r, k + 1)
        } else if k == 0 {
            native_extent_of(l, 1)
        } else {
            native_extent_of(r, k)
        };
        s.push(e);
        j += 1;
        assert(s@ =~= mul_mat_shape(l@, r@, o as nat).take(j as int));
    }
    assert(s@ =~= mul_mat_shape(l@, r@, o as nat));
    s
}

impl GContext {
    /// Multiplies `lhs` by `rhs` into a rank-`O` result: checks the shapes,
    /// then gates and charges the product as `reserve_tensor` says.
    pub fn mul_mat_tensors<const L: usize, const R: usize, const O: usize>(
        &mut self,
        lhs: &GTensor<L>,
        rhs: &GTensor<R>,
    ) -> (res: Result<GTensor<O>, GError>)
        requires
            old(self).wf(),
            lhs.wf(),
            rhs.wf(),
            mul_mat_rank(L as nat, R as nat) == Some(O as nat),
        ensures
            final(self).wf(),
            mul_mat_outcome(*old(self), *final(self), lhs.shape@, rhs.shape@, res),
    {
        if !can_mul_mat(&lhs.shape, &rhs.shape) {
            return Err(GError::InvalidOperation);
        }
        let shape = mul_mat_output_shape(&lhs.shape, &rhs.shape, O);
        match self.reserve_tensor(GType::F32, shape.as_slice()) {
            Ok(_) => Ok(GTensor { typ: GType::F32, shape }),
            Err(e) => Err(e),
        }
    }
}

/// Matrix multiplication of a rank-`LDIMS` tensor by a rank-`RDIMS` tensor
/// into a rank-`ODIMS` result, within an arena. Implemented for exactly the
/// rank combinations that `mul_mat_rank` admits.
pub trait GMulMat<const LDIMS: usize, const RDIMS: usize, const ODIMS: usize> {
    /// The arena that the product is charged to.
    spec fn arena(&self) -> GContext;

    /// `lhs` times `rhs`, as `mul_mat_outcome` says.
    fn mul_mat(&mut self, lhs: &GTensor<LDIMS>, rhs: &GTensor<RDIMS>) -> (res: Result<
        GTensor<ODIMS>,
        GError,
    >)
        requires
            old(self).arena().wf(),
            lhs.wf(),
            rhs.wf(),
        ensures
            final(self).arena().wf(),
            mul_mat_outcome(old(self).arena(), final(self).arena(), lhs.shape@, rhs.shape@, res),
    ;
}

/// Matrix multiplication with the left operand as receiver: `a.mul_mat(ctx, b)`.
pub trait GMulMatT<const LDIMS: usize, const RDIMS: usize, const ODIMS: usize> {
    /// The receiver's shape, outermost first.
    spec fn operand_shape(&self) -> Seq<usize>;

    /// The receiver is a well-formed operand.
    spec fn operand_wf(&self) -> bool;

    /// `self` times `rhs`, charged to `ctx`, as `mul_mat_outcome` says.
    fn mul_mat(&self, ctx: &mut GContext, rhs: &GTensor<RDIMS>) -> (res: Result<
        GTensor<ODIMS>,
        GError,
    >)
        requires
            old(ctx).wf(),
            self.operand_wf(),
            rhs.wf(),
        ensures
            final(ctx).wf(),
            mul_mat_outcome(*old(ctx), *final(ctx), self.operand_shape(), rhs.shape@, res),
    ;
}

impl GMulMat<1, 1, 1> for GContext {
    open spec fn arena(&self) -> GContext {
        *self
    }

    fn mul_mat(&mut self, lhs: &GTensor<1>, rhs: &GTensor<1>) -> (res: Result<GTensor<1>, GError>) {
        self.mul_mat_tensors(lhs, rhs)
    }
}

impl GMulMatT<1, 1, 1> for GTensor<1> {
    open spec fn operand_shape(&self) -> Seq<usize> {
        self.shape@
    }

    open spec fn operand_wf(&self) -> bool {
        self.wf()
    }

    fn mul_mat(&self, ctx: &mut GContext, rhs: &GTensor<1>) -> (res: Result<GTensor<1>, GError>) {
        ctx.mul_mat_tensors(self, rhs)
    }
}

impl GMulMat<2, 2, 2> for GContext {
    open spec fn arena(&self) -> GContext {
        *self
    }

    fn mul_mat(&mut self, lhs: &GTensor<2>, rhs: &GTensor<2>) -> (res: Result<GTensor<2>, GError>) {
        self.mul_mat_tensors(lhs, rhs)
    }
}

impl GMulMatT<2, 2, 2> for GTensor<2> {
    open spec fn operand_shape(&self) -> Seq<usize> {
        self.shape@
    }

    open spec fn operand_wf(&self) -> bool {
        self.wf()
    }

    fn mul_mat(&self, ctx: &mut GContext, rhs: &GTensor<2>) -> (res: Result<GTensor<2>, GError>) {
        ctx.mul_mat_tensors(self, rhs)
    }
}

impl GMulMat<3, 3, 3> for GContext {
    open spec fn arena(&self) -> GContext {
        *self
    }

    fn mul_mat(&mut self, lhs: &GTensor<3>, rhs: &GTensor<3>) -> (res: Result<GTensor<3>, GError>) {
        self.mul_mat_tensors(lhs, rhs)
    }
}

impl GMulMatT<3, 3, 3> for GTensor<3> {
    open spec fn operand_shape(&self) -> Seq<usize> {
        self.shape@
    }

    open spec fn operand_wf(&self) -> bool {
        self.wf()
    }

    fn mul_mat(&self, ctx: &mut GContext, rhs: &GTensor<3>) -> (res: Result<GTensor<3>, GError>) {
        ctx.mul_mat_tensors(self, rhs)
    }
}

impl GMulMat<4, 4, 4> for GContext {
    open spec fn arena(&self) -> GContext {
        *self
    }

    fn mul_mat(&mut self, lhs: &GTensor<4>, rhs: &GTensor<4>) -> (res: Result<GTensor<4>, GError>) {
        self.mul_mat_tensors(lhs, rhs)
    }
}

impl GMulMatT<4, 4, 4> for GTensor<4> {
    open spec fn operand_shape(&self) -> Seq<usize> {
        self.shape@
    }

    open spec fn operand_wf(&self) -> bool {
        self.wf()
    }

    fn mul_mat(&self, ctx: &mut GContext, rhs: &GTensor<4>) -> (res: Result<GTensor<4>, GError>) {
        ctx.mul_mat_tensors(self, rhs)
    }
}

impl GMulMat<2, 1, 1> for GContext {
    open spec fn arena(&self) -> GContext {
        *self
    }

    fn mul_mat(&mut self, lhs: &GTensor<2>, rhs: &GTensor<1>) -> (res: Result<GTensor<1>, GError>) {
        self.mul_mat_tensors(lhs, rhs)
    }
}

impl GMulMatT<2, 1, 1> for GTensor<2> {
    open spec fn operand_shape(&self) -> Seq<usize> {
        self.shape@
    }

    open spec fn operand_wf(&self) -> bool {
        self.wf()
    }

    fn mul_mat(&self, ctx: &mut GContext, rhs: &GTensor<1>) -> (res: Result<GTensor<1>, GError>) {
        ctx.mul_mat_tensors(self, rhs)
    }
}

impl GMulMat<3, 1, 1> for GContext {
    open spec fn arena(&self) -> GContext {
        *self
    }

    fn mul_mat(&mut self, lhs: &GTensor<3>, rhs: &GTensor<1>) -> (res: Result<GTensor<1>, GError>) {
        self.mul_mat_tensors(lhs, rhs)
    }
}

impl GMulMatT<3, 1, 1> for GTensor<3> {
    open spec fn operand_shape(&self) -> Seq<usize> {
        self.shape@
    }

    open spec fn operand_wf(&self) -> bool {
        self.wf()
    }

    fn mul_mat(&self, ctx: &mut GContext, rhs: &GTensor<1>) -> (res: Result<GTensor<1>, GError>) {
        ctx.mul_mat_tensors(self, rhs)
    }
}

impl GMulMat<1, 2, 1> for GContext {
    open spec fn arena(&self) -> GContext {
        *self
    }

    fn mul_mat(&mut self, lhs: &GTensor<1>, rhs: &GTensor<2>) -> (res: Result<GTensor<1>, GError>) {
        self.mul_mat_tensors(lhs, rhs)
    }
}

impl GMulMatT<1, 2, 1> for GTensor<1> {
    open spec fn operand_shape(&self) -> Seq<usize> {
        self.shape@
    }

    open spec fn operand_wf(&self) -> bool {
        self.wf()
    }

    fn mul_mat(&self, ctx: &mut GContext, rhs: &GTensor<2>) -> (res: Result<GTensor<1>, GError>) {
        ctx.mul_mat_tensors(self, rhs)
    }
}

impl GMulMat<3, 2, 2> for GContext {
    open spec fn arena(&self) -> GContext {
        *self
    }

    fn mul_mat(&mut self, lhs: &GTensor<3>, rhs: &GTensor<2>) -> (res: Result<GTensor<2>, GError>) {
        self.mul_mat_tensors(lhs, rhs)
    }
}

impl GMulMatT<3, 2, 2> for GTensor<3> {
    open spec fn operand_shape(&self) -> Seq<usize> {
        self.shape@
    }

    open spec fn operand_wf(&self) -> bool {
        self.wf()
    }

    fn mul_mat(&self, ctx: &mut GContext, rhs: &GTensor<2>) -> (res: Result<GTensor<2>, GError>) {
        ctx.mul_mat_tensors(self, rhs)
    }
}

impl GMulMat<1, 3, 1> for GContext {
    open spec fn arena(&self) -> GContext {
        *self
    }

    fn mul_mat(&mut self, lhs: &GTensor<1>, rhs: &GTensor<3>) -> (res: Result<GTensor<1>, GError>) {
        self.mul_mat_tensors(lhs, rhs)
    }
}

impl GMulMatT<1, 3, 1> for GTensor<1> {
    open spec fn operand_shape(&self) -> Seq<usize> {
        self.shape@
    }

    open spec fn operand_wf(&self) -> bool {
        self.wf()
    }

    fn mul_mat(&self, ctx: &mut GContext, rhs: &GTensor<3>) -> (res: Result<GTensor<1>, GError>) {
        ctx.mul_mat_tensors(self, rhs)
    }
}

impl GMulMat<2, 3, 2> for GContext {
    open spec fn arena(&self) -> GContext {
        *self
    }

    fn mul_mat(&mut self, lhs: &GTensor<2>, rhs: &GTensor<3>) -> (res: Result<GTensor<2>, GError>) {
        self.mul_mat_tensors(lhs, rhs)
    }
}

impl GMulMatT<2, 3, 2> for GTensor<2> {
    open spec fn operand_shape(&self) -> Seq<usize> {
        self.shape@
    }

    open spec fn operand_wf(&self) -> bool {
        self.wf()
    }

    fn mul_mat(&self, ctx: &mut GContext, rhs: &GTensor<3>) -> (res: Result<GTensor<2>, GError>) {
        ctx.mul_mat_tensors(self, rhs)
    }
}

} // verus!
