//! Point-data normalization: turning heterogeneous numeric sequences into
//! a uniform ordered sequence of `(x, y)` points.
//!
//! A sequence of single values is indexed: the item at position `i`
//! becomes `(i, value)`.  A sequence of pairs passes through unchanged.
//! No reordering, no deduplication.

use vstd::prelude::*;

verus! {

/// One item of a sequence being normalized into point data.
pub trait IntoDataIterItem: Sized {
    /// Whether the item (at the given position) can be represented as a
    /// point without loss.
    spec fn item_ok(self, idx: int) -> bool;

    /// The point this item denotes when it sits at position `idx`.
    spec fn spec_item(self, idx: int) -> (i64, i64);

    /// Converts this item, at position `idx`, into a point.
    fn into_data_item(self, idx: usize) -> (r: (i64, i64))
        requires
            self.item_ok(idx as int),
        ensures
            r == self.spec_item(idx as int),
    ;
}

impl IntoDataIterItem for i64 {
    open spec fn item_ok(self, idx: int) -> bool {
        idx <= i64::MAX
    }

    open spec fn spec_item(self, idx: int) -> (i64, i64) {
        (idx as i64, self)
    }

    fn into_data_item(self, idx: usize) -> (r: (i64, i64)) {
        (idx as i64, self)
    }
}

impl IntoDataIterItem for i32 {
    open spec fn item_ok(self, idx: int) -> bool {
        idx <= i64::MAX
    }

    open spec fn spec_item(self, idx: int) -> (i64, i64) {
        (idx as i64, self as i64)
    }

    fn into_data_item(self, idx: usize) -> (r: (i64, i64)) {
        (idx as i64, self as i64)
    }
}

impl IntoDataIterItem for i8 {
    open spec fn item_ok(self, idx: int) -> bool {
        idx <= i64::MAX
    }

    open spec fn spec_item(self, idx: int) -> (i64, i64) {
        (idx as i64, self as i64)
    }

    fn into_data_item(self, idx: usize) -> (r: (i64, i64)) {
        (idx as i64, self as i64)
    }
}

impl IntoDataIterItem for u8 {
    open spec fn item_ok(self, idx: int) -> bool {
        idx <= i64::MAX
    }

    open spec fn spec_item(self, idx: int) -> (i64, i64) {
        (idx as i64, self as i64)
    }

    fn into_data_item(self, idx: usize) -> (r: (i64, i64)) {
        (idx as i64, self as i64)
    }
}

impl IntoDataIterItem for u32 {
    open spec fn item_ok(self, idx: int) -> bool {
        idx <= i64::MAX
    }

    open spec fn spec_item(self, idx: int) -> (i64, i64) {
        (idx as i64, self as i64)
    }

    fn into_data_item(self, idx: usize) -> (r: (i64, i64)) {
        (idx as i64, self as i64)
    }
}

impl IntoDataIterItem for u64 {
    open spec fn item_ok(self, idx: int) -> bool {
        idx <= i64::MAX && self <= i64::MAX
    }

    open spec fn spec_item(self, idx: int) -> (i64, i64) {
        (idx as i64, self as i64)
    }

    fn into_data_item(self, idx: usize) -> (r: (i64, i64)) {
        (idx as i64, self as i64)
    }
}

impl IntoDataIterItem for (i64, i64) {
    open spec fn item_ok(self, idx: int) -> bool {
        true
    }

    open spec fn spec_item(self, idx: int) -> (i64, i64) {
        self
    }

    fn into_data_item(self, idx: usize) -> (r: (i64, i64)) {
        self
    }
}

impl IntoDataIterItem for (i32, i32) {
    open spec fn item_ok(self, idx: int) -> bool {
        true
    }

    open spec fn spec_item(self, idx: int) -> (i64, i64) {
        (self.0 as i64, self.1 as i64)
    }

    fn into_data_item(self, idx: usize) -> (r: (i64, i64)) {
        (self.0 as i64, self.1 as i64)
    }
}

/// Normalizes a sequence of items into point data, preserving length and
/// input order: the item at position `i` yields the point at position `i`.
pub fn data_from_iterator<I: IntoDataIterItem + Copy>(items: Vec<I>) -> (r: Vec<(i64, i64)>)
    requires
        forall|i: int| 0 <= i < items@.len() ==> #[trigger] items@[i].item_ok(i),
    ensures
        r@.len() == items@.len(),
        forall|i: int| 0 <= i < items@.len() ==> r@[i] == #[trigger] items@[i].spec_item(i),
{
    let mut out: Vec<(i64, i64)> = Vec::new();
    let n = items.len();
    for i in 0..n
        invariant
            n == items@.len(),
            out@.len() == i,
            forall|j: int| 0 <= j < items@.len() ==> #[trigger] items@[j].item_ok(j),
            forall|j: int| 0 <= j < i ==> out@[j] == #[trigger] items@[j].spec_item(j),
    {
        let item = items[i];
        out.push(item.into_data_item(i));
    }
    out
}

/// Normalizing a sequence of single values yields the points
/// `(0, v_0), (1, v_1), ...`: the x-coordinates are exactly the input
/// positions, in order, and the values keep their order.
pub proof fn lemma_single_value_indices(v: Vec<i64>)
    ensures
        v.spec_data().len() == v@.len(),
        forall|i: int| 0 <= i < v@.len() ==> #[trigger] v.spec_data()[i] == (i as i64, v@[i]),
{
}

/// A whole value that can be normalized into point data.
pub trait IntoData: Sized {
    /// Whether every element can be represented as a point without loss.
    spec fn data_ok(self) -> bool;

    /// The normalized point sequence this value denotes.
    spec fn spec_data(self) -> Seq<(i64, i64)>;

    /// Normalizes this value into point data.
    fn into_data(self) -> (r: Vec<(i64, i64)>)
        requires
            self.data_ok(),
        ensures
            r@ == self.spec_data(),
    ;
}

impl IntoData for Vec<(i64, i64)> {
    open spec fn data_ok(self) -> bool {
        true
    }

    open spec fn spec_data(self) -> Seq<(i64, i64)> {
        self@
    }

    fn into_data(self) -> (r: Vec<(i64, i64)>) {
        self
    }
}

impl IntoData for Vec<i64> {
    open spec fn data_ok(self) -> bool {
        self@.len() <= i64::MAX
    }

    open spec fn spec_data(self) -> Seq<(i64, i64)> {
        Seq::new(self@.len(), |i: int| self@[i].spec_item(i))
    }

    fn into_data(self) -> (r: Vec<(i64, i64)>) {
        let r = data_from_iterator(self);
        proof {
            assert(r@ =~= self.spec_data());
        }
        r
    }
}

impl IntoData for Vec<i32> {
    open spec fn data_ok(self) -> bool {
        self@.len() <= i64::MAX
    }

    open spec fn spec_data(self) -> Seq<(i64, i64)> {
        Seq::new(self@.len(), |i: int| self@[i].spec_item(i))
    }

    fn into_data(self) -> (r: Vec<(i64, i64)>) {
        let r = data_from_iterator(self);
        proof {
            assert(r@ =~= self.spec_data());
        }
        r
    }
}

impl IntoData for Vec<i8> {
    open spec fn data_ok(self) -> bool {
        self@.len() <= i64::MAX
    }

    open spec fn spec_data(self) -> Seq<(i64, i64)> {
        Seq::new(self@.len(), |i: int| self@[i].spec_item(i))
    }

    fn into_data(self) -> (r: Vec<(i64, i64)>) {
        let r = data_from_iterator(self);
        proof {
            assert(r@ =~= self.spec_data());
        }
        r
    }
}

impl IntoData for Vec<u8> {
    open spec fn data_ok(self) -> bool {
        self@.len() <= i64::MAX
    }

    open spec fn spec_data(self) -> Seq<(i64, i64)> {
        Seq::new(self@.len(), |i: int| self@[i].spec_item(i))
    }

    fn into_data(self) -> (r: Vec<(i64, i64)>) {
        let r = data_from_iterator(self);
        proof {
            assert(r@ =~= self.spec_data());
        }
        r
    }
}

impl IntoData for Vec<u32> {
    open spec fn data_ok(self) -> bool {
        self@.len() <= i64::MAX
    }

    open spec fn spec_data(self) -> Seq<(i64, i64)> {
        Seq::new(self@.len(), |i: int| self@[i].spec_item(i))
    }

    fn into_data(self) -> (r: Vec<(i64, i64)>) {
        let r = data_from_iterator(self);
        proof {
            assert(r@ =~= self.spec_data());
        }
        r
    }
}

impl IntoData for Vec<u64> {
    open spec fn data_ok(self) -> bool {
        self@.len() <= i64::MAX && forall|i: int|
            0 <= i < self@.len() ==> #[trigger] self@[i] <= i64::MAX
    }

    open spec fn spec_data(self) -> Seq<(i64, i64)> {
        Seq::new(self@.len(), |i: int| self@[i].spec_item(i))
    }

    fn into_data(self) -> (r: Vec<(i64, i64)>) {
        let r = data_from_iterator(self);
        proof {
            assert(r@ =~= self.spec_data());
        }
        r
    }
}

impl IntoData for Vec<(i32, i32)> {
    open spec fn data_ok(self) -> bool {
        true
    }

    open spec fn spec_data(self) -> Seq<(i64, i64)> {
        Seq::new(self@.len(), |i: int| self@[i].spec_item(i))
    }

    fn into_data(self) -> (r: Vec<(i64, i64)>) {
        let r = data_from_iterator(self);
        proof {
            assert(r@ =~= self.spec_data());
        }
        r
    }
}

impl<const N: usize> IntoData for [i64; N] {
    open spec fn data_ok(self) -> bool {
        N <= i64::MAX
    }

    open spec fn spec_data(self) -> Seq<(i64, i64)> {
        Seq::new(self@.len(), |i: int| self@[i].spec_item(i))
    }

    fn into_data(self) -> (r: Vec<(i64, i64)>) {
        let mut out: Vec<(i64, i64)> = Vec::new();
        for i in 0..N
            invariant
                N <= i64::MAX,
                out@.len() == i,
                forall|j: int| 0 <= j < i ==> out@[j] == (j as i64, self@[j]),
        {
            out.push((i as i64, self[i]));
        }
        proof {
            assert(out@ =~= self.spec_data());
        }
        out
    }
}

impl<const N: usize> IntoData for [(i64, i64); N] {
    open spec fn data_ok(self) -> bool {
        true
    }

    open spec fn spec_data(self) -> Seq<(i64, i64)> {
        self@
    }

    fn into_data(self) -> (r: Vec<(i64, i64)>) {
        let mut out: Vec<(i64, i64)> = Vec::new();
        for i in 0..N
            invariant
                out@.len() == i,
                forall|j: int| 0 <= j < i ==> out@[j] == self@[j],
        {
            out.push(self[i]);
        }
        proof {
            assert(out@ =~= self@);
        }
        out
    }
}

} // verus!
