//! Identity descriptors and the distance between them.
//!
//! A descriptor is a vector of [`EMBEDDING_DIMENSION`] fixed-point components,
//! each counted in units of `1 / EMBEDDING_SCALE`. The distance between two
//! descriptors is their Euclidean distance in the same units, rounded up to
//! the next whole unit.

use vstd::prelude::*;

verus! {

/// Number of components of every descriptor.
pub const EMBEDDING_DIMENSION: usize = 128;

/// Number of fixed-point units that make up 1.0.
pub const EMBEDDING_SCALE: i32 = 1_000_000;

/// The identity descriptor of one face chip.
#[derive(Debug)]
pub struct Embedding {
    values: Vec<i32>,
    chip_index: usize,
}

/// The mathematical content of an [`Embedding`].
pub struct EmbeddingView {
    pub values: Seq<i32>,
    pub chip_index: nat,
}

impl EmbeddingView {
    /// A descriptor has exactly [`EMBEDDING_DIMENSION`] components.
    pub open spec fn valid(self) -> bool {
        self.values.len() == EMBEDDING_DIMENSION
    }
}

impl View for Embedding {
    type V = EmbeddingView;

    closed spec fn view(&self) -> EmbeddingView {
        EmbeddingView { values: self.values@, chip_index: self.chip_index as nat }
    }
}

/// Sum of the squared component differences over the first `n` components.
pub open spec fn squared_distance_upto(a: Seq<i32>, b: Seq<i32>, n: nat) -> nat
    decreases n,
{
    if n == 0 {
        0
    } else {
        let d = a[n - 1] - b[n - 1];
        squared_distance_upto(a, b, (n - 1) as nat) + (d * d) as nat
    }
}

/// Squared Euclidean distance between two component vectors of one length.
pub open spec fn squared_distance(a: Seq<i32>, b: Seq<i32>) -> nat {
    squared_distance_upto(a, b, a.len())
}

/// `r` is the least natural number whose square is at least `n`.
pub open spec fn is_root_ceiling(n: nat, r: nat) -> bool {
    r * r >= n && (r == 0 || (r - 1) * (r - 1) < n)
}

/// The square root of `n`, rounded up.
pub open spec fn root_ceiling(n: nat) -> nat {
    choose|r: nat| is_root_ceiling(n, r)
}

/// The distance between two descriptors: the Euclidean distance of their
/// component vectors, rounded up.
pub open spec fn distance_between(a: EmbeddingView, b: EmbeddingView) -> nat {
    root_ceiling(squared_distance(a.values, b.values))
}

/// Every natural number has a rounded-up square root.
pub proof fn lemma_root_ceiling_exists(n: nat)
    ensures
        is_root_ceiling(n, root_ceiling(n)),
    decreases n,
{
    if n == 0 {
        assert(is_root_ceiling(0, 0));
    } else {
        lemma_root_ceiling_exists((n - 1) as nat);
        let r = root_ceiling((n - 1) as nat);
        if r * r >= n {
            assert(is_root_ceiling(n, r));
        } else {
            assert((r + 1) * (r + 1) >= n) by (nonlinear_arith)
                requires
                    r * r >= n - 1,
            ;
            assert(is_root_ceiling(n, r + 1));
        }
    }
}

/// Squaring preserves order on the natural numbers.
pub proof fn lemma_square_monotonic(x: nat, y: nat)
    requires
        x <= y,
    ensures
        x * x <= y * y,
{
    assert(x * x <= y * y) by (nonlinear_arith)
        requires
            x <= y,
    ;
}

/// The rounded-up square root is unique: whatever satisfies its definition
/// is the root.
pub proof fn lemma_root_ceiling_unique(n: nat, r: nat)
    requires
        is_root_ceiling(n, r),
    ensures
        r == root_ceiling(n),
{
    lemma_root_ceiling_exists(n);
    let q = root_ceiling(n);
    if r < q {
        lemma_square_monotonic(r, (q - 1) as nat);
    } else if q < r {
        lemma_square_monotonic(q, (r - 1) as nat);
    }
}

/// Rounding up never changes on which side of a whole threshold a distance
/// lies: the rounded root exceeds `t` exactly when `n` exceeds `t * t`.
pub proof fn lemma_root_ceiling_exceeds(n: nat, t: nat)
    ensures
        root_ceiling(n) > t <==> n > t * t,
{
    lemma_root_ceiling_exists(n);
    let r = root_ceiling(n);
    if r > t {
        lemma_square_monotonic(t, (r - 1) as nat);
    } else {
        lemma_square_monotonic(r, t);
    }
}

/// The squared distance does not depend on the order of its arguments.
pub proof fn lemma_squared_distance_symmetric(a: Seq<i32>, b: Seq<i32>, n: nat)
    ensures
        squared_distance_upto(a, b, n) == squared_distance_upto(b, a, n),
    decreases n,
{
    if n > 0 {
        lemma_squared_distance_symmetric(a, b, (n - 1) as nat);
        let d = a[n - 1] - b[n - 1];
        let e = b[n - 1] - a[n - 1];
        assert(d * d == e * e) by (nonlinear_arith)
            requires
                e == -d,
        ;
    }
}

/// The squared distance of a vector to itself is zero.
pub proof fn lemma_squared_distance_self(a: Seq<i32>, n: nat)
    ensures
        squared_distance_upto(a, a, n) == 0,
    decreases n,
{
    if n > 0 {
        lemma_squared_distance_self(a, (n - 1) as nat);
    }
}

/// Each component contributes at most `2^64` to the squared distance.
pub proof fn lemma_squared_distance_bound(a: Seq<i32>, b: Seq<i32>, n: nat)
    ensures
        squared_distance_upto(a, b, n) <= n * 0x1_0000_0000_0000_0000,
    decreases n,
{
    if n > 0 {
        lemma_squared_distance_bound(a, b, (n - 1) as nat);
        let d = a[n - 1] - b[n - 1];
        assert(d * d <= 0x1_0000_0000_0000_0000) by (nonlinear_arith)
            requires
                -0x1_0000_0000 <= d <= 0x1_0000_0000,
        ;
        assert(d * d >= 0) by (nonlinear_arith);
    }
}

/// A descriptor is at distance zero from itself.
pub proof fn lemma_distance_to_self_is_zero(a: EmbeddingView)
    ensures
        distance_between(a, a) == 0,
{
    lemma_squared_distance_self(a.values, a.values.len());
    assert(is_root_ceiling(0, 0));
    lemma_root_ceiling_unique(0, 0);
}

/// The distance between two descriptors is the same in both directions.
pub proof fn lemma_distance_symmetric(a: EmbeddingView, b: EmbeddingView)
    requires
        a.valid(),
        b.valid(),
    ensures
        distance_between(a, b) == distance_between(b, a),
{
    lemma_squared_distance_symmetric(a.values, b.values, a.values.len());
}

/// Largest squared distance two descriptors can have: `128 * 2^64`.
pub const MAX_SQUARED_DISTANCE: u128 = 0x80_0000_0000_0000_0000;

/// Computes the square root of `n`, rounded up.
pub fn root_ceiling_of(n: u128) -> (r: u64)
    requires
        n <= MAX_SQUARED_DISTANCE,
    ensures
        r == root_ceiling(n as nat),
{
    let mut lo: u64 = 0;
    let mut hi: u64 = 0x10_0000_0000;
    assert(0x10_0000_0000u64 * 0x10_0000_0000u64 >= n) by (nonlinear_arith)
        requires
            n <= 0x80_0000_0000_0000_0000,
    ;
    while lo < hi
        invariant
            lo <= hi <= 0x10_0000_0000,
            hi * hi >= n,
            lo == 0 || (lo - 1) * (lo - 1) < n,
        decreases hi - lo,
    {
        let mid: u64 = lo + (hi - lo) / 2;
        assert(mid * mid <= 0x100_0000_0000_0000_0000) by (nonlinear_arith)
            requires
                mid <= 0x10_0000_0000,
        ;
        let square: u128 = (mid as u128) * (mid as u128);
        if square >= n {
            hi = mid;
        } else {
            lo = mid + 1;
        }
    }
    proof {
        assert(is_root_ceiling(n as nat, lo as nat));
        lemma_root_ceiling_unique(n as nat, lo as nat);
    }
    lo
}

impl Embedding {
    #[verifier::type_invariant]
    spec fn well_formed(self) -> bool {
        self.values@.len() == EMBEDDING_DIMENSION
    }

    /// Wraps a component vector extracted from chip `chip_index`.
    ///
    /// Succeeds exactly when `values` has [`EMBEDDING_DIMENSION`] components.
    pub fn new(values: Vec<i32>, chip_index: usize) -> (embedding: Option<Embedding>)
        ensures
            embedding is Some <==> values@.len() == EMBEDDING_DIMENSION,
            embedding matches Some(e) ==> e@ == (EmbeddingView {
                values: values@,
                chip_index: chip_index as nat,
            }),
    {
        if values.len() == EMBEDDING_DIMENSION {
            Some(Embedding { values, chip_index })
        } else {
            None
        }
    }

    /// The components, in fixed-point units.
    pub fn values(&self) -> (v: &Vec<i32>)
        ensures
            v@ == self@.values,
            self@.valid(),
    {
        proof {
            use_type_invariant(self);
        }
        &self.values
    }

    /// Index of the chip the descriptor was extracted from.
    pub fn chip_index(&self) -> (i: usize)
        ensures
            i == self@.chip_index,
    {
        self.chip_index
    }

    /// An independent copy of the descriptor.
    pub fn duplicate(&self) -> (copy: Embedding)
        ensures
            copy@ == self@,
    {
        proof {
            use_type_invariant(self);
        }
        let values = self.values.clone();
        assert(values@ =~= self.values@);
        Embedding { values, chip_index: self.chip_index }
    }

    /// Squared Euclidean distance to `other`, in squared fixed-point units.
    pub fn squared_distance(&self, other: &Embedding) -> (sum: u128)
        ensures
            sum == squared_distance(self@.values, other@.values),
            sum <= MAX_SQUARED_DISTANCE,
    {
        proof {
            use_type_invariant(self);
            use_type_invariant(other);
        }
        let mut sum: u128 = 0;
        let mut i: usize = 0;
        while i < EMBEDDING_DIMENSION
            invariant
                i <= EMBEDDING_DIMENSION,
                self.values@.len() == EMBEDDING_DIMENSION,
                other.values@.len() == EMBEDDING_DIMENSION,
                sum == squared_distance_upto(self.values@, other.values@, i as nat),
            decreases EMBEDDING_DIMENSION - i,
        {
            let d: i128 = (self.values[i] as i128) - (other.values[i] as i128);
            assert(0 <= d * d <= 0x1_0000_0000_0000_0000) by (nonlinear_arith)
                requires
                    -0x1_0000_0000 <= d <= 0x1_0000_0000,
            ;
            proof {
                lemma_squared_distance_bound(self.values@, other.values@, i as nat);
            }
            sum = sum + ((d * d) as u128);
            i += 1;
        }
        proof {
            lemma_squared_distance_bound(self.values@, other.values@, EMBEDDING_DIMENSION as nat);
        }
        sum
    }

    /// Distance to `other`: zero for equal descriptors, symmetric, and larger
    /// the more the two differ.
    pub fn distance(&self, other: &Embedding) -> (d: u64)
        ensures
            d == distance_between(self@, other@),
    {
        root_ceiling_of(self.squared_distance(other))
    }
}

} // verus!
