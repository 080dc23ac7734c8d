//! Flat concatenation of fixed-size sequences.
//!
//! A value of arity `k` — a tuple, an array, or a single bare value — grows
//! by exactly one element into a value of arity `k + 1`, with every original
//! element kept in its original relative order.  [`After`] places the new
//! element at the front, [`Before`] places it at the back, and [`With`] is a
//! pure alias for [`Before`].
//!
//! Starting from a bare value, two elements of one type seed a two-element
//! array, while two elements of independent types seed a pair.  From there,
//! each supported arity has its own implementation, so requesting an arity
//! above the supported maximum, or an array element of the wrong type, is
//! rejected when the program is type-checked and never fails at run time.

use vstd::array::array_view;
use vstd::prelude::*;

verus! {

/// The combined value `r` is exactly `expected`.  A named spec function
/// rather than a bare `==` in the implementations' own `ensures` clauses,
/// so that the two sides are forced to one type and the clause pins the
/// result completely.
pub open spec fn combines_to<T>(r: T, expected: T) -> bool {
    r == expected
}

/// Flat combination: the receiver ends up *after* the new element.
///
/// `s.after(v)` produces a value of one greater arity whose first element is
/// `v` and whose remaining elements are the elements of `s`, in order.
pub trait After<T, Output>: Sized {
    /// When `r` is the combination: `v` at the front, then the elements of
    /// `self` in their original order.
    spec fn is_after(self, v: T, r: Output) -> bool;

    /// Place `v` at the front, shifting every element of `self` up by one.
    fn after(self, v: T) -> (r: Output)
        ensures
            self.is_after(v, r),
    ;
}

/// Flat combination: the receiver stays *before* the new element.
///
/// `s.before(v)` produces a value of one greater arity whose last element is
/// `v` and whose first elements are the elements of `s`, at their original
/// positions.
pub trait Before<T, Output>: Sized {
    /// When `r` is the combination: the elements of `self` at their original
    /// positions, then `v` at the back.
    spec fn is_before(self, v: T, r: Output) -> bool;

    /// Place `v` at the back, keeping every element of `self` at its index.
    fn before(self, v: T) -> (r: Output)
        ensures
            self.is_before(v, r),
    ;
}

/// Flat combination under a second name: an alias for [`Before`].
///
/// Every type that can `before` can `with`, and the two agree exactly; see
/// [`lemma_with_is_before`].
pub trait With<T, Output>: Sized {
    /// When `r` is the combination; identical to [`Before::is_before`].
    spec fn is_with(self, v: T, r: Output) -> bool;

    /// Place `v` at the back; identical to [`Before::before`].
    fn with(self, v: T) -> (r: Output)
        ensures
            self.is_with(v, r),
    ;
}

impl<A: Before<B, O>, B, O> With<B, O> for A {
    open spec fn is_with(self, v: B, r: O) -> bool {
        self.is_before(v, r)
    }

    fn with(self, v: B) -> (r: O)
        ensures
            self.is_before(v, r),
    {
        self.before(v)
    }
}

/// The alias never diverges from the operation it renames: for every
/// receiver, argument and candidate result, `is_with` and `is_before` agree,
/// so `with` and `before` admit exactly the same results.
pub proof fn lemma_with_is_before<A: Before<B, O>, B, O>(a: A, v: B, r: O)
    ensures
        a.is_with(v, r) == a.is_before(v, r),
{
}

// The homogeneous contracts below pin the result's view: appending at the
// end yields `self@.push(v)`, appending at the front yields `seq![v] + self@`.
// The lemmas that follow state, once for every arity, what those views look
// like element by element, and that the growth is reversible.

/// Appending at the end grows the arity by exactly one, keeps every original
/// element at its original index, and places the new element last.
pub proof fn lemma_append_at_end_shape<T>(s: Seq<T>, x: T, r: Seq<T>)
    requires
        r == s.push(x),
    ensures
        r.len() == s.len() + 1,
        forall|i: int| 0 <= i < s.len() ==> r[i] == s[i],
        r[s.len() as int] == x,
{
}

/// Prepending grows the arity by exactly one, places the new element first,
/// and shifts every original element up by one index, order preserved.
pub proof fn lemma_prepend_shape<T>(s: Seq<T>, x: T, r: Seq<T>)
    requires
        r == seq![x] + s,
    ensures
        r.len() == s.len() + 1,
        r[0] == x,
        forall|i: int| 0 <= i < s.len() ==> r[i + 1] == s[i],
{
}

/// Growing a sequence is reversible: dropping the element that an append at
/// the end added (the last one) restores the original sequence exactly, and
/// dropping the element that a prepend added (the first one) does the same.
/// No element was lost or reordered on the way.
pub proof fn lemma_grow_round_trip<T>(s: Seq<T>, x: T)
    ensures
        s.push(x).take(s.len() as int) == s,
        (seq![x] + s).skip(1) == s,
{
    assert(s.push(x).take(s.len() as int) =~= s);
    assert((seq![x] + s).skip(1) =~= s);
}

// A bare value of arity 1.  With a second element of the same type it seeds
// a two-element array; with one of an arbitrary type it seeds a pair.

impl<T> After<T, [T; 2]> for T {
    open spec fn is_after(self, v: T, r: [T; 2]) -> bool {
        r@ == seq![v, self]
    }

    fn after(self, v: T) -> (r: [T; 2])
        ensures
            array_view(r) == seq![v, self],
    {
        let r: [T; 2] = [v, self];
        proof {
            assert(r@ =~= seq![v, self]);
        }
        r
    }
}

impl<T> Before<T, [T; 2]> for T {
    open spec fn is_before(self, v: T, r: [T; 2]) -> bool {
        r@ == seq![self, v]
    }

    fn before(self, v: T) -> (r: [T; 2])
        ensures
            array_view(r) == seq![self, v],
    {
        let r: [T; 2] = [self, v];
        proof {
            assert(r@ =~= seq![self, v]);
        }
        r
    }
}

impl<A, X> After<X, (X, A)> for A {
    open spec fn is_after(self, v: X, r: (X, A)) -> bool {
        r == (v, self)
    }

    fn after(self, v: X) -> (r: (X, A))
        ensures
            combines_to(r, (v, self)),
    {
        (v, self)
    }
}

impl<A, X> Before<X, (A, X)> for A {
    open spec fn is_before(self, v: X, r: (A, X)) -> bool {
        r == (self, v)
    }

    fn before(self, v: X) -> (r: (A, X))
        ensures
            combines_to(r, (self, v)),
    {
        (self, v)
    }
}

// Tuples of arity 2 through 11.  Element types are independent per position,
// and the new element introduces one further position of its own type, so
// each input arity needs its own implementation pair.

impl<A, B, X> After<X, (X, A, B)> for (A, B) {
    open spec fn is_after(self, v: X, r: (X, A, B)) -> bool {
        r == (v, self.0, self.1)
    }

    fn after(self, v: X) -> (r: (X, A, B))
        ensures
            combines_to(r, (v, self.0, self.1)),
    {
        let (a, b) = self;
        (v, a, b)
    }
}

impl<A, B, X> Before<X, (A, B, X)> for (A, B) {
    open spec fn is_before(self, v: X, r: (A, B, X)) -> bool {
        r == (self.0, self.1, v)
    }

    fn before(self, v: X) -> (r: (A, B, X))
        ensures
            combines_to(r, (self.0, self.1, v)),
    {
        let (a, b) = self;
        (a, b, v)
    }
}

impl<A, B, C, X> After<X, (X, A, B, C)> for (A, B, C) {
    open spec fn is_after(self, v: X, r: (X, A, B, C)) -> bool {
        r == (v, self.0, self.1, self.2)
    }

    fn after(self, v: X) -> (r: (X, A, B, C))
        ensures
            combines_to(r, (v, self.0, self.1, self.2)),
    {
        let (a, b, c) = self;
        (v, a, b, c)
    }
}

impl<A, B, C, X> Before<X, (A, B, C, X)> for (A, B, C) {
    open spec fn is_before(self, v: X, r: (A, B, C, X)) -> bool {
        r == (self.0, self.1, self.2, v)
    }

    fn before(self, v: X) -> (r: (A, B, C, X))
        ensures
            combines_to(r, (self.0, self.1, self.2, v)),
    {
        let (a, b, c) = self;
        (a, b, c, v)
    }
}

impl<A, B, C, D, X> After<X, (X, A, B, C, D)> for (A, B, C, D) {
    open spec fn is_after(self, v: X, r: (X, A, B, C, D)) -> bool {
        r == (v, self.0, self.1, self.2, self.3)
    }

    fn after(self, v: X) -> (r: (X, A, B, C, D))
        ensures
            combines_to(r, (v, self.0, self.1, self.2, self.3)),
    {
        let (a, b, c, d) = self;
        (v, a, b, c, d)
    }
}

impl<A, B, C, D, X> Before<X, (A, B, C, D, X)> for (A, B, C, D) {
    open spec fn is_before(self, v: X, r: (A, B, C, D, X)) -> bool {
        r == (self.0, self.1, self.2, self.3, v)
    }

    fn before(self, v: X) -> (r: (A, B, C, D, X))
        ensures
            combines_to(r, (self.0, self.1, self.2, self.3, v)),
    {
        let (a, b, c, d) = self;
        (a, b, c, d, v)
    }
}

impl<A, B, C, D, E, X> After<X, (X, A, B, C, D, E)> for (A, B, C, D, E) {
    open spec fn is_after(self, v: X, r: (X, A, B, C, D, E)) -> bool {
        r == (v, self.0, self.1, self.2, self.3, self.4)
    }

    fn after(self, v: X) -> (r: (X, A, B, C, D, E))
        ensures
            combines_to(r, (v, self.0, self.1, self.2, self.3, self.4)),
    {
        let (a, b, c, d, e) = self;
        (v, a, b, c, d, e)
    }
}

impl<A, B, C, D, E, X> Before<X, (A, B, C, D, E, X)> for (A, B, C, D, E) {
    open spec fn is_before(self, v: X, r: (A, B, C, D, E, X)) -> bool {
        r == (self.0, self.1, self.2, self.3, self.4, v)
    }

    fn before(self, v: X) -> (r: (A, B, C, D, E, X))
        ensures
            combines_to(r, (self.0, self.1, self.2, self.3, self.4, v)),
    {
        let (a, b, c, d, e) = self;
        (a, b, c, d, e, v)
    }
}

impl<A, B, C, D, E, F, X> After<X, (X, A, B, C, D, E, F)> for (A, B, C, D, E, F) {
    open spec fn is_after(self, v: X, r: (X, A, B, C, D, E, F)) -> bool {
        r == (v, self.0, self.1, self.2, self.3, self.4, self.5)
    }

    fn after(self, v: X) -> (r: (X, A, B, C, D, E, F))
        ensures
            combines_to(r, (v, self.0, self.1, self.2, self.3, self.4, self.5)),
    {
        let (a, b, c, d, e, f) = self;
        (v, a, b, c, d, e, f)
    }
}

impl<A, B, C, D, E, F, X> Before<X, (A, B, C, D, E, F, X)> for (A, B, C, D, E, F) {
    open spec fn is_before(self, v: X, r: (A, B, C, D, E, F, X)) -> bool {
        r == (self.0, self.1, self.2, self.3, self.4, self.5, v)
    }

    fn before(self, v: X) -> (r: (A, B, C, D, E, F, X))
        ensures
            combines_to(r, (self.0, self.1, self.2, self.3, self.4, self.5, v)),
    {
        let (a, b, c, d, e, f) = self;
        (a, b, c, d, e, f, v)
    }
}

impl<A, B, C, D, E, F, G, X> After<X, (X, A, B, C, D, E, F, G)> for (A, B, C, D, E, F, G) {
    open spec fn is_after(self, v: X, r: (X, A, B, C, D, E, F, G)) -> bool {
        r == (v, self.0, self.1, self.2, self.3, self.4, self.5, self.6)
    }

    fn after(self, v: X) -> (r: (X, A, B, C, D, E, F, G))
        ensures
            combines_to(r, (v, self.0, self.1, self.2, self.3, self.4, self.5, self.6)),
    {
        let (a, b, c, d, e, f, g) = self;
        (v, a, b, c, d, e, f, g)
    }
}

impl<A, B, C, D, E, F, G, X> Before<X, (A, B, C, D, E, F, G, X)> for (A, B, C, D, E, F, G) {
    open spec fn is_before(self, v: X, r: (A, B, C, D, E, F, G, X)) -> bool {
        r == (self.0, self.1, self.2, self.3, self.4, self.5, self.6, v)
    }

    fn before(self, v: X) -> (r: (A, B, C, D, E, F, G, X))
        ensures
            combines_to(r, (self.0, self.1, self.2, self.3, self.4, self.5, self.6, v)),
    {
        let (a, b, c, d, e, f, g) = self;
        (a, b, c, d, e, f, g, v)
    }
}

impl<A, B, C, D, E, F, G, H, X> After<X, (X, A, B, C, D, E, F, G, H)> for (A, B, C, D, E, F, G, H) {
    open spec fn is_after(self, v: X, r: (X, A, B, C, D, E, F, G, H)) -> bool {
        r == (v, self.0, self.1, self.2, self.3, self.4, self.5, self.6, self.7)
    }

    fn after(self, v: X) -> (r: (X, A, B, C, D, E, F, G, H))
        ensures
            combines_to(r, (v, self.0, self.1, self.2, self.3, self.4, self.5, self.6, self.7)),
    {
        let (a, b, c, d, e, f, g, h) = self;
        (v, a, b, c, d, e, f, g, h)
    }
}

impl<A, B, C, D, E, F, G, H, X> Before<X, (A, B, C, D, E, F, G, H, X)> for (A, B, C, D, E, F, G, H) {
    open spec fn is_before(self, v: X, r: (A, B, C, D, E, F, G, H, X)) -> bool {
        r == (self.0, self.1, self.2, self.3, self.4, self.5, self.6, self.7, v)
    }

    fn before(self, v: X) -> (r: (A, B, C, D, E, F, G, H, X))
        ensures
            combines_to(r, (self.0, self.1, self.2, self.3, self.4, self.5, self.6, self.7, v)),
    {
        let (a, b, c, d, e, f, g, h) = self;
        (a, b, c, d, e, f, g, h, v)
    }
}

impl<A, B, C, D, E, F, G, H, I, X> After<X, (X, A, B, C, D, E, F, G, H, I)> for (A, B, C, D, E, F, G, H, I) {
    open spec fn is_after(self, v: X, r: (X, A, B, C, D, E, F, G, H, I)) -> bool {
        r == (v, self.0, self.1, self.2, self.3, self.4, self.5, self.6, self.7, self.8)
    }

    fn after(self, v: X) -> (r: (X, A, B, C, D, E, F, G, H, I))
        ensures
            combines_to(r, (v, self.0, self.1, self.2, self.3, self.4, self.5, self.6, self.7, self.8)),
    {
        let (a, b, c, d, e, f, g, h, i) = self;
        (v, a, b, c, d, e, f, g, h, i)
    }
}

impl<A, B, C, D, E, F, G, H, I, X> Before<X, (A, B, C, D, E, F, G, H, I, X)> for (A, B, C, D, E, F, G, H, I) {
    open spec fn is_before(self, v: X, r: (A, B, C, D, E, F, G, H, I, X)) -> bool {
        r == (self.0, self.1, self.2, self.3, self.4, self.5, self.6, self.7, self.8, v)
    }

    fn before(self, v: X) -> (r: (A, B, C, D, E, F, G, H, I, X))
        ensures
            combines_to(r, (self.0, self.1, self.2, self.3, self.4, self.5, self.6, self.7, self.8, v)),
    {
        let (a, b, c, d, e, f, g, h, i) = self;
        (a, b, c, d, e, f, g, h, i, v)
    }
}

impl<A, B, C, D, E, F, G, H, I, J, X> After<X, (X, A, B, C, D, E, F, G, H, I, J)> for (A, B, C, D, E, F, G, H, I, J) {
    open spec fn is_after(self, v: X, r: (X, A, B, C, D, E, F, G, H, I, J)) -> bool {
        r == (v, self.0, self.1, self.2, self.3, self.4, self.5, self.6, self.7, self.8, self.9)
    }

    fn after(self, v: X) -> (r: (X, A, B, C, D, E, F, G, H, I, J))
        ensures
            combines_to(r, (v, self.0, self.1, self.2, self.3, self.4, self.5, self.6, self.7, self.8, self.9)),
    {
        let (a, b, c, d, e, f, g, h, i, j) = self;
        (v, a, b, c, d, e, f, g, h, i, j)
    }
}

impl<A, B, C, D, E, F, G, H, I, J, X> Before<X, (A, B, C, D, E, F, G, H, I, J, X)> for (A, B, C, D, E, F, G, H, I, J) {
    open spec fn is_before(self, v: X, r: (A, B, C, D, E, F, G, H, I, J, X)) -> bool {
        r == (self.0, self.1, self.2, self.3, self.4, self.5, self.6, self.7, self.8, self.9, v)
    }

    fn before(self, v: X) -> (r: (A, B, C, D, E, F, G, H, I, J, X))
        ensures
            combines_to(r, (self.0, self.1, self.2, self.3, self.4, self.5, self.6, self.7, self.8, self.9, v)),
    {
        let (a, b, c, d, e, f, g, h, i, j) = self;
        (a, b, c, d, e, f, g, h, i, j, v)
    }
}

impl<A, B, C, D, E, F, G, H, I, J, K, X> After<X, (X, A, B, C, D, E, F, G, H, I, J, K)> for (A, B, C, D, E, F, G, H, I, J, K) {
    open spec fn is_after(self, v: X, r: (X, A, B, C, D, E, F, G, H, I, J, K)) -> bool {
        r == (v, self.0, self.1, self.2, self.3, self.4, self.5, self.6, self.7, self.8, self.9, self.10)
    }

    fn after(self, v: X) -> (r: (X, A, B, C, D, E, F, G, H, I, J, K))
        ensures
            combines_to(r, (v, self.0, self.1, self.2, self.3, self.4, self.5, self.6, self.7, self.8, self.9, self.10)),
    {
        let (a, b, c, d, e, f, g, h, i, j, k) = self;
        (v, a, b, c, d, e, f, g, h, i, j, k)
    }
}

impl<A, B, C, D, E, F, G, H, I, J, K, X> Before<X, (A, B, C, D, E, F, G, H, I, J, K, X)> for (A, B, C, D, E, F, G, H, I, J, K) {
    open spec fn is_before(self, v: X, r: (A, B, C, D, E, F, G, H, I, J, K, X)) -> bool {
        r == (self.0, self.1, self.2, self.3, self.4, self.5, self.6, self.7, self.8, self.9, self.10, v)
    }

    fn before(self, v: X) -> (r: (A, B, C, D, E, F, G, H, I, J, K, X))
        ensures
            combines_to(r, (self.0, self.1, self.2, self.3, self.4, self.5, self.6, self.7, self.8, self.9, self.10, v)),
    {
        let (a, b, c, d, e, f, g, h, i, j, k) = self;
        (a, b, c, d, e, f, g, h, i, j, k, v)
    }
}

// Arrays of arity 2 through 11.  Every element, the new one included, has
// the one element type; reading the elements back out of the consumed array
// copies them, so the element type must be `Copy`.

impl<T: Copy> After<T, [T; 3]> for [T; 2] {
    open spec fn is_after(self, v: T, r: [T; 3]) -> bool {
        r@ == seq![v] + self@
    }

    fn after(self, v: T) -> (r: [T; 3])
        ensures
            array_view(r) == seq![v] + self@,
    {
        let r: [T; 3] = [v, self[0], self[1]];
        proof {
            assert(r@ =~= seq![v] + self@);
        }
        r
    }
}

impl<T: Copy> Before<T, [T; 3]> for [T; 2] {
    open spec fn is_before(self, v: T, r: [T; 3]) -> bool {
        r@ == self@.push(v)
    }

    fn before(self, v: T) -> (r: [T; 3])
        ensures
            array_view(r) == self@.push(v),
    {
        let r: [T; 3] = [self[0], self[1], v];
        proof {
            assert(r@ =~= self@.push(v));
        }
        r
    }
}

impl<T: Copy> After<T, [T; 4]> for [T; 3] {
    open spec fn is_after(self, v: T, r: [T; 4]) -> bool {
        r@ == seq![v] + self@
    }

    fn after(self, v: T) -> (r: [T; 4])
        ensures
            array_view(r) == seq![v] + self@,
    {
        let r: [T; 4] = [v, self[0], self[1], self[2]];
        proof {
            assert(r@ =~= seq![v] + self@);
        }
        r
    }
}

impl<T: Copy> Before<T, [T; 4]> for [T; 3] {
    open spec fn is_before(self, v: T, r: [T; 4]) -> bool {
        r@ == self@.push(v)
    }

    fn before(self, v: T) -> (r: [T; 4])
        ensures
            array_view(r) == self@.push(v),
    {
        let r: [T; 4] = [self[0], self[1], self[2], v];
        proof {
            assert(r@ =~= self@.push(v));
        }
        r
    }
}

impl<T: Copy> After<T, [T; 5]> for [T; 4] {
    open spec fn is_after(self, v: T, r: [T; 5]) -> bool {
        r@ == seq![v] + self@
    }

    fn after(self, v: T) -> (r: [T; 5])
        ensures
            array_view(r) == seq![v] + self@,
    {
        let r: [T; 5] = [v, self[0], self[1], self[2], self[3]];
        proof {
            assert(r@ =~= seq![v] + self@);
        }
        r
    }
}

impl<T: Copy> Before<T, [T; 5]> for [T; 4] {
    open spec fn is_before(self, v: T, r: [T; 5]) -> bool {
        r@ == self@.push(v)
    }

    fn before(self, v: T) -> (r: [T; 5])
        ensures
            array_view(r) == self@.push(v),
    {
        let r: [T; 5] = [self[0], self[1], self[2], self[3], v];
        proof {
            assert(r@ =~= self@.push(v));
        }
        r
    }
}

impl<T: Copy> After<T, [T; 6]> for [T; 5] {
    open spec fn is_after(self, v: T, r: [T; 6]) -> bool {
        r@ == seq![v] + self@
    }

    fn after(self, v: T) -> (r: [T; 6])
        ensures
            array_view(r) == seq![v] + self@,
    {
        let r: [T; 6] = [v, self[0], self[1], self[2], self[3], self[4]];
        proof {
            assert(r@ =~= seq![v] + self@);
        }
        r
    }
}

impl<T: Copy> Before<T, [T; 6]> for [T; 5] {
    open spec fn is_before(self, v: T, r: [T; 6]) -> bool {
        r@ == self@.push(v)
    }

    fn before(self, v: T) -> (r: [T; 6])
        ensures
            array_view(r) == self@.push(v),
    {
        let r: [T; 6] = [self[0], self[1], self[2], self[3], self[4], v];
        proof {
            assert(r@ =~= self@.push(v));
        }
        r
    }
}

impl<T: Copy> After<T, [T; 7]> for [T; 6] {
    open spec fn is_after(self, v: T, r: [T; 7]) -> bool {
        r@ == seq![v] + self@
    }

    fn after(self, v: T) -> (r: [T; 7])
        ensures
            array_view(r) == seq![v] + self@,
    {
        let r: [T; 7] = [v, self[0], self[1], self[2], self[3], self[4], self[5]];
        proof {
            assert(r@ =~= seq![v] + self@);
        }
        r
    }
}

impl<T: Copy> Before<T, [T; 7]> for [T; 6] {
    open spec fn is_before(self, v: T, r: [T; 7]) -> bool {
        r@ == self@.push(v)
    }

    fn before(self, v: T) -> (r: [T; 7])
        ensures
            array_view(r) == self@.push(v),
    {
        let r: [T; 7] = [self[0], self[1], self[2], self[3], self[4], self[5], v];
        proof {
            assert(r@ =~= self@.push(v));
        }
        r
    }
}

impl<T: Copy> After<T, [T; 8]> for [T; 7] {
    open spec fn is_after(self, v: T, r: [T; 8]) -> bool {
        r@ == seq![v] + self@
    }

    fn after(self, v: T) -> (r: [T; 8])
        ensures
            array_view(r) == seq![v] + self@,
    {
        let r: [T; 8] = [v, self[0], self[1], self[2], self[3], self[4], self[5], self[6]];
        proof {
            assert(r@ =~= seq![v] + self@);
        }
        r
    }
}

impl<T: Copy> Before<T, [T; 8]> for [T; 7] {
    open spec fn is_before(self, v: T, r: [T; 8]) -> bool {
        r@ == self@.push(v)
    }

    fn before(self, v: T) -> (r: [T; 8])
        ensures
            array_view(r) == self@.push(v),
    {
        let r: [T; 8] = [self[0], self[1], self[2], self[3], self[4], self[5], self[6], v];
        proof {
            assert(r@ =~= self@.push(v));
        }
        r
    }
}

impl<T: Copy> After<T, [T; 9]> for [T; 8] {
    open spec fn is_after(self, v: T, r: [T; 9]) -> bool {
        r@ == seq![v] + self@
    }

    fn after(self, v: T) -> (r: [T; 9])
        ensures
            array_view(r) == seq![v] + self@,
    {
        let r: [T; 9] = [v, self[0], self[1], self[2], self[3], self[4], self[5], self[6], self[7]];
        proof {
            assert(r@ =~= seq![v] + self@);
        }
        r
    }
}

impl<T: Copy> Before<T, [T; 9]> for [T; 8] {
    open spec fn is_before(self, v: T, r: [T; 9]) -> bool {
        r@ == self@.push(v)
    }

    fn before(self, v: T) -> (r: [T; 9])
        ensures
            array_view(r) == self@.push(v),
    {
        let r: [T; 9] = [self[0], self[1], self[2], self[3], self[4], self[5], self[6], self[7], v];
        proof {
            assert(r@ =~= self@.push(v));
        }
        r
    }
}

impl<T: Copy> After<T, [T; 10]> for [T; 9] {
    open spec fn is_after(self, v: T, r: [T; 10]) -> bool {
        r@ == seq![v] + self@
    }

    fn after(self, v: T) -> (r: [T; 10])
        ensures
            array_view(r) == seq![v] + self@,
    {
        let r: [T; 10] = [v, self[0], self[1], self[2], self[3], self[4], self[5], self[6], self[7], self[8]];
        proof {
            assert(r@ =~= seq![v] + self@);
        }
        r
    }
}

impl<T: Copy> Before<T, [T; 10]> for [T; 9] {
    open spec fn is_before(self, v: T, r: [T; 10]) -> bool {
        r@ == self@.push(v)
    }

    fn before(self, v: T) -> (r: [T; 10])
        ensures
            array_view(r) == self@.push(v),
    {
        let r: [T; 10] = [self[0], self[1], self[2], self[3], self[4], self[5], self[6], self[7], self[8], v];
        proof {
            assert(r@ =~= self@.push(v));
        }
        r
    }
}

impl<T: Copy> After<T, [T; 11]> for [T; 10] {
    open spec fn is_after(self, v: T, r: [T; 11]) -> bool {
        r@ == seq![v] + self@
    }

    fn after(self, v: T) -> (r: [T; 11])
        ensures
            array_view(r) == seq![v] + self@,
    {
        let r: [T; 11] = [v, self[0], self[1], self[2], self[3], self[4], self[5], self[6], self[7], self[8], self[9]];
        proof {
            assert(r@ =~= seq![v] + self@);
        }
        r
    }
}

impl<T: Copy> Before<T, [T; 11]> for [T; 10] {
    open spec fn is_before(self, v: T, r: [T; 11]) -> bool {
        r@ == self@.push(v)
    }

    fn before(self, v: T) -> (r: [T; 11])
        ensures
            array_view(r) == self@.push(v),
    {
        let r: [T; 11] = [self[0], self[1], self[2], self[3], self[4], self[5], self[6], self[7], self[8], self[9], v];
        proof {
            assert(r@ =~= self@.push(v));
        }
        r
    }
}

impl<T: Copy> After<T, [T; 12]> for [T; 11] {
    open spec fn is_after(self, v: T, r: [T; 12]) -> bool {
        r@ == seq![v] + self@
    }

    fn after(self, v: T) -> (r: [T; 12])
        ensures
            array_view(r) == seq![v] + self@,
    {
        let r: [T; 12] = [v, self[0], self[1], self[2], self[3], self[4], self[5], self[6], self[7], self[8], self[9], self[10]];
        proof {
            assert(r@ =~= seq![v] + self@);
        }
        r
    }
}

impl<T: Copy> Before<T, [T; 12]> for [T; 11] {
    open spec fn is_before(self, v: T, r: [T; 12]) -> bool {
        r@ == self@.push(v)
    }

    fn before(self, v: T) -> (r: [T; 12])
        ensures
            array_view(r) == self@.push(v),
    {
        let r: [T; 12] = [self[0], self[1], self[2], self[3], self[4], self[5], self[6], self[7], self[8], self[9], self[10], v];
        proof {
            assert(r@ =~= self@.push(v));
        }
        r
    }
}

} // verus!
