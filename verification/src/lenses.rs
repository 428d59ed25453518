//! The lens traits, the vector and composed lenses, and the laws they obey.

use crate::path::LensPath;
use crate::text::{decimal, push_decimal};
use std::marker::PhantomData;
use vstd::prelude::*;
use vstd::string::*;

verus! {

/// A lens offers a purely functional means to access and/or modify a field that is
/// nested in an immutable data structure.
///
/// Its spec functions describe what the lens does: `reaches` says on which sources
/// the focused field exists (for a struct field, all of them; for a vector element,
/// those long enough), `spec_get` is the focused field, and `sets` relates a source,
/// a new target and the source that results from storing that target.
pub trait Lens {
    /// The lens source type, i.e., the object containing the field.
    type Source;

    /// The lens target type, i.e., the field to be accessed or modified.
    type Target;

    // Each spec function below has a default that says nothing (an arbitrary value),
    // so that a lens written outside verified code only supplies the executable
    // methods; a verified lens defines them all.

    /// The identifiers of the path from the source to the target.
    open spec fn spec_path(&self) -> Seq<u64> {
        arbitrary()
    }

    /// Whether the target exists in `source`.
    open spec fn reaches(&self, source: Self::Source) -> bool {
        arbitrary()
    }

    /// The target of the lens in `source`.
    open spec fn spec_get(&self, source: Self::Source) -> Self::Target {
        arbitrary()
    }

    /// Whether `updated` is `source` with its target replaced by `target`.
    open spec fn sets(&self, source: Self::Source, target: Self::Target, updated: Self::Source) -> bool {
        arbitrary()
    }

    /// Returns a `LensPath` that describes the target of this lens relative to its source.
    fn path(&self) -> (path: LensPath)
        ensures
            path@ == self.spec_path(),
    ;

    /// Sets the target of the lens. (This requires a mutable source reference, and as such is typically
    /// only used internally.)
    fn mutate(&self, source: &mut Self::Source, target: Self::Target)
        requires
            self.reaches(*old(source)),
        ensures
            self.sets(*old(source), target, *final(source)),
    ;

    /// Sets the target of the lens and returns the new state of the source. (This consumes the source.)
    fn set(&self, source: Self::Source, target: Self::Target) -> (updated: Self::Source)
        requires
            self.reaches(source),
        ensures
            self.sets(source, target, updated),
    {
        let mut mutable_source = source;
        self.mutate(&mut mutable_source, target);
        mutable_source
    }
}

/// A lens that allows the target to be accessed and mutated by reference.
pub trait RefLens: Lens {
    /// Gets a reference to the target of the lens. (This does not consume the source.)
    fn get_ref<'a>(&self, source: &'a Self::Source) -> (target: &'a Self::Target)
        requires
            self.reaches(*source),
        ensures
            *target == self.spec_get(*source),
    ;

    /// Gets a mutable reference to the target of the lens. (This requires a mutable source reference,
    /// and as such is typically only used internally.)
    fn get_mut_ref<'a>(&self, source: &'a mut Self::Source) -> (target: &'a mut Self::Target)
        requires
            self.reaches(*old(source)),
        ensures
            *target == self.spec_get(*old(source)),
            self.sets(*old(source), *final(target), *final(source)),
    ;

    /// Modifies the target of the lens by applying a function to the current value.
    fn mutate_with_fn<F: Fn(&Self::Target) -> Self::Target>(
        &self,
        source: &mut Self::Source,
        f: &F,
    ) where Self: Sized
        requires
            self.reaches(*old(source)),
            f.requires((&self.spec_get(*old(source)),)),
        ensures
            exists|target: Self::Target|
                f.ensures((&self.spec_get(*old(source)),), target) && #[trigger] self.sets(
                    *old(source),
                    target,
                    *final(source),
                ),
    {
        let target = f(self.get_ref(source));
        self.mutate(source, target);
    }

    /// Modifies the target of the lens by applying a function to the current value. This consumes the source.
    fn modify<F: Fn(&Self::Target) -> Self::Target>(&self, source: Self::Source, f: &F) -> (updated:
        Self::Source) where Self: Sized
        requires
            self.reaches(source),
            f.requires((&self.spec_get(source),)),
        ensures
            exists|target: Self::Target|
                f.ensures((&self.spec_get(source),), target) && #[trigger] self.sets(
                    source,
                    target,
                    updated,
                ),
    {
        let mut mutable_source = source;
        self.mutate_with_fn(&mut mutable_source, f);
        mutable_source
    }
}

/// A lens that allows the target to be accessed only by cloning or copying the target value.
pub trait ValueLens: Lens {
    /// Gets a copy of the lens target. (This does not consume the source.)
    fn get(&self, source: &Self::Source) -> (target: Self::Target)
        requires
            self.reaches(*source),
        ensures
            target == self.spec_get(*source),
    ;
}

/// The lens laws: a lens is lawful when, on every source it reaches,
/// reading back a stored target gives that target (and the target still exists),
/// storing the current target is a valid update that leaves the source as it is,
/// and storing twice is the same as storing the second target once.
pub open spec fn lawful<L: Lens>(lens: L) -> bool {
    &&& forall|source: L::Source, target: L::Target, updated: L::Source|
        lens.reaches(source) && #[trigger] lens.sets(source, target, updated) ==> lens.reaches(
            updated,
        ) && lens.spec_get(updated) == target
    &&& forall|source: L::Source| #[trigger]
        lens.reaches(source) ==> lens.sets(source, lens.spec_get(source), source)
    &&& forall|
        source: L::Source,
        first: L::Target,
        between: L::Source,
        second: L::Target,
        updated: L::Source,
    |
        lens.reaches(source) && #[trigger] lens.sets(source, first, between) && #[trigger] lens.sets(
            between,
            second,
            updated,
        ) ==> lens.sets(source, second, updated)
}

/// Modifies the target of the lens by applying a function to the current value.
/// (This lives outside the `Lens` trait to allow lenses to be object-safe but
/// still allow for static dispatch on the given closure.)
pub fn mutate_with_fn<L: RefLens, F>(lens: &L, source: &mut L::Source, f: F) where
    F: Fn(&L::Target) -> L::Target,

    requires
        lens.reaches(*old(source)),
        f.requires((&lens.spec_get(*old(source)),)),
    ensures
        exists|target: L::Target|
            f.ensures((&lens.spec_get(*old(source)),), target) && #[trigger] lens.sets(
                *old(source),
                target,
                *final(source),
            ),
{
    let target = f(lens.get_ref(source));
    lens.mutate(source, target);
}

/// Modifies the target of the lens by applying a function to the current value. This consumes the source.
/// (This lives outside the `Lens` trait to allow lenses to be object-safe but
/// still allow for static dispatch on the given closure.)
pub fn modify<L: RefLens, F>(lens: &L, source: L::Source, f: F) -> (updated: L::Source) where
    F: Fn(&L::Target) -> L::Target,

    requires
        lens.reaches(source),
        f.requires((&lens.spec_get(source),)),
    ensures
        exists|target: L::Target|
            f.ensures((&lens.spec_get(source),), target) && #[trigger] lens.sets(
                source,
                target,
                updated,
            ),
{
    let mut mutable_source = source;
    mutate_with_fn(lens, &mut mutable_source, f);
    mutable_source
}

impl<L: Lens + ?Sized> Lens for Box<L> {
    type Source = L::Source;

    type Target = L::Target;

    open spec fn spec_path(&self) -> Seq<u64> {
        (**self).spec_path()
    }

    open spec fn reaches(&self, source: L::Source) -> bool {
        (**self).reaches(source)
    }

    open spec fn spec_get(&self, source: L::Source) -> L::Target {
        (**self).spec_get(source)
    }

    open spec fn sets(&self, source: L::Source, target: L::Target, updated: L::Source) -> bool {
        (**self).sets(source, target, updated)
    }

    #[inline(always)]
    fn path(&self) -> LensPath {
        (**self).path()
    }

    #[inline(always)]
    fn mutate(&self, source: &mut L::Source, target: L::Target) {
        (**self).mutate(source, target)
    }
}

impl<L: RefLens + ?Sized> RefLens for Box<L> {
    #[inline(always)]
    fn get_ref<'a>(&self, source: &'a L::Source) -> &'a L::Target {
        (**self).get_ref(source)
    }

    #[inline(always)]
    fn get_mut_ref<'a>(&self, source: &'a mut L::Source) -> &'a mut L::Target {
        (**self).get_mut_ref(source)
    }
}

impl<L: ValueLens + ?Sized> ValueLens for Box<L> {
    #[inline(always)]
    fn get(&self, source: &L::Source) -> L::Target {
        (**self).get(source)
    }
}

/// Returns a `Lens` over a single element at the given `index` for a `Vec<T>`.
pub fn vec_lens<T>(index: usize) -> (lens: VecLens<T>)
    ensures
        lens.index() == index,
{
    VecLens { index, _marker: PhantomData }
}

/// Returns the same lens as `vec_lens`, with the element type taken from `marker`.
pub fn vec_lens_from_marker<T>(marker: PhantomData<T>, index: usize) -> (lens: VecLens<T>)
    ensures
        lens.index() == index,
{
    vec_lens(index)
}

/// A lens over a single element within a `Vec<T>`.
pub struct VecLens<T> {
    index: usize,
    _marker: PhantomData<T>,
}

impl<T> VecLens<T> {
    /// The index of the element this lens focuses on.
    pub closed spec fn index(&self) -> usize {
        self.index
    }

    /// The message of the failure to reach the element at `index`.
    pub fn missing_index_message(index: usize) -> (message: String)
        ensures
            message@ == "vector lens index "@ + decimal(index as nat) + " is out of bounds"@,
    {
        let mut message = String::from_str("vector lens index ");
        push_decimal(&mut message, index as u64);
        message.append(" is out of bounds");
        message
    }

    /// The element lenses are lawful, whatever their index.
    pub proof fn lemma_lawful(&self)
        ensures
            lawful(*self),
    {
        assert forall|source: Vec<T>| #[trigger] self.reaches(source) implies self.sets(
            source,
            self.spec_get(source),
            source,
        ) by {
            assert(source@.update(self.index as int, source@[self.index as int]) =~= source@);
        }
        assert forall|
            source: Vec<T>,
            first: T,
            between: Vec<T>,
            second: T,
            updated: Vec<T>,
        |
            self.reaches(source) && #[trigger] self.sets(source, first, between)
                && #[trigger] self.sets(between, second, updated) implies self.sets(
            source,
            second,
            updated,
        ) by {
            assert(between@.update(self.index as int, second) =~= source@.update(
                self.index as int,
                second,
            ));
        }
    }
}

impl<T> Lens for VecLens<T> {
    type Source = Vec<T>;

    type Target = T;

    open spec fn spec_path(&self) -> Seq<u64> {
        seq![self.index() as u64]
    }

    open spec fn reaches(&self, source: Vec<T>) -> bool {
        self.index() < source@.len()
    }

    open spec fn spec_get(&self, source: Vec<T>) -> T {
        source@[self.index() as int]
    }

    open spec fn sets(&self, source: Vec<T>, target: T, updated: Vec<T>) -> bool {
        updated@ == source@.update(self.index() as int, target)
    }

    #[inline(always)]
    fn path(&self) -> LensPath {
        LensPath::from_index(self.index)
    }

    #[inline(always)]
    fn mutate(&self, source: &mut Vec<T>, target: T) {
        source.set(self.index, target);
    }
}

impl<T> RefLens for VecLens<T> {
    #[inline(always)]
    fn get_ref<'a>(&self, source: &'a Vec<T>) -> &'a T {
        &source[self.index]
    }

    #[inline(always)]
    fn get_mut_ref<'a>(&self, source: &'a mut Vec<T>) -> &'a mut T {
        &mut source[self.index]
    }
}

/// Composes a `Lens<A, B>` with another `Lens<B, C>` to produce a new `Lens<A, C>`.
pub fn compose<LHS, RHS>(lhs: LHS, rhs: RHS) -> (lens: ComposedLens<LHS, RHS>) where
    LHS: RefLens,
    LHS::Target: 'static,
    RHS: Lens<Source = LHS::Target>,

    ensures
        lens.outer() == lhs,
        lens.inner() == rhs,
{
    ComposedLens { lhs, rhs }
}

/// Composes two `Lens`es.
///
/// In pseudocode:
/// ```text,no_run
/// compose(Lens<A, B>, Lens<B, C>) -> Lens<A, C>
/// ```
pub struct ComposedLens<LHS, RHS> {
    lhs: LHS,
    rhs: RHS,
}

impl<LHS, RHS> ComposedLens<LHS, RHS> {
    /// The lens from the source to the intermediate value.
    pub closed spec fn outer(&self) -> LHS {
        self.lhs
    }

    /// The lens from the intermediate value to the target.
    pub closed spec fn inner(&self) -> RHS {
        self.rhs
    }
}

impl<LHS, RHS> ComposedLens<LHS, RHS> where
    LHS: RefLens,
    LHS::Target: 'static,
    RHS: Lens<Source = LHS::Target>,
 {
    /// The path of a composed lens is the outer lens's path followed by the inner
    /// lens's path, every identifier of both kept in order.
    pub proof fn lemma_path_is_concatenation(&self)
        ensures
            self.spec_path().len() == self.outer().spec_path().len() + self.inner().spec_path().len(),
            forall|i: int|
                0 <= i < self.outer().spec_path().len() ==> #[trigger] self.spec_path()[i]
                    == self.outer().spec_path()[i],
            forall|i: int|
                0 <= i < self.inner().spec_path().len() ==> self.spec_path()[self.outer().spec_path().len()
                    + i] == #[trigger] self.inner().spec_path()[i],
    {
    }

    /// Composing two lawful lenses gives a lawful lens.
    pub proof fn lemma_lawful(&self)
        requires
            lawful(self.outer()),
            lawful(self.inner()),
        ensures
            lawful(*self),
    {
        let outer = self.outer();
        let inner = self.inner();
        assert forall|source: LHS::Source, target: RHS::Target, updated: LHS::Source|
            self.reaches(source) && #[trigger] self.sets(source, target, updated) implies self.reaches(
            updated,
        ) && self.spec_get(updated) == target by {
            let between = choose|between: LHS::Target|
                #[trigger] inner.sets(outer.spec_get(source), target, between) && outer.sets(
                    source,
                    between,
                    updated,
                );
            assert(inner.sets(outer.spec_get(source), target, between));
            assert(outer.sets(source, between, updated));
        }
        assert forall|source: LHS::Source| #[trigger]
            self.reaches(source) implies self.sets(source, self.spec_get(source), source) by {
            let between = outer.spec_get(source);
            assert(inner.reaches(between));
            assert(inner.sets(between, inner.spec_get(between), between));
            assert(outer.sets(source, between, source));
        }
        assert forall|
            source: LHS::Source,
            first: RHS::Target,
            between: LHS::Source,
            second: RHS::Target,
            updated: LHS::Source,
        |
            self.reaches(source) && #[trigger] self.sets(source, first, between)
                && #[trigger] self.sets(between, second, updated) implies self.sets(
            source,
            second,
            updated,
        ) by {
            let mid1 = choose|mid: LHS::Target|
                #[trigger] inner.sets(outer.spec_get(source), first, mid) && outer.sets(
                    source,
                    mid,
                    between,
                );
            let mid2 = choose|mid: LHS::Target|
                #[trigger] inner.sets(outer.spec_get(between), second, mid) && outer.sets(
                    between,
                    mid,
                    updated,
                );
            assert(inner.sets(outer.spec_get(source), first, mid1));
            assert(outer.sets(source, mid1, between));
            assert(inner.sets(outer.spec_get(between), second, mid2));
            assert(outer.sets(between, mid2, updated));
            assert(outer.spec_get(between) == mid1);
            assert(inner.sets(mid1, second, mid2));
            assert(inner.sets(outer.spec_get(source), second, mid2));
            assert(outer.sets(source, mid2, updated));
        }
    }
}

impl<LHS, RHS> Lens for ComposedLens<LHS, RHS> where
    LHS: RefLens,
    LHS::Target: 'static,
    RHS: Lens<Source = LHS::Target>,
 {
    type Source = LHS::Source;

    type Target = RHS::Target;

    open spec fn spec_path(&self) -> Seq<u64> {
        self.outer().spec_path() + self.inner().spec_path()
    }

    open spec fn reaches(&self, source: LHS::Source) -> bool {
        self.outer().reaches(source) && self.inner().reaches(self.outer().spec_get(source))
    }

    open spec fn spec_get(&self, source: LHS::Source) -> RHS::Target {
        self.inner().spec_get(self.outer().spec_get(source))
    }

    open spec fn sets(&self, source: LHS::Source, target: RHS::Target, updated: LHS::Source) -> bool {
        exists|between: LHS::Target|
            #[trigger] self.inner().sets(self.outer().spec_get(source), target, between)
                && self.outer().sets(source, between, updated)
    }

    #[inline(always)]
    fn path(&self) -> (path: LensPath)
        ensures
            path@ == self.outer().spec_path() + self.inner().spec_path(),
    {
        LensPath::concat(self.lhs.path(), self.rhs.path())
    }

    #[inline(always)]
    fn mutate(&self, source: &mut LHS::Source, target: RHS::Target) {
        let rhs_source = self.lhs.get_mut_ref(source);
        self.rhs.mutate(rhs_source, target)
    }
}

impl<LHS, RHS> RefLens for ComposedLens<LHS, RHS> where
    LHS: RefLens,
    LHS::Target: 'static,
    RHS: RefLens<Source = LHS::Target>,
 {
    #[inline(always)]
    fn get_ref<'a>(&self, source: &'a LHS::Source) -> &'a RHS::Target {
        self.rhs.get_ref(self.lhs.get_ref(source))
    }

    #[inline(always)]
    fn get_mut_ref<'a>(&self, source: &'a mut LHS::Source) -> &'a mut RHS::Target {
        self.rhs.get_mut_ref(self.lhs.get_mut_ref(source))
    }
}

impl<LHS, RHS> ValueLens for ComposedLens<LHS, RHS> where
    LHS: RefLens,
    LHS::Target: 'static,
    RHS: ValueLens<Source = LHS::Target>,
 {
    #[inline(always)]
    fn get(&self, source: &LHS::Source) -> RHS::Target {
        self.rhs.get(self.lhs.get_ref(source))
    }
}

/// A boxed lens is lawful when the lens in the box is.
pub proof fn lemma_box_lawful<L: Lens>(lens: Box<L>)
    requires
        lawful(*lens),
    ensures
        lawful(lens),
{
}

/// Composition is associative: composing `a` with `b` and then with `c` gives a lens
/// with the same path, the same sources reached, the same target and the same
/// updates as composing `a` with the composition of `b` and `c`.
pub proof fn lemma_compose_associative<A, B, C>(
    left: ComposedLens<ComposedLens<A, B>, C>,
    right: ComposedLens<A, ComposedLens<B, C>>,
) where
    A: RefLens,
    A::Target: 'static,
    B: RefLens<Source = A::Target>,
    B::Target: 'static,
    C: Lens<Source = B::Target>,

    requires
        left.outer().outer() == right.outer(),
        left.outer().inner() == right.inner().outer(),
        left.inner() == right.inner().inner(),
    ensures
        left.spec_path() == right.spec_path(),
        forall|source: A::Source| #[trigger] left.reaches(source) == right.reaches(source),
        forall|source: A::Source| #[trigger] left.spec_get(source) == right.spec_get(source),
        forall|source: A::Source, target: C::Target, updated: A::Source| #[trigger]
            left.sets(source, target, updated) == right.sets(source, target, updated),
{
    let a = right.outer();
    let b = right.inner().outer();
    let c = right.inner().inner();
    let ab = left.outer();
    let bc = right.inner();
    assert(left.spec_path() =~= right.spec_path());
    assert forall|source: A::Source, target: C::Target, updated: A::Source| #[trigger]
        left.sets(source, target, updated) implies right.sets(source, target, updated) by {
        let m1 = choose|m1: B::Target|
            #[trigger] c.sets(ab.spec_get(source), target, m1) && ab.sets(source, m1, updated);
        assert(c.sets(ab.spec_get(source), target, m1));
        assert(ab.sets(source, m1, updated));
        let m0 = choose|m0: A::Target|
            #[trigger] b.sets(a.spec_get(source), m1, m0) && a.sets(source, m0, updated);
        assert(b.sets(a.spec_get(source), m1, m0));
        assert(bc.sets(a.spec_get(source), target, m0));
        assert(a.sets(source, m0, updated));
    }
    assert forall|source: A::Source, target: C::Target, updated: A::Source| #[trigger]
        right.sets(source, target, updated) implies left.sets(source, target, updated) by {
        let n0 = choose|n0: A::Target|
            #[trigger] bc.sets(a.spec_get(source), target, n0) && a.sets(source, n0, updated);
        assert(bc.sets(a.spec_get(source), target, n0));
        let n1 = choose|n1: B::Target|
            #[trigger] c.sets(b.spec_get(a.spec_get(source)), target, n1) && b.sets(
                a.spec_get(source),
                n1,
                n0,
            );
        assert(c.sets(b.spec_get(a.spec_get(source)), target, n1));
        assert(b.sets(a.spec_get(source), n1, n0));
        assert(a.sets(source, n0, updated));
        assert(ab.sets(source, n1, updated));
        assert(c.sets(ab.spec_get(source), target, n1));
    }
}

} // verus!
