//! Coercing a value of a given type into the same type, for the cases where
//! the two type parameters of a generic function denote one concrete type but
//! the compiler cannot see that they do. This emulates a limited form of
//! specialization: generic code branches on a runtime type-identity test and,
//! inside the branch where identity holds, reinterprets a generically-typed
//! value as a concretely-typed one to reach an optimized path.
//!
//! The identity of a type is carried by its process-wide [`TypeToken`]. Two
//! tokens are equal exactly when they were derived from the same concrete
//! type; the coercion functions re-check that identity on every call and
//! abort with a diagnostic when it does not hold.

use vstd::prelude::*;

verus! {

/// Declares `core::any::TypeId` so that it can stand in signatures and
/// fields. A `TypeId` is an opaque, comparable identifier that the runtime
/// associates with every `'static` type.
#[verifier::external_type_specification]
#[verifier::external_body]
pub struct ExTypeId(core::any::TypeId);

/// Relies on `core::any::TypeId::of`: returns the process-wide identifier of
/// the type `T`, and never panics. Nothing is stated of the returned value
/// here; everything the library claims about identifiers is said where two
/// of them are compared.
#[verifier::external_body]
fn type_id_of<T: 'static>() -> (r: core::any::TypeId)
    no_unwind
{
    core::any::TypeId::of::<T>()
}

/// Relies on `TypeId`'s `PartialEq`: a `TypeId` is a globally unique
/// identifier compared by its underlying value, so the comparison returns
/// true exactly when the two arguments are the same identifier.
/// The comparison of two plain identifiers never panics.
#[verifier::external_body]
fn type_id_eq(a: &core::any::TypeId, b: &core::any::TypeId) -> (r: bool)
    ensures
        r == (a == b),
    no_unwind
{
    a == b
}

/// The process-wide identity token of a `'static` type: an opaque, comparable
/// value derived on demand from a type parameter. Two tokens are equal if and
/// only if they were derived from the same concrete type; tokens exist only
/// to be compared and hold no other state.
pub struct TypeToken {
    id: core::any::TypeId,
}

impl TypeToken {
    /// The identifier this token carries.
    pub closed spec fn spec_id(self) -> core::any::TypeId {
        self.id
    }

    /// The identity token of the type `T`. Deriving a token has no failure
    /// mode and touches no shared mutable state.
    pub fn of<T: 'static>() -> TypeToken
        no_unwind
    {
        TypeToken { id: type_id_of::<T>() }
    }

    /// True exactly when the two tokens carry the same identifier, that is,
    /// when they were derived from the same concrete type.
    pub fn same_as(&self, other: &TypeToken) -> (r: bool)
        ensures
            r == (self.spec_id() == other.spec_id()),
        no_unwind
    {
        type_id_eq(&self.id, &other.id)
    }
}

/// Token identity, as the contract of [`TypeToken::same_as`] fixes it, is an
/// equivalence relation: every token matches itself, matching is symmetric,
/// and matching is transitive.
pub proof fn lemma_token_identity_equivalence(a: TypeToken, b: TypeToken, c: TypeToken)
    ensures
        a.spec_id() == a.spec_id(),
        (a.spec_id() == b.spec_id()) == (b.spec_id() == a.spec_id()),
        (a.spec_id() == b.spec_id() && b.spec_id() == c.spec_id()) ==> (a.spec_id()
            == c.spec_id()),
{
}

/// Returns `true` if `T` and `U` are the same type.
///
/// The test has no failure mode: it never panics, whatever the two types
/// are. Whether the result is `true` is a fact about the two type
/// parameters, not about any runtime value, so no contract can pin it here;
/// the comparison of the two identity tokens is what decides it.
pub fn is_same<T: 'static, U: 'static>() -> bool
    no_unwind
{
    let t = TypeToken::of::<T>();
    let u = TypeToken::of::<U>();
    t.same_as(&u)
}

/// Checks that `T` and `U` are the same type, and aborts the calling thread
/// if they are not: a mismatch is a logic error in the caller's branch, not a
/// recoverable condition, so no error value is returned.
///
/// Relies on `core::any::TypeId::of` and its `PartialEq` for the identity
/// test, and on `Option::expect` to panic with a diagnostic showing the two
/// identities when the test fails. The panic on unequal types is the
/// function's stated behaviour; it cannot be ruled out by a precondition,
/// since which types instantiate a generic call is not a value the
/// specification language can speak of.
#[verifier::external_body]
pub fn assert_same<T: 'static, U: 'static>() {
    let t = core::any::TypeId::of::<T>();
    let u = core::any::TypeId::of::<U>();
    let checked: Option<()> = if t == u {
        Some(())
    } else {
        None
    };
    checked.expect(&format!("type mismatch: {t:?} is not {u:?}"));
}

/// Relies on `<dyn core::any::Any>::downcast_ref`: returns a reference to
/// the very same value, now typed `&U`, exactly when the referent's type is
/// `U`, and `None` otherwise; the `None` case aborts through
/// `Option::expect`.
#[verifier::external_body]
fn downcast_ref_or_abort<'a, T: 'static, U: 'static>(v: &'a T) -> &'a U {
    let t = core::any::TypeId::of::<T>();
    let u = core::any::TypeId::of::<U>();
    let any: &dyn core::any::Any = v;
    any.downcast_ref::<U>().expect(&format!("type mismatch: {t:?} is not {u:?}"))
}

/// Relies on `<dyn core::any::Any>::downcast_mut`: returns a mutable
/// reference to the very same value, now typed `&mut U`, exactly when the
/// referent's type is `U`, and `None` otherwise; the `None` case aborts
/// through `Option::expect`.
#[verifier::external_body]
fn downcast_mut_or_abort<'a, T: 'static, U: 'static>(v: &'a mut T) -> &'a mut U {
    let t = core::any::TypeId::of::<T>();
    let u = core::any::TypeId::of::<U>();
    let any: &mut dyn core::any::Any = v;
    any.downcast_mut::<U>().expect(&format!("type mismatch: {t:?} is not {u:?}"))
}

/// Coercion from one type to another, where the two types are the same
/// concrete type but the compiler cannot prove that they are.
///
/// Every implementation first re-checks that the source and target types are
/// identical and aborts with a diagnostic when they are not; when they are,
/// the result is the input itself viewed under the target type, aliasing the
/// same storage.
pub trait Coerce<U> {
    /// Reinterprets `self` under the target type; aborts if the types differ.
    fn coerce(self) -> U;
}

impl<'a, T: 'static, U: 'static> Coerce<&'a U> for &'a T {
    fn coerce(self) -> &'a U {
        downcast_ref_or_abort::<T, U>(self)
    }
}

impl<'a, T: 'static, U: 'static> Coerce<&'a mut U> for &'a mut T {
    fn coerce(self) -> &'a mut U {
        downcast_mut_or_abort::<T, U>(self)
    }
}

/// Coerces `value` to the type `U`; aborts if the types differ.
pub fn coerce<T: Coerce<U>, U>(value: T) -> U {
    value.coerce()
}

/// Coerces a value of type `T` to the type `U` by value, for contexts where
/// the trait-based [`coerce`] is inconvenient; aborts if the types differ.
/// Ownership moves into the result: the input is consumed once and no cleanup
/// runs on the stale binding.
///
/// Relies on `Box::new` and `Box<dyn core::any::Any>::downcast`: the downcast
/// returns the boxed value itself, now typed `U`, exactly when its type is
/// `U`, and hands the box back otherwise; that case aborts through
/// `Option::expect`.
#[verifier::external_body]
pub fn coerce_static<T: 'static, U: 'static>(value: T) -> U {
    let boxed: Box<dyn core::any::Any> = Box::new(value);
    match boxed.downcast::<U>() {
        Ok(u) => *u,
        Err(_) => {
            let t = core::any::TypeId::of::<T>();
            let u = core::any::TypeId::of::<U>();
            let missing: Option<U> = None;
            missing.expect(&format!("type mismatch: {t:?} is not {u:?}"))
        },
    }
}

} // verus!

