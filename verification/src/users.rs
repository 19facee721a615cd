//! Opaque user identities tagged with a capability.
//!
//! A [`User`] carries an identifier string and a type-level capability tag:
//! [`Requester`] for the identity that creates and owns trades, [`Approver`]
//! for the identity that reviews them. The capability is fixed when the user
//! signs in and never changes.
//!
//! The [`Transitioner`] trait captures the authorization rule each capability
//! brings to a transition: a requester may act only on trades whose trading
//! entity has the same identifier, while an approver may act on any trade.

use core::marker::PhantomData;
use vstd::prelude::*;

verus! {

/// Marker trait for a user capability tag.
pub trait Permission: Sized {
}

/// Capability of the identity that creates, submits and reapproves trades it
/// owns.
#[derive(Debug, Clone, Copy)]
pub struct Requester;

impl Permission for Requester {
}

/// Capability of the identity that accepts, updates, routes and books trades
/// without an ownership check.
#[derive(Debug, Clone, Copy)]
pub struct Approver;

impl Permission for Approver {
}

/// An opaque user identity: an identifier string plus a capability tag.
#[derive(Debug)]
pub struct User<P: Permission> {
    id: String,
    _permission: PhantomData<P>,
}

impl<P: Permission> User<P> {
    /// The user's identifier.
    pub closed spec fn spec_id(&self) -> Seq<char> {
        self.id@
    }

    /// Creates an identity with the given identifier and the capability named
    /// by the type parameter.
    pub fn sign_in(id: &str) -> (r: Self)
        ensures
            r.spec_id() == id@,
    {
        User { id: id.to_owned(), _permission: PhantomData }
    }

    /// The user's identifier, borrowed.
    pub fn user_id(&self) -> (r: &str)
        ensures
            r@ == self.spec_id(),
    {
        self.id.as_str()
    }

    /// The user's identifier, as an owned string.
    pub fn id_string(&self) -> (r: String)
        ensures
            r@ == self.spec_id(),
    {
        self.id.clone()
    }

    /// Whether two identities carry the same identifier.
    pub fn same_id<Q: Permission>(&self, other: &User<Q>) -> (r: bool)
        ensures
            r == (self.spec_id() == other.spec_id()),
    {
        self.id == other.id
    }
}

impl<P: Permission> Clone for User<P> {
    fn clone(&self) -> (r: Self)
        ensures
            r == *self,
    {
        User { id: self.id.clone(), _permission: PhantomData }
    }
}

/// An identity that may attempt lifecycle transitions. The two capability
/// tags implement it with their respective authorization rules.
pub trait Transitioner: Sized {
    /// Whether this actor may transition a record whose trading entity is
    /// `owner`.
    spec fn spec_permits(&self, owner: &User<Requester>) -> bool;

    /// The acting identity's identifier, as recorded in audit entries.
    spec fn spec_actor_id(&self) -> Seq<char>;

    /// Runtime check of [`Transitioner::spec_permits`].
    fn permits(&self, owner: &User<Requester>) -> (r: bool)
        ensures
            r == self.spec_permits(owner),
    ;

    /// The acting identity's identifier, as an owned string.
    fn actor_id(&self) -> (r: String)
        ensures
            r@ == self.spec_actor_id(),
    ;
}

/// A requester may transition only records it owns: its identifier must match
/// the record's trading entity.
impl Transitioner for User<Requester> {
    open spec fn spec_permits(&self, owner: &User<Requester>) -> bool {
        self.spec_id() == owner.spec_id()
    }

    open spec fn spec_actor_id(&self) -> Seq<char> {
        self.spec_id()
    }

    fn permits(&self, owner: &User<Requester>) -> bool {
        self.same_id(owner)
    }

    fn actor_id(&self) -> String {
        self.id_string()
    }
}

/// An approver is not subject to an ownership check: any approver may act on
/// any trade.
impl Transitioner for User<Approver> {
    open spec fn spec_permits(&self, owner: &User<Requester>) -> bool {
        true
    }

    open spec fn spec_actor_id(&self) -> Seq<char> {
        self.spec_id()
    }

    fn permits(&self, owner: &User<Requester>) -> bool {
        true
    }

    fn actor_id(&self) -> String {
        self.id_string()
    }
}

} // verus!
