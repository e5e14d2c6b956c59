//! Content references and the durable grants that make them usable.

use crate::error::PickError;
use vstd::prelude::*;

verus! {

/// An opaque identifier of a document, issued by the platform. It is carried
/// as its serialized token and compared as a whole; nothing here looks inside.
#[derive(Debug)]
pub struct ContentReference {
    token: String,
}

impl View for ContentReference {
    type V = Seq<char>;

    closed spec fn view(&self) -> Seq<char> {
        self.token@
    }
}

impl Clone for ContentReference {
    fn clone(&self) -> (copy: Self)
        ensures
            copy@ == self@,
    {
        proof {
            use_type_invariant(self);
        }
        ContentReference { token: self.token.clone() }
    }
}

impl ContentReference {
    /// A reference always carries a token of at least one character.
    #[verifier::type_invariant]
    pub open spec fn well_formed(self) -> bool {
        is_token(self@)
    }

    /// Takes a serialized token as a reference. Only the empty string is no
    /// token; any other text is kept exactly as it came.
    pub fn from_token(token: String) -> (reference: Option<ContentReference>)
        ensures
            reference is Some <==> is_token(token@),
            reference matches Some(r) ==> r@ == token@,
    {
        if token.as_str().is_empty() {
            None
        } else {
            Some(ContentReference { token })
        }
    }

    /// The serialized token, character for character as the platform gave it.
    pub fn to_token(&self) -> (token: String)
        ensures
            token@ == self@,
            is_token(token@),
    {
        proof {
            use_type_invariant(self);
        }
        self.token.clone()
    }

    /// Whether two references carry the same token.
    pub fn same_as(&self, other: &ContentReference) -> (same: bool)
        ensures
            same == (self@ == other@),
    {
        self.token == other.token
    }
}

/// True of the texts that can stand for a content reference: all but the
/// empty one.
pub open spec fn is_token(token: Seq<char>) -> bool {
    token.len() > 0
}

/// What the platform said when asked to make a pick-time grant durable.
#[derive(Clone, Copy, Debug, PartialEq, Eq, Structural)]
pub enum GrantOutcome {
    /// The grant now survives a restart of the process.
    Granted,
    /// The platform refused.
    Denied,
}

/// A durable grant that binds one content reference to this application.
/// The only way to one is [`authorize`] with the platform's consent.
#[derive(Debug)]
pub struct Authorization {
    reference: ContentReference,
}

impl View for Authorization {
    type V = Seq<char>;

    closed spec fn view(&self) -> Seq<char> {
        self.reference@
    }
}

impl Authorization {
    /// Whether this grant is the one for `reference`.
    pub fn covers(&self, reference: &ContentReference) -> (covered: bool)
        ensures
            covered == (self@ == reference@),
    {
        self.reference.same_as(reference)
    }

    /// The reference this grant is bound to.
    pub fn reference(&self) -> (reference: ContentReference)
        ensures
            reference@ == self@,
    {
        self.reference.clone()
    }
}

/// What a permission request comes to: the grant for `reference` where the
/// platform consented, `PermissionDenied` where it did not.
pub open spec fn authorize_view(reference: Seq<char>, outcome: GrantOutcome) -> Result<
    Seq<char>,
    PickError,
> {
    match outcome {
        GrantOutcome::Granted => Ok(reference),
        GrantOutcome::Denied => Err(PickError::PermissionDenied),
    }
}

/// The view of a permission request's result: a grant is seen as the token
/// it covers.
pub open spec fn granted_view(granted: Result<Authorization, PickError>) -> Result<
    Seq<char>,
    PickError,
> {
    match granted {
        Ok(authorization) => Ok(authorization@),
        Err(kind) => Err(kind),
    }
}

/// Turns the platform's answer to a permission request into the grant for
/// `reference`, or into `PermissionDenied`.
pub fn authorize(reference: &ContentReference, outcome: GrantOutcome) -> (granted: Result<
    Authorization,
    PickError,
>)
    ensures
        granted_view(granted) == authorize_view(reference@, outcome),
{
    match outcome {
        GrantOutcome::Granted => Ok(Authorization { reference: reference.clone() }),
        GrantOutcome::Denied => Err(PickError::PermissionDenied),
    }
}

/// Authorizing a reference that is authorized already changes nothing: the
/// grant that comes back covers the same reference as the one before.
pub proof fn authorize_is_idempotent(reference: Seq<char>)
    ensures
        authorize_view(
            authorize_view(reference, GrantOutcome::Granted)->Ok_0,
            GrantOutcome::Granted,
        ) == authorize_view(reference, GrantOutcome::Granted),
{
}

} // verus!
