//! Request-scoped context resolution.
//!
//! A request resolves its dependencies in three steps: the request's identity
//! is computed at most once through the [`RequestScope`] slot (later
//! resolutions observe the first result, a failed lookup surfaces as a
//! failure rather than a silent visitor); the dependency kind's capability
//! flags are checked against that identity; only if the flags allow that
//! identity is the dependency built from a [`UserContext`]. A capability rejection is an
//! authorization decision, distinct from a resolution error.

use vstd::prelude::*;

verus! {

/// Environment and infrastructure failures of dependency resolution —
/// distinct from validation errors and from capability rejections.
#[derive(Clone, Copy, PartialEq, Eq, Structural, Debug)]
pub enum ContextError {
    /// Malformed or unavailable request data.
    RequestError,
    /// The identity cache could not be acquired; fatal for the request.
    LockError,
    /// The identity lookup itself failed (distinguishable from "not found").
    LookupError,
}

/// The resolved identity of a request. An unauthenticated request takes the
/// canonical visitor shape.
#[derive(Debug)]
pub struct UserIdContext {
    pub id: i64,
    pub is_user: bool,
    pub username: String,
}

/// The canonical shape of an unauthenticated identity.
pub open spec fn is_visitor(u: UserIdContext) -> bool {
    &&& !u.is_user
    &&& u.id == 0
    &&& u.username@ == "Visitor"@
}

/// Every resolved identity is either authenticated or the canonical visitor:
/// no other unauthenticated shape exists.
pub open spec fn identity_wf(u: UserIdContext) -> bool {
    u.is_user || is_visitor(u)
}

impl Clone for UserIdContext {
    fn clone(&self) -> (r: Self)
        ensures
            r == *self,
    {
        UserIdContext { id: self.id, is_user: self.is_user, username: self.username.clone() }
    }
}

impl UserIdContext {
    /// The canonical visitor identity.
    pub fn visitor() -> (r: Self)
        ensures
            is_visitor(r),
    {
        UserIdContext { id: 0, is_user: false, username: "Visitor".to_owned() }
    }
}

/// An identity row of the storage layer.
pub struct IdUsername {
    pub id: i64,
    pub username: String,
}

/// A credential row of the storage layer.
pub struct IdPassword {
    pub id: i64,
    pub password: Vec<u8>,
}

/// The identity lookup failed; distinguishable from a token that matched no
/// identity.
pub struct LookupFailure;

/// Identity lookup collaborator (storage layer): the identity a session
/// token belongs to, `None` when the token matches none.
pub trait IdentityLookup {
    fn find_by_token(&self, token: &str) -> Result<Option<IdUsername>, LookupFailure>;
}

/// Maps the identity lookup's outcome to the request's identity record: a
/// found row becomes the authenticated identity carrying exactly that row's
/// id and name, no row becomes the canonical visitor, and a failed lookup
/// becomes a lookup error — never silently a visitor.
pub fn identity_from_lookup(outcome: Result<Option<IdUsername>, LookupFailure>) -> (r: Result<
    UserIdContext,
    ContextError,
>)
    ensures
        r matches Ok(u) ==> identity_wf(u),
        outcome matches Ok(Some(row)) ==> r == Ok::<UserIdContext, ContextError>(
            UserIdContext { id: row.id, is_user: true, username: row.username },
        ),
        outcome matches Ok(None) ==> (r matches Ok(u) && is_visitor(u)),
        outcome is Err ==> r == Err::<UserIdContext, ContextError>(ContextError::LookupError),
{
    match outcome {
        Ok(Some(row)) => Ok(UserIdContext { id: row.id, is_user: true, username: row.username }),
        Ok(None) => Ok(UserIdContext::visitor()),
        Err(_) => Err(ContextError::LookupError),
    }
}

/// Resolves a request's identity from its optional session token through the
/// identity lookup collaborator.
pub struct UserCheckService<R: IdentityLookup> {
    user_repository: R,
    token_cookie: Option<String>,
}

impl<R: IdentityLookup> UserCheckService<R> {
    /// The session token this service reads.
    pub closed spec fn spec_token(&self) -> Option<String> {
        self.token_cookie
    }

    pub fn new(user_repository: R, token_cookie: Option<String>) -> (r: Self)
        ensures
            r.spec_token() == token_cookie,
    {
        UserCheckService { user_repository, token_cookie }
    }

    /// The identity record of the request: with a token, the lookup's outcome
    /// mapped by [`identity_from_lookup`] (found row as the authenticated
    /// identity, no match as the visitor, failure as a lookup error); with no
    /// token, the canonical visitor without any lookup.
    pub fn get_user_context(&self) -> (r: Result<UserIdContext, ContextError>)
        ensures
            r matches Ok(u) ==> identity_wf(u),
            self.spec_token() is None ==> (r matches Ok(u) && is_visitor(u)),
            r matches Ok(u) && u.is_user ==> self.spec_token() is Some,
            r matches Err(e) ==> e == ContextError::LookupError,
    {
        match &self.token_cookie {
            Some(token) => identity_from_lookup(
                self.user_repository.find_by_token(token.as_str()),
            ),
            None => Ok(UserIdContext::visitor()),
        }
    }
}

/// The request-scoped identity slot: not yet computed, computed once, or
/// failed once. Written at most once, read by every later resolution.
pub enum IdentityState {
    NotYetComputed,
    Computed(UserIdContext),
    Failed(ContextError),
}

/// The per-request scope that carries the identity slot. It is passed
/// explicitly through the resolution call chain.
pub struct RequestScope {
    pub identity: IdentityState,
}

impl RequestScope {
    /// A computed identity always has a well-formed shape.
    pub open spec fn wf(&self) -> bool {
        self.identity matches IdentityState::Computed(u) ==> identity_wf(u)
    }

    /// A fresh scope: nothing computed yet.
    pub fn new() -> (r: Self)
        ensures
            r.wf(),
            r.identity is NotYetComputed,
    {
        RequestScope { identity: IdentityState::NotYetComputed }
    }
}

/// Resolves the request's identity through the slot: the first call computes
/// it through the lookup collaborator and stores the outcome; every later
/// call in the same request observes exactly the stored outcome and leaves
/// the slot unchanged, so the underlying lookup runs at most once per
/// request.
pub fn resolve_identity<R: IdentityLookup>(
    scope: &mut RequestScope,
    service: &UserCheckService<R>,
) -> (r: Result<UserIdContext, ContextError>)
    requires
        old(scope).wf(),
    ensures
        final(scope).wf(),
        !(final(scope).identity is NotYetComputed),
        match old(scope).identity {
            IdentityState::Computed(u) => final(scope).identity == old(scope).identity && r
                == Ok::<UserIdContext, ContextError>(u),
            IdentityState::Failed(e) => final(scope).identity == old(scope).identity && r
                == Err::<UserIdContext, ContextError>(e),
            IdentityState::NotYetComputed => match r {
                Ok(u) => final(scope).identity == IdentityState::Computed(u) && identity_wf(u) && (
                u.is_user ==> service.spec_token() is Some),
                Err(e) => final(scope).identity == IdentityState::Failed(e) && e
                    == ContextError::LookupError,
            },
        },
        old(scope).identity is NotYetComputed && service.spec_token() is None ==> (
        r matches Ok(u) && is_visitor(u)),
{
    let cached: Option<Result<UserIdContext, ContextError>> = match &scope.identity {
        IdentityState::Computed(u) => Some(Ok(u.clone())),
        IdentityState::Failed(e) => Some(Err(*e)),
        IdentityState::NotYetComputed => None,
    };
    match cached {
        Some(r) => r,
        None => match service.get_user_context() {
            Ok(u) => {
                scope.identity = IdentityState::Computed(u.clone());
                Ok(u)
            },
            Err(e) => {
                scope.identity = IdentityState::Failed(e);
                Err(e)
            },
        },
    }
}

/// The declared capability flags of a dependency kind: whether an
/// authenticated user, and whether a visitor, may resolve it.
#[derive(Clone, Copy, PartialEq, Eq, Structural, Debug)]
pub struct UserContextFlagData {
    pub allow_user: bool,
    pub allow_visitor: bool,
}

/// A capability rejection: an authorization decision, not an error, with a
/// fixed status classification.
#[derive(Clone, Copy, PartialEq, Eq, Structural, Debug)]
pub enum GateRejection {
    /// An authenticated user may not resolve this dependency (e.g. a login
    /// form).
    Unauthorized,
    /// A visitor may not resolve this dependency (e.g. a logout action).
    Forbidden,
}

impl GateRejection {
    /// The HTTP-style status classification of this rejection.
    pub fn status_code(&self) -> (r: u16)
        ensures
            *self is Unauthorized ==> r == 401,
            *self is Forbidden ==> r == 403,
    {
        match self {
            GateRejection::Unauthorized => 401,
            GateRejection::Forbidden => 403,
        }
    }
}

/// The decision of the capability flags against the resolved identity,
/// made before the dependency is ever constructed.
pub open spec fn gate_decision(flags: UserContextFlagData, is_user: bool) -> Option<GateRejection> {
    if is_user && !flags.allow_user {
        Some(GateRejection::Unauthorized)
    } else if !is_user && !flags.allow_visitor {
        Some(GateRejection::Forbidden)
    } else {
        None
    }
}

/// Checks a dependency's capability flags against the resolved identity.
pub fn check_capability(flags: &UserContextFlagData, identity: &UserIdContext) -> (r: Result<
    (),
    GateRejection,
>)
    ensures
        gate_decision(*flags, identity.is_user) matches Some(k) ==> r == Err::<(), GateRejection>(
            k,
        ),
        gate_decision(*flags, identity.is_user) is None ==> r is Ok,
{
    if identity.is_user && !flags.allow_user {
        Err(GateRejection::Unauthorized)
    } else if !identity.is_user && !flags.allow_visitor {
        Err(GateRejection::Forbidden)
    } else {
        Ok(())
    }
}

/// A dependency kind flagged `allow_authenticated = false` rejects exactly
/// the requests whose resolved identity is authenticated, and one flagged
/// `allow_visitor = false` rejects exactly the anonymous ones; each with its
/// own fixed classification, and a permissive flag never rejects.
pub proof fn lemma_capability_gate(flags: UserContextFlagData, is_user: bool)
    ensures
        !flags.allow_user ==> (gate_decision(flags, true) == Some(GateRejection::Unauthorized)),
        flags.allow_visitor ==> gate_decision(flags, false) is None,
        !flags.allow_visitor ==> (gate_decision(flags, false) == Some(GateRejection::Forbidden)),
        flags.allow_user ==> gate_decision(flags, true) is None,
        gate_decision(flags, is_user) is Some <==> (is_user && !flags.allow_user) || (!is_user
            && !flags.allow_visitor),
{
}

/// The declared-time capability flags of a dependency kind: the same kind
/// enforces the same policy everywhere it is resolved.
pub trait UserContextDependencyFlag {
    /// Whether an authenticated user may resolve the kind.
    spec fn spec_allow_user() -> bool;

    /// Whether a visitor may resolve the kind.
    spec fn spec_allow_visitor() -> bool;

    fn build_flag_data() -> (r: UserContextFlagData)
        ensures
            r.allow_user == Self::spec_allow_user(),
            r.allow_visitor == Self::spec_allow_visitor(),
    ;
}

/// The default, permissive flags: both user and visitor allowed.
pub struct DefaultFlag;

impl UserContextDependencyFlag for DefaultFlag {
    open spec fn spec_allow_user() -> bool {
        true
    }

    open spec fn spec_allow_visitor() -> bool {
        true
    }

    fn build_flag_data() -> (r: UserContextFlagData) {
        UserContextFlagData { allow_user: true, allow_visitor: true }
    }
}

/// Flags of login-like dependencies: visitors only — an already-logged-in
/// user may not re-access a login form.
pub struct LoginFlag;

impl UserContextDependencyFlag for LoginFlag {
    open spec fn spec_allow_user() -> bool {
        false
    }

    open spec fn spec_allow_visitor() -> bool {
        true
    }

    fn build_flag_data() -> (r: UserContextFlagData) {
        UserContextFlagData { allow_user: false, allow_visitor: true }
    }
}

/// Flags of logout-like dependencies: authenticated users only.
pub struct LogoutFlag;

impl UserContextDependencyFlag for LogoutFlag {
    open spec fn spec_allow_user() -> bool {
        true
    }

    open spec fn spec_allow_visitor() -> bool {
        false
    }

    fn build_flag_data() -> (r: UserContextFlagData) {
        UserContextFlagData { allow_user: true, allow_visitor: false }
    }
}

/// The request-lifetime global context: what the core reads of the request.
pub struct Context {
    pub token_cookie: Option<String>,
}

/// A dependency kind that builds itself from the global context, before
/// identity is known.
pub trait FromContext: Sized {
    fn from_context(ctx: &Context) -> Result<Self, ContextError>;
}

/// The identity-bound context: the global context plus the resolved
/// identity. Never constructed before identity resolution completes.
pub struct UserContext {
    pub user_context: UserIdContext,
    pub token_cookie: Option<String>,
}

/// A dependency kind that builds itself from a user context. Its build step
/// may call back into global resolution for sub-dependencies.
pub trait FromUserContext: Sized {
    fn from_user_context(ctx: &UserContext) -> Result<Self, ContextError>;
}

fn clone_token(token: &Option<String>) -> (r: Option<String>)
    ensures
        r == *token,
{
    match token {
        Some(t) => Some(t.clone()),
        None => None,
    }
}

impl UserContext {
    /// Builds a dependency from this user context.
    pub fn inject<T: FromUserContext>(&self) -> Result<T, ContextError> {
        T::from_user_context(self)
    }

    /// Builds an identity-free sub-dependency from the global part of this
    /// context.
    pub fn inject_global<T: FromContext>(&self) -> Result<T, ContextError> {
        let ctx = Context { token_cookie: clone_token(&self.token_cookie) };
        T::from_context(&ctx)
    }
}

/// Builds a dependency that needs no identity, directly from the global
/// context.
pub fn resolve_dependency<T: FromContext>(ctx: &Context) -> Result<T, ContextError> {
    T::from_context(ctx)
}

/// A dependency resolved for a request after its capability gate passed.
pub struct UserDependency<T>(pub T);

/// Why a user dependency could not be resolved: an environment failure, or a
/// capability rejection — the two surface differently at the request
/// boundary.
pub enum ResolveError {
    Context(ContextError),
    Gate(GateRejection),
}

/// Resolves a dependency of kind `T` with flags `F` for the request of
/// `scope`: identity first (computed at most once per request), then the
/// capability flags, and only when they allow the identity the dependency's
/// own build step. A capability rejection happens exactly when the flags
/// reject the identity, and before `T` is ever constructed.
pub fn resolve_user_dependency<T: FromUserContext, F: UserContextDependencyFlag, R: IdentityLookup>(
    scope: &mut RequestScope,
    ctx: &Context,
    service: &UserCheckService<R>,
) -> (r: Result<UserDependency<T>, ResolveError>)
    requires
        old(scope).wf(),
    ensures
        final(scope).wf(),
        !(final(scope).identity is NotYetComputed),
        old(scope).identity is Computed ==> final(scope).identity == old(scope).identity,
        old(scope).identity is Failed ==> final(scope).identity == old(scope).identity,
        final(scope).identity matches IdentityState::Failed(e) ==> (r matches Err(re) && re
            == ResolveError::Context(e)),
        final(scope).identity matches IdentityState::Computed(u) ==> (match gate_decision(
            UserContextFlagData {
                allow_user: F::spec_allow_user(),
                allow_visitor: F::spec_allow_visitor(),
            },
            u.is_user,
        ) {
            Some(k) => r matches Err(re) && re == ResolveError::Gate(k),
            None => !(r matches Err(re) && re is Gate),
        }),
{
    let flag = F::build_flag_data();
    let identity = match resolve_identity(scope, service) {
        Ok(u) => u,
        Err(e) => {
            return Err(ResolveError::Context(e));
        },
    };
    if let Err(k) = check_capability(&flag, &identity) {
        return Err(ResolveError::Gate(k));
    }
    let user_context = UserContext {
        user_context: identity,
        token_cookie: clone_token(&ctx.token_cookie),
    };
    match T::from_user_context(&user_context) {
        Ok(t) => Ok(UserDependency(t)),
        Err(e) => Err(ResolveError::Context(e)),
    }
}

} // verus!
