use std::cell::Cell;

use little_poem::context::{
    check_capability, identity_from_lookup, resolve_identity, resolve_user_dependency, Context,
    ContextError, DefaultFlag, FromUserContext, GateRejection, IdUsername, IdentityLookup,
    IdentityState, LoginFlag, LogoutFlag, LookupFailure, RequestScope, ResolveError,
    UserCheckService, UserContext, UserContextDependencyFlag, UserContextFlagData, UserIdContext,
};

struct CountingLookup {
    calls: Cell<u32>,
    known_token: String,
    fail: bool,
}

impl CountingLookup {
    fn knowing(token: &str) -> Self {
        CountingLookup {
            calls: Cell::new(0),
            known_token: token.to_string(),
            fail: false,
        }
    }

    fn failing() -> Self {
        CountingLookup {
            calls: Cell::new(0),
            known_token: String::new(),
            fail: true,
        }
    }
}

impl IdentityLookup for &CountingLookup {
    fn find_by_token(&self, token: &str) -> Result<Option<IdUsername>, LookupFailure> {
        self.calls.set(self.calls.get() + 1);
        if self.fail {
            Err(LookupFailure)
        } else if token == self.known_token {
            Ok(Some(IdUsername {
                id: 7,
                username: "alice".to_string(),
            }))
        } else {
            Ok(None)
        }
    }
}

struct Probe;

impl FromUserContext for Probe {
    fn from_user_context(_ctx: &UserContext) -> Result<Self, ContextError> {
        Ok(Probe)
    }
}

#[test]
fn lookup_outcomes_map_to_identities_exactly() {
    // A found row becomes the authenticated identity with that row's fields.
    let found = identity_from_lookup(Ok(Some(IdUsername {
        id: 42,
        username: "carol".to_string(),
    })))
    .unwrap();
    assert_eq!(found.id, 42);
    assert!(found.is_user);
    assert_eq!(found.username, "carol");

    // No matching row becomes the canonical visitor.
    let missed = identity_from_lookup(Ok(None)).unwrap();
    assert_eq!(missed.id, 0);
    assert!(!missed.is_user);
    assert_eq!(missed.username, "Visitor");

    // A failed lookup surfaces as an error, never as a visitor.
    let failed = identity_from_lookup(Err(LookupFailure));
    assert!(matches!(failed, Err(ContextError::LookupError)));
}

#[test]
fn identity_lookup_runs_exactly_once_per_request() {
    let lookup = CountingLookup::knowing("tok");
    let service = UserCheckService::new(&lookup, Some("tok".to_string()));
    let mut scope = RequestScope::new();

    let first = resolve_identity(&mut scope, &service).unwrap();
    let second = resolve_identity(&mut scope, &service).unwrap();

    assert_eq!(lookup.calls.get(), 1);
    assert_eq!(first.id, 7);
    assert!(first.is_user);
    assert_eq!(first.username, "alice");
    assert_eq!(second.id, first.id);
    assert_eq!(second.is_user, first.is_user);
    assert_eq!(second.username, first.username);
}

#[test]
fn missing_token_resolves_to_the_canonical_visitor() {
    let lookup = CountingLookup::knowing("tok");
    let service = UserCheckService::new(&lookup, None);
    let mut scope = RequestScope::new();

    let identity = resolve_identity(&mut scope, &service).unwrap();
    assert_eq!(lookup.calls.get(), 0);
    assert_eq!(identity.id, 0);
    assert!(!identity.is_user);
    assert_eq!(identity.username, "Visitor");
}

#[test]
fn unknown_token_resolves_to_the_canonical_visitor() {
    let lookup = CountingLookup::knowing("tok");
    let service = UserCheckService::new(&lookup, Some("stale".to_string()));
    let mut scope = RequestScope::new();

    let identity = resolve_identity(&mut scope, &service).unwrap();
    assert_eq!(lookup.calls.get(), 1);
    assert!(!identity.is_user);
    assert_eq!(identity.username, "Visitor");
}

#[test]
fn failed_lookup_surfaces_and_is_not_retried() {
    let lookup = CountingLookup::failing();
    let service = UserCheckService::new(&lookup, Some("tok".to_string()));
    let mut scope = RequestScope::new();

    let first = resolve_identity(&mut scope, &service);
    assert!(matches!(first, Err(ContextError::LookupError)));
    assert!(matches!(
        scope.identity,
        IdentityState::Failed(ContextError::LookupError)
    ));

    let second = resolve_identity(&mut scope, &service);
    assert!(matches!(second, Err(ContextError::LookupError)));
    assert_eq!(lookup.calls.get(), 1);
}

#[test]
fn capability_gate_rejects_by_flag_and_identity() {
    let user = UserIdContext {
        id: 7,
        is_user: true,
        username: "alice".to_string(),
    };
    let visitor = UserIdContext::visitor();

    let login_flags = LoginFlag::build_flag_data();
    let logout_flags = LogoutFlag::build_flag_data();
    let default_flags = DefaultFlag::build_flag_data();

    assert!(matches!(
        check_capability(&login_flags, &user),
        Err(GateRejection::Unauthorized)
    ));
    assert!(check_capability(&login_flags, &visitor).is_ok());

    assert!(matches!(
        check_capability(&logout_flags, &visitor),
        Err(GateRejection::Forbidden)
    ));
    assert!(check_capability(&logout_flags, &user).is_ok());

    assert!(check_capability(&default_flags, &user).is_ok());
    assert!(check_capability(&default_flags, &visitor).is_ok());

    assert_eq!(GateRejection::Unauthorized.status_code(), 401);
    assert_eq!(GateRejection::Forbidden.status_code(), 403);
}

#[test]
fn gated_resolution_rejects_before_building_the_dependency() {
    let lookup = CountingLookup::knowing("tok");
    let ctx = Context {
        token_cookie: Some("tok".to_string()),
    };
    let service = UserCheckService::new(&lookup, Some("tok".to_string()));
    let mut scope = RequestScope::new();

    // An authenticated identity may not resolve a login-flagged dependency.
    let rejected =
        resolve_user_dependency::<Probe, LoginFlag, &CountingLookup>(&mut scope, &ctx, &service);
    assert!(matches!(
        rejected,
        Err(ResolveError::Gate(GateRejection::Unauthorized))
    ));

    // The same request resolves a logout-flagged dependency without a second
    // lookup: the identity is already cached.
    let allowed =
        resolve_user_dependency::<Probe, LogoutFlag, &CountingLookup>(&mut scope, &ctx, &service);
    assert!(allowed.is_ok());
    assert_eq!(lookup.calls.get(), 1);
}

#[test]
fn anonymous_resolution_mirrors_the_gate() {
    let lookup = CountingLookup::knowing("tok");
    let ctx = Context { token_cookie: None };
    let service = UserCheckService::new(&lookup, None);
    let mut scope = RequestScope::new();

    let allowed =
        resolve_user_dependency::<Probe, LoginFlag, &CountingLookup>(&mut scope, &ctx, &service);
    assert!(allowed.is_ok());

    let rejected =
        resolve_user_dependency::<Probe, LogoutFlag, &CountingLookup>(&mut scope, &ctx, &service);
    assert!(matches!(
        rejected,
        Err(ResolveError::Gate(GateRejection::Forbidden))
    ));
}

#[test]
fn flag_data_matches_its_declaration() {
    assert!(matches!(
        DefaultFlag::build_flag_data(),
        UserContextFlagData {
            allow_user: true,
            allow_visitor: true,
        }
    ));
    assert!(matches!(
        LoginFlag::build_flag_data(),
        UserContextFlagData {
            allow_user: false,
            allow_visitor: true,
        }
    ));
    assert!(matches!(
        LogoutFlag::build_flag_data(),
        UserContextFlagData {
            allow_user: true,
            allow_visitor: false,
        }
    ));
}
