use rust_shop::access::{
    AccessDecisionManager, AccessDecisionVoter, AffirmativeBased, DefaultConfigAttribute, RoleVoter, SecurityError,
    SecurityInterceptor, SecurityMetadataSource, Vote,
};
use rust_shop::security::{DefaultAuthentication, DefaultAuthenticationToken, DefaultUserDetails};

fn auth(authenticated: bool, roles: &[&str]) -> DefaultAuthentication {
    DefaultAuthentication::new(
        DefaultAuthenticationToken::new("bob".to_string(), "pw".to_string()),
        roles.iter().map(|r| r.to_string()).collect(),
        authenticated,
        DefaultUserDetails::default(),
    )
}

fn attrs(roles: &[&str]) -> Vec<DefaultConfigAttribute> {
    roles.iter().map(|r| DefaultConfigAttribute { attribute: r.to_string() }).collect()
}

#[test]
fn unauthenticated_request_is_denied() {
    let voter = RoleVoter;
    assert_eq!(voter.vote(&auth(false, &["admin"]), &attrs(&["admin"])), Vote::AccessDenied);
    assert_eq!(voter.vote(&auth(false, &[]), &attrs(&[])), Vote::AccessDenied);
}

#[test]
fn role_vote_grants_when_all_roles_held() {
    let voter = RoleVoter;
    assert_eq!(voter.vote(&auth(true, &["admin", "user"]), &attrs(&["user", "admin"])), Vote::AccessGranted);
    assert_eq!(voter.vote(&auth(true, &["user"]), &attrs(&["user", "admin"])), Vote::AccessDenied);
    assert_eq!(voter.vote(&auth(true, &["user"]), &attrs(&[])), Vote::AccessAbstain);
}

#[test]
fn more_authorities_keep_a_grant() {
    let voter = RoleVoter;
    assert_eq!(voter.vote(&auth(true, &["user"]), &attrs(&["user"])), Vote::AccessGranted);
    assert_eq!(voter.vote(&auth(true, &["user", "admin"]), &attrs(&["user"])), Vote::AccessGranted);
}

#[test]
fn affirmative_decision() {
    let manager = AffirmativeBased::new(vec![RoleVoter]);
    assert_eq!(manager.decide(&auth(true, &["user"]), &attrs(&["user"]), None), Ok(()));
    assert_eq!(
        manager.decide(&auth(true, &["user"]), &attrs(&["admin"]), None),
        Err(SecurityError::AccessDeniedException)
    );
}

#[test]
fn all_abstain_follows_configuration() {
    let manager = AffirmativeBased::new(vec![RoleVoter]);
    assert_eq!(manager.decide(&auth(true, &[]), &attrs(&[]), None), Ok(()));
    assert_eq!(manager.decide(&auth(true, &[]), &attrs(&[]), Some(true)), Ok(()));
    assert_eq!(manager.decide(&auth(true, &[]), &attrs(&[]), Some(false)), Err(SecurityError::AccessDeniedException));
    let nobody: AffirmativeBased<RoleVoter> = AffirmativeBased::new(vec![]);
    assert_eq!(nobody.check_allow_if_all_abstain_decisions(Some(false)), Err(SecurityError::AccessDeniedException));
}

#[test]
fn metadata_source_maps_paths_to_roles() {
    let mut source = SecurityMetadataSource::new();
    source.insert("/admin".to_string(), attrs(&["admin"]));
    source.insert("/admin".to_string(), attrs(&["root"]));
    assert_eq!(source.request_map().len(), 1);
    assert_eq!(source.get("/admin").unwrap()[0].attribute, "root");
    assert!(source.get("/other").is_none());
}

#[test]
fn interceptor_checks_required_roles() {
    let manager = AffirmativeBased::new(vec![RoleVoter]);
    let mut source = SecurityMetadataSource::new();
    source.insert("/admin".to_string(), attrs(&["admin"]));
    let interceptor = SecurityInterceptor;
    assert_eq!(interceptor.check_access(&manager, &source, &auth(true, &["admin"]), "/admin", None), Ok(()));
    assert_eq!(
        interceptor.check_access(&manager, &source, &auth(true, &["user"]), "/admin", None),
        Err(SecurityError::AccessDeniedException)
    );
    assert_eq!(interceptor.check_access(&manager, &source, &auth(true, &["user"]), "/open", None), Ok(()));
    assert_eq!(SecurityError::AccessDeniedException.message(), "访问被拒绝");
}
