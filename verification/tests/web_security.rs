use rust_shop::access::SecurityMetadataSource;
use rust_shop::authn::NopPasswordEncoder;
use rust_shop::server::LoginStep;
use rust_shop::web_security::WebSecurityConfigurer;

#[test]
fn defaults_leave_security_off() {
    let c = WebSecurityConfigurer::new();
    assert!(!c.is_enable_security());
    assert!(!c.has_success_handler());
    assert!(!c.has_failure_handler());
    assert!(c.get_security_metadata_source().is_none());
    assert!(!c.has_voter());
    assert!(!c.has_decision_manager());
    assert_eq!(c.login_step(true), LoginStep::GrantToken);
    assert_eq!(c.login_step(false), LoginStep::Unauthorized);
}

#[test]
fn configuration_replaces_defaults() {
    let mut c = WebSecurityConfigurer::new();
    c.enable_security(true);
    c.authentication_success_handler();
    c.authentication_failure_handler();
    c.access_decision_voter();
    c.access_decision_manager();
    let mut source = SecurityMetadataSource::new();
    source.insert("/admin".to_string(), vec![]);
    c.security_metadata_source(source);
    let c = c.password_encoder(NopPasswordEncoder);
    assert!(c.is_enable_security());
    assert!(c.has_voter() && c.has_decision_manager());
    assert!(c.get_security_metadata_source().as_ref().unwrap().get("/admin").is_some());
    assert_eq!(c.login_step(true), LoginStep::SuccessHandler);
    assert_eq!(c.login_step(false), LoginStep::FailureHandler);
}
