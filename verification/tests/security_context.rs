use rust_shop::security::{
    AuthError, Authentication, AuthenticationFilter, AuthenticationProcessingFilter, AuthenticationToken,
    DefaultAuthentication, DefaultAuthenticationExtractor, DefaultAuthenticationToken, DefaultSecurityContext,
    DefaultUserDetails, LocalCacheSecurityContextHolderStrategy, SecurityConfig, SecurityContext,
    SecurityContextHolder, SecurityContextHolderStrategy, UserDetails, UsernamePasswordAuthentication,
    DEFAULT_STRATEGY_NAME,
};

fn bob() -> DefaultAuthentication {
    DefaultAuthentication::new(
        DefaultAuthenticationToken::new("bob".to_string(), "pw".to_string()),
        vec!["user".to_string()],
        true,
        DefaultUserDetails::new(2, "bob".to_string(), "pw".to_string(), vec!["user".to_string()], true),
    )
}

#[test]
fn anonymous_authentication() {
    let a = DefaultAuthentication::default();
    assert!(!*a.is_authenticated());
    assert!(a.get_authorities().is_empty());
    assert_eq!(a.get_authentication_token().get_principal(), "anonymous");
    assert_eq!(a.get_details().get_username(), "anonymous");
}

#[test]
fn authentication_setters() {
    let mut a = DefaultAuthentication::default();
    a.set_authenticated(true);
    a.set_authorities(vec!["admin".to_string()]);
    assert!(*a.is_authenticated());
    assert_eq!(a.get_authorities(), &vec!["admin".to_string()]);
    a.set_details(DefaultUserDetails::new(5, "x".to_string(), "y".to_string(), vec![], true));
    assert_eq!(*a.get_details().get_id(), 5);
}

#[test]
fn username_password_authentication_copies_authorities() {
    let d = DefaultUserDetails::new(1, "bob".to_string(), "h".to_string(), vec!["a".to_string(), "b".to_string()], true);
    let a = UsernamePasswordAuthentication::authenticated(&"bob".to_string(), &"pw".to_string(), d);
    assert!(*a.is_authenticated());
    assert_eq!(a.get_authorities(), &vec!["a".to_string(), "b".to_string()]);
    assert_eq!(a.get_authentication_token().get_credentials(), "pw");
}

#[test]
fn security_config_settings() {
    let c = SecurityConfig::new(Some(false), Some("/api/*".to_string()), None);
    assert_eq!(c.allow_if_all_abstain_decisions(), Some(false));
    assert_eq!(c.intercept_url_patterns(), "/api/*");
    assert!(c.uses_default_strategy());
    assert!(SecurityConfig::new(None, Some(String::new()), Some(DEFAULT_STRATEGY_NAME.to_string())).uses_default_strategy());
    assert!(!SecurityConfig::new(None, Some(String::new()), Some("memory".to_string())).uses_default_strategy());
}

#[test]
fn context_lookup_falls_back_to_anonymous() {
    let strategy = LocalCacheSecurityContextHolderStrategy;
    assert_eq!(strategy.context_key("42"), "security_context::42");
    assert!(!*strategy.create_empty_context().get_authentication().is_authenticated());
    let kept = strategy.context_or_empty(Some(DefaultSecurityContext::new(bob())));
    assert_eq!(kept.get_authentication().get_details().get_username(), "bob");
    let none = SecurityContextHolder::default_security_context(None);
    assert!(!*none.get_authentication().is_authenticated());
    let config = SecurityConfig::new(None, None, None);
    let ctx = SecurityContextHolder::get_context(&config, Some(DefaultSecurityContext::new(bob())));
    assert!(*ctx.get_authentication().is_authenticated());
}

#[test]
fn extractor_takes_context_authentication() {
    let a = DefaultAuthenticationExtractor.extract(DefaultSecurityContext::new(bob()));
    assert_eq!(a.get_authorities(), &vec!["user".to_string()]);
    assert!(!*DefaultSecurityContext::default().into_authentication().is_authenticated());
}

#[test]
fn filter_patterns() {
    assert_eq!(AuthenticationProcessingFilter.url_patterns(), "/login");
    assert_eq!(AuthenticationFilter.url_patterns(), "/*");
}

#[test]
fn auth_error_messages() {
    assert_eq!(AuthError::MissingUsername.message(), "必须传入username字段");
    assert_eq!(AuthError::MissingPassword.message(), "必须传入password字段");
    assert_eq!(AuthError::MissingJsCode.message(), "必须传入jsCode字段");
    assert_eq!(AuthError::EmptyJsCode.message(), "jsCode不能为空");
    assert_eq!(AuthError::WeChatLogin("m".to_string()).message(), "m");
    assert_eq!(AuthError::InvalidPassword.message(), "无效密码");
    assert_eq!(AuthError::WrongPassword.message(), "密码错误");
    assert_eq!(AuthError::InvalidPasswordFormat.message(), "密码格式无效");
    assert_eq!(AuthError::HashFailure.message(), "密码加密失败");
    assert_eq!(AuthError::SaveWeChatUserFailed.message(), "保存微信用户信息失败");
}
