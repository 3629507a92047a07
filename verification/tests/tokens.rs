use rust_shop::jwt::{grant_result, refresh_allowed, removed, token_claims, token_expiry, Claims, JwtConfig, JwtError};
use rust_shop::wechat::{
    TokenStep, WeChatAccessTokenManager, WeChatAccessTokenResponse, WeChatMiniAppService, Wechat,
    TOKEN_REMAINING_LIFETIME_SECONDS_REFRESH,
};

fn config() -> JwtConfig {
    JwtConfig {
        secret: "SECRET-REDACTED".to_string(),
        sub: "rust-shop".to_string(),
        access_token_validity: 2 * 86400 + 100,
        refresh_token_validity: 30 * 86400,
    }
}

#[test]
fn expiry_counts_whole_days() {
    assert_eq!(token_expiry(1000, 2 * 86400 + 5), 1000 + 2 * 86400);
    assert_eq!(token_expiry(1000, 86399), 1000);
    assert_eq!(token_expiry(1000, -90000), 1000 - 86400);
    assert!(token_expiry(0, 86400) <= token_expiry(0, 2 * 86400));
}

#[test]
fn grant_claims_share_identity() {
    let (access, refresh) = token_claims(&config(), 5, &"tid".to_string(), 1_000_000);
    assert_eq!(access.user_id, 5);
    assert_eq!(refresh.user_id, 5);
    assert_eq!(access.token_id, "tid");
    assert_eq!(refresh.token_id, "tid");
    assert_eq!(access.sub, "rust-shop");
    assert_eq!(access.iat, 1_000_000);
    assert_eq!(access.exp, 1_000_000 + 2 * 86400);
    assert_eq!(refresh.exp, 1_000_000 + 30 * 86400);
    let c = Claims::new("t".to_string(), 1, "s".to_string(), 2, 3);
    assert_eq!(c.exp, 3);
}

#[test]
fn grant_and_refresh_bookkeeping() {
    let t = grant_result("a".to_string(), "r".to_string(), 1, &config()).ok().unwrap();
    assert_eq!(t.access_token, "a");
    assert_eq!(t.refresh_token, "r");
    assert_eq!(t.exp, 2 * 86400 + 100);
    assert!(matches!(grant_result("a".to_string(), "r".to_string(), 0, &config()), Err(JwtError::GrantFailed)));
    assert!(refresh_allowed(true).is_ok());
    assert!(matches!(refresh_allowed(false), Err(JwtError::RefreshTokenNotFound)));
    assert!(removed(2));
    assert!(!removed(0));
    assert_eq!(JwtError::GrantFailed.message(), "grant_access_token failed!");
    assert_eq!(JwtError::RefreshTokenNotFound.message(), "refresh_token不存在");
}

fn token_response(token: &str, expires_in: i64) -> WeChatAccessTokenResponse {
    WeChatAccessTokenResponse {
        access_token: Some(token.to_string()),
        expires_in: Some(expires_in),
        errcode: None,
        errmsg: None,
    }
}

#[test]
fn token_is_requested_when_none_is_held() {
    let m = WeChatAccessTokenManager::new();
    assert!(matches!(m.next_step(0), TokenStep::Request));
}

#[test]
fn token_reused_until_renewal_window() {
    let mut m = WeChatAccessTokenManager::new();
    assert_eq!(m.get_token_from_response(token_response("tok", 7200), 1000).ok(), Some("tok".to_string()));
    match m.next_step(1000) {
        TokenStep::Reuse(t) => assert_eq!(t, "tok"),
        TokenStep::Request => panic!("a fresh token is reused"),
    }
    let last_reuse = 1000 + 7200 - TOKEN_REMAINING_LIFETIME_SECONDS_REFRESH;
    assert!(matches!(m.next_step(last_reuse), TokenStep::Reuse(_)));
    assert!(matches!(m.next_step(last_reuse + 1), TokenStep::Request));
    assert!(matches!(m.next_step(1000 + 7200), TokenStep::Request));
}

#[test]
fn token_error_answer_keeps_state() {
    let mut m = WeChatAccessTokenManager::new();
    let err = WeChatAccessTokenResponse {
        access_token: None,
        expires_in: None,
        errcode: Some(40013),
        errmsg: Some("invalid appid".to_string()),
    };
    match m.get_token_from_response(err, 5) {
        Err(e) => assert_eq!(e.message, "invalid appid"),
        Ok(_) => panic!("an error answer"),
    }
    assert!(matches!(m.next_step(5), TokenStep::Request));
}

#[test]
fn wechat_urls() {
    let s = WeChatMiniAppService::new();
    let cfg = Wechat { app_id: "app".to_string(), app_secret: "SECRET-REDACTED".to_string() };
    assert_eq!(
        s.access_token_url(&cfg),
        "https://api.weixin.qq.com/cgi-bin/token?grant_type=client_credential&appid=app&secret=SECRET-REDACTED"
    );
    assert_eq!(
        s.login_url(&cfg, "c"),
        "https://api.weixin.qq.com/sns/jscode2session?appid=app&secret=SECRET-REDACTED&js_code=c&grant_type=authorization_code"
    );
    assert_eq!(
        s.userinfo_url("tk", "oid"),
        "https://api.weixin.qq.com/sns/userinfo?access_token=tk&openid=oid&lang=zh_CN"
    );
    assert_eq!(s.phone_number_url("tk"), "https://api.weixin.qq.com/wxa/business/getuserphonenumber?access_token=tk");
    assert_eq!(s.phone_number_body("xyz"), "{\"code\":\"xyz\"}");
}

#[test]
fn issued_tokens_decode_to_their_claims() {
    let c = config();
    let (access, refresh) = rust_shop::jwt::issue_tokens(&c, 42, &"tid-1".to_string(), 4_000_000_000);
    assert_ne!(access, refresh);
    let a = rust_shop::jwt::decode_access_token(&c, &access).ok().unwrap();
    assert_eq!(a.token_id, "tid-1");
    assert_eq!(a.user_id, 42);
    assert_eq!(a.sub, "rust-shop");
    assert_eq!(a.iat, 4_000_000_000);
    assert_eq!(a.exp, 4_000_000_000 + 2 * 86400);
    let r = rust_shop::jwt::decode_refresh_token(&c, &refresh).ok().unwrap();
    assert_eq!(r.exp, 4_000_000_000 + 30 * 86400);
}

#[test]
fn foreign_or_broken_tokens_are_refused() {
    let c = config();
    let (access, _) = rust_shop::jwt::issue_tokens(&c, 1, &"t".to_string(), 4_000_000_000);
    let mut other = config();
    other.secret = "another secret".to_string();
    assert!(matches!(rust_shop::jwt::decode_access_token(&other, &access), Err(JwtError::InvalidToken)));
    assert!(matches!(rust_shop::jwt::decode_access_token(&c, "a.b.c"), Err(JwtError::InvalidToken)));
    assert_eq!(JwtError::InvalidToken.message(), "invalid token");
}

#[test]
fn expired_tokens_are_refused() {
    let c = config();
    let (access, _) = rust_shop::jwt::issue_tokens(&c, 1, &"t".to_string(), 1_000_000);
    assert!(rust_shop::jwt::decode_access_token(&c, &access).is_err());
}

#[test]
fn grant_times_range() {
    let c = config();
    assert!(rust_shop::jwt::grant_times_in_range(&c, 1_000_000));
    assert!(!rust_shop::jwt::grant_times_in_range(&c, rust_shop::jwt::MAX_TIMESTAMP));
    assert!(!rust_shop::jwt::grant_times_in_range(&c, i64::MIN));
}

#[test]
fn tokens_read_back_until_the_leeway_past_expiry() {
    let c = config();
    let (access, _) = rust_shop::jwt::issue_tokens(&c, 9, &"t9".to_string(), 1_000_000);
    let exp = 1_000_000 + 2 * 86400;
    let a = rust_shop::jwt::decode_access_token_at(&c, &access, exp + 60).ok().unwrap();
    assert_eq!(a.user_id, 9);
    assert!(matches!(rust_shop::jwt::decode_access_token_at(&c, &access, exp + 61), Err(JwtError::TokenExpired)));
    assert!(matches!(rust_shop::jwt::decode_access_token(&c, &access), Err(JwtError::TokenExpired)));
    assert!(matches!(rust_shop::jwt::decode_access_token_at(&c, "x.y.z", 0), Err(JwtError::InvalidToken)));
    assert_eq!(JwtError::TokenExpired.message(), "token expired");
}
