use rust_shop::authn::{
    additional_authentication_checks, authenticate, authenticate_user, load_user_result, new_wechat_user_details,
    user_details_of, wechat_user_details, BcryptPasswordEncoder, DefaultUserDetailsChecker,
    DefaultUserRequestIdentityExtractor, NopPasswordEncoder, PasswordEncoder, UserDetailsChecker,
    UsernamePasswordAuthenticationTokenResolver, WeChatMiniAppAuthenticationTokenResolver,
};
use rust_shop::entity::User;
use rust_shop::security::{
    AuthError, Authentication, AuthenticationToken, DefaultUserDetails, LoadUserService, UserDetails,
    UsernamePasswordAuthenticationToken,
};
use rust_shop::wechat::WeChatMiniAppLoginResponse;

fn pairs(p: &[(&str, &str)]) -> Vec<(String, String)> {
    p.iter().map(|(a, b)| (a.to_string(), b.to_string())).collect()
}

fn user(enable: u8) -> User {
    User {
        id: 7,
        username: Some("bob".to_string()),
        password: Some("pw".to_string()),
        phone_number: None,
        is_phone_number_verified: None,
        wx_open_id: None,
        enable,
        created_time: 0,
    }
}

#[test]
fn username_password_resolution() {
    let r = UsernamePasswordAuthenticationTokenResolver::new();
    let t = r.resolve(&pairs(&[("username", "bob"), ("password", "pw"), ("username", "alice")])).unwrap();
    assert_eq!(t.get_principal(), "alice");
    assert_eq!(t.get_credentials(), "pw");
    assert!(matches!(r.resolve(&pairs(&[("password", "pw")])), Err(AuthError::MissingUsername)));
    assert!(matches!(r.resolve(&pairs(&[("username", "bob")])), Err(AuthError::MissingPassword)));
}

#[test]
fn wechat_code_resolution() {
    let r = WeChatMiniAppAuthenticationTokenResolver::new();
    assert_eq!(r.resolve_js_code(&pairs(&[("jsCode", "  abc \n")])).unwrap(), "abc");
    assert!(matches!(r.resolve_js_code(&pairs(&[("jsCode", "   ")])), Err(AuthError::EmptyJsCode)));
    assert!(matches!(r.resolve_js_code(&pairs(&[])), Err(AuthError::MissingJsCode)));
}

#[test]
fn wechat_login_answer() {
    let r = WeChatMiniAppAuthenticationTokenResolver::new();
    let ok = WeChatMiniAppLoginResponse {
        session_key: Some("k".to_string()),
        unionid: None,
        errmsg: None,
        openid: Some("open-1".to_string()),
        errcode: None,
    };
    let t = r.token_from_login("code".to_string(), &ok).unwrap();
    assert_eq!(t.get_principal(), "open-1");
    assert_eq!(t.get_credentials(), "code");
    let bad = WeChatMiniAppLoginResponse {
        session_key: None,
        unionid: None,
        errmsg: Some("invalid code".to_string()),
        openid: None,
        errcode: Some(40029),
    };
    match r.token_from_login("code".to_string(), &bad) {
        Err(AuthError::WeChatLogin(m)) => assert_eq!(m, "invalid code"),
        _ => panic!("the service refused the code"),
    }
}

#[test]
fn disabled_accounts_are_refused() {
    let checker = DefaultUserDetailsChecker::new();
    let on = DefaultUserDetails::new(1, "bob".to_string(), "pw".to_string(), vec![], true);
    let off = DefaultUserDetails::new(1, "bob".to_string(), "pw".to_string(), vec![], false);
    assert!(checker.check(&on).is_ok());
    match checker.check(&off) {
        Err(e) => assert_eq!(e.message(), "账号bob已被禁止登陆"),
        Ok(()) => panic!("a disabled account may not log in"),
    }
}

#[test]
fn bcrypt_encode_then_matches() {
    let enc = BcryptPasswordEncoder::new();
    let hash = enc.encode(&"secret".to_string()).unwrap();
    assert_ne!(hash, "secret");
    assert!(hash.starts_with("$2"));
    assert_eq!(enc.matches(&"secret".to_string(), &hash).ok(), Some(true));
    assert!(matches!(enc.matches(&"other".to_string(), &hash), Err(AuthError::WrongPassword)));
    assert!(matches!(enc.matches(&"secret".to_string(), &"not a hash".to_string()), Err(AuthError::InvalidPasswordFormat)));
}

#[test]
fn nop_encoder_accepts_everything() {
    let enc = NopPasswordEncoder;
    assert_eq!(enc.encode(&"x".to_string()).unwrap(), "x");
    assert_eq!(enc.matches(&"x".to_string(), &"y".to_string()).ok(), Some(true));
}

#[test]
fn password_check_against_user() {
    let enc = BcryptPasswordEncoder::new();
    let hash = enc.encode(&"pw".to_string()).unwrap();
    let d = DefaultUserDetails::new(1, "bob".to_string(), hash, vec![], true);
    assert!(additional_authentication_checks(&enc, &"pw".to_string(), &d).is_ok());
    assert!(additional_authentication_checks(&enc, &"bad".to_string(), &d).is_err());
}

#[test]
fn user_records_to_details() {
    let d = user_details_of(&user(1));
    assert_eq!(*d.get_id(), 7);
    assert_eq!(d.get_username(), "bob");
    assert!(*d.is_enable());
    assert!(!*user_details_of(&user(0)).is_enable());
    let found = user(1);
    assert!(load_user_result(&"bob".to_string(), Some(&found)).is_ok());
    match load_user_result(&"zed".to_string(), None) {
        Err(e) => assert_eq!(e.message(), "user 'zed' not exists!"),
        Ok(_) => panic!("no such user"),
    }
    let mut w = user(0);
    w.username = None;
    let wd = wechat_user_details(&w);
    assert_eq!(wd.get_username(), "");
    assert!(*wd.is_enable());
    assert_eq!(*new_wechat_user_details(9, 1).unwrap().get_id(), 9);
    assert!(matches!(new_wechat_user_details(9, 0), Err(AuthError::SaveWeChatUserFailed)));
}

#[test]
fn request_identity() {
    let x = DefaultUserRequestIdentityExtractor;
    assert_eq!(x.identity(Some(-42)), "-42");
    assert_eq!(x.identity(Some(1234567)), "1234567");
    assert_eq!(x.identity(None), "anonymous");
}

#[test]
fn login_flow() {
    let enc = NopPasswordEncoder;
    let token = UsernamePasswordAuthenticationToken::new("bob".to_string(), "pw".to_string());
    let d = DefaultUserDetails::new(3, "bob".to_string(), "pw".to_string(), vec!["admin".to_string()], true);
    let a = authenticate(Ok(d), &token, &enc).unwrap();
    assert!(*a.is_authenticated());
    assert_eq!(a.get_authorities(), &vec!["admin".to_string()]);
    assert_eq!(a.get_authentication_token().get_principal(), "bob");
    let off = DefaultUserDetails::new(3, "bob".to_string(), "pw".to_string(), vec![], false);
    assert!(matches!(authenticate(Ok(off), &token, &enc), Err(AuthError::AccountDisabled(_))));
    assert!(matches!(authenticate(Err(AuthError::UserNotFound("bob".to_string())), &token, &enc), Err(AuthError::UserNotFound(_))));
    let bcrypt = BcryptPasswordEncoder::new();
    let wrong = DefaultUserDetails::new(3, "bob".to_string(), bcrypt.encode(&"other".to_string()).unwrap(), vec![], true);
    assert!(matches!(authenticate(Ok(wrong), &token, &bcrypt), Err(AuthError::WrongPassword)));
}

struct OneUser;

impl LoadUserService for OneUser {
    fn load_user(&mut self, identity: &String) -> Result<DefaultUserDetails, AuthError> {
        if identity == "bob" {
            Ok(DefaultUserDetails::new(1, "bob".to_string(), "pw".to_string(), vec![], true))
        } else {
            Err(AuthError::UserNotFound(identity.clone()))
        }
    }
}

#[test]
fn login_with_user_service() {
    let mut service = OneUser;
    let ok = UsernamePasswordAuthenticationToken::new("bob".to_string(), "pw".to_string());
    assert!(authenticate_user(&mut service, &ok, &NopPasswordEncoder).is_ok());
    let unknown = UsernamePasswordAuthenticationToken::new("eve".to_string(), "pw".to_string());
    assert!(matches!(authenticate_user(&mut service, &unknown, &NopPasswordEncoder), Err(AuthError::UserNotFound(_))));
}

#[test]
fn js_code_trims_unicode_white_space() {
    let r = WeChatMiniAppAuthenticationTokenResolver::new();
    assert_eq!(r.resolve_js_code(&pairs(&[("jsCode", "\u{3000}\tcode x\u{a0}")])).unwrap(), "code x");
}

#[test]
fn login_forms_are_decoded_from_the_body() {
    let r = UsernamePasswordAuthenticationTokenResolver::new();
    let t = r.resolve_form(b"username=b%C3%B6b&password=p+w").unwrap();
    assert_eq!(t.get_principal(), "böb");
    assert_eq!(t.get_credentials(), "p w");
    assert!(matches!(r.resolve_form(b"password=x"), Err(AuthError::MissingUsername)));
    let w = WeChatMiniAppAuthenticationTokenResolver::new();
    assert_eq!(w.resolve_js_code_form(b"jsCode=%20code%20").unwrap(), "code");
    assert!(matches!(w.resolve_js_code_form(b""), Err(AuthError::MissingJsCode)));
}
