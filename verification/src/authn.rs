//! Login: reading credentials from a login form, checking a user record and a
//! password, and building the resulting authentication.

use vstd::prelude::*;
use crate::security::{
    AuthError, AuthenticationModel, AuthenticationToken, DefaultUserDetails, LoadUserService,
    UsernamePasswordAuthentication, UsernamePasswordAuthenticationToken, WeChatMiniAppAuthenticationToken,
    UserDetails, UserDetailsModel, ANONYMOUS,
};
use crate::extract::{form_pairs, form_param, last_value, pair_views, parse_form_params};
use crate::wechat::WeChatMiniAppLoginResponse;
use crate::entity::User;
use crate::text::{trim, trim_spec, int_to_string, decimal};

verus! {

/// Reads a user name and a password from a login form.
pub struct UsernamePasswordAuthenticationTokenResolver {}

impl UsernamePasswordAuthenticationTokenResolver {
    pub fn new() -> (r: Self) {
        UsernamePasswordAuthenticationTokenResolver {}
    }

    /// The credentials of a login form with the decoded parameters `params`:
    /// `username` and `password` are required (the last value counts when a
    /// parameter repeats).
    pub fn resolve(&self, params: &Vec<(String, String)>) -> (r: Result<UsernamePasswordAuthenticationToken, AuthError>)
        ensures
            last_value(pair_views(params@), "username"@) is None ==> r == Err::<UsernamePasswordAuthenticationToken, AuthError>(AuthError::MissingUsername),
            last_value(pair_views(params@), "username"@) is Some && last_value(pair_views(params@), "password"@) is None
                ==> r == Err::<UsernamePasswordAuthenticationToken, AuthError>(AuthError::MissingPassword),
            r matches Ok(t) ==> last_value(pair_views(params@), "username"@) == Some(t@.0)
                && last_value(pair_views(params@), "password"@) == Some(t@.1),
            r is Ok <==> (last_value(pair_views(params@), "username"@) is Some
                && last_value(pair_views(params@), "password"@) is Some),
    {
        let username = match form_param(params, "username") {
            Some(u) => u,
            None => return Err(AuthError::MissingUsername),
        };
        let password = match form_param(params, "password") {
            Some(p) => p,
            None => return Err(AuthError::MissingPassword),
        };
        Ok(UsernamePasswordAuthenticationToken::new(username.clone(), password.clone()))
    }

    /// The credentials of a login request with the URL-encoded form body
    /// `body`: the body is decoded with `form_urlencoded`, then read as
    /// `resolve` reads parameters.
    pub fn resolve_form(&self, body: &[u8]) -> (r: Result<UsernamePasswordAuthenticationToken, AuthError>)
        ensures
            last_value(form_pairs(body@), "username"@) is None ==> r == Err::<UsernamePasswordAuthenticationToken, AuthError>(AuthError::MissingUsername),
            last_value(form_pairs(body@), "username"@) is Some && last_value(form_pairs(body@), "password"@) is None
                ==> r == Err::<UsernamePasswordAuthenticationToken, AuthError>(AuthError::MissingPassword),
            r matches Ok(t) ==> last_value(form_pairs(body@), "username"@) == Some(t@.0)
                && last_value(form_pairs(body@), "password"@) == Some(t@.1),
            r is Ok <==> (last_value(form_pairs(body@), "username"@) is Some
                && last_value(form_pairs(body@), "password"@) is Some),
    {
        let params = parse_form_params(body);
        self.resolve(&params)
    }
}

/// Reads the `jsCode` of a WeChat mini-app login and turns the WeChat answer
/// into credentials.
pub struct WeChatMiniAppAuthenticationTokenResolver {}

impl WeChatMiniAppAuthenticationTokenResolver {
    pub fn new() -> (r: Self) {
        WeChatMiniAppAuthenticationTokenResolver {}
    }

    /// The trimmed `jsCode` of a login form; it is required and may not be blank.
    pub fn resolve_js_code(&self, params: &Vec<(String, String)>) -> (r: Result<String, AuthError>)
        ensures
            match last_value(pair_views(params@), "jsCode"@) {
                None => r == Err::<String, AuthError>(AuthError::MissingJsCode),
                Some(code) => if trim_spec(code).len() == 0 {
                    r == Err::<String, AuthError>(AuthError::EmptyJsCode)
                } else {
                    r matches Ok(c) && c@ == trim_spec(code)
                },
            },
    {
        match form_param(params, "jsCode") {
            None => Err(AuthError::MissingJsCode),
            Some(code) => {
                let trimmed = trim(code.as_str());
                if trimmed.as_str().unicode_len() == 0 {
                    Err(AuthError::EmptyJsCode)
                } else {
                    Ok(trimmed)
                }
            },
        }
    }

    /// The trimmed `jsCode` of a login request with the URL-encoded form body
    /// `body`, decoded with `form_urlencoded`.
    pub fn resolve_js_code_form(&self, body: &[u8]) -> (r: Result<String, AuthError>)
        ensures
            match last_value(form_pairs(body@), "jsCode"@) {
                None => r == Err::<String, AuthError>(AuthError::MissingJsCode),
                Some(code) => if trim_spec(code).len() == 0 {
                    r == Err::<String, AuthError>(AuthError::EmptyJsCode)
                } else {
                    r matches Ok(c) && c@ == trim_spec(code)
                },
            },
    {
        let params = parse_form_params(body);
        self.resolve_js_code(&params)
    }

    /// The credentials for a WeChat login answer: the open id when the answer
    /// carries neither an error code nor an error message, otherwise the error
    /// message. An answer without error has an open id, and one with an error
    /// code has a message (the caller checks).
    pub fn token_from_login(&self, js_code: String, login: &WeChatMiniAppLoginResponse) -> (r: Result<WeChatMiniAppAuthenticationToken, AuthError>)
        requires
            login.errcode is None && login.errmsg is None ==> login.openid is Some,
            !(login.errcode is None && login.errmsg is None) ==> login.errmsg is Some,
        ensures
            login.errcode is None && login.errmsg is None ==> (r matches Ok(t) && t.js_code@ == js_code@
                && t.principal@ == login.openid->0@),
            !(login.errcode is None && login.errmsg is None) ==> (r matches Err(AuthError::WeChatLogin(m))
                && m@ == login.errmsg->0@),
    {
        if login.errcode.is_none() && login.errmsg.is_none() {
            let openid = match &login.openid {
                Some(o) => o.clone(),
                None => String::new(),
            };
            Ok(WeChatMiniAppAuthenticationToken { js_code, principal: openid })
        } else {
            let msg = match &login.errmsg {
                Some(m) => m.clone(),
                None => String::new(),
            };
            Err(AuthError::WeChatLogin(msg))
        }
    }
}

/// Checks that a user may log in.
pub trait UserDetailsChecker {
    fn check(&self, details: &DefaultUserDetails) -> Result<(), AuthError>;
}

/// Refuses disabled accounts.
pub struct DefaultUserDetailsChecker {}

impl DefaultUserDetailsChecker {
    pub fn new() -> (r: Self) {
        DefaultUserDetailsChecker {}
    }
}

impl UserDetailsChecker for DefaultUserDetailsChecker {
    fn check(&self, details: &DefaultUserDetails) -> (r: Result<(), AuthError>)
        ensures
            details@.enable ==> r is Ok,
            !details@.enable ==> (r matches Err(AuthError::AccountDisabled(u)) && u@ == details@.username),
    {
        if !*details.is_enable() {
            Err(AuthError::AccountDisabled(details.get_username().clone()))
        } else {
            Ok(())
        }
    }
}

/// Hashes passwords and checks a password against a stored hash.
pub trait PasswordEncoder {
    /// The outcome of checking `raw` against `encoded`.
    spec fn matches_spec(&self, raw: Seq<char>, encoded: Seq<char>) -> Result<bool, AuthError>;

    fn encode(&self, raw_password: &String) -> Result<String, AuthError>;

    fn matches(&self, raw_password: &String, encoded_password: &String) -> (r: Result<bool, AuthError>)
        ensures
            r == self.matches_spec(raw_password@, encoded_password@),
    ;
}

/// What `bcrypt::verify` answers for a password and a stored hash: whether they
/// match, or `None` when the hash is not a valid bcrypt hash.
pub uninterp spec fn bcrypt_verify(password: Seq<char>, hash: Seq<char>) -> Option<bool>;

/// `bcrypt::verify`: whether `password` matches the bcrypt hash `hash`.
#[verifier::external_body]
fn bcrypt_verify_call(password: &String, hash: &String) -> (r: Option<bool>)
    ensures
        r == bcrypt_verify(password@, hash@),
{
    match bcrypt::verify(password, hash.as_str()) {
        Ok(b) => Some(b),
        Err(_) => None,
    }
}

/// `bcrypt::hash` with `bcrypt::DEFAULT_COST`: a hash with a random salt, or
/// `None` when no random salt could be had. A hash it makes verifies against the
/// password it was made from.
#[verifier::external_body]
fn bcrypt_hash_call(password: &String) -> (r: Option<String>)
    ensures
        r matches Some(h) ==> bcrypt_verify(password@, h@) == Some(true),
{
    bcrypt::hash(password, bcrypt::DEFAULT_COST).ok()
}

/// Passwords hashed with bcrypt.
pub struct BcryptPasswordEncoder {}

impl BcryptPasswordEncoder {
    pub fn new() -> (r: Self) {
        BcryptPasswordEncoder {}
    }
}

impl PasswordEncoder for BcryptPasswordEncoder {
    open spec fn matches_spec(&self, raw: Seq<char>, encoded: Seq<char>) -> Result<bool, AuthError> {
        match bcrypt_verify(raw, encoded) {
            Some(true) => Ok(true),
            Some(false) => Err(AuthError::WrongPassword),
            None => Err(AuthError::InvalidPasswordFormat),
        }
    }

    fn encode(&self, raw_password: &String) -> (r: Result<String, AuthError>)
        ensures
            r matches Ok(h) ==> self.matches_spec(raw_password@, h@) == Ok::<bool, AuthError>(true),
            r matches Err(e) ==> e is HashFailure,
    {
        match bcrypt_hash_call(raw_password) {
            Some(h) => Ok(h),
            None => Err(AuthError::HashFailure),
        }
    }

    fn matches(&self, raw_password: &String, encoded_password: &String) -> (r: Result<bool, AuthError>) {
        match bcrypt_verify_call(raw_password, encoded_password) {
            Some(true) => Ok(true),
            Some(false) => Err(AuthError::WrongPassword),
            None => Err(AuthError::InvalidPasswordFormat),
        }
    }
}

/// Passwords kept in plain text; every password matches.
pub struct NopPasswordEncoder;

impl PasswordEncoder for NopPasswordEncoder {
    open spec fn matches_spec(&self, raw: Seq<char>, encoded: Seq<char>) -> Result<bool, AuthError> {
        Ok(true)
    }

    fn encode(&self, raw_password: &String) -> (r: Result<String, AuthError>)
        ensures
            r matches Ok(s) && s@ == raw_password@,
    {
        Ok(raw_password.clone())
    }

    fn matches(&self, raw_password: &String, encoded_password: &String) -> (r: Result<bool, AuthError>) {
        Ok(true)
    }
}

/// The password check of a login: the encoder's answer for the given password
/// and the user's stored one; a mismatch reported as `false` is an invalid
/// password, an error of the encoder is passed on.
pub open spec fn password_check(matched: Result<bool, AuthError>) -> Result<(), AuthError> {
    match matched {
        Ok(true) => Ok(()),
        Ok(false) => Err(AuthError::InvalidPassword),
        Err(e) => Err(e),
    }
}

/// Checks the password given at login against the user's stored password.
pub fn additional_authentication_checks<E: PasswordEncoder>(
    encoder: &E,
    password: &String,
    user_details: &DefaultUserDetails,
) -> (r: Result<(), AuthError>)
    ensures
        r == password_check(encoder.matches_spec(password@, user_details@.password)),
{
    match encoder.matches(password, user_details.get_password()) {
        Ok(true) => Ok(()),
        Ok(false) => Err(AuthError::InvalidPassword),
        Err(e) => Err(e),
    }
}

/// The user details of a user found by name: its id, name and password, no
/// authorities, enabled when `enable` is 1. The record has a name and a password
/// (the caller checks).
pub fn user_details_of(user: &User) -> (r: DefaultUserDetails)
    requires
        user.username is Some,
        user.password is Some,
    ensures
        r@ == (UserDetailsModel {
            id: user.id,
            username: user.username->0@,
            password: user.password->0@,
            authorities: Seq::empty(),
            enable: user.enable == 1,
        }),
{
    let username = match &user.username {
        Some(u) => u.clone(),
        None => String::new(),
    };
    let password = match &user.password {
        Some(p) => p.clone(),
        None => String::new(),
    };
    let empty: Vec<String> = Vec::new();
    assert(crate::text::views(empty@) =~= Seq::<Seq<char>>::empty());
    DefaultUserDetails::new(user.id, username, password, empty, user.enable == 1)
}

/// The result of looking a user up by name: the user's details, or
/// `UserNotFound` with the name.
pub fn load_user_result(username: &String, found: Option<&User>) -> (r: Result<DefaultUserDetails, AuthError>)
    requires
        found matches Some(u) ==> u.username is Some && u.password is Some,
    ensures
        found is None ==> (r matches Err(AuthError::UserNotFound(n)) && n@ == username@),
        found matches Some(u) ==> (r matches Ok(d) && d@ == (UserDetailsModel {
            id: u.id,
            username: u.username->0@,
            password: u.password->0@,
            authorities: Seq::empty(),
            enable: u.enable == 1,
        })),
{
    match found {
        Some(u) => Ok(user_details_of(u)),
        None => Err(AuthError::UserNotFound(username.clone())),
    }
}

/// The user details of a known WeChat user: its id, its name and password or
/// empty text where it has none, no authorities, enabled.
pub fn wechat_user_details(user: &User) -> (r: DefaultUserDetails)
    ensures
        r@ == (UserDetailsModel {
            id: user.id,
            username: match user.username { Some(u) => u@, None => Seq::empty() },
            password: match user.password { Some(p) => p@, None => Seq::empty() },
            authorities: Seq::empty(),
            enable: true,
        }),
{
    let username = match &user.username {
        Some(u) => u.clone(),
        None => String::new(),
    };
    let password = match &user.password {
        Some(p) => p.clone(),
        None => String::new(),
    };
    let empty: Vec<String> = Vec::new();
    assert(crate::text::views(empty@) =~= Seq::<Seq<char>>::empty());
    DefaultUserDetails::new(user.id, username, password, empty, true)
}

/// The result of storing a new WeChat user with the id `id`: its details
/// (empty name and password, enabled) when a row was written, otherwise
/// `SaveWeChatUserFailed`.
pub fn new_wechat_user_details(id: i64, rows_affected: u64) -> (r: Result<DefaultUserDetails, AuthError>)
    ensures
        rows_affected > 0 ==> (r matches Ok(d) && d@ == (UserDetailsModel {
            id,
            username: Seq::empty(),
            password: Seq::empty(),
            authorities: Seq::empty(),
            enable: true,
        })),
        rows_affected == 0 ==> r == Err::<DefaultUserDetails, AuthError>(AuthError::SaveWeChatUserFailed),
{
    if rows_affected > 0 {
        let empty: Vec<String> = Vec::new();
        assert(crate::text::views(empty@) =~= Seq::<Seq<char>>::empty());
        Ok(DefaultUserDetails::new(id, String::new(), String::new(), empty, true))
    } else {
        Err(AuthError::SaveWeChatUserFailed)
    }
}

/// Finds who makes a request.
pub struct DefaultUserRequestIdentityExtractor;

impl DefaultUserRequestIdentityExtractor {
    /// The identity of a request: the user id of its access token, in decimal,
    /// when the token decodes; otherwise `anonymous`.
    pub fn identity(&self, decoded_user_id: Option<i64>) -> (r: String)
        ensures
            decoded_user_id matches Some(id) ==> r@ == decimal(id as int),
            decoded_user_id is None ==> r@ == ANONYMOUS@,
    {
        match decoded_user_id {
            Some(id) => int_to_string(id),
            None => ANONYMOUS.to_string(),
        }
    }
}


/// A password passes the login check against a stored password exactly when
/// the encoder reports a match; a password that an encoder encoded passes the
/// check against its encoding.
pub proof fn law_encoded_password_passes<E: PasswordEncoder>(encoder: E, raw: Seq<char>, encoded: Seq<char>)
    requires
        encoder.matches_spec(raw, encoded) == Ok::<bool, AuthError>(true),
    ensures
        password_check(encoder.matches_spec(raw, encoded)) == Ok::<(), AuthError>(()),
{
}


/// The authentication of a successful user-name/password login: the token's
/// credentials, the user's authorities and details, authenticated.
pub open spec fn login_model(token: (Seq<char>, Seq<char>), d: UserDetailsModel) -> AuthenticationModel {
    AuthenticationModel { token: token, authorities: d.authorities, authenticated: true, details: d }
}

/// Whether `r` is how a user-name/password login with `token` ends once the
/// service answered `loaded`: the service's error; the account being
/// disabled; the password check's error; or the authentication of the
/// loaded user.
pub open spec fn login_outcome<E: PasswordEncoder>(
    loaded: Result<DefaultUserDetails, AuthError>,
    token: (Seq<char>, Seq<char>),
    encoder: E,
    r: Result<UsernamePasswordAuthentication, AuthError>,
) -> bool {
    match loaded {
        Err(e) => r matches Err(x) && x == e,
        Ok(d) => if !d@.enable {
            r matches Err(AuthError::AccountDisabled(u)) && u@ == d@.username
        } else {
            match password_check(encoder.matches_spec(token.1, d@.password)) {
                Err(e) => r matches Err(x) && x == e,
                Ok(_) => r matches Ok(a) && a@ == login_model(token, d@),
            }
        },
    }
}

/// Completes a user-name/password login once the user named by the token was
/// loaded (`loaded`): the account must be enabled and the password must match
/// the stored one.
pub fn authenticate<E: PasswordEncoder>(
    loaded: Result<DefaultUserDetails, AuthError>,
    token: &UsernamePasswordAuthenticationToken,
    encoder: &E,
) -> (r: Result<UsernamePasswordAuthentication, AuthError>)
    ensures
        login_outcome(loaded, token@, *encoder, r),
{
    let details = match loaded {
        Err(e) => return Err(e),
        Ok(d) => d,
    };
    let checker = DefaultUserDetailsChecker::new();
    match checker.check(&details) {
        Err(e) => return Err(e),
        Ok(()) => {},
    }
    match additional_authentication_checks(encoder, token.get_credentials(), &details) {
        Err(e) => return Err(e),
        Ok(()) => {},
    }
    Ok(UsernamePasswordAuthentication::authenticated(token.get_principal(), token.get_credentials(), details))
}

/// A user-name/password login: loads the user that the token names with the
/// configured service, asking it for the token's principal, and completes
/// the login with what the service answered (see `authenticate`).
pub fn authenticate_user<L: LoadUserService, E: PasswordEncoder>(
    service: &mut L,
    token: &UsernamePasswordAuthenticationToken,
    encoder: &E,
) -> (r: Result<UsernamePasswordAuthentication, AuthError>)
    ensures
        exists|loaded: Result<DefaultUserDetails, AuthError>|
            old(service).loads(token@.0, loaded) && #[trigger] login_outcome(loaded, token@, *encoder, r),
{
    let loaded = service.load_user(token.get_principal());
    let ghost found = loaded;
    let r = authenticate(loaded, token, encoder);
    assert(login_outcome(found, token@, *encoder, r));
    r
}

} // verus!
