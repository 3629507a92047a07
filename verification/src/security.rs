//! Authentication data, user details, and access decisions by voting.

use vstd::prelude::*;
use crate::text::{concat, views, lemma_views_ext, str_eq};

verus! {

/// The principal of a request that carries no valid credentials.
pub const ANONYMOUS: &'static str = "anonymous";

/// The name of the default security-context storage strategy.
pub const DEFAULT_STRATEGY_NAME: &'static str = "redis";

/// Errors of the authentication steps.
#[derive(Debug)]
pub enum AuthError {
    /// The login form carries no `username`.
    MissingUsername,
    /// The login form carries no `password`.
    MissingPassword,
    /// The login form carries no `jsCode`.
    MissingJsCode,
    /// The `jsCode` of the login form is blank.
    EmptyJsCode,
    /// The WeChat login service answered with this error message.
    WeChatLogin(String),
    /// The account with this user name may not log in.
    AccountDisabled(String),
    /// The password does not match the stored one.
    InvalidPassword,
    /// Bcrypt reported that the password does not match.
    WrongPassword,
    /// The stored password is not a valid bcrypt hash.
    InvalidPasswordFormat,
    /// Hashing a password failed.
    HashFailure,
    /// No user with this name exists.
    UserNotFound(String),
    /// Storing a new WeChat user failed.
    SaveWeChatUserFailed,
}

impl AuthError {
    /// The message shown for the error.
    pub fn message(&self) -> (r: String)
        ensures
            self is MissingUsername ==> r@ == "必须传入username字段"@,
            self is MissingPassword ==> r@ == "必须传入password字段"@,
            self is MissingJsCode ==> r@ == "必须传入jsCode字段"@,
            self is EmptyJsCode ==> r@ == "jsCode不能为空"@,
            self matches AuthError::WeChatLogin(m) ==> r@ == m@,
            self matches AuthError::AccountDisabled(u) ==> r@ == "账号"@ + u@ + "已被禁止登陆"@,
            self is InvalidPassword ==> r@ == "无效密码"@,
            self is WrongPassword ==> r@ == "密码错误"@,
            self is InvalidPasswordFormat ==> r@ == "密码格式无效"@,
            self is HashFailure ==> r@ == "密码加密失败"@,
            self matches AuthError::UserNotFound(u) ==> r@ == "user '"@ + u@ + "' not exists!"@,
            self is SaveWeChatUserFailed ==> r@ == "保存微信用户信息失败"@,
    {
        match self {
            AuthError::MissingUsername => "必须传入username字段".to_string(),
            AuthError::MissingPassword => "必须传入password字段".to_string(),
            AuthError::MissingJsCode => "必须传入jsCode字段".to_string(),
            AuthError::EmptyJsCode => "jsCode不能为空".to_string(),
            AuthError::WeChatLogin(m) => m.clone(),
            AuthError::AccountDisabled(u) => {
                let mut r = concat("账号", u.as_str());
                r.append("已被禁止登陆");
                r
            },
            AuthError::InvalidPassword => "无效密码".to_string(),
            AuthError::WrongPassword => "密码错误".to_string(),
            AuthError::InvalidPasswordFormat => "密码格式无效".to_string(),
            AuthError::HashFailure => "密码加密失败".to_string(),
            AuthError::UserNotFound(u) => {
                let mut r = concat("user '", u.as_str());
                r.append("' not exists!");
                r
            },
            AuthError::SaveWeChatUserFailed => "保存微信用户信息失败".to_string(),
        }
    }
}

/// Login credentials such as a user name and a password.
pub trait AuthenticationToken {
    fn get_principal(&self) -> &String;
    fn get_credentials(&self) -> &String;
}

/// Credentials kept in a security context.
pub struct DefaultAuthenticationToken {
    principal: String,
    credentials: String,
}

impl View for DefaultAuthenticationToken {
    type V = (Seq<char>, Seq<char>);

    closed spec fn view(&self) -> (Seq<char>, Seq<char>) {
        (self.principal@, self.credentials@)
    }
}

impl DefaultAuthenticationToken {
    pub fn new(principal: String, credentials: String) -> (r: Self)
        ensures
            r@ == (principal@, credentials@),
    {
        DefaultAuthenticationToken { principal, credentials }
    }
}

impl AuthenticationToken for DefaultAuthenticationToken {
    fn get_principal(&self) -> (r: &String)
        ensures
            r@ == self@.0,
    {
        &self.principal
    }

    fn get_credentials(&self) -> (r: &String)
        ensures
            r@ == self@.1,
    {
        &self.credentials
    }
}

/// A user name and a password taken from a login form.
pub struct UsernamePasswordAuthenticationToken {
    username: String,
    password: String,
}

impl View for UsernamePasswordAuthenticationToken {
    type V = (Seq<char>, Seq<char>);

    closed spec fn view(&self) -> (Seq<char>, Seq<char>) {
        (self.username@, self.password@)
    }
}

impl UsernamePasswordAuthenticationToken {
    pub fn new(username: String, password: String) -> (r: UsernamePasswordAuthenticationToken)
        ensures
            r@ == (username@, password@),
    {
        UsernamePasswordAuthenticationToken { username, password }
    }
}

impl AuthenticationToken for UsernamePasswordAuthenticationToken {
    fn get_principal(&self) -> (r: &String)
        ensures
            r@ == self@.0,
    {
        &self.username
    }

    fn get_credentials(&self) -> (r: &String)
        ensures
            r@ == self@.1,
    {
        &self.password
    }
}

/// A WeChat mini-app login: the `jsCode` and the open id it was exchanged for.
pub struct WeChatMiniAppAuthenticationToken {
    pub js_code: String,
    pub principal: String,
}

impl AuthenticationToken for WeChatMiniAppAuthenticationToken {
    fn get_principal(&self) -> (r: &String)
        ensures
            r@ == self.principal@,
    {
        &self.principal
    }

    fn get_credentials(&self) -> (r: &String)
        ensures
            r@ == self.js_code@,
    {
        &self.js_code
    }
}

/// The abstract content of a user record.
pub ghost struct UserDetailsModel {
    pub id: i64,
    pub username: Seq<char>,
    pub password: Seq<char>,
    pub authorities: Seq<Seq<char>>,
    pub enable: bool,
}

/// The user information that authentication works with.
pub trait UserDetails {
    fn get_id(&self) -> &i64;
    fn get_username(&self) -> &String;
    fn get_password(&self) -> &String;
    fn get_authorities(&self) -> &Vec<String>;
    fn is_enable(&self) -> &bool;
}

/// A user record: id, name, password hash, authorities and whether it may log in.
pub struct DefaultUserDetails {
    id: i64,
    username: String,
    password: String,
    authorities: Vec<String>,
    enable: bool,
}

impl View for DefaultUserDetails {
    type V = UserDetailsModel;

    closed spec fn view(&self) -> UserDetailsModel {
        UserDetailsModel {
            id: self.id,
            username: self.username@,
            password: self.password@,
            authorities: views(self.authorities@),
            enable: self.enable,
        }
    }
}

impl DefaultUserDetails {
    pub fn new(id: i64, username: String, password: String, authorities: Vec<String>, enable: bool) -> (r: Self)
        ensures
            r@ == (UserDetailsModel {
                id,
                username: username@,
                password: password@,
                authorities: views(authorities@),
                enable,
            }),
    {
        DefaultUserDetails { id, username, password, authorities, enable }
    }

    /// The empty, disabled user.
    pub fn default() -> (r: DefaultUserDetails)
        ensures
            r@ == (UserDetailsModel {
                id: 0,
                username: Seq::empty(),
                password: Seq::empty(),
                authorities: Seq::empty(),
                enable: false,
            }),
    {
        let r = DefaultUserDetails {
            id: 0,
            username: String::new(),
            password: String::new(),
            authorities: Vec::new(),
            enable: false,
        };
        assert(views(r.authorities@) =~= Seq::<Seq<char>>::empty());
        r
    }
}

impl UserDetails for DefaultUserDetails {
    fn get_id(&self) -> (r: &i64)
        ensures
            *r == self@.id,
    {
        &self.id
    }

    fn get_username(&self) -> (r: &String)
        ensures
            r@ == self@.username,
    {
        &self.username
    }

    fn get_password(&self) -> (r: &String)
        ensures
            r@ == self@.password,
    {
        &self.password
    }

    fn get_authorities(&self) -> (r: &Vec<String>)
        ensures
            views(r@) == self@.authorities,
    {
        &self.authorities
    }

    fn is_enable(&self) -> (r: &bool)
        ensures
            *r == self@.enable,
    {
        &self.enable
    }
}

/// The outcome of an authentication.
pub trait Authentication {
    type Token: AuthenticationToken;

    /// The authorities (roles) granted.
    spec fn authorities_view(&self) -> Seq<Seq<char>>;

    /// Whether the authentication succeeded.
    spec fn authenticated_view(&self) -> bool;

    fn get_authentication_token(&self) -> &Self::Token;

    fn get_authorities(&self) -> (r: &Vec<String>)
        ensures
            views(r@) == self.authorities_view(),
    ;

    fn set_authorities(&mut self, authorities: Vec<String>)
        ensures
            final(self).authorities_view() == views(authorities@),
            final(self).authenticated_view() == old(self).authenticated_view(),
    ;

    fn is_authenticated(&self) -> (r: &bool)
        ensures
            *r == self.authenticated_view(),
    ;

    fn set_authenticated(&mut self, authenticated: bool)
        ensures
            final(self).authenticated_view() == authenticated,
            final(self).authorities_view() == old(self).authorities_view(),
    ;

    fn set_details(&mut self, details: DefaultUserDetails)
        ensures
            final(self).authenticated_view() == old(self).authenticated_view(),
            final(self).authorities_view() == old(self).authorities_view(),
    ;

    fn get_details(&self) -> &DefaultUserDetails;
}

/// The abstract content of an authentication.
pub ghost struct AuthenticationModel {
    pub token: (Seq<char>, Seq<char>),
    pub authorities: Seq<Seq<char>>,
    pub authenticated: bool,
    pub details: UserDetailsModel,
}

/// An authentication kept in a security context.
pub struct DefaultAuthentication {
    authentication_token: DefaultAuthenticationToken,
    authorities: Vec<String>,
    authenticated: bool,
    details: DefaultUserDetails,
}

impl View for DefaultAuthentication {
    type V = AuthenticationModel;

    closed spec fn view(&self) -> AuthenticationModel {
        AuthenticationModel {
            token: self.authentication_token@,
            authorities: views(self.authorities@),
            authenticated: self.authenticated,
            details: self.details@,
        }
    }
}

impl DefaultAuthentication {
    pub fn new(
        authentication_token: DefaultAuthenticationToken,
        authorities: Vec<String>,
        authenticated: bool,
        details: DefaultUserDetails,
    ) -> (r: Self)
        ensures
            r@ == (AuthenticationModel {
                token: authentication_token@,
                authorities: views(authorities@),
                authenticated,
                details: details@,
            }),
    {
        DefaultAuthentication { authentication_token, authorities, authenticated, details }
    }

    /// What the anonymous authentication holds.
    pub open spec fn default_model() -> AuthenticationModel {
        AuthenticationModel {
            token: (ANONYMOUS@, Seq::empty()),
            authorities: Seq::empty(),
            authenticated: false,
            details: UserDetailsModel {
                id: 0,
                username: ANONYMOUS@,
                password: Seq::empty(),
                authorities: Seq::empty(),
                enable: false,
            },
        }
    }

    /// The anonymous, unauthenticated authentication of a request without credentials.
    pub fn default() -> (r: Self)
        ensures
            r@ == Self::default_model(),
            r@ == (AuthenticationModel {
                token: (ANONYMOUS@, Seq::empty()),
                authorities: Seq::empty(),
                authenticated: false,
                details: UserDetailsModel {
                    id: 0,
                    username: ANONYMOUS@,
                    password: Seq::empty(),
                    authorities: Seq::empty(),
                    enable: false,
                },
            }),
    {
        let empty: Vec<String> = Vec::new();
        assert(views(empty@) =~= Seq::<Seq<char>>::empty());
        let details = DefaultUserDetails::new(0, ANONYMOUS.to_string(), String::new(), empty, false);
        let r = DefaultAuthentication {
            authentication_token: DefaultAuthenticationToken::new(ANONYMOUS.to_string(), String::new()),
            authorities: Vec::new(),
            authenticated: false,
            details,
        };
        assert(views(r.authorities@) =~= Seq::<Seq<char>>::empty());
        r
    }
}

impl Authentication for DefaultAuthentication {
    type Token = DefaultAuthenticationToken;

    closed spec fn authorities_view(&self) -> Seq<Seq<char>> {
        views(self.authorities@)
    }

    closed spec fn authenticated_view(&self) -> bool {
        self.authenticated
    }

    fn get_authentication_token(&self) -> (r: &DefaultAuthenticationToken)
        ensures
            r@ == self@.token,
    {
        &self.authentication_token
    }

    fn get_authorities(&self) -> (r: &Vec<String>)
        ensures
            views(r@) == self@.authorities,
    {
        &self.authorities
    }

    fn set_authorities(&mut self, authorities: Vec<String>)
        ensures
            final(self)@ == (AuthenticationModel { authorities: views(authorities@), ..old(self)@ }),
    {
        self.authorities = authorities;
    }

    fn is_authenticated(&self) -> (r: &bool)
        ensures
            *r == self@.authenticated,
    {
        &self.authenticated
    }

    fn set_authenticated(&mut self, authenticated: bool)
        ensures
            final(self)@ == (AuthenticationModel { authenticated, ..old(self)@ }),
    {
        self.authenticated = authenticated;
    }

    fn set_details(&mut self, details: DefaultUserDetails)
        ensures
            final(self)@ == (AuthenticationModel { details: details@, ..old(self)@ }),
    {
        self.details = details;
    }

    fn get_details(&self) -> (r: &DefaultUserDetails)
        ensures
            r@ == self@.details,
    {
        &self.details
    }
}

/// The authentication produced by a user-name/password login.
pub struct UsernamePasswordAuthentication {
    authentication_token: UsernamePasswordAuthenticationToken,
    authorities: Vec<String>,
    authenticated: bool,
    details: DefaultUserDetails,
}

impl View for UsernamePasswordAuthentication {
    type V = AuthenticationModel;

    closed spec fn view(&self) -> AuthenticationModel {
        AuthenticationModel {
            token: self.authentication_token@,
            authorities: views(self.authorities@),
            authenticated: self.authenticated,
            details: self.details@,
        }
    }
}

/// A copy of a list of strings.
pub fn clone_strings(v: &Vec<String>) -> (r: Vec<String>)
    ensures
        views(r@) == views(v@),
{
    let mut r: Vec<String> = Vec::new();
    let mut i: usize = 0;
    while i < v.len()
        invariant
            i <= v@.len(),
            r@.len() == i,
            forall|j: int| 0 <= j < i ==> #[trigger] r@[j]@ == v@[j]@,
        decreases v@.len() - i,
    {
        let c = v[i].clone();
        r.push(c);
        i = i + 1;
    }
    proof {
        lemma_views_ext(r@, v@);
    }
    r
}

impl UsernamePasswordAuthentication {
    /// The authentication of a user whose credentials were checked: it carries
    /// the user name and password, a copy of the user's authorities, and is
    /// authenticated.
    pub fn authenticated(username: &String, password: &String, details: DefaultUserDetails) -> (r: Self)
        ensures
            r@ == (AuthenticationModel {
                token: (username@, password@),
                authorities: details@.authorities,
                authenticated: true,
                details: details@,
            }),
    {
        let authorities = clone_strings(&details.authorities);
        UsernamePasswordAuthentication {
            authentication_token: UsernamePasswordAuthenticationToken::new(username.clone(), password.clone()),
            authorities,
            authenticated: true,
            details,
        }
    }
}

impl Authentication for UsernamePasswordAuthentication {
    type Token = UsernamePasswordAuthenticationToken;

    closed spec fn authorities_view(&self) -> Seq<Seq<char>> {
        views(self.authorities@)
    }

    closed spec fn authenticated_view(&self) -> bool {
        self.authenticated
    }

    fn get_authentication_token(&self) -> (r: &UsernamePasswordAuthenticationToken)
        ensures
            r@ == self@.token,
    {
        &self.authentication_token
    }

    fn get_authorities(&self) -> (r: &Vec<String>)
        ensures
            views(r@) == self@.authorities,
    {
        &self.authorities
    }

    fn set_authorities(&mut self, authorities: Vec<String>)
        ensures
            final(self)@ == (AuthenticationModel { authorities: views(authorities@), ..old(self)@ }),
    {
        self.authorities = authorities;
    }

    fn is_authenticated(&self) -> (r: &bool)
        ensures
            *r == self@.authenticated,
    {
        &self.authenticated
    }

    fn set_authenticated(&mut self, authenticated: bool)
        ensures
            final(self)@ == (AuthenticationModel { authenticated, ..old(self)@ }),
    {
        self.authenticated = authenticated;
    }

    fn set_details(&mut self, details: DefaultUserDetails)
        ensures
            final(self)@ == (AuthenticationModel { details: details@, ..old(self)@ }),
    {
        self.details = details;
    }

    fn get_details(&self) -> (r: &DefaultUserDetails)
        ensures
            r@ == self@.details,
    {
        &self.details
    }
}

/// The security settings.
pub struct SecurityConfig {
    allow_if_all_abstain_decisions: Option<bool>,
    intercept_url_patterns: Option<String>,
    security_context_storage_strategy: Option<String>,
}

impl SecurityConfig {
    pub closed spec fn allow_view(&self) -> Option<bool> {
        self.allow_if_all_abstain_decisions
    }

    pub closed spec fn patterns_view(&self) -> Option<Seq<char>> {
        match self.intercept_url_patterns {
            Some(p) => Some(p@),
            None => None,
        }
    }

    pub closed spec fn strategy_view(&self) -> Option<Seq<char>> {
        match self.security_context_storage_strategy {
            Some(p) => Some(p@),
            None => None,
        }
    }

    pub fn new(
        allow_if_all_abstain_decisions: Option<bool>,
        intercept_url_patterns: Option<String>,
        security_context_storage_strategy: Option<String>,
    ) -> (r: Self)
        ensures
            r.allow_view() == allow_if_all_abstain_decisions,
            r.patterns_view() == (match intercept_url_patterns { Some(p) => Some(p@), None => None }),
            r.strategy_view() == (match security_context_storage_strategy { Some(p) => Some(p@), None => None }),
    {
        SecurityConfig { allow_if_all_abstain_decisions, intercept_url_patterns, security_context_storage_strategy }
    }

    /// Whether access is allowed when every voter abstains (absent: allowed).
    pub fn allow_if_all_abstain_decisions(&self) -> (r: Option<bool>)
        ensures
            r == self.allow_view(),
    {
        self.allow_if_all_abstain_decisions
    }

    /// The URL patterns that the security interceptor guards. The setting must
    /// be present (the caller checks).
    pub fn intercept_url_patterns(&self) -> (r: String)
        requires
            self.patterns_view() is Some,
        ensures
            r@ == self.patterns_view()->0,
    {
        match &self.intercept_url_patterns {
            Some(p) => p.clone(),
            None => String::new(),
        }
    }

    /// Whether security contexts are kept by the default strategy: the setting
    /// is absent or names `redis`. Any other strategy is not implemented.
    pub fn uses_default_strategy(&self) -> (r: bool)
        ensures
            r == (self.strategy_view() is None || self.strategy_view() == Some(DEFAULT_STRATEGY_NAME@)),
    {
        match &self.security_context_storage_strategy {
            None => true,
            Some(s) => str_eq(s.as_str(), DEFAULT_STRATEGY_NAME),
        }
    }
}

/// Holds the authentication of a request.
pub trait SecurityContext<T: Authentication> {
    fn get_authentication(&self) -> &T;
}

/// The security context kept for a user between requests.
pub struct DefaultSecurityContext {
    authentication: DefaultAuthentication,
}

impl View for DefaultSecurityContext {
    type V = AuthenticationModel;

    closed spec fn view(&self) -> AuthenticationModel {
        self.authentication@
    }
}

impl DefaultSecurityContext {
    pub fn new(authentication: DefaultAuthentication) -> (r: Self)
        ensures
            r@ == authentication@,
    {
        DefaultSecurityContext { authentication }
    }

    /// The context of an anonymous request.
    pub fn default() -> (r: Self)
        ensures
            r@ == DefaultAuthentication::default_model(),
    {
        DefaultSecurityContext { authentication: DefaultAuthentication::default() }
    }

    /// The authentication the context holds.
    pub fn into_authentication(self) -> (r: DefaultAuthentication)
        ensures
            r@ == self@,
    {
        self.authentication
    }
}

impl SecurityContext<DefaultAuthentication> for DefaultSecurityContext {
    fn get_authentication(&self) -> (r: &DefaultAuthentication)
        ensures
            r@ == self@,
    {
        &self.authentication
    }
}

/// Keeps security contexts in the shared cache, each under
/// `security_context::<user identity>`.
pub struct LocalCacheSecurityContextHolderStrategy;

impl LocalCacheSecurityContextHolderStrategy {
    /// The cache key of the context of a user.
    pub fn context_key(&self, user_request_identity: &str) -> (r: String)
        ensures
            r@ == "security_context::"@ + user_request_identity@,
    {
        concat("security_context::", user_request_identity)
    }

    /// The context read from the cache, or an empty one when reading failed.
    pub fn context_or_empty(&self, cached: Option<DefaultSecurityContext>) -> (r: DefaultSecurityContext)
        ensures
            cached matches Some(c) ==> r@ == c@,
            cached is None ==> r@ == DefaultAuthentication::default_model(),
    {
        match cached {
            Some(c) => c,
            None => self.create_empty_context(),
        }
    }
}

impl SecurityContextHolderStrategy for LocalCacheSecurityContextHolderStrategy {
    /// The context of a user for whom the cache holds none: an anonymous one.
    fn create_empty_context(&self) -> (r: DefaultSecurityContext)
        ensures
            r@ == DefaultAuthentication::default_model(),
    {
        DefaultSecurityContext::default()
    }
}

/// Where security contexts are kept between requests.
pub trait SecurityContextHolderStrategy {
    /// The context of a user for whom nothing is kept.
    fn create_empty_context(&self) -> DefaultSecurityContext;
}

/// Whether the configuration selects the default way of keeping contexts
/// (no setting, or `redis`); no other is implemented.
pub open spec fn selects_default_strategy(config: SecurityConfig) -> bool {
    config.strategy_view() is None || config.strategy_view() == Some(DEFAULT_STRATEGY_NAME@)
}

/// Looks up the security context of a user by the configured strategy.
pub struct SecurityContextHolder;

impl SecurityContextHolder {
    /// The context of a user, by the configured strategy, given what the
    /// store returned for the user (`None` when reading failed). Only the
    /// default strategy is implemented.
    pub fn get_context(config: &SecurityConfig, cached: Option<DefaultSecurityContext>) -> (r: DefaultSecurityContext)
        requires
            selects_default_strategy(*config),
        ensures
            cached matches Some(c) ==> r@ == c@,
            cached is None ==> r@ == DefaultAuthentication::default_model(),
    {
        SecurityContextHolder::default_security_context(cached)
    }

    /// The context of a user by the default strategy: what the store holds,
    /// or an anonymous context.
    pub fn default_security_context(cached: Option<DefaultSecurityContext>) -> (r: DefaultSecurityContext)
        ensures
            cached matches Some(c) ==> r@ == c@,
            cached is None ==> r@ == DefaultAuthentication::default_model(),
    {
        let strategy = LocalCacheSecurityContextHolderStrategy;
        strategy.context_or_empty(cached)
    }
}

/// Finds the authentication of a request: that of the security context kept
/// for the user the request identifies.
pub struct DefaultAuthenticationExtractor;

impl DefaultAuthenticationExtractor {
    /// The authentication of the request whose user's context is `context`.
    pub fn extract(&self, context: DefaultSecurityContext) -> (r: DefaultAuthentication)
        ensures
            r@ == context@,
    {
        context.into_authentication()
    }
}

/// Loads the user that an identity names, for authentication.
pub trait LoadUserService {
    /// Whether `r` is an answer the service may give when asked for the
    /// user named `identity`. A service that does not say otherwise may
    /// give any answer.
    open spec fn loads(&self, identity: Seq<char>, r: Result<DefaultUserDetails, AuthError>) -> bool {
        true
    }

    fn load_user(&mut self, identity: &String) -> (r: Result<DefaultUserDetails, AuthError>)
        ensures
            old(self).loads(identity@, r),
    ;
}

/// The filter that performs logins with a user name and a password.
pub struct UsernamePasswordAuthenticationFilter {}

/// The filter that performs logins.
pub struct AuthenticationProcessingFilter;

impl AuthenticationProcessingFilter {
    /// The login path.
    pub fn url_patterns(&self) -> (r: String)
        ensures
            r@ == "/login"@,
    {
        "/login".to_string()
    }
}

/// The filter that attaches the stored authentication to every request.
pub struct AuthenticationFilter;

impl AuthenticationFilter {
    pub fn url_patterns(&self) -> (r: String)
        ensures
            r@ == "/*"@,
    {
        "/*".to_string()
    }
}

/// A user name and a password as a login form sends them.
pub struct UsernamePassword {
    pub username: String,
    pub password: String,
}

} // verus!
