//! WeChat mini-app service: request URLs, answers, and when to renew the
//! service's access token.

use vstd::prelude::*;
use crate::text::concat;

verus! {

/// The application's WeChat credentials.
pub struct Wechat {
    pub app_id: String,
    pub app_secret: String,
}

/// The answer to an access-token request.
pub struct WeChatAccessTokenResponse {
    pub access_token: Option<String>,
    pub expires_in: Option<i64>,
    pub errcode: Option<i64>,
    pub errmsg: Option<String>,
}

/// The answer to a mini-app login (`jscode2session`).
pub struct WeChatMiniAppLoginResponse {
    pub session_key: Option<String>,
    pub unionid: Option<String>,
    pub errmsg: Option<String>,
    pub openid: Option<String>,
    pub errcode: Option<i64>,
}

pub struct Watermark {
    pub timestamp: i64,
    pub appid: String,
}

#[allow(non_snake_case)]
pub struct PhoneInfo {
    pub phoneNumber: Option<String>,
    pub purePhoneNumber: Option<String>,
    pub countryCode: Option<i64>,
    pub watermark: Watermark,
}

/// The answer to a phone-number request.
pub struct GetUserPhoneNumberResponse {
    pub errcode: Option<i64>,
    pub errmsg: Option<String>,
    pub phone_info: Option<PhoneInfo>,
}

/// The answer to a user-information request.
pub struct WeChatUserInfo {
    pub openid: String,
    pub nickname: String,
    pub sex: i32,
    pub province: String,
    pub city: String,
    pub country: String,
    pub headimgurl: String,
    pub privilege: String,
    pub unionid: Option<String>,
    pub errcode: Option<String>,
    pub errmsg: Option<String>,
}

/// How many seconds before its expiry the access token is renewed.
pub const TOKEN_REMAINING_LIFETIME_SECONDS_REFRESH: i64 = 10 * 60;

/// An error answered by the WeChat service.
#[derive(Debug)]
pub struct WeChatError {
    pub message: String,
}

/// What to do to obtain the access token.
pub enum TokenStep {
    /// Use the token already held.
    Reuse(String),
    /// Ask the WeChat service for a new token.
    Request,
}

/// The step for a token held since `created` that lasts `expires_in` seconds, at
/// time `now`: a new token once it has expired or when fewer than
/// [`TOKEN_REMAINING_LIFETIME_SECONDS_REFRESH`] seconds of it remain, otherwise
/// the held token.
pub open spec fn token_step_spec(created: i64, expires_in: i64, now: i64, token: Seq<char>) -> Option<Seq<char>> {
    let elapsed = now - created;
    if elapsed >= expires_in {
        None
    } else if expires_in - elapsed < TOKEN_REMAINING_LIFETIME_SECONDS_REFRESH {
        None
    } else {
        Some(token)
    }
}

/// Keeps the service's access token (valid for `expires_in` seconds, 7200 by
/// default) and renews it shortly before it expires.
pub struct WeChatAccessTokenManager {
    access_token_created: Option<i64>,
    token: Option<WeChatAccessTokenResponse>,
}

/// The abstract content of the token manager: when the token was obtained, its
/// text and its lifetime.
pub ghost struct TokenState {
    pub created: Option<i64>,
    pub access_token: Option<Seq<char>>,
    pub expires_in: Option<i64>,
    pub held: bool,
}

impl View for WeChatAccessTokenManager {
    type V = TokenState;

    closed spec fn view(&self) -> TokenState {
        TokenState {
            created: self.access_token_created,
            access_token: match self.token {
                Some(t) => match t.access_token { Some(a) => Some(a@), None => None },
                None => None,
            },
            expires_in: match self.token {
                Some(t) => t.expires_in,
                None => None,
            },
            held: self.token is Some,
        }
    }
}

impl WeChatAccessTokenManager {
    /// A manager that holds no token yet.
    pub fn new() -> (r: Self)
        ensures
            r@.created is None,
            !r@.held,
    {
        WeChatAccessTokenManager { access_token_created: None, token: None }
    }

    /// What to do at time `now` (seconds): ask for a new token when none is
    /// held yet, otherwise as [`token_step_spec`] says. A held token has a text
    /// and a lifetime, and the time since it was obtained fits in an `i64`.
    pub fn next_step(&self, now: i64) -> (r: TokenStep)
        requires
            self@.held ==> self@.access_token is Some && self@.expires_in is Some,
            self@.held && self@.created is Some ==> i64::MIN <= now - self@.created->0 <= i64::MAX
                && self@.expires_in->0 - (now - self@.created->0) <= i64::MAX,
        ensures
            !self@.held || self@.created is None ==> r is Request,
            self@.held && self@.created is Some ==> match token_step_spec(
                self@.created->0,
                self@.expires_in->0,
                now,
                self@.access_token->0,
            ) {
                Some(t) => r matches TokenStep::Reuse(x) && x@ == t,
                None => r is Request,
            },
    {
        let created = match self.access_token_created {
            Some(c) => c,
            None => return TokenStep::Request,
        };
        let token = match &self.token {
            Some(t) => t,
            None => return TokenStep::Request,
        };
        let expires_in = match token.expires_in {
            Some(e) => e,
            None => return TokenStep::Request,
        };
        let elapsed = now - created;
        if elapsed >= expires_in {
            TokenStep::Request
        } else if expires_in - elapsed < TOKEN_REMAINING_LIFETIME_SECONDS_REFRESH {
            TokenStep::Request
        } else {
            match &token.access_token {
                Some(a) => TokenStep::Reuse(a.clone()),
                None => TokenStep::Request,
            }
        }
    }

    /// Takes in the service's answer to a token request received at time `now`:
    /// an error answer yields its message; otherwise the token is kept from `now`
    /// on and its text returned. An error answer has a message and any other
    /// answer a token (the caller checks).
    pub fn get_token_from_response(&mut self, token_response: WeChatAccessTokenResponse, now: i64) -> (r: Result<String, WeChatError>)
        requires
            old(self)@.held ==> old(self)@.access_token is Some && old(self)@.expires_in is Some,
            token_response.errcode is Some ==> token_response.errmsg is Some,
            token_response.errcode is None ==> token_response.access_token is Some,
        ensures
            token_response.errcode is Some ==> final(self)@ == old(self)@ && (r matches Err(e)
                && e.message@ == token_response.errmsg->0@),
            token_response.errcode is None ==> (r matches Ok(t) && t@ == token_response.access_token->0@
                && final(self)@ == (TokenState {
                    created: Some(now),
                    access_token: Some(t@),
                    expires_in: token_response.expires_in,
                    held: true,
                })),
    {
        match token_response.errcode {
            Some(_) => {
                let message = match &token_response.errmsg {
                    Some(m) => m.clone(),
                    None => String::new(),
                };
                Err(WeChatError { message })
            },
            None => {
                let text = match &token_response.access_token {
                    Some(a) => a.clone(),
                    None => String::new(),
                };
                self.token = Some(token_response);
                self.access_token_created = Some(now);
                Ok(text)
            },
        }
    }
}

/// Calls the WeChat mini-app service.
pub struct WeChatMiniAppService {}

impl WeChatMiniAppService {
    pub fn new() -> (r: Self) {
        WeChatMiniAppService {}
    }

    /// The URL that asks for the service's access token.
    pub fn access_token_url(&self, config: &Wechat) -> (r: String)
        ensures
            r@ == "https://api.weixin.qq.com/cgi-bin/token?grant_type=client_credential&appid="@ + config.app_id@
                + "&secret="@ + config.app_secret@,
    {
        let mut r = concat("https://api.weixin.qq.com/cgi-bin/token?grant_type=client_credential&appid=", config.app_id.as_str());
        r.append("&secret=");
        r.append(config.app_secret.as_str());
        r
    }

    /// The URL that asks for a user's information.
    pub fn userinfo_url(&self, access_token: &str, openid: &str) -> (r: String)
        ensures
            r@ == "https://api.weixin.qq.com/sns/userinfo?access_token="@ + access_token@ + "&openid="@ + openid@
                + "&lang=zh_CN"@,
    {
        let mut r = concat("https://api.weixin.qq.com/sns/userinfo?access_token=", access_token);
        r.append("&openid=");
        r.append(openid);
        r.append("&lang=zh_CN");
        r
    }

    /// The URL that exchanges a mini-app login code for the user's open id.
    pub fn login_url(&self, config: &Wechat, js_code: &str) -> (r: String)
        ensures
            r@ == "https://api.weixin.qq.com/sns/jscode2session?appid="@ + config.app_id@ + "&secret="@
                + config.app_secret@ + "&js_code="@ + js_code@ + "&grant_type=authorization_code"@,
    {
        let mut r = concat("https://api.weixin.qq.com/sns/jscode2session?appid=", config.app_id.as_str());
        r.append("&secret=");
        r.append(config.app_secret.as_str());
        r.append("&js_code=");
        r.append(js_code);
        r.append("&grant_type=authorization_code");
        r
    }

    /// The URL that asks for a user's phone number.
    pub fn phone_number_url(&self, access_token: &str) -> (r: String)
        ensures
            r@ == "https://api.weixin.qq.com/wxa/business/getuserphonenumber?access_token="@ + access_token@,
    {
        concat("https://api.weixin.qq.com/wxa/business/getuserphonenumber?access_token=", access_token)
    }

    /// The JSON body of a phone-number request: `{"code":"<code>"}`.
    pub fn phone_number_body(&self, code: &str) -> (r: String)
        ensures
            r@ == "{\"code\":\""@ + code@ + "\"}"@,
    {
        let mut r = concat("{\"code\":\"", code);
        r.append("\"}");
        r
    }
}


/// A held token is reused exactly while at least
/// [`TOKEN_REMAINING_LIFETIME_SECONDS_REFRESH`] seconds of its lifetime remain.
pub proof fn law_token_reused_while_lifetime_remains(created: i64, expires_in: i64, now: i64, token: Seq<char>)
    ensures
        token_step_spec(created, expires_in, now, token) is Some <==> expires_in - (now - created)
            >= TOKEN_REMAINING_LIFETIME_SECONDS_REFRESH,
        token_step_spec(created, expires_in, now, token) matches Some(t) ==> t == token,
{
}

/// Once a token is due for renewal it stays due as time goes on: a token
/// reused at some time was also reused at every earlier time since it was
/// obtained.
pub proof fn law_token_renewal_is_final(created: i64, expires_in: i64, earlier: i64, later: i64, token: Seq<char>)
    requires
        earlier <= later,
        token_step_spec(created, expires_in, later, token) is Some,
    ensures
        token_step_spec(created, expires_in, earlier, token) is Some,
{
}

} // verus!
