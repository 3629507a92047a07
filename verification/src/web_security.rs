//! The security configuration of an application: whether security is on,
//! which login and permission parts replace the defaults, and the password
//! encoder. A new configurer holds the framework's defaults; the application
//! changes them to replace the default login and permission parts.

use vstd::prelude::*;
use crate::access::SecurityMetadataSource;
use crate::authn::{BcryptPasswordEncoder, PasswordEncoder};
use crate::server::{login_step, LoginStep};

verus! {

/// The abstract content of a security configurer: whether security is on,
/// whether a login success handler, a login failure handler, an access
/// decision voter and an access decision manager were configured, and the
/// required roles of the configured metadata source, if any.
pub ghost struct ConfigurerModel {
    pub enable_security: bool,
    pub success_handler: bool,
    pub failure_handler: bool,
    pub metadata_source: Option<Map<Seq<char>, Seq<Seq<char>>>>,
    pub voter: bool,
    pub decision_manager: bool,
}

/// The security settings of an application, with password encoder `E`.
/// The handlers, voter and decision manager that an application configures
/// are held by the application; the configurer records which it has.
pub struct WebSecurityConfigurer<E: PasswordEncoder> {
    enable_security: bool,
    success_handler: bool,
    failure_handler: bool,
    metadata_source: Option<SecurityMetadataSource>,
    voter: bool,
    decision_manager: bool,
    password_encoder: E,
}

/// The required roles of an optional metadata source.
pub open spec fn metadata_model(m: Option<SecurityMetadataSource>) -> Option<Map<Seq<char>, Seq<Seq<char>>>> {
    match m {
        Some(s) => Some(s.view_map()),
        None => None,
    }
}

impl<E: PasswordEncoder> View for WebSecurityConfigurer<E> {
    type V = ConfigurerModel;

    closed spec fn view(&self) -> ConfigurerModel {
        ConfigurerModel {
            enable_security: self.enable_security,
            success_handler: self.success_handler,
            failure_handler: self.failure_handler,
            metadata_source: metadata_model(self.metadata_source),
            voter: self.voter,
            decision_manager: self.decision_manager,
        }
    }
}

/// The defaults: security off, no success or failure handler, no metadata
/// source, no voter and no decision manager.
pub open spec fn default_configurer() -> ConfigurerModel {
    ConfigurerModel {
        enable_security: false,
        success_handler: false,
        failure_handler: false,
        metadata_source: None,
        voter: false,
        decision_manager: false,
    }
}

impl WebSecurityConfigurer<BcryptPasswordEncoder> {
    /// The default configuration, with the bcrypt password encoder.
    pub fn new() -> (r: Self)
        ensures
            r@ == default_configurer(),
    {
        WebSecurityConfigurer {
            enable_security: false,
            success_handler: false,
            failure_handler: false,
            metadata_source: None,
            voter: false,
            decision_manager: false,
            password_encoder: BcryptPasswordEncoder::new(),
        }
    }
}

impl<E: PasswordEncoder> WebSecurityConfigurer<E> {
    /// The password encoder.
    pub closed spec fn encoder(&self) -> E {
        self.password_encoder
    }

    /// Turns security on or off.
    pub fn enable_security(&mut self, enable_security: bool)
        ensures
            final(self)@ == (ConfigurerModel { enable_security, ..old(self)@ }),
            final(self).encoder() == old(self).encoder(),
    {
        self.enable_security = enable_security;
    }

    /// Records that a login success handler is configured.
    pub fn authentication_success_handler(&mut self)
        ensures
            final(self)@ == (ConfigurerModel { success_handler: true, ..old(self)@ }),
            final(self).encoder() == old(self).encoder(),
    {
        self.success_handler = true;
    }

    /// Records that a login failure handler is configured.
    pub fn authentication_failure_handler(&mut self)
        ensures
            final(self)@ == (ConfigurerModel { failure_handler: true, ..old(self)@ }),
            final(self).encoder() == old(self).encoder(),
    {
        self.failure_handler = true;
    }

    /// Sets the metadata source that gives the required roles of each path.
    pub fn security_metadata_source(&mut self, source: SecurityMetadataSource)
        ensures
            final(self)@ == (ConfigurerModel { metadata_source: Some(source.view_map()), ..old(self)@ }),
            final(self).encoder() == old(self).encoder(),
    {
        self.metadata_source = Some(source);
    }

    /// Records that an access decision voter is configured.
    pub fn access_decision_voter(&mut self)
        ensures
            final(self)@ == (ConfigurerModel { voter: true, ..old(self)@ }),
            final(self).encoder() == old(self).encoder(),
    {
        self.voter = true;
    }

    /// Records that an access decision manager is configured.
    pub fn access_decision_manager(&mut self)
        ensures
            final(self)@ == (ConfigurerModel { decision_manager: true, ..old(self)@ }),
            final(self).encoder() == old(self).encoder(),
    {
        self.decision_manager = true;
    }

    /// The same configuration with another password encoder.
    pub fn password_encoder<F: PasswordEncoder>(self, password_encoder: F) -> (r: WebSecurityConfigurer<F>)
        ensures
            r@ == self@,
            r.encoder() == password_encoder,
    {
        WebSecurityConfigurer {
            enable_security: self.enable_security,
            success_handler: self.success_handler,
            failure_handler: self.failure_handler,
            metadata_source: self.metadata_source,
            voter: self.voter,
            decision_manager: self.decision_manager,
            password_encoder,
        }
    }

    pub fn is_enable_security(&self) -> (r: bool)
        ensures
            r == self@.enable_security,
    {
        self.enable_security
    }

    pub fn has_success_handler(&self) -> (r: bool)
        ensures
            r == self@.success_handler,
    {
        self.success_handler
    }

    pub fn has_failure_handler(&self) -> (r: bool)
        ensures
            r == self@.failure_handler,
    {
        self.failure_handler
    }

    pub fn has_voter(&self) -> (r: bool)
        ensures
            r == self@.voter,
    {
        self.voter
    }

    pub fn has_decision_manager(&self) -> (r: bool)
        ensures
            r == self@.decision_manager,
    {
        self.decision_manager
    }

    /// The configured metadata source, if any.
    pub fn get_security_metadata_source(&self) -> (r: &Option<SecurityMetadataSource>)
        ensures
            metadata_model(*r) == self@.metadata_source,
    {
        &self.metadata_source
    }

    /// The password encoder.
    pub fn get_password_encoder(&self) -> (r: &E)
        ensures
            *r == self.encoder(),
    {
        &self.password_encoder
    }

    /// The login filter's step under this configuration: the configured
    /// success or failure handler when there is one (see `login_step`).
    pub fn login_step(&self, authenticated: bool) -> (r: LoginStep)
        ensures
            authenticated && self@.success_handler ==> r == LoginStep::SuccessHandler,
            authenticated && !self@.success_handler ==> r == LoginStep::GrantToken,
            !authenticated && self@.failure_handler ==> r == LoginStep::FailureHandler,
            !authenticated && !self@.failure_handler ==> r == LoginStep::Unauthorized,
    {
        login_step(authenticated, self.success_handler, self.failure_handler)
    }
}

} // verus!
