//! Access decisions: the roles a resource requires, voters that compare them
//! with the roles of an authentication, and the affirmative decision rule.

use vstd::prelude::*;
use crate::security::Authentication;
use crate::assoc::{keys_unique, assoc_view, assoc_get, assoc_insert};
use crate::text::str_eq;

verus! {

/// Refusal of access.
#[derive(Debug, PartialEq, Eq, Structural)]
pub enum SecurityError {
    AccessDeniedException,
}

impl SecurityError {
    /// The message shown for the error.
    pub fn message(&self) -> (r: String)
        ensures
            r@ == "访问被拒绝"@,
    {
        "访问被拒绝".to_string()
    }
}

/// A role that a resource requires.
pub trait ConfigAttribute {
    spec fn attribute_view(&self) -> Seq<char>;

    fn get_attribute(&self) -> (r: &String)
        ensures
            r@ == self.attribute_view(),
    ;
}

/// A required role given by its name.
pub struct DefaultConfigAttribute {
    pub attribute: String,
}

impl ConfigAttribute for DefaultConfigAttribute {
    open spec fn attribute_view(&self) -> Seq<char> {
        self.attribute@
    }

    fn get_attribute(&self) -> (r: &String) {
        &self.attribute
    }
}

/// The role names of a list of required roles.
pub open spec fn attribute_views<C: ConfigAttribute>(s: Seq<C>) -> Seq<Seq<char>> {
    s.map_values(|c: C| c.attribute_view())
}

/// A voter's answer.
#[derive(Debug, PartialEq, Eq, Structural)]
pub enum Vote {
    AccessGranted,
    AccessDenied,
    AccessAbstain,
}

/// A voter on access to a resource.
pub trait AccessDecisionVoter {
    /// The vote cast for a resource requiring the roles `required`, on an
    /// authentication with the given state and authorities.
    spec fn vote_spec(&self, authenticated: bool, authorities: Seq<Seq<char>>, required: Seq<Seq<char>>) -> Vote;

    fn supports<C: ConfigAttribute>(&self, attribute: &C) -> bool;

    fn vote<A: Authentication, C: ConfigAttribute>(&self, authentication: &A, attributes: &Vec<C>) -> (r: Vote)
        ensures
            r == self.vote_spec(
                authentication.authenticated_view(),
                authentication.authorities_view(),
                attribute_views(attributes@),
            ),
    ;
}

/// The role vote: denied when not authenticated or when some required role is
/// missing from the authorities; granted when at least one role is required and
/// all are held; abstained when no role is required.
pub open spec fn role_vote(authenticated: bool, authorities: Seq<Seq<char>>, required: Seq<Seq<char>>) -> Vote {
    if !authenticated {
        Vote::AccessDenied
    } else if exists|i: int| 0 <= i < required.len() && !authorities.contains(#[trigger] required[i]) {
        Vote::AccessDenied
    } else if required.len() == 0 {
        Vote::AccessAbstain
    } else {
        Vote::AccessGranted
    }
}

/// The voter that compares required roles with granted authorities.
pub struct RoleVoter;

impl AccessDecisionVoter for RoleVoter {
    open spec fn vote_spec(&self, authenticated: bool, authorities: Seq<Seq<char>>, required: Seq<Seq<char>>) -> Vote {
        role_vote(authenticated, authorities, required)
    }

    fn supports<C: ConfigAttribute>(&self, attribute: &C) -> (r: bool)
        ensures
            r,
    {
        true
    }

    fn vote<A: Authentication, C: ConfigAttribute>(&self, authentication: &A, attributes: &Vec<C>) -> (r: Vote) {
        if !*authentication.is_authenticated() {
            return Vote::AccessDenied;
        }
        let ghost required = attribute_views(attributes@);
        let authorities = authentication.get_authorities();
        let ghost held = authentication.authorities_view();
        let mut vote = Vote::AccessAbstain;
        let mut i: usize = 0;
        while i < attributes.len()
            invariant
                i <= attributes@.len(),
                required == attribute_views(attributes@),
                held == crate::text::views(authorities@),
                held == authentication.authorities_view(),
                authentication.authenticated_view(),
                forall|j: int| 0 <= j < i ==> held.contains(#[trigger] required[j]),
                i == 0 ==> vote == Vote::AccessAbstain,
                i > 0 ==> vote == Vote::AccessGranted,
            decreases attributes@.len() - i,
        {
            let attribute = &attributes[i];
            if self.supports(attribute) {
                vote = Vote::AccessDenied;
                let name = attribute.get_attribute();
                let mut k: usize = 0;
                while k < authorities.len()
                    invariant_except_break
                        vote == Vote::AccessDenied,
                    invariant
                        k <= authorities@.len(),
                        held == crate::text::views(authorities@),
                        i < attributes@.len(),
                        required.len() == attributes@.len(),
                        name@ == required[i as int],
                        forall|m: int| 0 <= m < k ==> #[trigger] held[m] != name@,
                    ensures
                        vote == Vote::AccessGranted ==> held.contains(name@),
                        vote == Vote::AccessDenied ==> !held.contains(name@),
                        vote == Vote::AccessGranted || vote == Vote::AccessDenied,
                    decreases authorities@.len() - k,
                {
                    if str_eq(name.as_str(), authorities[k].as_str()) {
                        vote = Vote::AccessGranted;
                        assert(held[k as int] == name@);
                        break;
                    }
                    k = k + 1;
                }
                match vote {
                    Vote::AccessDenied => {
                        assert(!held.contains(required[i as int]));
                        assert(exists|j: int| 0 <= j < required.len() && !held.contains(#[trigger] required[j]));
                        return Vote::AccessDenied;
                    },
                    _ => {},
                }
            }
            i = i + 1;
        }
        vote
    }
}

/// What an abstention from every voter yields: refused only when the
/// configuration explicitly forbids allowing it.
pub open spec fn abstain_outcome(allow_if_all_abstain_decisions: Option<bool>) -> Result<(), SecurityError> {
    if allow_if_all_abstain_decisions == Some(false) {
        Err(SecurityError::AccessDeniedException)
    } else {
        Ok(())
    }
}

/// The affirmative rule over a sequence of votes: granted when any voter grants,
/// refused when none grants and some denies, otherwise the abstention outcome.
pub open spec fn affirmative_outcome(votes: Seq<Vote>, allow_if_all_abstain_decisions: Option<bool>) -> Result<(), SecurityError> {
    if votes.contains(Vote::AccessGranted) {
        Ok(())
    } else if votes.contains(Vote::AccessDenied) {
        Err(SecurityError::AccessDeniedException)
    } else {
        abstain_outcome(allow_if_all_abstain_decisions)
    }
}

/// Decides whether an authentication may access a resource.
pub trait AccessDecisionManager {
    fn decide<A: Authentication, C: ConfigAttribute>(
        &self,
        authentication: &A,
        config_attributes: &Vec<C>,
        allow_if_all_abstain_decisions: Option<bool>,
    ) -> Result<(), SecurityError>;

    fn check_allow_if_all_abstain_decisions(&self, allow_if_all_abstain_decisions: Option<bool>) -> (r: Result<(), SecurityError>)
        ensures
            r == abstain_outcome(allow_if_all_abstain_decisions),
    {
        match allow_if_all_abstain_decisions {
            Some(false) => Err(SecurityError::AccessDeniedException),
            _ => Ok(()),
        }
    }
}

/// The votes that `voters` cast, in order, on an authentication with the given
/// state and authorities, for a resource requiring the roles `required`.
pub open spec fn votes_of<V: AccessDecisionVoter>(
    voters: Seq<V>,
    authenticated: bool,
    authorities: Seq<Seq<char>>,
    required: Seq<Seq<char>>,
) -> Seq<Vote> {
    voters.map_values(|v: V| v.vote_spec(authenticated, authorities, required))
}

/// Grants access as soon as one voter grants it.
pub struct AffirmativeBased<V: AccessDecisionVoter> {
    decision_voters: Vec<V>,
}

impl<V: AccessDecisionVoter> AffirmativeBased<V> {
    pub closed spec fn voters(&self) -> Seq<V> {
        self.decision_voters@
    }

    pub fn new(decision_voters: Vec<V>) -> (r: Self)
        ensures
            r.voters() == decision_voters@,
    {
        AffirmativeBased { decision_voters }
    }
}

impl<V: AccessDecisionVoter> AccessDecisionManager for AffirmativeBased<V> {
    fn decide<A: Authentication, C: ConfigAttribute>(
        &self,
        authentication: &A,
        config_attributes: &Vec<C>,
        allow_if_all_abstain_decisions: Option<bool>,
    ) -> (r: Result<(), SecurityError>)
        ensures
            r == affirmative_outcome(
                votes_of(
                    self.voters(),
                    authentication.authenticated_view(),
                    authentication.authorities_view(),
                    attribute_views(config_attributes@),
                ),
                allow_if_all_abstain_decisions,
            ),
    {
        let ghost votes = votes_of(
            self.voters(),
            authentication.authenticated_view(),
            authentication.authorities_view(),
            attribute_views(config_attributes@),
        );
        let mut deny: usize = 0;
        let mut i: usize = 0;
        while i < self.decision_voters.len()
            invariant
                i <= self.decision_voters@.len(),
                deny <= i,
                votes == votes_of(
                    self.voters(),
                    authentication.authenticated_view(),
                    authentication.authorities_view(),
                    attribute_views(config_attributes@),
                ),
                votes.len() == self.decision_voters@.len(),
                forall|j: int| 0 <= j < i ==> #[trigger] votes[j] != Vote::AccessGranted,
                (deny > 0) == (exists|j: int| 0 <= j < i && #[trigger] votes[j] == Vote::AccessDenied),
            decreases self.decision_voters@.len() - i,
        {
            let result = self.decision_voters[i].vote(authentication, config_attributes);
            assert(votes[i as int] == result);
            match result {
                Vote::AccessDenied => {
                    deny = deny + 1;
                },
                Vote::AccessAbstain => {},
                Vote::AccessGranted => {
                    assert(votes.contains(Vote::AccessGranted));
                    return Ok(());
                },
            }
            i = i + 1;
        }
        if deny > 0 {
            assert(!votes.contains(Vote::AccessGranted));
            proof {
                let j = choose|j: int| 0 <= j < i && #[trigger] votes[j] == Vote::AccessDenied;
                assert(votes.contains(Vote::AccessDenied));
            }
            Err(SecurityError::AccessDeniedException)
        } else {
            assert(!votes.contains(Vote::AccessGranted));
            assert(!votes.contains(Vote::AccessDenied));
            self.check_allow_if_all_abstain_decisions(allow_if_all_abstain_decisions)
        }
    }
}

/// The roles that each resource (by its path) requires.
pub struct SecurityMetadataSource {
    request_map: Vec<(String, Vec<DefaultConfigAttribute>)>,
}

impl SecurityMetadataSource {
    #[verifier::type_invariant]
    closed spec fn wf(&self) -> bool {
        keys_unique(self.request_map@)
    }

    /// The required role names of each path.
    pub closed spec fn view_map(&self) -> Map<Seq<char>, Seq<Seq<char>>> {
        assoc_view(self.request_map@).map_values(|v: Vec<DefaultConfigAttribute>| attribute_views(v@))
    }

    /// An empty mapping.
    pub fn new() -> (r: Self)
        ensures
            r.view_map() == Map::<Seq<char>, Seq<Seq<char>>>::empty(),
    {
        let r = SecurityMetadataSource { request_map: Vec::new() };
        assert(r.view_map() =~= Map::<Seq<char>, Seq<Seq<char>>>::empty());
        r
    }

    /// Sets the roles that `url` requires, replacing earlier ones.
    pub fn insert(&mut self, url: String, attributes: Vec<DefaultConfigAttribute>)
        ensures
            final(self).view_map() == old(self).view_map().insert(url@, attribute_views(attributes@)),
    {
        proof {
            use_type_invariant(&*self);
        }
        let ghost a = attribute_views(attributes@);
        let ghost u = url@;
        let mut map: Vec<(String, Vec<DefaultConfigAttribute>)> = Vec::new();
        std::mem::swap(&mut map, &mut self.request_map);
        let ghost before = map@;
        assoc_insert(&mut map, url, attributes);
        self.request_map = map;
        proof {
            assert(self.view_map() =~= assoc_view(before).map_values(|v: Vec<DefaultConfigAttribute>| attribute_views(v@)).insert(u, a));
        }
    }

    /// The whole mapping, as pairs of a path and its required roles.
    pub fn request_map(&self) -> (r: &Vec<(String, Vec<DefaultConfigAttribute>)>)
        ensures
            keys_unique(r@),
            assoc_view(r@).map_values(|v: Vec<DefaultConfigAttribute>| attribute_views(v@)) == self.view_map(),
    {
        proof {
            use_type_invariant(self);
        }
        &self.request_map
    }

    /// The roles that `uri` requires, if the mapping names it.
    pub fn get(&self, uri: &str) -> (r: Option<&Vec<DefaultConfigAttribute>>)
        ensures
            r matches Some(v) ==> self.view_map().contains_key(uri@) && self.view_map()[uri@] == attribute_views(v@),
            r is None ==> !self.view_map().contains_key(uri@),
    {
        proof {
            use_type_invariant(self);
        }
        assoc_get(&self.request_map, uri)
    }
}

/// The roles that `uri` requires under `map`: none when the map does not name it.
pub open spec fn required_roles(map: Map<Seq<char>, Seq<Seq<char>>>, uri: Seq<char>) -> Seq<Seq<char>> {
    if map.contains_key(uri) {
        map[uri]
    } else {
        Seq::empty()
    }
}

/// The filter that checks every request against the required roles of its path.
pub struct SecurityInterceptor;

impl SecurityInterceptor {
    /// Decides access to `uri`: by the roles the mapping requires for it, or by an
    /// empty list of roles when the mapping does not name it.
    pub fn check_access<V: AccessDecisionVoter, A: Authentication>(
        &self,
        manager: &AffirmativeBased<V>,
        source: &SecurityMetadataSource,
        authentication: &A,
        uri: &str,
        allow_if_all_abstain_decisions: Option<bool>,
    ) -> (r: Result<(), SecurityError>)
        ensures
            r == affirmative_outcome(
                votes_of(
                    manager.voters(),
                    authentication.authenticated_view(),
                    authentication.authorities_view(),
                    required_roles(source.view_map(), uri@),
                ),
                allow_if_all_abstain_decisions,
            ),
    {
        match source.get(uri) {
            Some(attrs) => manager.decide(authentication, attrs, allow_if_all_abstain_decisions),
            None => {
                let empty: Vec<DefaultConfigAttribute> = Vec::new();
                assert(attribute_views(empty@) =~= Seq::<Seq<char>>::empty());
                manager.decide(authentication, &empty, allow_if_all_abstain_decisions)
            },
        }
    }
}


/// Supplies the URL-to-roles map that access decisions consult.
pub trait SecurityMetadataSourceProvider {
    fn security_metadata_source(&self) -> &SecurityMetadataSource;
}


/// An unauthenticated request is denied by the role voter, whatever its
/// authorities and whatever the resource requires.
pub proof fn law_unauthenticated_denied(authorities: Seq<Seq<char>>, required: Seq<Seq<char>>)
    ensures
        role_vote(false, authorities, required) == Vote::AccessDenied,
{
}

/// The role voter grants exactly when the request is authenticated, the
/// resource requires at least one role, and every required role is held.
pub proof fn law_role_vote_grants(authenticated: bool, authorities: Seq<Seq<char>>, required: Seq<Seq<char>>)
    ensures
        role_vote(authenticated, authorities, required) == Vote::AccessGranted <==> (authenticated && required.len() > 0
            && forall|i: int| 0 <= i < required.len() ==> authorities.contains(#[trigger] required[i])),
{
}

/// Holding more authorities never turns a granted role vote into another one.
pub proof fn law_role_vote_monotone(
    authenticated: bool,
    fewer: Seq<Seq<char>>,
    more: Seq<Seq<char>>,
    required: Seq<Seq<char>>,
)
    requires
        role_vote(authenticated, fewer, required) == Vote::AccessGranted,
        forall|x: Seq<char>| fewer.contains(x) ==> more.contains(x),
    ensures
        role_vote(authenticated, more, required) == Vote::AccessGranted,
{
    assert forall|i: int| 0 <= i < required.len() implies more.contains(#[trigger] required[i]) by {
        assert(fewer.contains(required[i]));
    }
}

/// Under the affirmative rule one granting voter is enough: access is allowed
/// whatever the others vote and whatever the abstention setting says.
pub proof fn law_affirmative_one_grant_suffices(votes: Seq<Vote>, allow_if_all_abstain_decisions: Option<bool>, i: int)
    requires
        0 <= i < votes.len(),
        votes[i] == Vote::AccessGranted,
    ensures
        affirmative_outcome(votes, allow_if_all_abstain_decisions) == Ok::<(), SecurityError>(()),
{
    assert(votes.contains(Vote::AccessGranted));
}

/// Under the affirmative rule a refusal means that no voter granted.
pub proof fn law_affirmative_refusal_means_no_grant(votes: Seq<Vote>, allow_if_all_abstain_decisions: Option<bool>)
    requires
        affirmative_outcome(votes, allow_if_all_abstain_decisions) is Err,
    ensures
        forall|i: int| 0 <= i < votes.len() ==> #[trigger] votes[i] != Vote::AccessGranted,
{
    assert forall|i: int| 0 <= i < votes.len() implies #[trigger] votes[i] != Vote::AccessGranted by {
        if votes[i] == Vote::AccessGranted {
            assert(votes.contains(Vote::AccessGranted));
        }
    }
}

/// When every voter abstains, access is allowed unless the configuration says
/// `allow_if_all_abstain_decisions: false`.
pub proof fn law_affirmative_all_abstain(votes: Seq<Vote>, allow_if_all_abstain_decisions: Option<bool>)
    requires
        forall|i: int| 0 <= i < votes.len() ==> #[trigger] votes[i] == Vote::AccessAbstain,
    ensures
        affirmative_outcome(votes, allow_if_all_abstain_decisions) is Ok <==> allow_if_all_abstain_decisions != Some(false),
{
    if votes.contains(Vote::AccessGranted) {
        let i = choose|i: int| 0 <= i < votes.len() && votes[i] == Vote::AccessGranted;
        assert(votes[i] == Vote::AccessAbstain);
    }
    if votes.contains(Vote::AccessDenied) {
        let i = choose|i: int| 0 <= i < votes.len() && votes[i] == Vote::AccessDenied;
        assert(votes[i] == Vote::AccessAbstain);
    }
}

} // verus!
