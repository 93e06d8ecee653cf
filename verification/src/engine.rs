//! The policy engine: parses the policies once, then answers each authorization
//! request from its cache or by asking Cedar.

use cedar_policy::Authorizer;
use vstd::prelude::*;

use crate::cache::DecisionCache;
use crate::cedar::{
    cedar_policies_accept, cedar_policies_name_undefined, cedar_schema_accepts, is_authorized,
    issues_view, names_undefined,
    new_authorizer, new_validator, parse_errors_text, policy_set_from_str, schema_error_text,
    cedar_policy_parse_error_text, cedar_response, schema_from_cedarschema_str, validate_policies,
    AuthzDecision, CedarEntities, CedarOutcome, CedarPolicies, CedarRequest, CedarSchema, ValidationIssue,
};
use crate::entities::{id_attr, monty_type, script_entity, script_uid};
use crate::error::PolicyDenied;
use crate::error::PolicyParseError;
use crate::os_call::OsFunctionCall;
use crate::request::{
    authz_of, build_entities, build_external_call_request, build_os_call_request,
    lemma_os_call_requests_fit_schema, os_call_to_authz_request, action_uid_text, applies_to, Action,
    ResourceKind,
};
use crate::schema::SCHEMA_SRC;

verus! {

/// The authorization decision when no Cedar policy decides.
#[derive(Debug, Clone, Copy, PartialEq, Eq)]
pub enum DefaultDecision {
    /// Deny access unless explicitly permitted. This is the secure default.
    Deny,
    /// Allow access unless explicitly forbidden: Cedar policies then act only as a
    /// blocklist on top of the mount-level controls.
    Allow,
}

/// Configuration for constructing a [`PolicyEngine`].
#[derive(Debug, Clone)]
pub struct PolicyConfig {
    /// Name of the principal entity (the sandboxed script). Defaults to `"anonymous"`.
    pub principal: String,
    /// Decision when no policy explicitly permits or forbids an action.
    /// Defaults to `Deny` (secure by default).
    pub default_decision: DefaultDecision,
}

impl Default for PolicyConfig {
    fn default() -> (c: Self)
        ensures
            c.principal@ == "anonymous"@,
            c.default_decision == DefaultDecision::Deny,
    {
        PolicyConfig { principal: "anonymous".to_owned(), default_decision: DefaultDecision::Deny }
    }
}

/// Whether a request is denied, given the default decision and Cedar's outcome.
///
/// With `Deny` as default, Cedar's decision stands. With `Allow` as default, the
/// request is denied only when Cedar denies it for a reason, which is an explicit
/// `forbid`: Cedar also denies, with no reason, when no policy matched at all.
pub open spec fn denies(default: DefaultDecision, outcome: CedarOutcome) -> bool {
    match default {
        DefaultDecision::Deny => outcome.decision == AuthzDecision::Deny,
        DefaultDecision::Allow => outcome.decision == AuthzDecision::Deny && outcome.has_reasons,
    }
}

/// A Cedar outcome that Cedar can give: an `Allow` always has a reason.
pub open spec fn cedar_outcome_possible(outcome: CedarOutcome) -> bool {
    outcome.decision == AuthzDecision::Allow ==> outcome.has_reasons
}

/// Decides whether a request is denied, given the default decision and Cedar's
/// outcome.
pub fn is_denied(default: DefaultDecision, outcome: &CedarOutcome) -> (denied: bool)
    ensures
        denied == denies(default, *outcome),
{
    let cedar_denies = match outcome.decision {
        AuthzDecision::Deny => true,
        AuthzDecision::Allow => false,
    };
    match default {
        DefaultDecision::Deny => cedar_denies,
        DefaultDecision::Allow => cedar_denies && outcome.has_reasons,
    }
}

/// Cedar policy engine that authorizes Monty sandbox operations.
///
/// Constructed once with a Cedar policy set, then consulted on each OS call or
/// external function call. The policies never change after construction, so every
/// decision is recorded in a cache keyed by action and resource id, and a repeated
/// request is answered from it.
///
/// The engine sits in front of the sandbox's mount table: a denial here stops an
/// operation before the mount table is consulted, and a Cedar `permit` cannot
/// override a denial of the mount table; both must allow an operation.
pub struct PolicyEngine {
    authorizer: Authorizer,
    policy_set: CedarPolicies,
    /// The schema the policies were validated against.
    #[allow(dead_code)]
    schema: CedarSchema,
    principal_name: String,
    default_decision: DefaultDecision,
    cache: DecisionCache,
}

impl PolicyEngine {
    /// The cache has its tables, every recorded decision is the one the engine takes
    /// for its request, and with no policies at all every recorded decision is the
    /// default one.
    #[verifier::type_invariant]
    spec fn inv(self) -> bool {
        &&& self.cache.wf()
        &&& forall|k: (Action, Seq<char>)| #[trigger] self.cache@.contains_key(k)
            ==> self.cache@[k] == decision_for(self, k.0, k.1)
        &&& self.policy_set.is_empty() ==> forall|k: (Action, Seq<char>)|
            #[trigger] self.cache@.contains_key(k) ==> self.cache@[k] == (self.default_decision
                == DefaultDecision::Deny)
    }

    /// The name of the principal.
    pub closed spec fn principal(self) -> Seq<char> {
        self.principal_name@
    }

    /// The default decision.
    pub closed spec fn default_decision(self) -> DefaultDecision {
        self.default_decision
    }

    /// The policy set.
    pub closed spec fn policies(self) -> CedarPolicies {
        self.policy_set
    }

    /// Whether the engine holds no policy at all.
    pub open spec fn has_no_policies(self) -> bool {
        self.policies().is_empty()
    }

    /// The decisions recorded so far: for each action and resource id, whether the
    /// request was denied.
    pub closed spec fn cached(self) -> Map<(Action, Seq<char>), bool> {
        self.cache@
    }

    /// Whether two engines have the same authorizer, policies, schema, principal and
    /// default decision; they may differ only in their caches.
    pub closed spec fn same_configuration(self, other: PolicyEngine) -> bool {
        &&& self.authorizer == other.authorizer
        &&& self.policy_set == other.policy_set
        &&& self.schema == other.schema
        &&& self.principal_name == other.principal_name
        &&& self.default_decision == other.default_decision
    }
}

/// What Cedar answers for the request that the engine puts to it for `action` on
/// `resource`: the principal `Monty::Script::"<principal>"` with no attributes, the
/// action's uid, and the resource of the kind the action applies to, whose attribute
/// holds its id; both entities form the entity set.
pub open spec fn cedar_answer(e: PolicyEngine, action: Action, resource: Seq<char>) -> (bool, bool) {
    let kind = applies_to(action);
    let principal = (monty_type("Script"@), e.principal());
    let res = (monty_type(kind.spec_basename()), resource);
    cedar_response(
        e.policies().src(),
        principal,
        action_uid_text(action),
        res,
        seq![
            (principal.0, principal.1, Seq::<(Seq<char>, Seq<char>)>::empty()),
            (res.0, res.1, id_attr(kind.spec_attr(), resource)),
        ],
    )
}

/// Cedar's outcome from whether it denies and whether it names a reason.
pub open spec fn outcome_of(answer: (bool, bool)) -> CedarOutcome {
    CedarOutcome {
        decision: if answer.0 {
            AuthzDecision::Deny
        } else {
            AuthzDecision::Allow
        },
        has_reasons: answer.1,
    }
}

/// Whether the engine denies `action` on `resource`: its default rule applied to
/// Cedar's answer for the request.
pub open spec fn decision_for(e: PolicyEngine, action: Action, resource: Seq<char>) -> bool {
    denies(e.default_decision(), outcome_of(cedar_answer(e, action, resource)))
}

impl PolicyEngine {
    /// Every recorded decision is the one the engine takes for its request.
    pub open spec fn cache_is_sound(self) -> bool {
        forall|k: (Action, Seq<char>)| #[trigger] self.cached().contains_key(k)
            ==> self.cached()[k] == decision_for(self, k.0, k.1)
    }
}

/// What evaluating a request of `action` on `resource` does: the answer is the
/// engine's decision for it, which is recorded (a decision recorded before is that
/// same decision). With no policies at all the decision is the default one. A
/// denial names the action and the resource.
pub open spec fn evaluated(
    pre: PolicyEngine,
    post: PolicyEngine,
    action: Action,
    resource: Seq<char>,
    r: Result<(), PolicyDenied>,
) -> bool {
    let key = (action, resource);
    &&& post.same_configuration(pre)
    &&& post.principal() == pre.principal()
    &&& post.default_decision() == pre.default_decision()
    &&& post.policies() == pre.policies()
    &&& pre.cache_is_sound()
    &&& post.cache_is_sound()
    &&& post.cached() == pre.cached().insert(key, decision_for(pre, action, resource))
    &&& r is Err <==> decision_for(pre, action, resource)
    &&& r matches Err(e) ==> e.action@ == action.spec_name() && e.resource@ == resource
    &&& pre.has_no_policies() ==> (r is Err <==> pre.default_decision() == DefaultDecision::Deny)
}

/// What authorizing an OS call does: a call that is not policy-gated is allowed and
/// changes nothing; any other is evaluated on its action and resource id.
pub open spec fn authorized_os_call(
    pre: PolicyEngine,
    post: PolicyEngine,
    call: OsFunctionCall,
    r: Result<(), PolicyDenied>,
) -> bool {
    match authz_of(call) {
        None => r is Ok && post == pre,
        Some(a) => evaluated(pre, post, a.0, a.2, r),
    }
}

/// What authorizing a call of the external function `name` does: it is evaluated as
/// `ext:call` on the function's name.
pub open spec fn authorized_external_call(
    pre: PolicyEngine,
    post: PolicyEngine,
    name: Seq<char>,
    r: Result<(), PolicyDenied>,
) -> bool {
    evaluated(pre, post, Action::ExtCall, name, r)
}

/// The principal's entity type differs from every resource's entity type.
proof fn lemma_script_type_is_not_a_resource_type(kind: ResourceKind)
    ensures
        monty_type("Script"@) != monty_type(kind.spec_basename()),
{
    reveal_strlit("Monty");
    reveal_strlit("::");
    reveal_strlit("Script");
    reveal_strlit("Path");
    reveal_strlit("EnvVar");
    reveal_strlit("ExternalFunction");
    assert(monty_type("Script"@)[7] != monty_type(kind.spec_basename())[7]
        || monty_type("Script"@).len() != monty_type(kind.spec_basename()).len());
}

/// Error `k` is the first one about an entity type or an action that the schema
/// does not define.
pub open spec fn is_first_undefined(errors: Seq<(bool, Seq<char>)>, k: int) -> bool {
    &&& 0 <= k < errors.len()
    &&& errors[k].0
    &&& forall|m: int| 0 <= m < k ==> !(#[trigger] errors[m]).0
}

/// The text of the first validation error that is about an entity type or an
/// action that the schema does not define, if there is one.
pub fn first_undefined_name_error(issues: &Vec<ValidationIssue>) -> (t: Option<String>)
    ensures
        t is None <==> !names_undefined(issues_view(issues@)),
        t matches Some(text) ==> exists|k: int|
            is_first_undefined(issues_view(issues@), k) && text@ == issues_view(issues@)[k].1,
{
    let mut i: usize = 0;
    while i < issues.len()
        invariant
            i <= issues.len(),
            forall|m: int| 0 <= m < i ==> !(#[trigger] issues_view(issues@)[m]).0,
        decreases issues.len() - i,
    {
        if issues[i].undefined_name {
            let text = issues[i].message.clone();
            proof {
                assert(is_first_undefined(issues_view(issues@), i as int));
            }
            return Some(text);
        }
        i = i + 1;
    }
    proof {
        assert forall|k: int| 0 <= k < issues_view(issues@).len() implies !issues_view(issues@)[k].0 by {
        }
    }
    None
}

impl PolicyEngine {
    /// Creates a policy engine by loading the Monty schema, parsing the Cedar policy
    /// text, and validating the policies against the schema.
    ///
    /// Fails with a [`PolicyParseError`] whose message starts with `schema error: `
    /// if Cedar refuses the schema; else with one that is `policy parse error: `
    /// followed by Cedar's text of the errors if the text is not valid Cedar; else
    /// with one that is `policy validation error: ` followed by Cedar's text of the
    /// first such error if the policies name entity types or actions that the schema
    /// does not define (which error comes first is Cedar's choice). Other findings of the validator (such as an attribute that
    /// not every possible resource has) do not refuse the policies.
    pub fn new(policy_text: &str, config: PolicyConfig) -> (r: Result<PolicyEngine, PolicyParseError>)
        ensures
            r is Ok <==> {
                &&& cedar_schema_accepts(SCHEMA_SRC@)
                &&& cedar_policies_accept(policy_text@)
                &&& !cedar_policies_name_undefined(SCHEMA_SRC@, policy_text@)
            },
            r matches Err(e) ==> if !cedar_schema_accepts(SCHEMA_SRC@) {
                "schema error: "@.is_prefix_of(e.message@)
            } else if !cedar_policies_accept(policy_text@) {
                e.message@ == "policy parse error: "@ + cedar_policy_parse_error_text(policy_text@)
            } else {
                "policy validation error: "@.is_prefix_of(e.message@)
            },
            cedar_schema_accepts(SCHEMA_SRC@) && policy_text@.len() == 0 ==> r is Ok,
            r matches Ok(engine) ==> {
                &&& engine.principal() == config.principal@
                &&& engine.default_decision() == config.default_decision
                &&& engine.cached() == Map::<(Action, Seq<char>), bool>::empty()
                &&& engine.cache_is_sound()
                &&& engine.policies().src() == policy_text@
                &&& policy_text@.len() == 0 ==> engine.has_no_policies()
            },
    {
        let schema = match schema_from_cedarschema_str(SCHEMA_SRC) {
            Ok(schema) => schema,
            Err(e) => {
                let mut message = "schema error: ".to_owned();
                message.append(schema_error_text(&e).as_str());
                return Err(PolicyParseError { message });
            },
        };
        let policy_set = match policy_set_from_str(policy_text) {
            Ok(policy_set) => policy_set,
            Err(e) => {
                let mut message = "policy parse error: ".to_owned();
                message.append(parse_errors_text(&e).as_str());
                return Err(PolicyParseError { message });
            },
        };
        let validator = new_validator(&schema);
        let issues = validate_policies(&validator, &policy_set);
        if let Some(text) = first_undefined_name_error(&issues) {
            let mut message = "policy validation error: ".to_owned();
            message.append(text.as_str());
            return Err(PolicyParseError { message });
        }
        let cache = DecisionCache::new();
        Ok(
            PolicyEngine {
                authorizer: new_authorizer(),
                policy_set,
                schema,
                principal_name: config.principal,
                default_decision: config.default_decision,
                cache,
            },
        )
    }

    /// Checks whether a Cedar policy permits the given OS call.
    ///
    /// Returns `Ok(())` if the operation is allowed, or `Err(PolicyDenied)` if the
    /// policy forbids it. Operations that Cedar does not gate (`DateToday`,
    /// `DateTimeNow`) are always allowed, since they have no security implications.
    pub fn authorize_os_call(&mut self, call: &OsFunctionCall) -> (r: Result<(), PolicyDenied>)
        ensures
            authorized_os_call(*old(self), *final(self), *call, r),
    {
        let authz = match os_call_to_authz_request(call) {
            Some(authz) => authz,
            None => return Ok(()),
        };
        let principal_uid = script_uid(self.principal_name.as_str());
        let principal_entity = script_entity(self.principal_name.as_str());
        let (request, resource) = build_os_call_request(&principal_uid, &authz);
        proof {
            lemma_script_type_is_not_a_resource_type(authz.resource.kind);
            lemma_os_call_requests_fit_schema(*call);
        }
        let entities = build_entities(&principal_entity, &resource);
        self.evaluate(&request, &entities, authz.action, authz.resource.id.as_str())
    }

    /// Checks whether a Cedar policy permits calling the named external function.
    ///
    /// Returns `Ok(())` if the call is allowed, or `Err(PolicyDenied)` if denied.
    pub fn authorize_external_call(&mut self, function_name: &str) -> (r: Result<(), PolicyDenied>)
        ensures
            authorized_external_call(*old(self), *final(self), function_name@, r),
    {
        let principal_uid = script_uid(self.principal_name.as_str());
        let principal_entity = script_entity(self.principal_name.as_str());
        let (request, resource) = build_external_call_request(&principal_uid, function_name);
        proof {
            lemma_script_type_is_not_a_resource_type(ResourceKind::ExternalFunction);
        }
        let entities = build_entities(&principal_entity, &resource);
        self.evaluate(&request, &entities, Action::ExtCall, function_name)
    }

    /// The core of evaluation: answers from the cache if the decision is recorded,
    /// and else asks Cedar, applies the default decision, and records the result.
    fn evaluate(
        &mut self,
        request: &CedarRequest,
        entities: &CedarEntities,
        action: Action,
        resource_id: &str,
    ) -> (r: Result<(), PolicyDenied>)
        requires
            request.principal_type() == monty_type("Script"@),
            request.principal_id() == old(self).principal(),
            request.action() == action_uid_text(action),
            request.resource_type() == monty_type(applies_to(action).spec_basename()),
            request.resource_id() == resource_id@,
            entities.members() == seq![
                (monty_type("Script"@), old(self).principal(), Seq::<(Seq<char>, Seq<char>)>::empty()),
                (
                    monty_type(applies_to(action).spec_basename()),
                    resource_id@,
                    id_attr(applies_to(action).spec_attr(), resource_id@),
                ),
            ],
        ensures
            evaluated(*old(self), *final(self), action, resource_id@, r),
    {
        proof {
            use_type_invariant(&*self);
        }
        match self.cache.get(action, resource_id) {
            Some(denied) => {
                proof {
                    assert(self.cache@.insert((action, resource_id@), denied) =~= self.cache@);
                }
                return if denied {
                    Err(PolicyDenied { action: action.name(), resource: resource_id.to_owned() })
                } else {
                    Ok(())
                };
            },
            None => {},
        }
        let outcome = is_authorized(&self.authorizer, request, &self.policy_set, entities);
        let denied = is_denied(self.default_decision, &outcome);
        let mut cache = DecisionCache::new();
        std::mem::swap(&mut cache, &mut self.cache);
        cache.insert(action, resource_id.to_owned(), denied);
        self.cache = cache;
        if denied {
            Err(PolicyDenied { action: action.name(), resource: resource_id.to_owned() })
        } else {
            Ok(())
        }
    }
}

/// What std's `Debug` writes for a string: the string in double quotes, each of
/// its characters escaped as `char::escape_debug` does.
pub uninterp spec fn str_debug_text(s: Seq<char>) -> Seq<char>;

/// Calls std's `Debug` on a string, through `format!("{:?}", ..)`. The text is
/// named: it is a function of the string alone, and takes std's tables of
/// printable characters to write out.
#[verifier::external_body]
fn debug_str(s: &str) -> (t: String)
    ensures
        t@ == str_debug_text(s@),
{
    format!("{:?}", s)
}

/// The debugging description of an engine with the given principal and default
/// decision: the principal written as std's `Debug` writes a string, and the default
/// decision by its name.
pub open spec fn engine_debug_text(principal: Seq<char>, default: DefaultDecision) -> Seq<char> {
    "PolicyEngine { principal_name: "@ + str_debug_text(principal) + ", default_decision: "@
        + match default {
        DefaultDecision::Deny => "Deny"@,
        DefaultDecision::Allow => "Allow"@,
    } + ", .. }"@
}

impl PolicyEngine {
    /// A description of the engine for debugging: its principal and its default
    /// decision, and nothing of its policies or of its recorded decisions, so two
    /// engines built with one configuration are described alike whatever their
    /// policies and whatever they authorized.
    pub fn debug_text(&self) -> (s: String)
        ensures
            s@ == engine_debug_text(self.principal(), self.default_decision()),
    {
        let mut s = "PolicyEngine { principal_name: ".to_owned();
        let name = debug_str(self.principal_name.as_str());
        s.append(name.as_str());
        s.append(", default_decision: ");
        match self.default_decision {
            DefaultDecision::Deny => s.append("Deny"),
            DefaultDecision::Allow => s.append("Allow"),
        }
        s.append(", .. }");
        s
    }
}

/// An engine has the same configuration as itself.
proof fn lemma_same_configuration_refl(e: PolicyEngine)
    ensures
        e.same_configuration(e),
{
}

/// Repeating a request gives the same answer and records nothing new: decisions are
/// deterministic, and a repeated request is answered from the cache.
pub proof fn lemma_repeated_request_same_answer(
    e0: PolicyEngine,
    e1: PolicyEngine,
    e2: PolicyEngine,
    action: Action,
    resource: Seq<char>,
    r1: Result<(), PolicyDenied>,
    r2: Result<(), PolicyDenied>,
)
    requires
        evaluated(e0, e1, action, resource, r1),
        evaluated(e1, e2, action, resource, r2),
    ensures
        r1 is Ok <==> r2 is Ok,
        e2.cached() == e1.cached(),
        e2.same_configuration(e0),
{
    assert(e2.cached() =~= e1.cached());
}

/// Authorizing the same OS call twice gives the same answer, and the second call
/// records nothing new.
pub proof fn lemma_repeated_os_call_same_answer(
    e0: PolicyEngine,
    e1: PolicyEngine,
    e2: PolicyEngine,
    call: OsFunctionCall,
    r1: Result<(), PolicyDenied>,
    r2: Result<(), PolicyDenied>,
)
    requires
        authorized_os_call(e0, e1, call, r1),
        authorized_os_call(e1, e2, call, r2),
    ensures
        r1 is Ok <==> r2 is Ok,
        e2.cached() == e1.cached(),
{
    if let Some(a) = authz_of(call) {
        lemma_repeated_request_same_answer(e0, e1, e2, a.0, a.2, r1, r2);
    }
}

/// Authorizing the same external call twice gives the same answer, and the second
/// call records nothing new.
pub proof fn lemma_repeated_external_call_same_answer(
    e0: PolicyEngine,
    e1: PolicyEngine,
    e2: PolicyEngine,
    name: Seq<char>,
    r1: Result<(), PolicyDenied>,
    r2: Result<(), PolicyDenied>,
)
    requires
        authorized_external_call(e0, e1, name, r1),
        authorized_external_call(e1, e2, name, r2),
    ensures
        r1 is Ok <==> r2 is Ok,
        e2.cached() == e1.cached(),
{
    lemma_repeated_request_same_answer(e0, e1, e2, Action::ExtCall, name, r1, r2);
}

/// One authorization, of an OS call or of an external call, took the engine from
/// `pre` to `post`.
pub open spec fn authorization_step(pre: PolicyEngine, post: PolicyEngine) -> bool {
    ||| exists|call: OsFunctionCall, r: Result<(), PolicyDenied>| authorized_os_call(pre, post, call, r)
    ||| exists|name: Seq<char>, r: Result<(), PolicyDenied>| authorized_external_call(pre, post, name, r)
}

/// The states of one engine over a run of authorizations: each follows from the one
/// before by one authorization.
pub open spec fn is_run(run: Seq<PolicyEngine>) -> bool {
    forall|i: int, j: int|
        0 <= i && j == i + 1 && j < run.len() ==> #[trigger] authorization_step(run[i], run[j])
}

/// One authorization keeps the engine's configuration.
proof fn lemma_step_keeps_configuration(pre: PolicyEngine, post: PolicyEngine)
    requires
        authorization_step(pre, post),
    ensures
        post.same_configuration(pre),
{
    lemma_same_configuration_refl(pre);
    if exists|call: OsFunctionCall, r: Result<(), PolicyDenied>| authorized_os_call(pre, post, call, r) {
        let (call, r) = choose|call: OsFunctionCall, r: Result<(), PolicyDenied>|
            authorized_os_call(pre, post, call, r);
        assert(authorized_os_call(pre, post, call, r));
    } else {
        let (name, r) = choose|name: Seq<char>, r: Result<(), PolicyDenied>|
            authorized_external_call(pre, post, name, r);
        assert(authorized_external_call(pre, post, name, r));
    }
}

/// Every state of a run has the configuration of the first.
proof fn lemma_run_keeps_configuration(run: Seq<PolicyEngine>, k: int)
    requires
        is_run(run),
        0 <= k < run.len(),
    ensures
        run[k].same_configuration(run[0]),
    decreases k,
{
    if k == 0 {
        lemma_same_configuration_refl(run[0]);
    } else {
        lemma_run_keeps_configuration(run, k - 1);
        assert(authorization_step(run[k - 1], run[k]));
        lemma_step_keeps_configuration(run[k - 1], run[k]);
    }
}

/// Within a run of authorizations of one engine, a request made at step `i` and
/// again at a later step `j` gets the same answer, whatever was authorized in
/// between: a denial both times, of the same action and resource, or an allowance
/// both times.
pub proof fn lemma_request_answer_is_stable_in_run(
    run: Seq<PolicyEngine>,
    i: int,
    j: int,
    action: Action,
    resource: Seq<char>,
    ri: Result<(), PolicyDenied>,
    rj: Result<(), PolicyDenied>,
)
    requires
        is_run(run),
        0 <= i < j,
        j + 1 < run.len(),
        evaluated(run[i], run[i + 1], action, resource, ri),
        evaluated(run[j], run[j + 1], action, resource, rj),
    ensures
        ri is Ok <==> rj is Ok,
        ri matches Err(di) ==> rj matches Err(dj) && di.action@ == dj.action@ && di.resource@
            == dj.resource@,
{
    lemma_run_keeps_configuration(run, i);
    lemma_run_keeps_configuration(run, j);
}

/// Within a run of authorizations of one engine, an OS call authorized at step `i`
/// and again at a later step `j` gets the same answer, whatever was authorized in
/// between.
pub proof fn lemma_os_call_answer_is_stable_in_run(
    run: Seq<PolicyEngine>,
    i: int,
    j: int,
    call: OsFunctionCall,
    ri: Result<(), PolicyDenied>,
    rj: Result<(), PolicyDenied>,
)
    requires
        is_run(run),
        0 <= i < j,
        j + 1 < run.len(),
        authorized_os_call(run[i], run[i + 1], call, ri),
        authorized_os_call(run[j], run[j + 1], call, rj),
    ensures
        ri is Ok <==> rj is Ok,
        ri matches Err(di) ==> rj matches Err(dj) && di.action@ == dj.action@ && di.resource@
            == dj.resource@,
{
    if let Some(a) = authz_of(call) {
        lemma_request_answer_is_stable_in_run(run, i, j, a.0, a.2, ri, rj);
    }
}

/// Within a run of authorizations of one engine, a call of the external function
/// `name` authorized at step `i` and again at a later step `j` gets the same answer,
/// whatever was authorized in between.
pub proof fn lemma_external_call_answer_is_stable_in_run(
    run: Seq<PolicyEngine>,
    i: int,
    j: int,
    name: Seq<char>,
    ri: Result<(), PolicyDenied>,
    rj: Result<(), PolicyDenied>,
)
    requires
        is_run(run),
        0 <= i < j,
        j + 1 < run.len(),
        authorized_external_call(run[i], run[i + 1], name, ri),
        authorized_external_call(run[j], run[j + 1], name, rj),
    ensures
        ri is Ok <==> rj is Ok,
        ri matches Err(di) ==> rj matches Err(dj) && di.action@ == dj.action@ && di.resource@
            == dj.resource@,
{
    lemma_request_answer_is_stable_in_run(run, i, j, Action::ExtCall, name, ri, rj);
}

/// With no policies, the default decision decides every policy-gated OS call:
/// deny-by-default refuses all of them, allow-by-default allows all of them.
pub proof fn lemma_no_policies_os_call_follows_default(
    e0: PolicyEngine,
    e1: PolicyEngine,
    call: OsFunctionCall,
    r: Result<(), PolicyDenied>,
)
    requires
        e0.has_no_policies(),
        authorized_os_call(e0, e1, call, r),
        authz_of(call) is Some,
    ensures
        r is Err <==> e0.default_decision() == DefaultDecision::Deny,
{
}

/// With no policies, the default decision decides every external call.
pub proof fn lemma_no_policies_external_call_follows_default(
    e0: PolicyEngine,
    e1: PolicyEngine,
    name: Seq<char>,
    r: Result<(), PolicyDenied>,
)
    requires
        e0.has_no_policies(),
        authorized_external_call(e0, e1, name, r),
    ensures
        r is Err <==> e0.default_decision() == DefaultDecision::Deny,
{
}

/// Operations that are not policy-gated are allowed whatever the policies, and
/// leave the engine as it was.
pub proof fn lemma_ungated_calls_are_allowed(
    e0: PolicyEngine,
    e1: PolicyEngine,
    call: OsFunctionCall,
    r: Result<(), PolicyDenied>,
)
    requires
        authz_of(call) is None,
        authorized_os_call(e0, e1, call, r),
    ensures
        r is Ok,
        e1 == e0,
{
}

/// Authorizing never changes the engine's configuration and never forgets a
/// decision: every decision recorded before is still recorded, unchanged.
pub proof fn lemma_authorizing_keeps_configuration_and_decisions(
    e0: PolicyEngine,
    e1: PolicyEngine,
    call: OsFunctionCall,
    r: Result<(), PolicyDenied>,
)
    requires
        authorized_os_call(e0, e1, call, r),
    ensures
        e1.same_configuration(e0),
        e1.principal() == e0.principal(),
        e1.default_decision() == e0.default_decision(),
        e1.policies() == e0.policies(),
        e0.cached().submap_of(e1.cached()),
{
    lemma_same_configuration_refl(e0);
}

/// A denial names the action and the resource that were refused.
pub proof fn lemma_denial_names_request(
    e0: PolicyEngine,
    e1: PolicyEngine,
    call: OsFunctionCall,
    r: Result<(), PolicyDenied>,
)
    requires
        authorized_os_call(e0, e1, call, r),
        r is Err,
    ensures
        authz_of(call) is Some,
        r->Err_0.action@ == authz_of(call)->Some_0.0.spec_name(),
        r->Err_0.resource@ == authz_of(call)->Some_0.2,
{
}

/// Deny-by-default is at least as strict as allow-by-default: whatever Cedar's
/// outcome, a request denied under allow-by-default is denied under deny-by-default.
pub proof fn lemma_deny_default_is_stricter(outcome: CedarOutcome)
    ensures
        denies(DefaultDecision::Allow, outcome) ==> denies(DefaultDecision::Deny, outcome),
{
}

/// The two default decisions agree whenever Cedar decides for a reason: they differ
/// only on a denial that no policy caused.
pub proof fn lemma_defaults_agree_on_decided_requests(outcome: CedarOutcome)
    requires
        cedar_outcome_possible(outcome),
        outcome.has_reasons,
    ensures
        denies(DefaultDecision::Allow, outcome) == denies(DefaultDecision::Deny, outcome),
{
}

/// An answer taken from the cache is the answer the engine would give afresh: the
/// cache never changes a decision.
pub proof fn lemma_cached_answer_is_fresh_answer(
    e0: PolicyEngine,
    e1: PolicyEngine,
    action: Action,
    resource: Seq<char>,
    r: Result<(), PolicyDenied>,
)
    requires
        evaluated(e0, e1, action, resource, r),
        e0.cached().contains_key((action, resource)),
    ensures
        r is Err <==> e0.cached()[(action, resource)],
        e0.cached()[(action, resource)] == decision_for(e0, action, resource),
        e1.cached() == e0.cached(),
{
    assert(e1.cached() =~= e0.cached());
}

/// Under deny-by-default the engine denies exactly what Cedar denies; under
/// allow-by-default it denies exactly what Cedar denies for a reason, that is by a
/// matching `forbid`.
pub proof fn lemma_decision_follows_cedar(e: PolicyEngine, action: Action, resource: Seq<char>)
    ensures
        e.default_decision() == DefaultDecision::Deny ==> (decision_for(e, action, resource)
            <==> cedar_answer(e, action, resource).0),
        e.default_decision() == DefaultDecision::Allow ==> (decision_for(e, action, resource)
            <==> cedar_answer(e, action, resource).0 && cedar_answer(e, action, resource).1),
{
}

/// For the same principal and policies, an engine that denies by default denies
/// every request that an engine allowing by default denies.
pub proof fn lemma_deny_default_engine_is_stricter(
    allowing: PolicyEngine,
    denying: PolicyEngine,
    action: Action,
    resource: Seq<char>,
)
    requires
        allowing.principal() == denying.principal(),
        allowing.policies() == denying.policies(),
        allowing.default_decision() == DefaultDecision::Allow,
        denying.default_decision() == DefaultDecision::Deny,
    ensures
        decision_for(allowing, action, resource) ==> decision_for(denying, action, resource),
{
}

} // verus!
