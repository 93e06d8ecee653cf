//! The calls into the Cedar crate, and the facts about them that the engine relies on.
//!
//! Every item of this module that makes a Cedar call is trusted: Verus believes its
//! contract without proof. The contracts state only what Cedar's source shows.
//! Cedar's own values are opaque to Verus; the library records next to them, as
//! plain values, the texts, type names, ids and attributes that it handed to Cedar,
//! so that contracts can speak of them. Only the trusted items of this module build
//! these records, each from the very values it passes to Cedar.

use std::collections::{HashMap, HashSet};
use std::str::FromStr;

use cedar_policy::entities_errors::EntitiesError;
use cedar_policy::{
    Authorizer, CedarSchemaError, Context, Decision, Entities, Entity, EntityAttrEvaluationError,
    EntityId, EntityTypeName, EntityUid, ParseErrors, PolicySet, Request,
    RequestValidationError, RestrictedExpression, Schema, ValidationError, ValidationMode, Validator,
};
use vstd::prelude::*;

verus! {

#[verifier::external_type_specification]
#[verifier::external_body]
pub struct ExAuthorizer(Authorizer);

#[verifier::external_type_specification]
#[verifier::external_body]
pub struct ExPolicySet(PolicySet);

#[verifier::external_type_specification]
#[verifier::external_body]
pub struct ExSchema(Schema);

#[verifier::external_type_specification]
#[verifier::external_body]
pub struct ExValidator(Validator);

#[verifier::external_type_specification]
#[verifier::external_body]
pub struct ExEntityTypeName(EntityTypeName);

#[verifier::external_type_specification]
#[verifier::external_body]
pub struct ExEntityUid(EntityUid);

#[verifier::external_type_specification]
#[verifier::external_body]
pub struct ExEntity(Entity);

#[verifier::external_type_specification]
#[verifier::external_body]
pub struct ExEntities(Entities);

#[verifier::external_type_specification]
#[verifier::external_body]
pub struct ExContext(Context);

#[verifier::external_type_specification]
#[verifier::external_body]
pub struct ExRequest(Request);

#[verifier::external_type_specification]
#[verifier::external_body]
pub struct ExParseErrors(ParseErrors);

#[verifier::external_type_specification]
#[verifier::external_body]
pub struct ExCedarSchemaError(CedarSchemaError);

#[verifier::external_type_specification]
#[verifier::external_body]
pub struct ExEntityAttrEvaluationError(EntityAttrEvaluationError);

#[verifier::external_type_specification]
#[verifier::external_body]
pub struct ExEntitiesError(EntitiesError);

#[verifier::external_type_specification]
#[verifier::external_body]
pub struct ExRequestValidationError(RequestValidationError);

// ---------------------------------------------------------------------------
// Cedar's syntax for names and entity uids, as far as the engine needs it
// ---------------------------------------------------------------------------

/// A character that may appear in a Cedar identifier.
pub open spec fn is_ident_char(c: char) -> bool {
    ('a' <= c && c <= 'z') || ('A' <= c && c <= 'Z') || ('0' <= c && c <= '9') || c == '_'
}

/// An identifier that starts with an upper-case ASCII letter. Cedar's reserved
/// identifiers (`true`, `if`, `__cedar`, ...) all start otherwise, so every such
/// identifier is a valid one.
pub open spec fn is_capitalized_ident(s: Seq<char>) -> bool {
    &&& s.len() > 0
    &&& 'A' <= s[0] && s[0] <= 'Z'
    &&& forall|i: int| 0 <= i < s.len() ==> is_ident_char(#[trigger] s[i])
}

/// A name of the form `Namespace::Base`, both parts capitalized identifiers.
pub open spec fn is_namespaced_name(s: Seq<char>) -> bool {
    exists|ns: Seq<char>, base: Seq<char>|
        s == ns + "::"@ + base && is_capitalized_ident(ns) && is_capitalized_ident(base)
}

/// An entity id that Cedar writes back unchanged: printable ASCII without quotes
/// or backslashes.
pub open spec fn is_plain_eid(s: Seq<char>) -> bool {
    forall|i: int|
        0 <= i < s.len() ==> {
            let c = #[trigger] s[i];
            ' ' <= c && c <= '~' && c != '"' && c != '\'' && c != '\\'
        }
}

/// The normalized text of an entity uid, `Namespace::Base::"id"`.
pub open spec fn is_uid_text(s: Seq<char>) -> bool {
    exists|ty: Seq<char>, eid: Seq<char>|
        s == ty + "::\""@ + eid + "\""@ && is_namespaced_name(ty) && is_plain_eid(eid)
}

// ---------------------------------------------------------------------------
// Names for results that only Cedar computes
// ---------------------------------------------------------------------------

/// Whether Cedar accepts the text as a schema in its human-readable format.
pub uninterp spec fn cedar_schema_accepts(src: Seq<char>) -> bool;

/// Whether Cedar accepts the text as a set of policies.
pub uninterp spec fn cedar_policies_accept(text: Seq<char>) -> bool;

/// Whether Cedar's validator, in its default mode, finds in the policies parsed from
/// `policy_text` an entity type or an action that the schema parsed from
/// `schema_src` does not define.
pub uninterp spec fn cedar_policies_name_undefined(schema_src: Seq<char>, policy_text: Seq<char>) -> bool;

/// The text of the errors that Cedar reports, through their `Display`, when it
/// refuses the text as a set of policies.
pub uninterp spec fn cedar_policy_parse_error_text(text: Seq<char>) -> Seq<char>;

/// What Cedar's authorizer answers, with the default configuration, for the policies
/// parsed from `policies`, a request of `principal` (type and id) doing the action
/// whose uid has the text `action` on `resource` (type and id) with an empty
/// context, and the entity set `entities` (type, id and string attributes of each
/// entity, none with parents): whether it denies, and whether it names a reason.
pub uninterp spec fn cedar_response(
    policies: Seq<char>,
    principal: (Seq<char>, Seq<char>),
    action: Seq<char>,
    resource: (Seq<char>, Seq<char>),
    entities: Seq<(Seq<char>, Seq<char>, Seq<(Seq<char>, Seq<char>)>)>,
) -> (bool, bool);

// ---------------------------------------------------------------------------
// The library's records of what it handed to Cedar
// ---------------------------------------------------------------------------

/// A parsed schema, with the text it was parsed from.
pub struct CedarSchema {
    schema: Schema,
    src: String,
}

impl CedarSchema {
    /// The text the schema was parsed from.
    pub closed spec fn src(self) -> Seq<char> {
        self.src@
    }
}

/// A parsed policy set, with the text it was parsed from and whether it holds
/// neither a policy nor a template.
pub struct CedarPolicies {
    set: PolicySet,
    src: String,
    empty: bool,
}

impl CedarPolicies {
    /// The text the policy set was parsed from.
    pub closed spec fn src(self) -> Seq<char> {
        self.src@
    }

    /// Whether the policy set holds neither a policy nor a template.
    pub closed spec fn is_empty(self) -> bool {
        self.empty
    }
}

/// The errors with which Cedar refused a text as a policy set, with that text.
pub struct PolicyParseFailure {
    errors: ParseErrors,
    src: String,
}

impl PolicyParseFailure {
    /// The text that Cedar refused.
    pub closed spec fn src(self) -> Seq<char> {
        self.src@
    }
}

/// A validator, with the text of the schema it validates against.
pub struct CedarValidator {
    validator: Validator,
    schema_src: String,
}

impl CedarValidator {
    /// The text of the validator's schema.
    pub closed spec fn schema_src(self) -> Seq<char> {
        self.schema_src@
    }
}

/// What the engine reads of one error of a validation: whether it is about an
/// entity type or an action that the schema does not define, and Cedar's text of it.
pub struct ValidationIssue {
    pub undefined_name: bool,
    pub message: String,
}

/// The view of a list of validation errors.
pub open spec fn issues_view(issues: Seq<ValidationIssue>) -> Seq<(bool, Seq<char>)> {
    issues.map_values(|i: ValidationIssue| (i.undefined_name, i.message@))
}

/// Whether some validation error is about an entity type or an action that the
/// schema does not define.
pub open spec fn names_undefined(errors: Seq<(bool, Seq<char>)>) -> bool {
    exists|k: int| 0 <= k < errors.len() && errors[k].0
}

/// A parsed entity type name, with the text it was parsed from.
pub struct TypeName {
    name: EntityTypeName,
    text: String,
}

impl TypeName {
    /// The text the type name was parsed from.
    pub closed spec fn text(self) -> Seq<char> {
        self.text@
    }
}

/// A Cedar entity uid, with the type name and id it was built from.
pub struct CedarUid {
    uid: EntityUid,
    entity_type: String,
    id: String,
}

impl CedarUid {
    /// The text of the uid's entity type, such as `Monty::Path`.
    pub closed spec fn entity_type(self) -> Seq<char> {
        self.entity_type@
    }

    /// The uid's entity id.
    pub closed spec fn id(self) -> Seq<char> {
        self.id@
    }

    /// The Cedar uid the record holds.
    pub closed spec fn entity_uid(self) -> EntityUid {
        self.uid
    }

    /// The Cedar uid itself.
    pub fn uid(&self) -> (u: &EntityUid)
        ensures
            *u == self.entity_uid(),
    {
        &self.uid
    }
}

/// A Cedar entity without parents, with its uid and the string attributes it was
/// built with.
pub struct CedarEntity {
    entity: Entity,
    uid: CedarUid,
    attrs: Vec<(String, String)>,
}

/// The view of a list of string attributes.
pub open spec fn attrs_view(attrs: Seq<(String, String)>) -> Seq<(Seq<char>, Seq<char>)> {
    attrs.map_values(|a: (String, String)| (a.0@, a.1@))
}

impl CedarEntity {
    /// The type name of the entity's uid.
    pub closed spec fn entity_type(self) -> Seq<char> {
        self.uid.entity_type@
    }

    /// The id of the entity's uid.
    pub closed spec fn id(self) -> Seq<char> {
        self.uid.id@
    }

    /// The entity's attributes, names and string values.
    pub closed spec fn attrs(self) -> Seq<(Seq<char>, Seq<char>)> {
        attrs_view(self.attrs@)
    }

    /// The entity's uid.
    pub fn uid(&self) -> (u: &CedarUid)
        ensures
            u.entity_type() == self.entity_type(),
            u.id() == self.id(),
    {
        &self.uid
    }
}

/// A Cedar entity uid parsed from its text, with that text.
pub struct ParsedUid {
    uid: EntityUid,
    text: String,
}

impl ParsedUid {
    /// The text the uid was parsed from.
    pub closed spec fn text(self) -> Seq<char> {
        self.text@
    }
}

/// A Cedar request, with the principal's and the resource's type and id and the
/// text of the action's uid that it was built from.
pub struct CedarRequest {
    request: Request,
    principal_type: String,
    principal_id: String,
    action: String,
    resource_type: String,
    resource_id: String,
}

impl CedarRequest {
    /// The type of the request's principal.
    pub closed spec fn principal_type(self) -> Seq<char> {
        self.principal_type@
    }

    /// The id of the request's principal.
    pub closed spec fn principal_id(self) -> Seq<char> {
        self.principal_id@
    }

    /// The text of the uid of the request's action.
    pub closed spec fn action(self) -> Seq<char> {
        self.action@
    }

    /// The type of the request's resource.
    pub closed spec fn resource_type(self) -> Seq<char> {
        self.resource_type@
    }

    /// The id of the request's resource.
    pub closed spec fn resource_id(self) -> Seq<char> {
        self.resource_id@
    }
}

/// A Cedar entity set, with the type, id and attributes of each entity it was
/// built from.
pub struct CedarEntities {
    entities: Entities,
    members: Vec<(String, String, Vec<(String, String)>)>,
}

impl CedarEntities {
    /// The type, id and attributes of each entity of the set, in the order they
    /// were given.
    pub closed spec fn members(self) -> Seq<(Seq<char>, Seq<char>, Seq<(Seq<char>, Seq<char>)>)> {
        self.members@.map_values(
            |m: (String, String, Vec<(String, String)>)| (m.0@, m.1@, attrs_view(m.2@)),
        )
    }
}

/// A Cedar context. The only way to build one is [`empty_context`], so every
/// context is empty.
pub struct CedarContext {
    context: Context,
}

/// A Cedar decision.
#[derive(Debug, Clone, Copy, PartialEq, Eq)]
pub enum AuthzDecision {
    Allow,
    Deny,
}

/// What the engine reads of Cedar's response: the decision, and whether Cedar
/// named any policy as a reason for it.
#[derive(Debug, Clone, Copy, PartialEq, Eq)]
pub struct CedarOutcome {
    pub decision: AuthzDecision,
    pub has_reasons: bool,
}

// ---------------------------------------------------------------------------
// Trusted calls
// ---------------------------------------------------------------------------

/// Calls `EntityTypeName::from_str`. Claims that a name `Namespace::Base` of two
/// capitalized identifiers parses (it matches Cedar's name pattern and uses no
/// reserved identifier), and records the parsed text.
#[verifier::external_body]
pub(crate) fn parse_entity_type(s: &str) -> (r: Result<TypeName, ParseErrors>)
    ensures
        is_namespaced_name(s@) ==> r is Ok,
        r matches Ok(t) ==> t.text() == s@,
{
    EntityTypeName::from_str(s).map(|name| TypeName { name, text: s.to_owned() })
}

/// Calls `EntityUid::from_type_name_and_id`, which cannot fail, with the id
/// converted by `EntityId::new`. Records the type name's text and the id.
#[verifier::external_body]
pub(crate) fn uid_from_type_and_id(entity_type: &TypeName, id: &str) -> (u: CedarUid)
    ensures
        u.entity_type() == entity_type.text(),
        u.id() == id@,
{
    let uid = EntityUid::from_type_name_and_id(entity_type.name.clone(), EntityId::new(id));
    CedarUid { uid, entity_type: entity_type.text.clone(), id: id.to_owned() }
}

/// Calls `EntityUid::from_str`. Claims that normalized uid text `Namespace::Base::"id"`
/// with a plain id parses: Cedar splits it at the first `::"` and accepts it when the
/// type is a valid name and the id is unchanged by escaping.
#[verifier::external_body]
pub(crate) fn parse_entity_uid(s: &str) -> (r: Result<ParsedUid, ParseErrors>)
    ensures
        is_uid_text(s@) ==> r is Ok,
        r matches Ok(u) ==> u.text() == s@,
{
    EntityUid::from_str(s).map(|uid| ParsedUid { uid, text: s.to_owned() })
}

/// Calls `Entity::new` with no parents and the given string attributes, each value
/// converted by `RestrictedExpression::new_string`. Claims success: Cedar fails
/// only when an attribute cannot be evaluated, and a string literal always can.
#[verifier::external_body]
pub(crate) fn new_entity(uid: CedarUid, attrs: Vec<(String, String)>) -> (r: Result<
    CedarEntity,
    EntityAttrEvaluationError,
>)
    ensures
        r is Ok,
        r matches Ok(e) ==> e.entity_type() == uid.entity_type() && e.id() == uid.id() && e.attrs()
            == attrs_view(attrs@),
{
    let map: HashMap<String, RestrictedExpression> = attrs.iter().map(
        |(k, v)| (k.clone(), RestrictedExpression::new_string(v.clone())),
    ).collect();
    Entity::new(uid.uid.clone(), map, HashSet::new()).map(|entity| CedarEntity { entity, uid, attrs })
}

/// Calls `Entity::new_no_attrs` with no parents; it cannot fail.
#[verifier::external_body]
pub(crate) fn new_entity_no_attrs(uid: CedarUid) -> (e: CedarEntity)
    ensures
        e.entity_type() == uid.entity_type(),
        e.id() == uid.id(),
        e.attrs() == Seq::<(Seq<char>, Seq<char>)>::empty(),
{
    CedarEntity { entity: Entity::new_no_attrs(uid.uid.clone(), HashSet::new()), uid, attrs: Vec::new() }
}

/// Calls `Entities::from_entities` on the two entities, without a schema, and
/// records their types, ids and attributes. Without a schema Cedar adds no entity
/// of its own, so the set holds exactly these two. Claims success when their uids
/// differ: without a schema Cedar refuses only two different entities with one uid
/// or a parent hierarchy with a cycle, and these entities have no parents.
#[verifier::external_body]
pub(crate) fn entities_from_pair(first: &CedarEntity, second: &CedarEntity) -> (r: Result<
    CedarEntities,
    EntitiesError,
>)
    ensures
        first.entity_type() != second.entity_type() || first.id() != second.id() ==> r is Ok,
        r matches Ok(es) ==> es.members() == seq![
            (first.entity_type(), first.id(), first.attrs()),
            (second.entity_type(), second.id(), second.attrs()),
        ],
{
    let members = vec![
        (first.uid.entity_type.clone(), first.uid.id.clone(), first.attrs.clone()),
        (second.uid.entity_type.clone(), second.uid.id.clone(), second.attrs.clone()),
    ];
    Entities::from_entities([first.entity.clone(), second.entity.clone()], None)
        .map(|entities| CedarEntities { entities, members })
}

/// Calls `Context::empty`.
#[verifier::external_body]
pub(crate) fn empty_context() -> CedarContext {
    CedarContext { context: Context::empty() }
}

/// Calls `Request::new` without a schema and records the uids' parts. Claims
/// success: Cedar validates a request only against a schema that it is given.
#[verifier::external_body]
pub(crate) fn new_request(
    principal: &CedarUid,
    action: &ParsedUid,
    resource: &CedarUid,
    context: CedarContext,
) -> (r: Result<CedarRequest, RequestValidationError>)
    ensures
        r is Ok,
        r matches Ok(q) ==> {
            &&& q.principal_type() == principal.entity_type()
            &&& q.principal_id() == principal.id()
            &&& q.action() == action.text()
            &&& q.resource_type() == resource.entity_type()
            &&& q.resource_id() == resource.id()
        },
{
    Request::new(principal.uid.clone(), action.uid.clone(), resource.uid.clone(), context.context, None).map(
        |request| CedarRequest {
            request,
            principal_type: principal.entity_type.clone(),
            principal_id: principal.id.clone(),
            action: action.text.clone(),
            resource_type: resource.entity_type.clone(),
            resource_id: resource.id.clone(),
        },
    )
}

/// Calls `Schema::from_cedarschema_str`, keeping the schema and dropping the
/// warnings, and records the text. Whether Cedar accepts the text is named.
#[verifier::external_body]
pub(crate) fn schema_from_cedarschema_str(src: &str) -> (r: Result<CedarSchema, CedarSchemaError>)
    ensures
        r is Ok <==> cedar_schema_accepts(src@),
        r matches Ok(s) ==> s.src() == src@,
{
    Schema::from_cedarschema_str(src).map(|(schema, _warnings)| CedarSchema { schema, src: src.to_owned() })
}

/// Calls `PolicySet::from_str`, and records the text beside the set, or beside the
/// errors, and whether the set is empty (`PolicySet::is_empty`). Whether Cedar
/// accepts the text is named; of the empty text it is stated that it gives the
/// empty set.
#[verifier::external_body]
pub(crate) fn policy_set_from_str(text: &str) -> (r: Result<CedarPolicies, PolicyParseFailure>)
    ensures
        r is Ok <==> cedar_policies_accept(text@),
        r matches Ok(p) ==> p.src() == text@,
        r matches Err(f) ==> f.src() == text@,
        text@.len() == 0 ==> r is Ok && r->Ok_0.is_empty(),
{
    match PolicySet::from_str(text) {
        Ok(set) => Ok(CedarPolicies { empty: set.is_empty(), set, src: text.to_owned() }),
        Err(errors) => Err(PolicyParseFailure { errors, src: text.to_owned() }),
    }
}

/// Calls `Validator::new` on a copy of the schema; it cannot fail.
#[verifier::external_body]
pub(crate) fn new_validator(schema: &CedarSchema) -> (v: CedarValidator)
    ensures
        v.schema_src() == schema.src(),
{
    CedarValidator { validator: Validator::new(schema.schema.clone()), schema_src: schema.src.clone() }
}

/// Calls `Validator::validate` in Cedar's default mode and reads each error it
/// reports: whether it is `UnrecognizedEntityType` or `UnrecognizedActionId`, and its
/// text (`Display`). Whether some error is about an undefined entity type or action
/// is named; of a set with no policies it is stated that there is no error, as
/// there is nothing to find an error in. The order of the errors and their texts
/// are not stated: the validator builds some of them, such as the suggestions of
/// names, by walking its hash maps.
#[verifier::external_body]
pub(crate) fn validate_policies(validator: &CedarValidator, policies: &CedarPolicies) -> (v: Vec<
    ValidationIssue,
>)
    ensures
        names_undefined(issues_view(v@)) == cedar_policies_name_undefined(
            validator.schema_src(),
            policies.src(),
        ),
        policies.is_empty() ==> v@.len() == 0,
{
    let result = validator.validator.validate(&policies.set, ValidationMode::default());
    result.validation_errors().map(|e| {
        let undefined_name = match e {
            ValidationError::UnrecognizedEntityType(_) => true,
            ValidationError::UnrecognizedActionId(_) => true,
            _ => false,
        };
        ValidationIssue { undefined_name, message: e.to_string() }
    }).collect()
}

/// Calls `Authorizer::new`.
#[verifier::external_body]
pub(crate) fn new_authorizer() -> Authorizer {
    Authorizer::new()
}

/// Calls `Authorizer::is_authorized` and reads the decision and whether the
/// diagnostics name a reason. The answer is named: Cedar's evaluation is a function
/// of the policies, the request and the entities, each of which is determined by
/// what its record holds: the policy set by the text it was parsed from, the
/// request by its uids (an authorizer is only ever built with the default
/// configuration, and a context is always empty), and the entity set by its members
/// (it is only ever built without a schema, so Cedar adds no entity to it). Beside
/// the name, it claims what Cedar's semantics give: `Allow` needs a satisfied permit
/// policy, which is then a reason; with no policy or template at all the decision is
/// `Deny` with no reason.
#[verifier::external_body]
pub(crate) fn is_authorized(
    authorizer: &Authorizer,
    request: &CedarRequest,
    policies: &CedarPolicies,
    entities: &CedarEntities,
) -> (o: CedarOutcome)
    ensures
        (o.decision == AuthzDecision::Deny, o.has_reasons) == cedar_response(
            policies.src(),
            (request.principal_type(), request.principal_id()),
            request.action(),
            (request.resource_type(), request.resource_id()),
            entities.members(),
        ),
        o.decision == AuthzDecision::Allow ==> o.has_reasons,
        policies.is_empty() ==> o.decision == AuthzDecision::Deny && !o.has_reasons,
{
    let response = authorizer.is_authorized(&request.request, &policies.set, &entities.entities);
    let decision = match response.decision() {
        Decision::Allow => AuthzDecision::Allow,
        Decision::Deny => AuthzDecision::Deny,
    };
    let has_reasons = response.diagnostics().reason().next().is_some();
    CedarOutcome { decision, has_reasons }
}

/// Calls `Display` on the errors with which Cedar refused a policy text. The text
/// is named as a function of the refused policy text: parsing is deterministic,
/// and so is the rendering of its errors.
#[verifier::external_body]
pub(crate) fn parse_errors_text(f: &PolicyParseFailure) -> (s: String)
    ensures
        s@ == cedar_policy_parse_error_text(f.src()),
{
    f.errors.to_string()
}

/// Calls `Display` on Cedar's schema error. Nothing is stated of the text.
#[verifier::external_body]
pub(crate) fn schema_error_text(e: &CedarSchemaError) -> String {
    e.to_string()
}

} // verus!
