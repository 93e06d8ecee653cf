//! From sandbox operations to Cedar authorization requests.
//!
//! Each [`OsFunctionCall`] is mapped to a Cedar action and a resource; informational
//! calls that carry no security implication are not policy-gated.

use vstd::prelude::*;


use crate::cedar::{
    empty_context, entities_from_pair, is_namespaced_name, is_plain_eid, is_uid_text,
    new_request, parse_entity_uid, CedarEntities, CedarEntity, CedarRequest, CedarUid, ParsedUid,
};
use crate::entities::{external_function_entity, id_attr, monty_type, resource_entity};
use crate::os_call::{
    FileMode, GetenvArgs, MkdirCallArgs, MontyPath, OpenCallArgs, OsFunctionCall, PathBytesDataArgs,
    PathStringDataArgs, RenameCallArgs,
};

verus! {

/// A Cedar action of the Monty schema.
#[derive(Debug, Clone, Copy, PartialEq, Eq)]
pub enum Action {
    /// `fs:read`: reading files, stat, resolve, absolute path.
    FsRead,
    /// `fs:write`: writing or appending to files, opening for writing.
    FsWrite,
    /// `fs:exists`: existence and file-type checks.
    FsExists,
    /// `fs:list`: directory listing.
    FsList,
    /// `fs:create`: creating directories.
    FsCreate,
    /// `fs:delete`: deleting files and directories.
    FsDelete,
    /// `fs:rename`: renaming or moving.
    FsRename,
    /// `env:read`: reading environment variables.
    EnvRead,
    /// `ext:call`: calling a host-registered external function.
    ExtCall,
}

/// The number of actions, which is the size of the decision cache's table.
pub const ACTION_COUNT: usize = 9;

impl Action {
    /// The action's name in the schema.
    pub open spec fn spec_name(self) -> Seq<char> {
        match self {
            Action::FsRead => "fs:read"@,
            Action::FsWrite => "fs:write"@,
            Action::FsExists => "fs:exists"@,
            Action::FsList => "fs:list"@,
            Action::FsCreate => "fs:create"@,
            Action::FsDelete => "fs:delete"@,
            Action::FsRename => "fs:rename"@,
            Action::EnvRead => "env:read"@,
            Action::ExtCall => "ext:call"@,
        }
    }

    /// The action's name in the schema, such as `fs:read`.
    pub fn name(&self) -> (s: &'static str)
        ensures
            s@ == self.spec_name(),
    {
        match self {
            Action::FsRead => "fs:read",
            Action::FsWrite => "fs:write",
            Action::FsExists => "fs:exists",
            Action::FsList => "fs:list",
            Action::FsCreate => "fs:create",
            Action::FsDelete => "fs:delete",
            Action::FsRename => "fs:rename",
            Action::EnvRead => "env:read",
            Action::ExtCall => "ext:call",
        }
    }

    /// The action's position among the actions, below [`ACTION_COUNT`].
    pub open spec fn spec_index(self) -> int {
        match self {
            Action::FsRead => 0,
            Action::FsWrite => 1,
            Action::FsExists => 2,
            Action::FsList => 3,
            Action::FsCreate => 4,
            Action::FsDelete => 5,
            Action::FsRename => 6,
            Action::EnvRead => 7,
            Action::ExtCall => 8,
        }
    }

    /// The action's position among the actions.
    pub fn index(&self) -> (i: usize)
        ensures
            i == self.spec_index(),
            i < ACTION_COUNT,
    {
        match self {
            Action::FsRead => 0,
            Action::FsWrite => 1,
            Action::FsExists => 2,
            Action::FsList => 3,
            Action::FsCreate => 4,
            Action::FsDelete => 5,
            Action::FsRename => 6,
            Action::EnvRead => 7,
            Action::ExtCall => 8,
        }
    }
}

/// The entity type of a resource.
#[derive(Debug, Clone, Copy, PartialEq, Eq)]
pub enum ResourceKind {
    /// `Monty::Path`, whose attribute `path` holds the path.
    Path,
    /// `Monty::EnvVar`, whose attribute `name` holds the variable's name.
    EnvVar,
    /// `Monty::ExternalFunction`, whose attribute `name` holds the function's name.
    ExternalFunction,
}

impl ResourceKind {
    /// The entity type's name within the `Monty` namespace.
    pub open spec fn spec_basename(self) -> Seq<char> {
        match self {
            ResourceKind::Path => "Path"@,
            ResourceKind::EnvVar => "EnvVar"@,
            ResourceKind::ExternalFunction => "ExternalFunction"@,
        }
    }

    /// The entity type's name within the `Monty` namespace, such as `Path`.
    pub fn basename(&self) -> (s: &'static str)
        ensures
            s@ == self.spec_basename(),
    {
        match self {
            ResourceKind::Path => "Path",
            ResourceKind::EnvVar => "EnvVar",
            ResourceKind::ExternalFunction => "ExternalFunction",
        }
    }

    /// The attribute that holds the resource's identifier, for policies to match on.
    pub open spec fn spec_attr(self) -> Seq<char> {
        match self {
            ResourceKind::Path => "path"@,
            ResourceKind::EnvVar => "name"@,
            ResourceKind::ExternalFunction => "name"@,
        }
    }

    /// The attribute that holds the resource's identifier: `path` or `name`.
    pub fn attr(&self) -> (s: &'static str)
        ensures
            s@ == self.spec_attr(),
    {
        match self {
            ResourceKind::Path => "path",
            ResourceKind::EnvVar => "name",
            ResourceKind::ExternalFunction => "name",
        }
    }
}

/// The resource that an operation touches: its entity type and its identifier.
#[derive(Debug, Clone)]
pub struct Resource {
    pub kind: ResourceKind,
    pub id: String,
}

/// The Cedar action and resource derived from a Monty operation.
#[derive(Debug, Clone)]
pub struct AuthzRequest {
    /// The Cedar action.
    pub action: Action,
    /// The resource the action is applied to.
    pub resource: Resource,
}

/// The resource id that `GetEnviron` is checked against: reading the whole
/// environment is told apart from reading one variable by a name that no operating
/// system accepts as a variable's name.
pub open spec fn all_env_vars() -> Seq<char> {
    "__all__"@
}

/// Whether opening a file in this mode may write to it. `r+` counts, since it
/// allows writing although it also reads.
pub open spec fn is_write_mode(mode: FileMode) -> bool {
    match mode {
        FileMode::Read(_) => false,
        FileMode::ReadUpdate(_) => true,
        FileMode::Write(_) => true,
        FileMode::WriteUpdate(_) => true,
        FileMode::Append(_) => true,
        FileMode::AppendUpdate(_) => true,
    }
}

/// The action, resource kind and resource id that an operation is checked
/// against, or `None` for operations that are not policy-gated.
pub open spec fn authz_of(call: OsFunctionCall) -> Option<(Action, ResourceKind, Seq<char>)> {
    match call {
        OsFunctionCall::ReadText(p) => Some((Action::FsRead, ResourceKind::Path, p@)),
        OsFunctionCall::ReadBytes(p) => Some((Action::FsRead, ResourceKind::Path, p@)),
        OsFunctionCall::Stat(p) => Some((Action::FsRead, ResourceKind::Path, p@)),
        OsFunctionCall::Resolve(p) => Some((Action::FsRead, ResourceKind::Path, p@)),
        OsFunctionCall::Absolute(p) => Some((Action::FsRead, ResourceKind::Path, p@)),
        OsFunctionCall::Exists(p) => Some((Action::FsExists, ResourceKind::Path, p@)),
        OsFunctionCall::IsFile(p) => Some((Action::FsExists, ResourceKind::Path, p@)),
        OsFunctionCall::IsDir(p) => Some((Action::FsExists, ResourceKind::Path, p@)),
        OsFunctionCall::IsSymlink(p) => Some((Action::FsExists, ResourceKind::Path, p@)),
        OsFunctionCall::WriteText(a) => Some((Action::FsWrite, ResourceKind::Path, a.path@)),
        OsFunctionCall::AppendText(a) => Some((Action::FsWrite, ResourceKind::Path, a.path@)),
        OsFunctionCall::WriteBytes(a) => Some((Action::FsWrite, ResourceKind::Path, a.path@)),
        OsFunctionCall::AppendBytes(a) => Some((Action::FsWrite, ResourceKind::Path, a.path@)),
        OsFunctionCall::Mkdir(a) => Some((Action::FsCreate, ResourceKind::Path, a.path@)),
        OsFunctionCall::Unlink(p) => Some((Action::FsDelete, ResourceKind::Path, p@)),
        OsFunctionCall::Rmdir(p) => Some((Action::FsDelete, ResourceKind::Path, p@)),
        OsFunctionCall::Iterdir(p) => Some((Action::FsList, ResourceKind::Path, p@)),
        OsFunctionCall::Rename(a) => Some((Action::FsRename, ResourceKind::Path, a.src@)),
        OsFunctionCall::Open(a) => Some(
            (
                if is_write_mode(a.mode) {
                    Action::FsWrite
                } else {
                    Action::FsRead
                },
                ResourceKind::Path,
                a.path@,
            ),
        ),
        OsFunctionCall::Getenv(a) => Some((Action::EnvRead, ResourceKind::EnvVar, a.key@)),
        OsFunctionCall::GetEnviron => Some((Action::EnvRead, ResourceKind::EnvVar, all_env_vars())),
        OsFunctionCall::DateToday => None,
        OsFunctionCall::DateTimeNow => None,
        OsFunctionCall::Used => None,
    }
}

/// Whether the request holds exactly the given action, kind and id.
pub open spec fn request_is(r: AuthzRequest, a: (Action, ResourceKind, Seq<char>)) -> bool {
    r.action == a.0 && r.resource.kind == a.1 && r.resource.id@ == a.2
}

/// A request on a path.
fn path_request(action: Action, path: &str) -> (r: AuthzRequest)
    ensures
        request_is(r, (action, ResourceKind::Path, path@)),
{
    AuthzRequest { action, resource: Resource { kind: ResourceKind::Path, id: path.to_owned() } }
}

/// Maps an [`OsFunctionCall`] to its Cedar action and resource.
///
/// Returns `None` for operations that are not policy-gated (`DateToday`,
/// `DateTimeNow`, and the never-dispatched `Used`): these are informational calls.
pub fn os_call_to_authz_request(call: &OsFunctionCall) -> (r: Option<AuthzRequest>)
    ensures
        r is Some <==> authz_of(*call) is Some,
        r matches Some(req) ==> request_is(req, authz_of(*call)->Some_0),
{
    match call {
        OsFunctionCall::ReadText(p) | OsFunctionCall::ReadBytes(p) | OsFunctionCall::Stat(p)
        | OsFunctionCall::Resolve(p) | OsFunctionCall::Absolute(p) => Some(
            path_request(Action::FsRead, p.as_str()),
        ),
        OsFunctionCall::Exists(p) | OsFunctionCall::IsFile(p) | OsFunctionCall::IsDir(p)
        | OsFunctionCall::IsSymlink(p) => Some(path_request(Action::FsExists, p.as_str())),
        OsFunctionCall::WriteText(a) | OsFunctionCall::AppendText(a) => Some(
            path_request(Action::FsWrite, a.path.as_str()),
        ),
        OsFunctionCall::WriteBytes(a) | OsFunctionCall::AppendBytes(a) => Some(
            path_request(Action::FsWrite, a.path.as_str()),
        ),
        OsFunctionCall::Mkdir(a) => Some(path_request(Action::FsCreate, a.path.as_str())),
        OsFunctionCall::Unlink(p) | OsFunctionCall::Rmdir(p) => Some(
            path_request(Action::FsDelete, p.as_str()),
        ),
        OsFunctionCall::Iterdir(p) => Some(path_request(Action::FsList, p.as_str())),
        OsFunctionCall::Rename(a) => Some(path_request(Action::FsRename, a.src.as_str())),
        OsFunctionCall::Open(a) => {
            let action = if open_mode_is_write(a.mode) {
                Action::FsWrite
            } else {
                Action::FsRead
            };
            Some(path_request(action, a.path.as_str()))
        },
        OsFunctionCall::Getenv(a) => Some(
            AuthzRequest {
                action: Action::EnvRead,
                resource: Resource { kind: ResourceKind::EnvVar, id: a.key.clone() },
            },
        ),
        OsFunctionCall::GetEnviron => Some(
            AuthzRequest {
                action: Action::EnvRead,
                resource: Resource { kind: ResourceKind::EnvVar, id: "__all__".to_owned() },
            },
        ),
        OsFunctionCall::DateToday | OsFunctionCall::DateTimeNow => None,
        OsFunctionCall::Used => None,
    }
}

/// Returns `true` if the file open mode implies a write operation.
///
/// `ReadUpdate` (`r+`) is included because it allows writing to the file even
/// though it also reads.
pub fn open_mode_is_write(mode: FileMode) -> (w: bool)
    ensures
        w == is_write_mode(mode),
{
    match mode {
        FileMode::ReadUpdate(_) | FileMode::Write(_) | FileMode::WriteUpdate(_)
        | FileMode::Append(_) | FileMode::AppendUpdate(_) => true,
        FileMode::Read(_) => false,
    }
}

/// The text of an action's uid: `Monty::Action::"<name>"`.
pub open spec fn action_uid_text(action: Action) -> Seq<char> {
    monty_type("Action"@) + "::\""@ + action.spec_name() + "\""@
}

/// Every action's name is an entity id that Cedar writes back unchanged.
proof fn lemma_action_name_is_plain(action: Action)
    ensures
        is_plain_eid(action.spec_name()),
{
    reveal_strlit("fs:read");
    reveal_strlit("fs:write");
    reveal_strlit("fs:exists");
    reveal_strlit("fs:list");
    reveal_strlit("fs:create");
    reveal_strlit("fs:delete");
    reveal_strlit("fs:rename");
    reveal_strlit("env:read");
    reveal_strlit("ext:call");
}

/// Creates the uid of an action, `Monty::Action::"<name>"`.
pub fn action_uid(action: Action) -> (u: ParsedUid)
    ensures
        u.text() == action_uid_text(action),
{
    let mut text = "Monty::Action::\"".to_owned();
    text.append(action.name());
    text.append("\"");
    proof {
        reveal_strlit("Monty::Action::\"");
        reveal_strlit("Monty");
        reveal_strlit("::");
        reveal_strlit("Action");
        reveal_strlit("::\"");
        reveal_strlit("\"");
        let ty = monty_type("Action"@);
        assert("Monty::Action::\""@ =~= ty + "::\""@);
        assert(text@ =~= ty + "::\""@ + action.spec_name() + "\""@);
        assert(crate::cedar::is_capitalized_ident("Monty"@));
        assert(crate::cedar::is_capitalized_ident("Action"@));
        assert(is_namespaced_name(ty));
        lemma_action_name_is_plain(action);
        assert(is_uid_text(text@));
    }
    let parsed = parse_entity_uid(text.as_str());
    parsed.unwrap()
}

/// Builds the Cedar request for an OS call: the principal, the call's action, and
/// the resource entity, which is returned beside the request.
pub fn build_os_call_request(principal: &CedarUid, authz: &AuthzRequest) -> (r: (CedarRequest, CedarEntity))
    ensures
        r.0.principal_type() == principal.entity_type(),
        r.0.principal_id() == principal.id(),
        r.0.action() == action_uid_text(authz.action),
        r.0.resource_type() == monty_type(authz.resource.kind.spec_basename()),
        r.0.resource_id() == authz.resource.id@,
        r.1.entity_type() == monty_type(authz.resource.kind.spec_basename()),
        r.1.id() == authz.resource.id@,
        r.1.attrs() == id_attr(authz.resource.kind.spec_attr(), authz.resource.id@),
{
    let resource = resource_entity(&authz.resource);
    let action = action_uid(authz.action);
    let request = new_request(principal, &action, resource.uid(), empty_context());
    (request.unwrap(), resource)
}

/// Builds the Cedar request for calling an external function, with the function's
/// entity, which is returned beside the request.
pub fn build_external_call_request(principal: &CedarUid, function_name: &str) -> (r: (
    CedarRequest,
    CedarEntity,
))
    ensures
        r.0.principal_type() == principal.entity_type(),
        r.0.principal_id() == principal.id(),
        r.0.action() == action_uid_text(Action::ExtCall),
        r.0.resource_type() == monty_type("ExternalFunction"@),
        r.0.resource_id() == function_name@,
        r.1.entity_type() == monty_type("ExternalFunction"@),
        r.1.id() == function_name@,
        r.1.attrs() == id_attr("name"@, function_name@),
{
    let resource = external_function_entity(function_name);
    let action = action_uid(Action::ExtCall);
    let request = new_request(principal, &action, resource.uid(), empty_context());
    (request.unwrap(), resource)
}

/// Builds the Cedar entity set that holds the principal and the resource.
pub fn build_entities(principal_entity: &CedarEntity, resource: &CedarEntity) -> (es: CedarEntities)
    requires
        principal_entity.entity_type() != resource.entity_type() || principal_entity.id()
            != resource.id(),
    ensures
        es.members() == seq![
            (principal_entity.entity_type(), principal_entity.id(), principal_entity.attrs()),
            (resource.entity_type(), resource.id(), resource.attrs()),
        ],
{
    let entities = entities_from_pair(principal_entity, resource);
    entities.unwrap()
}

/// The resource kind that the schema lets an action apply to: `Path` for the
/// filesystem actions, `EnvVar` for `env:read`, `ExternalFunction` for `ext:call`.
pub open spec fn applies_to(action: Action) -> ResourceKind {
    match action {
        Action::EnvRead => ResourceKind::EnvVar,
        Action::ExtCall => ResourceKind::ExternalFunction,
        _ => ResourceKind::Path,
    }
}

/// Only the date and time calls, and the placeholder that is never dispatched,
/// escape the policy: every other operation is policy-gated.
pub proof fn lemma_only_informational_calls_are_ungated(call: OsFunctionCall)
    ensures
        authz_of(call) is None <==> (call is DateToday || call is DateTimeNow || call is Used),
{
}

/// Every request built from an OS call fits the schema: its resource has the kind
/// that its action applies to, and no OS call is checked as `ext:call`.
pub proof fn lemma_os_call_requests_fit_schema(call: OsFunctionCall)
    requires
        authz_of(call) is Some,
    ensures
        authz_of(call)->Some_0.1 == applies_to(authz_of(call)->Some_0.0),
        authz_of(call)->Some_0.0 != Action::ExtCall,
{
}

/// Reading a file, its metadata or its resolved or absolute form is checked as
/// `fs:read` on that path.
pub proof fn lemma_read_calls_are_fs_read(p: MontyPath)
    ensures
        authz_of(OsFunctionCall::ReadText(p)) == Some((Action::FsRead, ResourceKind::Path, p@)),
        authz_of(OsFunctionCall::ReadBytes(p)) == Some((Action::FsRead, ResourceKind::Path, p@)),
        authz_of(OsFunctionCall::Stat(p)) == Some((Action::FsRead, ResourceKind::Path, p@)),
        authz_of(OsFunctionCall::Resolve(p)) == Some((Action::FsRead, ResourceKind::Path, p@)),
        authz_of(OsFunctionCall::Absolute(p)) == Some((Action::FsRead, ResourceKind::Path, p@)),
{
}

/// Existence and file-type checks are checked as `fs:exists` on the path.
pub proof fn lemma_existence_checks_are_fs_exists(p: MontyPath)
    ensures
        authz_of(OsFunctionCall::Exists(p)) == Some((Action::FsExists, ResourceKind::Path, p@)),
        authz_of(OsFunctionCall::IsFile(p)) == Some((Action::FsExists, ResourceKind::Path, p@)),
        authz_of(OsFunctionCall::IsDir(p)) == Some((Action::FsExists, ResourceKind::Path, p@)),
        authz_of(OsFunctionCall::IsSymlink(p)) == Some((Action::FsExists, ResourceKind::Path, p@)),
{
}

/// Writing or appending text or bytes is checked as `fs:write` on the written path,
/// whatever the data, empty or not.
pub proof fn lemma_writes_are_fs_write_whatever_the_data(t: PathStringDataArgs, b: PathBytesDataArgs)
    ensures
        authz_of(OsFunctionCall::WriteText(t)) == Some((Action::FsWrite, ResourceKind::Path, t.path@)),
        authz_of(OsFunctionCall::AppendText(t)) == Some((Action::FsWrite, ResourceKind::Path, t.path@)),
        authz_of(OsFunctionCall::WriteBytes(b)) == Some((Action::FsWrite, ResourceKind::Path, b.path@)),
        authz_of(OsFunctionCall::AppendBytes(b)) == Some((Action::FsWrite, ResourceKind::Path, b.path@)),
{
}

/// Creating a directory is checked as `fs:create` on its path, whatever its
/// `parents` and `exist_ok` flags.
pub proof fn lemma_mkdir_is_fs_create_whatever_the_flags(a: MkdirCallArgs)
    ensures
        authz_of(OsFunctionCall::Mkdir(a)) == Some((Action::FsCreate, ResourceKind::Path, a.path@)),
{
}

/// Deleting a file or a directory is checked as `fs:delete`, and listing a directory
/// as `fs:list`, on the path.
pub proof fn lemma_delete_and_list_calls(p: MontyPath)
    ensures
        authz_of(OsFunctionCall::Unlink(p)) == Some((Action::FsDelete, ResourceKind::Path, p@)),
        authz_of(OsFunctionCall::Rmdir(p)) == Some((Action::FsDelete, ResourceKind::Path, p@)),
        authz_of(OsFunctionCall::Iterdir(p)) == Some((Action::FsList, ResourceKind::Path, p@)),
{
}

/// A rename is checked as `fs:rename` on its source path; the destination plays no
/// part, so two renames of one source are checked alike wherever they move it.
pub proof fn lemma_rename_is_checked_on_the_source(a: RenameCallArgs, b: RenameCallArgs)
    ensures
        authz_of(OsFunctionCall::Rename(a)) == Some((Action::FsRename, ResourceKind::Path, a.src@)),
        a.src@ == b.src@ ==> authz_of(OsFunctionCall::Rename(a)) == authz_of(OsFunctionCall::Rename(b)),
{
}

/// Reading one environment variable is checked as `env:read` on the variable whose
/// name is the key, whatever characters the key holds; reading the whole
/// environment is checked on `__all__`.
pub proof fn lemma_getenv_is_checked_on_the_key(a: GetenvArgs)
    ensures
        authz_of(OsFunctionCall::Getenv(a)) == Some((Action::EnvRead, ResourceKind::EnvVar, a.key@)),
        authz_of(OsFunctionCall::GetEnviron) == Some(
            (Action::EnvRead, ResourceKind::EnvVar, "__all__"@),
        ),
{
}

/// Opening a file is checked on the opened path, as `fs:write` when the mode may
/// write and as `fs:read` otherwise.
pub proof fn lemma_open_action_follows_mode(args: OpenCallArgs)
    ensures
        authz_of(OsFunctionCall::Open(args)) == Some(
            (
                if is_write_mode(args.mode) {
                    Action::FsWrite
                } else {
                    Action::FsRead
                },
                ResourceKind::Path,
                args.path@,
            ),
        ),
        is_write_mode(args.mode) <==> !(args.mode is Read),
{
}

} // verus!
