//! The Cedar entities of a request: the principal (the script) and the resource
//! (a path, an environment variable or an external function).

use vstd::prelude::*;

use crate::cedar::{
    attrs_view, is_capitalized_ident, is_namespaced_name, new_entity, new_entity_no_attrs,
    parse_entity_type, uid_from_type_and_id, CedarEntity, CedarUid, TypeName,
};
use crate::request::{Resource, ResourceKind};

verus! {

/// The text of the entity type `Monty::<basename>`.
pub open spec fn monty_type(basename: Seq<char>) -> Seq<char> {
    "Monty"@ + "::"@ + basename
}

/// The single attribute of a resource entity: its identifier under the given name.
pub open spec fn id_attr(attr: Seq<char>, id: Seq<char>) -> Seq<(Seq<char>, Seq<char>)> {
    seq![(attr, id)]
}

/// The entity type `Monty::<basename>`.
fn entity_type(basename: &str) -> (t: TypeName)
    requires
        is_capitalized_ident(basename@),
    ensures
        t.text() == monty_type(basename@),
{
    let mut text = "Monty".to_owned();
    text.append("::");
    text.append(basename);
    proof {
        reveal_strlit("Monty");
        assert(is_capitalized_ident("Monty"@));
        assert(is_namespaced_name(text@));
    }
    let parsed = parse_entity_type(text.as_str());
    parsed.unwrap()
}

/// Creates the uid `Monty::Script::"<name>"` of the principal.
pub fn script_uid(name: &str) -> (u: CedarUid)
    ensures
        u.entity_type() == monty_type("Script"@),
        u.id() == name@,
{
    proof {
        reveal_strlit("Script");
    }
    uid_from_type_and_id(&entity_type("Script"), name)
}

/// Creates the principal entity `Monty::Script::"<name>"`, which has no attributes.
pub fn script_entity(name: &str) -> (e: CedarEntity)
    ensures
        e.entity_type() == monty_type("Script"@),
        e.id() == name@,
        e.attrs() == Seq::<(Seq<char>, Seq<char>)>::empty(),
{
    new_entity_no_attrs(script_uid(name))
}

/// Creates the entity `Monty::<basename>::"<id>"` whose attribute `attr` holds the id.
fn entity_with_id_attr(basename: &str, id: &str, attr: &str) -> (e: CedarEntity)
    requires
        is_capitalized_ident(basename@),
    ensures
        e.entity_type() == monty_type(basename@),
        e.id() == id@,
        e.attrs() == id_attr(attr@, id@),
{
    let uid = uid_from_type_and_id(&entity_type(basename), id);
    let mut attrs: Vec<(String, String)> = Vec::new();
    attrs.push((attr.to_owned(), id.to_owned()));
    assert(attrs_view(attrs@) =~= id_attr(attr@, id@));
    let built = new_entity(uid, attrs);
    built.unwrap()
}

/// Creates the entity of a filesystem path, `Monty::Path`, with attribute `path`.
pub fn path_entity(path: &str) -> (e: CedarEntity)
    ensures
        e.entity_type() == monty_type("Path"@),
        e.id() == path@,
        e.attrs() == id_attr("path"@, path@),
{
    proof {
        reveal_strlit("Path");
    }
    entity_with_id_attr("Path", path, "path")
}

/// Creates the entity of an environment variable, `Monty::EnvVar`, with attribute `name`.
pub fn env_var_entity(name: &str) -> (e: CedarEntity)
    ensures
        e.entity_type() == monty_type("EnvVar"@),
        e.id() == name@,
        e.attrs() == id_attr("name"@, name@),
{
    proof {
        reveal_strlit("EnvVar");
    }
    entity_with_id_attr("EnvVar", name, "name")
}

/// Creates the entity of an external function, `Monty::ExternalFunction`, with
/// attribute `name`.
pub fn external_function_entity(name: &str) -> (e: CedarEntity)
    ensures
        e.entity_type() == monty_type("ExternalFunction"@),
        e.id() == name@,
        e.attrs() == id_attr("name"@, name@),
{
    proof {
        reveal_strlit("ExternalFunction");
    }
    entity_with_id_attr("ExternalFunction", name, "name")
}

/// Creates the entity of a resource, according to its kind.
pub fn resource_entity(resource: &Resource) -> (e: CedarEntity)
    ensures
        e.entity_type() == monty_type(resource.kind.spec_basename()),
        e.id() == resource.id@,
        e.attrs() == id_attr(resource.kind.spec_attr(), resource.id@),
{
    match resource.kind {
        ResourceKind::Path => path_entity(resource.id.as_str()),
        ResourceKind::EnvVar => env_var_entity(resource.id.as_str()),
        ResourceKind::ExternalFunction => external_function_entity(resource.id.as_str()),
    }
}

} // verus!
