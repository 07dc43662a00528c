//! The configuration resolver: a cascading lookup of the effective project
//! path and default collection from two optionally-absent, possibly-malformed
//! persisted documents. It never fails; every fault degrades to a fixed
//! default and is reported as a distinct, testable reason.
use vstd::prelude::*;

use crate::json::{json_get, obj_get, parse_json, parsed_json, fields_get, lookup, Json};

verus! {

/// The fixed fallback project path, used whenever no persisted layer yields
/// one.
pub open spec fn default_project_path() -> Seq<char> {
    "/Users/danny/dev/astro-editor/temp-dummy-astro-project"@
}

/// The fixed fallback collection name.
pub open spec fn default_collection_name() -> Seq<char> {
    "notes"@
}

/// The fallback project path, as a value.
pub fn default_project_path_str() -> (r: String)
    ensures
        r@ == default_project_path(),
{
    String::from_str("/Users/danny/dev/astro-editor/temp-dummy-astro-project")
}

/// The fallback collection name, as a value.
pub fn default_collection_name_str() -> (r: String)
    ensures
        r@ == default_collection_name(),
{
    String::from_str("notes")
}

/// Why the global settings layer was discarded.
#[derive(Debug, Clone, Copy, PartialEq, Eq, Structural)]
pub enum SettingsFault {
    /// The settings document could not be read.
    ReadFailed,
    /// The settings document was read but did not parse fully.
    ParseFailed,
}

/// Why the project registry did not yield a project path.
#[derive(Debug, Clone, Copy, PartialEq, Eq, Structural)]
pub enum RegistryFault {
    /// The registry document could not be read.
    ReadFailed,
    /// The registry document was read but did not parse fully.
    ParseFailed,
    /// The registry names no last-opened project.
    NoLastOpened,
    /// The last-opened project id is not a key of the projects map.
    ProjectNotFound,
    /// The project's metadata has no `path` field.
    PathMissing,
    /// The project's `path` field is not a string.
    PathNotString,
}

/// The quick-entry sub-settings in full: an enabled flag, a shortcut and a
/// default collection, each of the right type.
pub open spec fn valid_quick_entry(q: Json) -> bool {
    &&& json_get(q, "enabled"@) matches Some(Json::Bool(_))
    &&& json_get(q, "globalShortcut"@) matches Some(Json::Str(_))
    &&& json_get(q, "defaultCollection"@) matches Some(Json::Str(_))
}

/// The general section in full.
pub open spec fn valid_general(g: Json) -> bool {
    &&& json_get(g, "ideCommand"@) matches Some(Json::Str(_))
    &&& json_get(g, "theme"@) matches Some(Json::Str(_))
    &&& json_get(g, "highlights"@) is Some
    &&& json_get(g, "quickEntry"@) matches Some(q) && valid_quick_entry(q)
}

/// A `version` field holding an integer in 32-bit signed range.
pub open spec fn valid_version(j: Json) -> bool {
    json_get(j, "version"@) matches Some(Json::Num(Some(v))) && i32::MIN <= v <= i32::MAX
}

/// A settings document parses fully or is discarded wholesale: this is
/// "fully".
pub open spec fn valid_settings(j: Json) -> bool {
    &&& json_get(j, "general"@) matches Some(g) && valid_general(g)
    &&& json_get(j, "defaultProjectSettings"@) is Some
    &&& valid_version(j)
}

/// The default collection a valid settings document names.
pub open spec fn settings_collection_of(j: Json) -> Seq<char> {
    match json_get(j, "general"@) {
        Some(g) => match json_get(g, "quickEntry"@) {
            Some(q) => match json_get(q, "defaultCollection"@) {
                Some(Json::Str(s)) => s@,
                _ => Seq::empty(),
            },
            _ => Seq::empty(),
        },
        _ => Seq::empty(),
    }
}

/// A registry document parses fully: a projects map, a version, and a
/// last-opened id that is absent, null, or a string.
pub open spec fn valid_registry(j: Json) -> bool {
    &&& json_get(j, "projects"@) matches Some(Json::Obj(_))
    &&& valid_version(j)
    &&& match json_get(j, "lastOpenedProject"@) {
        None => true,
        Some(Json::Null) => true,
        Some(Json::Str(_)) => true,
        _ => false,
    }
}

/// The settings layer's outcome for a read attempt (`None` below meaning the
/// read itself failed).
pub open spec fn settings_fault_of(doc: Option<Seq<char>>) -> Option<SettingsFault> {
    match doc {
        None => Some(SettingsFault::ReadFailed),
        Some(s) => match parsed_json(s) {
            None => Some(SettingsFault::ParseFailed),
            Some(j) => if valid_settings(j) {
                None
            } else {
                Some(SettingsFault::ParseFailed)
            },
        },
    }
}

/// The effective default collection: the settings' choice when that layer
/// held, else the fixed default.
pub open spec fn resolved_collection_of(doc: Option<Seq<char>>) -> Seq<char> {
    match doc {
        None => default_collection_name(),
        Some(s) => match parsed_json(s) {
            None => default_collection_name(),
            Some(j) => if valid_settings(j) {
                settings_collection_of(j)
            } else {
                default_collection_name()
            },
        },
    }
}

/// The registry layer's outcome: `None` when it yielded a path, else the
/// first reason in the fixed precedence that made it fall back.
pub open spec fn registry_fault_of(doc: Option<Seq<char>>) -> Option<RegistryFault> {
    match doc {
        None => Some(RegistryFault::ReadFailed),
        Some(s) => match parsed_json(s) {
            None => Some(RegistryFault::ParseFailed),
            Some(j) => if !valid_registry(j) {
                Some(RegistryFault::ParseFailed)
            } else {
                match json_get(j, "lastOpenedProject"@) {
                    Some(Json::Str(id)) => match json_get(j, "projects"@) {
                        Some(Json::Obj(ps)) => match obj_get(ps@, id@) {
                            None => Some(RegistryFault::ProjectNotFound),
                            Some(p) => match json_get(p, "path"@) {
                                None => Some(RegistryFault::PathMissing),
                                Some(Json::Str(_)) => None,
                                Some(_) => Some(RegistryFault::PathNotString),
                            },
                        },
                        _ => Some(RegistryFault::ParseFailed),
                    },
                    _ => Some(RegistryFault::NoLastOpened),
                }
            },
        },
    }
}

/// The effective project path: the registry's stored path when every step of
/// the precedence held, else the fixed default.
pub open spec fn registry_path_of(doc: Option<Seq<char>>) -> Seq<char> {
    match doc {
        None => default_project_path(),
        Some(s) => match parsed_json(s) {
            None => default_project_path(),
            Some(j) => if !valid_registry(j) {
                default_project_path()
            } else {
                match json_get(j, "lastOpenedProject"@) {
                    Some(Json::Str(id)) => match json_get(j, "projects"@) {
                        Some(Json::Obj(ps)) => match obj_get(ps@, id@) {
                            None => default_project_path(),
                            Some(p) => match json_get(p, "path"@) {
                                Some(Json::Str(pp)) => pp@,
                                _ => default_project_path(),
                            },
                        },
                        _ => default_project_path(),
                    },
                    _ => default_project_path(),
                }
            },
        },
    }
}

/// A read attempt's text, as the spec-level optional document.
pub open spec fn doc_view(d: Option<&str>) -> Option<Seq<char>> {
    match d {
        None => None,
        Some(s) => Some(s@),
    }
}

/// What one resolution request yields: an effective path and collection that
/// are always present, and the reason each layer degraded, when it did.
pub struct Resolution {
    pub project_path: String,
    pub default_collection: String,
    pub settings_fault: Option<SettingsFault>,
    pub registry_fault: Option<RegistryFault>,
}

fn extract_settings_collection(j: &Json) -> (r: Option<String>)
    ensures
        r is Some <==> valid_settings(*j),
        r matches Some(c) ==> c@ == settings_collection_of(*j),
{
    let g = match lookup(j, "general") {
        Some(g) => g,
        None => {
            return None;
        },
    };
    match lookup(g, "ideCommand") {
        Some(v) => match v {
            Json::Str(_) => (),
            _ => {
                return None;
            },
        },
        None => {
            return None;
        },
    }
    match lookup(g, "theme") {
        Some(v) => match v {
            Json::Str(_) => (),
            _ => {
                return None;
            },
        },
        None => {
            return None;
        },
    }
    if lookup(g, "highlights").is_none() {
        return None;
    }
    let q = match lookup(g, "quickEntry") {
        Some(q) => q,
        None => {
            return None;
        },
    };
    match lookup(q, "enabled") {
        Some(v) => match v {
            Json::Bool(_) => (),
            _ => {
                return None;
            },
        },
        None => {
            return None;
        },
    }
    match lookup(q, "globalShortcut") {
        Some(v) => match v {
            Json::Str(_) => (),
            _ => {
                return None;
            },
        },
        None => {
            return None;
        },
    }
    let coll = match lookup(q, "defaultCollection") {
        Some(v) => match v {
            Json::Str(s) => s.clone(),
            _ => {
                return None;
            },
        },
        None => {
            return None;
        },
    };
    if lookup(j, "defaultProjectSettings").is_none() {
        return None;
    }
    if !check_version(j) {
        return None;
    }
    Some(coll)
}

fn check_version(j: &Json) -> (r: bool)
    ensures
        r == valid_version(*j),
{
    match lookup(j, "version") {
        Some(v) => match v {
            Json::Num(n) => match n {
                Some(x) => *x >= i32::MIN as i64 && *x <= i32::MAX as i64,
                None => false,
            },
            _ => false,
        },
        None => false,
    }
}

fn check_registry(j: &Json) -> (r: bool)
    ensures
        r == valid_registry(*j),
{
    let projects_ok = match lookup(j, "projects") {
        Some(v) => match v {
            Json::Obj(_) => true,
            _ => false,
        },
        None => false,
    };
    if !projects_ok {
        return false;
    }
    if !check_version(j) {
        return false;
    }
    match lookup(j, "lastOpenedProject") {
        None => true,
        Some(v) => match v {
            Json::Null => true,
            Json::Str(_) => true,
            _ => false,
        },
    }
}

fn resolve_project_path(registry_doc: Option<&str>) -> (r: (String, Option<RegistryFault>))
    ensures
        r.1 == registry_fault_of(doc_view(registry_doc)),
        r.0@ == registry_path_of(doc_view(registry_doc)),
{
    let text = match registry_doc {
        None => {
            return (default_project_path_str(), Some(RegistryFault::ReadFailed));
        },
        Some(t) => t,
    };
    let doc = match parse_json(text) {
        None => {
            return (default_project_path_str(), Some(RegistryFault::ParseFailed));
        },
        Some(d) => d,
    };
    if !check_registry(&doc) {
        return (default_project_path_str(), Some(RegistryFault::ParseFailed));
    }
    let id = match lookup(&doc, "lastOpenedProject") {
        Some(v) => match v {
            Json::Str(id) => id,
            _ => {
                return (default_project_path_str(), Some(RegistryFault::NoLastOpened));
            },
        },
        None => {
            return (default_project_path_str(), Some(RegistryFault::NoLastOpened));
        },
    };
    let project = match lookup(&doc, "projects") {
        Some(v) => match v {
            Json::Obj(ps) => match fields_get(ps, id.as_str()) {
                Some(p) => p,
                None => {
                    return (default_project_path_str(), Some(RegistryFault::ProjectNotFound));
                },
            },
            _ => {
                return (default_project_path_str(), Some(RegistryFault::ParseFailed));
            },
        },
        None => {
            return (default_project_path_str(), Some(RegistryFault::ParseFailed));
        },
    };
    match lookup(project, "path") {
        Some(v) => match v {
            Json::Str(pp) => (pp.clone(), None),
            _ => (default_project_path_str(), Some(RegistryFault::PathNotString)),
        },
        None => (default_project_path_str(), Some(RegistryFault::PathMissing)),
    }
}

/// Resolves the effective project path and default collection from the two
/// persisted documents, each given as the text read, or `None` when its read
/// failed. Cannot fail: every fault yields the fixed defaults and a reason.
/// When the settings layer is discarded the registry is not consulted, and
/// the path falls back at once.
pub fn resolve_entry_context(settings_doc: Option<&str>, registry_doc: Option<&str>) -> (r:
    Resolution)
    ensures
        r.settings_fault == settings_fault_of(doc_view(settings_doc)),
        r.default_collection@ == resolved_collection_of(doc_view(settings_doc)),
        settings_fault_of(doc_view(settings_doc)) is None ==> r.registry_fault
            == registry_fault_of(doc_view(registry_doc)),
        settings_fault_of(doc_view(settings_doc)) is None ==> r.project_path@ == registry_path_of(
            doc_view(registry_doc),
        ),
        settings_fault_of(doc_view(settings_doc)) is Some ==> r.registry_fault is None
            && r.project_path@ == default_project_path(),
{
    let text = match settings_doc {
        None => {
            return Resolution {
                project_path: default_project_path_str(),
                default_collection: default_collection_name_str(),
                settings_fault: Some(SettingsFault::ReadFailed),
                registry_fault: None,
            };
        },
        Some(t) => t,
    };
    let doc = match parse_json(text) {
        None => {
            return Resolution {
                project_path: default_project_path_str(),
                default_collection: default_collection_name_str(),
                settings_fault: Some(SettingsFault::ParseFailed),
                registry_fault: None,
            };
        },
        Some(d) => d,
    };
    match extract_settings_collection(&doc) {
        None => Resolution {
            project_path: default_project_path_str(),
            default_collection: default_collection_name_str(),
            settings_fault: Some(SettingsFault::ParseFailed),
            registry_fault: None,
        },
        Some(coll) => {
            let (path, registry_fault) = resolve_project_path(registry_doc);
            Resolution {
                project_path: path,
                default_collection: coll,
                settings_fault: None,
                registry_fault,
            }
        },
    }
}

/// A collection as the resolver hands it on: an opaque record of the
/// project-scanning collaborator, carried by name.
pub struct Collection {
    pub name: String,
}

/// What the quick-entry window needs: the effective project path and default
/// collection, and the project's known collections.
pub struct QuickEntryData {
    pub project_path: String,
    pub default_collection: String,
    pub collections: Vec<Collection>,
}

/// Combines a resolution with the collections scanned for its project path.
pub fn make_quick_entry_data(r: &Resolution, collections: Vec<Collection>) -> (d: QuickEntryData)
    ensures
        d.project_path@ == r.project_path@,
        d.default_collection@ == r.default_collection@,
        d.collections == collections,
{
    QuickEntryData {
        project_path: r.project_path.clone(),
        default_collection: r.default_collection.clone(),
        collections,
    }
}

/// Resolution never fails: whatever combination of absent, malformed or
/// partial documents is given, the effective path and collection are
/// non-empty — granted only that a value actually stored in a document is
/// itself non-empty, the one case the cascade passes through verbatim.
pub proof fn lemma_resolution_never_fails(settings: Option<Seq<char>>, registry: Option<Seq<char>>)
    requires
        settings_fault_of(settings) is None ==> resolved_collection_of(settings).len() > 0,
        registry_fault_of(registry) is None ==> registry_path_of(registry).len() > 0,
    ensures
        resolved_collection_of(settings).len() > 0,
        registry_path_of(registry).len() > 0,
{
    reveal_strlit("notes");
    reveal_strlit("/Users/danny/dev/astro-editor/temp-dummy-astro-project");
    if settings_fault_of(settings) is Some {
        assert(resolved_collection_of(settings) == default_collection_name());
    }
    if registry_fault_of(registry) is Some {
        assert(registry_path_of(registry) == default_project_path());
    }
}

} // verus!
