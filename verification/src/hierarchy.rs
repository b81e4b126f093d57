//! Client / project / task / tag rules: colours, names and their errors.

use vstd::prelude::*;
use crate::text::{chars_of, string_from_chars, trim_chars, trimmed};

verus! {

/// Why a hierarchy request is refused.
#[derive(Clone, Copy, PartialEq, Eq, Debug, Structural)]
pub enum HierarchyError {
    NameConflict,
    NameRequired,
    InvalidColor,
    LogoNotFound,
    ClientNotFound,
    ProjectNotFound,
    NotFound,
}

impl HierarchyError {
    /// The error code the frontend receives.
    pub fn code(&self) -> (r: &'static str)
        ensures
            r@ == hierarchy_error_code(*self),
    {
        match self {
            HierarchyError::NameConflict => "name_conflict",
            HierarchyError::NameRequired => "name_required",
            HierarchyError::InvalidColor => "invalid_color",
            HierarchyError::LogoNotFound => "logo_not_found",
            HierarchyError::ClientNotFound => "client_not_found",
            HierarchyError::ProjectNotFound => "project_not_found",
            HierarchyError::NotFound => "not_found",
        }
    }
}

/// The error code of a hierarchy error.
pub open spec fn hierarchy_error_code(e: HierarchyError) -> Seq<char> {
    match e {
        HierarchyError::NameConflict => "name_conflict"@,
        HierarchyError::NameRequired => "name_required"@,
        HierarchyError::InvalidColor => "invalid_color"@,
        HierarchyError::LogoNotFound => "logo_not_found"@,
        HierarchyError::ClientNotFound => "client_not_found"@,
        HierarchyError::ProjectNotFound => "project_not_found"@,
        HierarchyError::NotFound => "not_found"@,
    }
}

/// An ASCII hexadecimal digit (what `char::is_ascii_hexdigit` accepts).
pub open spec fn is_hex_digit(c: char) -> bool {
    ('0' <= c && c <= '9') || ('a' <= c && c <= 'f') || ('A' <= c && c <= 'F')
}

/// A CSS colour of the exact form `#RRGGBB`.
pub open spec fn valid_color(color: Seq<char>) -> bool {
    &&& color.len() == 7
    &&& color[0] == '#'
    &&& forall|i: int| 1 <= i < 7 ==> is_hex_digit(#[trigger] color[i])
}

/// Whether a colour is exactly `#RRGGBB` with hexadecimal digits.
pub fn validate_color(color: &str) -> (r: bool)
    ensures
        r == valid_color(color@),
{
    let cs = chars_of(color);
    if cs.len() != 7 || cs[0] != '#' {
        return false;
    }
    let mut i: usize = 1;
    while i < 7
        invariant
            cs@ == color@,
            cs.len() == 7,
            1 <= i <= 7,
            forall|k: int| 1 <= k < i ==> is_hex_digit(#[trigger] cs@[k]),
        decreases 7 - i,
    {
        let c = cs[i];
        let hex = ('0' <= c && c <= '9') || ('a' <= c && c <= 'f') || ('A' <= c && c <= 'F');
        if !hex {
            return false;
        }
        i += 1;
    }
    true
}

/// A name with surrounding whitespace removed, or `err` when nothing is left.
pub open spec fn name_outcome(name: Seq<char>, err: HierarchyError) -> Result<Seq<char>, HierarchyError> {
    if trimmed(name).len() == 0 {
        Err(err)
    } else {
        Ok(trimmed(name))
    }
}

/// The view of a name check's result.
pub open spec fn name_result_view(r: Result<String, HierarchyError>) -> Result<Seq<char>, HierarchyError> {
    match r {
        Ok(s) => Ok(s@),
        Err(e) => Err(e),
    }
}

fn checked_name(name: &str, err: HierarchyError) -> (r: Result<String, HierarchyError>)
    ensures
        name_result_view(r) == name_outcome(name@, err),
{
    let cs = chars_of(name);
    let t = trim_chars(&cs);
    if t.len() == 0 {
        Err(err)
    } else {
        Ok(string_from_chars(&t))
    }
}

/// The trimmed name of a client, project or task; an empty name is refused
/// as a name conflict.
pub fn validate_entity_name(name: &str) -> (r: Result<String, HierarchyError>)
    ensures
        name_result_view(r) == name_outcome(name@, HierarchyError::NameConflict),
{
    checked_name(name, HierarchyError::NameConflict)
}

/// The trimmed name of a tag; an empty name is refused as required.
pub fn validate_tag_name(name: &str) -> (r: Result<String, HierarchyError>)
    ensures
        name_result_view(r) == name_outcome(name@, HierarchyError::NameRequired),
{
    checked_name(name, HierarchyError::NameRequired)
}

/// What a client create or update request gets before the store is asked:
/// an empty name, then a bad colour, then a missing logo file are refused in
/// that order; otherwise the trimmed name.
pub open spec fn client_request_outcome(
    name: Seq<char>,
    color: Seq<char>,
    has_logo: bool,
    logo_exists: bool,
) -> Result<Seq<char>, HierarchyError> {
    if trimmed(name).len() == 0 {
        Err(HierarchyError::NameConflict)
    } else if !valid_color(color) {
        Err(HierarchyError::InvalidColor)
    } else if has_logo && !logo_exists {
        Err(HierarchyError::LogoNotFound)
    } else {
        Ok(trimmed(name))
    }
}

/// Check a client request's name, colour and logo; `logo_exists` tells
/// whether the logo path, when one is given, names an existing file.
pub fn validate_client_fields(
    name: &str,
    color: &str,
    logo_path: &Option<String>,
    logo_exists: bool,
) -> (r: Result<String, HierarchyError>)
    ensures
        name_result_view(r) == client_request_outcome(name@, color@, logo_path is Some, logo_exists),
{
    let n = validate_entity_name(name);
    match n {
        Err(e) => Err(e),
        Ok(trimmed_name) => {
            if !validate_color(color) {
                return Err(HierarchyError::InvalidColor);
            }
            if logo_path.is_some() && !logo_exists {
                return Err(HierarchyError::LogoNotFound);
            }
            Ok(trimmed_name)
        },
    }
}

/// The filter text of a task search: `None` when the query is blank (every
/// task of the project matches), else the trimmed query.
pub fn task_query_filter(query: &str) -> (r: Option<String>)
    ensures
        match r {
            Some(q) => trimmed(query@).len() > 0 && q@ == trimmed(query@),
            None => trimmed(query@).len() == 0,
        },
{
    let cs = chars_of(query);
    let t = trim_chars(&cs);
    if t.len() == 0 {
        None
    } else {
        Some(string_from_chars(&t))
    }
}

/// A client as listed.
pub struct ClientEntry {
    pub id: String,
    pub name: String,
    pub color: String,
    pub logo_path: Option<String>,
    pub is_archived: bool,
}

/// A request to create a client.
pub struct ClientCreateRequest {
    pub name: String,
    pub color: String,
    pub logo_path: Option<String>,
}

/// A request to update a client's name, colour and logo.
pub struct ClientUpdateRequest {
    pub id: String,
    pub name: String,
    pub color: String,
    pub logo_path: Option<String>,
}

/// A project as listed.
pub struct ProjectEntry {
    pub id: String,
    pub client_id: String,
    pub name: String,
    pub is_archived: bool,
}

/// A request to create a project under a client.
pub struct ProjectCreateRequest {
    pub client_id: String,
    pub name: String,
}

/// A request to rename a project.
pub struct ProjectUpdateRequest {
    pub id: String,
    pub name: String,
}

/// A task as listed.
pub struct TaskEntry {
    pub id: String,
    pub project_id: String,
    pub name: String,
}

/// A request to create a task under a project.
pub struct TaskCreateRequest {
    pub project_id: String,
    pub name: String,
}

/// A request to rename a task.
pub struct TaskUpdateRequest {
    pub id: String,
    pub name: String,
}

/// A tag as listed, with the number of entries carrying it.
pub struct TagEntry {
    pub id: String,
    pub name: String,
    pub created_at: String,
    pub entry_count: i64,
}

} // verus!
