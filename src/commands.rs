//! Decisions that the single-call commands make around their remote calls:
//! which settings to use, which field a query names, and what a new
//! webhook is scoped to.

use crate::artifacts::{decimal, decimal_string};
use vstd::prelude::*;

verus! {

/// The parts of a field definition that a query can name.
#[derive(Debug)]
pub struct FieldRef {
    pub id: u64,
    pub uuid: String,
    pub name: String,
}

/// `query` names the field: by its name, its UUID, or its id in decimal.
pub open spec fn names_field(query: Seq<char>, f: FieldRef) -> bool {
    query == f.name@ || query == f.uuid@ || query == decimal(f.id as nat)
}

/// Whether `query` names the field `f`.
pub fn field_matches(query: &str, f: &FieldRef) -> (r: bool)
    ensures
        r == names_field(query@, *f),
{
    let q = String::from_str(query);
    if q == f.name || q == f.uuid {
        return true;
    }
    let id = decimal_string(f.id);
    q == id
}

/// Position of the first field that `query` names, if any.
pub fn find_field(fields: &Vec<FieldRef>, query: &str) -> (r: Option<usize>)
    ensures
        r matches Some(i) ==> i < fields@.len() && names_field(query@, fields@[i as int])
            && forall|j: int| 0 <= j < i ==> !names_field(query@, #[trigger] fields@[j]),
        r is None ==> forall|j: int|
            0 <= j < fields@.len() ==> !names_field(query@, #[trigger] fields@[j]),
{
    let mut i: usize = 0;
    while i < fields.len()
        invariant
            i <= fields@.len(),
            forall|j: int| 0 <= j < i ==> !names_field(query@, #[trigger] fields@[j]),
        decreases fields@.len() - i,
    {
        if field_matches(query, &fields[i]) {
            return Some(i);
        }
        i = i + 1;
    }
    None
}

/// Why a command's settings are refused.
#[derive(Clone, Copy, Debug, PartialEq, Eq, Structural)]
pub enum SettingsError {
    /// No API token in the settings.
    MissingToken,
    /// The command needs a workspace and none was given.
    MissingWorkspace,
    /// A webhook item was given without its list.
    ItemWithoutList,
}

/// The API token: the current setting if present, else the older one.
pub fn choose_token(current: Option<String>, legacy: Option<String>) -> (r: Result<
    String,
    SettingsError,
>)
    ensures
        current is Some ==> r == Ok::<String, SettingsError>(current->0),
        current is None && legacy is Some ==> r == Ok::<String, SettingsError>(legacy->0),
        current is None && legacy is None ==> r == Err::<String, SettingsError>(
            SettingsError::MissingToken,
        ),
{
    match current {
        Some(t) => Ok(t),
        None => match legacy {
            Some(t) => Ok(t),
            None => Err(SettingsError::MissingToken),
        },
    }
}

/// The workspace a command works in: none (empty) for commands that need
/// none, else the one given on the command line, else the configured one.
pub fn choose_workspace(needed: bool, given: Option<String>, configured: Option<String>) -> (r:
    Result<String, SettingsError>)
    ensures
        !needed ==> (r matches Ok(w) && w@.len() == 0),
        needed && given is Some ==> r == Ok::<String, SettingsError>(given->0),
        needed && given is None && configured is Some ==> r == Ok::<String, SettingsError>(
            configured->0,
        ),
        needed && given is None && configured is None ==> r == Err::<String, SettingsError>(
            SettingsError::MissingWorkspace,
        ),
{
    if !needed {
        return Ok(String::new());
    }
    match given {
        Some(w) => Ok(w),
        None => match configured {
            Some(w) => Ok(w),
            None => Err(SettingsError::MissingWorkspace),
        },
    }
}

/// The workspace a new webhook is restricted to. A webhook on an item
/// must name its list. A webhook with no list watches the workspace, as
/// does one for which the workspace was asked for explicitly.
pub fn webhook_workspace(ws_id: u64, whole_workspace: bool, has_list: bool, has_item: bool) -> (r:
    Result<Option<u64>, SettingsError>)
    ensures
        !has_list && has_item ==> r == Err::<Option<u64>, SettingsError>(
            SettingsError::ItemWithoutList,
        ),
        !(!has_list && has_item) ==> r == Ok::<Option<u64>, SettingsError>(
            if whole_workspace || !has_list {
                Some(ws_id)
            } else {
                None
            },
        ),
{
    if !has_list && has_item {
        Err(SettingsError::ItemWithoutList)
    } else if whole_workspace || !has_list {
        Ok(Some(ws_id))
    } else {
        Ok(None)
    }
}

/// The note shown after a list's name: marks a deprecated list.
pub fn deprecation_note(deprecated: bool) -> (r: &'static str)
    ensures
        deprecated ==> r@ == " (Deprecated)"@,
        !deprecated ==> r@.len() == 0,
{
    if deprecated {
        " (Deprecated)"
    } else {
        proof {
            reveal_strlit("");
        }
        ""
    }
}

} // verus!
