//! The closed set of capabilities an API key can grant.

use vstd::prelude::*;

use crate::json::text_is;

verus! {

/// A capability granted to a key.
#[derive(Debug, Clone, Copy, PartialEq, Eq, Structural)]
pub enum Action {
    All,
    Search,
    DocumentsAdd,
    DocumentsGet,
    DocumentsDelete,
    IndexesAdd,
    IndexesGet,
    IndexesUpdate,
    IndexesDelete,
    TasksGet,
    SettingsGet,
    SettingsUpdate,
    StatsGet,
    DumpsCreate,
    DumpsGet,
    Version,
}

/// The capability written as `tag`, if the tag names one.
pub open spec fn tag_action(tag: Seq<char>) -> Option<Action> {
    if tag == "*"@ {
        Some(Action::All)
    } else if tag == "search"@ {
        Some(Action::Search)
    } else if tag == "documents.add"@ {
        Some(Action::DocumentsAdd)
    } else if tag == "documents.get"@ {
        Some(Action::DocumentsGet)
    } else if tag == "documents.delete"@ {
        Some(Action::DocumentsDelete)
    } else if tag == "indexes.create"@ {
        Some(Action::IndexesAdd)
    } else if tag == "indexes.get"@ {
        Some(Action::IndexesGet)
    } else if tag == "indexes.update"@ {
        Some(Action::IndexesUpdate)
    } else if tag == "indexes.delete"@ {
        Some(Action::IndexesDelete)
    } else if tag == "tasks.get"@ {
        Some(Action::TasksGet)
    } else if tag == "settings.get"@ {
        Some(Action::SettingsGet)
    } else if tag == "settings.update"@ {
        Some(Action::SettingsUpdate)
    } else if tag == "stats.get"@ {
        Some(Action::StatsGet)
    } else if tag == "dumps.create"@ {
        Some(Action::DumpsCreate)
    } else if tag == "dumps.get"@ {
        Some(Action::DumpsGet)
    } else if tag == "version"@ {
        Some(Action::Version)
    } else {
        None
    }
}

impl Action {
    /// Reads a capability from its textual tag.
    pub fn from_tag(tag: &String) -> (r: Option<Action>)
        ensures
            r == tag_action(tag@),
    {
        if text_is(tag, "*") {
            Some(Action::All)
        } else if text_is(tag, "search") {
            Some(Action::Search)
        } else if text_is(tag, "documents.add") {
            Some(Action::DocumentsAdd)
        } else if text_is(tag, "documents.get") {
            Some(Action::DocumentsGet)
        } else if text_is(tag, "documents.delete") {
            Some(Action::DocumentsDelete)
        } else if text_is(tag, "indexes.create") {
            Some(Action::IndexesAdd)
        } else if text_is(tag, "indexes.get") {
            Some(Action::IndexesGet)
        } else if text_is(tag, "indexes.update") {
            Some(Action::IndexesUpdate)
        } else if text_is(tag, "indexes.delete") {
            Some(Action::IndexesDelete)
        } else if text_is(tag, "tasks.get") {
            Some(Action::TasksGet)
        } else if text_is(tag, "settings.get") {
            Some(Action::SettingsGet)
        } else if text_is(tag, "settings.update") {
            Some(Action::SettingsUpdate)
        } else if text_is(tag, "stats.get") {
            Some(Action::StatsGet)
        } else if text_is(tag, "dumps.create") {
            Some(Action::DumpsCreate)
        } else if text_is(tag, "dumps.get") {
            Some(Action::DumpsGet)
        } else if text_is(tag, "version") {
            Some(Action::Version)
        } else {
            None
        }
    }
}

} // verus!
