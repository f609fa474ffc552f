//! The operations that a caller may ask for by name.

use vstd::prelude::*;
use crate::text::{chars_of, same_text};

verus! {

/// An operation of the server.
#[derive(Debug, Clone, Copy, PartialEq, Eq)]
pub enum ToolKind {
    ListEntities,
    QueryEntity,
    GetEntitySchema,
    GetRecord,
    GetEnvironmentInfo,
    GetMetadata,
    RefreshMetadata,
}

/// The operation that a name stands for; names are case-sensitive.
pub open spec fn tool_of(name: Seq<char>) -> Option<ToolKind> {
    if name == "list_entities"@ {
        Some(ToolKind::ListEntities)
    } else if name == "query_entity"@ {
        Some(ToolKind::QueryEntity)
    } else if name == "get_entity_schema"@ {
        Some(ToolKind::GetEntitySchema)
    } else if name == "get_record"@ {
        Some(ToolKind::GetRecord)
    } else if name == "get_environment_info"@ {
        Some(ToolKind::GetEnvironmentInfo)
    } else if name == "get_metadata"@ {
        Some(ToolKind::GetMetadata)
    } else if name == "refresh_metadata"@ {
        Some(ToolKind::RefreshMetadata)
    } else {
        None
    }
}

/// The operation named `name`, or `None` for a name that stands for none.
pub fn tool_named(name: &str) -> (r: Option<ToolKind>)
    ensures
        r == tool_of(name@),
{
    let given = chars_of(name);
    if same_text(&given, &chars_of("list_entities")) {
        Some(ToolKind::ListEntities)
    } else if same_text(&given, &chars_of("query_entity")) {
        Some(ToolKind::QueryEntity)
    } else if same_text(&given, &chars_of("get_entity_schema")) {
        Some(ToolKind::GetEntitySchema)
    } else if same_text(&given, &chars_of("get_record")) {
        Some(ToolKind::GetRecord)
    } else if same_text(&given, &chars_of("get_environment_info")) {
        Some(ToolKind::GetEnvironmentInfo)
    } else if same_text(&given, &chars_of("get_metadata")) {
        Some(ToolKind::GetMetadata)
    } else if same_text(&given, &chars_of("refresh_metadata")) {
        Some(ToolKind::RefreshMetadata)
    } else {
        None
    }
}

} // verus!
