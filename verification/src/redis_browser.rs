//! Captions of the Redis key browser, value preview, object editor and dashboard.
use vstd::prelude::*;
use crate::text::{owned, push_str, push_decimal, push_zero_padded, decimal, zero_padded};

verus! {

broadcast use vstd::string::group_string_axioms;

/// How a value is encoded, where a serializer is recognised.
#[derive(Clone, Copy, Debug, PartialEq, Eq, Structural)]
pub enum ValueEncoding {
    Java,
    Php,
    Pickle,
    Plain,
}

/// How a value is viewed.
#[derive(Clone, Copy, Debug, PartialEq, Eq, Structural)]
pub enum ValueView {
    Raw,
    Json,
    Yaml,
    Table,
    Hex,
}

/// A preview's encoding and view.
#[derive(Clone, Copy, Debug, PartialEq, Eq, Structural)]
pub struct PreviewFormat {
    pub encoding: ValueEncoding,
    pub view: ValueView,
}

/// The name of a preview format: the serializer when one is recognised, the view
/// otherwise.
pub open spec fn format_name(format: PreviewFormat) -> Seq<char> {
    match format.encoding {
        ValueEncoding::Java => "Java"@,
        ValueEncoding::Php => "PHP"@,
        ValueEncoding::Pickle => "Pickle"@,
        ValueEncoding::Plain => match format.view {
            ValueView::Raw => "RAW"@,
            ValueView::Json => "JSON"@,
            ValueView::Yaml => "YAML"@,
            ValueView::Table => "Table"@,
            ValueView::Hex => "Hex"@,
        },
    }
}

/// The preview format caption, marked `Auto · ` when it was detected.
pub fn preview_format_label(format: PreviewFormat, automatic: bool) -> (r: String)
    ensures
        r@ == if automatic { "Auto · "@ + format_name(format) } else { format_name(format) },
{
    let label = match format.encoding {
        ValueEncoding::Java => "Java",
        ValueEncoding::Php => "PHP",
        ValueEncoding::Pickle => "Pickle",
        ValueEncoding::Plain => match format.view {
            ValueView::Raw => "RAW",
            ValueView::Json => "JSON",
            ValueView::Yaml => "YAML",
            ValueView::Table => "Table",
            ValueView::Hex => "Hex",
        },
    };
    if automatic {
        let mut out = owned("Auto · ");
        push_str(&mut out, label);
        out
    } else {
        owned(label)
    }
}

/// How far loading the key space has got.
#[derive(Clone, Debug)]
pub enum KeyspaceStatus {
    NotLoaded,
    Idle,
    Loading,
    Partial,
    Complete,
    CompleteEmpty,
    Paused { loaded: usize },
    Stale,
    Failed(String),
}

pub open spec fn status_caption(status: KeyspaceStatus) -> Seq<char> {
    match status {
        KeyspaceStatus::NotLoaded => "not loaded"@,
        KeyspaceStatus::Idle => "not loaded"@,
        KeyspaceStatus::Loading => "loading"@,
        KeyspaceStatus::Partial => "partial"@,
        KeyspaceStatus::Complete => "complete"@,
        KeyspaceStatus::CompleteEmpty => "empty"@,
        KeyspaceStatus::Paused { .. } => "paused"@,
        KeyspaceStatus::Stale => "stale"@,
        KeyspaceStatus::Failed(_) => "failed"@,
    }
}

/// The short caption of a key-space status.
pub fn keyspace_status_label(status: &KeyspaceStatus) -> (r: &'static str)
    ensures
        r@ == status_caption(*status),
{
    match status {
        KeyspaceStatus::NotLoaded | KeyspaceStatus::Idle => "not loaded",
        KeyspaceStatus::Loading => "loading",
        KeyspaceStatus::Partial => "partial",
        KeyspaceStatus::Complete => "complete",
        KeyspaceStatus::CompleteEmpty => "empty",
        KeyspaceStatus::Paused { .. } => "paused",
        KeyspaceStatus::Stale => "stale",
        KeyspaceStatus::Failed(_) => "failed",
    }
}

/// What an empty key list says, by status.
pub open spec fn empty_caption(status: KeyspaceStatus) -> Seq<char> {
    match status {
        KeyspaceStatus::NotLoaded => "Not loaded — Enter to load"@,
        KeyspaceStatus::Idle => "Not loaded — Enter to load"@,
        KeyspaceStatus::Loading => "Loading keys…"@,
        KeyspaceStatus::Partial => "No keys in batch — press r to continue"@,
        KeyspaceStatus::CompleteEmpty => "No matching keys"@,
        KeyspaceStatus::Complete => "No keys"@,
        KeyspaceStatus::Failed(message) => message@ + " - r=Retry"@,
        KeyspaceStatus::Paused { loaded } => "Client cache limit reached ("@ + decimal(loaded as nat) + " loaded)"@,
        KeyspaceStatus::Stale => "Showing stale keys; refresh to reload"@,
    }
}

/// What an empty key list says.
pub fn keyspace_empty_text(status: &KeyspaceStatus) -> (r: String)
    ensures
        r@ == empty_caption(*status),
{
    match status {
        KeyspaceStatus::NotLoaded | KeyspaceStatus::Idle => owned("Not loaded — Enter to load"),
        KeyspaceStatus::Loading => owned("Loading keys…"),
        KeyspaceStatus::Partial => owned("No keys in batch — press r to continue"),
        KeyspaceStatus::CompleteEmpty => owned("No matching keys"),
        KeyspaceStatus::Complete => owned("No keys"),
        KeyspaceStatus::Failed(message) => {
            let mut out = owned(message.as_str());
            push_str(&mut out, " - r=Retry");
            out
        },
        KeyspaceStatus::Paused { loaded } => {
            let mut out = owned("Client cache limit reached (");
            push_decimal(&mut out, *loaded as u64);
            push_str(&mut out, " loaded)");
            out
        },
        KeyspaceStatus::Stale => owned("Showing stale keys; refresh to reload"),
    }
}

/// The title of the key list: database, keys loaded and status.
pub fn keys_title(database: u64, loaded: usize, status: &KeyspaceStatus) -> (r: String)
    ensures
        r@ == "Keys · DB "@ + decimal(database as nat) + " · "@ + decimal(loaded as nat) + " loaded · "@ + status_caption(*status),
{
    let mut out = owned("Keys · DB ");
    push_decimal(&mut out, database);
    push_str(&mut out, " · ");
    push_decimal(&mut out, loaded as u64);
    push_str(&mut out, " loaded · ");
    push_str(&mut out, keyspace_status_label(status));
    out
}

/// How a saved object's expiry is set.
#[derive(Clone, Copy, Debug, PartialEq, Eq, Structural)]
pub enum RedisEditorTtlMode {
    Preserve,
    Persistent,
    Expires,
}

/// The expiry caption of the object editor; `ttl` is the typed expiry in ms.
pub fn ttl_label(mode: RedisEditorTtlMode, ttl: &str) -> (r: String)
    ensures
        r@ == (match mode {
            RedisEditorTtlMode::Preserve => "preserve"@,
            RedisEditorTtlMode::Persistent => "persistent"@,
            RedisEditorTtlMode::Expires => ttl@ + " ms"@,
        }),
{
    match mode {
        RedisEditorTtlMode::Preserve => owned("preserve"),
        RedisEditorTtlMode::Persistent => owned("persistent"),
        RedisEditorTtlMode::Expires => {
            let mut out = owned(ttl);
            push_str(&mut out, " ms");
            out
        },
    }
}

/// `uptime <days>d <hh>:<mm>:<ss>` for a server up `seconds`.
pub fn format_uptime(seconds: u64) -> (r: String)
    ensures
        r@ == "uptime "@ + decimal((seconds / 86400) as nat) + "d "@ + zero_padded(((seconds / 3600) % 24) as nat, 2)
            + ":"@ + zero_padded(((seconds / 60) % 60) as nat, 2) + ":"@ + zero_padded((seconds % 60) as nat, 2),
{
    let mut out = owned("uptime ");
    push_decimal(&mut out, seconds / 86400);
    push_str(&mut out, "d ");
    push_zero_padded(&mut out, (seconds / 3600) % 24, 2);
    push_str(&mut out, ":");
    push_zero_padded(&mut out, (seconds / 60) % 60, 2);
    push_str(&mut out, ":");
    push_zero_padded(&mut out, seconds % 60, 2);
    out
}

} // verus!
