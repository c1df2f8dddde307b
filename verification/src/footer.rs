//! The status bar's update badge and connection badge.
use vstd::prelude::*;
use crate::update::UpdateStateKind;
use crate::text::{owned, push_str};

verus! {

broadcast use vstd::string::group_string_axioms;

/// The colour a badge is drawn in.
#[derive(Clone, Copy, Debug, PartialEq, Eq, Structural)]
pub enum BadgeTone {
    Muted,
    Warning,
    Action,
    Success,
    Error,
}

/// The update badge: its text, colour and whether it is emphasised.
#[derive(Clone, Debug)]
pub struct UpdateLabel {
    pub text: String,
    pub tone: BadgeTone,
    pub emphasized: bool,
}

/// The badge for an update state; none while idle or up to date. The arrow is
/// `^` when only ASCII icons are used.
pub open spec fn badge(kind: UpdateStateKind, ascii: bool) -> Option<(Seq<char>, BadgeTone, bool)> {
    let marker = if ascii { "^"@ } else { "↑"@ };
    match kind {
        UpdateStateKind::Checking => Some((" Checking"@, BadgeTone::Muted, false)),
        UpdateStateKind::Available => Some((" "@ + marker + " Update"@, BadgeTone::Warning, true)),
        UpdateStateKind::ManagerActionRequired => Some((" "@ + marker + " Update"@, BadgeTone::Warning, true)),
        UpdateStateKind::Installing => Some((" Updating"@, BadgeTone::Action, false)),
        UpdateStateKind::ReadyToRestart => Some((" Restart"@, BadgeTone::Success, true)),
        UpdateStateKind::Failed => Some((" ! Update failed"@, BadgeTone::Error, false)),
        UpdateStateKind::Idle => None,
        UpdateStateKind::UpToDate => None,
    }
}

/// The update badge of the status bar.
pub fn update_label(kind: UpdateStateKind, ascii: bool) -> (r: Option<UpdateLabel>)
    ensures
        match (r, badge(kind, ascii)) {
            (Some(l), Some((text, tone, emphasized))) => l.text@ == text && l.tone == tone && l.emphasized == emphasized,
            (None, None) => true,
            _ => false,
        },
{
    let marker = if ascii { "^" } else { "↑" };
    match kind {
        UpdateStateKind::Checking => Some(UpdateLabel { text: owned(" Checking"), tone: BadgeTone::Muted, emphasized: false }),
        UpdateStateKind::Available | UpdateStateKind::ManagerActionRequired => {
            let mut text = owned(" ");
            push_str(&mut text, marker);
            push_str(&mut text, " Update");
            Some(UpdateLabel { text, tone: BadgeTone::Warning, emphasized: true })
        },
        UpdateStateKind::Installing => Some(UpdateLabel { text: owned(" Updating"), tone: BadgeTone::Action, emphasized: false }),
        UpdateStateKind::ReadyToRestart => Some(UpdateLabel { text: owned(" Restart"), tone: BadgeTone::Success, emphasized: true }),
        UpdateStateKind::Failed => Some(UpdateLabel { text: owned(" ! Update failed"), tone: BadgeTone::Error, emphasized: false }),
        UpdateStateKind::Idle | UpdateStateKind::UpToDate => None,
    }
}

/// Where the connection stands.
#[derive(Clone, Copy, Debug, PartialEq, Eq, Structural)]
pub enum ConnectionStatus {
    Disconnected,
    Connecting,
    Connected,
    Failed,
}

/// The connection badge: a pending switch of the editor's target comes first,
/// then connecting and failure; nothing when settled.
pub fn connection_status(target_switch_pending: bool, status: ConnectionStatus) -> (r: Option<(&'static str, BadgeTone)>)
    ensures
        match r {
            Some((text, tone)) => if target_switch_pending {
                text@ == " TARGET "@ && tone == BadgeTone::Warning
            } else if status == ConnectionStatus::Connecting {
                text@ == " LINKING "@ && tone == BadgeTone::Warning
            } else {
                status == ConnectionStatus::Failed && text@ == " FAILED "@ && tone == BadgeTone::Error
            },
            None => !target_switch_pending && (status == ConnectionStatus::Disconnected || status == ConnectionStatus::Connected),
        },
{
    if target_switch_pending {
        Some((" TARGET ", BadgeTone::Warning))
    } else {
        match status {
            ConnectionStatus::Connecting => Some((" LINKING ", BadgeTone::Warning)),
            ConnectionStatus::Failed => Some((" FAILED ", BadgeTone::Error)),
            ConnectionStatus::Disconnected | ConnectionStatus::Connected => None,
        }
    }
}

} // verus!
