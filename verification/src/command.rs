//! The highlight commands and the sources they come from.

use vstd::prelude::*;

use crate::ids::{ClientId, PaneId, PluginId, SessionId};

verus! {

/// One cell of a pane's text, counted from the oldest line kept.
#[derive(Clone, Copy, Debug, PartialEq, Eq, Structural)]
pub struct GridPosition {
    pub row_index: usize,
    pub column_index: usize,
}

impl GridPosition {
    /// Reading order: this cell stands at or before `other`, top to bottom and
    /// left to right.
    pub open spec fn is_at_or_before(self, other: GridPosition) -> bool {
        self.row_index < other.row_index || (self.row_index == other.row_index
            && self.column_index <= other.column_index)
    }

    /// Whether this cell stands at or before `other` in reading order.
    pub fn precedes(&self, other: &GridPosition) -> (r: bool)
        ensures
            r == self.is_at_or_before(*other),
    {
        self.row_index < other.row_index || (self.row_index == other.row_index
            && self.column_index <= other.column_index)
    }
}

/// What the two ends of a highlight stand for.
#[derive(Clone, Copy, Debug, PartialEq, Eq, Structural)]
pub enum SelectionKind {
    /// The cells from one end to the other in reading order.
    Character,
    /// Whole words.
    Word,
    /// Whole lines.
    Line,
    /// The rectangle between the two ends.
    Block,
}

/// A highlight: where the drag began, where it is now, and what it covers.
#[derive(Clone, Copy, Debug, PartialEq, Eq, Structural)]
pub struct Selection {
    pub selection_kind: SelectionKind,
    pub anchor: GridPosition,
    pub cursor: GridPosition,
}

/// Which clipboard a copy goes to.
#[derive(Clone, Copy, Debug, PartialEq, Eq, Structural)]
pub enum CopyTarget {
    /// The outer terminal's clipboard, through its OSC 52 escape.
    Osc52,
    /// A clipboard the host lists under a number of its own.
    HostClipboard(u32),
}

/// Highlight `selection` in `pane_id`.
#[derive(Clone, Copy, Debug, PartialEq, Eq, Structural)]
pub struct SetSelectionArgs {
    pub pane_id: PaneId,
    pub selection: Selection,
}

/// Drop the highlight in `pane_id`.
#[derive(Clone, Copy, Debug, PartialEq, Eq, Structural)]
pub struct ClearSelectionArgs {
    pub pane_id: PaneId,
}

/// Copy the highlighted text of `pane_id`.
#[derive(Clone, Copy, Debug, PartialEq, Eq, Structural)]
pub struct CopyArgs {
    pub pane_id: PaneId,
    pub should_trim_trailing_whitespace: bool,
    pub clipboard_target: CopyTarget,
}

/// The commands of visual mode.
#[derive(Clone, Copy, Debug, PartialEq, Eq, Structural)]
pub enum VisualCommand {
    SetSelection(SetSelectionArgs),
    ClearSelection(ClearSelectionArgs),
    Copy(CopyArgs),
}

impl VisualCommand {
    /// The pane the command names.
    pub open spec fn pane_id(self) -> PaneId {
        match self {
            VisualCommand::SetSelection(command_args) => command_args.pane_id,
            VisualCommand::ClearSelection(command_args) => command_args.pane_id,
            VisualCommand::Copy(command_args) => command_args.pane_id,
        }
    }

    /// The pane the command names.
    pub fn get_pane_id(&self) -> (r: PaneId)
        ensures
            r == self.pane_id(),
    {
        match self {
            VisualCommand::SetSelection(command_args) => command_args.pane_id,
            VisualCommand::ClearSelection(command_args) => command_args.pane_id,
            VisualCommand::Copy(command_args) => command_args.pane_id,
        }
    }
}

/// Where a command came from.
#[derive(Clone, Copy, Debug, PartialEq, Eq, Structural)]
pub enum CommandSource {
    /// A key pressed by a client.
    KeyBinding { client_id: ClientId },
    /// A mouse gesture of a client.
    Mouse { client_id: ClientId },
    /// The command line, run inside a pane. The pane may have been spawned with
    /// no client designated for it.
    InSessionCli {
        session_id: SessionId,
        designated_client_id: Option<ClientId>,
        pane_id: PaneId,
    },
    /// The command line, run outside every session. The client it may target
    /// did not issue the command.
    ExternalCli { target_session_id: Option<SessionId>, target_client_id: Option<ClientId> },
    /// A plugin.
    Plugin { plugin_id: PluginId },
    /// The server itself.
    Internal,
}

impl CommandSource {
    /// The client that issued the command, when a client did.
    pub open spec fn issuing_client_id(self) -> Option<ClientId> {
        match self {
            CommandSource::KeyBinding { client_id } => Some(client_id),
            CommandSource::Mouse { client_id } => Some(client_id),
            CommandSource::InSessionCli { designated_client_id, .. } => designated_client_id,
            CommandSource::ExternalCli { .. } => None,
            CommandSource::Plugin { .. } => None,
            CommandSource::Internal => None,
        }
    }

    /// The command line issued the command, inside a pane or outside every
    /// session.
    pub open spec fn is_cli(self) -> bool {
        match self {
            CommandSource::InSessionCli { .. } => true,
            CommandSource::ExternalCli { .. } => true,
            _ => false,
        }
    }

    /// Whether the command line issued the command.
    pub fn is_from_cli(&self) -> (r: bool)
        ensures
            r == self.is_cli(),
    {
        match self {
            CommandSource::InSessionCli { .. } => true,
            CommandSource::ExternalCli { .. } => true,
            _ => false,
        }
    }

    /// The client that issued the command, when a client did. An external
    /// command line, a plugin and the server itself name no client of their own.
    pub fn find_issuing_client_id(&self) -> (r: Option<ClientId>)
        ensures
            r == self.issuing_client_id(),
    {
        match self {
            CommandSource::KeyBinding { client_id } => Some(*client_id),
            CommandSource::Mouse { client_id } => Some(*client_id),
            CommandSource::InSessionCli { designated_client_id, .. } => *designated_client_id,
            CommandSource::ExternalCli { .. } => None,
            CommandSource::Plugin { .. } => None,
            CommandSource::Internal => None,
        }
    }
}

} // verus!
