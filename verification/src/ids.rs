//! The identities that commands, events and the server name things by.

use vstd::prelude::*;

verus! {

/// A viewer attached to a session.
#[derive(Clone, Copy, Debug, PartialEq, Eq, Structural)]
pub struct ClientId {
    pub value: u128,
}

/// One pane of a session.
#[derive(Clone, Copy, Debug, PartialEq, Eq, Structural)]
pub struct PaneId {
    pub value: u128,
}

/// One running session.
#[derive(Clone, Copy, Debug, PartialEq, Eq, Structural)]
pub struct SessionId {
    pub value: u128,
}

/// One issued command, so that its answer can be matched to it.
#[derive(Clone, Copy, Debug, PartialEq, Eq, Structural)]
pub struct CommandId {
    pub value: u128,
}

/// One loaded plugin.
#[derive(Clone, Copy, Debug, PartialEq, Eq, Structural)]
pub struct PluginId {
    pub value: u128,
}

} // verus!
