//! One attached client and what it has highlighted and scrolled in each pane.

use std::collections::HashMap;
use vstd::prelude::*;

use crate::command::Selection;
use crate::ids::{ClientId, PaneId, SessionId};

verus! {

broadcast use vstd::std_specs::hash::group_hash_axioms;

/// A viewer attached to a session. Its highlights and scroll offsets are its own.
#[derive(Debug, PartialEq, Eq)]
pub struct Client {
    client_id: ClientId,
    session_id: SessionId,
    selection_by_pane_id: HashMap<u128, Selection>,
    scroll_offset_by_pane_id: HashMap<u128, usize>,
}

/// What a [`Client`] holds, by pane.
#[verifier::ext_equal]
pub struct ClientModel {
    pub client_id: ClientId,
    pub session_id: SessionId,
    pub selections: Map<u128, Selection>,
    pub scroll_offsets: Map<u128, usize>,
}

impl View for Client {
    type V = ClientModel;

    closed spec fn view(&self) -> ClientModel {
        ClientModel {
            client_id: self.client_id,
            session_id: self.session_id,
            selections: self.selection_by_pane_id@,
            scroll_offsets: self.scroll_offset_by_pane_id@,
        }
    }
}

impl ClientModel {
    /// A client that has highlighted and scrolled nothing.
    pub open spec fn fresh(client_id: ClientId, session_id: SessionId) -> ClientModel {
        ClientModel {
            client_id,
            session_id,
            selections: Map::empty(),
            scroll_offsets: Map::empty(),
        }
    }

    /// The client's highlight in a pane.
    pub open spec fn selection(self, pane_id: PaneId) -> Option<Selection> {
        if self.selections.contains_key(pane_id.value) {
            Some(self.selections[pane_id.value])
        } else {
            None
        }
    }

    /// How far up the client has scrolled in a pane. Zero follows live output.
    pub open spec fn scroll_offset(self, pane_id: PaneId) -> usize {
        if self.scroll_offsets.contains_key(pane_id.value) {
            self.scroll_offsets[pane_id.value]
        } else {
            0
        }
    }

    /// Output does not move the client's view of a pane while it has a highlight
    /// there or has scrolled up.
    pub open spec fn is_view_held(self, pane_id: PaneId) -> bool {
        self.selection(pane_id) is Some || self.scroll_offset(pane_id) != 0
    }

    /// The client with `selection` as its highlight in a pane.
    pub open spec fn with_selection(self, pane_id: PaneId, selection: Selection) -> ClientModel {
        ClientModel { selections: self.selections.insert(pane_id.value, selection), ..self }
    }

    /// The client without a highlight in a pane.
    pub open spec fn without_selection(self, pane_id: PaneId) -> ClientModel {
        ClientModel { selections: self.selections.remove(pane_id.value), ..self }
    }

    /// The client scrolled `scroll_offset` rows up in a pane.
    pub open spec fn with_scroll_offset(self, pane_id: PaneId, scroll_offset: usize) -> ClientModel {
        ClientModel {
            scroll_offsets: self.scroll_offsets.insert(pane_id.value, scroll_offset),
            ..self
        }
    }

    /// The client without anything highlighted or scrolled in a pane.
    pub open spec fn without_pane(self, pane_id: PaneId) -> ClientModel {
        ClientModel {
            selections: self.selections.remove(pane_id.value),
            scroll_offsets: self.scroll_offsets.remove(pane_id.value),
            ..self
        }
    }
}

impl Client {
    /// A client that has highlighted and scrolled nothing.
    pub fn new(client_id: ClientId, session_id: SessionId) -> (r: Client)
        ensures
            r@ == ClientModel::fresh(client_id, session_id),
    {
        Client {
            client_id,
            session_id,
            selection_by_pane_id: HashMap::new(),
            scroll_offset_by_pane_id: HashMap::new(),
        }
    }

    /// The client's identity.
    pub fn get_client_id(&self) -> (r: ClientId)
        ensures
            r == self@.client_id,
    {
        self.client_id
    }

    /// The session the client is attached to.
    pub fn get_session_id(&self) -> (r: SessionId)
        ensures
            r == self@.session_id,
    {
        self.session_id
    }

    /// The client's highlight in a pane.
    pub fn get_selection(&self, pane_id: PaneId) -> (r: Option<Selection>)
        ensures
            r == self@.selection(pane_id),
    {
        match self.selection_by_pane_id.get(&pane_id.value) {
            Some(selection) => Some(*selection),
            None => None,
        }
    }

    /// Make `selection` the client's highlight in a pane, in place of any it had
    /// there.
    pub fn set_selection(&mut self, pane_id: PaneId, selection: Selection)
        ensures
            final(self)@ == old(self)@.with_selection(pane_id, selection),
    {
        self.selection_by_pane_id.insert(pane_id.value, selection);
    }

    /// Drop the client's highlight in a pane.
    pub fn clear_selection(&mut self, pane_id: PaneId)
        ensures
            final(self)@ == old(self)@.without_selection(pane_id),
    {
        self.selection_by_pane_id.remove(&pane_id.value);
    }

    /// How far up the client has scrolled in a pane. Zero follows live output.
    pub fn get_scroll_offset(&self, pane_id: PaneId) -> (r: usize)
        ensures
            r == self@.scroll_offset(pane_id),
    {
        match self.scroll_offset_by_pane_id.get(&pane_id.value) {
            Some(scroll_offset) => *scroll_offset,
            None => 0,
        }
    }

    /// Scroll the client's view of a pane to `scroll_offset` rows above live
    /// output.
    pub fn set_scroll_offset(&mut self, pane_id: PaneId, scroll_offset: usize)
        ensures
            final(self)@ == old(self)@.with_scroll_offset(pane_id, scroll_offset),
    {
        self.scroll_offset_by_pane_id.insert(pane_id.value, scroll_offset);
    }

    /// Drop what the client has highlighted and scrolled in a pane.
    pub fn forget_pane(&mut self, pane_id: PaneId)
        ensures
            final(self)@ == old(self)@.without_pane(pane_id),
    {
        self.selection_by_pane_id.remove(&pane_id.value);
        self.scroll_offset_by_pane_id.remove(&pane_id.value);
    }

    /// Whether output leaves the client's view of a pane where it is.
    pub fn is_view_held(&self, pane_id: PaneId) -> (r: bool)
        ensures
            r == self@.is_view_held(pane_id),
    {
        self.get_selection(pane_id).is_some() || self.get_scroll_offset(pane_id) != 0
    }
}

} // verus!
