//! The server's state as highlight commands see it: sessions with their panes,
//! attached clients, the text of each pane, and what waits to be sent out.

use std::collections::HashMap;
use std::collections::HashSet;
use vstd::prelude::*;

use crate::client::{Client, ClientModel};
use crate::command::{CommandSource, CopyTarget, Selection};
use crate::ids::{ClientId, CommandId, PaneId, SessionId};
use crate::outcome::{CommandResult, Event, RejectReason, Rejection};
use crate::snap::snapped;
use crate::text_view::{TextModel, TextView};

verus! {

broadcast use vstd::std_specs::hash::group_hash_axioms;

/// The panes of one session.
#[derive(Debug, PartialEq, Eq)]
pub struct Session {
    pane_ids: HashSet<u128>,
}

impl View for Session {
    type V = Set<u128>;

    closed spec fn view(&self) -> Set<u128> {
        self.pane_ids@
    }
}

/// Text on its way to a clipboard, on behalf of a client.
#[derive(Debug, PartialEq, Eq)]
pub struct ClipboardWrite {
    pub client_id: ClientId,
    pub clipboard_target: CopyTarget,
    pub text: String,
}

/// What a [`ClipboardWrite`] says.
pub struct ClipboardWriteModel {
    pub client_id: ClientId,
    pub clipboard_target: CopyTarget,
    pub text: Seq<char>,
}

impl View for ClipboardWrite {
    type V = ClipboardWriteModel;

    open spec fn view(&self) -> ClipboardWriteModel {
        ClipboardWriteModel {
            client_id: self.client_id,
            clipboard_target: self.clipboard_target,
            text: self.text@,
        }
    }
}

/// What each write says, in order.
pub open spec fn model_of_writes(writes: Seq<ClipboardWrite>) -> Seq<ClipboardWriteModel> {
    writes.map_values(|clipboard_write: ClipboardWrite| clipboard_write@)
}

/// The writes on behalf of a client, in order.
pub open spec fn writes_of(writes: Seq<ClipboardWriteModel>, client_id: ClientId) -> Seq<
    ClipboardWriteModel,
> {
    writes.filter(
        |clipboard_write: ClipboardWriteModel| clipboard_write.client_id == client_id,
    )
}

/// The writes on behalf of everyone else, in order.
pub open spec fn writes_of_others(writes: Seq<ClipboardWriteModel>, client_id: ClientId) -> Seq<
    ClipboardWriteModel,
> {
    writes.filter(
        |clipboard_write: ClipboardWriteModel| clipboard_write.client_id != client_id,
    )
}

/// One more write goes behind the client's own writes or behind the others.
proof fn lemma_one_more_write(
    writes: Seq<ClipboardWriteModel>,
    index: int,
    client_id: ClientId,
)
    requires
        0 <= index < writes.len(),
    ensures
        writes_of(writes.take(index + 1), client_id) == (if writes[index].client_id == client_id {
            writes_of(writes.take(index), client_id).push(writes[index])
        } else {
            writes_of(writes.take(index), client_id)
        }),
        writes_of_others(writes.take(index + 1), client_id) == (if writes[index].client_id
            == client_id {
            writes_of_others(writes.take(index), client_id)
        } else {
            writes_of_others(writes.take(index), client_id).push(writes[index])
        }),
{
    reveal(Seq::filter);
    assert(writes.take(index + 1).drop_last() =~= writes.take(index));
}

/// Committed events that have not been handed to the subscribers yet, oldest
/// first.
#[derive(Debug, PartialEq, Eq)]
pub struct EventBus {
    pending_events: Vec<Event>,
}

impl View for EventBus {
    type V = Seq<Event>;

    closed spec fn view(&self) -> Seq<Event> {
        self.pending_events@
    }
}

impl EventBus {
    /// A bus with nothing on it.
    pub fn new() -> (r: EventBus)
        ensures
            r@ == Seq::<Event>::empty(),
    {
        EventBus { pending_events: Vec::new() }
    }

    /// Put `event` behind the events already on the bus.
    pub fn publish(&mut self, event: Event)
        ensures
            final(self)@ == old(self)@.push(event),
    {
        self.pending_events.push(event);
    }

    /// Take every event off the bus, oldest first.
    pub fn take_pending_events(&mut self) -> (r: Vec<Event>)
        ensures
            r@ == old(self)@,
            final(self)@ == Seq::<Event>::empty(),
    {
        let mut pending_events: Vec<Event> = Vec::new();
        pending_events.append(&mut self.pending_events);
        pending_events
    }
}

/// The server of every session on this machine.
#[derive(Debug, PartialEq, Eq)]
pub struct Server {
    session_by_id: HashMap<u128, Session>,
    client_by_id: HashMap<u128, Client>,
    text_view_by_pane_id: HashMap<u128, TextView>,
    event_bus: EventBus,
    clipboard_writes: Vec<ClipboardWrite>,
}

/// What a [`Server`] holds. Ids key the maps by their value.
#[verifier::ext_equal]
pub struct ServerModel {
    /// The panes of each session.
    pub sessions: Map<u128, Set<u128>>,
    /// The attached clients of every session.
    pub clients: Map<u128, ClientModel>,
    /// The text of each pane that runs a terminal.
    pub text_views: Map<u128, TextModel>,
    /// Committed events on their way to the subscribers.
    pub pending_events: Seq<Event>,
    /// Copied text on its way to a clipboard.
    pub clipboard_writes: Seq<ClipboardWriteModel>,
}

impl View for Server {
    type V = ServerModel;

    closed spec fn view(&self) -> ServerModel {
        ServerModel {
            sessions: self.session_by_id@.map_values(|session: Session| session@),
            clients: self.client_by_id@.map_values(|client: Client| client@),
            text_views: self.text_view_by_pane_id@.map_values(|text_view: TextView| text_view@),
            pending_events: self.event_bus@,
            clipboard_writes: model_of_writes(self.clipboard_writes@),
        }
    }
}

impl ServerModel {
    /// A server with nothing in it.
    pub open spec fn empty() -> ServerModel {
        ServerModel {
            sessions: Map::empty(),
            clients: Map::empty(),
            text_views: Map::empty(),
            pending_events: Seq::empty(),
            clipboard_writes: Seq::empty(),
        }
    }

    /// Every client is recorded under its own id and attached to a session the
    /// server runs. A new server is so, and every function of [`Server`] keeps
    /// it but [`Server::get_client_mut`], whose caller decides what the client
    /// becomes.
    pub open spec fn has_sound_clients(self) -> bool {
        forall|client_id: u128| #[trigger]
            self.clients.contains_key(client_id) ==> self.clients[client_id].client_id.value
                == client_id && self.sessions.contains_key(
                self.clients[client_id].session_id.value,
            )
    }

    /// The server without the pane in that session: the pane's text is gone, and
    /// so is what any client has highlighted or scrolled in it. A session that
    /// does not hold the pane loses nothing.
    pub open spec fn without_pane(self, session_id: SessionId, pane_id: PaneId) -> ServerModel {
        if self.session_has_pane(session_id, pane_id) {
            ServerModel {
                sessions: self.sessions.insert(
                    session_id.value,
                    self.sessions[session_id.value].remove(pane_id.value),
                ),
                clients: self.clients.map_values(
                    |client: ClientModel| client.without_pane(pane_id),
                ),
                text_views: self.text_views.remove(pane_id.value),
                ..self
            }
        } else {
            self
        }
    }

    /// The client is attached to some session.
    pub open spec fn has_client(self, client_id: ClientId) -> bool {
        self.clients.contains_key(client_id.value)
    }

    /// The client, where it is attached.
    pub open spec fn client(self, client_id: ClientId) -> ClientModel
        recommends
            self.has_client(client_id),
    {
        self.clients[client_id.value]
    }

    /// The session holds the pane.
    pub open spec fn session_has_pane(self, session_id: SessionId, pane_id: PaneId) -> bool {
        self.sessions.contains_key(session_id.value) && self.sessions[session_id.value].contains(
            pane_id.value,
        )
    }

    /// Why a highlight command from `command_source` on `pane_id` is refused, if
    /// it is: no attached client issued it, or the client's session does not
    /// hold the pane.
    pub open spec fn refusal(self, command_source: CommandSource, pane_id: PaneId) -> Option<
        RejectReason,
    > {
        match command_source.issuing_client_id() {
            None => Some(RejectReason::SourceClientStale),
            Some(client_id) => self.client_refusal(client_id, pane_id),
        }
    }

    /// Why a highlight command of `client_id` on `pane_id` is refused, if it is.
    pub open spec fn client_refusal(self, client_id: ClientId, pane_id: PaneId) -> Option<
        RejectReason,
    > {
        if !self.has_client(client_id) {
            Some(RejectReason::SourceClientStale)
        } else if !self.session_has_pane(self.client(client_id).session_id, pane_id) {
            Some(RejectReason::TargetGone)
        } else {
            None
        }
    }

    /// The highlight that a drag over a pane stores. A pane with no terminal
    /// text keeps the drag as it is.
    pub open spec fn stored_selection(self, pane_id: PaneId, selection: Selection) -> Selection {
        if self.text_views.contains_key(pane_id.value) {
            snapped(self.text_views[pane_id.value], selection)
        } else {
            selection
        }
    }

    /// The server with `client` in place of the client of that id.
    pub open spec fn with_client(self, client_id: ClientId, client: ClientModel) -> ServerModel {
        ServerModel { clients: self.clients.insert(client_id.value, client), ..self }
    }

    /// Recording a client of a running session under its own id keeps the clients
    /// sound.
    pub proof fn lemma_with_client_keeps_clients_sound(self, client_id: ClientId, client: ClientModel)
        requires
            self.has_sound_clients(),
            client.client_id == client_id,
            self.sessions.contains_key(client.session_id.value),
        ensures
            self.with_client(client_id, client).has_sound_clients(),
    {
    }

    /// Dropping a pane keeps the clients sound.
    pub proof fn lemma_without_pane_keeps_clients_sound(
        self,
        session_id: SessionId,
        pane_id: PaneId,
    )
        ensures
            self.has_sound_clients() ==> self.without_pane(session_id, pane_id).has_sound_clients(),
    {
        let after = self.without_pane(session_id, pane_id);
        if self.has_sound_clients() {
            assert forall|client_id: u128| #[trigger]
                after.clients.contains_key(client_id) implies after.clients[client_id].client_id.value
                == client_id && after.sessions.contains_key(
                after.clients[client_id].session_id.value,
            ) by {
                assert(self.clients.contains_key(client_id));
            }
        }
    }

    /// The server with `events` behind the pending ones.
    pub open spec fn with_events(self, events: Seq<Event>) -> ServerModel {
        ServerModel { pending_events: self.pending_events + events, ..self }
    }

    /// The server with `text` on its way to a clipboard. Empty text goes nowhere.
    pub open spec fn with_copied_text(
        self,
        client_id: ClientId,
        clipboard_target: CopyTarget,
        text: Seq<char>,
    ) -> ServerModel {
        if text.len() == 0 {
            self
        } else {
            ServerModel {
                clipboard_writes: self.clipboard_writes.push(
                    ClipboardWriteModel { client_id, clipboard_target, text },
                ),
                ..self
            }
        }
    }
}

impl Server {
    /// A server with nothing in it.
    pub fn new() -> (r: Server)
        ensures
            r@ == ServerModel::empty(),
            r@.has_sound_clients(),
    {
        let server = Server {
            session_by_id: HashMap::new(),
            client_by_id: HashMap::new(),
            text_view_by_pane_id: HashMap::new(),
            event_bus: EventBus::new(),
            clipboard_writes: Vec::new(),
        };
        assert(server@ =~= ServerModel::empty());
        server
    }

    /// The attached client of that id.
    pub fn get_client(&self, client_id: ClientId) -> (r: Option<&Client>)
        ensures
            r is Some <==> self@.has_client(client_id),
            r matches Some(client) ==> client@ == self@.client(client_id),
    {
        self.client_by_id.get(&client_id.value)
    }

    /// The attached client of that id, to be changed in place.
    pub fn get_client_mut(&mut self, client_id: ClientId) -> (r: Option<&mut Client>)
        ensures
            r is Some <==> old(self)@.has_client(client_id),
            r matches Some(client) ==> client@ == old(self)@.client(client_id) && final(self)@
                == old(self)@.with_client(client_id, final(client)@),
            r is None ==> final(self)@ == old(self)@,
    {
        match self.client_by_id.entry(client_id.value) {
            std::collections::hash_map::Entry::Occupied(entry) => Some(entry.into_mut()),
            std::collections::hash_map::Entry::Vacant(_) => None,
        }
    }

    /// Start a session with no panes, in place of any of that id.
    pub fn insert_session(&mut self, session_id: SessionId)
        ensures
            final(self)@ == (ServerModel {
                sessions: old(self)@.sessions.insert(session_id.value, Set::empty()),
                ..old(self)@
            }),
            old(self)@.has_sound_clients() ==> final(self)@.has_sound_clients(),
    {
        self.session_by_id.insert(session_id.value, Session { pane_ids: HashSet::new() });
        assert(self@.sessions =~= old(self)@.sessions.insert(session_id.value, Set::empty()));
    }

    /// Record a pane in a session. A session the server does not run records
    /// nothing.
    pub fn register_pane(&mut self, session_id: SessionId, pane_id: PaneId)
        ensures
            final(self)@ == (if old(self)@.sessions.contains_key(session_id.value) {
                ServerModel {
                    sessions: old(self)@.sessions.insert(
                        session_id.value,
                        old(self)@.sessions[session_id.value].insert(pane_id.value),
                    ),
                    ..old(self)@
                }
            } else {
                old(self)@
            }),
            old(self)@.has_sound_clients() ==> final(self)@.has_sound_clients(),
    {
        match self.session_by_id.remove(&session_id.value) {
            Some(mut session) => {
                session.pane_ids.insert(pane_id.value);
                self.session_by_id.insert(session_id.value, session);
                assert(self@.sessions =~= old(self)@.sessions.insert(
                    session_id.value,
                    old(self)@.sessions[session_id.value].insert(pane_id.value),
                ));
            },
            None => {
                assert(self@.sessions =~= old(self)@.sessions);
            },
        }
    }

    /// Drop a pane from a session, together with its text and with what every
    /// client has highlighted and scrolled in it: a highlight over a pane that is
    /// gone would hold a view of nothing. A session that does not hold the pane
    /// loses nothing.
    pub fn remove_pane(&mut self, session_id: SessionId, pane_id: PaneId)
        ensures
            final(self)@ == old(self)@.without_pane(session_id, pane_id),
            old(self)@.has_sound_clients() ==> final(self)@.has_sound_clients(),
    {
        match self.is_pane_in_session(session_id, pane_id) {
            Some(true) => {},
            _ => {
                return ;
            },
        }
        if let Some(mut session) = self.session_by_id.remove(&session_id.value) {
            session.pane_ids.remove(&pane_id.value);
            self.session_by_id.insert(session_id.value, session);
        }
        assert(self@.sessions =~= old(self)@.sessions.insert(
            session_id.value,
            old(self)@.sessions[session_id.value].remove(pane_id.value),
        ));
        self.text_view_by_pane_id.remove(&pane_id.value);
        assert(self@.text_views =~= old(self)@.text_views.remove(pane_id.value));
        self.forget_pane(pane_id);
        assert(self@ == old(self)@.without_pane(session_id, pane_id));
        proof {
            old(self)@.lemma_without_pane_keeps_clients_sound(session_id, pane_id);
        }
    }

    /// Drop what every client has highlighted and scrolled in a pane.
    fn forget_pane(&mut self, pane_id: PaneId)
        ensures
            final(self)@ == (ServerModel {
                clients: old(self)@.clients.map_values(
                    |client: ClientModel| client.without_pane(pane_id),
                ),
                ..old(self)@
            }),
    {
        let client_ids = self.list_client_ids();
        let ghost before = self@.clients;
        let mut index: usize = 0;
        while index < client_ids.len()
            invariant
                index <= client_ids@.len(),
                client_ids@.to_set() == before.dom(),
                client_ids@.no_duplicates(),
                self@.clients.dom() == before.dom(),
                forall|i: int|
                    0 <= i < index ==> self@.clients[#[trigger] client_ids@[i]]
                        == before[client_ids@[i]].without_pane(pane_id),
                forall|i: int|
                    index <= i < client_ids@.len() ==> self@.clients[#[trigger] client_ids@[i]]
                        == before[client_ids@[i]],
                self@ == (ServerModel { clients: self@.clients, ..old(self)@ }),
            decreases client_ids@.len() - index,
        {
            assert(client_ids@.to_set().contains(client_ids@[index as int]));
            if let Some(client) = self.get_client_mut(ClientId { value: client_ids[index] }) {
                client.forget_pane(pane_id);
            }
            index = index + 1;
        }
        assert forall|client_id: u128| #[trigger] before.contains_key(client_id) implies
            self@.clients[client_id] == before[client_id].without_pane(pane_id) by {
            assert(client_ids@.to_set().contains(client_id));
            let i = client_ids@.index_of(client_id);
            assert(client_ids@[i] == client_id);
        }
        assert(self@.clients =~= before.map_values(
            |client: ClientModel| client.without_pane(pane_id),
        ));
    }

    /// The ids of every attached client, each once, in no particular order.
    fn list_client_ids(&self) -> (r: Vec<u128>)
        ensures
            r@.to_set() == self@.clients.dom(),
            r@.no_duplicates(),
    {
        let mut client_ids: Vec<u128> = Vec::new();
        for client_id in ids: self.client_by_id.keys()
            invariant
                client_ids@ =~= ids.seq().unref().take(ids.index()),
                ids.seq().unref().take(ids.seq().len() as int) =~= ids.seq().unref(),
                ids.seq().unref().to_set() == self.client_by_id@.dom(),
        {
            client_ids.push(*client_id);
        }
        assert(self@.clients.dom() =~= self.client_by_id@.dom());
        client_ids
    }

    /// Attach a client to a session. Attaching again to the same session keeps
    /// what the client has highlighted and scrolled; moving to another session
    /// starts it afresh there. A session the server does not run attaches no one.
    pub fn attach_client(&mut self, session_id: SessionId, client_id: ClientId)
        ensures
            final(self)@ == (if old(self)@.sessions.contains_key(session_id.value) && !(
            old(self)@.has_client(client_id) && old(self)@.client(client_id).session_id
                == session_id) {
                old(self)@.with_client(client_id, ClientModel::fresh(client_id, session_id))
            } else {
                old(self)@
            }),
            old(self)@.has_sound_clients() ==> final(self)@.has_sound_clients(),
    {
        if !self.session_by_id.contains_key(&session_id.value) {
            return ;
        }
        if let Some(client) = self.get_client(client_id) {
            if client.get_session_id() == session_id {
                return ;
            }
        }
        self.client_by_id.insert(client_id.value, Client::new(client_id, session_id));
        assert(self@.clients =~= old(self)@.clients.insert(
            client_id.value,
            ClientModel::fresh(client_id, session_id),
        ));
        proof {
            if old(self)@.has_sound_clients() {
                old(self)@.lemma_with_client_keeps_clients_sound(
                    client_id,
                    ClientModel::fresh(client_id, session_id),
                );
            }
        }
    }

    /// Detach a client. Its highlights leave with it.
    pub fn detach_client(&mut self, client_id: ClientId)
        ensures
            final(self)@ == (ServerModel {
                clients: old(self)@.clients.remove(client_id.value),
                ..old(self)@
            }),
            old(self)@.has_sound_clients() ==> final(self)@.has_sound_clients(),
    {
        self.client_by_id.remove(&client_id.value);
        assert(self@.clients =~= old(self)@.clients.remove(client_id.value));
    }

    /// Make `text_view` the text of a pane, as its terminal holds it now.
    pub fn put_text_view(&mut self, pane_id: PaneId, text_view: TextView)
        ensures
            final(self)@ == (ServerModel {
                text_views: old(self)@.text_views.insert(pane_id.value, text_view@),
                ..old(self)@
            }),
            old(self)@.has_sound_clients() ==> final(self)@.has_sound_clients(),
    {
        self.text_view_by_pane_id.insert(pane_id.value, text_view);
        assert(self@.text_views =~= old(self)@.text_views.insert(pane_id.value, text_view@));
    }

    /// Forget the text of a pane that runs no terminal any more.
    pub fn remove_text_view(&mut self, pane_id: PaneId)
        ensures
            final(self)@ == (ServerModel {
                text_views: old(self)@.text_views.remove(pane_id.value),
                ..old(self)@
            }),
            old(self)@.has_sound_clients() ==> final(self)@.has_sound_clients(),
    {
        self.text_view_by_pane_id.remove(&pane_id.value);
        assert(self@.text_views =~= old(self)@.text_views.remove(pane_id.value));
    }

    /// The text of a pane, where it runs a terminal.
    pub fn get_text_view(&self, pane_id: PaneId) -> (r: Option<&TextView>)
        ensures
            r is Some <==> self@.text_views.contains_key(pane_id.value),
            r matches Some(text_view) ==> text_view@ == self@.text_views[pane_id.value]
                && text_view@.is_well_formed(),
    {
        match self.text_view_by_pane_id.get(&pane_id.value) {
            Some(text_view) => {
                proof {
                    use_type_invariant(text_view);
                }
                Some(text_view)
            },
            None => None,
        }
    }

    /// The client that issued a command. A source that names no client has no
    /// highlight to touch.
    pub fn resolve_issuing_client_id(command_source: &CommandSource) -> (r: Result<
        ClientId,
        Rejection,
    >)
        ensures
            match command_source.issuing_client_id() {
                Some(client_id) => r == Ok::<ClientId, Rejection>(client_id),
                None => r == Err::<ClientId, Rejection>(
                    Rejection { reason: RejectReason::SourceClientStale, help: None },
                ),
            },
    {
        match command_source.find_issuing_client_id() {
            Some(client_id) => Ok(client_id),
            None => Err(Rejection::from_reason(RejectReason::SourceClientStale)),
        }
    }

    /// Whether the session holds the pane. None where the server does not run the
    /// session.
    pub fn is_pane_in_session(&self, session_id: SessionId, pane_id: PaneId) -> (r: Option<bool>)
        ensures
            r == (if self@.sessions.contains_key(session_id.value) {
                Some(self@.session_has_pane(session_id, pane_id))
            } else {
                None
            }),
    {
        match self.session_by_id.get(&session_id.value) {
            Some(session) => Some(session.pane_ids.contains(&pane_id.value)),
            None => None,
        }
    }

    /// Confirm that the client is attached and that its session holds the pane.
    pub fn validate_pane_exists(&self, client_id: ClientId, pane_id: PaneId) -> (r: Result<
        (),
        Rejection,
    >)
        ensures
            match self@.client_refusal(client_id, pane_id) {
                None => r == Ok::<(), Rejection>(()),
                Some(reason) => r == Err::<(), Rejection>(Rejection { reason, help: None }),
            },
    {
        match self.get_client(client_id) {
            Some(client) => {
                match self.is_pane_in_session(client.get_session_id(), pane_id) {
                    Some(true) => Ok(()),
                    _ => Err(Rejection::from_reason(RejectReason::TargetGone)),
                }
            },
            None => Err(Rejection::from_reason(RejectReason::SourceClientStale)),
        }
    }

    /// Publish `events` in order and answer the command with them.
    pub fn commit_events(&mut self, command_id: CommandId, events: Vec<Event>) -> (r: CommandResult)
        ensures
            final(self)@ == old(self)@.with_events(events@),
            r == (CommandResult::Applied { command_id, emitted_events: events }),
    {
        let mut index: usize = 0;
        while index < events.len()
            invariant
                index <= events@.len(),
                self@ == old(self)@.with_events(events@.take(index as int)),
            decreases events@.len() - index,
        {
            self.event_bus.publish(events[index]);
            assert(events@.take(index + 1) =~= events@.take(index as int).push(
                events@[index as int],
            ));
            index = index + 1;
        }
        assert(events@.take(index as int) =~= events@);
        CommandResult::Applied { command_id, emitted_events: events }
    }

    /// Take every committed event that no subscriber has been handed yet, oldest
    /// first.
    pub fn take_pending_events(&mut self) -> (r: Vec<Event>)
        ensures
            r@ == old(self)@.pending_events,
            final(self)@ == (ServerModel { pending_events: Seq::empty(), ..old(self)@ }),
    {
        self.event_bus.take_pending_events()
    }

    /// Take the copied text that waits to be written on behalf of a client,
    /// oldest first. None where nothing waits.
    pub fn take_host_writes(&mut self, client_id: ClientId) -> (r: Option<Vec<ClipboardWrite>>)
        ensures
            match r {
                Some(taken) => model_of_writes(taken@).len() > 0 && model_of_writes(taken@)
                    == writes_of(old(self)@.clipboard_writes, client_id),
                None => writes_of(old(self)@.clipboard_writes, client_id).len() == 0,
            },
            final(self)@ == (ServerModel {
                clipboard_writes: writes_of_others(old(self)@.clipboard_writes, client_id),
                ..old(self)@
            }),
    {
        let ghost all = self@.clipboard_writes;
        let mut waiting: Vec<ClipboardWrite> = Vec::new();
        waiting.append(&mut self.clipboard_writes);
        let mut taken: Vec<ClipboardWrite> = Vec::new();
        assert(model_of_writes(waiting@) =~= all.skip(0));
        proof {
            reveal(Seq::filter);
        }
        while waiting.len() > 0
            invariant
                waiting@.len() <= all.len(),
                model_of_writes(waiting@) == all.skip(all.len() - waiting@.len()),
                model_of_writes(taken@) == writes_of(
                    all.take(all.len() - waiting@.len()),
                    client_id,
                ),
                self@ == (ServerModel {
                    clipboard_writes: writes_of_others(
                        all.take(all.len() - waiting@.len()),
                        client_id,
                    ),
                    ..old(self)@
                }),
            decreases waiting@.len(),
        {
            let ghost before = waiting@;
            let ghost handled = all.len() - before.len();
            let ghost others = model_of_writes(self.clipboard_writes@);
            let ghost mine = model_of_writes(taken@);
            let clipboard_write = waiting.remove(0);
            assert(clipboard_write@ == all.skip(handled)[0]);
            assert forall|i: int| 0 <= i < waiting@.len() implies #[trigger] waiting@[i]@
                == all.skip(handled + 1)[i] by {
                assert(model_of_writes(before)[i + 1] == all.skip(handled)[i + 1]);
            }
            assert(model_of_writes(waiting@) =~= all.skip(handled + 1));
            proof {
                lemma_one_more_write(all, handled, client_id);
            }
            if clipboard_write.client_id == client_id {
                taken.push(clipboard_write);
                assert(model_of_writes(taken@) =~= mine.push(all[handled]));
            } else {
                self.clipboard_writes.push(clipboard_write);
                assert(model_of_writes(self.clipboard_writes@) =~= others.push(all[handled]));
            }
        }
        assert(all.take(all.len() as int) =~= all);
        if taken.len() > 0 {
            Some(taken)
        } else {
            None
        }
    }

    /// Send `text` on its way to a clipboard.
    pub fn copy_to_clipboard(
        &mut self,
        client_id: ClientId,
        clipboard_target: CopyTarget,
        text: String,
    )
        ensures
            final(self)@ == (ServerModel {
                clipboard_writes: old(self)@.clipboard_writes.push(
                    ClipboardWriteModel { client_id, clipboard_target, text: text@ },
                ),
                ..old(self)@
            }),
    {
        self.clipboard_writes.push(ClipboardWrite { client_id, clipboard_target, text });
        assert(self@.clipboard_writes =~= old(self)@.clipboard_writes.push(
            ClipboardWriteModel { client_id, clipboard_target, text: text@ },
        ));
    }
}

} // verus!
