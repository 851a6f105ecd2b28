//! The gateway's registry: connection sessions, conversation-to-actor
//! bindings, and conversation display metadata.
//!
//! The registry is a plain value. The host passes it into every event and
//! persists it afterwards; nothing here performs I/O. The two
//! conversation-keyed maps are kept in lockstep: a conversation has an
//! actor binding exactly when it has a metadata entry
//! ([`InterfaceState::wf`]), and the single registration operation
//! maintains that.

use vstd::prelude::*;
use vstd::hash_map::HashMapWithView;
use vstd::hash_map::StringHashMap;
use vstd::map::*;
use crate::protocol::ConversationMetadata;

verus! {

broadcast use vstd::std_specs::hash::group_hash_axioms;

/// Information about one client connection.
pub struct ConnectionInfo {
    /// Unique identifier for this connection.
    pub connection_id: u64,
    /// Currently active conversation for this connection, if any.
    pub active_conversation_id: Option<String>,
    /// When the connection was established (timestamp).
    pub connected_at: u64,
    /// When the connection was last active (timestamp).
    pub last_activity: u64,
}

/// Configuration for the serving host.
pub struct ServerConfig {
    /// Port to listen on.
    pub port: u16,
    /// Host address to bind to.
    pub host: String,
    /// Maximum number of connections to allow.
    pub max_connections: u32,
}

// ---------------------------------------------------------------------------
// A map from conversation id to metadata, stored as an association list so
// that its entries can be listed and cloned. Keys are unique; the view is
// the corresponding mathematical map.
// ---------------------------------------------------------------------------

/// The metadata entries, keyed by conversation id.
pub struct MetadataMap {
    entries: Vec<(String, ConversationMetadata)>,
}

spec fn unique_keys(s: Seq<(String, ConversationMetadata)>) -> bool {
    forall|i: int, j: int| 0 <= i < j < s.len() ==> s[i].0@ != s[j].0@
}

spec fn entries_as_map(s: Seq<(String, ConversationMetadata)>) -> Map<
    Seq<char>,
    ConversationMetadata,
>
    decreases s.len(),
{
    if s.len() == 0 {
        Map::empty()
    } else {
        entries_as_map(s.drop_last()).insert(s.last().0@, s.last().1)
    }
}

proof fn lemma_entries_as_map_dom(s: Seq<(String, ConversationMetadata)>)
    ensures
        forall|k: Seq<char>|
            entries_as_map(s).dom().contains(k) <==> (exists|i: int|
                0 <= i < s.len() && #[trigger] s[i].0@ == k),
    decreases s.len(),
{
    if s.len() > 0 {
        lemma_entries_as_map_dom(s.drop_last());
        assert forall|k: Seq<char>|
            entries_as_map(s).dom().contains(k) <==> (exists|i: int|
                0 <= i < s.len() && #[trigger] s[i].0@ == k) by {
            if entries_as_map(s).dom().contains(k) {
                if k == s.last().0@ {
                    assert(s[s.len() - 1].0@ == k);
                } else {
                    assert(entries_as_map(s.drop_last()).dom().contains(k));
                    let i = choose|i: int|
                        0 <= i < s.drop_last().len() && #[trigger] s.drop_last()[i].0@ == k;
                    assert(s.drop_last()[i] == s[i]);
                    assert(s[i].0@ == k);
                }
            }
            if exists|i: int| 0 <= i < s.len() && #[trigger] s[i].0@ == k {
                let i = choose|i: int| 0 <= i < s.len() && #[trigger] s[i].0@ == k;
                if i < s.len() - 1 {
                    assert(s.drop_last()[i].0@ == k);
                    assert(entries_as_map(s.drop_last()).dom().contains(k));
                }
            }
        }
    }
}

proof fn lemma_entries_as_map_at(s: Seq<(String, ConversationMetadata)>, i: int)
    requires
        unique_keys(s),
        0 <= i < s.len(),
    ensures
        entries_as_map(s).contains_pair(s[i].0@, s[i].1),
    decreases s.len(),
{
    if i == s.len() - 1 {
    } else {
        assert(unique_keys(s.drop_last()));
        lemma_entries_as_map_at(s.drop_last(), i);
        assert(s[i].0@ != s.last().0@);
    }
}

proof fn lemma_entries_as_map_push(
    s: Seq<(String, ConversationMetadata)>,
    key: String,
    value: ConversationMetadata,
)
    ensures
        entries_as_map(s.push((key, value))) == entries_as_map(s).insert(key@, value),
{
    assert(s.push((key, value)).drop_last() =~= s);
}

proof fn lemma_entries_as_map_update(
    s: Seq<(String, ConversationMetadata)>,
    i: int,
    key: String,
    value: ConversationMetadata,
)
    requires
        unique_keys(s),
        0 <= i < s.len(),
        s[i].0@ == key@,
    ensures
        entries_as_map(s.update(i, (key, value))) == entries_as_map(s).insert(key@, value),
    decreases s.len(),
{
    let t = s.update(i, (key, value));
    if i == s.len() - 1 {
        assert(t.drop_last() =~= s.drop_last());
        assert(t.last() == (key, value));
        assert(entries_as_map(s.drop_last()).insert(s.last().0@, s.last().1).insert(key@, value)
            =~= entries_as_map(s.drop_last()).insert(key@, value));
    } else {
        assert(unique_keys(s.drop_last()));
        assert(s.drop_last()[i] == s[i]);
        lemma_entries_as_map_update(s.drop_last(), i, key, value);
        assert(t.drop_last() =~= s.drop_last().update(i, (key, value)));
        assert(t.last() == s.last());
        assert(key@ != s.last().0@);
        assert(entries_as_map(s.drop_last()).insert(key@, value).insert(s.last().0@, s.last().1)
            =~= entries_as_map(s.drop_last()).insert(s.last().0@, s.last().1).insert(key@, value));
    }
}

/// What it means for a sequence of entries to list a metadata map exactly:
/// every listed pair is in the map, the listed keys are distinct, and every
/// key of the map is listed.
pub open spec fn lists_metadata(
    entries: Seq<(String, ConversationMetadata)>,
    m: Map<Seq<char>, ConversationMetadata>,
) -> bool {
    &&& forall|i: int| 0 <= i < entries.len() ==> m.contains_pair(#[trigger] entries[i].0@, entries[i].1)
    &&& forall|i: int, j: int| 0 <= i < j < entries.len() ==> entries[i].0@ != entries[j].0@
    &&& forall|k: Seq<char>|
        m.dom().contains(k) ==> (exists|i: int| 0 <= i < entries.len() && #[trigger] entries[i].0@ == k)
}

impl View for MetadataMap {
    type V = Map<Seq<char>, ConversationMetadata>;

    closed spec fn view(&self) -> Map<Seq<char>, ConversationMetadata> {
        entries_as_map(self.entries@)
    }
}

impl MetadataMap {
    /// Well-formedness: no conversation id occurs twice among the entries.
    /// Constructors establish it and every operation preserves it.
    pub closed spec fn wf(&self) -> bool {
        unique_keys(self.entries@)
    }

    /// An empty map.
    pub fn new() -> (result: Self)
        ensures
            result@ == Map::<Seq<char>, ConversationMetadata>::empty(),
            result.wf(),
    {
        MetadataMap { entries: Vec::new() }
    }

    /// The position of a key among the entries, if present.
    fn find_index(&self, key: &String) -> (r: Option<usize>)
        ensures
            match r {
                Some(i) => i < self.entries@.len() && self.entries@[i as int].0@ == key@,
                None => !self@.dom().contains(key@),
            },
    {
        proof {
            lemma_entries_as_map_dom(self.entries@);
        }
        let n = self.entries.len();
        let mut j: usize = 0;
        while j < n
            invariant
                n == self.entries@.len(),
                j <= n,
                forall|jj: int| 0 <= jj < j ==> self.entries@[jj].0@ != key@,
            decreases n - j,
        {
            if self.entries[j].0 == *key {
                return Some(j);
            }
            j = j + 1;
        }
        None
    }

    /// The entry for this conversation id, if present.
    pub fn get(&self, key: &String) -> (r: Option<&ConversationMetadata>)
        requires
            self.wf(),
        ensures
            match r {
                Some(v) => self@.contains_key(key@) && *v == self@[key@],
                None => !self@.contains_key(key@),
            },
    {
        match self.find_index(key) {
            Some(i) => {
                proof {
                    lemma_entries_as_map_at(self.entries@, i as int);
                }
                Some(&self.entries[i].1)
            },
            None => None,
        }
    }

    /// Insert an entry, overwriting any previous entry for the same id.
    pub fn insert(&mut self, key: String, value: ConversationMetadata)
        requires
            old(self).wf(),
        ensures
            final(self)@ == old(self)@.insert(key@, value),
            final(self).wf(),
    {
        match self.find_index(&key) {
            Some(i) => {
                proof {
                    lemma_entries_as_map_update(self.entries@, i as int, key, value);
                }
                self.entries.set(i, (key, value));
                assert(unique_keys(self.entries@)) by {
                    assert(forall|jj: int|
                        0 <= jj < self.entries@.len() && jj != i ==> self.entries@[jj]
                            == old(self).entries@[jj]);
                };
            },
            None => {
                proof {
                    lemma_entries_as_map_push(self.entries@, key, value);
                    lemma_entries_as_map_dom(self.entries@);
                }
                self.entries.push((key, value));
            },
        }
    }

    /// The number of conversations in the map.
    pub fn len(&self) -> (n: usize)
        requires
            self.wf(),
        ensures
            n == self@.dom().len(),
    {
        proof {
            lemma_entries_len(self.entries@);
        }
        self.entries.len()
    }

    /// All entries, cloned, in the map's storage order.
    pub fn to_entries(&self) -> (r: Vec<(String, ConversationMetadata)>)
        requires
            self.wf(),
        ensures
            lists_metadata(r@, self@),
    {
        proof {
            lemma_entries_as_map_dom(self.entries@);
        }
        let n = self.entries.len();
        let mut r: Vec<(String, ConversationMetadata)> = Vec::new();
        let mut j: usize = 0;
        while j < n
            invariant
                n == self.entries@.len(),
                j <= n,
                r@.len() == j,
                forall|jj: int| 0 <= jj < j ==> r@[jj] == self.entries@[jj],
            decreases n - j,
        {
            let key = self.entries[j].0.clone();
            let value = self.entries[j].1.clone();
            r.push((key, value));
            j = j + 1;
        }
        proof {
            assert(r@ =~= self.entries@);
            assert forall|i: int| 0 <= i < r@.len() implies self@.contains_pair(
                #[trigger] r@[i].0@,
                r@[i].1,
            ) by {
                lemma_entries_as_map_at(self.entries@, i);
            }
        }
        r
    }
}

proof fn lemma_entries_len(s: Seq<(String, ConversationMetadata)>)
    requires
        unique_keys(s),
    ensures
        entries_as_map(s).dom().len() == s.len(),
        entries_as_map(s).dom().finite(),
    decreases s.len(),
{
    if s.len() > 0 {
        assert(unique_keys(s.drop_last()));
        lemma_entries_len(s.drop_last());
        lemma_entries_as_map_dom(s.drop_last());
        assert(!entries_as_map(s.drop_last()).dom().contains(s.last().0@));
    }
}

// ---------------------------------------------------------------------------
// The registry itself.
// ---------------------------------------------------------------------------

/// The gateway's whole persisted state.
pub struct InterfaceState {
    /// Sessions of connected clients, keyed by connection id.
    pub connections: HashMapWithView<u64, ConnectionInfo>,
    /// Backend actor id for each conversation.
    pub conversation_actors: StringHashMap<String>,
    /// Display metadata for each conversation.
    pub conversation_metadata: MetadataMap,
    /// Server configuration.
    pub server_config: ServerConfig,
    /// Identifier of the content store backing this gateway.
    pub store_id: String,
}

impl InterfaceState {
    /// The actor and metadata maps are kept in lockstep: a conversation has
    /// an actor binding exactly when it has a metadata entry.
    pub open spec fn wf(self) -> bool {
        &&& self.conversation_actors@.dom() == self.conversation_metadata@.dom()
        &&& self.conversation_metadata.wf()
    }
}

/// The session created when a connection opens.
pub open spec fn fresh_connection(connection_id: u64, timestamp: u64) -> ConnectionInfo {
    ConnectionInfo {
        connection_id,
        active_conversation_id: None,
        connected_at: timestamp,
        last_activity: timestamp,
    }
}

/// The session after a conversation is made active on it.
pub open spec fn with_active_conversation(
    c: ConnectionInfo,
    conversation_id: String,
    timestamp: u64,
) -> ConnectionInfo {
    ConnectionInfo { active_conversation_id: Some(conversation_id), last_activity: timestamp, ..c }
}

/// The metadata record a fresh registration creates.
pub open spec fn fresh_metadata(id: String, title: String, timestamp: u64) -> ConversationMetadata {
    ConversationMetadata {
        id,
        title,
        created_at: timestamp,
        updated_at: timestamp,
        message_count: 0,
        last_message_preview: None,
    }
}

/// True when the two states agree on everything but the connection map.
pub open spec fn same_but_connections(pre: InterfaceState, post: InterfaceState) -> bool {
    &&& post.conversation_actors == pre.conversation_actors
    &&& post.conversation_metadata == pre.conversation_metadata
    &&& post.server_config == pre.server_config
    &&& post.store_id == pre.store_id
}

/// True when the two states agree on everything but the two
/// conversation-keyed maps.
pub open spec fn same_but_conversations(pre: InterfaceState, post: InterfaceState) -> bool {
    &&& post.connections == pre.connections
    &&& post.server_config == pre.server_config
    &&& post.store_id == pre.store_id
}

/// A fresh state with no connections and no conversations, the default
/// server configuration, and the given store.
pub fn new_interface_state(store_id: String) -> (state: InterfaceState)
    ensures
        state.connections@ == Map::<u64, ConnectionInfo>::empty(),
        state.conversation_actors@ == Map::<Seq<char>, String>::empty(),
        state.conversation_metadata@ == Map::<Seq<char>, ConversationMetadata>::empty(),
        state.server_config.port == 8080,
        state.server_config.host@ == "0.0.0.0"@,
        state.server_config.max_connections == 1000,
        state.store_id == store_id,
        state.wf(),
{
    let state = InterfaceState {
        connections: HashMapWithView::new(),
        conversation_actors: StringHashMap::new(),
        conversation_metadata: MetadataMap::new(),
        server_config: ServerConfig {
            port: 8080,
            host: "0.0.0.0".to_owned(),
            max_connections: 1000,
        },
        store_id,
    };
    proof {
        assert(state.conversation_actors@.dom() =~= state.conversation_metadata@.dom());
    }
    state
}

/// Add a new connection to the state; an existing session under the same id
/// is overwritten.
pub fn add_connection(state: &mut InterfaceState, connection_id: u64, timestamp: u64)
    ensures
        final(state).connections@ == old(state).connections@.insert(
            connection_id,
            fresh_connection(connection_id, timestamp),
        ),
        same_but_connections(*old(state), *final(state)),
{
    state.connections.insert(
        connection_id,
        ConnectionInfo {
            connection_id,
            active_conversation_id: None,
            connected_at: timestamp,
            last_activity: timestamp,
        },
    );
}

/// Remove a connection from the state; reports whether one existed.
pub fn remove_connection(state: &mut InterfaceState, connection_id: u64) -> (existed: bool)
    ensures
        existed == old(state).connections@.contains_key(connection_id),
        final(state).connections@ == old(state).connections@.remove(connection_id),
        same_but_connections(*old(state), *final(state)),
{
    let r = state.connections.remove(&connection_id);
    proof {
        if !old(state).connections@.contains_key(connection_id) {
            assert(old(state).connections@.remove(connection_id) =~= old(state).connections@);
        }
    }
    r.is_some()
}

/// Make a conversation the active one for a connection; fails (returning
/// false, changing nothing) if the connection id is unknown.
pub fn set_active_conversation(
    state: &mut InterfaceState,
    connection_id: u64,
    conversation_id: String,
    timestamp: u64,
) -> (known: bool)
    ensures
        known == old(state).connections@.contains_key(connection_id),
        known ==> final(state).connections@ == old(state).connections@.insert(
            connection_id,
            with_active_conversation(
                old(state).connections@[connection_id],
                conversation_id,
                timestamp,
            ),
        ),
        !known ==> *final(state) == *old(state),
        same_but_connections(*old(state), *final(state)),
{
    if state.connections.contains_key(&connection_id) {
        match state.connections.remove(&connection_id) {
            Some(conn) => {
                let updated = ConnectionInfo {
                    active_conversation_id: Some(conversation_id),
                    last_activity: timestamp,
                    ..conn
                };
                state.connections.insert(connection_id, updated);
                proof {
                    assert(final(state).connections@ =~= old(state).connections@.insert(
                        connection_id,
                        with_active_conversation(
                            old(state).connections@[connection_id],
                            conversation_id,
                            timestamp,
                        ),
                    ));
                }
            },
            None => {
                proof {
                    assert(false);
                }
            },
        }
        true
    } else {
        false
    }
}

/// Register a new conversation: atomically bind its backend actor and
/// create a fresh metadata record. A prior binding under the same id is
/// overwritten.
pub fn register_conversation_actor(
    state: &mut InterfaceState,
    conversation_id: String,
    actor_id: String,
    title: String,
    timestamp: u64,
)
    requires
        old(state).conversation_metadata.wf(),
    ensures
        final(state).conversation_metadata.wf(),
        final(state).conversation_actors@ == old(state).conversation_actors@.insert(
            conversation_id@,
            actor_id,
        ),
        final(state).conversation_metadata@ == old(state).conversation_metadata@.insert(
            conversation_id@,
            fresh_metadata(conversation_id, title, timestamp),
        ),
        same_but_conversations(*old(state), *final(state)),
        old(state).wf() ==> final(state).wf(),
{
    let metadata = ConversationMetadata {
        id: conversation_id.clone(),
        title,
        created_at: timestamp,
        updated_at: timestamp,
        message_count: 0,
        last_message_preview: None,
    };
    state.conversation_actors.insert(conversation_id.clone(), actor_id);
    state.conversation_metadata.insert(conversation_id, metadata);
    proof {
        if old(state).wf() {
            assert(final(state).conversation_actors@.dom() =~= final(state).conversation_metadata@.dom());
        }
    }
}

/// Restore one conversation's record as loaded from the store, binding the
/// actor that now serves it.
pub fn restore_conversation_record(
    state: &mut InterfaceState,
    conversation_id: String,
    actor_id: String,
    metadata: ConversationMetadata,
)
    requires
        old(state).conversation_metadata.wf(),
    ensures
        final(state).conversation_metadata.wf(),
        final(state).conversation_actors@ == old(state).conversation_actors@.insert(
            conversation_id@,
            actor_id,
        ),
        final(state).conversation_metadata@ == old(state).conversation_metadata@.insert(
            conversation_id@,
            metadata,
        ),
        same_but_conversations(*old(state), *final(state)),
        old(state).wf() ==> final(state).wf(),
{
    state.conversation_actors.insert(conversation_id.clone(), actor_id);
    state.conversation_metadata.insert(conversation_id, metadata);
    proof {
        if old(state).wf() {
            assert(final(state).conversation_actors@.dom() =~= final(state).conversation_metadata@.dom());
        }
    }
}

/// What `update_conversation_metadata` does to the one record it touches:
/// the supplied fields are replaced — the preview truncated to 50
/// characters (47 plus an ellipsis) when longer — the update time is
/// always advanced, and everything else is kept.
pub open spec fn metadata_updated(
    before: ConversationMetadata,
    after: ConversationMetadata,
    message_count: Option<u32>,
    last_message: Option<Seq<char>>,
    timestamp: u64,
) -> bool {
    &&& after.id == before.id
    &&& after.title == before.title
    &&& after.created_at == before.created_at
    &&& after.updated_at == timestamp
    &&& after.message_count == (match message_count {
        Some(c) => c,
        None => before.message_count,
    })
    &&& (match last_message {
        Some(s) => after.last_message_preview matches Some(p) && p@ == preview_of(s),
        None => after.last_message_preview == before.last_message_preview,
    })
}

/// The stored preview of a last message: the message itself when it has at
/// most 50 characters, else its first 47 characters and an ellipsis.
pub open spec fn preview_of(s: Seq<char>) -> Seq<char> {
    if s.len() <= 50 {
        s
    } else {
        s.subrange(0, 47) + "..."@
    }
}

/// The preview stored for a last message.
fn preview_string(message: String) -> (p: String)
    ensures
        p@ == preview_of(message@),
{
    let n = message.as_str().unicode_len();
    if n <= 50 {
        message
    } else {
        let mut p = message.as_str().substring_char(0, 47).to_owned();
        p.append("...");
        p
    }
}

/// Update a conversation's metadata record; fails (returning false,
/// changing nothing) if the conversation id is unregistered.
pub fn update_conversation_metadata(
    state: &mut InterfaceState,
    conversation_id: &str,
    message_count: Option<u32>,
    last_message: Option<String>,
    timestamp: u64,
) -> (known: bool)
    requires
        old(state).conversation_metadata.wf(),
    ensures
        final(state).conversation_metadata.wf(),
        known == old(state).conversation_metadata@.contains_key(conversation_id@),
        known ==> {
            &&& final(state).conversation_metadata@ == old(state).conversation_metadata@.insert(
                conversation_id@,
                final(state).conversation_metadata@[conversation_id@],
            )
            &&& metadata_updated(
                old(state).conversation_metadata@[conversation_id@],
                final(state).conversation_metadata@[conversation_id@],
                message_count,
                match last_message {
                    Some(s) => Some(s@),
                    None => None,
                },
                timestamp,
            )
        },
        !known ==> *final(state) == *old(state),
        same_but_conversations(*old(state), *final(state)),
        final(state).conversation_actors == old(state).conversation_actors,
        old(state).wf() ==> final(state).wf(),
{
    let key: String = conversation_id.to_owned();
    match state.conversation_metadata.get(&key) {
        Some(found) => {
            let mut updated = found.clone();
            if let Some(count) = message_count {
                updated.message_count = count;
            }
            if let Some(msg) = last_message {
                updated.last_message_preview = Some(preview_string(msg));
            }
            updated.updated_at = timestamp;
            state.conversation_metadata.insert(key, updated);
            proof {
                if old(state).wf() {
                    assert(final(state).conversation_actors@.dom() =~= final(state).conversation_metadata@.dom());
                }
            }
            true
        },
        None => false,
    }
}

/// Look up the backend actor serving a conversation.
pub fn get_actor_id_for_conversation(state: &InterfaceState, conversation_id: &str) -> (r: Option<
    String,
>)
    ensures
        match r {
            Some(actor) => state.conversation_actors@.contains_key(conversation_id@) && actor
                == state.conversation_actors@[conversation_id@],
            None => !state.conversation_actors@.contains_key(conversation_id@),
        },
{
    match state.conversation_actors.get(conversation_id) {
        Some(actor) => Some(actor.clone()),
        None => None,
    }
}

/// The conversation a connection currently has active, if any.
pub fn get_active_conversation(state: &InterfaceState, connection_id: u64) -> (r: Option<String>)
    ensures
        match r {
            Some(cid) => {
                &&& state.connections@.contains_key(connection_id)
                &&& state.connections@[connection_id].active_conversation_id matches Some(active)
                    && cid == active
            },
            None => !state.connections@.contains_key(connection_id)
                || state.connections@[connection_id].active_conversation_id is None,
        },
{
    match state.connections.get(&connection_id) {
        Some(conn) => match &conn.active_conversation_id {
            Some(cid) => Some(cid.clone()),
            None => None,
        },
        None => None,
    }
}

/// Registering a conversation and then looking it up always yields the
/// just-registered actor handle; and the metadata map gains exactly the
/// one new entry, a fresh record with a message count of zero.
pub proof fn lemma_register_then_lookup(
    pre: InterfaceState,
    post: InterfaceState,
    conversation_id: String,
    actor_id: String,
    title: String,
    timestamp: u64,
)
    requires
        post.conversation_actors@ == pre.conversation_actors@.insert(conversation_id@, actor_id),
        post.conversation_metadata@ == pre.conversation_metadata@.insert(
            conversation_id@,
            fresh_metadata(conversation_id, title, timestamp),
        ),
        pre.conversation_metadata.wf(),
    ensures
        post.conversation_actors@.contains_key(conversation_id@),
        post.conversation_actors@[conversation_id@] == actor_id,
        post.conversation_metadata@[conversation_id@].message_count == 0,
        post.conversation_metadata@.dom() == pre.conversation_metadata@.dom().insert(
            conversation_id@,
        ),
        !pre.conversation_metadata@.contains_key(conversation_id@)
            ==> post.conversation_metadata@.dom().len() == pre.conversation_metadata@.dom().len()
            + 1,
{
    lemma_entries_len(pre.conversation_metadata.entries@);
    assert(post.conversation_metadata@.dom() =~= pre.conversation_metadata@.dom().insert(
        conversation_id@,
    ));
}

} // verus!
