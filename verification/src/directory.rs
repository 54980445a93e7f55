//! The sessions and clients that the provider knows, held in memory.

use vstd::prelude::*;
use crate::iana::OAuthClientAuthenticationMethod;
use crate::oidc::GrantType;

verus! {

/// A browser session of a user.
#[derive(Clone, Debug, PartialEq, Eq)]
pub struct Session {
    pub id: u64,
    /// The user who owns the session.
    pub user: u64,
    pub created_at: u64,
    pub last_active_at: u64,
    /// When the session was terminated, if it was.
    pub finished_at: Option<u64>,
    /// The client that the session is tied to, if it is tied to one.
    pub client: Option<String>,
}

/// The mathematical content of a [`Session`].
pub struct SessionView {
    pub id: u64,
    pub user: u64,
    pub created_at: u64,
    pub last_active_at: u64,
    pub finished_at: Option<u64>,
    pub client: Option<Seq<char>>,
}

impl SessionView {
    /// A session is active until it is terminated.
    pub open spec fn is_active(self) -> bool {
        self.finished_at is None
    }

    /// The session after it was terminated at `now`.
    pub open spec fn finished(self, now: u64) -> SessionView {
        SessionView { finished_at: Some(now), ..self }
    }
}

impl View for Session {
    type V = SessionView;

    open spec fn view(&self) -> SessionView {
        SessionView {
            id: self.id,
            user: self.user,
            created_at: self.created_at,
            last_active_at: self.last_active_at,
            finished_at: self.finished_at,
            client: self.client.deep_view(),
        }
    }
}

impl DeepView for Session {
    type V = SessionView;

    open spec fn deep_view(&self) -> SessionView {
        self@
    }
}

impl Session {
    /// Tells whether the session has not been terminated.
    pub fn is_active(&self) -> (r: bool)
        ensures
            r == self@.is_active(),
    {
        self.finished_at.is_none()
    }
}

/// A relying party as it is registered with the provider.
#[derive(Clone, Debug, PartialEq, Eq)]
pub struct Client {
    pub client_id: String,
    /// Where authorization responses may be sent.
    pub redirect_uris: Vec<String>,
    /// Where the user may be sent after a logout.
    pub post_logout_redirect_uris: Vec<String>,
    pub token_endpoint_auth_method: OAuthClientAuthenticationMethod,
    pub grant_types: Vec<GrantType>,
}

/// The mathematical content of a [`Client`].
pub struct ClientView {
    pub client_id: Seq<char>,
    pub redirect_uris: Seq<Seq<char>>,
    pub post_logout_redirect_uris: Seq<Seq<char>>,
    pub token_endpoint_auth_method: OAuthClientAuthenticationMethod,
    pub grant_types: Seq<GrantType>,
}

impl ClientView {
    /// The client registered exactly `uri` as a place to go after a logout.
    pub open spec fn accepts_post_logout_redirect(self, uri: Seq<char>) -> bool {
        self.post_logout_redirect_uris.contains(uri)
    }
}

impl View for Client {
    type V = ClientView;

    open spec fn view(&self) -> ClientView {
        ClientView {
            client_id: self.client_id@,
            redirect_uris: self.redirect_uris.deep_view(),
            post_logout_redirect_uris: self.post_logout_redirect_uris.deep_view(),
            token_endpoint_auth_method: self.token_endpoint_auth_method,
            grant_types: self.grant_types@,
        }
    }
}

impl DeepView for Client {
    type V = ClientView;

    open spec fn deep_view(&self) -> ClientView {
        self@
    }
}

impl Client {
    /// Tells whether `uri` is, character for character, one of the places
    /// that the client registered to go to after a logout.
    pub fn accepts_post_logout_redirect(&self, uri: &String) -> (r: bool)
        ensures
            r == self@.accepts_post_logout_redirect(uri@),
    {
        let mut i: usize = 0;
        while i < self.post_logout_redirect_uris.len()
            invariant
                i <= self.post_logout_redirect_uris.len(),
                forall|j: int| 0 <= j < i ==> self.post_logout_redirect_uris[j]@ != uri@,
            decreases self.post_logout_redirect_uris.len() - i,
        {
            if self.post_logout_redirect_uris[i] == *uri {
                assert(self.post_logout_redirect_uris.deep_view()[i as int] == uri@);
                return true;
            }
            i += 1;
        }
        false
    }
}

/// The map that takes each of `keys` to the value at its place in `values`.
pub open spec fn keyed<K, V>(keys: Seq<K>, values: Seq<V>) -> Map<K, V> {
    Map::new(|k: K| keys.contains(k), |k: K| values[keys.index_of(k)])
}

proof fn lemma_keyed_at<K, V>(keys: Seq<K>, values: Seq<V>, i: int)
    requires
        keys.no_duplicates(),
        0 <= i < keys.len(),
    ensures
        keys.contains(keys[i]),
        keys.index_of(keys[i]) == i,
        keyed(keys, values).contains_key(keys[i]),
        keyed(keys, values)[keys[i]] == values[i],
{
}

proof fn lemma_keyed_push<K, V>(keys: Seq<K>, values: Seq<V>, k: K, v: V)
    requires
        keys.no_duplicates(),
        keys.len() == values.len(),
        !keys.contains(k),
    ensures
        keys.push(k).no_duplicates(),
        keyed(keys.push(k), values.push(v)) == keyed(keys, values).insert(k, v),
{
    let more = keys.push(k);
    assert(more.no_duplicates()) by {
        assert forall|i: int, j: int| 0 <= i < more.len() && 0 <= j < more.len() && i != j implies more[i]
            != more[j] by {
            if i < keys.len() {
                assert(keys.contains(keys[i]));
            }
            if j < keys.len() {
                assert(keys.contains(keys[j]));
            }
        }
    }
    let before = keyed(keys, values).insert(k, v);
    let after = keyed(more, values.push(v));
    assert forall|x: K| before.contains_key(x) == after.contains_key(x) by {
        if keys.contains(x) {
            let i = keys.index_of(x);
            assert(more[i] == x);
        }
        if x == k {
            assert(more[keys.len() as int] == x);
        }
        if more.contains(x) {
            let i = more.index_of(x);
            if i < keys.len() {
                assert(keys[i] == x);
            }
        }
    }
    assert forall|x: K| before.contains_key(x) implies before[x] == after[x] by {
        let i = more.index_of(x);
        assert(more.contains(x));
        if x != k {
            assert(i < keys.len());
            assert(keys[i] == x);
            lemma_keyed_at(keys, values, i);
        }
    }
    assert(before =~= after);
}

proof fn lemma_keyed_update<K, V>(keys: Seq<K>, values: Seq<V>, i: int, v: V)
    requires
        keys.no_duplicates(),
        keys.len() == values.len(),
        0 <= i < keys.len(),
    ensures
        keyed(keys, values.update(i, v)) == keyed(keys, values).insert(keys[i], v),
{
    let before = keyed(keys, values).insert(keys[i], v);
    let after = keyed(keys, values.update(i, v));
    assert(keys.contains(keys[i]));
    assert forall|x: K| before.contains_key(x) implies before[x] == after[x] by {
        let j = keys.index_of(x);
        if x == keys[i] {
            lemma_keyed_at(keys, values, i);
        }
    }
    assert(before =~= after);
}

/// The sessions and clients of a provider: each session under its
/// identifier, each client under its identifier.
pub struct DirectoryView {
    pub sessions: Map<u64, SessionView>,
    pub clients: Map<Seq<char>, ClientView>,
}

impl DirectoryView {
    /// Every entry stands under its own identifier.
    pub open spec fn wf(self) -> bool {
        &&& forall|id: u64| #[trigger]
            self.sessions.contains_key(id) ==> self.sessions[id].id == id
        &&& forall|id: Seq<char>| #[trigger]
            self.clients.contains_key(id) ==> self.clients[id].client_id == id
    }

    /// The session with this identifier, where it has not been terminated.
    pub open spec fn active_session(self, id: u64) -> Option<SessionView> {
        match self.sessions.get(id) {
            Some(session) if session.is_active() => Some(session),
            _ => None,
        }
    }

    /// The directory after the session `id` was terminated at `now`. Nothing
    /// changes where no session `id` is active.
    pub open spec fn finish(self, id: u64, now: u64) -> DirectoryView {
        match self.active_session(id) {
            Some(session) => DirectoryView {
                sessions: self.sessions.insert(id, session.finished(now)),
                ..self
            },
            None => self,
        }
    }
}

/// An in-memory registry of sessions and clients. No two sessions share an
/// identifier, and no two clients do.
pub struct Directory {
    sessions: Vec<Session>,
    clients: Vec<Client>,
}

impl Directory {
    spec fn session_ids(self) -> Seq<u64> {
        self.sessions@.map_values(|s: Session| s.id)
    }

    spec fn session_views(self) -> Seq<SessionView> {
        self.sessions@.map_values(|s: Session| s@)
    }

    spec fn client_ids(self) -> Seq<Seq<char>> {
        self.clients@.map_values(|c: Client| c.client_id@)
    }

    spec fn client_views(self) -> Seq<ClientView> {
        self.clients@.map_values(|c: Client| c@)
    }

    /// No two sessions share an identifier, and no two clients do.
    #[verifier::type_invariant]
    pub closed spec fn distinct(self) -> bool {
        &&& self.session_ids().no_duplicates()
        &&& self.client_ids().no_duplicates()
    }

    pub closed spec fn view(&self) -> DirectoryView {
        DirectoryView {
            sessions: keyed(self.session_ids(), self.session_views()),
            clients: keyed(self.client_ids(), self.client_views()),
        }
    }

    /// A directory with no session and no client.
    pub fn new() -> (directory: Directory)
        ensures
            directory@.sessions == Map::<u64, SessionView>::empty(),
            directory@.clients == Map::<Seq<char>, ClientView>::empty(),
            directory@.wf(),
    {
        let directory = Directory { sessions: Vec::new(), clients: Vec::new() };
        assert(directory@.sessions =~= Map::<u64, SessionView>::empty());
        assert(directory@.clients =~= Map::<Seq<char>, ClientView>::empty());
        directory
    }

    fn session_index(&self, id: u64) -> (r: Option<usize>)
        ensures
            match r {
                Some(i) => i < self.sessions.len() && self.sessions[i as int].id == id,
                None => !self.session_ids().contains(id),
            },
    {
        let mut i: usize = 0;
        while i < self.sessions.len()
            invariant
                i <= self.sessions.len(),
                forall|j: int| 0 <= j < i ==> self.sessions[j].id != id,
            decreases self.sessions.len() - i,
        {
            if self.sessions[i].id == id {
                return Some(i);
            }
            i += 1;
        }
        None
    }

    fn client_index(&self, client_id: &String) -> (r: Option<usize>)
        ensures
            match r {
                Some(i) => i < self.clients.len() && self.clients[i as int].client_id@
                    == client_id@,
                None => !self.client_ids().contains(client_id@),
            },
    {
        let mut i: usize = 0;
        while i < self.clients.len()
            invariant
                i <= self.clients.len(),
                forall|j: int| 0 <= j < i ==> self.clients[j].client_id@ != client_id@,
            decreases self.clients.len() - i,
        {
            if self.clients[i].client_id == *client_id {
                return Some(i);
            }
            i += 1;
        }
        None
    }

    /// Looks up the session with this identifier.
    pub fn session(&self, id: u64) -> (r: Option<&Session>)
        ensures
            r.deep_view() == self@.sessions.get(id),
            self@.wf(),
    {
        proof {
            use_type_invariant(self);
            self.lemma_wf();
        }
        match self.session_index(id) {
            Some(i) => {
                proof {
                    lemma_keyed_at(self.session_ids(), self.session_views(), i as int);
                }
                Some(&self.sessions[i])
            },
            None => None,
        }
    }

    /// Looks up the client with this identifier.
    pub fn client(&self, client_id: &String) -> (r: Option<&Client>)
        ensures
            r.deep_view() == self@.clients.get(client_id@),
            self@.wf(),
    {
        proof {
            use_type_invariant(self);
            self.lemma_wf();
        }
        match self.client_index(client_id) {
            Some(i) => {
                proof {
                    lemma_keyed_at(self.client_ids(), self.client_views(), i as int);
                }
                Some(&self.clients[i])
            },
            None => None,
        }
    }

    /// In a directory every entry stands under its own identifier.
    pub proof fn lemma_wf(self)
        requires
            self.distinct(),
        ensures
            self@.wf(),
    {
        assert forall|id: u64| #[trigger] self@.sessions.contains_key(id) implies self@.sessions[id].id
            == id by {
            let i = self.session_ids().index_of(id);
            assert(self.session_ids()[i] == id);
        }
        assert forall|id: Seq<char>| #[trigger] self@.clients.contains_key(id) implies self@.clients[id].client_id
            == id by {
            let i = self.client_ids().index_of(id);
            assert(self.client_ids()[i] == id);
        }
    }

    /// Adds a session, unless one with its identifier is there already.
    pub fn add_session(&mut self, session: Session) -> (added: bool)
        ensures
            added == !old(self)@.sessions.contains_key(session.id),
            final(self)@ == if added {
                DirectoryView {
                    sessions: old(self)@.sessions.insert(session.id, session@),
                    ..old(self)@
                }
            } else {
                old(self)@
            },
            final(self)@.wf(),
    {
        proof {
            use_type_invariant(&*self);
            self.lemma_wf();
        }
        if let Some(at) = self.session_index(session.id) {
            assert(self.session_ids()[at as int] == session.id);
            return false;
        }
        let ghost before = *self;
        let mut sessions: Vec<Session> = Vec::new();
        std::mem::swap(&mut self.sessions, &mut sessions);
        proof {
            lemma_keyed_push(before.session_ids(), before.session_views(), session.id, session@);
        }
        sessions.push(session);
        assert(sessions@.map_values(|s: Session| s.id) =~= before.session_ids().push(session.id));
        assert(sessions@.map_values(|s: Session| s@) =~= before.session_views().push(session@));
        self.sessions = sessions;
        proof {
            self.lemma_wf();
        }
        true
    }

    /// Registers a client, unless one with its identifier is there already.
    pub fn add_client(&mut self, client: Client) -> (added: bool)
        ensures
            added == !old(self)@.clients.contains_key(client.client_id@),
            final(self)@ == if added {
                DirectoryView {
                    clients: old(self)@.clients.insert(client.client_id@, client@),
                    ..old(self)@
                }
            } else {
                old(self)@
            },
            final(self)@.wf(),
    {
        proof {
            use_type_invariant(&*self);
            self.lemma_wf();
        }
        if let Some(at) = self.client_index(&client.client_id) {
            assert(self.client_ids()[at as int] == client.client_id@);
            return false;
        }
        let ghost before = *self;
        let mut clients: Vec<Client> = Vec::new();
        std::mem::swap(&mut self.clients, &mut clients);
        proof {
            lemma_keyed_push(
                before.client_ids(),
                before.client_views(),
                client.client_id@,
                client@,
            );
        }
        clients.push(client);
        assert(clients@.map_values(|c: Client| c.client_id@) =~= before.client_ids().push(
            client.client_id@,
        ));
        assert(clients@.map_values(|c: Client| c@) =~= before.client_views().push(client@));
        self.clients = clients;
        proof {
            self.lemma_wf();
        }
        true
    }

    /// Terminates the session `id` at `now`, in one write. Tells whether it
    /// did: a session that is unknown or already terminated is left as it is.
    pub fn finish_session(&mut self, id: u64, now: u64) -> (finished: bool)
        ensures
            finished == old(self)@.active_session(id).is_some(),
            final(self)@ == old(self)@.finish(id, now),
            final(self)@.wf(),
    {
        proof {
            use_type_invariant(&*self);
            self.lemma_wf();
        }
        let at = match self.session_index(id) {
            Some(at) => at,
            None => {
                return false;
            },
        };
        proof {
            lemma_keyed_at(self.session_ids(), self.session_views(), at as int);
        }
        if !self.sessions[at].is_active() {
            return false;
        }
        let ghost before = *self;
        let mut sessions: Vec<Session> = Vec::new();
        std::mem::swap(&mut self.sessions, &mut sessions);
        let session = sessions.remove(at);
        let session = Session { finished_at: Some(now), ..session };
        sessions.insert(at, session);
        proof {
            lemma_keyed_update(
                before.session_ids(),
                before.session_views(),
                at as int,
                before.session_views()[at as int].finished(now),
            );
            assert(sessions@.map_values(|s: Session| s.id) =~= before.session_ids());
            assert(sessions@.map_values(|s: Session| s@) =~= before.session_views().update(
                at as int,
                before.session_views()[at as int].finished(now),
            ));
        }
        self.sessions = sessions;
        proof {
            self.lemma_wf();
        }
        true
    }
}

} // verus!
