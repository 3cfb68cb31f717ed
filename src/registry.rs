use vstd::prelude::*;
use vstd::string::*;
use crate::error::{AccountError, message_of};

verus! {

/// One registered user: the name, the credential compared at login, and the
/// identifier of the remote container bound to the user.
#[derive(Debug, Clone)]
pub struct UserRecord {
    pub username: String,
    pub credential: String,
    pub container_id: String,
}

/// What the registry holds for one username.
pub struct Account {
    pub credential: Seq<char>,
    pub container_id: Seq<char>,
}

/// The account that a record describes.
pub open spec fn account_of(r: UserRecord) -> Account {
    Account { credential: r.credential@, container_id: r.container_id@ }
}

/// A record may stand in the registry: it has a name and a bound container.
pub open spec fn record_valid(r: UserRecord) -> bool {
    r.username@.len() > 0 && r.container_id@.len() > 0
}

/// Every record is valid and no two records share a username.
pub open spec fn records_valid(s: Seq<UserRecord>) -> bool {
    &&& forall|i: int| 0 <= i < s.len() ==> #[trigger] record_valid(s[i])
    &&& forall|i: int, j: int|
        #![trigger s[i], s[j]]
        0 <= i < j < s.len() ==> s[i].username@ != s[j].username@
}

/// The mapping from username to account that a sequence of records describes.
pub open spec fn map_of(s: Seq<UserRecord>) -> Map<Seq<char>, Account>
    decreases s.len(),
{
    if s.len() == 0 {
        Map::empty()
    } else {
        map_of(s.drop_last()).insert(s.last().username@, account_of(s.last()))
    }
}

/// No entry is partially provisioned: each has a non-empty name and container.
pub open spec fn view_valid(m: Map<Seq<char>, Account>) -> bool {
    forall|u: Seq<char>| #[trigger] m.contains_key(u) ==> u.len() > 0 && m[u].container_id.len() > 0
}

/// A login with `c` for `u` is accepted.
pub open spec fn authenticates(m: Map<Seq<char>, Account>, u: Seq<char>, c: Seq<char>) -> bool {
    m.contains_key(u) && m[u].credential == c
}

/// The answer to a login: unknown users and wrong credentials are told apart here.
pub open spec fn login_result(m: Map<Seq<char>, Account>, u: Seq<char>, c: Seq<char>) -> Result<
    (),
    AccountError,
> {
    if !m.contains_key(u) {
        Err(AccountError::UserNotFound)
    } else if m[u].credential != c {
        Err(AccountError::InvalidCredential)
    } else {
        Ok(())
    }
}

/// A key of `map_of(s)` is exactly a username of some record of `s`; where the
/// usernames are distinct, each maps to its own record's account.
pub proof fn lemma_map_of(s: Seq<UserRecord>)
    ensures
        forall|u: Seq<char>|
            #[trigger] map_of(s).contains_key(u) <==> exists|i: int|
                0 <= i < s.len() && (#[trigger] s[i]).username@ == u,
        records_valid(s) ==> forall|i: int|
            0 <= i < s.len() ==> #[trigger] map_of(s)[s[i].username@] == account_of(s[i]),
    decreases s.len(),
{
    if s.len() > 0 {
        let p = s.drop_last();
        lemma_map_of(p);
        assert(map_of(s) == map_of(p).insert(s.last().username@, account_of(s.last())));
        assert(s.last() == s[s.len() - 1]);
        assert forall|u: Seq<char>|
            #[trigger] map_of(s).contains_key(u) <==> exists|i: int|
                0 <= i < s.len() && (#[trigger] s[i]).username@ == u by {
            if map_of(s).contains_key(u) {
                if u == s.last().username@ {
                    assert(s[s.len() - 1].username@ == u);
                } else {
                    assert(map_of(p).contains_key(u));
                    let i = choose|i: int| 0 <= i < p.len() && (#[trigger] p[i]).username@ == u;
                    assert(s[i] == p[i]);
                }
            }
            if exists|i: int| 0 <= i < s.len() && (#[trigger] s[i]).username@ == u {
                let i = choose|i: int| 0 <= i < s.len() && (#[trigger] s[i]).username@ == u;
                if i < s.len() - 1 {
                    assert(p[i] == s[i]);
                }
            }
        }
        if records_valid(s) {
            lemma_drop_last_valid(s);
            assert forall|i: int| 0 <= i < s.len() implies #[trigger] map_of(s)[s[i].username@]
                == account_of(s[i]) by {
                if i < s.len() - 1 {
                    assert(p[i] == s[i]);
                    assert(s[i].username@ != s[s.len() - 1].username@);
                }
            }
        }
    }
}

/// Dropping the last record keeps a valid sequence valid.
pub proof fn lemma_drop_last_valid(s: Seq<UserRecord>)
    requires
        records_valid(s),
        s.len() > 0,
    ensures
        records_valid(s.drop_last()),
{
    let p = s.drop_last();
    assert forall|i: int| 0 <= i < p.len() implies #[trigger] record_valid(p[i]) by {
        assert(p[i] == s[i]);
    }
    assert forall|i: int, j: int|
        #![trigger p[i], p[j]]
        0 <= i < j < p.len() implies p[i].username@ != p[j].username@ by {
        assert(p[i] == s[i] && p[j] == s[j]);
    }
}

/// Valid records describe a valid view.
pub proof fn lemma_view_of_valid_records(s: Seq<UserRecord>)
    requires
        records_valid(s),
    ensures
        view_valid(map_of(s)),
{
    lemma_map_of(s);
    assert forall|u: Seq<char>| #[trigger] map_of(s).contains_key(u) implies u.len() > 0
        && map_of(s)[u].container_id.len() > 0 by {
        let i = choose|i: int| 0 <= i < s.len() && (#[trigger] s[i]).username@ == u;
        assert(record_valid(s[i]));
    }
}

/// The in-memory user registry: usernames bound to credentials and containers.
pub struct Registry {
    records: Vec<UserRecord>,
}

impl View for Registry {
    type V = Map<Seq<char>, Account>;

    closed spec fn view(&self) -> Map<Seq<char>, Account> {
        map_of(self.records@)
    }
}

impl Registry {
    /// Well-formed: every record is complete and usernames are unique.
    pub closed spec fn wf(&self) -> bool {
        records_valid(self.records@)
    }

    /// A well-formed registry has a valid view.
    pub proof fn lemma_wf_view(&self)
        requires
            self.wf(),
        ensures
            view_valid(self@),
    {
        lemma_view_of_valid_records(self.records@);
    }

    /// An empty registry.
    pub fn new() -> (r: Registry)
        ensures
            r.wf(),
            r@ == Map::<Seq<char>, Account>::empty(),
    {
        Registry { records: Vec::new() }
    }

    /// The number of registered users.
    pub fn len(&self) -> (r: usize)
        requires
            self.wf(),
        ensures
            r == self@.len(),
    {
        proof {
            lemma_map_dom_len(self.records@);
        }
        self.records.len()
    }

    /// The position of the record for `username`, if there is one.
    fn find(&self, username: &String) -> (r: Option<usize>)
        requires
            self.wf(),
        ensures
            match r {
                Some(i) => i < self.records@.len() && self.records@[i as int].username@ == username@
                    && self@.contains_key(username@) && self@[username@] == account_of(
                    self.records@[i as int],
                ),
                None => !self@.contains_key(username@),
            },
    {
        let mut i: usize = 0;
        while i < self.records.len()
            invariant
                self.wf(),
                i <= self.records@.len(),
                forall|j: int| 0 <= j < i ==> (#[trigger] self.records@[j]).username@ != username@,
            decreases self.records@.len() - i,
        {
            if self.records[i].username == *username {
                proof {
                    lemma_map_of(self.records@);
                }
                return Some(i);
            }
            i = i + 1;
        }
        proof {
            lemma_map_of(self.records@);
        }
        None
    }

    /// Whether `username` is registered.
    pub fn is_registered(&self, username: &String) -> (r: bool)
        requires
            self.wf(),
        ensures
            r == self@.contains_key(username@),
    {
        self.find(username).is_some()
    }

    /// Whether `credential` matches the record of `username` exactly.
    pub fn authenticate(&self, username: &String, credential: &String) -> (r: bool)
        requires
            self.wf(),
        ensures
            r == authenticates(self@, username@, credential@),
    {
        match self.find(username) {
            Some(i) => self.records[i].credential == *credential,
            None => false,
        }
    }

    /// A login: a single lookup, with no remote interaction.
    pub fn login(&self, username: &String, credential: &String) -> (r: Result<(), AccountError>)
        requires
            self.wf(),
        ensures
            r == login_result(self@, username@, credential@),
    {
        match self.find(username) {
            Some(i) => {
                if self.records[i].credential == *credential {
                    Ok(())
                } else {
                    Err(AccountError::InvalidCredential)
                }
            },
            None => Err(AccountError::UserNotFound),
        }
    }

    /// The HTTP status of a login's answer: success, or one status for every
    /// failure, so that a caller cannot tell an unknown user from a wrong credential.
    pub fn login_status(r: &Result<(), AccountError>) -> (s: u16)
        ensures
            r is Ok ==> s == 200,
            r is Err ==> s == 401,
    {
        match r {
            Ok(()) => 200,
            Err(_) => 401,
        }
    }

    /// The message of a login's answer: one text for every failure, so that the
    /// reply does not show whether the name or the credential was wrong.
    pub fn login_message(r: &Result<(), AccountError>) -> (m: String)
        ensures
            r is Ok ==> m@ == "Login successful"@,
            r is Err ==> m@ == message_of(AccountError::InvalidCredential),
    {
        match r {
            Ok(()) => String::from_str("Login successful"),
            Err(_) => AccountError::InvalidCredential.message(),
        }
    }

    /// The container bound to `username`.
    pub fn resolve(&self, username: &String) -> (r: Result<String, AccountError>)
        requires
            self.wf(),
        ensures
            match r {
                Ok(id) => self@.contains_key(username@) && id@ == self@[username@].container_id,
                Err(e) => !self@.contains_key(username@) && e == AccountError::UserNotFound,
            },
    {
        match self.find(username) {
            Some(i) => Ok(self.records[i].container_id.clone()),
            None => Err(AccountError::UserNotFound),
        }
    }

    /// A full copy of the records, in a form that a snapshot file can hold.
    pub fn snapshot(&self) -> (r: Vec<UserRecord>)
        requires
            self.wf(),
        ensures
            is_snapshot_of(r@, self@),
    {
        let mut out: Vec<UserRecord> = Vec::new();
        let mut i: usize = 0;
        while i < self.records.len()
            invariant
                self.wf(),
                i <= self.records@.len(),
                out@ == self.records@.take(i as int),
            decreases self.records@.len() - i,
        {
            out.push(copy_record(&self.records[i]));
            proof {
                assert(self.records@.take(i + 1) == self.records@.take(i as int).push(
                    self.records@[i as int],
                ));
            }
            i = i + 1;
        }
        proof {
            assert(self.records@.take(i as int) == self.records@);
        }
        out
    }

    /// The registry that a snapshot describes, if its records are complete and
    /// their usernames unique.
    pub fn from_records(entries: Vec<UserRecord>) -> (r: Option<Registry>)
        ensures
            r is Some <==> records_valid(entries@),
            r matches Some(reg) ==> reg.wf() && reg@ == map_of(entries@),
    {
        let mut i: usize = 0;
        while i < entries.len()
            invariant
                i <= entries@.len(),
                records_valid(entries@.take(i as int)),
            decreases entries@.len() - i,
        {
            let ghost t = entries@.take(i as int);
            let ghost t1 = entries@.take(i + 1);
            if entries[i].username.as_str().is_empty() || entries[i].container_id.as_str().is_empty() {
                proof {
                    assert(!record_valid(entries@[i as int]));
                }
                return None;
            }
            let mut j: usize = 0;
            while j < i
                invariant
                    j <= i < entries@.len(),
                    forall|k: int| 0 <= k < j ==> (#[trigger] entries@[k]).username@ != entries@[i as int].username@,
                decreases i - j,
            {
                if entries[j].username == entries[i].username {
                    proof {
                        assert(entries@[j as int].username@ == entries@[i as int].username@);
                    }
                    return None;
                }
                j = j + 1;
            }
            proof {
                assert forall|k: int| 0 <= k < t1.len() implies #[trigger] record_valid(t1[k]) by {
                    assert(t1[k] == entries@[k]);
                    if k < i {
                        assert(t[k] == entries@[k]);
                    }
                }
                assert forall|a: int, b: int|
                    #![trigger t1[a], t1[b]]
                    0 <= a < b < t1.len() implies t1[a].username@ != t1[b].username@ by {
                    assert(t1[a] == entries@[a] && t1[b] == entries@[b]);
                    if b < i {
                        assert(t[a] == entries@[a] && t[b] == entries@[b]);
                    }
                }
            }
            i = i + 1;
        }
        proof {
            assert(entries@.take(i as int) == entries@);
        }
        Some(Registry { records: entries })
    }

    /// Adds the record for a new username; the caller has checked, within the
    /// same exclusive borrow, that the name is absent.
    pub(crate) fn insert(&mut self, username: String, credential: String, container_id: String)
        requires
            old(self).wf(),
            username@.len() > 0,
            container_id@.len() > 0,
            !old(self)@.contains_key(username@),
        ensures
            final(self).wf(),
            final(self)@ == old(self)@.insert(
                username@,
                Account { credential: credential@, container_id: container_id@ },
            ),
    {
        let ghost before = self.records@;
        let ghost u = username@;
        proof {
            lemma_map_of(before);
        }
        let rec = UserRecord { username, credential, container_id };
        self.records.push(rec);
        proof {
            let s = self.records@;
            assert(s.drop_last() == before);
            assert forall|i: int| 0 <= i < s.len() implies #[trigger] record_valid(s[i]) by {
                if i < before.len() {
                    assert(s[i] == before[i]);
                }
            }
            assert forall|i: int, j: int|
                #![trigger s[i], s[j]]
                0 <= i < j < s.len() implies s[i].username@ != s[j].username@ by {
                assert(s[i] == before[i]);
                if j == before.len() {
                    assert(map_of(before).contains_key(before[i].username@));
                } else {
                    assert(s[j] == before[j]);
                }
            }
        }
    }
}

/// A copy of `r`.
fn copy_record(r: &UserRecord) -> (c: UserRecord)
    ensures
        c == *r,
{
    UserRecord {
        username: r.username.clone(),
        credential: r.credential.clone(),
        container_id: r.container_id.clone(),
    }
}

/// `saved` holds exactly the users of `m`, each with its credential and container.
pub open spec fn is_snapshot_of(saved: Seq<UserRecord>, m: Map<Seq<char>, Account>) -> bool {
    records_valid(saved) && map_of(saved) == m
}

/// Distinct usernames give one key per record.
pub proof fn lemma_map_dom_len(s: Seq<UserRecord>)
    requires
        records_valid(s),
    ensures
        map_of(s).len() == s.len(),
        map_of(s).dom().finite(),
    decreases s.len(),
{
    if s.len() > 0 {
        let p = s.drop_last();
        lemma_drop_last_valid(s);
        lemma_map_dom_len(p);
        lemma_map_of(p);
        if map_of(p).contains_key(s.last().username@) {
            let i = choose|i: int| 0 <= i < p.len() && (#[trigger] p[i]).username@ == s.last().username@;
            assert(p[i] == s[i]);
        }
    }
}

} // verus!
