use vstd::prelude::*;
use vstd::string::*;
use crate::error::{AccountError, status_of};
use crate::registry::{Account, Registry, login_result};

verus! {

/// The media type that marks a remote object as a container.
pub open spec fn container_media_type() -> Seq<char> {
    "application/vnd.google-apps.folder"@
}

/// What the remote provider is asked to create for a new user.
pub struct ContainerRequest {
    /// The container's name: the username.
    pub name: String,
    /// The media type that makes the object a container.
    pub media_type: String,
    /// The container under which the new one is created.
    pub parent: String,
}

/// The request that provisions the container of `username` under `parent`.
pub fn container_request(username: &String, parent: &String) -> (r: ContainerRequest)
    ensures
        r.name@ == username@,
        r.media_type@ == container_media_type(),
        r.parent@ == parent@,
{
    ContainerRequest {
        name: username.clone(),
        media_type: String::from_str("application/vnd.google-apps.folder"),
        parent: parent.clone(),
    }
}

/// The decision of the first locked step: may `u` go on to provisioning?
pub open spec fn admission(m: Map<Seq<char>, Account>, u: Seq<char>) -> Option<AccountError> {
    if u.len() == 0 {
        Some(AccountError::MalformedRequest)
    } else if m.contains_key(u) {
        Some(AccountError::AlreadyExists)
    } else {
        None
    }
}

/// The provider's reply as a plain value: `None` where the create call failed,
/// else the identifier it returned (possibly empty).
pub open spec fn reply_view(created: Option<String>) -> Option<Seq<char>> {
    match created {
        Some(id) => Some(id@),
        None => None,
    }
}

/// Why the commit step refuses, if it does: the create call failed, the
/// container came back without an identifier, or the name was taken (or is
/// unusable) by the time the lock was taken again.
pub open spec fn commit_error(
    m: Map<Seq<char>, Account>,
    u: Seq<char>,
    created: Option<Seq<char>>,
) -> Option<AccountError> {
    match created {
        None => Some(AccountError::ProvisioningFailed),
        Some(id) => if id.len() == 0 {
            Some(AccountError::MissingContainerId)
        } else {
            admission(m, u)
        },
    }
}

/// A container that was created but cannot be bound, and so is to be deleted.
pub open spec fn orphan_of(
    m: Map<Seq<char>, Account>,
    u: Seq<char>,
    created: Option<Seq<char>>,
) -> Option<Seq<char>> {
    if commit_error(m, u, created) is Some && (created matches Some(id) && id.len() > 0) {
        created
    } else {
        None
    }
}

/// The registry after the commit step.
pub open spec fn after_commit(
    m: Map<Seq<char>, Account>,
    u: Seq<char>,
    c: Seq<char>,
    created: Option<Seq<char>>,
) -> Map<Seq<char>, Account> {
    if commit_error(m, u, created) is None {
        m.insert(u, Account { credential: c, container_id: created->0 })
    } else {
        m
    }
}

/// How a registration ended, and what is left for the caller to do.
pub enum RegisterOutcome {
    /// The user is bound to the new container; the registry is to be saved.
    Committed,
    /// Nothing changed, and there is no container identifier to delete.
    Failed(AccountError),
    /// A container was created but not bound; it is to be deleted, on a best-effort basis.
    Abandoned { error: AccountError, container_id: String },
}

impl RegisterOutcome {
    /// The failure reported, if any.
    pub open spec fn error(&self) -> Option<AccountError> {
        match self {
            RegisterOutcome::Committed => None,
            RegisterOutcome::Failed(e) => Some(*e),
            RegisterOutcome::Abandoned { error, .. } => Some(*error),
        }
    }

    /// The container left for deletion, if any.
    pub open spec fn orphan(&self) -> Option<Seq<char>> {
        match self {
            RegisterOutcome::Abandoned { container_id, .. } => Some(container_id@),
            _ => None,
        }
    }

    /// The registration's answer to its caller.
    pub fn result(&self) -> (r: Result<(), AccountError>)
        ensures
            r is Ok <==> self.error() is None,
            r matches Err(e) ==> self.error() == Some(e),
    {
        match self {
            RegisterOutcome::Committed => Ok(()),
            RegisterOutcome::Failed(e) => Err(*e),
            RegisterOutcome::Abandoned { error, .. } => Err(*error),
        }
    }

    /// The HTTP status of the answer: created, or the failure's own status.
    pub fn status(&self) -> (r: u16)
        ensures
            r == match self.error() {
                None => 201,
                Some(e) => status_of(e),
            },
    {
        match self {
            RegisterOutcome::Committed => 201,
            RegisterOutcome::Failed(e) => e.status(),
            RegisterOutcome::Abandoned { error, .. } => error.status(),
        }
    }
}

impl Registry {
    /// First step of a registration, under the registry lock: refuse an empty or
    /// taken username before any remote call is made.
    pub fn begin_register(&self, username: &String) -> (r: Result<(), AccountError>)
        requires
            self.wf(),
        ensures
            r == match admission(self@, username@) {
                Some(e) => Err(e),
                None => Ok::<(), AccountError>(()),
            },
    {
        if username.as_str().is_empty() {
            Err(AccountError::MalformedRequest)
        } else if self.is_registered(username) {
            Err(AccountError::AlreadyExists)
        } else {
            Ok(())
        }
    }

    /// Last step of a registration, under the registry lock again: given the
    /// provider's reply (`None` where the create call failed), check once more
    /// that the name is free and bind it to the container, in one step.
    pub fn finish_register(
        &mut self,
        username: String,
        credential: String,
        created: Option<String>,
    ) -> (r: RegisterOutcome)
        requires
            old(self).wf(),
        ensures
            final(self).wf(),
            r.error() == commit_error(old(self)@, username@, reply_view(created)),
            r.orphan() == orphan_of(old(self)@, username@, reply_view(created)),
            final(self)@ == after_commit(
                old(self)@,
                username@,
                credential@,
                reply_view(created),
            ),
    {
        let container_id = match created {
            Some(id) => id,
            None => {
                return RegisterOutcome::Failed(AccountError::ProvisioningFailed);
            },
        };
        if container_id.as_str().is_empty() {
            return RegisterOutcome::Failed(AccountError::MissingContainerId);
        }
        match self.begin_register(&username) {
            Err(e) => RegisterOutcome::Abandoned { error: e, container_id },
            Ok(()) => {
                self.insert(username, credential, container_id);
                RegisterOutcome::Committed
            },
        }
    }
}

/// A user who registers with a fresh name, and for whom the provider created a
/// container, can log in at once with the same credential, and is bound to that
/// non-empty container.
pub proof fn lemma_register_then_login(
    m: Map<Seq<char>, Account>,
    u: Seq<char>,
    c: Seq<char>,
    id: Seq<char>,
)
    requires
        u.len() > 0,
        !m.contains_key(u),
        id.len() > 0,
    ensures
        admission(m, u) is None,
        commit_error(m, u, Some(id)) is None,
        login_result(after_commit(m, u, c, Some(id)), u, c) == Ok::<(), AccountError>(()),
        after_commit(m, u, c, Some(id))[u].container_id == id,
        after_commit(m, u, c, Some(id))[u].container_id.len() > 0,
{
}

/// Of two registrations of one name, whichever order their steps run in, only
/// the first to commit succeeds: a later start is refused, and one that was
/// admitted before the commit is refused at its own commit, leaves the
/// registry as it was, and hands back its container for deletion.
pub proof fn lemma_second_registration_fails(
    m: Map<Seq<char>, Account>,
    u: Seq<char>,
    c1: Seq<char>,
    c2: Seq<char>,
    id1: Seq<char>,
    id2: Seq<char>,
)
    requires
        u.len() > 0,
        !m.contains_key(u),
        id1.len() > 0,
        id2.len() > 0,
    ensures
        admission(m, u) is None,
        commit_error(m, u, Some(id1)) is None,
        admission(after_commit(m, u, c1, Some(id1)), u) == Some(AccountError::AlreadyExists),
        commit_error(after_commit(m, u, c1, Some(id1)), u, Some(id2)) == Some(
            AccountError::AlreadyExists,
        ),
        orphan_of(after_commit(m, u, c1, Some(id1)), u, Some(id2)) == Some(id2),
        after_commit(after_commit(m, u, c1, Some(id1)), u, c2, Some(id2)) == after_commit(
            m,
            u,
            c1,
            Some(id1),
        ),
        after_commit(after_commit(m, u, c1, Some(id1)), u, c2, Some(id2))[u].container_id == id1,
{
}

/// When the provider creates no container, or creates one without returning its
/// identifier, the registration fails, nothing is left to delete, and the
/// registry is unchanged: an absent user stays absent.
pub proof fn lemma_failed_provisioning_commits_nothing(
    m: Map<Seq<char>, Account>,
    u: Seq<char>,
    c: Seq<char>,
    created: Option<Seq<char>>,
)
    requires
        created matches Some(id) ==> id.len() == 0,
    ensures
        commit_error(m, u, created) == if created is None {
            Some(AccountError::ProvisioningFailed)
        } else {
            Some(AccountError::MissingContainerId)
        },
        orphan_of(m, u, created) is None,
        after_commit(m, u, c, created) == m,
        !m.contains_key(u) ==> !after_commit(m, u, c, created).contains_key(u),
{
}

} // verus!
