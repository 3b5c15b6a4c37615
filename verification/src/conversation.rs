//! The per-user conversation lock and the conversation life cycle.
//!
//! A conversation is one interactive direct-message dialog. Per user at most
//! one may be live at any instant, process-wide; the guarantee rests on an
//! atomic test-and-set over a shared set of user ids. Construction walks
//! Unstarted → Locked → ChannelOpen → MessageAnchored; every failure on the
//! way, and every terminal operation, gives the lock back.
//!
//! The platform calls themselves (opening the channel, sending messages)
//! happen outside; each step here takes their outcome as a plain value and
//! accounts for the lock in both cases.

use vstd::prelude::*;

verus! {

/// The process-wide registry of users currently in a conversation.
///
/// Holds a concurrency-safe set shared by all tasks; `lock_users` names its
/// contents.
#[verifier::external_body]
pub struct ConversationLock {
    held: std::sync::Arc<dashmap::DashSet<u64>>,
}

/// The set of user ids the registry currently holds.
pub uninterp spec fn lock_users(l: ConversationLock) -> Set<u64>;

/// A user may start a conversation exactly when no conversation of theirs
/// is live.
pub open spec fn start_allowed(held: Set<u64>, user: u64) -> bool {
    !held.contains(user)
}

impl ConversationLock {
    /// Relies on dashmap::DashSet::new: a fresh set is empty.
    #[verifier::external_body]
    pub fn new() -> (r: ConversationLock)
        ensures
            lock_users(r) == Set::<u64>::empty(),
    {
        ConversationLock { held: std::sync::Arc::new(dashmap::DashSet::new()) }
    }

    /// Relies on dashmap::DashSet::insert: adds the key, reporting true
    /// exactly when it was absent (an atomic test-and-set).
    #[verifier::external_body]
    fn insert(&mut self, user: u64) -> (r: bool)
        ensures
            r == !lock_users(*old(self)).contains(user),
            lock_users(*final(self)) == lock_users(*old(self)).insert(user),
    {
        self.held.insert(user)
    }

    /// Relies on dashmap::DashSet::remove: takes the key out of the set.
    #[verifier::external_body]
    fn remove(&mut self, user: u64)
        ensures
            lock_users(*final(self)) == lock_users(*old(self)).remove(user),
    {
        self.held.remove(&user);
    }

    /// Relies on dashmap::DashSet::contains: membership in the set.
    #[verifier::external_body]
    pub fn contains(&self, user: u64) -> (r: bool)
        ensures
            r == lock_users(*self).contains(user),
    {
        self.held.contains(&user)
    }
}

/// Why a conversation could not be built or did not run to completion.
#[derive(Clone, Debug, PartialEq)]
pub enum ConversationError {
    /// The user already has a live conversation.
    ConversationLocked,
    /// The platform could not resolve a direct-message channel.
    NoDmChannel,
    /// The anchor message could not be sent (direct messages blocked).
    DmBlocked,
    /// A wait step saw no qualifying event within the dialog timeout.
    TimedOut,
    /// The user cancelled the dialog.
    Canceled,
    /// Any downstream failure, with its description.
    Other(String),
}

/// The message shown to a user for each conversation error.
pub open spec fn error_text(e: ConversationError) -> Seq<char> {
    match e {
        ConversationError::ConversationLocked => "Already in another DM conversation"@,
        ConversationError::NoDmChannel => "Unable to load DM channel"@,
        ConversationError::DmBlocked => "Unable to send message in DM channel"@,
        ConversationError::TimedOut => "Conversation timed out"@,
        ConversationError::Canceled => "Conversation canceled"@,
        ConversationError::Other(s) => s@,
    }
}

impl ConversationError {
    /// True for the failures detected before any dialog ran: the lock was
    /// either never taken or already given back, and no channel is open.
    pub fn is_init_err(&self) -> (r: bool)
        ensures
            r == (*self matches ConversationError::ConversationLocked || *self
                matches ConversationError::NoDmChannel || *self
                matches ConversationError::DmBlocked),
    {
        match self {
            ConversationError::DmBlocked
            | ConversationError::NoDmChannel
            | ConversationError::ConversationLocked => true,
            _ => false,
        }
    }

    /// The user-facing description of this error.
    pub fn message(&self) -> (r: String)
        ensures
            r@ == error_text(*self),
    {
        match self {
            ConversationError::ConversationLocked => String::from_str(
                "Already in another DM conversation",
            ),
            ConversationError::NoDmChannel => String::from_str("Unable to load DM channel"),
            ConversationError::DmBlocked => String::from_str("Unable to send message in DM channel"),
            ConversationError::TimedOut => String::from_str("Conversation timed out"),
            ConversationError::Canceled => String::from_str("Conversation canceled"),
            ConversationError::Other(s) => s.clone(),
        }
    }
}

/// Locked: the user is registered, no channel resolved yet.
pub struct PendingConversation {
    pub user: u64,
}

/// ChannelOpen: a direct-message channel is resolved, no anchor sent yet.
pub struct OpenConversation {
    pub user: u64,
    pub chan: u64,
}

/// Active: a live conversation — the user holds the lock, a channel is
/// open and the anchor message is placed.
pub struct Conversation {
    pub user: u64,
    pub chan: u64,
    pub msg: u64,
}

impl Conversation {
    /// Unstarted → Locked. Atomically registers the user; refused with
    /// `ConversationLocked`, taking nothing, while a conversation of
    /// theirs is live.
    pub fn start(lock: &mut ConversationLock, user: u64) -> (r: Result<
        PendingConversation,
        ConversationError,
    >)
        ensures
            start_allowed(lock_users(*old(lock)), user) ==> (r matches Ok(p) && p.user == user
                && lock_users(*final(lock)) == lock_users(*old(lock)).insert(user)),
            !start_allowed(lock_users(*old(lock)), user) ==> (r matches Err(
                ConversationError::ConversationLocked,
            ) && lock_users(*final(lock)) == lock_users(*old(lock))),
    {
        if lock.insert(user) {
            Ok(PendingConversation { user })
        } else {
            proof {
                assert(lock_users(*lock) =~= lock_users(*old(lock)));
            }
            Err(ConversationError::ConversationLocked)
        }
    }
}

impl PendingConversation {
    /// Locked → ChannelOpen. `chan` is the direct-message channel the
    /// platform resolved, `None` when it could not; failure gives the
    /// lock back at once.
    pub fn channel_opened(self, lock: &mut ConversationLock, chan: Option<u64>) -> (r: Result<
        OpenConversation,
        ConversationError,
    >)
        ensures
            chan matches Some(c) ==> (r matches Ok(o) && o.user == self.user && o.chan == c
                && lock_users(*final(lock)) == lock_users(*old(lock))),
            chan is None ==> (r matches Err(ConversationError::NoDmChannel) && lock_users(
                *final(lock),
            ) == lock_users(*old(lock)).remove(self.user)),
    {
        match chan {
            Some(c) => Ok(OpenConversation { user: self.user, chan: c }),
            None => {
                lock.remove(self.user);
                Err(ConversationError::NoDmChannel)
            },
        }
    }
}

impl OpenConversation {
    /// ChannelOpen → MessageAnchored. `msg` is the placeholder message the
    /// platform accepted into the channel, `None` when sending was
    /// refused; failure gives the lock back at once.
    pub fn anchored(self, lock: &mut ConversationLock, msg: Option<u64>) -> (r: Result<
        Conversation,
        ConversationError,
    >)
        ensures
            msg matches Some(m) ==> (r matches Ok(c) && c.user == self.user && c.chan == self.chan
                && c.msg == m && lock_users(*final(lock)) == lock_users(*old(lock))),
            msg is None ==> (r matches Err(ConversationError::DmBlocked) && lock_users(
                *final(lock),
            ) == lock_users(*old(lock)).remove(self.user)),
    {
        match msg {
            Some(m) => Ok(Conversation { user: self.user, chan: self.chan, msg: m }),
            None => {
                lock.remove(self.user);
                Err(ConversationError::DmBlocked)
            },
        }
    }
}

impl Conversation {
    /// Active → Closed. Unconditionally gives the lock back; every
    /// terminal operation below goes through here, so no exit path can
    /// leak it.
    pub fn close(self, lock: &mut ConversationLock)
        ensures
            lock_users(*final(lock)) == lock_users(*old(lock)).remove(self.user),
    {
        lock.remove(self.user);
    }

    /// Closes after a wait step timed out; the result is the farewell to
    /// send into the channel.
    pub fn timeout_msg(self, lock: &mut ConversationLock) -> (r: String)
        ensures
            lock_users(*final(lock)) == lock_users(*old(lock)).remove(self.user),
            r@ == "Conversation timed out"@,
    {
        self.close(lock);
        String::from_str("Conversation timed out")
    }

    /// Closes after the user cancelled; the result is the farewell to
    /// send into the channel.
    pub fn canceled_msg(self, lock: &mut ConversationLock) -> (r: String)
        ensures
            lock_users(*final(lock)) == lock_users(*old(lock)).remove(self.user),
            r@ == "Conversation got canceled"@,
    {
        self.close(lock);
        String::from_str("Conversation got canceled")
    }

    /// Closes after an internal failure; the result is the apology to
    /// send as a reply to the anchor message.
    pub fn unexpected_error(self, lock: &mut ConversationLock) -> (r: String)
        ensures
            lock_users(*final(lock)) == lock_users(*old(lock)).remove(self.user),
            r@ == "Unexpected error, Sorry =("@,
    {
        self.close(lock);
        String::from_str("Unexpected error, Sorry =(")
    }

    /// Closes with a final message of the caller's choice, handed back to
    /// be sent into the channel.
    pub fn finish_with_msg(self, lock: &mut ConversationLock, content: String) -> (r: String)
        ensures
            lock_users(*final(lock)) == lock_users(*old(lock)).remove(self.user),
            r == content,
    {
        self.close(lock);
        content
    }

    /// Closes, optionally with a final message to send into the channel.
    pub fn abort(self, lock: &mut ConversationLock, msg: Option<String>) -> (r: Option<String>)
        ensures
            lock_users(*final(lock)) == lock_users(*old(lock)).remove(self.user),
            r == msg,
    {
        self.close(lock);
        msg
    }
}

/// Law: at most one conversation is active per user. While a user is in
/// the held set — that is, while a conversation of theirs is live — a
/// further start for that same user is not allowed, so `start` refuses it
/// with `ConversationLocked` and opens nothing.
pub proof fn lemma_start_excluded_while_held(held: Set<u64>, user: u64)
    requires
        held.contains(user),
    ensures
        !start_allowed(held, user),
{
}

/// Law: a terminal state re-enables the user. Every terminal path removes
/// the user from the held set, and after that removal a new start for the
/// same user is allowed again, whatever else the set holds.
pub proof fn lemma_start_allowed_after_release(held: Set<u64>, user: u64)
    ensures
        start_allowed(held.remove(user), user),
{
}

} // verus!

