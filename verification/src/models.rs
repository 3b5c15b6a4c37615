//! The data model: account records, trainings with their lifecycle state,
//! roles, signups and the join entities that tie them together.
//!
//! Timestamps are carried as plain Unix seconds (UTC); chat-platform
//! identities as the 64-bit ids the platform assigns.

use vstd::prelude::*;

verus! {

/// An account record: one per registered chat-platform identity.
#[derive(Debug, PartialEq)]
pub struct User {
    pub id: i32,
    pub discord_id: i64,
    pub gw2_id: String,
}

impl User {
    /// The chat-platform identity, as the unsigned id the platform uses.
    pub fn discord_id(&self) -> (r: u64)
        ensures
            r == self.discord_id as u64,
    {
        #[verifier::truncate]
        (self.discord_id as u64)
    }
}

/// A record to be inserted into the registry (upsert by `discord_id`).
#[derive(Debug, PartialEq)]
pub struct NewUser {
    pub discord_id: i64,
    pub gw2_id: String,
}

/// Lifecycle state of a training; staff drive it forward in this order.
#[derive(Clone, Copy, Debug, PartialEq, Eq, Structural)]
pub enum TrainingState {
    Created,
    Open,
    Closed,
    Started,
    Finished,
}

/// The display name of a training state.
pub open spec fn state_name(s: TrainingState) -> Seq<char> {
    match s {
        TrainingState::Created => "created"@,
        TrainingState::Open => "open"@,
        TrainingState::Closed => "closed"@,
        TrainingState::Started => "started"@,
        TrainingState::Finished => "finished"@,
    }
}

impl TrainingState {
    /// The lower-case display name of this state.
    pub fn name(&self) -> (r: String)
        ensures
            r@ == state_name(*self),
    {
        match self {
            TrainingState::Created => String::from_str("created"),
            TrainingState::Open => String::from_str("open"),
            TrainingState::Closed => String::from_str("closed"),
            TrainingState::Started => String::from_str("started"),
            TrainingState::Finished => String::from_str("finished"),
        }
    }
}

/// A scheduled training event. `date` is the scheduled time in Unix seconds.
#[derive(Debug, PartialEq)]
pub struct Training {
    pub id: i32,
    pub title: String,
    pub date: i64,
    pub state: TrainingState,
    pub tier_id: Option<i32>,
}

/// A training to be inserted; it starts in the `Created` state.
#[derive(Debug, PartialEq)]
pub struct NewTraining {
    pub title: String,
    pub date: i64,
}

/// A selectable sub-role: `repr` is its short text, `emoji` the reaction
/// emoji id that toggles it, `active` its soft-delete flag.
#[derive(Debug, PartialEq)]
pub struct Role {
    pub id: i32,
    pub title: String,
    pub repr: String,
    pub emoji: i64,
    pub active: bool,
}

/// A role to be inserted; new roles are active.
#[derive(Debug, PartialEq)]
pub struct NewRole {
    pub title: String,
    pub repr: String,
    pub emoji: i64,
}

/// One user's registration for one training.
#[derive(Clone, Copy, Debug, PartialEq, Eq, Structural)]
pub struct Signup {
    pub id: i32,
    pub user_id: i32,
    pub training_id: i32,
}

/// A signup to be inserted.
#[derive(Clone, Copy, Debug, PartialEq, Eq, Structural)]
pub struct NewSignup {
    pub user_id: i32,
    pub training_id: i32,
}

/// One role a user selected on one signup.
#[derive(Clone, Copy, Debug, PartialEq, Eq, Structural)]
pub struct SignupRole {
    pub id: i32,
    pub signup_id: i32,
    pub role_id: i32,
}

/// One role offered by one training.
#[derive(Clone, Copy, Debug, PartialEq, Eq, Structural)]
pub struct TrainingRole {
    pub id: i32,
    pub training_id: i32,
    pub role_id: i32,
}

/// A training-role association to be inserted.
#[derive(Clone, Copy, Debug, PartialEq, Eq, Structural)]
pub struct NewTrainingRole {
    pub training_id: i32,
    pub role_id: i32,
}

/// An access tier that can gate signup on a training.
#[derive(Debug, PartialEq)]
pub struct Tier {
    pub id: i32,
    pub name: String,
}

/// A tier to be inserted.
#[derive(Debug, PartialEq)]
pub struct NewTier {
    pub name: String,
}

/// Links a tier to a chat-platform role whose holders meet the tier
/// requirement.
#[derive(Clone, Copy, Debug, PartialEq, Eq, Structural)]
pub struct TierMapping {
    pub id: i32,
    pub tier_id: i32,
    pub discord_role_id: i64,
}

/// A tier mapping to be inserted.
#[derive(Clone, Copy, Debug, PartialEq, Eq, Structural)]
pub struct NewTierMapping {
    pub tier_id: i32,
    pub discord_role_id: i64,
}

/// A named configuration value persisted outside the process.
#[derive(Debug, PartialEq)]
pub struct Config {
    pub name: String,
    pub value: String,
}

impl Clone for User {
    fn clone(&self) -> (r: Self)
        ensures
            r == *self,
    {
        User { id: self.id, discord_id: self.discord_id, gw2_id: self.gw2_id.clone() }
    }
}

impl Clone for NewUser {
    fn clone(&self) -> (r: Self)
        ensures
            r == *self,
    {
        NewUser { discord_id: self.discord_id, gw2_id: self.gw2_id.clone() }
    }
}

impl Clone for Training {
    fn clone(&self) -> (r: Self)
        ensures
            r == *self,
    {
        Training {
            id: self.id,
            title: self.title.clone(),
            date: self.date,
            state: self.state,
            tier_id: self.tier_id,
        }
    }
}

impl Clone for NewTraining {
    fn clone(&self) -> (r: Self)
        ensures
            r == *self,
    {
        NewTraining { title: self.title.clone(), date: self.date }
    }
}

impl Clone for Role {
    fn clone(&self) -> (r: Self)
        ensures
            r == *self,
    {
        Role {
            id: self.id,
            title: self.title.clone(),
            repr: self.repr.clone(),
            emoji: self.emoji,
            active: self.active,
        }
    }
}

impl Clone for NewRole {
    fn clone(&self) -> (r: Self)
        ensures
            r == *self,
    {
        NewRole { title: self.title.clone(), repr: self.repr.clone(), emoji: self.emoji }
    }
}

impl Clone for Tier {
    fn clone(&self) -> (r: Self)
        ensures
            r == *self,
    {
        Tier { id: self.id, name: self.name.clone() }
    }
}

impl Clone for NewTier {
    fn clone(&self) -> (r: Self)
        ensures
            r == *self,
    {
        NewTier { name: self.name.clone() }
    }
}

impl Clone for Config {
    fn clone(&self) -> (r: Self)
        ensures
            r == *self,
    {
        Config { name: self.name.clone(), value: self.value.clone() }
    }
}

/// Whether a user holding the platform roles `user_roles` meets the tier
/// requirement given by `mappings`: some mapped platform role must be
/// among them.
pub open spec fn gate_passes(mappings: Seq<TierMapping>, user_roles: Seq<i64>) -> bool {
    exists|i: int| 0 <= i < mappings.len() && user_roles.contains(mappings[i].discord_role_id)
}

/// Tier gate check: does a user holding `user_roles` hold at least one of
/// the platform roles mapped to the tier?
pub fn tier_allows(mappings: &Vec<TierMapping>, user_roles: &Vec<i64>) -> (r: bool)
    ensures
        r == gate_passes(mappings@, user_roles@),
{
    let mut i: usize = 0;
    while i < mappings.len()
        invariant
            0 <= i <= mappings@.len(),
            !gate_passes(mappings@.subrange(0, i as int), user_roles@),
        decreases mappings@.len() - i,
    {
        if contains_i64(user_roles, mappings[i].discord_role_id) {
            assert(user_roles@.contains(mappings@[i as int].discord_role_id));
            return true;
        }
        assert(mappings@.subrange(0, i + 1 as int).drop_last() =~= mappings@.subrange(
            0,
            i as int,
        ));
        i = i + 1;
    }
    assert(mappings@.subrange(0, mappings@.len() as int) =~= mappings@);
    false
}

/// Membership test on a list of role ids.
pub fn contains_i32(v: &Vec<i32>, x: i32) -> (r: bool)
    ensures
        r == v@.contains(x),
{
    let mut i: usize = 0;
    while i < v.len()
        invariant
            0 <= i <= v@.len(),
            forall|j: int| 0 <= j < i ==> v@[j] != x,
        decreases v@.len() - i,
    {
        if v[i] == x {
            return true;
        }
        i = i + 1;
    }
    false
}

/// Membership test on a list of platform role ids.
pub fn contains_i64(v: &Vec<i64>, x: i64) -> (r: bool)
    ensures
        r == v@.contains(x),
{
    let mut i: usize = 0;
    while i < v.len()
        invariant
            0 <= i <= v@.len(),
            forall|j: int| 0 <= j < i ==> v@[j] != x,
        decreases v@.len() - i,
    {
        if v[i] == x {
            return true;
        }
        i = i + 1;
    }
    false
}

/// Character-wise equality of two texts.
pub fn str_eq(a: &str, b: &str) -> (r: bool)
    ensures
        r == (a@ == b@),
{
    let na = a.unicode_len();
    let nb = b.unicode_len();
    if na != nb {
        return false;
    }
    let mut i: usize = 0;
    while i < na
        invariant
            i <= na,
            na == a@.len(),
            na == b@.len(),
            forall|j: int| 0 <= j < i ==> a@[j] == b@[j],
        decreases na - i,
    {
        if a.get_char(i) != b.get_char(i) {
            return false;
        }
        i = i + 1;
    }
    proof {
        assert(a@ =~= b@);
    }
    true
}

/// The state a lower-case name denotes, if it denotes one.
pub open spec fn state_parse(s: Seq<char>) -> Result<TrainingState, ()> {
    if s == "created"@ {
        Ok(TrainingState::Created)
    } else if s == "open"@ {
        Ok(TrainingState::Open)
    } else if s == "closed"@ {
        Ok(TrainingState::Closed)
    } else if s == "started"@ {
        Ok(TrainingState::Started)
    } else if s == "finished"@ {
        Ok(TrainingState::Finished)
    } else {
        Err(())
    }
}

impl TrainingState {
    /// Reads a state back from its lower-case name.
    pub fn from_str(input: &str) -> (r: Result<TrainingState, ()>)
        ensures
            r == state_parse(input@),
    {
        if str_eq(input, "created") {
            Ok(TrainingState::Created)
        } else if str_eq(input, "open") {
            Ok(TrainingState::Open)
        } else if str_eq(input, "closed") {
            Ok(TrainingState::Closed)
        } else if str_eq(input, "started") {
            Ok(TrainingState::Started)
        } else if str_eq(input, "finished") {
            Ok(TrainingState::Finished)
        } else {
            Err(())
        }
    }
}

/// Law: a state's name reads back to the same state.
pub proof fn lemma_state_name_round_trip(s: TrainingState)
    ensures
        state_parse(state_name(s)) == Ok::<TrainingState, ()>(s),
{
    reveal_strlit("created");
    reveal_strlit("open");
    reveal_strlit("closed");
    reveal_strlit("started");
    reveal_strlit("finished");
    assert("created"@.len() == 7);
    assert("open"@.len() == 4);
    assert("closed"@.len() == 6);
    assert("started"@.len() == 7);
    assert("finished"@.len() == 8);
    assert("created"@[0] == 'c' && "started"@[0] == 's');
    assert(!("open"@ == "created"@));
    assert(!("closed"@ == "created"@));
    assert(!("closed"@ == "open"@));
    assert(!("started"@ == "created"@));
    assert(!("started"@ == "open"@));
    assert(!("started"@ == "closed"@));
    assert(!("finished"@ == "created"@));
    assert(!("finished"@ == "open"@));
    assert(!("finished"@ == "closed"@));
    assert(!("finished"@ == "started"@));
}

} // verus!
