//! The signup commands as decision machines.
//!
//! Each command (join, edit, remove, list) alternates storage or platform
//! work with decisions. The work — queries, message edits, waits — happens
//! outside; here each flow is a machine from state and event to next state
//! and action. The driver performs the action it is handed, feeds the
//! outcome back in as the next event, and never decides anything itself.
//!
//! No signup is written until the full role set is confirmed: the save
//! action is emitted only on a confirmed selection, so a timed-out or
//! cancelled dialog persists nothing.

use crate::models::{NewSignup, Role, Signup, Tier, TierMapping, Training, User};
use crate::models::gate_passes;
use crate::models::tier_allows;
use crate::selection::SelectionStep;
use vstd::prelude::*;

verus! {

/// The outcome of one storage point query.
#[derive(Clone, Debug, PartialEq)]
pub enum Lookup<T> {
    /// The entity was found (or the write went through).
    Found(T),
    /// The not-found signal.
    Missing,
    /// Any other storage failure, with its description.
    Failed(String),
}

/// What a tier gate check needs: the tier, its platform-role mappings and
/// the platform roles the invoking user holds.
#[derive(Clone, Debug, PartialEq)]
pub struct TierGateData {
    pub tier: Tier,
    pub mappings: Vec<TierMapping>,
    pub member_roles: Vec<i64>,
}

/// How a flow ended, for the driver to report.
#[derive(Clone, Debug, PartialEq)]
pub enum FlowNotice {
    /// The invoking user has no account record.
    NotRegistered,
    /// No open training with the requested id.
    TrainingNotOpen,
    /// The tier requirement is not fulfilled; the missing tier's name.
    TierMissing(String),
    /// A signup for this user and training already exists.
    AlreadySignedUp,
    /// No signup for this user and training exists.
    NoSignup,
    /// A wait step timed out.
    TimedOut,
    /// The user cancelled the dialog.
    Canceled,
    /// The flow ran to completion.
    Success,
    /// A delete removed an unexpected number of rows.
    UnexpectedCount(usize),
    /// Any downstream failure, with its description.
    Failure(String),
}

/// What a flow asks its driver to do next.
#[derive(Clone, Debug, PartialEq)]
pub enum FlowAction {
    /// Load the account record for this platform identity.
    LookupUser { discord_id: u64 },
    /// Load the training with this id in the open state.
    LookupOpenTraining { id: i32 },
    /// Load the tier with this id, its mappings, and the user's roles.
    LoadTierGate { tier_id: i32 },
    /// Load the signup of this user for this training.
    LookupSignup { user_id: i32, training_id: i32 },
    /// Load the selectable roles of this training, one outcome per role.
    LoadRoles { training_id: i32 },
    /// Load the selectable roles and the currently selected role ids.
    LoadRolesAndCurrent { training_id: i32, signup_id: i32 },
    /// Run the role-selection dialog over this partition.
    RunSelection { selected: Vec<Role>, unselected: Vec<Role> },
    /// Insert this signup, then one signup role per id.
    SaveSignup { signup: NewSignup, role_ids: Vec<i32> },
    /// Clear this signup's roles, then insert one per id.
    ReplaceRoles { signup_id: i32, role_ids: Vec<i32> },
    /// Delete this signup.
    DeleteSignup { signup_id: i32 },
    /// Load the user's signups in active trainings, with the trainings.
    LoadActiveSignups { user_id: i32 },
    /// Load, per signup id, the roles selected on it.
    LoadSignupRoles { signup_ids: Vec<i32> },
    /// Show the user's active signups.
    Present { summaries: Vec<SignupSummary> },
    /// The flow is over; report how it ended.
    Finish(FlowNotice),
}

/// One event a driver feeds back into a flow.
#[derive(Clone, Debug, PartialEq)]
pub enum FlowEvent {
    /// Outcome of `LookupUser`.
    UserLookup(Lookup<User>),
    /// Outcome of `LookupOpenTraining`.
    TrainingLookup(Lookup<Training>),
    /// Outcome of `LoadTierGate`.
    TierData(Lookup<TierGateData>),
    /// Outcome of `LookupSignup`.
    SignupCheck(Lookup<Signup>),
    /// Outcome of `LoadRoles`: one load outcome per selectable role.
    RolesLoaded(Vec<Lookup<Role>>),
    /// Outcome of `LoadRolesAndCurrent`: all roles, and the selected ids.
    RolesAndCurrent(Lookup<(Vec<Role>, Vec<i32>)>),
    /// Terminal outcome of the role-selection dialog.
    SelectionDone(SelectionStep),
    /// Outcome of `SaveSignup`.
    Saved(Lookup<Signup>),
    /// Outcome of `ReplaceRoles`.
    Replaced(Lookup<usize>),
    /// Outcome of `DeleteSignup`: how many rows went away.
    Deleted(Lookup<usize>),
    /// Outcome of `LoadActiveSignups`.
    SignupsLoaded(Lookup<Vec<(Signup, Training)>>),
    /// Outcome of `LoadSignupRoles`: per signup id, its roles.
    SignupRolesLoaded(Lookup<Vec<(i32, Vec<Role>)>>),
}

/// The text a flow fails with on an event its phase does not expect.
pub open spec fn stray_event_text() -> Seq<char> {
    "unexpected flow event"@
}

/// `r` finishes the flow: the action reports `n` and nothing else happens.
pub open spec fn finish_action(a: FlowAction, n: FlowNotice) -> bool {
    a == FlowAction::Finish(n)
}

/// `a` reports a failure whose text is `m`.
pub open spec fn fails_with(a: FlowAction, m: Seq<char>) -> bool {
    a matches FlowAction::Finish(n) && n matches FlowNotice::Failure(s) && s@ == m
}

/// The roles that loaded, in order, skipping the rest — deactivated roles
/// and per-role load failures are left out of the dialog.
pub open spec fn loaded_roles(loads: Seq<Lookup<Role>>) -> Seq<Role>
    decreases loads.len(),
{
    if loads.len() == 0 {
        Seq::empty()
    } else {
        let rest = loaded_roles(loads.drop_last());
        match loads.last() {
            Lookup::Found(ro) => rest.push(ro),
            _ => rest,
        }
    }
}

/// Keeps the roles that loaded, in order.
pub fn collect_loaded_roles(loads: Vec<Lookup<Role>>) -> (r: Vec<Role>)
    ensures
        r@ == loaded_roles(loads@),
{
    let mut out: Vec<Role> = Vec::new();
    let mut i: usize = 0;
    while i < loads.len()
        invariant
            i <= loads@.len(),
            out@ == loaded_roles(loads@.subrange(0, i as int)),
        decreases loads@.len() - i,
    {
        proof {
            assert(loads@.subrange(0, i + 1 as int).drop_last() =~= loads@.subrange(0, i as int));
        }
        match &loads[i] {
            Lookup::Found(ro) => {
                out.push(ro.clone());
            },
            _ => {},
        }
        i = i + 1;
    }
    proof {
        assert(loads@.subrange(0, loads@.len() as int) =~= loads@);
    }
    out
}

/// The ids of the given roles, in order.
pub open spec fn ids_of(roles: Seq<Role>) -> Seq<i32> {
    roles.map_values(|ro: Role| ro.id)
}

/// Collects the ids of the given roles, in order.
pub fn role_ids(roles: &Vec<Role>) -> (r: Vec<i32>)
    ensures
        r@ == ids_of(roles@),
{
    let mut out: Vec<i32> = Vec::new();
    let mut i: usize = 0;
    while i < roles.len()
        invariant
            i <= roles@.len(),
            out@.len() == i,
            forall|j: int| 0 <= j < i ==> out@[j] == roles@[j].id,
        decreases roles@.len() - i,
    {
        out.push(roles[i].id);
        i = i + 1;
    }
    proof {
        assert(out@ =~= ids_of(roles@));
    }
    out
}

/// One line of the active-signups listing.
#[derive(Clone, Debug, PartialEq)]
pub struct SignupSummary {
    /// The training's title.
    pub title: String,
    /// The training's scheduled time, Unix seconds.
    pub date: i64,
    /// The training's id.
    pub training_id: i32,
    /// The selected roles' short texts joined with a comma, or the
    /// fallback text when this signup's roles did not load.
    pub roles_line: String,
}

/// The roles whose id is among `current`, in order.
pub open spec fn selected_part(roles: Seq<Role>, current: Seq<i32>) -> Seq<Role> {
    roles.filter(|ro: Role| current.contains(ro.id))
}

/// The roles whose id is not among `current`, in order.
pub open spec fn unselected_part(roles: Seq<Role>, current: Seq<i32>) -> Seq<Role> {
    roles.filter(|ro: Role| !current.contains(ro.id))
}

/// Splits the selectable roles by whether they are currently selected.
///
/// This re-derives the partition from the stored role ids on every edit;
/// a known hotspot, kept for want of a cheaper source of truth.
pub fn partition_roles(roles: Vec<Role>, current: &Vec<i32>) -> (r: (Vec<Role>, Vec<Role>))
    ensures
        r.0@ == selected_part(roles@, current@),
        r.1@ == unselected_part(roles@, current@),
{
    let mut sel: Vec<Role> = Vec::new();
    let mut unsel: Vec<Role> = Vec::new();
    let mut i: usize = 0;
    while i < roles.len()
        invariant
            i <= roles@.len(),
            sel@ == selected_part(roles@.subrange(0, i as int), current@),
            unsel@ == unselected_part(roles@.subrange(0, i as int), current@),
        decreases roles@.len() - i,
    {
        proof {
            reveal(Seq::filter);
            assert(roles@.subrange(0, i + 1 as int).drop_last() =~= roles@.subrange(0, i as int));
            assert(roles@.subrange(0, i + 1 as int).last() == roles@[i as int]);
        }
        if crate::models::contains_i32(current, roles[i].id) {
            sel.push(roles[i].clone());
        } else {
            unsel.push(roles[i].clone());
        }
        i = i + 1;
    }
    proof {
        assert(roles@.subrange(0, roles@.len() as int) =~= roles@);
    }
    (sel, unsel)
}

/// The short texts of the given roles joined with a comma.
pub open spec fn reprs_joined(roles: Seq<Role>) -> Seq<char>
    decreases roles.len(),
{
    if roles.len() == 0 {
        Seq::empty()
    } else if roles.len() == 1 {
        roles[0].repr@
    } else {
        reprs_joined(roles.drop_last()) + ", "@ + roles.last().repr@
    }
}

/// Joins the short texts of the given roles with a comma.
pub fn join_reprs(roles: &Vec<Role>) -> (r: String)
    ensures
        r@ == reprs_joined(roles@),
{
    let mut out = String::new();
    let mut i: usize = 0;
    while i < roles.len()
        invariant
            i <= roles@.len(),
            out@ == reprs_joined(roles@.subrange(0, i as int)),
        decreases roles@.len() - i,
    {
        proof {
            assert(roles@.subrange(0, i + 1 as int).drop_last() =~= roles@.subrange(0, i as int));
            assert(roles@.subrange(0, i + 1 as int).last() == roles@[i as int]);
        }
        if i > 0 {
            out.append(", ");
        }
        out.append(roles[i].repr.as_str());
        i = i + 1;
    }
    proof {
        assert(roles@.subrange(0, roles@.len() as int) =~= roles@);
    }
    out
}

/// The roles recorded for signup `sid` in the table, first entry wins.
pub open spec fn roles_entry(table: Seq<(i32, Vec<Role>)>, sid: i32) -> Option<Vec<Role>>
    decreases table.len(),
{
    if table.len() == 0 {
        None
    } else if table[0].0 == sid {
        Some(table[0].1)
    } else {
        roles_entry(table.drop_first(), sid)
    }
}

/// Finds the first table entry for signup `sid`, if any.
fn find_roles_entry(table: &Vec<(i32, Vec<Role>)>, sid: i32) -> (r: Option<usize>)
    ensures
        r matches Some(i) ==> i < table@.len() && table@[i as int].0 == sid && roles_entry(
            table@,
            sid,
        ) == Some(table@[i as int].1),
        r is None ==> roles_entry(table@, sid) is None,
{
    let mut i: usize = 0;
    proof {
        assert(table@.skip(0) =~= table@);
    }
    while i < table.len()
        invariant
            i <= table@.len(),
            roles_entry(table@, sid) == roles_entry(table@.skip(i as int), sid),
            forall|j: int| 0 <= j < i ==> table@[j].0 != sid,
        decreases table@.len() - i,
    {
        proof {
            assert(table@.skip(i as int)[0] == table@[i as int]);
            assert(table@.skip(i as int).drop_first() =~= table@.skip(i + 1 as int));
        }
        if table[i].0 == sid {
            return Some(i);
        }
        i = i + 1;
    }
    proof {
        assert(table@.skip(table@.len() as int).len() == 0);
    }
    None
}

/// The fallback line when a signup's roles did not load.
pub open spec fn roles_fallback_text() -> Seq<char> {
    "Failed to load roles =("@
}

/// `s` is the listing line for the signup-training pair `e` given the
/// per-signup roles table.
pub open spec fn summary_matches(
    e: (Signup, Training),
    table: Seq<(i32, Vec<Role>)>,
    s: SignupSummary,
) -> bool {
    &&& s.title@ == e.1.title@
    &&& s.date == e.1.date
    &&& s.training_id == e.1.id
    &&& match roles_entry(table, e.0.id) {
        Some(rs) => s.roles_line@ == reprs_joined(rs@),
        None => s.roles_line@ == roles_fallback_text(),
    }
}

/// Builds the listing: one line per active signup, with the training's
/// title, time and id and the selected roles' texts.
pub fn list_summaries(entries: &Vec<(Signup, Training)>, table: &Vec<(i32, Vec<Role>)>) -> (r: Vec<
    SignupSummary,
>)
    ensures
        r@.len() == entries@.len(),
        forall|i: int| 0 <= i < entries@.len() ==> summary_matches(entries@[i], table@, r@[i]),
{
    let mut out: Vec<SignupSummary> = Vec::new();
    let mut i: usize = 0;
    while i < entries.len()
        invariant
            i <= entries@.len(),
            out@.len() == i,
            forall|j: int| 0 <= j < i ==> summary_matches(entries@[j], table@, out@[j]),
        decreases entries@.len() - i,
    {
        let roles_line = match find_roles_entry(table, entries[i].0.id) {
            Some(k) => join_reprs(&table[k].1),
            None => String::from_str("Failed to load roles =("),
        };
        let summary = SignupSummary {
            title: entries[i].1.title.clone(),
            date: entries[i].1.date,
            training_id: entries[i].1.id,
            roles_line,
        };
        out.push(summary);
        i = i + 1;
    }
    out
}

/// Where the join flow stands.
#[derive(Debug)]
pub enum JoinPhase {
    /// Waiting for the account record.
    AwaitUser,
    /// Waiting for the open training.
    AwaitTraining { db_user: User },
    /// Waiting for the tier gate data.
    AwaitTier { db_user: User, training: Training },
    /// Waiting to hear whether a signup already exists.
    AwaitSignupCheck { db_user: User, training: Training },
    /// Waiting for the selectable roles.
    AwaitRoles { db_user: User, training: Training },
    /// The role-selection dialog is running.
    Selecting { db_user: User, training: Training },
    /// Waiting for the signup and its roles to be written.
    AwaitSave,
    /// The flow is over.
    Done,
}

/// Which events the join flow consumes in which phase.
pub open spec fn join_expects(p: JoinPhase, ev: FlowEvent) -> bool {
    match (p, ev) {
        (JoinPhase::AwaitUser, FlowEvent::UserLookup(_)) => true,
        (JoinPhase::AwaitTraining { .. }, FlowEvent::TrainingLookup(_)) => true,
        (JoinPhase::AwaitTier { .. }, FlowEvent::TierData(_)) => true,
        (JoinPhase::AwaitSignupCheck { .. }, FlowEvent::SignupCheck(_)) => true,
        (JoinPhase::AwaitRoles { .. }, FlowEvent::RolesLoaded(_)) => true,
        (JoinPhase::Selecting { .. }, FlowEvent::SelectionDone(_)) => true,
        (JoinPhase::AwaitSave, FlowEvent::Saved(_)) => true,
        _ => false,
    }
}

/// The join command: sign the invoking user up for an open training and
/// let them pick their roles; persist nothing unless they confirm.
#[derive(Debug)]
pub struct JoinFlow {
    /// The invoking user's platform identity.
    pub user: u64,
    /// The training asked for.
    pub training_id: i32,
    /// Where the flow stands.
    pub phase: JoinPhase,
}

impl JoinFlow {
    /// Opens the flow; the first thing to do is the account lookup.
    pub fn start(user: u64, training_id: i32) -> (r: (JoinFlow, FlowAction))
        ensures
            r.0.user == user,
            r.0.training_id == training_id,
            r.0.phase is AwaitUser,
            r.1 == (FlowAction::LookupUser { discord_id: user }),
    {
        (
            JoinFlow { user, training_id, phase: JoinPhase::AwaitUser },
            FlowAction::LookupUser { discord_id: user },
        )
    }

    /// One decision of the join flow.
    ///
    /// Checks run in order: account, open training, tier gate, existing
    /// signup. Each refusal finishes the flow with its notice; a storage
    /// failure finishes it with that failure. A confirmed selection — and
    /// only a confirmed selection — emits the save of the signup with
    /// exactly the selected role ids.
    pub fn advance(self, ev: FlowEvent) -> (r: (JoinFlow, FlowAction))
        ensures
            r.0.user == self.user,
            r.0.training_id == self.training_id,
            !join_expects(self.phase, ev) ==> (r.0.phase is Done && fails_with(
                r.1,
                stray_event_text(),
            )),
            self.phase is AwaitUser ==> (ev matches FlowEvent::UserLookup(l) ==> ((l matches
                Lookup::Found(u) ==> (r.0.phase matches JoinPhase::AwaitTraining { db_user }
                && db_user == u && r.1 == (FlowAction::LookupOpenTraining {
                id: self.training_id,
            }))) && (l is Missing ==> (r.0.phase is Done && finish_action(
                r.1,
                FlowNotice::NotRegistered,
            ))) && (l matches Lookup::Failed(m) ==> (r.0.phase is Done && finish_action(
                r.1,
                FlowNotice::Failure(m),
            ))))),
            self.phase matches JoinPhase::AwaitTraining { db_user } ==> (ev matches
                FlowEvent::TrainingLookup(l) ==> ((l matches Lookup::Found(t) ==> ((t.tier_id
                matches Some(tid) ==> (r.0.phase matches JoinPhase::AwaitTier {
                db_user: du2,
                training: t2,
            } && du2 == db_user && t2 == t && r.1 == (FlowAction::LoadTierGate { tier_id: tid })))
                && (t.tier_id is None ==> (r.0.phase matches JoinPhase::AwaitSignupCheck {
                db_user: du2,
                training: t2,
            } && du2 == db_user && t2 == t && r.1 == (FlowAction::LookupSignup {
                user_id: db_user.id,
                training_id: t.id,
            }))))) && (l is Missing ==> (r.0.phase is Done && finish_action(
                r.1,
                FlowNotice::TrainingNotOpen,
            ))) && (l matches Lookup::Failed(m) ==> (r.0.phase is Done && finish_action(
                r.1,
                FlowNotice::Failure(m),
            ))))),
            self.phase matches JoinPhase::AwaitTier { db_user, training } ==> (ev matches
                FlowEvent::TierData(l) ==> ((l matches Lookup::Found(d) ==> ((gate_passes(
                d.mappings@,
                d.member_roles@,
            ) ==> (r.0.phase matches JoinPhase::AwaitSignupCheck { db_user: du2, training: t2 }
                && du2 == db_user && t2 == training && r.1 == (FlowAction::LookupSignup {
                user_id: db_user.id,
                training_id: training.id,
            }))) && (!gate_passes(d.mappings@, d.member_roles@) ==> (r.0.phase is Done
                && finish_action(r.1, FlowNotice::TierMissing(d.tier.name)))))) && (l is Missing
                ==> (r.0.phase is Done && fails_with(r.1, "Tier not found"@))) && (l matches
                Lookup::Failed(m) ==> (r.0.phase is Done && finish_action(
                r.1,
                FlowNotice::Failure(m),
            ))))),
            self.phase matches JoinPhase::AwaitSignupCheck { db_user, training } ==> (ev matches
                FlowEvent::SignupCheck(l) ==> ((l matches Lookup::Found(s) ==> (r.0.phase is Done
                && finish_action(r.1, FlowNotice::AlreadySignedUp))) && (l is Missing ==> (
            r.0.phase matches JoinPhase::AwaitRoles { db_user: du2, training: t2 } && du2 == db_user
                && t2 == training && r.1 == (FlowAction::LoadRoles { training_id: training.id })))
                && (l matches Lookup::Failed(m) ==> (r.0.phase is Done && finish_action(
                r.1,
                FlowNotice::Failure(m),
            ))))),
            self.phase matches JoinPhase::AwaitRoles { db_user, training } ==> (ev matches
                FlowEvent::RolesLoaded(loads) ==> (r.0.phase matches JoinPhase::Selecting {
                db_user: du2,
                training: t2,
            } && du2 == db_user && t2 == training && (r.1 matches FlowAction::RunSelection {
                selected,
                unselected,
            } && selected@ =~= Seq::<Role>::empty() && unselected@ == loaded_roles(loads@)))),
            self.phase matches JoinPhase::Selecting { db_user, training } ==> (ev matches
                FlowEvent::SelectionDone(s) ==> ((s matches SelectionStep::Confirmed(sel) ==> (
            r.0.phase is AwaitSave && (r.1 matches FlowAction::SaveSignup { signup, role_ids }
                && signup == (NewSignup { user_id: db_user.id, training_id: training.id })
                && role_ids@ == ids_of(sel@)))) && (s is TimedOut ==> (r.0.phase is Done
                && finish_action(r.1, FlowNotice::TimedOut))) && (s is Canceled ==> (r.0.phase
                is Done && finish_action(r.1, FlowNotice::Canceled))) && (s is Pending ==> (
            r.0.phase is Done && fails_with(r.1, stray_event_text()))))),
            self.phase is AwaitSave ==> (ev matches FlowEvent::Saved(l) ==> ((l matches
                Lookup::Found(s) ==> (r.0.phase is Done && finish_action(
                r.1,
                FlowNotice::Success,
            ))) && (l is Missing ==> (r.0.phase is Done && fails_with(r.1, "Signup not saved"@)))
                && (l matches Lookup::Failed(m) ==> (r.0.phase is Done && finish_action(
                r.1,
                FlowNotice::Failure(m),
            ))))),
    {
        let user = self.user;
        let training_id = self.training_id;
        match (self.phase, ev) {
            (JoinPhase::AwaitUser, FlowEvent::UserLookup(l)) => {
                match l {
                    Lookup::Found(u) => (
                        JoinFlow { user, training_id, phase: JoinPhase::AwaitTraining { db_user: u } },
                        FlowAction::LookupOpenTraining { id: training_id },
                    ),
                    Lookup::Missing => (
                        JoinFlow { user, training_id, phase: JoinPhase::Done },
                        FlowAction::Finish(FlowNotice::NotRegistered),
                    ),
                    Lookup::Failed(m) => (
                        JoinFlow { user, training_id, phase: JoinPhase::Done },
                        FlowAction::Finish(FlowNotice::Failure(m)),
                    ),
                }
            },
            (JoinPhase::AwaitTraining { db_user }, FlowEvent::TrainingLookup(l)) => {
                match l {
                    Lookup::Found(t) => {
                        match t.tier_id {
                            Some(tid) => (
                                JoinFlow {
                                    user,
                                    training_id,
                                    phase: JoinPhase::AwaitTier { db_user, training: t },
                                },
                                FlowAction::LoadTierGate { tier_id: tid },
                            ),
                            None => {
                                let uid = db_user.id;
                                let tid2 = t.id;
                                (
                                    JoinFlow {
                                        user,
                                        training_id,
                                        phase: JoinPhase::AwaitSignupCheck { db_user, training: t },
                                    },
                                    FlowAction::LookupSignup { user_id: uid, training_id: tid2 },
                                )
                            },
                        }
                    },
                    Lookup::Missing => (
                        JoinFlow { user, training_id, phase: JoinPhase::Done },
                        FlowAction::Finish(FlowNotice::TrainingNotOpen),
                    ),
                    Lookup::Failed(m) => (
                        JoinFlow { user, training_id, phase: JoinPhase::Done },
                        FlowAction::Finish(FlowNotice::Failure(m)),
                    ),
                }
            },
            (JoinPhase::AwaitTier { db_user, training }, FlowEvent::TierData(l)) => {
                match l {
                    Lookup::Found(d) => {
                        if tier_allows(&d.mappings, &d.member_roles) {
                            let uid = db_user.id;
                            let tid2 = training.id;
                            (
                                JoinFlow {
                                    user,
                                    training_id,
                                    phase: JoinPhase::AwaitSignupCheck { db_user, training },
                                },
                                FlowAction::LookupSignup { user_id: uid, training_id: tid2 },
                            )
                        } else {
                            (
                                JoinFlow { user, training_id, phase: JoinPhase::Done },
                                FlowAction::Finish(FlowNotice::TierMissing(d.tier.name)),
                            )
                        }
                    },
                    Lookup::Missing => (
                        JoinFlow { user, training_id, phase: JoinPhase::Done },
                        FlowAction::Finish(
                            FlowNotice::Failure(String::from_str("Tier not found")),
                        ),
                    ),
                    Lookup::Failed(m) => (
                        JoinFlow { user, training_id, phase: JoinPhase::Done },
                        FlowAction::Finish(FlowNotice::Failure(m)),
                    ),
                }
            },
            (JoinPhase::AwaitSignupCheck { db_user, training }, FlowEvent::SignupCheck(l)) => {
                match l {
                    Lookup::Found(_) => (
                        JoinFlow { user, training_id, phase: JoinPhase::Done },
                        FlowAction::Finish(FlowNotice::AlreadySignedUp),
                    ),
                    Lookup::Missing => {
                        let tid2 = training.id;
                        (
                            JoinFlow {
                                user,
                                training_id,
                                phase: JoinPhase::AwaitRoles { db_user, training },
                            },
                            FlowAction::LoadRoles { training_id: tid2 },
                        )
                    },
                    Lookup::Failed(m) => (
                        JoinFlow { user, training_id, phase: JoinPhase::Done },
                        FlowAction::Finish(FlowNotice::Failure(m)),
                    ),
                }
            },
            (JoinPhase::AwaitRoles { db_user, training }, FlowEvent::RolesLoaded(loads)) => {
                let unselected = collect_loaded_roles(loads);
                (
                    JoinFlow {
                        user,
                        training_id,
                        phase: JoinPhase::Selecting { db_user, training },
                    },
                    FlowAction::RunSelection { selected: Vec::new(), unselected },
                )
            },
            (JoinPhase::Selecting { db_user, training }, FlowEvent::SelectionDone(s)) => {
                match s {
                    SelectionStep::Confirmed(sel) => {
                        let ids = role_ids(&sel);
                        (
                            JoinFlow { user, training_id, phase: JoinPhase::AwaitSave },
                            FlowAction::SaveSignup {
                                signup: NewSignup { user_id: db_user.id, training_id: training.id },
                                role_ids: ids,
                            },
                        )
                    },
                    SelectionStep::TimedOut => (
                        JoinFlow { user, training_id, phase: JoinPhase::Done },
                        FlowAction::Finish(FlowNotice::TimedOut),
                    ),
                    SelectionStep::Canceled => (
                        JoinFlow { user, training_id, phase: JoinPhase::Done },
                        FlowAction::Finish(FlowNotice::Canceled),
                    ),
                    SelectionStep::Pending => (
                        JoinFlow { user, training_id, phase: JoinPhase::Done },
                        FlowAction::Finish(
                            FlowNotice::Failure(String::from_str("unexpected flow event")),
                        ),
                    ),
                }
            },
            (JoinPhase::AwaitSave, FlowEvent::Saved(l)) => {
                match l {
                    Lookup::Found(_) => (
                        JoinFlow { user, training_id, phase: JoinPhase::Done },
                        FlowAction::Finish(FlowNotice::Success),
                    ),
                    Lookup::Missing => (
                        JoinFlow { user, training_id, phase: JoinPhase::Done },
                        FlowAction::Finish(
                            FlowNotice::Failure(String::from_str("Signup not saved")),
                        ),
                    ),
                    Lookup::Failed(m) => (
                        JoinFlow { user, training_id, phase: JoinPhase::Done },
                        FlowAction::Finish(FlowNotice::Failure(m)),
                    ),
                }
            },
            _ => (
                JoinFlow { user, training_id, phase: JoinPhase::Done },
                FlowAction::Finish(FlowNotice::Failure(String::from_str("unexpected flow event"))),
            ),
        }
    }
}

/// Where the edit flow stands.
#[derive(Debug)]
pub enum EditPhase {
    /// Waiting for the account record.
    AwaitUser,
    /// Waiting for the open training.
    AwaitTraining { db_user: User },
    /// Waiting for the existing signup.
    AwaitSignup { db_user: User, training: Training },
    /// Waiting for the selectable roles and the current selection.
    AwaitRoles { signup: Signup },
    /// The role-selection dialog is running.
    Selecting { signup: Signup },
    /// Waiting for the signup's roles to be replaced.
    AwaitReplace,
    /// The flow is over.
    Done,
}

/// Which events the edit flow consumes in which phase.
pub open spec fn edit_expects(p: EditPhase, ev: FlowEvent) -> bool {
    match (p, ev) {
        (EditPhase::AwaitUser, FlowEvent::UserLookup(_)) => true,
        (EditPhase::AwaitTraining { .. }, FlowEvent::TrainingLookup(_)) => true,
        (EditPhase::AwaitSignup { .. }, FlowEvent::SignupCheck(_)) => true,
        (EditPhase::AwaitRoles { .. }, FlowEvent::RolesAndCurrent(_)) => true,
        (EditPhase::Selecting { .. }, FlowEvent::SelectionDone(_)) => true,
        (EditPhase::AwaitReplace, FlowEvent::Replaced(_)) => true,
        _ => false,
    }
}

/// The edit command: change the selected roles on an existing signup for
/// an open training. The stored roles are replaced only on a confirmed
/// selection.
#[derive(Debug)]
pub struct EditFlow {
    /// The invoking user's platform identity.
    pub user: u64,
    /// The training asked for.
    pub training_id: i32,
    /// Where the flow stands.
    pub phase: EditPhase,
}

impl EditFlow {
    /// Opens the flow; the first thing to do is the account lookup.
    pub fn start(user: u64, training_id: i32) -> (r: (EditFlow, FlowAction))
        ensures
            r.0.user == user,
            r.0.training_id == training_id,
            r.0.phase is AwaitUser,
            r.1 == (FlowAction::LookupUser { discord_id: user }),
    {
        (
            EditFlow { user, training_id, phase: EditPhase::AwaitUser },
            FlowAction::LookupUser { discord_id: user },
        )
    }

    /// One decision of the edit flow.
    ///
    /// Checks run in order: account, open training, existing signup. The
    /// dialog starts from the stored selection, re-derived against the
    /// selectable roles; a confirmed selection — and only a confirmed
    /// selection — emits the replacement of the stored roles.
    pub fn advance(self, ev: FlowEvent) -> (r: (EditFlow, FlowAction))
        ensures
            r.0.user == self.user,
            r.0.training_id == self.training_id,
            !edit_expects(self.phase, ev) ==> (r.0.phase is Done && fails_with(
                r.1,
                stray_event_text(),
            )),
            self.phase is AwaitUser ==> (ev matches FlowEvent::UserLookup(l) ==> ((l matches
                Lookup::Found(u) ==> (r.0.phase matches EditPhase::AwaitTraining { db_user }
                && db_user == u && r.1 == (FlowAction::LookupOpenTraining {
                id: self.training_id,
            }))) && (l is Missing ==> (r.0.phase is Done && finish_action(
                r.1,
                FlowNotice::NotRegistered,
            ))) && (l matches Lookup::Failed(m) ==> (r.0.phase is Done && finish_action(
                r.1,
                FlowNotice::Failure(m),
            ))))),
            self.phase matches EditPhase::AwaitTraining { db_user } ==> (ev matches
                FlowEvent::TrainingLookup(l) ==> ((l matches Lookup::Found(t) ==> (r.0.phase
                matches EditPhase::AwaitSignup { db_user: du2, training: t2 } && du2 == db_user
                && t2 == t && r.1 == (FlowAction::LookupSignup {
                user_id: db_user.id,
                training_id: t.id,
            }))) && (l is Missing ==> (r.0.phase is Done && finish_action(
                r.1,
                FlowNotice::TrainingNotOpen,
            ))) && (l matches Lookup::Failed(m) ==> (r.0.phase is Done && finish_action(
                r.1,
                FlowNotice::Failure(m),
            ))))),
            self.phase matches EditPhase::AwaitSignup { db_user, training } ==> (ev matches
                FlowEvent::SignupCheck(l) ==> ((l matches Lookup::Found(s) ==> (r.0.phase matches
                EditPhase::AwaitRoles { signup } && signup == s && r.1
                == (FlowAction::LoadRolesAndCurrent {
                training_id: training.id,
                signup_id: s.id,
            }))) && (l is Missing ==> (r.0.phase is Done && finish_action(
                r.1,
                FlowNotice::NoSignup,
            ))) && (l matches Lookup::Failed(m) ==> (r.0.phase is Done && finish_action(
                r.1,
                FlowNotice::Failure(m),
            ))))),
            self.phase matches EditPhase::AwaitRoles { signup } ==> (ev matches
                FlowEvent::RolesAndCurrent(l) ==> ((l matches Lookup::Found(rc) ==> (r.0.phase
                matches EditPhase::Selecting { signup: s2 } && s2 == signup && (r.1 matches
                FlowAction::RunSelection { selected, unselected } && selected@ == selected_part(
                rc.0@,
                rc.1@,
            ) && unselected@ == unselected_part(rc.0@, rc.1@)))) && (l is Missing ==> (r.0.phase
                is Done && fails_with(r.1, "Roles not found"@))) && (l matches Lookup::Failed(m)
                ==> (r.0.phase is Done && finish_action(r.1, FlowNotice::Failure(m)))))),
            self.phase matches EditPhase::Selecting { signup } ==> (ev matches
                FlowEvent::SelectionDone(s) ==> ((s matches SelectionStep::Confirmed(sel) ==> (
            r.0.phase is AwaitReplace && (r.1 matches FlowAction::ReplaceRoles {
                signup_id,
                role_ids,
            } && signup_id == signup.id && role_ids@ == ids_of(sel@)))) && (s is TimedOut ==> (
            r.0.phase is Done && finish_action(r.1, FlowNotice::TimedOut))) && (s is Canceled
                ==> (r.0.phase is Done && finish_action(r.1, FlowNotice::Canceled))) && (s
                is Pending ==> (r.0.phase is Done && fails_with(r.1, stray_event_text()))))),
            self.phase is AwaitReplace ==> (ev matches FlowEvent::Replaced(l) ==> ((l matches
                Lookup::Found(n) ==> (r.0.phase is Done && finish_action(
                r.1,
                FlowNotice::Success,
            ))) && (l is Missing ==> (r.0.phase is Done && fails_with(r.1, "Roles not saved"@)))
                && (l matches Lookup::Failed(m) ==> (r.0.phase is Done && finish_action(
                r.1,
                FlowNotice::Failure(m),
            ))))),
    {
        let user = self.user;
        let training_id = self.training_id;
        match (self.phase, ev) {
            (EditPhase::AwaitUser, FlowEvent::UserLookup(l)) => {
                match l {
                    Lookup::Found(u) => (
                        EditFlow { user, training_id, phase: EditPhase::AwaitTraining { db_user: u } },
                        FlowAction::LookupOpenTraining { id: training_id },
                    ),
                    Lookup::Missing => (
                        EditFlow { user, training_id, phase: EditPhase::Done },
                        FlowAction::Finish(FlowNotice::NotRegistered),
                    ),
                    Lookup::Failed(m) => (
                        EditFlow { user, training_id, phase: EditPhase::Done },
                        FlowAction::Finish(FlowNotice::Failure(m)),
                    ),
                }
            },
            (EditPhase::AwaitTraining { db_user }, FlowEvent::TrainingLookup(l)) => {
                match l {
                    Lookup::Found(t) => {
                        let uid = db_user.id;
                        let tid = t.id;
                        (
                            EditFlow {
                                user,
                                training_id,
                                phase: EditPhase::AwaitSignup { db_user, training: t },
                            },
                            FlowAction::LookupSignup { user_id: uid, training_id: tid },
                        )
                    },
                    Lookup::Missing => (
                        EditFlow { user, training_id, phase: EditPhase::Done },
                        FlowAction::Finish(FlowNotice::TrainingNotOpen),
                    ),
                    Lookup::Failed(m) => (
                        EditFlow { user, training_id, phase: EditPhase::Done },
                        FlowAction::Finish(FlowNotice::Failure(m)),
                    ),
                }
            },
            (EditPhase::AwaitSignup { db_user, training }, FlowEvent::SignupCheck(l)) => {
                match l {
                    Lookup::Found(s) => (
                        EditFlow { user, training_id, phase: EditPhase::AwaitRoles { signup: s } },
                        FlowAction::LoadRolesAndCurrent {
                            training_id: training.id,
                            signup_id: s.id,
                        },
                    ),
                    Lookup::Missing => (
                        EditFlow { user, training_id, phase: EditPhase::Done },
                        FlowAction::Finish(FlowNotice::NoSignup),
                    ),
                    Lookup::Failed(m) => (
                        EditFlow { user, training_id, phase: EditPhase::Done },
                        FlowAction::Finish(FlowNotice::Failure(m)),
                    ),
                }
            },
            (EditPhase::AwaitRoles { signup }, FlowEvent::RolesAndCurrent(l)) => {
                match l {
                    Lookup::Found(rc) => {
                        let (roles, current) = rc;
                        let (sel, unsel) = partition_roles(roles, &current);
                        (
                            EditFlow { user, training_id, phase: EditPhase::Selecting { signup } },
                            FlowAction::RunSelection { selected: sel, unselected: unsel },
                        )
                    },
                    Lookup::Missing => (
                        EditFlow { user, training_id, phase: EditPhase::Done },
                        FlowAction::Finish(
                            FlowNotice::Failure(String::from_str("Roles not found")),
                        ),
                    ),
                    Lookup::Failed(m) => (
                        EditFlow { user, training_id, phase: EditPhase::Done },
                        FlowAction::Finish(FlowNotice::Failure(m)),
                    ),
                }
            },
            (EditPhase::Selecting { signup }, FlowEvent::SelectionDone(s)) => {
                match s {
                    SelectionStep::Confirmed(sel) => {
                        let ids = role_ids(&sel);
                        (
                            EditFlow { user, training_id, phase: EditPhase::AwaitReplace },
                            FlowAction::ReplaceRoles { signup_id: signup.id, role_ids: ids },
                        )
                    },
                    SelectionStep::TimedOut => (
                        EditFlow { user, training_id, phase: EditPhase::Done },
                        FlowAction::Finish(FlowNotice::TimedOut),
                    ),
                    SelectionStep::Canceled => (
                        EditFlow { user, training_id, phase: EditPhase::Done },
                        FlowAction::Finish(FlowNotice::Canceled),
                    ),
                    SelectionStep::Pending => (
                        EditFlow { user, training_id, phase: EditPhase::Done },
                        FlowAction::Finish(
                            FlowNotice::Failure(String::from_str("unexpected flow event")),
                        ),
                    ),
                }
            },
            (EditPhase::AwaitReplace, FlowEvent::Replaced(l)) => {
                match l {
                    Lookup::Found(_) => (
                        EditFlow { user, training_id, phase: EditPhase::Done },
                        FlowAction::Finish(FlowNotice::Success),
                    ),
                    Lookup::Missing => (
                        EditFlow { user, training_id, phase: EditPhase::Done },
                        FlowAction::Finish(
                            FlowNotice::Failure(String::from_str("Roles not saved")),
                        ),
                    ),
                    Lookup::Failed(m) => (
                        EditFlow { user, training_id, phase: EditPhase::Done },
                        FlowAction::Finish(FlowNotice::Failure(m)),
                    ),
                }
            },
            _ => (
                EditFlow { user, training_id, phase: EditPhase::Done },
                FlowAction::Finish(FlowNotice::Failure(String::from_str("unexpected flow event"))),
            ),
        }
    }
}

/// Where the remove flow stands.
#[derive(Debug)]
pub enum RemovePhase {
    /// Waiting for the account record.
    AwaitUser,
    /// Waiting for the open training.
    AwaitTraining { db_user: User },
    /// Waiting for the existing signup.
    AwaitSignup { db_user: User, training: Training },
    /// Waiting for the signup to be deleted.
    AwaitDelete,
    /// The flow is over.
    Done,
}

/// Which events the remove flow consumes in which phase.
pub open spec fn remove_expects(p: RemovePhase, ev: FlowEvent) -> bool {
    match (p, ev) {
        (RemovePhase::AwaitUser, FlowEvent::UserLookup(_)) => true,
        (RemovePhase::AwaitTraining { .. }, FlowEvent::TrainingLookup(_)) => true,
        (RemovePhase::AwaitSignup { .. }, FlowEvent::SignupCheck(_)) => true,
        (RemovePhase::AwaitDelete, FlowEvent::Deleted(_)) => true,
        _ => false,
    }
}

/// The leave command: drop the invoking user's signup for an open
/// training.
#[derive(Debug)]
pub struct RemoveFlow {
    /// The invoking user's platform identity.
    pub user: u64,
    /// The training asked for.
    pub training_id: i32,
    /// Where the flow stands.
    pub phase: RemovePhase,
}

impl RemoveFlow {
    /// Opens the flow; the first thing to do is the account lookup.
    pub fn start(user: u64, training_id: i32) -> (r: (RemoveFlow, FlowAction))
        ensures
            r.0.user == user,
            r.0.training_id == training_id,
            r.0.phase is AwaitUser,
            r.1 == (FlowAction::LookupUser { discord_id: user }),
    {
        (
            RemoveFlow { user, training_id, phase: RemovePhase::AwaitUser },
            FlowAction::LookupUser { discord_id: user },
        )
    }

    /// One decision of the remove flow.
    ///
    /// Checks run in order: account, open training, existing signup. The
    /// delete must remove exactly one row; any other count is reported as
    /// such.
    pub fn advance(self, ev: FlowEvent) -> (r: (RemoveFlow, FlowAction))
        ensures
            r.0.user == self.user,
            r.0.training_id == self.training_id,
            !remove_expects(self.phase, ev) ==> (r.0.phase is Done && fails_with(
                r.1,
                stray_event_text(),
            )),
            self.phase is AwaitUser ==> (ev matches FlowEvent::UserLookup(l) ==> ((l matches
                Lookup::Found(u) ==> (r.0.phase matches RemovePhase::AwaitTraining { db_user }
                && db_user == u && r.1 == (FlowAction::LookupOpenTraining {
                id: self.training_id,
            }))) && (l is Missing ==> (r.0.phase is Done && finish_action(
                r.1,
                FlowNotice::NotRegistered,
            ))) && (l matches Lookup::Failed(m) ==> (r.0.phase is Done && finish_action(
                r.1,
                FlowNotice::Failure(m),
            ))))),
            self.phase matches RemovePhase::AwaitTraining { db_user } ==> (ev matches
                FlowEvent::TrainingLookup(l) ==> ((l matches Lookup::Found(t) ==> (r.0.phase
                matches RemovePhase::AwaitSignup { db_user: du2, training: t2 } && du2 == db_user
                && t2 == t && r.1 == (FlowAction::LookupSignup {
                user_id: db_user.id,
                training_id: t.id,
            }))) && (l is Missing ==> (r.0.phase is Done && finish_action(
                r.1,
                FlowNotice::TrainingNotOpen,
            ))) && (l matches Lookup::Failed(m) ==> (r.0.phase is Done && finish_action(
                r.1,
                FlowNotice::Failure(m),
            ))))),
            self.phase matches RemovePhase::AwaitSignup { db_user, training } ==> (ev matches
                FlowEvent::SignupCheck(l) ==> ((l matches Lookup::Found(s) ==> (r.0.phase
                is AwaitDelete && r.1 == (FlowAction::DeleteSignup { signup_id: s.id }))) && (l
                is Missing ==> (r.0.phase is Done && finish_action(r.1, FlowNotice::NoSignup)))
                && (l matches Lookup::Failed(m) ==> (r.0.phase is Done && finish_action(
                r.1,
                FlowNotice::Failure(m),
            ))))),
            self.phase is AwaitDelete ==> (ev matches FlowEvent::Deleted(l) ==> ((l matches
                Lookup::Found(n) ==> ((n == 1 ==> (r.0.phase is Done && finish_action(
                r.1,
                FlowNotice::Success,
            ))) && (n != 1 ==> (r.0.phase is Done && finish_action(
                r.1,
                FlowNotice::UnexpectedCount(n),
            ))))) && (l is Missing ==> (r.0.phase is Done && fails_with(
                r.1,
                "Signup not removed"@,
            ))) && (l matches Lookup::Failed(m) ==> (r.0.phase is Done && finish_action(
                r.1,
                FlowNotice::Failure(m),
            ))))),
    {
        let user = self.user;
        let training_id = self.training_id;
        match (self.phase, ev) {
            (RemovePhase::AwaitUser, FlowEvent::UserLookup(l)) => {
                match l {
                    Lookup::Found(u) => (
                        RemoveFlow {
                            user,
                            training_id,
                            phase: RemovePhase::AwaitTraining { db_user: u },
                        },
                        FlowAction::LookupOpenTraining { id: training_id },
                    ),
                    Lookup::Missing => (
                        RemoveFlow { user, training_id, phase: RemovePhase::Done },
                        FlowAction::Finish(FlowNotice::NotRegistered),
                    ),
                    Lookup::Failed(m) => (
                        RemoveFlow { user, training_id, phase: RemovePhase::Done },
                        FlowAction::Finish(FlowNotice::Failure(m)),
                    ),
                }
            },
            (RemovePhase::AwaitTraining { db_user }, FlowEvent::TrainingLookup(l)) => {
                match l {
                    Lookup::Found(t) => {
                        let uid = db_user.id;
                        let tid = t.id;
                        (
                            RemoveFlow {
                                user,
                                training_id,
                                phase: RemovePhase::AwaitSignup { db_user, training: t },
                            },
                            FlowAction::LookupSignup { user_id: uid, training_id: tid },
                        )
                    },
                    Lookup::Missing => (
                        RemoveFlow { user, training_id, phase: RemovePhase::Done },
                        FlowAction::Finish(FlowNotice::TrainingNotOpen),
                    ),
                    Lookup::Failed(m) => (
                        RemoveFlow { user, training_id, phase: RemovePhase::Done },
                        FlowAction::Finish(FlowNotice::Failure(m)),
                    ),
                }
            },
            (RemovePhase::AwaitSignup { db_user, training }, FlowEvent::SignupCheck(l)) => {
                match l {
                    Lookup::Found(s) => (
                        RemoveFlow { user, training_id, phase: RemovePhase::AwaitDelete },
                        FlowAction::DeleteSignup { signup_id: s.id },
                    ),
                    Lookup::Missing => (
                        RemoveFlow { user, training_id, phase: RemovePhase::Done },
                        FlowAction::Finish(FlowNotice::NoSignup),
                    ),
                    Lookup::Failed(m) => (
                        RemoveFlow { user, training_id, phase: RemovePhase::Done },
                        FlowAction::Finish(FlowNotice::Failure(m)),
                    ),
                }
            },
            (RemovePhase::AwaitDelete, FlowEvent::Deleted(l)) => {
                match l {
                    Lookup::Found(n) => {
                        if n == 1 {
                            (
                                RemoveFlow { user, training_id, phase: RemovePhase::Done },
                                FlowAction::Finish(FlowNotice::Success),
                            )
                        } else {
                            (
                                RemoveFlow { user, training_id, phase: RemovePhase::Done },
                                FlowAction::Finish(FlowNotice::UnexpectedCount(n)),
                            )
                        }
                    },
                    Lookup::Missing => (
                        RemoveFlow { user, training_id, phase: RemovePhase::Done },
                        FlowAction::Finish(
                            FlowNotice::Failure(String::from_str("Signup not removed")),
                        ),
                    ),
                    Lookup::Failed(m) => (
                        RemoveFlow { user, training_id, phase: RemovePhase::Done },
                        FlowAction::Finish(FlowNotice::Failure(m)),
                    ),
                }
            },
            _ => (
                RemoveFlow { user, training_id, phase: RemovePhase::Done },
                FlowAction::Finish(FlowNotice::Failure(String::from_str("unexpected flow event"))),
            ),
        }
    }
}

/// The signup ids of the listed signup-training pairs, in order.
pub open spec fn signup_ids_of(entries: Seq<(Signup, Training)>) -> Seq<i32> {
    entries.map_values(|e: (Signup, Training)| e.0.id)
}

/// Collects the signup ids of the listed pairs, in order.
pub fn signup_ids(entries: &Vec<(Signup, Training)>) -> (r: Vec<i32>)
    ensures
        r@ == signup_ids_of(entries@),
{
    let mut out: Vec<i32> = Vec::new();
    let mut i: usize = 0;
    while i < entries.len()
        invariant
            i <= entries@.len(),
            out@.len() == i,
            forall|j: int| 0 <= j < i ==> out@[j] == entries@[j].0.id,
        decreases entries@.len() - i,
    {
        out.push(entries[i].0.id);
        i = i + 1;
    }
    proof {
        assert(out@ =~= signup_ids_of(entries@));
    }
    out
}

/// Where the list flow stands.
#[derive(Debug)]
pub enum ListPhase {
    /// Waiting for the account record.
    AwaitUser,
    /// Waiting for the active signups and their trainings.
    AwaitSignups,
    /// Waiting for the roles of each listed signup.
    AwaitRoles { entries: Vec<(Signup, Training)> },
    /// The flow is over.
    Done,
}

/// Which events the list flow consumes in which phase.
pub open spec fn list_expects(p: ListPhase, ev: FlowEvent) -> bool {
    match (p, ev) {
        (ListPhase::AwaitUser, FlowEvent::UserLookup(_)) => true,
        (ListPhase::AwaitSignups, FlowEvent::SignupsLoaded(_)) => true,
        (ListPhase::AwaitRoles { .. }, FlowEvent::SignupRolesLoaded(_)) => true,
        _ => false,
    }
}

/// The list command: show the invoking user's signups in active
/// trainings, each with its selected roles.
#[derive(Debug)]
pub struct ListFlow {
    /// The invoking user's platform identity.
    pub user: u64,
    /// Where the flow stands.
    pub phase: ListPhase,
}

impl ListFlow {
    /// Opens the flow; the first thing to do is the account lookup.
    pub fn start(user: u64) -> (r: (ListFlow, FlowAction))
        ensures
            r.0.user == user,
            r.0.phase is AwaitUser,
            r.1 == (FlowAction::LookupUser { discord_id: user }),
    {
        (ListFlow { user, phase: ListPhase::AwaitUser }, FlowAction::LookupUser { discord_id: user })
    }

    /// One decision of the list flow: account, signups, roles, listing.
    pub fn advance(self, ev: FlowEvent) -> (r: (ListFlow, FlowAction))
        ensures
            r.0.user == self.user,
            !list_expects(self.phase, ev) ==> (r.0.phase is Done && fails_with(
                r.1,
                stray_event_text(),
            )),
            self.phase is AwaitUser ==> (ev matches FlowEvent::UserLookup(l) ==> ((l matches
                Lookup::Found(u) ==> (r.0.phase is AwaitSignups && r.1
                == (FlowAction::LoadActiveSignups { user_id: u.id }))) && (l is Missing ==> (
            r.0.phase is Done && finish_action(r.1, FlowNotice::NotRegistered))) && (l matches
                Lookup::Failed(m) ==> (r.0.phase is Done && finish_action(
                r.1,
                FlowNotice::Failure(m),
            ))))),
            self.phase is AwaitSignups ==> (ev matches FlowEvent::SignupsLoaded(l) ==> ((l matches
                Lookup::Found(v) ==> (r.0.phase matches ListPhase::AwaitRoles { entries }
                && entries == v && (r.1 matches FlowAction::LoadSignupRoles { signup_ids: ids }
                && ids@ == signup_ids_of(v@)))) && (l is Missing ==> (r.0.phase is Done
                && fails_with(r.1, "Signups not loaded"@))) && (l matches Lookup::Failed(m) ==> (
            r.0.phase is Done && finish_action(r.1, FlowNotice::Failure(m)))))),
            self.phase matches ListPhase::AwaitRoles { entries } ==> (ev matches
                FlowEvent::SignupRolesLoaded(l) ==> ((l matches Lookup::Found(table) ==> (
            r.0.phase is Done && (r.1 matches FlowAction::Present { summaries } && summaries@.len()
                == entries@.len() && (forall|i: int|
                0 <= i < entries@.len() ==> summary_matches(entries@[i], table@, summaries@[i])))))
                && (l is Missing ==> (r.0.phase is Done && fails_with(r.1, "Roles not found"@)))
                && (l matches Lookup::Failed(m) ==> (r.0.phase is Done && finish_action(
                r.1,
                FlowNotice::Failure(m),
            ))))),
    {
        let user = self.user;
        match (self.phase, ev) {
            (ListPhase::AwaitUser, FlowEvent::UserLookup(l)) => {
                match l {
                    Lookup::Found(u) => (
                        ListFlow { user, phase: ListPhase::AwaitSignups },
                        FlowAction::LoadActiveSignups { user_id: u.id },
                    ),
                    Lookup::Missing => (
                        ListFlow { user, phase: ListPhase::Done },
                        FlowAction::Finish(FlowNotice::NotRegistered),
                    ),
                    Lookup::Failed(m) => (
                        ListFlow { user, phase: ListPhase::Done },
                        FlowAction::Finish(FlowNotice::Failure(m)),
                    ),
                }
            },
            (ListPhase::AwaitSignups, FlowEvent::SignupsLoaded(l)) => {
                match l {
                    Lookup::Found(v) => {
                        let ids = signup_ids(&v);
                        (
                            ListFlow { user, phase: ListPhase::AwaitRoles { entries: v } },
                            FlowAction::LoadSignupRoles { signup_ids: ids },
                        )
                    },
                    Lookup::Missing => (
                        ListFlow { user, phase: ListPhase::Done },
                        FlowAction::Finish(
                            FlowNotice::Failure(String::from_str("Signups not loaded")),
                        ),
                    ),
                    Lookup::Failed(m) => (
                        ListFlow { user, phase: ListPhase::Done },
                        FlowAction::Finish(FlowNotice::Failure(m)),
                    ),
                }
            },
            (ListPhase::AwaitRoles { entries }, FlowEvent::SignupRolesLoaded(l)) => {
                match l {
                    Lookup::Found(table) => {
                        let summaries = list_summaries(&entries, &table);
                        (
                            ListFlow { user, phase: ListPhase::Done },
                            FlowAction::Present { summaries },
                        )
                    },
                    Lookup::Missing => (
                        ListFlow { user, phase: ListPhase::Done },
                        FlowAction::Finish(
                            FlowNotice::Failure(String::from_str("Roles not found")),
                        ),
                    ),
                    Lookup::Failed(m) => (
                        ListFlow { user, phase: ListPhase::Done },
                        FlowAction::Finish(FlowNotice::Failure(m)),
                    ),
                }
            },
            _ => (
                ListFlow { user, phase: ListPhase::Done },
                FlowAction::Finish(FlowNotice::Failure(String::from_str("unexpected flow event"))),
            ),
        }
    }
}

} // verus!

