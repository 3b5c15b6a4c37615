use crossroadsbot::flows::{
    EditFlow, FlowAction, FlowEvent, FlowNotice, JoinFlow, ListFlow, Lookup, RemoveFlow,
    TierGateData, collect_loaded_roles, join_reprs, list_summaries, partition_roles, role_ids,
};
use crossroadsbot::models::{NewSignup, Role, Signup, Tier, TierMapping, Training, TrainingState, User};
use crossroadsbot::selection::{ReactionKind, RoleSelection, SelectionEvent, SelectionStep};

const SHIELD: i64 = '\u{1F6E1}' as i64;
const SWORD: i64 = '\u{2694}' as i64;

fn user() -> User {
    User { id: 1, discord_id: 42, gw2_id: String::from("player.1234") }
}

fn open_training(id: i32) -> Training {
    Training {
        id,
        title: String::from("Beginner raid"),
        date: 1623067200,
        state: TrainingState::Open,
        tier_id: None,
    }
}

fn role_a() -> Role {
    Role { id: 11, title: String::from("Tank"), repr: String::from("A"), emoji: SHIELD, active: true }
}

fn role_b() -> Role {
    Role { id: 12, title: String::from("Damage"), repr: String::from("B"), emoji: SWORD, active: true }
}

/// A bare in-memory ledger standing in for the storage the driver talks to.
struct Ledger {
    signups: Vec<Signup>,
    signup_roles: Vec<(i32, i32)>, // (signup id, role id)
    next_id: i32,
}

impl Ledger {
    fn new() -> Self {
        Ledger { signups: Vec::new(), signup_roles: Vec::new(), next_id: 100 }
    }

    fn save(&mut self, s: &NewSignup, role_ids: &[i32]) -> Signup {
        let id = self.next_id;
        self.next_id += 1;
        let row = Signup { id, user_id: s.user_id, training_id: s.training_id };
        self.signups.push(row);
        for r in role_ids {
            self.signup_roles.push((id, *r));
        }
        row
    }

    fn count_for_training(&self, tid: i32) -> usize {
        self.signups.iter().filter(|s| s.training_id == tid).count()
    }
}

#[test]
fn join_confirming_role_a_persists_exactly_role_a() {
    let mut ledger = Ledger::new();
    let before = ledger.count_for_training(7);

    let (flow, action) = JoinFlow::start(42, 7);
    assert_eq!(action, FlowAction::LookupUser { discord_id: 42 });

    let (flow, action) = flow.advance(FlowEvent::UserLookup(Lookup::Found(user())));
    assert_eq!(action, FlowAction::LookupOpenTraining { id: 7 });

    let (flow, action) = flow.advance(FlowEvent::TrainingLookup(Lookup::Found(open_training(7))));
    assert_eq!(action, FlowAction::LookupSignup { user_id: 1, training_id: 7 });

    let (flow, action) = flow.advance(FlowEvent::SignupCheck(Lookup::Missing));
    assert_eq!(action, FlowAction::LoadRoles { training_id: 7 });

    let (flow, action) = flow.advance(FlowEvent::RolesLoaded(vec![
        Lookup::Found(role_a()),
        Lookup::Found(role_b()),
    ]));
    let (selected, unselected) = match action {
        FlowAction::RunSelection { selected, unselected } => (selected, unselected),
        other => panic!("expected RunSelection, got {:?}", other),
    };
    assert!(selected.is_empty());
    assert_eq!(unselected.len(), 2);

    // the user picks role A and confirms
    let mut dialog = RoleSelection::new(42, selected, unselected);
    dialog.step(SelectionEvent::Reaction { user: 42, kind: ReactionKind::Emoji(SHIELD) });
    let done = dialog.step(SelectionEvent::Reaction { user: 42, kind: ReactionKind::Confirm });

    let (flow, action) = flow.advance(FlowEvent::SelectionDone(done));
    let saved = match action {
        FlowAction::SaveSignup { signup, role_ids } => {
            assert_eq!(signup, NewSignup { user_id: 1, training_id: 7 });
            assert_eq!(role_ids, vec![11]);
            ledger.save(&signup, &role_ids)
        },
        other => panic!("expected SaveSignup, got {:?}", other),
    };

    let (_, action) = flow.advance(FlowEvent::Saved(Lookup::Found(saved)));
    assert_eq!(action, FlowAction::Finish(FlowNotice::Success));

    // exactly role A is attached, the count rose by one, and B is absent
    assert_eq!(ledger.count_for_training(7), before + 1);
    let roles: Vec<i32> = ledger
        .signup_roles
        .iter()
        .filter(|(sid, _)| *sid == saved.id)
        .map(|(_, rid)| *rid)
        .collect();
    assert_eq!(roles, vec![11]);
    assert!(!roles.contains(&12));
}

#[test]
fn join_timing_out_persists_nothing() {
    let ledger = Ledger::new();

    let (flow, _) = JoinFlow::start(42, 7);
    let (flow, _) = flow.advance(FlowEvent::UserLookup(Lookup::Found(user())));
    let (flow, _) = flow.advance(FlowEvent::TrainingLookup(Lookup::Found(open_training(7))));
    let (flow, _) = flow.advance(FlowEvent::SignupCheck(Lookup::Missing));
    let (flow, action) = flow.advance(FlowEvent::RolesLoaded(vec![
        Lookup::Found(role_a()),
        Lookup::Found(role_b()),
    ]));
    let (selected, unselected) = match action {
        FlowAction::RunSelection { selected, unselected } => (selected, unselected),
        other => panic!("expected RunSelection, got {:?}", other),
    };

    // the dialog sits idle past the timeout
    let mut dialog = RoleSelection::new(42, selected, unselected);
    let done = dialog.step(SelectionEvent::Timeout);
    assert_eq!(done, SelectionStep::TimedOut);

    let (_, action) = flow.advance(FlowEvent::SelectionDone(done));
    assert_eq!(action, FlowAction::Finish(FlowNotice::TimedOut));

    // no signup row and no signup role was ever asked for
    assert_eq!(ledger.count_for_training(7), 0);
    assert!(ledger.signup_roles.is_empty());
}

#[test]
fn join_refusals_in_order() {
    // not registered
    let (flow, _) = JoinFlow::start(42, 7);
    let (_, action) = flow.advance(FlowEvent::UserLookup(Lookup::Missing));
    assert_eq!(action, FlowAction::Finish(FlowNotice::NotRegistered));

    // no open training
    let (flow, _) = JoinFlow::start(42, 7);
    let (flow, _) = flow.advance(FlowEvent::UserLookup(Lookup::Found(user())));
    let (_, action) = flow.advance(FlowEvent::TrainingLookup(Lookup::Missing));
    assert_eq!(action, FlowAction::Finish(FlowNotice::TrainingNotOpen));

    // already signed up
    let (flow, _) = JoinFlow::start(42, 7);
    let (flow, _) = flow.advance(FlowEvent::UserLookup(Lookup::Found(user())));
    let (flow, _) = flow.advance(FlowEvent::TrainingLookup(Lookup::Found(open_training(7))));
    let existing = Signup { id: 50, user_id: 1, training_id: 7 };
    let (_, action) = flow.advance(FlowEvent::SignupCheck(Lookup::Found(existing)));
    assert_eq!(action, FlowAction::Finish(FlowNotice::AlreadySignedUp));

    // storage failure surfaces as such
    let (flow, _) = JoinFlow::start(42, 7);
    let (_, action) = flow.advance(FlowEvent::UserLookup(Lookup::Failed(String::from("db down"))));
    assert_eq!(action, FlowAction::Finish(FlowNotice::Failure(String::from("db down"))));
}

#[test]
fn join_tier_gate_blocks_and_admits() {
    let mut gated = open_training(7);
    gated.tier_id = Some(3);
    let tier = Tier { id: 3, name: String::from("veteran") };
    let mapping = TierMapping { id: 1, tier_id: 3, discord_role_id: 555 };

    // user lacks every mapped platform role
    let (flow, _) = JoinFlow::start(42, 7);
    let (flow, _) = flow.advance(FlowEvent::UserLookup(Lookup::Found(user())));
    let (flow, action) = flow.advance(FlowEvent::TrainingLookup(Lookup::Found(gated.clone())));
    assert_eq!(action, FlowAction::LoadTierGate { tier_id: 3 });
    let (_, action) = flow.advance(FlowEvent::TierData(Lookup::Found(TierGateData {
        tier: tier.clone(),
        mappings: vec![mapping],
        member_roles: vec![111, 222],
    })));
    assert_eq!(action, FlowAction::Finish(FlowNotice::TierMissing(String::from("veteran"))));

    // user holds a mapped platform role
    let (flow, _) = JoinFlow::start(42, 7);
    let (flow, _) = flow.advance(FlowEvent::UserLookup(Lookup::Found(user())));
    let (flow, _) = flow.advance(FlowEvent::TrainingLookup(Lookup::Found(gated)));
    let (_, action) = flow.advance(FlowEvent::TierData(Lookup::Found(TierGateData {
        tier,
        mappings: vec![TierMapping { id: 1, tier_id: 3, discord_role_id: 555 }],
        member_roles: vec![555],
    })));
    assert_eq!(action, FlowAction::LookupSignup { user_id: 1, training_id: 7 });
}

#[test]
fn join_skips_deactivated_and_failed_role_loads() {
    let loads = vec![
        Lookup::Found(role_a()),
        Lookup::Missing,
        Lookup::Failed(String::from("gone")),
        Lookup::Found(role_b()),
    ];
    let kept = collect_loaded_roles(loads);
    let kept_ids: Vec<i32> = kept.iter().map(|r| r.id).collect();
    assert_eq!(kept_ids, vec![11, 12]);
}

#[test]
fn join_stray_event_fails_the_flow() {
    let (flow, _) = JoinFlow::start(42, 7);
    let (flow, action) = flow.advance(FlowEvent::SelectionDone(SelectionStep::TimedOut));
    assert_eq!(
        action,
        FlowAction::Finish(FlowNotice::Failure(String::from("unexpected flow event")))
    );
    assert_eq!(flow.training_id, 7);
}

#[test]
fn edit_replaces_roles_only_on_confirm() {
    let signup = Signup { id: 50, user_id: 1, training_id: 7 };

    let (flow, action) = EditFlow::start(42, 7);
    assert_eq!(action, FlowAction::LookupUser { discord_id: 42 });
    let (flow, _) = flow.advance(FlowEvent::UserLookup(Lookup::Found(user())));
    let (flow, action) = flow.advance(FlowEvent::TrainingLookup(Lookup::Found(open_training(7))));
    assert_eq!(action, FlowAction::LookupSignup { user_id: 1, training_id: 7 });
    let (flow, action) = flow.advance(FlowEvent::SignupCheck(Lookup::Found(signup)));
    assert_eq!(action, FlowAction::LoadRolesAndCurrent { training_id: 7, signup_id: 50 });

    // A is currently selected; the dialog starts from that partition
    let (flow, action) = flow.advance(FlowEvent::RolesAndCurrent(Lookup::Found((
        vec![role_a(), role_b()],
        vec![11],
    ))));
    let (selected, unselected) = match action {
        FlowAction::RunSelection { selected, unselected } => (selected, unselected),
        other => panic!("expected RunSelection, got {:?}", other),
    };
    assert_eq!(selected.iter().map(|r| r.id).collect::<Vec<_>>(), vec![11]);
    assert_eq!(unselected.iter().map(|r| r.id).collect::<Vec<_>>(), vec![12]);

    // swap A for B and confirm
    let mut dialog = RoleSelection::new(42, selected, unselected);
    dialog.step(SelectionEvent::Reaction { user: 42, kind: ReactionKind::Emoji(SHIELD) });
    dialog.step(SelectionEvent::Reaction { user: 42, kind: ReactionKind::Emoji(SWORD) });
    let done = dialog.step(SelectionEvent::Reaction { user: 42, kind: ReactionKind::Confirm });

    let (flow, action) = flow.advance(FlowEvent::SelectionDone(done));
    assert_eq!(action, FlowAction::ReplaceRoles { signup_id: 50, role_ids: vec![12] });

    let (_, action) = flow.advance(FlowEvent::Replaced(Lookup::Found(1)));
    assert_eq!(action, FlowAction::Finish(FlowNotice::Success));
}

#[test]
fn edit_without_signup_is_refused() {
    let (flow, _) = EditFlow::start(42, 7);
    let (flow, _) = flow.advance(FlowEvent::UserLookup(Lookup::Found(user())));
    let (flow, _) = flow.advance(FlowEvent::TrainingLookup(Lookup::Found(open_training(7))));
    let (_, action) = flow.advance(FlowEvent::SignupCheck(Lookup::Missing));
    assert_eq!(action, FlowAction::Finish(FlowNotice::NoSignup));
}

#[test]
fn edit_cancel_replaces_nothing() {
    let signup = Signup { id: 50, user_id: 1, training_id: 7 };
    let (flow, _) = EditFlow::start(42, 7);
    let (flow, _) = flow.advance(FlowEvent::UserLookup(Lookup::Found(user())));
    let (flow, _) = flow.advance(FlowEvent::TrainingLookup(Lookup::Found(open_training(7))));
    let (flow, _) = flow.advance(FlowEvent::SignupCheck(Lookup::Found(signup)));
    let (flow, _) = flow.advance(FlowEvent::RolesAndCurrent(Lookup::Found((
        vec![role_a()],
        vec![11],
    ))));
    let (_, action) = flow.advance(FlowEvent::SelectionDone(SelectionStep::Canceled));
    assert_eq!(action, FlowAction::Finish(FlowNotice::Canceled));
}

#[test]
fn remove_deletes_exactly_one_row() {
    let signup = Signup { id: 50, user_id: 1, training_id: 7 };
    let (flow, _) = RemoveFlow::start(42, 7);
    let (flow, _) = flow.advance(FlowEvent::UserLookup(Lookup::Found(user())));
    let (flow, _) = flow.advance(FlowEvent::TrainingLookup(Lookup::Found(open_training(7))));
    let (flow, action) = flow.advance(FlowEvent::SignupCheck(Lookup::Found(signup)));
    assert_eq!(action, FlowAction::DeleteSignup { signup_id: 50 });
    let (_, action) = flow.advance(FlowEvent::Deleted(Lookup::Found(1)));
    assert_eq!(action, FlowAction::Finish(FlowNotice::Success));
}

#[test]
fn remove_with_wrong_count_reports_it() {
    let signup = Signup { id: 50, user_id: 1, training_id: 7 };
    let (flow, _) = RemoveFlow::start(42, 7);
    let (flow, _) = flow.advance(FlowEvent::UserLookup(Lookup::Found(user())));
    let (flow, _) = flow.advance(FlowEvent::TrainingLookup(Lookup::Found(open_training(7))));
    let (flow, _) = flow.advance(FlowEvent::SignupCheck(Lookup::Found(signup)));
    let (_, action) = flow.advance(FlowEvent::Deleted(Lookup::Found(2)));
    assert_eq!(action, FlowAction::Finish(FlowNotice::UnexpectedCount(2)));
}

#[test]
fn remove_without_signup_is_refused() {
    let (flow, _) = RemoveFlow::start(42, 7);
    let (flow, _) = flow.advance(FlowEvent::UserLookup(Lookup::Found(user())));
    let (flow, _) = flow.advance(FlowEvent::TrainingLookup(Lookup::Found(open_training(7))));
    let (_, action) = flow.advance(FlowEvent::SignupCheck(Lookup::Missing));
    assert_eq!(action, FlowAction::Finish(FlowNotice::NoSignup));
}

#[test]
fn list_presents_signups_with_their_roles() {
    let s1 = Signup { id: 50, user_id: 1, training_id: 7 };
    let s2 = Signup { id: 51, user_id: 1, training_id: 8 };
    let t1 = open_training(7);
    let mut t2 = open_training(8);
    t2.title = String::from("Advanced raid");

    let (flow, action) = ListFlow::start(42);
    assert_eq!(action, FlowAction::LookupUser { discord_id: 42 });
    let (flow, action) = flow.advance(FlowEvent::UserLookup(Lookup::Found(user())));
    assert_eq!(action, FlowAction::LoadActiveSignups { user_id: 1 });
    let (flow, action) = flow.advance(FlowEvent::SignupsLoaded(Lookup::Found(vec![
        (s1, t1),
        (s2, t2),
    ])));
    assert_eq!(action, FlowAction::LoadSignupRoles { signup_ids: vec![50, 51] });
    let (_, action) = flow.advance(FlowEvent::SignupRolesLoaded(Lookup::Found(vec![(
        50,
        vec![role_a(), role_b()],
    )])));
    let summaries = match action {
        FlowAction::Present { summaries } => summaries,
        other => panic!("expected Present, got {:?}", other),
    };
    assert_eq!(summaries.len(), 2);
    assert_eq!(summaries[0].title, "Beginner raid");
    assert_eq!(summaries[0].training_id, 7);
    assert_eq!(summaries[0].date, 1623067200);
    assert_eq!(summaries[0].roles_line, "A, B");
    // no roles entry for signup 51: the fallback line
    assert_eq!(summaries[1].title, "Advanced raid");
    assert_eq!(summaries[1].roles_line, "Failed to load roles =(");
}

#[test]
fn helper_partition_and_reprs_and_ids() {
    let (sel, unsel) = partition_roles(vec![role_a(), role_b()], &vec![12]);
    assert_eq!(sel.iter().map(|r| r.id).collect::<Vec<_>>(), vec![12]);
    assert_eq!(unsel.iter().map(|r| r.id).collect::<Vec<_>>(), vec![11]);

    assert_eq!(join_reprs(&vec![]), "");
    assert_eq!(join_reprs(&vec![role_a()]), "A");
    assert_eq!(join_reprs(&vec![role_a(), role_b()]), "A, B");

    assert_eq!(role_ids(&vec![role_b(), role_a()]), vec![12, 11]);

    let summaries = list_summaries(&vec![], &vec![]);
    assert!(summaries.is_empty());
}
