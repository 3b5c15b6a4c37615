//! The interactive role-selection protocol.
//!
//! A candidate set of roles is partitioned into selected and unselected.
//! The owning user toggles one role per reaction emoji until they confirm
//! or cancel; a wait step that sees no qualifying event within the dialog
//! timeout ends the dialog as timed out. Events from any other user are
//! ignored and the wait is re-issued. The waiting itself happens outside;
//! `step` consumes one event at a time and says exactly what it did.

use crate::models::Role;
use vstd::prelude::*;

verus! {

/// One reaction on the anchor message, as the protocol reads it.
#[derive(Clone, Copy, Debug, PartialEq, Eq, Structural)]
pub enum ReactionKind {
    /// The confirm reaction: keep the current selection.
    Confirm,
    /// The cancel reaction: abandon the dialog.
    Cancel,
    /// A role emoji, by its emoji id.
    Emoji(i64),
}

/// One observed event of a wait step.
#[derive(Clone, Copy, Debug, PartialEq, Eq, Structural)]
pub enum SelectionEvent {
    /// The wait elapsed without a qualifying event.
    Timeout,
    /// A reaction by `user`.
    Reaction { user: u64, kind: ReactionKind },
}

/// What one protocol step decided.
#[derive(Clone, Debug, PartialEq)]
pub enum SelectionStep {
    /// The dialog goes on: re-render and wait again.
    Pending,
    /// The owner confirmed; the final selected roles, in candidate order.
    Confirmed(Vec<Role>),
    /// The owner cancelled the dialog.
    Canceled,
    /// The wait step timed out.
    TimedOut,
}

/// The candidates a picks vector selects, in candidate order.
pub open spec fn chosen(cands: Seq<Role>, picks: Seq<bool>) -> Seq<Role>
    decreases cands.len(),
{
    if cands.len() == 0 || picks.len() == 0 {
        Seq::empty()
    } else {
        let rest = chosen(cands.drop_last(), picks.drop_last());
        if picks.last() {
            rest.push(cands.last())
        } else {
            rest
        }
    }
}

/// Flip membership of the role at index `i`.
pub open spec fn toggle_spec(picks: Seq<bool>, i: int) -> Seq<bool> {
    picks.update(i, !picks[i])
}

/// Whether some candidate carries the emoji `e`.
pub open spec fn has_emoji(cands: Seq<Role>, e: i64) -> bool {
    exists|i: int| 0 <= i < cands.len() && cands[i].emoji == e
}

/// `i` is the first candidate index carrying the emoji `e`.
pub open spec fn first_match(cands: Seq<Role>, e: i64, i: int) -> bool {
    &&& 0 <= i < cands.len()
    &&& cands[i].emoji == e
    &&& forall|j: int| 0 <= j < i ==> cands[j].emoji != e
}

/// The running state of one role-selection dialog.
pub struct RoleSelection {
    /// The user whose reactions drive the dialog.
    pub owner: u64,
    /// All selectable roles, selected ones first at construction.
    pub candidates: Vec<Role>,
    /// Parallel to `candidates`: whether each role is currently selected.
    pub picked: Vec<bool>,
}

impl RoleSelection {
    /// Well-formed: one flag per candidate.
    pub open spec fn wf(self) -> bool {
        self.picked@.len() == self.candidates@.len()
    }

    /// The currently selected roles, in candidate order.
    pub open spec fn selection(self) -> Seq<Role> {
        chosen(self.candidates@, self.picked@)
    }

    /// Opens a dialog for `owner` over the disjoint partition `selected`
    /// (taken as already picked) and `unselected`.
    pub fn new(owner: u64, selected: Vec<Role>, unselected: Vec<Role>) -> (r: RoleSelection)
        ensures
            r.wf(),
            r.owner == owner,
            r.candidates@ == selected@ + unselected@,
            forall|i: int| 0 <= i < selected@.len() ==> r.picked@[i] == true,
            forall|i: int|
                selected@.len() <= i < selected@.len() + unselected@.len() ==> r.picked@[i]
                    == false,
    {
        let n_selected = selected.len();
        let mut candidates = selected;
        let mut unselected = unselected;
        let mut picked: Vec<bool> = Vec::new();
        let mut i: usize = 0;
        while i < n_selected
            invariant
                i <= n_selected,
                picked@.len() == i,
                forall|j: int| 0 <= j < i ==> picked@[j] == true,
            decreases n_selected - i,
        {
            picked.push(true);
            i = i + 1;
        }
        candidates.append(&mut unselected);
        let mut j: usize = n_selected;
        while j < candidates.len()
            invariant
                n_selected <= j <= candidates@.len(),
                picked@.len() == j,
                forall|m: int| 0 <= m < n_selected ==> picked@[m] == true,
                forall|m: int| n_selected <= m < j ==> picked@[m] == false,
            decreases candidates@.len() - j,
        {
            picked.push(false);
            j = j + 1;
        }
        RoleSelection { owner, candidates, picked }
    }

    /// The first candidate carrying emoji `e`, if any.
    fn find_emoji(&self, e: i64) -> (r: Option<usize>)
        ensures
            r matches Some(i) ==> first_match(self.candidates@, e, i as int),
            r is None ==> !has_emoji(self.candidates@, e),
    {
        let mut i: usize = 0;
        while i < self.candidates.len()
            invariant
                i <= self.candidates@.len(),
                forall|j: int| 0 <= j < i ==> self.candidates@[j].emoji != e,
            decreases self.candidates@.len() - i,
        {
            if self.candidates[i].emoji == e {
                return Some(i);
            }
            i = i + 1;
        }
        None
    }

    /// The currently selected roles, in candidate order.
    pub fn selected_roles(&self) -> (r: Vec<Role>)
        requires
            self.wf(),
        ensures
            r@ == self.selection(),
    {
        let mut out: Vec<Role> = Vec::new();
        let mut i: usize = 0;
        while i < self.candidates.len()
            invariant
                i <= self.candidates@.len(),
                self.picked@.len() == self.candidates@.len(),
                out@ == chosen(
                    self.candidates@.subrange(0, i as int),
                    self.picked@.subrange(0, i as int),
                ),
            decreases self.candidates@.len() - i,
        {
            proof {
                assert(self.candidates@.subrange(0, i + 1 as int).drop_last()
                    =~= self.candidates@.subrange(0, i as int));
                assert(self.picked@.subrange(0, i + 1 as int).drop_last() =~= self.picked@.subrange(
                    0,
                    i as int,
                ));
            }
            if self.picked[i] {
                out.push(self.candidates[i].clone());
            }
            i = i + 1;
        }
        proof {
            assert(self.candidates@.subrange(0, self.candidates@.len() as int)
                =~= self.candidates@);
            assert(self.picked@.subrange(0, self.picked@.len() as int) =~= self.picked@);
        }
        out
    }

    /// Consumes one event. A timeout ends the dialog as `TimedOut`; a
    /// reaction by anyone but the owner is ignored; the owner's confirm
    /// returns the selection, cancel abandons it, a candidate's emoji
    /// toggles exactly that role, and any other emoji is ignored.
    pub fn step(&mut self, ev: SelectionEvent) -> (r: SelectionStep)
        requires
            old(self).wf(),
        ensures
            final(self).wf(),
            final(self).owner == old(self).owner,
            final(self).candidates == old(self).candidates,
            ev is Timeout
                ==> (r is TimedOut && final(self).picked == old(self).picked),
            (ev matches SelectionEvent::Reaction { user, .. } && user != old(self).owner)
                ==> (r is Pending && final(self).picked == old(self).picked),
            (ev matches SelectionEvent::Reaction { user, kind }
                && user == old(self).owner && kind is Confirm)
                ==> (r matches SelectionStep::Confirmed(sel)
                    && sel@ == old(self).selection()
                    && final(self).picked == old(self).picked),
            (ev matches SelectionEvent::Reaction { user, kind }
                && user == old(self).owner && kind is Cancel)
                ==> (r is Canceled && final(self).picked == old(self).picked),
            ev matches SelectionEvent::Reaction { user, kind } ==> (user == old(self).owner
                ==> (kind matches ReactionKind::Emoji(e) ==> ((has_emoji(old(self).candidates@, e)
                ==> (r is Pending && (forall|i: int|
                    first_match(old(self).candidates@, e, i)
                        ==> final(self).picked@ == toggle_spec(old(self).picked@, i)))) && (
                !has_emoji(old(self).candidates@, e)
                ==> (r is Pending && final(self).picked == old(self).picked))))),
    {
        match ev {
            SelectionEvent::Timeout => SelectionStep::TimedOut,
            SelectionEvent::Reaction { user, kind } => {
                if user != self.owner {
                    SelectionStep::Pending
                } else {
                    match kind {
                        ReactionKind::Confirm => SelectionStep::Confirmed(self.selected_roles()),
                        ReactionKind::Cancel => SelectionStep::Canceled,
                        ReactionKind::Emoji(e) => {
                            match self.find_emoji(e) {
                                Some(i) => {
                                    let cur = self.picked[i];
                                    self.picked.set(i, !cur);
                                    SelectionStep::Pending
                                },
                                None => SelectionStep::Pending,
                            }
                        },
                    }
                }
            },
        }
    }

    /// The display content of the anchor message: the short texts of the
    /// selected roles and of the unselected roles, each in candidate
    /// order. Rendering into platform markup happens outside.
    pub fn render_lines(&self) -> (r: (Vec<String>, Vec<String>))
        requires
            self.wf(),
        ensures
            r.0@.len() == self.selection().len(),
            forall|i: int| 0 <= i < r.0@.len() ==> r.0@[i]@ == self.selection()[i].repr@,
            r.1@.len() == chosen(self.candidates@, complement(self.picked@)).len(),
            forall|i: int|
                0 <= i < r.1@.len() ==> r.1@[i]@ == chosen(
                    self.candidates@,
                    complement(self.picked@),
                )[i].repr@,
    {
        let mut sel: Vec<String> = Vec::new();
        let mut unsel: Vec<String> = Vec::new();
        let mut i: usize = 0;
        while i < self.candidates.len()
            invariant
                i <= self.candidates@.len(),
                self.picked@.len() == self.candidates@.len(),
                sel@.len() == chosen(
                    self.candidates@.subrange(0, i as int),
                    self.picked@.subrange(0, i as int),
                ).len(),
                forall|m: int|
                    0 <= m < sel@.len() ==> sel@[m]@ == chosen(
                        self.candidates@.subrange(0, i as int),
                        self.picked@.subrange(0, i as int),
                    )[m].repr@,
                unsel@.len() == chosen(
                    self.candidates@.subrange(0, i as int),
                    complement(self.picked@).subrange(0, i as int),
                ).len(),
                forall|m: int|
                    0 <= m < unsel@.len() ==> unsel@[m]@ == chosen(
                        self.candidates@.subrange(0, i as int),
                        complement(self.picked@).subrange(0, i as int),
                    )[m].repr@,
            decreases self.candidates@.len() - i,
        {
            proof {
                assert(self.candidates@.subrange(0, i + 1 as int).drop_last()
                    =~= self.candidates@.subrange(0, i as int));
                assert(self.picked@.subrange(0, i + 1 as int).drop_last() =~= self.picked@.subrange(
                    0,
                    i as int,
                ));
                assert(complement(self.picked@).subrange(0, i + 1 as int).drop_last() =~= complement(
                    self.picked@,
                ).subrange(0, i as int));
            }
            if self.picked[i] {
                sel.push(self.candidates[i].repr.clone());
            } else {
                unsel.push(self.candidates[i].repr.clone());
            }
            i = i + 1;
        }
        proof {
            assert(self.candidates@.subrange(0, self.candidates@.len() as int)
                =~= self.candidates@);
            assert(self.picked@.subrange(0, self.picked@.len() as int) =~= self.picked@);
            assert(complement(self.picked@).subrange(0, complement(self.picked@).len() as int)
                =~= complement(self.picked@));
        }
        (sel, unsel)
    }
}

/// The flag vector with every pick inverted.
pub open spec fn complement(picks: Seq<bool>) -> Seq<bool> {
    picks.map_values(|b: bool| !b)
}

/// `n` toggles of the role at index `i` in a row.
pub open spec fn iterate_toggle(picks: Seq<bool>, i: int, n: nat) -> Seq<bool>
    decreases n,
{
    if n == 0 {
        picks
    } else {
        toggle_spec(iterate_toggle(picks, i, (n - 1) as nat), i)
    }
}

/// Law: toggling one role an even number of times returns the partition
/// to its starting configuration; an odd number of times flips exactly
/// that role's membership and nothing else.
pub proof fn lemma_toggle_parity(picks: Seq<bool>, i: int, n: nat)
    requires
        0 <= i < picks.len(),
    ensures
        n % 2 == 0 ==> iterate_toggle(picks, i, n) == picks,
        n % 2 == 1 ==> iterate_toggle(picks, i, n) == picks.update(i, !picks[i]),
        forall|j: int| 0 <= j < picks.len() && j != i ==> iterate_toggle(picks, i, n)[j] == picks[j],
    decreases n,
{
    if n == 0 {
    } else {
        lemma_toggle_parity(picks, i, (n - 1) as nat);
        if n % 2 == 0 {
            assert(toggle_spec(picks.update(i, !picks[i]), i) =~= picks);
        } else {
            assert(toggle_spec(picks, i) =~= picks.update(i, !picks[i]));
        }
    }
}

/// Law: confirming with zero candidate roles yields the empty selection —
/// together with `step`, whose confirm case always returns `Confirmed`
/// and never an error.
pub proof fn lemma_confirm_empty(cands: Seq<Role>, picks: Seq<bool>)
    requires
        cands.len() == 0,
    ensures
        chosen(cands, picks).len() == 0,
{
}

} // verus!
