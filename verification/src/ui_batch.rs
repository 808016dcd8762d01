//! How the inputs of one update of a widget tree are split: plain events
//! go to the tree together, each scroll event alone with its frame, and a
//! scroll stop goes to the widget that claimed the latest scroll, between
//! the updates, in input order.

use vstd::prelude::*;
use crate::cursor::Interaction;
use crate::refresh::{RefreshRequest, earliest, earliest_request};

verus! {

/// What kind of input the tree is handed.
#[derive(Debug, Clone, Copy, PartialEq, Eq, Structural)]
pub enum InputKind {
    /// an event without scroll details
    Plain,
    /// a scroll event with its frame
    Scroll,
    /// the stop of a scroll gesture
    Stop,
}

/// One step of an update.
#[derive(Debug, Clone, Copy, PartialEq, Eq, Structural)]
pub enum UpdateStep {
    /// update the tree with the plain events at `start..end`
    Plain { start: usize, end: usize },
    /// update the tree with the scroll event at `index`, its frame current
    Scroll { index: usize },
    /// deliver the stop at `index` to the owner of the latest scroll
    Stop { index: usize },
}

/// The update of the held plain events from `pending` up to `end`, if any
/// are held.
pub open spec fn flush(pending: Option<int>, end: int) -> Seq<UpdateStep> {
    match pending {
        Some(s) => seq![UpdateStep::Plain { start: s as usize, end: end as usize }],
        None => Seq::empty(),
    }
}

/// The steps for the inputs from `i` on, with the plain events from
/// `pending` on held and `updated` telling whether the tree was updated
/// already: plain events are held until a scroll or a stop comes or the
/// inputs end; the tree is updated at least once, with no event if need
/// be.
pub open spec fn plan_from(kinds: Seq<InputKind>, i: int, pending: Option<int>, updated: bool) -> Seq<UpdateStep>
    decreases kinds.len() - i,
{
    if i >= kinds.len() {
        if pending is Some || !updated {
            seq![
                UpdateStep::Plain {
                    start: (match pending {
                        Some(s) => s,
                        None => kinds.len() as int,
                    }) as usize,
                    end: kinds.len() as usize,
                },
            ]
        } else {
            Seq::empty()
        }
    } else {
        match kinds[i] {
            InputKind::Plain => plan_from(
                kinds,
                i + 1,
                if pending is Some {
                    pending
                } else {
                    Some(i)
                },
                updated,
            ),
            InputKind::Scroll => flush(pending, i) + seq![UpdateStep::Scroll { index: i as usize }]
                + plan_from(kinds, i + 1, None, true),
            InputKind::Stop => flush(pending, i) + seq![UpdateStep::Stop { index: i as usize }]
                + plan_from(kinds, i + 1, None, updated || pending is Some),
        }
    }
}

/// The steps of an update with these inputs.
pub open spec fn update_plan_spec(kinds: Seq<InputKind>) -> Seq<UpdateStep> {
    plan_from(kinds, 0, None, false)
}

/// The steps of an update with inputs of these kinds, in order.
pub fn update_plan(kinds: &Vec<InputKind>) -> (steps: Vec<UpdateStep>)
    ensures
        steps@ == update_plan_spec(kinds@),
{
    let mut steps: Vec<UpdateStep> = Vec::new();
    let mut pending: Option<usize> = None;
    let mut updated = false;
    let mut i: usize = 0;
    while i < kinds.len()
        invariant
            0 <= i <= kinds@.len(),
            pending matches Some(s) ==> s < i,
            steps@ + plan_from(
                kinds@,
                i as int,
                match pending {
                    Some(s) => Some(s as int),
                    None => None,
                },
                updated,
            ) == update_plan_spec(kinds@),
        decreases kinds@.len() - i,
    {
        let ghost before = steps@;
        let ghost p: Option<int> = match pending {
            Some(s) => Some(s as int),
            None => None,
        };
        let ghost u = updated;
        match kinds[i] {
            InputKind::Plain => {
                if pending.is_none() {
                    pending = Some(i);
                }
            },
            InputKind::Scroll => {
                if let Some(s) = pending {
                    steps.push(UpdateStep::Plain { start: s, end: i });
                }
                steps.push(UpdateStep::Scroll { index: i });
                pending = None;
                updated = true;
                proof {
                    let rest = plan_from(kinds@, i + 1, None, true);
                    let mid = flush(p, i as int) + seq![UpdateStep::Scroll { index: i }];
                    assert(steps@ =~= before + mid);
                    assert(plan_from(kinds@, i as int, p, u) == mid + rest);
                    assert((before + mid) + rest =~= before + (mid + rest));
                }
            },
            InputKind::Stop => {
                if let Some(s) = pending {
                    steps.push(UpdateStep::Plain { start: s, end: i });
                    updated = true;
                }
                steps.push(UpdateStep::Stop { index: i });
                pending = None;
                proof {
                    let rest = plan_from(kinds@, i + 1, None, u || p is Some);
                    let mid = flush(p, i as int) + seq![UpdateStep::Stop { index: i }];
                    assert(steps@ =~= before + mid);
                    assert(plan_from(kinds@, i as int, p, u) == mid + rest);
                    assert((before + mid) + rest =~= before + (mid + rest));
                }
            },
        }
        i += 1;
    }
    if pending.is_some() || !updated {
        let start = match pending {
            Some(s) => s,
            None => kinds.len(),
        };
        let ghost before = steps@;
        steps.push(UpdateStep::Plain { start, end: kinds.len() });
        proof {
            assert(steps@ =~= before + plan_from(
                kinds@,
                i as int,
                match pending {
                    Some(s) => Some(s as int),
                    None => None,
                },
                updated,
            ));
        }
    } else {
        proof {
            assert(steps@ =~= steps@ + Seq::<UpdateStep>::empty());
        }
    }
    steps
}

/// Whether step `st` fits inputs `kinds`: a plain update covers plain
/// inputs only, a scroll step is a scroll input, a stop step a stop.
pub open spec fn step_fits(kinds: Seq<InputKind>, st: UpdateStep) -> bool {
    match st {
        UpdateStep::Plain { start, end } => start <= end <= kinds.len() && forall|k: int|
            start <= k < end ==> kinds[k] == InputKind::Plain,
        UpdateStep::Scroll { index } => index < kinds.len() && kinds[index as int] == InputKind::Scroll,
        UpdateStep::Stop { index } => index < kinds.len() && kinds[index as int] == InputKind::Stop,
    }
}

proof fn lemma_plan_from_fits(kinds: Seq<InputKind>, i: int, pending: Option<int>, updated: bool)
    requires
        0 <= i <= kinds.len(),
        kinds.len() <= usize::MAX,
        pending matches Some(s) ==> 0 <= s <= i && forall|k: int| s <= k < i ==> kinds[k] == InputKind::Plain,
    ensures
        forall|j: int| 0 <= j < plan_from(kinds, i, pending, updated).len() ==> step_fits(
            kinds,
            #[trigger] plan_from(kinds, i, pending, updated)[j],
        ),
    decreases kinds.len() - i,
{
    if i >= kinds.len() {
        let plan = plan_from(kinds, i, pending, updated);
        if plan.len() > 0 {
            let start: int = match pending {
                Some(s) => s,
                None => kinds.len() as int,
            };
            assert(plan[0] == UpdateStep::Plain { start: start as usize, end: kinds.len() as usize });
            assert(step_fits(kinds, plan[0]));
        }
        assert forall|j: int| 0 <= j < plan.len() implies step_fits(kinds, #[trigger] plan[j]) by {
            assert(j == 0);
        }
    } else {
        match kinds[i] {
            InputKind::Plain => {
                let next = if pending is Some { pending } else { Some(i) };
                lemma_plan_from_fits(kinds, i + 1, next, updated);
                assert(plan_from(kinds, i, pending, updated) == plan_from(kinds, i + 1, next, updated));
            },
            InputKind::Scroll => {
                lemma_plan_from_fits(kinds, i + 1, None, true);
                let rest = plan_from(kinds, i + 1, None, true);
                let mid = flush(pending, i) + seq![UpdateStep::Scroll { index: i as usize }];
                let plan = plan_from(kinds, i, pending, updated);
                assert(plan == mid + rest);
                assert(step_fits(kinds, UpdateStep::Scroll { index: i as usize }));
                if let Some(s) = pending {
                    assert(step_fits(kinds, UpdateStep::Plain { start: s as usize, end: i as usize }));
                }
                assert forall|j: int| 0 <= j < plan.len() implies step_fits(kinds, #[trigger] plan[j]) by {
                    if j >= mid.len() {
                        assert(plan[j] == rest[j - mid.len()]);
                    } else {
                        assert(plan[j] == mid[j]);
                    }
                }
            },
            InputKind::Stop => {
                lemma_plan_from_fits(kinds, i + 1, None, updated || pending is Some);
                let rest = plan_from(kinds, i + 1, None, updated || pending is Some);
                let mid = flush(pending, i) + seq![UpdateStep::Stop { index: i as usize }];
                let plan = plan_from(kinds, i, pending, updated);
                assert(plan == mid + rest);
                assert(step_fits(kinds, UpdateStep::Stop { index: i as usize }));
                if let Some(s) = pending {
                    assert(step_fits(kinds, UpdateStep::Plain { start: s as usize, end: i as usize }));
                }
                assert forall|j: int| 0 <= j < plan.len() implies step_fits(kinds, #[trigger] plan[j]) by {
                    if j >= mid.len() {
                        assert(plan[j] == rest[j - mid.len()]);
                    } else {
                        assert(plan[j] == mid[j]);
                    }
                }
            },
        }
    }
}

/// Every step of an update fits its inputs: plain updates hand the tree
/// plain events only, and each scroll or stop step is a scroll or stop
/// input.
pub proof fn lemma_plan_fits(kinds: Seq<InputKind>)
    requires
        kinds.len() <= usize::MAX,
    ensures
        forall|j: int| 0 <= j < update_plan_spec(kinds).len() ==> step_fits(
            kinds,
            #[trigger] update_plan_spec(kinds)[j],
        ),
{
    lemma_plan_from_fits(kinds, 0, None, false);
}

/// Without scroll details, an update hands all events to the tree at once.
pub proof fn lemma_plain_inputs_one_update(kinds: Seq<InputKind>, i: int, pending: Option<int>)
    requires
        0 <= i <= kinds.len(),
        forall|k: int| 0 <= k < kinds.len() ==> kinds[k] == InputKind::Plain,
        pending == (if i == 0 { None } else { Some(0int) }),
    ensures
        plan_from(kinds, i, pending, false) == seq![UpdateStep::Plain { start: 0, end: kinds.len() as usize }],
    decreases kinds.len() - i,
{
    if i < kinds.len() {
        lemma_plain_inputs_one_update(kinds, i + 1, Some(0));
    }
}

/// What an update of a widget tree reports; `M` is the toolkit's
/// input-method request.
#[derive(Debug, Clone, Copy, PartialEq, Eq)]
pub enum UiState<M> {
    /// the tree must be rebuilt
    Outdated,
    /// the tree is up to date
    Updated {
        mouse_interaction: Interaction,
        redraw_request: RefreshRequest,
        input_method: M,
        has_layout_changed: bool,
    },
}

/// Two updates' reports as one: outdated if either is; else the later
/// cursor, the more urgent redraw, the input-method request
/// `input_method` (the toolkit's merge of the two requests), and a layout
/// change if either had one.
pub open spec fn merged_state<M>(earlier: UiState<M>, later: UiState<M>, input_method: M) -> UiState<M> {
    match (earlier, later) {
        (
            UiState::Updated { redraw_request: r1, has_layout_changed: l1, .. },
            UiState::Updated { mouse_interaction, redraw_request: r2, has_layout_changed: l2, .. },
        ) => UiState::Updated {
            mouse_interaction,
            redraw_request: earliest(r1, r2),
            input_method,
            has_layout_changed: l1 || l2,
        },
        _ => UiState::Outdated,
    }
}

/// The report of two updates run one after the other. The toolkit merges
/// the two input-method requests itself; `input_method` is that merge,
/// which the report carries when both updates left the tree up to date.
pub fn merge_states<M>(earlier: UiState<M>, later: UiState<M>, input_method: M) -> (r: UiState<M>)
    ensures
        r == merged_state(earlier, later, input_method),
{
    match (earlier, later) {
        (
            UiState::Updated { redraw_request: r1, has_layout_changed: l1, .. },
            UiState::Updated { mouse_interaction, redraw_request: r2, has_layout_changed: l2, .. },
        ) => {
            UiState::Updated {
                mouse_interaction,
                redraw_request: earliest_request(r1, r2),
                input_method,
                has_layout_changed: l1 || l2,
            }
        },
        _ => UiState::Outdated,
    }
}

/// Merging the reports of several updates does not depend on how they are
/// grouped: the merged report carries the merge of all the input-method
/// requests, whatever was merged in between.
pub proof fn lemma_merge_states_associative<M>(a: UiState<M>, b: UiState<M>, c: UiState<M>, ab: M, abc: M, bc: M)
    ensures
        merged_state(merged_state(a, b, ab), c, abc) == merged_state(a, merged_state(b, c, bc), abc),
{
    crate::refresh::lemma_refresh_requests_commute(
        match a { UiState::Updated { redraw_request, .. } => redraw_request, _ => RefreshRequest::Wait },
        match b { UiState::Updated { redraw_request, .. } => redraw_request, _ => RefreshRequest::Wait },
        match c { UiState::Updated { redraw_request, .. } => redraw_request, _ => RefreshRequest::Wait },
    );
}

/// The scroll side of one update: the owner that claimed the latest
/// scroll event, to which stops go, and whether a stop reached that
/// owner's receiver.
#[derive(Debug, Clone, Copy, PartialEq, Eq)]
pub struct ScrollOutcome {
    /// the owner that claimed the latest scroll event
    pub owner: Option<u64>,
    /// a stop was delivered to the receiver of the owner at its time
    pub stop_delivered: bool,
}

impl ScrollOutcome {
    /// Before the update: the owner kept from earlier updates, and no stop
    /// delivered yet.
    pub fn new(owner: Option<u64>) -> (r: ScrollOutcome)
        ensures
            r == (ScrollOutcome { owner, stop_delivered: false }),
    {
        ScrollOutcome { owner, stop_delivered: false }
    }

    /// A scroll event was handled alone with its frame current, and
    /// `claim` is the owner that claimed it (what `end_current` gave back):
    /// later stops go to that owner, or to none.
    pub fn scroll_handled(&mut self, claim: Option<u64>)
        ensures
            *final(self) == (ScrollOutcome { owner: claim, ..*old(self) }),
    {
        self.owner = claim;
    }

    /// The owner a stop is delivered to now; with none, the stop is not
    /// offered to the tree at all.
    pub fn stop_owner(&self) -> (r: Option<u64>)
        ensures
            r == self.owner,
    {
        self.owner
    }

    /// A stop came. With an owner, it was offered to the tree, and
    /// `delivered` tells whether the walk found the owner's receiver;
    /// without one, `delivered` is ignored.
    pub fn stop_handled(&mut self, delivered: bool)
        ensures
            *final(self) == (ScrollOutcome {
                stop_delivered: old(self).stop_delivered || (old(self).owner is Some && delivered),
                ..*old(self)
            }),
    {
        if self.owner.is_some() && delivered {
            self.stop_delivered = true;
        }
    }
}

/// The owner after the first `n` inputs, starting from `owner`: each
/// scroll input `i` leaves the owner `claims[i]` that claimed it; other
/// inputs leave it.
pub open spec fn owner_after(kinds: Seq<InputKind>, claims: Seq<Option<u64>>, owner: Option<u64>, n: int) -> Option<u64>
    decreases n,
{
    if n <= 0 {
        owner
    } else if kinds[n - 1] == InputKind::Scroll {
        claims[n - 1]
    } else {
        owner_after(kinds, claims, owner, n - 1)
    }
}

/// Input `i` is a stop that reached its receiver: some owner claimed the
/// latest scroll before it, and the walk for it found that owner's
/// receiver (`delivered[i]`).
pub open spec fn stop_reached(
    kinds: Seq<InputKind>,
    claims: Seq<Option<u64>>,
    delivered: Seq<bool>,
    owner: Option<u64>,
    i: int,
) -> bool {
    &&& kinds[i] == InputKind::Stop
    &&& owner_after(kinds, claims, owner, i) is Some
    &&& delivered[i]
}

/// The scroll side of an update with inputs of these kinds, the owner
/// `owner` kept from earlier updates, `claims[i]` the owner that claimed
/// scroll input `i` when the tree handled it, and `delivered[i]` whether
/// the walk for stop input `i` found its owner's receiver. The owner
/// afterwards is the claim of the last scroll input, the earlier owner if
/// there was none; a stop was delivered when some stop reached the
/// receiver of the owner at its time.
pub fn update_outcome(
    kinds: &Vec<InputKind>,
    claims: &Vec<Option<u64>>,
    delivered: &Vec<bool>,
    owner: Option<u64>,
) -> (r: ScrollOutcome)
    requires
        claims@.len() == kinds@.len(),
        delivered@.len() == kinds@.len(),
    ensures
        r.owner == owner_after(kinds@, claims@, owner, kinds@.len() as int),
        r.stop_delivered == exists|i: int|
            0 <= i < kinds@.len() && #[trigger] stop_reached(kinds@, claims@, delivered@, owner, i),
{
    let mut out = ScrollOutcome::new(owner);
    let mut i: usize = 0;
    while i < kinds.len()
        invariant
            0 <= i <= kinds@.len(),
            claims@.len() == kinds@.len(),
            delivered@.len() == kinds@.len(),
            out.owner == owner_after(kinds@, claims@, owner, i as int),
            out.stop_delivered == exists|j: int| 0 <= j < i && #[trigger] stop_reached(kinds@, claims@, delivered@, owner, j),
        decreases kinds@.len() - i,
    {
        let ghost before = out.stop_delivered;
        match kinds[i] {
            InputKind::Scroll => out.scroll_handled(claims[i]),
            InputKind::Stop => out.stop_handled(delivered[i]),
            InputKind::Plain => {},
        }
        proof {
            if out.stop_delivered {
                if !before {
                    assert(stop_reached(kinds@, claims@, delivered@, owner, i as int));
                }
            }
            if exists|j: int| 0 <= j < i + 1 && #[trigger] stop_reached(kinds@, claims@, delivered@, owner, j) {
                let j = choose|j: int| 0 <= j < i + 1 && #[trigger] stop_reached(kinds@, claims@, delivered@, owner, j);
                if j < i {
                    assert(before);
                }
            }
        }
        i += 1;
    }
    out
}

} // verus!
