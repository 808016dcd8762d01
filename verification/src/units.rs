//! The windows (units) of a shell and how they relate.
//!
//! Each unit has a unique id and may have a parent: a popup belongs to the
//! surface it was opened on, which was created before it. Closing a unit
//! closes its descendants first, deepest first.

use vstd::prelude::*;

verus! {

/// The role a unit's surface plays.
#[derive(Debug, Clone, Copy, PartialEq, Eq, Structural)]
pub enum WlShellType {
    LayerShell,
    PopUp,
    XdgTopLevel,
    InputPanel,
    SessionLock,
}

/// What the registry knows of one unit.
#[derive(Debug)]
pub struct UnitRecord {
    /// the unit's id
    pub id: u64,
    /// the unit this one was opened on
    pub parent: Option<u64>,
    /// the protocol id of the unit's `wl_surface`
    pub surface: u64,
    /// the role of the surface
    pub shell: WlShellType,
    /// the program or the compositor asked to close the unit
    pub close_requested: bool,
    /// the outputs the surface shows on, first entered first
    pub outputs: Vec<u32>,
    /// a leave held back to keep a layer surface on an output
    pub pending_leave: Option<u32>,
}

/// Ids are unique and every parent comes before its children.
pub open spec fn units_wf(units: Seq<UnitRecord>) -> bool {
    &&& forall|i: int, j: int|
        0 <= i < j < units.len() ==> #[trigger] units[i].id != #[trigger] units[j].id
    &&& forall|i: int, j: int|
        #![trigger units[i], units[j]]
        0 <= i < units.len() && 0 <= j < units.len() && units[j].parent == Some(units[i].id) ==> i
            < j
}

/// `n` starts with `o`.
pub open spec fn extends(o: Seq<u64>, n: Seq<u64>) -> bool {
    o.len() <= n.len() && n.take(o.len() as int) == o
}

/// The ids that `n` adds to `o` are distinct and not in `o`.
#[verifier::opaque]
pub open spec fn fresh_distinct(o: Seq<u64>, n: Seq<u64>) -> bool {
    &&& forall|k: int| o.len() <= k < n.len() ==> !o.contains(#[trigger] n[k])
    &&& forall|k1: int, k2: int| o.len() <= k1 < k2 < n.len() ==> #[trigger] n[k1] != #[trigger] n[k2]
}

/// Every unit whose parent `n` adds is in `n` before its parent.
#[verifier::opaque]
pub open spec fn children_first(units: Seq<UnitRecord>, o: Seq<u64>, n: Seq<u64>) -> bool {
    forall|k: int, j: int|
        #![trigger n[k], units[j]]
        o.len() <= k < n.len() && 0 <= j < units.len() && units[j].parent == Some(n[k])
            ==> n.take(k).contains(units[j].id)
}

/// Every id that `n` adds, other than `root`, is a unit whose parent `n`
/// adds after it.
#[verifier::opaque]
pub open spec fn parents_later(units: Seq<UnitRecord>, o: Seq<u64>, n: Seq<u64>, root: u64) -> bool {
    forall|k: int|
        #![trigger n[k]]
        o.len() <= k < n.len() && n[k] != root ==> exists|j: int, k3: int|
            #![trigger units[j], n[k3]]
            0 <= j < units.len() && units[j].id == n[k] && k < k3 < n.len() && units[j].parent
                == Some(n[k3])
}

/// Every id that `n` adds is a unit whose parent is `root` or is added by
/// `n` after it.
#[verifier::opaque]
pub open spec fn parents_later_or_root(units: Seq<UnitRecord>, o: Seq<u64>, n: Seq<u64>, root: u64) -> bool {
    forall|k: int|
        #![trigger n[k]]
        o.len() <= k < n.len() ==> exists|j: int|
            #![trigger units[j]]
            0 <= j < units.len() && units[j].id == n[k] && (units[j].parent == Some(root) || exists|
                k3: int,
            |
                #![trigger n[k3]]
                k < k3 < n.len() && units[j].parent == Some(n[k3]))
}

/// `n` extends `o` by the ids collected for closing `root`: the new ids are
/// distinct and not in `o`; every unit whose parent is collected is itself
/// in `n` before it; and every collected id other than `root` is a unit
/// whose parent is collected after it.
pub open spec fn collected(units: Seq<UnitRecord>, o: Seq<u64>, n: Seq<u64>, root: u64) -> bool {
    &&& extends(o, n)
    &&& fresh_distinct(o, n)
    &&& children_first(units, o, n)
    &&& parents_later(units, o, n, root)
}

/// Like [`collected`] before `root` itself is appended: every collected id
/// is a unit whose parent is `root` or is collected after it.
pub open spec fn collecting(units: Seq<UnitRecord>, o: Seq<u64>, n: Seq<u64>, root: u64) -> bool {
    &&& extends(o, n)
    &&& fresh_distinct(o, n)
    &&& children_first(units, o, n)
    &&& parents_later_or_root(units, o, n, root)
}

/// Every id added to `o` is that of a unit at index `start` or later, and
/// none is `root`.
pub open spec fn added_after(units: Seq<UnitRecord>, o: Seq<u64>, n: Seq<u64>, start: int, root: u64) -> bool {
    &&& added_from(units, o, n, start)
    &&& forall|k: int| o.len() <= k < n.len() ==> #[trigger] n[k] != root
}

/// Every id added to `o` is that of a unit at index `start` or later.
#[verifier::opaque]
pub open spec fn added_from(units: Seq<UnitRecord>, o: Seq<u64>, n: Seq<u64>, start: int) -> bool {
    forall|k: int|
        #![trigger n[k]]
        o.len() <= k < n.len() ==> exists|m: int|
            #![trigger units[m]]
            start <= m < units.len() && units[m].id == n[k]
}

proof fn lemma_extends_trans(o: Seq<u64>, mid: Seq<u64>, n: Seq<u64>)
    requires
        extends(o, mid),
        extends(mid, n),
    ensures
        extends(o, n),
        forall|k: int| 0 <= k < mid.len() ==> #[trigger] n[k] == mid[k],
        forall|k: int| 0 <= k < o.len() ==> #[trigger] n[k] == o[k],
        forall|x: u64| o.contains(x) ==> #[trigger] mid.contains(x),
{
    assert forall|k: int| 0 <= k < mid.len() implies #[trigger] n[k] == mid[k] by {
        assert(n.take(mid.len() as int)[k] == n[k]);
    }
    assert forall|k: int| 0 <= k < o.len() implies #[trigger] mid[k] == o[k] by {
        assert(mid.take(o.len() as int)[k] == mid[k]);
    }
    assert(n.take(o.len() as int) =~= o);
    assert forall|x: u64| o.contains(x) implies #[trigger] mid.contains(x) by {
        let p = choose|p: int| 0 <= p < o.len() && o[p] == x;
        assert(mid[p] == x);
    }
}

proof fn lemma_fresh_compose(o: Seq<u64>, mid: Seq<u64>, n: Seq<u64>)
    requires
        extends(o, mid),
        extends(mid, n),
        fresh_distinct(o, mid),
        fresh_distinct(mid, n),
    ensures
        fresh_distinct(o, n),
{
    lemma_extends_trans(o, mid, n);
    reveal(fresh_distinct);
    assert forall|k: int| o.len() <= k < n.len() implies !o.contains(#[trigger] n[k]) by {
        if k < mid.len() {
            assert(n[k] == mid[k]);
        } else if o.contains(n[k]) {
            assert(mid.contains(n[k]));
        }
    }
    assert forall|k1: int, k2: int| o.len() <= k1 < k2 < n.len() implies #[trigger] n[k1]
        != #[trigger] n[k2] by {
        if k2 < mid.len() {
            assert(n[k1] == mid[k1] && n[k2] == mid[k2]);
        } else if k1 < mid.len() {
            assert(n[k1] == mid[k1]);
            assert(mid.contains(mid[k1]));
        }
    }
}

proof fn lemma_children_compose(units: Seq<UnitRecord>, o: Seq<u64>, mid: Seq<u64>, n: Seq<u64>)
    requires
        extends(o, mid),
        extends(mid, n),
        children_first(units, o, mid),
        children_first(units, mid, n),
    ensures
        children_first(units, o, n),
{
    lemma_extends_trans(o, mid, n);
    reveal(children_first);
    assert forall|k: int, c: int|
        #![trigger n[k], units[c]]
        o.len() <= k < n.len() && 0 <= c < units.len() && units[c].parent == Some(n[k]) implies n.take(
        k,
    ).contains(units[c].id) by {
        if k < mid.len() {
            assert(n[k] == mid[k]);
            assert(mid.take(k).contains(units[c].id));
            assert(n.take(k) =~= mid.take(k));
        }
    }
}

proof fn lemma_parents_compose(
    units: Seq<UnitRecord>,
    o: Seq<u64>,
    mid: Seq<u64>,
    n: Seq<u64>,
    root: u64,
    j: int,
)
    requires
        extends(o, mid),
        extends(mid, n),
        parents_later_or_root(units, o, mid, root),
        parents_later(units, mid, n, units[j].id),
        0 <= j < units.len(),
        units[j].parent == Some(root),
    ensures
        parents_later_or_root(units, o, n, root),
{
    lemma_extends_trans(o, mid, n);
    reveal(parents_later_or_root);
    reveal(parents_later);
    assert forall|k: int|
        #![trigger n[k]]
        o.len() <= k < n.len() implies exists|c: int|
        #![trigger units[c]]
        0 <= c < units.len() && units[c].id == n[k] && (units[c].parent == Some(root) || exists|
            k3: int,
        |
            #![trigger n[k3]]
            k < k3 < n.len() && units[c].parent == Some(n[k3])) by {
        if k < mid.len() {
            assert(n[k] == mid[k]);
            let c = choose|c: int|
                #![trigger units[c]]
                0 <= c < units.len() && units[c].id == mid[k] && (units[c].parent == Some(root)
                    || exists|k3: int|
                    #![trigger mid[k3]]
                    k < k3 < mid.len() && units[c].parent == Some(mid[k3]));
            if units[c].parent != Some(root) {
                let k3 = choose|k3: int|
                    #![trigger mid[k3]]
                    k < k3 < mid.len() && units[c].parent == Some(mid[k3]);
                assert(n[k3] == mid[k3]);
            }
        } else if n[k] == units[j].id {
            assert(units[j].id == n[k]);
        } else {
            let (c, k3) = choose|c: int, k3: int|
                #![trigger units[c], n[k3]]
                0 <= c < units.len() && units[c].id == n[k] && k < k3 < n.len() && units[c].parent
                    == Some(n[k3]);
            assert(units[c].id == n[k]);
        }
    }
}

proof fn lemma_added_compose(
    units: Seq<UnitRecord>,
    o: Seq<u64>,
    mid: Seq<u64>,
    n: Seq<u64>,
    root: u64,
    start: int,
    j: int,
)
    requires
        units_wf(units),
        extends(o, mid),
        extends(mid, n),
        added_after(units, o, mid, start, root),
        added_from(units, mid, n, j),
        0 <= start <= j < units.len(),
        units[j].parent == Some(root),
    ensures
        added_after(units, o, n, start, root),
{
    lemma_extends_trans(o, mid, n);
    reveal(added_from);
    assert forall|k: int| o.len() <= k < n.len() implies #[trigger] n[k] != root && exists|m: int|
        #![trigger units[m]]
        start <= m < units.len() && units[m].id == n[k] by {
        if k < mid.len() {
            assert(n[k] == mid[k]);
        } else {
            let m = choose|m: int|
                #![trigger units[m]]
                j <= m < units.len() && units[m].id == n[k];
            if n[k] == root {
                assert(units[j].parent == Some(units[m].id));
                assert(m < j);
            }
        }
    }
}

proof fn lemma_not_root(units: Seq<UnitRecord>, o: Seq<u64>, n: Seq<u64>, start: int, root: u64)
    requires
        extends(o, n),
        !o.contains(root),
        added_after(units, o, n, start, root),
    ensures
        !n.contains(root),
{
    if n.contains(root) {
        let k = choose|k: int| 0 <= k < n.len() && n[k] == root;
        if k < o.len() {
            assert(n.take(o.len() as int)[k] == n[k]);
            assert(o[k] == root);
            assert(o.contains(root));
        }
    }
}

proof fn lemma_compose(
    units: Seq<UnitRecord>,
    o: Seq<u64>,
    mid: Seq<u64>,
    n: Seq<u64>,
    root: u64,
    start: int,
    j: int,
)
    requires
        units_wf(units),
        collecting(units, o, mid, root),
        added_after(units, o, mid, start, root),
        !o.contains(root),
        0 <= start <= j < units.len(),
        units[j].parent == Some(root),
        mid.contains(units[j].id) ==> n == mid,
        !mid.contains(units[j].id) ==> collected(units, mid, n, units[j].id),
        added_from(units, mid, n, j),
    ensures
        collecting(units, o, n, root),
        added_after(units, o, n, start, root),
        !n.contains(root),
{
    if !mid.contains(units[j].id) {
        lemma_extends_trans(o, mid, n);
        lemma_fresh_compose(o, mid, n);
        lemma_children_compose(units, o, mid, n);
        lemma_parents_compose(units, o, mid, n, root, j);
        lemma_added_compose(units, o, mid, n, root, start, j);
    }
    lemma_not_root(units, o, n, start, root);
}

proof fn lemma_finish_collect(units: Seq<UnitRecord>, o: Seq<u64>, m: Seq<u64>, id: u64, i: int)
    requires
        units_wf(units),
        0 <= i < units.len(),
        units[i].id == id,
        !o.contains(id),
        collecting(units, o, m, id),
        added_after(units, o, m, i + 1, id),
        !m.contains(id),
        forall|c: int|
            0 <= c < units.len() && #[trigger] units[c].parent == Some(id) ==> m.contains(
                units[c].id,
            ),
    ensures
        collected(units, o, m.push(id), id),
        added_from(units, o, m.push(id), i),
{
    let n = m.push(id);
    assert forall|k: int| 0 <= k < m.len() implies #[trigger] n[k] == m[k] by {}
    assert(n.take(o.len() as int) =~= o) by {
        assert forall|k: int| 0 <= k < o.len() implies n.take(o.len() as int)[k] == o[k] by {
            assert(m.take(o.len() as int)[k] == m[k]);
        }
    }
    assert(fresh_distinct(o, n)) by {
        reveal(fresh_distinct);
        assert forall|k1: int, k2: int| o.len() <= k1 < k2 < n.len() implies #[trigger] n[k1]
            != #[trigger] n[k2] by {
            if k2 == m.len() {
                assert(m.contains(m[k1]));
            }
        }
    }
    assert(children_first(units, o, n)) by {
        reveal(children_first);
        assert forall|k: int, c: int|
            #![trigger n[k], units[c]]
            o.len() <= k < n.len() && 0 <= c < units.len() && units[c].parent == Some(
                n[k],
            ) implies n.take(k).contains(units[c].id) by {
            if k < m.len() {
                assert(n.take(k) =~= m.take(k));
            } else {
                assert(n.take(k) =~= m);
            }
        }
    }
    assert(parents_later(units, o, n, id)) by {
        reveal(parents_later);
        reveal(parents_later_or_root);
        assert forall|k: int|
            #![trigger n[k]]
            o.len() <= k < n.len() && n[k] != id implies exists|c: int, k3: int|
            #![trigger units[c], n[k3]]
            0 <= c < units.len() && units[c].id == n[k] && k < k3 < n.len() && units[c].parent
                == Some(n[k3]) by {
            assert(k < m.len());
            let c = choose|c: int|
                #![trigger units[c]]
                0 <= c < units.len() && units[c].id == m[k] && (units[c].parent == Some(id)
                    || exists|k3: int|
                    #![trigger m[k3]]
                    k < k3 < m.len() && units[c].parent == Some(m[k3]));
            if units[c].parent == Some(id) {
                let k3 = m.len() as int;
                assert(n[k3] == id);
                assert(units[c].id == n[k]);
            } else {
                let k3 = choose|k3: int|
                    #![trigger m[k3]]
                    k < k3 < m.len() && units[c].parent == Some(m[k3]);
                assert(n[k3] == m[k3]);
                assert(units[c].id == n[k]);
            }
        }
    }
    assert(added_from(units, o, n, i)) by {
        reveal(added_from);
        reveal(added_from);
        assert forall|k: int|
            #![trigger n[k]]
            o.len() <= k < n.len() implies exists|mm: int|
            #![trigger units[mm]]
            i <= mm < units.len() && units[mm].id == n[k] by {
            if k < m.len() {
                let mm = choose|mm: int|
                    #![trigger units[mm]]
                    i + 1 <= mm < units.len() && units[mm].id == m[k];
                assert(units[mm].id == n[k]);
            } else {
                assert(units[i].id == n[k]);
            }
        }
    }
}

pub(crate) fn contains_id(v: &Vec<u64>, x: u64) -> (r: bool)
    ensures
        r == v@.contains(x),
{
    let mut i: usize = 0;
    while i < v.len()
        invariant
            0 <= i <= v@.len(),
            forall|j: int| 0 <= j < i ==> v@[j] != x,
        decreases v@.len() - i,
    {
        if v[i] == x {
            return true;
        }
        i += 1;
    }
    false
}

/// `order` after collecting the subtree of the unit at index `i`: unless
/// its id is there already, the subtrees of its children, in unit order,
/// then its id.
pub open spec fn dfs_from(units: Seq<UnitRecord>, i: int, order: Seq<u64>) -> Seq<u64>
    decreases units.len() - i, 1int,
{
    if 0 <= i < units.len() {
        if order.contains(units[i].id) {
            order
        } else {
            dfs_children(units, units[i].id, i + 1, order).push(units[i].id)
        }
    } else {
        order
    }
}

/// `order` after collecting the subtrees of the children of `root` found
/// at index `j` or later, in unit order.
pub open spec fn dfs_children(units: Seq<UnitRecord>, root: u64, j: int, order: Seq<u64>) -> Seq<u64>
    decreases units.len() - j + 1, 0int,
{
    if 0 <= j < units.len() {
        let next = if units[j].parent == Some(root) {
            dfs_from(units, j, order)
        } else {
            order
        };
        dfs_children(units, root, j + 1, next)
    } else {
        order
    }
}

/// `order` after collecting the unit named `id` with its descendants,
/// children first, unless `id` is there already.
pub open spec fn dfs_id(units: Seq<UnitRecord>, id: u64, order: Seq<u64>) -> Seq<u64> {
    if order.contains(id) {
        order
    } else {
        dfs_children(units, id, 0, order).push(id)
    }
}

/// The ids of the units that asked to be closed, in unit order.
pub open spec fn requested_ids(units: Seq<UnitRecord>) -> Seq<u64>
    decreases units.len(),
{
    if units.len() == 0 {
        Seq::empty()
    } else {
        let rest = requested_ids(units.drop_last());
        if units.last().close_requested {
            rest.push(units.last().id)
        } else {
            rest
        }
    }
}

/// The order in which the units of `roots` close, with their descendants:
/// each root in turn collected after what the roots before it collected.
pub open spec fn close_order(units: Seq<UnitRecord>, roots: Seq<u64>) -> Seq<u64>
    decreases roots.len(),
{
    if roots.len() == 0 {
        Seq::empty()
    } else {
        dfs_id(units, roots.last(), close_order(units, roots.drop_last()))
    }
}

/// Collects the subtree of the unit at index `i` into `order`, children
/// first, unless its id is already there.
fn collect_from(units: &Vec<UnitRecord>, i: usize, order: &mut Vec<u64>)
    requires
        units_wf(units@),
        i < units@.len(),
    ensures
        old(order)@.contains(units@[i as int].id) ==> final(order)@ == old(order)@,
        !old(order)@.contains(units@[i as int].id) ==> collected(
            units@,
            old(order)@,
            final(order)@,
            units@[i as int].id,
        ),
        final(order)@.contains(units@[i as int].id),
        added_from(units@, old(order)@, final(order)@, i as int),
        final(order)@ == dfs_from(units@, i as int, old(order)@),
    decreases units@.len() - i, 1int,
{
    let id = units[i].id;
    if contains_id(order, id) {
        proof {
            reveal(added_from);
        }
        return;
    }
    let ghost o = order@;
    let len = units.len();
    collect_children(units, id, i + 1, order);
    proof {
        lemma_finish_collect(units@, o, order@, id, i as int);
    }
    order.push(id);
    proof {
        assert(order@.last() == id);
        assert(order@.contains(id)) by {
            assert(order@[order@.len() - 1] == id);
        }
    }
}

/// Collects the subtrees of the children of `root` found at index `start`
/// or later.
fn collect_children(units: &Vec<UnitRecord>, root: u64, start: usize, order: &mut Vec<u64>)
    requires
        units_wf(units@),
        start <= units@.len(),
        !old(order)@.contains(root),
        forall|j: int| 0 <= j < start ==> #[trigger] units@[j].parent != Some(root),
    ensures
        collecting(units@, old(order)@, final(order)@, root),
        added_after(units@, old(order)@, final(order)@, start as int, root),
        !final(order)@.contains(root),
        forall|j: int|
            0 <= j < units@.len() && #[trigger] units@[j].parent == Some(root)
                ==> final(order)@.contains(units@[j].id),
        final(order)@ == dfs_children(units@, root, start as int, old(order)@),
    decreases units@.len() - start + 1, 0int,
{
    let ghost o = order@;
    let mut j: usize = start;
    proof {
        assert(order@.take(o.len() as int) =~= o);
        reveal(fresh_distinct);
        reveal(children_first);
        reveal(parents_later_or_root);
        reveal(added_from);
    }
    while j < units.len()
        invariant
            units_wf(units@),
            start <= j <= units@.len(),
            !o.contains(root),
            forall|c: int| 0 <= c < start ==> #[trigger] units@[c].parent != Some(root),
            collecting(units@, o, order@, root),
            added_after(units@, o, order@, start as int, root),
            !order@.contains(root),
            forall|c: int|
                0 <= c < j && #[trigger] units@[c].parent == Some(root) ==> order@.contains(
                    units@[c].id,
                ),
            dfs_children(units@, root, start as int, o) == dfs_children(units@, root, j as int, order@),
        decreases units@.len() - j,
    {
        if units[j].parent == Some(root) {
            let ghost mid = order@;
            collect_from(units, j, order);
            proof {
                lemma_compose(units@, o, mid, order@, root, start as int, j as int);
            }
        }
        j += 1;
    }
}

/// Ids are collected for closing the units of `roots`: like [`collected`],
/// every collected id that is not a root is a unit whose parent is
/// collected after it.
pub open spec fn collected_all(units: Seq<UnitRecord>, n: Seq<u64>, roots: Seq<u64>) -> bool {
    &&& fresh_distinct(Seq::empty(), n)
    &&& children_first(units, Seq::empty(), n)
    &&& forall|k: int|
        #![trigger n[k]]
        0 <= k < n.len() && !roots.contains(n[k]) ==> exists|j: int, k3: int|
            #![trigger units[j], n[k3]]
            0 <= j < units.len() && units[j].id == n[k] && k < k3 < n.len() && units[j].parent
                == Some(n[k3])
    &&& forall|r: u64| #[trigger] roots.contains(r) ==> n.contains(r)
}

/// The window units of a shell, and what the event loop tracks about
/// focus and outputs.
#[derive(Debug)]
pub struct WindowRegistry {
    /// the units, in creation order
    pub units: Vec<UnitRecord>,
    /// the outputs the loop has bound, in announcement order
    pub outputs: Vec<u32>,
    /// the surface that has keyboard focus
    pub keyboard_focus: Option<u64>,
    /// index into `outputs` of the output last used by an active surface
    pub last_unit_index: usize,
    /// the output remembered for `OutputOption::LastOutput`
    pub last_output: Option<u32>,
}

/// The index of the first unit named `id`.
pub open spec fn index_of(units: Seq<UnitRecord>, id: u64) -> Option<int> {
    if exists|i: int| 0 <= i < units.len() && units[i].id == id {
        Some(choose|i: int| 0 <= i < units.len() && units[i].id == id)
    } else {
        None
    }
}

/// The id of the first unit whose surface is `surface`.
pub open spec fn surface_owner(units: Seq<UnitRecord>, surface: u64) -> Option<u64> {
    if exists|i: int| 0 <= i < units.len() && units[i].surface == surface {
        let i = choose|i: int|
            0 <= i < units.len() && units[i].surface == surface && forall|j: int|
                0 <= j < i ==> units[j].surface != surface;
        Some(units[i].id)
    } else {
        None
    }
}

impl WindowRegistry {
    /// Ids are unique, parents precede children.
    pub open spec fn wf(&self) -> bool {
        units_wf(self.units@)
    }

    /// A registry without units or outputs.
    pub fn new() -> (r: Self)
        ensures
            r.wf(),
            r.units@.len() == 0,
            r.outputs@.len() == 0,
            r.keyboard_focus is None,
            r.last_unit_index == 0,
            r.last_output is None,
    {
        WindowRegistry {
            units: Vec::new(),
            outputs: Vec::new(),
            keyboard_focus: None,
            last_unit_index: 0,
            last_output: None,
        }
    }

    /// The index of the unit named `id`.
    pub fn unit_index(&self, id: u64) -> (r: Option<usize>)
        requires
            self.wf(),
        ensures
            r matches Some(i) ==> i < self.units@.len() && self.units@[i as int].id == id,
            r is None <==> forall|i: int| 0 <= i < self.units@.len() ==> self.units@[i].id != id,
    {
        let mut i: usize = 0;
        while i < self.units.len()
            invariant
                0 <= i <= self.units@.len(),
                forall|j: int| 0 <= j < i ==> self.units@[j].id != id,
            decreases self.units@.len() - i,
        {
            if self.units[i].id == id {
                return Some(i);
            }
            i += 1;
        }
        None
    }

    /// Whether a unit named `id` exists, so removing it would remove a unit.
    pub fn can_remove_shell(&self, id: u64) -> (r: bool)
        requires
            self.wf(),
        ensures
            r == exists|i: int| 0 <= i < self.units@.len() && self.units@[i].id == id,
    {
        self.unit_index(id).is_some()
    }

    /// Marks the unit named `id` to be closed.
    pub fn request_close(&mut self, id: u64)
        requires
            old(self).wf(),
        ensures
            final(self).wf(),
            final(self).units@.len() == old(self).units@.len(),
            forall|i: int|
                0 <= i < final(self).units@.len() ==> {
                    let (a, b) = (old(self).units@[i], #[trigger] final(self).units@[i]);
                    &&& b.id == a.id
                    &&& b.parent == a.parent
                    &&& b.surface == a.surface
                    &&& b.shell == a.shell
                    &&& b.outputs@ == a.outputs@
                    &&& b.pending_leave == a.pending_leave
                    &&& b.close_requested == (a.close_requested || a.id == id)
                },
            final(self).outputs@ == old(self).outputs@,
            final(self).keyboard_focus == old(self).keyboard_focus,
            final(self).last_unit_index == old(self).last_unit_index,
            final(self).last_output == old(self).last_output,
    {
        self.set_close_flag(id, true);
    }

    /// Drops a pending close request of the unit named `id`.
    pub fn clear_close_request(&mut self, id: u64)
        requires
            old(self).wf(),
        ensures
            final(self).wf(),
            final(self).units@.len() == old(self).units@.len(),
            forall|i: int|
                0 <= i < final(self).units@.len() ==> {
                    let (a, b) = (old(self).units@[i], #[trigger] final(self).units@[i]);
                    &&& b.id == a.id
                    &&& b.parent == a.parent
                    &&& b.surface == a.surface
                    &&& b.shell == a.shell
                    &&& b.outputs@ == a.outputs@
                    &&& b.pending_leave == a.pending_leave
                    &&& b.close_requested == (a.close_requested && a.id != id)
                },
            final(self).outputs@ == old(self).outputs@,
            final(self).keyboard_focus == old(self).keyboard_focus,
            final(self).last_unit_index == old(self).last_unit_index,
            final(self).last_output == old(self).last_output,
    {
        self.set_close_flag(id, false);
    }

    fn set_close_flag(&mut self, id: u64, flag: bool)
        requires
            old(self).wf(),
        ensures
            final(self).wf(),
            final(self).units@.len() == old(self).units@.len(),
            forall|i: int|
                0 <= i < final(self).units@.len() ==> {
                    let (a, b) = (old(self).units@[i], #[trigger] final(self).units@[i]);
                    &&& b.id == a.id
                    &&& b.parent == a.parent
                    &&& b.surface == a.surface
                    &&& b.shell == a.shell
                    &&& b.outputs@ == a.outputs@
                    &&& b.pending_leave == a.pending_leave
                    &&& b.close_requested == (if a.id == id {
                        flag
                    } else {
                        a.close_requested
                    })
                },
            final(self).outputs@ == old(self).outputs@,
            final(self).keyboard_focus == old(self).keyboard_focus,
            final(self).last_unit_index == old(self).last_unit_index,
            final(self).last_output == old(self).last_output,
    {
        if let Some(i) = self.unit_index(id) {
            self.units[i].close_requested = flag;
            proof {
                assert forall|k: int| 0 <= k < self.units@.len() && k != i implies old(
                    self,
                ).units@[k].id != id by {
                    if k < i {
                        assert(old(self).units@[k].id != old(self).units@[i as int].id);
                    } else {
                        assert(old(self).units@[i as int].id != old(self).units@[k].id);
                    }
                }
            }
        }
    }

    /// The ids of the units to close, in the order in which to close them:
    /// every unit that asked to be closed, each after its descendants. A
    /// close request for a unit that cannot be removed is dropped.
    pub fn close_plan(&mut self) -> (order: Vec<u64>)
        requires
            old(self).wf(),
        ensures
            final(self).wf(),
            final(self).units@.len() == old(self).units@.len(),
            forall|i: int|
                0 <= i < final(self).units@.len() ==> {
                    let (a, b) = (old(self).units@[i], #[trigger] final(self).units@[i]);
                    &&& b.id == a.id
                    &&& b.parent == a.parent
                    &&& b.surface == a.surface
                    &&& b.shell == a.shell
                    &&& b.outputs@ == a.outputs@
                    &&& b.pending_leave == a.pending_leave
                    &&& b.close_requested == a.close_requested
                },
            final(self).outputs@ == old(self).outputs@,
            final(self).keyboard_focus == old(self).keyboard_focus,
            final(self).last_unit_index == old(self).last_unit_index,
            final(self).last_output == old(self).last_output,
            order@ == close_order(old(self).units@, requested_ids(old(self).units@)),
            exists|roots: Seq<u64>|
                {
                    &&& collected_all(old(self).units@, order@, roots)
                    &&& forall|r: u64|
                        #[trigger] roots.contains(r) <==> exists|i: int|
                            0 <= i < old(self).units@.len() && old(self).units@[i].close_requested
                                && old(self).units@[i].id == r
                },
    {
        let ghost outputs0 = self.outputs@;
        let ghost focus0 = self.keyboard_focus;
        let ghost start = self.units@;
        let mut requested: Vec<u64> = Vec::new();
        let mut i: usize = 0;
        while i < self.units.len()
            invariant
                0 <= i <= self.units@.len(),
                self.units@ == start,
                self.outputs@ == outputs0,
                self.keyboard_focus == focus0,
                self.last_unit_index == old(self).last_unit_index,
                self.last_output == old(self).last_output,
                forall|r: u64|
                    #[trigger] requested@.contains(r) <==> exists|j: int|
                        0 <= j < i && self.units@[j].close_requested && self.units@[j].id == r,
                requested@ == requested_ids(self.units@.take(i as int)),
            decreases self.units@.len() - i,
        {
            proof {
                assert(self.units@.take(i as int + 1).drop_last() =~= self.units@.take(i as int));
            }
            if self.units[i].close_requested {
                let ghost before = requested@;
                requested.push(self.units[i].id);
                proof {
                    assert forall|r: u64| #[trigger] requested@.contains(r) <==> exists|j: int|
                        0 <= j < i + 1 && self.units@[j].close_requested && self.units@[j].id
                            == r by {
                        if requested@.contains(r) {
                            let p = choose|p: int| 0 <= p < requested@.len() && requested@[p] == r;
                            if p < before.len() {
                                assert(before[p] == r);
                                assert(before.contains(r));
                            }
                        }
                        if exists|j: int|
                            0 <= j < i + 1 && self.units@[j].close_requested && self.units@[j].id
                                == r {
                            let j = choose|j: int|
                                0 <= j < i + 1 && self.units@[j].close_requested
                                    && self.units@[j].id == r;
                            if j < i {
                                assert(before.contains(r));
                                let p = choose|p: int| 0 <= p < before.len() && before[p] == r;
                                assert(requested@[p] == r);
                            } else {
                                assert(requested@[before.len() as int] == r);
                            }
                        }
                    }
                }
            }
            i += 1;
        }
        proof {
            assert(self.units@.take(self.units@.len() as int) =~= self.units@);
        }
        let ghost units0 = self.units@;
        let mut order: Vec<u64> = Vec::new();
        let ghost mut roots: Seq<u64> = Seq::empty();
        proof {
            reveal(fresh_distinct);
            reveal(children_first);
        }
        let mut k: usize = 0;
        while k < requested.len()
            invariant
                0 <= k <= requested@.len(),
                self.wf(),
                self.units@ == units0,
                self.outputs@ == outputs0,
                self.keyboard_focus == focus0,
                self.last_unit_index == old(self).last_unit_index,
                self.last_output == old(self).last_output,
                forall|r: u64| #[trigger] requested@.contains(r) ==> exists|j: int|
                    0 <= j < units0.len() && units0[j].close_requested && units0[j].id == r,
                collected_all(units0, order@, roots),
                requested@ == requested_ids(units0),
                order@ == close_order(units0, requested@.take(k as int)),
                forall|r: u64| #[trigger] roots.contains(r) ==> requested@.contains(r),
                forall|p: int| 0 <= p < k ==> roots.contains(#[trigger] requested@[p]),
            decreases requested@.len() - k,
        {
            let id = requested[k];
            proof {
                assert(requested@.take(k as int + 1).drop_last() =~= requested@.take(k as int));
            }
            if self.can_remove_shell(id) {
                let ghost mid = order@;
                self.collect_descendants_then_self(id, &mut order);
                proof {
                    lemma_collected_all_step(units0, mid, order@, roots, id);
                    let roots2 = roots.push(id);
                    assert forall|r: u64| #[trigger] roots2.contains(r) implies requested@.contains(
                        r,
                    ) by {
                        let p = choose|p: int| 0 <= p < roots2.len() && roots2[p] == r;
                        if p < roots.len() {
                            assert(roots[p] == r);
                            assert(roots.contains(r));
                        } else {
                            assert(requested@[k as int] == r);
                        }
                    }
                    assert forall|p: int| 0 <= p < k + 1 implies roots2.contains(
                        #[trigger] requested@[p],
                    ) by {
                        if p < k {
                            assert(roots.contains(requested@[p]));
                            let q = choose|q: int| 0 <= q < roots.len() && roots[q] == requested@[p];
                            assert(roots2[q] == requested@[p]);
                        } else {
                            assert(roots2[roots.len() as int] == requested@[p]);
                        }
                    }
                    roots = roots2;
                }
            } else {
                proof {
                    assert(requested@.contains(id)) by {
                        assert(requested@[k as int] == id);
                    }
                    assert(false);
                }
                self.clear_close_request(id);
            }
            k += 1;
        }
        proof {
            assert(requested@.take(requested@.len() as int) =~= requested@);
            assert forall|r: u64| #[trigger] roots.contains(r) <==> exists|i: int|
                0 <= i < units0.len() && units0[i].close_requested && units0[i].id == r by {
                if exists|i: int|
                    0 <= i < units0.len() && units0[i].close_requested && units0[i].id == r {
                    assert(requested@.contains(r));
                    let p = choose|p: int| 0 <= p < requested@.len() && requested@[p] == r;
                    assert(roots.contains(requested@[p]));
                }
            }
        }
        order
    }

    /// Removes the unit named `id`; keyboard focus on its surface is dropped.
    /// `None` when there is no such unit.
    pub fn remove_shell(&mut self, id: u64) -> (r: Option<()>)
        requires
            old(self).wf(),
        ensures
            final(self).wf(),
            r is None <==> forall|i: int|
                0 <= i < old(self).units@.len() ==> old(self).units@[i].id != id,
            r is None ==> final(self).units@ == old(self).units@ && final(self).keyboard_focus
                == old(self).keyboard_focus,
            r is Some ==> exists|i: int|
                0 <= i < old(self).units@.len() && old(self).units@[i].id == id
                    && final(self).units@ == old(self).units@.remove(i) && final(self).keyboard_focus
                    == (if old(self).keyboard_focus == Some(old(self).units@[i].surface) {
                    None
                } else {
                    old(self).keyboard_focus
                }),
            final(self).outputs@ == old(self).outputs@,
            final(self).last_unit_index == old(self).last_unit_index,
            final(self).last_output == old(self).last_output,
    {
        let index = match self.unit_index(id) {
            Some(index) => index,
            None => return None,
        };
        if self.keyboard_focus == Some(self.units[index].surface) {
            self.keyboard_focus = None;
        }
        let ghost before = self.units@;
        self.units.remove(index);
        proof {
            lemma_wf_remove(before, index as int);
        }
        Some(())
    }

    /// The id of the unit whose surface has keyboard focus.
    pub fn keyboard_focus_id(&self) -> (r: Option<u64>)
        requires
            self.wf(),
        ensures
            r == match self.keyboard_focus {
                Some(surface) => surface_owner(self.units@, surface),
                None => None,
            },
    {
        match self.keyboard_focus {
            Some(surface) => self.get_id_from_surface(surface),
            None => None,
        }
    }

    /// The id of the first unit whose surface is `surface`.
    pub fn get_id_from_surface(&self, surface: u64) -> (r: Option<u64>)
        requires
            self.wf(),
        ensures
            r == surface_owner(self.units@, surface),
    {
        let mut i: usize = 0;
        while i < self.units.len()
            invariant
                0 <= i <= self.units@.len(),
                forall|j: int| 0 <= j < i ==> self.units@[j].surface != surface,
            decreases self.units@.len() - i,
        {
            if self.units[i].surface == surface {
                proof {
                    let k = choose|k: int|
                        0 <= k < self.units@.len() && self.units@[k].surface == surface && forall|
                            j: int,
                        | 0 <= j < k ==> self.units@[j].surface != surface;
                    if k < i {
                    } else if k > i {
                        assert(self.units@[i as int].surface == surface);
                    }
                }
                return Some(self.units[i].id);
            }
            i += 1;
        }
        None
    }

    /// Collects the id `id` after the ids of its descendants, deepest first,
    /// into `order`, skipping what `order` already holds. This is the order
    /// in which a unit and the popups opened on it are closed.
    pub fn collect_descendants_then_self(&self, id: u64, order: &mut Vec<u64>)
        requires
            self.wf(),
        ensures
            old(order)@.contains(id) ==> final(order)@ == old(order)@,
            !old(order)@.contains(id) ==> collected(self.units@, old(order)@, final(order)@, id),
            final(order)@.contains(id),
            final(order)@ == dfs_id(self.units@, id, old(order)@),
    {
        if contains_id(order, id) {
            return;
        }
        let ghost o = order@;
        collect_children(&self.units, id, 0, order);
        proof {
            lemma_finish_root(self.units@, o, order@, id);
        }
        order.push(id);
        proof {
            assert(order@[order@.len() - 1] == id);
        }
    }
}

proof fn lemma_collected_all_step(units: Seq<UnitRecord>, mid: Seq<u64>, n: Seq<u64>, roots: Seq<u64>, r: u64)
    requires
        collected_all(units, mid, roots),
        mid.contains(r) ==> n == mid,
        !mid.contains(r) ==> collected(units, mid, n, r),
        n.contains(r),
    ensures
        collected_all(units, n, roots.push(r)),
{
    let e = Seq::<u64>::empty();
    let roots2 = roots.push(r);
    assert forall|x: u64| #[trigger] roots.contains(x) implies roots2.contains(x) by {
        let p = choose|p: int| 0 <= p < roots.len() && roots[p] == x;
        assert(roots2[p] == x);
    }
    assert(roots2.contains(r)) by {
        assert(roots2[roots.len() as int] == r);
    }
    if mid.contains(r) {
        assert forall|x: u64| #[trigger] roots2.contains(x) implies n.contains(x) by {
            let p = choose|p: int| 0 <= p < roots2.len() && roots2[p] == x;
            if p < roots.len() {
                assert(roots[p] == x);
                assert(roots.contains(x));
            }
        }
        assert forall|k: int|
            #![trigger n[k]]
            0 <= k < n.len() && !roots2.contains(n[k]) implies exists|j: int, k3: int|
            #![trigger units[j], n[k3]]
            0 <= j < units.len() && units[j].id == n[k] && k < k3 < n.len() && units[j].parent
                == Some(n[k3]) by {
            assert(!roots.contains(n[k]));
        }
        return;
    }
    assert(extends(e, mid)) by {
        assert(mid.take(0) =~= e);
    }
    lemma_extends_trans(e, mid, n);
    lemma_fresh_compose(e, mid, n);
    lemma_children_compose(units, e, mid, n);
    assert forall|x: u64| #[trigger] roots2.contains(x) implies n.contains(x) by {
        let p = choose|p: int| 0 <= p < roots2.len() && roots2[p] == x;
        if p < roots.len() {
            assert(roots[p] == x);
            assert(roots.contains(x));
            let q = choose|q: int| 0 <= q < mid.len() && mid[q] == x;
            assert(n[q] == x);
        }
    }
    reveal(parents_later);
    assert forall|k: int|
        #![trigger n[k]]
        0 <= k < n.len() && !roots2.contains(n[k]) implies exists|j: int, k3: int|
        #![trigger units[j], n[k3]]
        0 <= j < units.len() && units[j].id == n[k] && k < k3 < n.len() && units[j].parent == Some(
            n[k3],
        ) by {
        if k < mid.len() {
            assert(n[k] == mid[k]);
            assert(!roots.contains(mid[k]));
            let (j, k3) = choose|j: int, k3: int|
                #![trigger units[j], mid[k3]]
                0 <= j < units.len() && units[j].id == mid[k] && k < k3 < mid.len()
                    && units[j].parent == Some(mid[k3]);
            assert(n[k3] == mid[k3]);
            assert(units[j].id == n[k]);
        } else {
            assert(n[k] != r);
        }
    }
}

pub(crate) proof fn lemma_wf_remove(units: Seq<UnitRecord>, i: int)
    requires
        units_wf(units),
        0 <= i < units.len(),
    ensures
        units_wf(units.remove(i)),
{
    let r = units.remove(i);
    assert forall|a: int| 0 <= a < r.len() implies #[trigger] r[a] == units[if a < i {
        a
    } else {
        a + 1
    }] by {}
    assert forall|a: int, b: int| 0 <= a < b < r.len() implies #[trigger] r[a].id
        != #[trigger] r[b].id by {
        let a0 = if a < i {
            a
        } else {
            a + 1
        };
        let b0 = if b < i {
            b
        } else {
            b + 1
        };
        assert(r[a] == units[a0] && r[b] == units[b0]);
    }
    assert forall|a: int, b: int|
        #![trigger r[a], r[b]]
        0 <= a < r.len() && 0 <= b < r.len() && r[b].parent == Some(r[a].id) implies a < b by {
        let a0 = if a < i {
            a
        } else {
            a + 1
        };
        let b0 = if b < i {
            b
        } else {
            b + 1
        };
        assert(r[a] == units[a0] && r[b] == units[b0]);
    }
}

proof fn lemma_finish_root(units: Seq<UnitRecord>, o: Seq<u64>, m: Seq<u64>, id: u64)
    requires
        units_wf(units),
        !o.contains(id),
        collecting(units, o, m, id),
        !m.contains(id),
        forall|c: int|
            0 <= c < units.len() && #[trigger] units[c].parent == Some(id) ==> m.contains(
                units[c].id,
            ),
    ensures
        collected(units, o, m.push(id), id),
{
    let n = m.push(id);
    assert forall|k: int| 0 <= k < m.len() implies #[trigger] n[k] == m[k] by {}
    assert(n.take(o.len() as int) =~= o) by {
        assert forall|k: int| 0 <= k < o.len() implies n.take(o.len() as int)[k] == o[k] by {
            assert(m.take(o.len() as int)[k] == m[k]);
        }
    }
    assert(fresh_distinct(o, n)) by {
        reveal(fresh_distinct);
        assert forall|k1: int, k2: int| o.len() <= k1 < k2 < n.len() implies #[trigger] n[k1]
            != #[trigger] n[k2] by {
            if k2 == m.len() {
                assert(m.contains(m[k1]));
            }
        }
    }
    assert(children_first(units, o, n)) by {
        reveal(children_first);
        assert forall|k: int, c: int|
            #![trigger n[k], units[c]]
            o.len() <= k < n.len() && 0 <= c < units.len() && units[c].parent == Some(
                n[k],
            ) implies n.take(k).contains(units[c].id) by {
            if k < m.len() {
                assert(n.take(k) =~= m.take(k));
            } else {
                assert(n.take(k) =~= m);
            }
        }
    }
    assert(parents_later(units, o, n, id)) by {
        reveal(parents_later);
        reveal(parents_later_or_root);
        assert forall|k: int|
            #![trigger n[k]]
            o.len() <= k < n.len() && n[k] != id implies exists|c: int, k3: int|
            #![trigger units[c], n[k3]]
            0 <= c < units.len() && units[c].id == n[k] && k < k3 < n.len() && units[c].parent
                == Some(n[k3]) by {
            assert(k < m.len());
            let c = choose|c: int|
                #![trigger units[c]]
                0 <= c < units.len() && units[c].id == m[k] && (units[c].parent == Some(id)
                    || exists|k3: int|
                    #![trigger m[k3]]
                    k < k3 < m.len() && units[c].parent == Some(m[k3]));
            if units[c].parent == Some(id) {
                let k3 = m.len() as int;
                assert(n[k3] == id);
                assert(units[c].id == n[k]);
            } else {
                let k3 = choose|k3: int|
                    #![trigger m[k3]]
                    k < k3 < m.len() && units[c].parent == Some(m[k3]);
                assert(n[k3] == m[k3]);
                assert(units[c].id == n[k]);
            }
        }
    }
}

} // verus!
