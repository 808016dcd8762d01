//! What the registry does when units are dropped in bulk and when outputs
//! come and go.

use vstd::prelude::*;
use crate::outputs::{without, remove_all, contains_output, enter_output, leave_output, spec_enter, spec_leave};
use crate::text::str_eq;
use crate::units::{UnitRecord, WindowRegistry, WlShellType, units_wf, contains_id, lemma_wf_remove};

verus! {

/// The units whose mark is false, in order.
pub open spec fn kept_units(units: Seq<UnitRecord>, marks: Seq<bool>) -> Seq<UnitRecord>
    decreases units.len(),
{
    if units.len() == 0 {
        Seq::empty()
    } else {
        let rest = kept_units(units.drop_first(), marks.drop_first());
        if marks[0] {
            rest
        } else {
            seq![units[0]] + rest
        }
    }
}

/// The units whose mark is true, in order.
pub open spec fn dropped_units(units: Seq<UnitRecord>, marks: Seq<bool>) -> Seq<UnitRecord>
    decreases units.len(),
{
    if units.len() == 0 {
        Seq::empty()
    } else {
        let rest = dropped_units(units.drop_first(), marks.drop_first());
        if marks[0] {
            seq![units[0]] + rest
        } else {
            rest
        }
    }
}

/// The ids of `units`, in order.
pub open spec fn ids_of(units: Seq<UnitRecord>) -> Seq<u64> {
    units.map_values(|u: UnitRecord| u.id)
}

/// Marks the session-lock units.
pub open spec fn lock_marks(units: Seq<UnitRecord>) -> Seq<bool> {
    units.map_values(|u: UnitRecord| u.shell == WlShellType::SessionLock)
}

/// Keyboard focus after the units `gone` were dropped: cleared when it was
/// on one of their surfaces.
pub open spec fn focus_after(focus: Option<u64>, gone: Seq<UnitRecord>) -> Option<u64> {
    match focus {
        Some(f) => if exists|k: int| 0 <= k < gone.len() && gone[k].surface == f {
            None
        } else {
            focus
        },
        None => None,
    }
}

proof fn lemma_split_step(units: Seq<UnitRecord>, marks: Seq<bool>, i: int)
    requires
        0 <= i < units.len(),
        marks.len() == units.len(),
    ensures
        kept_units(units.skip(i), marks.skip(i)) == if marks[i] {
            kept_units(units.skip(i + 1), marks.skip(i + 1))
        } else {
            seq![units[i]] + kept_units(units.skip(i + 1), marks.skip(i + 1))
        },
        dropped_units(units.skip(i), marks.skip(i)) == if marks[i] {
            seq![units[i]] + dropped_units(units.skip(i + 1), marks.skip(i + 1))
        } else {
            dropped_units(units.skip(i + 1), marks.skip(i + 1))
        },
{
    assert(units.skip(i).drop_first() =~= units.skip(i + 1));
    assert(marks.skip(i).drop_first() =~= marks.skip(i + 1));
}

/// The first output of a list, the one a surface counts as its output.
pub open spec fn first_output(s: Seq<u32>) -> Option<u32> {
    if s.len() > 0 {
        Some(s[0])
    } else {
        None
    }
}

/// Marks the units an output's removal closes: those whose surface is
/// dead, and those shown on that output alone.
pub open spec fn destroy_marks(units: Seq<UnitRecord>, output: u32, dead: Seq<u64>) -> Seq<bool> {
    units.map_values(|u: UnitRecord| dead.contains(u.surface) || u.outputs@ == seq![output])
}

/// The `OutputChanged` notices owed when `output` leaves every unit of
/// `units`: one for each unit whose first output changes, in order.
pub open spec fn output_changes(units: Seq<UnitRecord>, output: u32) -> Seq<(u64, Option<u32>)>
    decreases units.len(),
{
    if units.len() == 0 {
        Seq::empty()
    } else {
        let u = units.last();
        let rest = output_changes(units.drop_last(), output);
        let now = first_output(without(u.outputs@, output));
        if now != first_output(u.outputs@) {
            rest.push((u.id, now))
        } else {
            rest
        }
    }
}

/// The ids of the units shown on `output`, in order.
pub open spec fn units_on(units: Seq<UnitRecord>, output: u32) -> Seq<u64>
    decreases units.len(),
{
    if units.len() == 0 {
        Seq::empty()
    } else {
        let rest = units_on(units.drop_last(), output);
        if units.last().outputs@.contains(output) {
            rest.push(units.last().id)
        } else {
            rest
        }
    }
}

/// The place of the first unit whose surface is `surface`.
pub open spec fn surface_index(units: Seq<UnitRecord>, surface: u64) -> Option<int> {
    if exists|i: int| 0 <= i < units.len() && units[i].surface == surface {
        Some(
            choose|i: int|
                0 <= i < units.len() && units[i].surface == surface && forall|j: int|
                    0 <= j < i ==> units[j].surface != surface,
        )
    } else {
        None
    }
}

/// The place of the first occurrence of `x` in `s`.
pub open spec fn position_of(s: Seq<u32>, x: u32) -> Option<int> {
    if s.contains(x) {
        Some(choose|i: int| 0 <= i < s.len() && s[i] == x && forall|j: int| 0 <= j < i ==> s[j] != x)
    } else {
        None
    }
}

/// The index of the output last used, after the unit on `surface` was
/// seen: the place among `outputs` of that unit's output, when it has one
/// that is listed; else the index stays.
pub open spec fn active_index(units: Seq<UnitRecord>, outputs: Seq<u32>, surface: u64, index: usize) -> usize {
    match surface_index(units, surface) {
        Some(i) => match first_output(units[i].outputs@) {
            Some(o) => match position_of(outputs, o) {
                Some(p) => p as usize,
                None => index,
            },
            None => index,
        },
        None => index,
    }
}

/// The outputs and held leave of unit `u` after `wl_surface.enter`
/// (`entered`) or `leave` of `output`.
#[verifier::opaque]
pub open spec fn output_step(u: UnitRecord, output: u32, entered: bool) -> (Seq<u32>, Option<u32>) {
    if entered {
        spec_enter(u.outputs@, u.pending_leave, output)
    } else {
        spec_leave(u.outputs@, u.pending_leave, u.shell == WlShellType::LayerShell, output)
    }
}

/// `b` is unit `a` after that step: only its outputs and held leave changed.
pub open spec fn stepped(a: UnitRecord, b: UnitRecord, output: u32, entered: bool) -> bool {
    &&& b.id == a.id
    &&& b.parent == a.parent
    &&& b.surface == a.surface
    &&& b.shell == a.shell
    &&& b.close_requested == a.close_requested
    &&& (b.outputs@, b.pending_leave) == output_step(a, output, entered)
}

/// Where a new surface goes.
#[derive(Debug, Clone, PartialEq, Eq)]
pub enum OutputOption {
    /// the output used last
    LastOutput,
    /// the output with this connector name (`HDMI-A-1` and such)
    OutputName(String),
    /// the output with this `wl_registry` global name
    GlobalName(u32),
    /// this output, named by its global name
    Output(u32),
    /// let the compositor decide
    Active,
}

impl Default for OutputOption {
    fn default() -> (r: Self)
        ensures
            r == OutputOption::Active,
    {
        OutputOption::Active
    }
}

/// What the registry needs of an output's description.
#[derive(Debug, Clone)]
pub struct OutputLabel {
    /// the `wl_registry` global name
    pub global: u32,
    /// the connector name, once the compositor told it
    pub name: Option<String>,
}

/// The place of the first output labelled with global name `global`.
pub open spec fn global_index(infos: Seq<OutputLabel>, global: u32) -> Option<int> {
    if exists|i: int| 0 <= i < infos.len() && infos[i].global == global {
        Some(
            choose|i: int|
                0 <= i < infos.len() && infos[i].global == global && forall|j: int|
                    0 <= j < i ==> infos[j].global != global,
        )
    } else {
        None
    }
}

/// Whether output label `info` carries the connector name `name`.
pub open spec fn named(info: OutputLabel, name: Seq<char>) -> bool {
    info.name matches Some(n) && n@ == name
}

/// The place of the first output labelled with connector name `name`.
pub open spec fn name_index(infos: Seq<OutputLabel>, name: Seq<char>) -> Option<int> {
    if exists|i: int| 0 <= i < infos.len() && named(infos[i], name) {
        Some(
            choose|i: int|
                0 <= i < infos.len() && named(infos[i], name) && forall|j: int|
                    0 <= j < i ==> !named(infos[j], name),
        )
    } else {
        None
    }
}

/// What an output's removal did to the units.
#[derive(Debug)]
pub struct OutputRemoval {
    /// the units closed with the output, in order
    pub closed: Vec<u64>,
    /// each unit whose output changed, with its new output
    pub changed: Vec<(u64, Option<u32>)>,
}

/// Two unit lists with the same ids and parents at each place are both
/// well formed or both not.
proof fn lemma_wf_same_links(a: Seq<UnitRecord>, b: Seq<UnitRecord>)
    requires
        units_wf(a),
        a.len() == b.len(),
        forall|k: int| 0 <= k < a.len() ==> #[trigger] b[k].id == a[k].id && b[k].parent == a[k].parent,
    ensures
        units_wf(b),
{
    assert forall|i: int, j: int| 0 <= i < j < b.len() implies #[trigger] b[i].id != #[trigger] b[j].id by {
        assert(b[i].id == a[i].id && b[j].id == a[j].id);
        assert(a[i].id != a[j].id);
    }
    assert forall|i: int, j: int|
        #![trigger b[i], b[j]]
        0 <= i < b.len() && 0 <= j < b.len() && b[j].parent == Some(b[i].id) implies i < j by {
        assert(b[i].id == a[i].id);
        assert(b[j].id == a[j].id);
    }
}

/// Appending a unit with a new id, whose id no unit names as its parent,
/// keeps the list well formed.
proof fn lemma_wf_push(units: Seq<UnitRecord>, unit: UnitRecord)
    requires
        units_wf(units),
        unit.parent != Some(unit.id),
        forall|i: int|
            0 <= i < units.len() ==> #[trigger] units[i].id != unit.id && units[i].parent != Some(
                unit.id,
            ),
    ensures
        units_wf(units.push(unit)),
{
    let after = units.push(unit);
    assert forall|i: int, j: int| 0 <= i < j < after.len() implies #[trigger] after[i].id
        != #[trigger] after[j].id by {
        assert(after[i] == units[i]);
        if j == units.len() {
            assert(units[i].id != unit.id);
        } else {
            assert(after[j] == units[j]);
        }
    }
    assert forall|i: int, j: int|
        #![trigger after[i], after[j]]
        0 <= i < after.len() && 0 <= j < after.len() && after[j].parent == Some(after[i].id) implies i
        < j by {
        if j < units.len() {
            assert(after[j] == units[j]);
            if i == units.len() {
                assert(units[j].id != unit.id);
                assert(units[j].parent != Some(unit.id));
            } else {
                assert(after[i] == units[i]);
            }
        }
    }
}

/// Applies `wl_surface.enter` (`entered`) or `leave` of `output` to a unit.
fn step_unit_outputs(unit: &mut UnitRecord, output: u32, entered: bool)
    ensures
        stepped(*old(unit), *final(unit), output, entered),
{
    reveal(output_step);
    let pinned = unit.shell == WlShellType::LayerShell;
    if entered {
        enter_output(&mut unit.outputs, &mut unit.pending_leave, output);
    } else {
        leave_output(&mut unit.outputs, &mut unit.pending_leave, pinned, output);
    }
}

impl WindowRegistry {
    /// Drops the units whose mark is set, keeping the others in order, and
    /// hands the dropped ones back in order.
    fn extract_marked(&mut self, marks: &Vec<bool>) -> (removed: Vec<UnitRecord>)
        requires
            old(self).wf(),
            marks@.len() == old(self).units@.len(),
        ensures
            final(self).wf(),
            final(self).units@ == kept_units(old(self).units@, marks@),
            removed@ == dropped_units(old(self).units@, marks@),
            final(self).outputs@ == old(self).outputs@,
            final(self).keyboard_focus == old(self).keyboard_focus,
            final(self).last_unit_index == old(self).last_unit_index,
            final(self).last_output == old(self).last_output,
    {
        let ghost u0 = self.units@;
        let mut removed: Vec<UnitRecord> = Vec::new();
        let mut i: usize = self.units.len();
        proof {
            assert(u0.skip(u0.len() as int) =~= Seq::<UnitRecord>::empty());
            assert(marks@.skip(u0.len() as int) =~= Seq::<bool>::empty());
            assert(u0.take(u0.len() as int) =~= u0);
            assert(u0 =~= u0.take(u0.len() as int) + kept_units(
                u0.skip(u0.len() as int),
                marks@.skip(u0.len() as int),
            ));
        }
        while i > 0
            invariant
                i <= u0.len(),
                marks@.len() == u0.len(),
                units_wf(self.units@),
                self.units@ == u0.take(i as int) + kept_units(u0.skip(i as int), marks@.skip(i as int)),
                removed@ == dropped_units(u0.skip(i as int), marks@.skip(i as int)),
                self.outputs@ == old(self).outputs@,
                self.keyboard_focus == old(self).keyboard_focus,
                self.last_unit_index == old(self).last_unit_index,
                self.last_output == old(self).last_output,
            decreases i,
        {
            i -= 1;
            proof {
                lemma_split_step(u0, marks@, i as int);
            }
            if marks[i] {
                let ghost before = self.units@;
                assert(before[i as int] == u0[i as int]);
                let r = self.units.remove(i);
                proof {
                    lemma_wf_remove(before, i as int);
                    assert(self.units@ =~= u0.take(i as int) + kept_units(
                        u0.skip(i as int),
                        marks@.skip(i as int),
                    ));
                }
                removed.insert(0, r);
                proof {
                    assert(removed@ =~= dropped_units(u0.skip(i as int), marks@.skip(i as int)));
                }
            } else {
                proof {
                    assert(u0.take(i as int + 1) =~= u0.take(i as int).push(u0[i as int]));
                    assert(self.units@ =~= u0.take(i as int) + kept_units(
                        u0.skip(i as int),
                        marks@.skip(i as int),
                    ));
                }
            }
        }
        proof {
            assert(u0.skip(0) =~= u0);
            assert(marks@.skip(0) =~= marks@);
            assert(self.units@ =~= kept_units(u0, marks@));
        }
        removed
    }

    /// The ids of `units`, and the keyboard focus with those units gone.
    fn forget_units(&mut self, units: &Vec<UnitRecord>) -> (ids: Vec<u64>)
        ensures
            ids@ == ids_of(units@),
            final(self).keyboard_focus == focus_after(old(self).keyboard_focus, units@),
            final(self).units@ == old(self).units@,
            final(self).outputs@ == old(self).outputs@,
            final(self).last_unit_index == old(self).last_unit_index,
            final(self).last_output == old(self).last_output,
    {
        let mut ids: Vec<u64> = Vec::new();
        let mut hit = false;
        let mut k: usize = 0;
        while k < units.len()
            invariant
                0 <= k <= units@.len(),
                ids@ == ids_of(units@.take(k as int)),
                hit == (self.keyboard_focus matches Some(f) && exists|j: int|
                    0 <= j < k && units@[j].surface == f),
                self.units@ == old(self).units@,
                self.outputs@ == old(self).outputs@,
                self.keyboard_focus == old(self).keyboard_focus,
                self.last_unit_index == old(self).last_unit_index,
                self.last_output == old(self).last_output,
            decreases units@.len() - k,
        {
            if self.keyboard_focus == Some(units[k].surface) {
                hit = true;
            }
            ids.push(units[k].id);
            proof {
                assert(ids_of(units@.take(k as int + 1)) =~= ids_of(units@.take(k as int)).push(
                    units@[k as int].id,
                ));
            }
            k += 1;
        }
        proof {
            assert(units@.take(units@.len() as int) =~= units@);
        }
        if hit {
            self.keyboard_focus = None;
        }
        ids
    }

    /// Drops every session-lock unit, as when the lock ends. Returns the ids
    /// of the dropped units, in order; keyboard focus on one of their
    /// surfaces is cleared.
    pub fn remove_lock_units(&mut self) -> (closed: Vec<u64>)
        requires
            old(self).wf(),
        ensures
            final(self).wf(),
            final(self).units@ == kept_units(old(self).units@, lock_marks(old(self).units@)),
            closed@ == ids_of(dropped_units(old(self).units@, lock_marks(old(self).units@))),
            final(self).keyboard_focus == focus_after(
                old(self).keyboard_focus,
                dropped_units(old(self).units@, lock_marks(old(self).units@)),
            ),
            final(self).outputs@ == old(self).outputs@,
            final(self).last_unit_index == old(self).last_unit_index,
            final(self).last_output == old(self).last_output,
    {
        let mut marks: Vec<bool> = Vec::new();
        let mut i: usize = 0;
        while i < self.units.len()
            invariant
                0 <= i <= self.units@.len(),
                marks@ == lock_marks(self.units@.take(i as int)),
            decreases self.units@.len() - i,
        {
            marks.push(self.units[i].shell == WlShellType::SessionLock);
            proof {
                assert(lock_marks(self.units@.take(i as int + 1)) =~= lock_marks(
                    self.units@.take(i as int),
                ).push(self.units@[i as int].shell == WlShellType::SessionLock));
            }
            i += 1;
        }
        proof {
            assert(self.units@.take(self.units@.len() as int) =~= self.units@);
        }
        let removed = self.extract_marked(&marks);
        self.forget_units(&removed)
    }

    /// The place of the first unit whose surface is `surface`.
    fn find_surface(&self, surface: u64) -> (r: Option<usize>)
        ensures
            r matches Some(i) ==> i < self.units@.len() && surface_index(self.units@, surface) == Some(
                i as int,
            ),
            r is None ==> surface_index(self.units@, surface) is None,
    {
        let mut i: usize = 0;
        while i < self.units.len()
            invariant
                0 <= i <= self.units@.len(),
                forall|j: int| 0 <= j < i ==> self.units@[j].surface != surface,
            decreases self.units@.len() - i,
        {
            if self.units[i].surface == surface {
                proof {
                    let k = choose|k: int|
                        0 <= k < self.units@.len() && self.units@[k].surface == surface && forall|
                            j: int,
                        | 0 <= j < k ==> self.units@[j].surface != surface;
                    if k < i {
                    } else if k > i {
                        assert(self.units@[i as int].surface == surface);
                    }
                }
                return Some(i);
            }
            i += 1;
        }
        None
    }

    /// Remembers, for `OutputOption::LastOutput`, the output that the unit
    /// on `surface` shows on.
    pub fn update_active_output(&mut self, surface: u64)
        ensures
            final(self).last_unit_index == active_index(
                old(self).units@,
                old(self).outputs@,
                surface,
                old(self).last_unit_index,
            ),
            final(self).units@ == old(self).units@,
            final(self).outputs@ == old(self).outputs@,
            final(self).keyboard_focus == old(self).keyboard_focus,
            final(self).last_output == old(self).last_output,
    {
        let i = match self.find_surface(surface) {
            Some(i) => i,
            None => return,
        };
        if self.units[i].outputs.len() == 0 {
            return;
        }
        let o = self.units[i].outputs[0];
        let mut p: usize = 0;
        while p < self.outputs.len()
            invariant
                0 <= p <= self.outputs@.len(),
                forall|j: int| 0 <= j < p ==> self.outputs@[j] != o,
                i < self.units@.len(),
                surface_index(self.units@, surface) == Some(i as int),
                first_output(self.units@[i as int].outputs@) == Some(o),
                self.units@ == old(self).units@,
                self.outputs@ == old(self).outputs@,
                self.keyboard_focus == old(self).keyboard_focus,
                self.last_output == old(self).last_output,
                self.last_unit_index == old(self).last_unit_index,
            decreases self.outputs@.len() - p,
        {
            if self.outputs[p] == o {
                proof {
                    assert(self.outputs@.contains(o));
                    assert(0 <= p < self.outputs@.len() && self.outputs@[p as int] == o && forall|
                        j: int,
                    | 0 <= j < p ==> self.outputs@[j] != o);
                    let k = choose|k: int|
                        0 <= k < self.outputs@.len() && self.outputs@[k] == o && forall|j: int|
                            0 <= j < k ==> self.outputs@[j] != o;
                    if k < p {
                    } else if k > p {
                        assert(self.outputs@[p as int] == o);
                    }
                }
                self.last_unit_index = p;
                return;
            }
            p += 1;
        }
    }

    /// Adds a unit, and remembers its output for `OutputOption::LastOutput`.
    /// Ids are handed out once each, so the new unit's id is new and no unit
    /// names it as its parent.
    pub fn push_window(&mut self, unit: UnitRecord)
        requires
            old(self).wf(),
            unit.parent != Some(unit.id),
            forall|i: int|
                0 <= i < old(self).units@.len() ==> #[trigger] old(self).units@[i].id != unit.id
                    && old(self).units@[i].parent != Some(unit.id),
        ensures
            final(self).wf(),
            final(self).units@ == old(self).units@.push(unit),
            final(self).last_unit_index == active_index(
                old(self).units@.push(unit),
                old(self).outputs@,
                unit.surface,
                old(self).last_unit_index,
            ),
            final(self).outputs@ == old(self).outputs@,
            final(self).keyboard_focus == old(self).keyboard_focus,
            final(self).last_output == old(self).last_output,
    {
        let surface = unit.surface;
        let ghost before = self.units@;
        self.units.push(unit);
        proof {
            lemma_wf_push(before, unit);
        }
        self.update_active_output(surface);
    }

    /// Forgets the remembered last output; the next `LastOutput` takes the
    /// output of the surface that was active last.
    pub fn forget_last_output(&mut self)
        ensures
            final(self).last_output is None,
            final(self).units@ == old(self).units@,
            final(self).outputs@ == old(self).outputs@,
            final(self).keyboard_focus == old(self).keyboard_focus,
            final(self).last_unit_index == old(self).last_unit_index,
    {
        self.last_output = None;
    }

    /// The output for `OutputOption::LastOutput`: the remembered one, else
    /// the one the active surface used last (remembered from now on), else
    /// the first output.
    pub fn last_output(&mut self) -> (r: Option<u32>)
        ensures
            final(self).last_output == (if old(self).last_output is None {
                if old(self).last_unit_index < old(self).outputs@.len() {
                    Some(old(self).outputs@[old(self).last_unit_index as int])
                } else {
                    None
                }
            } else {
                old(self).last_output
            }),
            r == (if final(self).last_output is Some {
                final(self).last_output
            } else {
                first_output(old(self).outputs@)
            }),
            final(self).units@ == old(self).units@,
            final(self).outputs@ == old(self).outputs@,
            final(self).keyboard_focus == old(self).keyboard_focus,
            final(self).last_unit_index == old(self).last_unit_index,
    {
        if self.last_output.is_none() {
            self.last_output = if self.last_unit_index < self.outputs.len() {
                Some(self.outputs[self.last_unit_index])
            } else {
                None
            };
        }
        match self.last_output {
            Some(o) => Some(o),
            None => if self.outputs.len() > 0 {
                Some(self.outputs[0])
            } else {
                None
            },
        }
    }

    /// A new `wl_output` was bound.
    pub fn new_output(&mut self, output: u32)
        ensures
            final(self).outputs@ == old(self).outputs@.push(output),
            final(self).units@ == old(self).units@,
            final(self).keyboard_focus == old(self).keyboard_focus,
            final(self).last_unit_index == old(self).last_unit_index,
            final(self).last_output == old(self).last_output,
    {
        self.outputs.push(output);
    }

    /// `wl_surface.enter` (`entered`) or `leave` of `output` on `surface`.
    /// An output the loop did not bind, or a surface of no unit, is
    /// ignored. A layer surface keeps its last output (see
    /// [`leave_output`]). Returns the unit and its new output when its
    /// output changed: an `OutputChanged` notice is owed then.
    pub fn surface_output_event(&mut self, surface: u64, output: u32, entered: bool) -> (r: Option<(u64, Option<u32>)>)
        requires
            old(self).wf(),
        ensures
            final(self).wf(),
            final(self).outputs@ == old(self).outputs@,
            final(self).keyboard_focus == old(self).keyboard_focus,
            final(self).last_unit_index == old(self).last_unit_index,
            final(self).last_output == old(self).last_output,
            match (old(self).outputs@.contains(output), surface_index(old(self).units@, surface)) {
                (true, Some(i)) => {
                    let a = old(self).units@[i];
                    let b = final(self).units@[i];
                    &&& final(self).units@ == old(self).units@.update(i, b)
                    &&& stepped(a, b, output, entered)
                    &&& r == if first_output(b.outputs@) != first_output(a.outputs@) {
                        Some((a.id, first_output(b.outputs@)))
                    } else {
                        None
                    }
                },
                _ => final(self).units@ == old(self).units@ && r is None,
            },
    {
        if !contains_output(&self.outputs, output) {
            return None;
        }
        let i = match self.find_surface(surface) {
            Some(i) => i,
            None => return None,
        };
        let ghost before = self.units@;
        let previous = if self.units[i].outputs.len() > 0 {
            Some(self.units[i].outputs[0])
        } else {
            None
        };
        step_unit_outputs(&mut self.units[i], output, entered);
        let now = if self.units[i].outputs.len() > 0 {
            Some(self.units[i].outputs[0])
        } else {
            None
        };
        let id = self.units[i].id;
        proof {
            assert(self.units@ =~= before.update(i as int, self.units@[i as int]));
            lemma_wf_same_links(before, self.units@);
        }
        if now != previous {
            Some((id, now))
        } else {
            None
        }
    }

    /// The output whose `wl_registry` global name is `name`, among the
    /// outputs described by `infos`.
    pub fn output_by_global_name(&self, infos: &Vec<OutputLabel>, name: u32) -> (r: Option<u32>)
        ensures
            r == match global_index(infos@, name) {
                Some(i) => Some(infos@[i].global),
                None => None,
            },
    {
        let mut i: usize = 0;
        while i < infos.len()
            invariant
                0 <= i <= infos@.len(),
                forall|j: int| 0 <= j < i ==> infos@[j].global != name,
            decreases infos@.len() - i,
        {
            if infos[i].global == name {
                proof {
                    assert(0 <= i < infos@.len() && infos@[i as int].global == name && forall|j: int|
                        0 <= j < i ==> infos@[j].global != name);
                    let k = choose|k: int|
                        0 <= k < infos@.len() && infos@[k].global == name && forall|j: int|
                            0 <= j < k ==> infos@[j].global != name;
                    if k < i {
                    } else if k > i {
                        assert(infos@[i as int].global == name);
                    }
                }
                return Some(infos[i].global);
            }
            i += 1;
        }
        None
    }

    /// The output whose connector name is `name` (`HDMI-A-1` and such),
    /// among the outputs described by `infos`.
    pub fn output_by_name(&self, infos: &Vec<OutputLabel>, name: &str) -> (r: Option<u32>)
        ensures
            r == match name_index(infos@, name@) {
                Some(i) => Some(infos@[i].global),
                None => None,
            },
    {
        let mut i: usize = 0;
        while i < infos.len()
            invariant
                0 <= i <= infos@.len(),
                forall|j: int| 0 <= j < i ==> !named(#[trigger] infos@[j], name@),
            decreases infos@.len() - i,
        {
            let hit = match &infos[i].name {
                Some(n) => str_eq(n.as_str(), name),
                None => false,
            };
            if hit {
                proof {
                    assert(named(infos@[i as int], name@));
                    assert(0 <= i < infos@.len() && named(infos@[i as int], name@) && forall|j: int|
                        0 <= j < i ==> !named(infos@[j], name@));
                    let k = choose|k: int|
                        0 <= k < infos@.len() && named(infos@[k], name@) && forall|j: int|
                            0 <= j < k ==> !named(infos@[j], name@);
                    if k < i {
                        assert(!named(infos@[k], name@));
                    } else if k > i {
                        assert(named(infos@[i as int], name@));
                    }
                }
                return Some(infos[i].global);
            }
            i += 1;
        }
        None
    }

    /// The output a new surface asks for, `None` to let the compositor
    /// choose: the named output, the last one, or none. A name that no
    /// connected output has lets the compositor choose too.
    pub fn resolve_output(&mut self, option: OutputOption, infos: &Vec<OutputLabel>) -> (r: Option<u32>)
        ensures
            match option {
                OutputOption::Output(o) => r == Some(o) && *final(self) == *old(self),
                OutputOption::Active => r is None && *final(self) == *old(self),
                OutputOption::GlobalName(n) => *final(self) == *old(self) && r == match global_index(
                    infos@,
                    n,
                ) {
                    Some(i) => Some(infos@[i].global),
                    None => None,
                },
                OutputOption::OutputName(n) => *final(self) == *old(self) && r == match name_index(
                    infos@,
                    n@,
                ) {
                    Some(i) => Some(infos@[i].global),
                    None => None,
                },
                OutputOption::LastOutput => {
                    &&& final(self).last_output == (if old(self).last_output is None {
                        if old(self).last_unit_index < old(self).outputs@.len() {
                            Some(old(self).outputs@[old(self).last_unit_index as int])
                        } else {
                            None
                        }
                    } else {
                        old(self).last_output
                    })
                    &&& r == (if final(self).last_output is Some {
                        final(self).last_output
                    } else {
                        first_output(old(self).outputs@)
                    })
                    &&& final(self).units@ == old(self).units@
                    &&& final(self).outputs@ == old(self).outputs@
                    &&& final(self).keyboard_focus == old(self).keyboard_focus
                    &&& final(self).last_unit_index == old(self).last_unit_index
                },
            },
    {
        match option {
            OutputOption::Output(o) => Some(o),
            OutputOption::Active => None,
            OutputOption::LastOutput => self.last_output(),
            OutputOption::GlobalName(n) => self.output_by_global_name(infos, n),
            OutputOption::OutputName(n) => self.output_by_name(infos, n.as_str()),
        }
    }

    /// The ids of the units shown on `output`, in order: those owed an
    /// `OutputChanged` notice when the output's properties change.
    pub fn units_on_output(&self, output: u32) -> (ids: Vec<u64>)
        ensures
            ids@ == units_on(self.units@, output),
    {
        let mut ids: Vec<u64> = Vec::new();
        let mut i: usize = 0;
        while i < self.units.len()
            invariant
                0 <= i <= self.units@.len(),
                ids@ == units_on(self.units@.take(i as int), output),
            decreases self.units@.len() - i,
        {
            proof {
                assert(self.units@.take(i as int + 1).drop_last() =~= self.units@.take(i as int));
            }
            if crate::outputs::contains_output(&self.units[i].outputs, output) {
                ids.push(self.units[i].id);
            }
            i += 1;
        }
        proof {
            assert(self.units@.take(self.units@.len() as int) =~= self.units@);
        }
        ids
    }

    /// `wl_output` gone: the output is forgotten, the units whose surface
    /// is dead or that showed on it alone are closed, and every other unit
    /// no longer lists it. `dead_surfaces` names the surfaces that are no
    /// longer alive; `last_output_alive` says whether the remembered last
    /// output still is.
    pub fn output_destroyed(&mut self, output: u32, last_output_alive: bool, dead_surfaces: &Vec<u64>) -> (r: OutputRemoval)
        requires
            old(self).wf(),
        ensures
            ({
                let marks = destroy_marks(old(self).units@, output, dead_surfaces@);
                let kept = kept_units(old(self).units@, marks);
                let gone = dropped_units(old(self).units@, marks);
                &&& final(self).wf()
                &&& final(self).units@.len() == kept.len()
                &&& forall|k: int|
                    0 <= k < kept.len() ==> {
                        let (a, b) = (kept[k], #[trigger] final(self).units@[k]);
                        &&& b.id == a.id
                        &&& b.parent == a.parent
                        &&& b.surface == a.surface
                        &&& b.shell == a.shell
                        &&& b.close_requested == a.close_requested
                        &&& b.pending_leave == a.pending_leave
                        &&& b.outputs@ == without(a.outputs@, output)
                    }
                &&& r.closed@ == ids_of(gone)
                &&& r.changed@ == output_changes(kept, output)
                &&& final(self).keyboard_focus == focus_after(old(self).keyboard_focus, gone)
            }),
            final(self).outputs@ == without(old(self).outputs@, output),
            final(self).last_output == (if last_output_alive {
                old(self).last_output
            } else {
                None
            }),
            final(self).last_unit_index == old(self).last_unit_index,
    {
        if !last_output_alive {
            self.last_output = None;
        }
        remove_all(&mut self.outputs, output);
        let ghost start = self.units@;
        let mut marks: Vec<bool> = Vec::new();
        let mut i: usize = 0;
        while i < self.units.len()
            invariant
                0 <= i <= self.units@.len(),
                self.units@ == start,
                marks@ == destroy_marks(start.take(i as int), output, dead_surfaces@),
            decreases self.units@.len() - i,
        {
            let only_here = self.units[i].outputs.len() == 1 && self.units[i].outputs[0] == output;
            let dead = contains_id(dead_surfaces, self.units[i].surface);
            proof {
                assert(only_here == (self.units@[i as int].outputs@ =~= seq![output]));
            }
            marks.push(dead || only_here);
            proof {
                assert(destroy_marks(start.take(i as int + 1), output, dead_surfaces@) =~= destroy_marks(
                    start.take(i as int),
                    output,
                    dead_surfaces@,
                ).push(dead || only_here));
            }
            i += 1;
        }
        proof {
            assert(start.take(start.len() as int) =~= start);
        }
        let removed = self.extract_marked(&marks);
        let closed = self.forget_units(&removed);
        let ghost kept = self.units@;
        let mut changed: Vec<(u64, Option<u32>)> = Vec::new();
        let mut j: usize = 0;
        while j < self.units.len()
            invariant
                0 <= j <= self.units@.len(),
                self.units@.len() == kept.len(),
                units_wf(kept),
                forall|k: int| 0 <= k < kept.len() ==> {
                    let (a, b) = (kept[k], #[trigger] self.units@[k]);
                    &&& b.id == a.id
                    &&& b.parent == a.parent
                    &&& b.surface == a.surface
                    &&& b.shell == a.shell
                    &&& b.close_requested == a.close_requested
                    &&& b.pending_leave == a.pending_leave
                    &&& b.outputs@ == if k < j {
                        without(a.outputs@, output)
                    } else {
                        a.outputs@
                    }
                },
                changed@ == output_changes(kept.take(j as int), output),
                self.outputs@ == without(old(self).outputs@, output),
                self.keyboard_focus == focus_after(old(self).keyboard_focus, dropped_units(start, marks@)),
                self.last_output == (if last_output_alive {
                    old(self).last_output
                } else {
                    None
                }),
                self.last_unit_index == old(self).last_unit_index,
            decreases self.units@.len() - j,
        {
            let previous = if self.units[j].outputs.len() > 0 {
                Some(self.units[j].outputs[0])
            } else {
                None
            };
            let ghost before = self.units@;
            remove_all(&mut self.units[j].outputs, output);
            let now = if self.units[j].outputs.len() > 0 {
                Some(self.units[j].outputs[0])
            } else {
                None
            };
            if now != previous {
                changed.push((self.units[j].id, now));
            }
            proof {
                assert(kept.take(j as int + 1).drop_last() =~= kept.take(j as int));
                assert(changed@ =~= output_changes(kept.take(j as int + 1), output));
            }
            j += 1;
        }
        proof {
            assert(kept.take(kept.len() as int) =~= kept);
            lemma_wf_same_links(kept, self.units@);
        }
        OutputRemoval { closed, changed }
    }
}

} // verus!
