//! The outputs a surface is displayed on.
//!
//! Outputs are named by their `wl_registry` global name. A surface may
//! overlap several outputs; the first one it entered is its output. A layer
//! surface is pinned to an output: the compositor's `leave` for its last
//! output is held back until an `enter` offers another one, so a move cannot
//! leave it without any.

use vstd::prelude::*;

verus! {

/// `s` without any occurrence of `x`, in order.
pub open spec fn without(s: Seq<u32>, x: u32) -> Seq<u32> {
    s.filter(|y: u32| y != x)
}

/// No output occurs twice.
pub open spec fn no_dup(s: Seq<u32>) -> bool {
    forall|i: int, j: int| 0 <= i < j < s.len() ==> s[i] != s[j]
}

/// The outputs after `wl_surface.enter(output)`, and the held leave after it.
pub open spec fn spec_enter(outputs: Seq<u32>, held: Option<u32>, output: u32) -> (Seq<u32>, Option<u32>) {
    let added = if outputs.contains(output) {
        outputs
    } else {
        outputs.push(output)
    };
    match held {
        Some(stale) => if added.len() > 1 {
            (without(added, stale), None)
        } else {
            (added, None)
        },
        None => (added, None),
    }
}

/// The outputs after `wl_surface.leave(output)`, and the held leave after it.
pub open spec fn spec_leave(outputs: Seq<u32>, held: Option<u32>, pinned: bool, output: u32) -> (
    Seq<u32>,
    Option<u32>,
) {
    if outputs.len() > 1 || !pinned {
        (without(outputs, output), held)
    } else {
        (outputs, Some(output))
    }
}

proof fn lemma_without_step(s: Seq<u32>, x: u32, i: int)
    requires
        0 <= i < s.len(),
    ensures
        without(s.take(i + 1), x) == if s[i] != x {
            without(s.take(i), x).push(s[i])
        } else {
            without(s.take(i), x)
        },
{
    reveal(Seq::filter);
    assert(s.take(i + 1).drop_last() =~= s.take(i));
}

/// Removing an output keeps the others, in order, and keeps them distinct.
pub proof fn lemma_without_facts(s: Seq<u32>, x: u32)
    ensures
        !without(s, x).contains(x),
        forall|y: u32| y != x ==> (s.contains(y) <==> #[trigger] without(s, x).contains(y)),
        without(s, x).len() <= s.len(),
        no_dup(s) ==> no_dup(without(s, x)),
        !s.contains(x) ==> without(s, x) == s,
    decreases s.len(),
{
    reveal(Seq::filter);
    if s.len() > 0 {
        let p = s.drop_last();
        lemma_without_facts(p, x);
        assert(s =~= p.push(s.last()));
        assert forall|y: u32| y != x implies (s.contains(y) <==> #[trigger] without(s, x).contains(
            y,
        )) by {
            if s.contains(y) {
                let k = choose|k: int| 0 <= k < s.len() && s[k] == y;
                if k < s.len() - 1 {
                    assert(p[k] == y);
                } else {
                    assert(without(s, x).last() == y);
                }
            }
            if without(s, x).contains(y) {
                let k = choose|k: int| 0 <= k < without(s, x).len() && without(s, x)[k] == y;
                if k < without(p, x).len() {
                    assert(without(p, x)[k] == y);
                    assert(without(p, x).contains(y));
                    assert(p.contains(y));
                    let m = choose|m: int| 0 <= m < p.len() && p[m] == y;
                    assert(s[m] == y);
                } else {
                    assert(s[s.len() - 1] == y);
                }
            }
        }
        if no_dup(s) {
            assert(no_dup(p));
            let w = without(s, x);
            assert forall|i: int, j: int| 0 <= i < j < w.len() implies w[i] != w[j] by {
                if j == w.len() - 1 && s.last() != x {
                    assert(w[j] == s.last());
                    assert(without(p, x).contains(w[i]));
                    assert(w[i] == without(p, x)[i]);
                    assert(p.contains(w[i]));
                    let m = choose|m: int| 0 <= m < p.len() && p[m] == w[i];
                    assert(s[m] == p[m]);
                } else {
                    assert(w[i] == without(p, x)[i]);
                    assert(w[j] == without(p, x)[j]);
                }
            }
        }
        if !s.contains(x) {
            assert(!p.contains(x)) by {
                if p.contains(x) {
                    let m = choose|m: int| 0 <= m < p.len() && p[m] == x;
                    assert(s[m] == x);
                }
            }
            assert(s.last() != x) by {
                assert(s[s.len() - 1] == s.last());
            }
        }
    } else {
        assert(without(s, x) =~= s);
    }
}

/// A leave takes the output off the surface, keeping its other outputs,
/// unless the surface is pinned and the output is its last one (or it has
/// none): only then is the leave held back and the outputs kept as they
/// are. A surface that shows on several outputs never keeps the one it
/// left.
pub proof fn lemma_leave_removes_output(outputs: Seq<u32>, held: Option<u32>, pinned: bool, output: u32)
    ensures
        ({
            let (after, held_after) = spec_leave(outputs, held, pinned, output);
            &&& outputs.len() > 1 || !pinned ==> {
                &&& !after.contains(output)
                &&& forall|y: u32| y != output ==> (outputs.contains(y) <==> #[trigger] after.contains(y))
                &&& held_after == held
            }
            &&& pinned && outputs.len() <= 1 ==> after == outputs && held_after == Some(output)
        }),
{
    lemma_without_facts(outputs, output);
}

/// An enter puts the output on the surface, keeping the outputs it had;
/// a leave that was held back is applied then, when the surface has
/// another output to keep, and dropped either way (a held leave of the
/// very output entered is applied too, when another output remains).
pub proof fn lemma_enter_adds_output(outputs: Seq<u32>, held: Option<u32>, output: u32)
    ensures
        ({
            let (after, held_after) = spec_enter(outputs, held, output);
            &&& held_after is None
            &&& held is Some && held->0 != output && (outputs.contains(output) ==> outputs.len() > 1)
                ==> !after.contains(held->0)
            &&& held is None || held->0 != output ==> after.contains(output)
            &&& forall|y: u32| held != Some(y) && #[trigger] outputs.contains(y) ==> after.contains(y)
        }),
{
    let added = if outputs.contains(output) {
        outputs
    } else {
        outputs.push(output)
    };
    assert(added.contains(output)) by {
        if !outputs.contains(output) {
            assert(added[outputs.len() as int] == output);
        }
    }
    assert forall|y: u32| #[trigger] outputs.contains(y) implies added.contains(y) by {
        if !outputs.contains(output) {
            let k = choose|k: int| 0 <= k < outputs.len() && outputs[k] == y;
            assert(added[k] == y);
        }
    }
    if let Some(stale) = held {
        lemma_without_facts(added, stale);
        if stale != output && (outputs.contains(output) ==> outputs.len() > 1) {
            if !outputs.contains(output) {
                assert(added.len() == outputs.len() + 1);
                if outputs.len() == 0 {
                    assert(added =~= seq![output]);
                    assert(!added.contains(stale)) by {
                        if added.contains(stale) {
                            let k = choose|k: int| 0 <= k < added.len() && added[k] == stale;
                        }
                    }
                }
            }
        }
    }
}

/// Removes every occurrence of `x` from `v`.
pub(crate) fn remove_all(v: &mut Vec<u32>, x: u32)
    ensures
        final(v)@ == without(old(v)@, x),
{
    let mut kept: Vec<u32> = Vec::new();
    let mut i: usize = 0;
    while i < v.len()
        invariant
            0 <= i <= v@.len(),
            kept@ == without(v@.take(i as int), x),
        decreases v@.len() - i,
    {
        proof {
            lemma_without_step(v@, x, i as int);
        }
        if v[i] != x {
            kept.push(v[i]);
        }
        i += 1;
    }
    assert(v@.take(v@.len() as int) =~= v@);
    *v = kept;
}

/// Whether `x` occurs in `v`.
pub(crate) fn contains_output(v: &Vec<u32>, x: u32) -> (r: bool)
    ensures
        r == v@.contains(x),
{
    let mut i: usize = 0;
    while i < v.len()
        invariant
            0 <= i <= v@.len(),
            forall|j: int| 0 <= j < i ==> v@[j] != x,
        decreases v@.len() - i,
    {
        if v[i] == x {
            return true;
        }
        i += 1;
    }
    false
}

/// `wl_surface.enter`: the surface now also shows on `output`. A leave that
/// was held back to keep the surface on an output is applied now, when
/// another output is at hand.
pub fn enter_output(outputs: &mut Vec<u32>, held_leave: &mut Option<u32>, output: u32)
    ensures
        (final(outputs)@, *final(held_leave)) == spec_enter(old(outputs)@, *old(held_leave), output),
{
    if !contains_output(outputs, output) {
        outputs.push(output);
    }
    if let Some(stale) = held_leave.take() {
        if outputs.len() > 1 {
            remove_all(outputs, stale);
        }
    }
}

/// `wl_surface.leave`: the surface no longer shows on `output`. A pinned
/// surface keeps its last output and holds the leave back.
pub fn leave_output(
    outputs: &mut Vec<u32>,
    held_leave: &mut Option<u32>,
    pinned: bool,
    output: u32,
)
    ensures
        (final(outputs)@, *final(held_leave)) == spec_leave(
            old(outputs)@,
            *old(held_leave),
            pinned,
            output,
        ),
{
    if outputs.len() > 1 || !pinned {
        remove_all(outputs, output);
    } else {
        *held_leave = Some(output);
    }
}

/// The `OutputChanged` notice owed after an enter or leave: `Some(first)`
/// when the surface's first output differs from the one it had before.
pub fn output_change(previous: Option<u32>, outputs: &Vec<u32>) -> (r: Option<Option<u32>>)
    ensures
        ({
            let now = if outputs@.len() > 0 {
                Some(outputs@[0])
            } else {
                None::<u32>
            };
            r == if now != previous {
                Some(now)
            } else {
                None
            }
        }),
{
    let now = if outputs.len() > 0 {
        Some(outputs[0])
    } else {
        None
    };
    if now != previous {
        Some(now)
    } else {
        None
    }
}

/// Entering and leaving never lists an output twice.
pub proof fn lemma_outputs_stay_distinct(outputs: Seq<u32>, held: Option<u32>, pinned: bool, output: u32)
    requires
        no_dup(outputs),
    ensures
        no_dup(spec_enter(outputs, held, output).0),
        no_dup(spec_leave(outputs, held, pinned, output).0),
{
    let added = if outputs.contains(output) {
        outputs
    } else {
        outputs.push(output)
    };
    assert(no_dup(added)) by {
        if !outputs.contains(output) {
            assert forall|i: int, j: int| 0 <= i < j < added.len() implies added[i] != added[j] by {
                if j == added.len() - 1 {
                    assert(outputs[i] == added[i]);
                }
            }
        }
    }
    if let Some(stale) = held {
        lemma_without_facts(added, stale);
    }
    lemma_without_facts(outputs, output);
}

/// A pinned surface that shows on some output still shows on one after any
/// leave.
pub proof fn lemma_pinned_keeps_an_output(outputs: Seq<u32>, held: Option<u32>, output: u32)
    requires
        outputs.len() > 0,
        no_dup(outputs),
    ensures
        spec_leave(outputs, held, true, output).0.len() > 0,
{
    if outputs.len() > 1 {
        lemma_without_facts(outputs, output);
        let a = outputs[0];
        let b = outputs[1];
        assert(outputs.contains(a) && outputs.contains(b));
        if a != output {
            assert(without(outputs, output).contains(a));
        } else {
            assert(without(outputs, output).contains(b));
        }
    }
}

/// A pinned surface moved from output `a` to output `b`: the compositor
/// sends the leave of `a` before the enter of `b`, and afterwards the surface
/// shows on `b` alone.
pub proof fn lemma_pinned_move(a: u32, b: u32)
    requires
        a != b,
    ensures
        ({
            let (mid, held) = spec_leave(seq![a], None, true, a);
            let (last, held_after) = spec_enter(mid, held, b);
            last == seq![b] && held_after is None
        }),
{
    let (mid, held) = spec_leave(seq![a], None, true, a);
    assert(mid == seq![a]);
    assert(!seq![a].contains(b)) by {
        if seq![a].contains(b) {
            let k = choose|k: int| 0 <= k < 1 && seq![a][k] == b;
        }
    }
    let added = seq![a].push(b);
    reveal_with_fuel(Seq::<_>::filter, 3);
    assert(added.drop_last() =~= seq![a]);
    assert(seq![a].drop_last() =~= Seq::<u32>::empty());
    assert(without(added, a) =~= seq![b]);
}

} // verus!
