//! Small pieces the toolkit layer shares with programs: the namespace of
//! a layer surface, the clipboard stand-in, and a launcher's application
//! entries.

use vstd::prelude::*;

verus! {

/// The namespace a program gives its layer surfaces.
pub trait NameSpace {
    /// The namespace.
    fn namespace(&self) -> String;
}

impl NameSpace for &str {
    fn namespace(&self) -> (r: String)
        ensures
            r@ == self@,
    {
        (*self).to_owned()
    }
}

/// Which clipboard is meant.
#[derive(Debug, Clone, Copy, PartialEq, Eq, Structural)]
pub enum ClipboardKind {
    Standard,
    Primary,
}

/// A clipboard that holds nothing: reading gives nothing and writing is
/// dropped, until layer shells get a clipboard.
#[derive(Debug, Clone, Copy, PartialEq, Eq, Structural)]
pub struct LayerShellClipboard;

impl LayerShellClipboard {
    /// Nothing is ever on this clipboard.
    pub fn read(&self, kind: ClipboardKind) -> (r: Option<String>)
        ensures
            r is None,
    {
        None
    }

    /// Writing is dropped.
    pub fn write(&mut self, kind: ClipboardKind, contents: String)
        ensures
            *final(self) == *old(self),
    {
    }
}

/// An application a launcher lists.
#[derive(Debug, Clone)]
pub struct App {
    /// the desktop entry's id
    pub id: String,
    /// the name shown
    pub name: String,
    /// the command line
    pub cmds: Vec<String>,
    /// the comment shown under the name
    pub description: String,
    /// the desktop entry's categories
    pub categrades: Option<Vec<String>>,
    /// the desktop entry's actions
    pub actions: Option<Vec<String>>,
}

impl App {
    /// The name shown for the application.
    pub fn title(&self) -> (r: &str)
        ensures
            r@ == self.name@,
    {
        self.name.as_str()
    }

    /// The comment shown under the name.
    pub fn description(&self) -> (r: &str)
        ensures
            r@ == self.description@,
    {
        self.description.as_str()
    }
}

/// The number of `true` marks in `marks`.
pub open spec fn count_marked(marks: Seq<bool>) -> nat
    decreases marks.len(),
{
    if marks.len() == 0 {
        0
    } else {
        count_marked(marks.drop_last()) + if marks.last() {
            1nat
        } else {
            0nat
        }
    }
}

/// The index of the application listed at position `rank` among those
/// whose mark is set: the one with exactly `rank` marked applications
/// before it.
pub open spec fn ranked_app(marks: Seq<bool>, rank: nat) -> Option<int> {
    if exists|i: int| 0 <= i < marks.len() && marks[i] && count_marked(marks.take(i)) == rank {
        Some(choose|i: int| 0 <= i < marks.len() && marks[i] && count_marked(marks.take(i)) == rank)
    } else {
        None
    }
}

/// How many applications the launcher lists: those whose mark is set.
pub fn visible_count(marks: &Vec<bool>) -> (r: usize)
    ensures
        r == count_marked(marks@),
{
    let mut n: usize = 0;
    let mut i: usize = 0;
    while i < marks.len()
        invariant
            0 <= i <= marks@.len(),
            n == count_marked(marks@.take(i as int)),
            n <= i,
        decreases marks@.len() - i,
    {
        proof {
            assert(marks@.take(i as int + 1).drop_last() =~= marks@.take(i as int));
        }
        if marks[i] {
            n += 1;
        }
        i += 1;
    }
    proof {
        assert(marks@.take(marks@.len() as int) =~= marks@);
    }
    n
}

/// The application the launcher starts on submit: the one listed at the
/// selected position among those whose mark is set (those that match the
/// search).
pub fn selected_app(marks: &Vec<bool>, scrollpos: usize) -> (r: Option<usize>)
    ensures
        match ranked_app(marks@, scrollpos as nat) {
            Some(i) => r == Some(i as usize),
            None => r is None,
        },
{
    let mut seen: usize = 0;
    let mut i: usize = 0;
    while i < marks.len()
        invariant
            0 <= i <= marks@.len(),
            seen == count_marked(marks@.take(i as int)),
            seen <= i,
            seen <= scrollpos,
        decreases marks@.len() - i,
    {
        proof {
            assert(marks@.take(i as int + 1).drop_last() =~= marks@.take(i as int));
        }
        if marks[i] {
            if seen == scrollpos {
                proof {
                    lemma_ranks_distinct(marks@);
                }
                return Some(i);
            }
            seen += 1;
        }
        i += 1;
    }
    proof {
        assert(marks@.take(marks@.len() as int) =~= marks@);
        if exists|k: int| 0 <= k < marks@.len() && marks@[k] && count_marked(marks@.take(k)) == scrollpos {
            let k = choose|k: int| 0 <= k < marks@.len() && marks@[k] && count_marked(marks@.take(k)) == scrollpos;
            lemma_count_prefix_grows(marks@, k + 1, marks@.len() as int);
            assert(marks@.take(k + 1).drop_last() =~= marks@.take(k));
        }
    }
    None
}

/// Counting marks over a longer prefix never gives fewer.
proof fn lemma_count_prefix_grows(marks: Seq<bool>, a: int, b: int)
    requires
        0 <= a <= b <= marks.len(),
    ensures
        count_marked(marks.take(a)) <= count_marked(marks.take(b)),
    decreases b - a,
{
    if a < b {
        lemma_count_prefix_grows(marks, a, b - 1);
        assert(marks.take(b).drop_last() =~= marks.take(b - 1));
    }
}

/// Two marked positions have different ranks.
proof fn lemma_ranks_distinct(marks: Seq<bool>)
    ensures
        forall|i: int, j: int|
            0 <= i < j < marks.len() && marks[i] && marks[j] ==> #[trigger] count_marked(marks.take(i))
                < #[trigger] count_marked(marks.take(j)),
{
    assert forall|i: int, j: int|
        0 <= i < j < marks.len() && marks[i] && marks[j] implies #[trigger] count_marked(marks.take(i))
            < #[trigger] count_marked(marks.take(j)) by {
        lemma_count_prefix_grows(marks, i + 1, j);
        assert(marks.take(i + 1).drop_last() =~= marks.take(i));
    }
}

/// A key that moves the launcher's selection.
#[derive(Debug, Clone, Copy, PartialEq, Eq, Structural)]
pub enum NavKey {
    ArrowUp,
    ArrowDown,
    Escape,
    Other,
}

/// What the launcher does after a keyboard event.
#[derive(Debug, Clone, Copy, PartialEq, Eq, Structural)]
pub enum NavOutcome {
    /// nothing: the selection is at its end already
    Stay,
    /// the selection is now at this position; the search field keeps focus
    Focus(usize),
    /// the launcher closes
    Exit,
}

/// The launcher's answer to a key, with `scrollpos` the selected position
/// among `visible` listed applications: the arrows move the selection
/// within the list, escape closes the launcher, any other key leaves the
/// selection.
pub fn launcher_navigate(scrollpos: usize, visible: usize, key: NavKey) -> (r: NavOutcome)
    requires
        key == NavKey::ArrowDown ==> visible >= 1,
    ensures
        r == match key {
            NavKey::ArrowUp => if scrollpos == 0 {
                NavOutcome::Stay
            } else {
                NavOutcome::Focus((scrollpos - 1) as usize)
            },
            NavKey::ArrowDown => if scrollpos >= visible - 1 {
                NavOutcome::Stay
            } else {
                NavOutcome::Focus((scrollpos + 1) as usize)
            },
            NavKey::Escape => NavOutcome::Exit,
            NavKey::Other => NavOutcome::Focus(scrollpos),
        },
{
    match key {
        NavKey::ArrowUp => if scrollpos == 0 {
            NavOutcome::Stay
        } else {
            NavOutcome::Focus(scrollpos - 1)
        },
        NavKey::ArrowDown => if scrollpos >= visible - 1 {
            NavOutcome::Stay
        } else {
            NavOutcome::Focus(scrollpos + 1)
        },
        NavKey::Escape => NavOutcome::Exit,
        NavKey::Other => NavOutcome::Focus(scrollpos),
    }
}

} // verus!
