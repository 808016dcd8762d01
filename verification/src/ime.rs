//! Input methods: what `zwp_text_input_v3` events turn into, and which
//! requests a change of the widget's input method needs.

use vstd::prelude::*;
use crate::units::{WindowRegistry, surface_owner};

verus! {

/// A cursor range in preedit text, in bytes.
#[derive(Debug, Clone, Copy, PartialEq, Eq, Structural)]
pub struct CursorPosition {
    pub start: usize,
    pub end: usize,
}

/// What the input method tells a window.
#[derive(Debug, Clone, PartialEq, Eq)]
pub enum Ime {
    /// the input method was enabled
    Enabled,
    /// composing text at the cursor, with its cursor range (`None` hides
    /// the cursor); empty text clears the preedit
    Preedit(String, Option<CursorPosition>),
    /// text to insert
    Commit(String),
    /// the input method was disabled
    Disabled,
}

/// What the text is for, so the input method can adapt.
#[derive(Debug, Clone, Copy, PartialEq, Eq, Structural)]
pub enum ImePurpose {
    /// no special hints
    Normal,
    /// a password
    Password,
    /// a terminal
    Terminal,
}

/// The `zwp_text_input_v3` content hint the library sets.
#[derive(Debug, Clone, Copy, PartialEq, Eq, Structural)]
pub enum ContentHint {
    /// no hint
    Nothing,
    /// the text is sensitive
    SensitiveData,
}

/// The `zwp_text_input_v3` content purpose the library sets.
#[derive(Debug, Clone, Copy, PartialEq, Eq, Structural)]
pub enum ContentPurpose {
    Normal,
    Password,
    Terminal,
}

/// The content type announced for a purpose.
pub open spec fn spec_content_type(purpose: ImePurpose) -> (ContentHint, ContentPurpose) {
    match purpose {
        ImePurpose::Normal => (ContentHint::Nothing, ContentPurpose::Normal),
        ImePurpose::Password => (ContentHint::SensitiveData, ContentPurpose::Password),
        ImePurpose::Terminal => (ContentHint::Nothing, ContentPurpose::Terminal),
    }
}

/// The content hint and purpose that `set_content_type` announces for an
/// input purpose.
pub fn content_type_for(purpose: ImePurpose) -> (r: (ContentHint, ContentPurpose))
    ensures
        r == spec_content_type(purpose),
{
    match purpose {
        ImePurpose::Normal => (ContentHint::Nothing, ContentPurpose::Normal),
        ImePurpose::Password => (ContentHint::SensitiveData, ContentPurpose::Password),
        ImePurpose::Terminal => (ContentHint::Nothing, ContentPurpose::Terminal),
    }
}

/// A preedit waiting for `done`.
#[derive(Debug, Clone, PartialEq, Eq)]
pub struct Preedit {
    /// the composing text
    pub text: String,
    /// where the cursor begins, in bytes, on a character boundary
    pub cursor_begin: Option<usize>,
    /// where the cursor ends, in bytes, on a character boundary
    pub cursor_end: Option<usize>,
}

/// What a text input holds between its events and the `done` that applies
/// them.
#[derive(Debug)]
pub struct TextInputState {
    /// the surface the text input is on
    pub surface: Option<u64>,
    /// the text to commit on `done`
    pub pending_commit: Option<String>,
    /// the preedit to show on `done`
    pub pending_preedit: Option<Preedit>,
}

/// A byte index of the text `chars` taken from the protocol: kept when it
/// is not negative and falls on a character boundary of the text's UTF-8.
pub open spec fn boundary_index(chars: Seq<char>, index: i32) -> Option<usize> {
    if index >= 0 && vstd::utf8::is_char_boundary(vstd::utf8::encode_utf8(chars), index as int) {
        Some(index as usize)
    } else {
        None
    }
}

/// The cursor range of a pending preedit: from its begin to its end, or
/// empty at the begin when it has no end; none without a begin.
pub open spec fn cursor_range(p: Preedit) -> Option<CursorPosition> {
    match p.cursor_begin {
        Some(b) => Some(
            CursorPosition {
                start: b,
                end: match p.cursor_end {
                    Some(e) => e,
                    None => b,
                },
            },
        ),
        None => None,
    }
}

/// The messages `done` sends for a pending commit `commit` and a pending
/// preedit `preedit`, with `empty` as the empty text: first an empty
/// preedit, unless only a new preedit follows; then the commit; then the
/// new preedit.
pub open spec fn done_sequence(empty: String, commit: Option<String>, preedit: Option<Preedit>) -> Seq<Ime> {
    let clear: Seq<Ime> = if commit is Some || preedit is None {
        seq![Ime::Preedit(empty, None)]
    } else {
        Seq::empty()
    };
    let committed: Seq<Ime> = match commit {
        Some(text) => seq![Ime::Commit(text)],
        None => Seq::empty(),
    };
    let shown: Seq<Ime> = match preedit {
        Some(p) => seq![Ime::Preedit(p.text, cursor_range(p))],
        None => Seq::empty(),
    };
    clear + committed + shown
}

/// `msgs` are the messages `done` sends for a pending commit and preedit.
pub open spec fn done_messages(msgs: Seq<Ime>, commit: Option<String>, preedit: Option<Preedit>) -> bool {
    exists|empty: String| empty@.len() == 0 && msgs == done_sequence(empty, commit, preedit)
}

/// The messages for what is pending at `done`.
fn pending_messages(commit: Option<String>, preedit: Option<Preedit>) -> (msgs: Vec<Ime>)
    ensures
        done_messages(msgs@, commit, preedit),
{
    let mut msgs: Vec<Ime> = Vec::new();
    let empty = String::new();
    let ghost e = empty;
    if commit.is_some() || preedit.is_none() {
        msgs.push(Ime::Preedit(empty, None));
    }
    if let Some(text) = commit {
        msgs.push(Ime::Commit(text));
    }
    if let Some(p) = preedit {
        let range = match p.cursor_begin {
            Some(b) => Some(
                CursorPosition {
                    start: b,
                    end: match p.cursor_end {
                        Some(e) => e,
                        None => b,
                    },
                },
            ),
            None => None,
        };
        msgs.push(Ime::Preedit(p.text, range));
    }
    assert(msgs@ =~= done_sequence(e, commit, preedit));
    msgs
}

impl TextInputState {
    /// A text input on no surface, with nothing pending.
    pub fn new() -> (r: TextInputState)
        ensures
            r.surface is None,
            r.pending_commit is None,
            r.pending_preedit is None,
    {
        TextInputState { surface: None, pending_commit: None, pending_preedit: None }
    }

    /// `commit_string`: `text` is committed on `done`, and no preedit is
    /// shown then.
    pub fn commit_string(&mut self, text: Option<String>)
        ensures
            final(self).pending_commit == text,
            final(self).pending_preedit is None,
            final(self).surface == old(self).surface,
    {
        self.pending_preedit = None;
        self.pending_commit = text;
    }

    /// `preedit_string`: `text` (empty when absent) is shown on `done`,
    /// with the cursor indices that are not negative and fall on a
    /// character boundary of it.
    pub fn preedit_string(&mut self, text: Option<String>, cursor_begin: i32, cursor_end: i32)
        ensures
            final(self).pending_preedit matches Some(p) && {
                &&& (match text {
                    Some(t) => p.text == t,
                    None => p.text@.len() == 0,
                })
                &&& p.cursor_begin == boundary_index(p.text@, cursor_begin)
                &&& p.cursor_end == boundary_index(p.text@, cursor_end)
            },
            final(self).pending_commit == old(self).pending_commit,
            final(self).surface == old(self).surface,
    {
        let text = match text {
            Some(t) => t,
            None => String::new(),
        };
        let begin = if cursor_begin >= 0 && text.as_str().is_char_boundary(cursor_begin as usize) {
            Some(cursor_begin as usize)
        } else {
            None
        };
        let end = if cursor_end >= 0 && text.as_str().is_char_boundary(cursor_end as usize) {
            Some(cursor_end as usize)
        } else {
            None
        };
        self.pending_preedit = Some(Preedit { text, cursor_begin: begin, cursor_end: end });
    }

    /// `done`: applies what is pending to the window on this text input's
    /// surface. Returns that window and its messages (see
    /// [`done_messages`]); nothing is applied, and `None` returned, while
    /// the surface is not a window's.
    pub fn done(&mut self, registry: &WindowRegistry) -> (r: Option<(u64, Vec<Ime>)>)
        requires
            registry.wf(),
        ensures
            match old(self).surface {
                Some(s) => surface_owner(registry.units@, s),
                None => None,
            } matches Some(id) ==> {
                &&& r matches Some((rid, msgs)) && rid == id && done_messages(
                    msgs@,
                    old(self).pending_commit,
                    old(self).pending_preedit,
                )
                &&& final(self).pending_commit is None
                &&& final(self).pending_preedit is None
            },
            match old(self).surface {
                Some(s) => surface_owner(registry.units@, s),
                None => None,
            } is None ==> r is None && final(self).pending_commit == old(self).pending_commit
                && final(self).pending_preedit == old(self).pending_preedit,
            final(self).surface == old(self).surface,
    {
        let id = match self.surface {
            Some(s) => registry.get_id_from_surface(s),
            None => None,
        };
        let id = match id {
            Some(id) => id,
            None => return None,
        };
        let commit = self.pending_commit.take();
        let preedit = self.pending_preedit.take();
        let msgs = pending_messages(commit, preedit);
        Some((id, msgs))
    }

    /// `enter` on `surface`: the text input is on the surface when it is a
    /// window's. Returns that window, which is owed an `Enabled` message
    /// (after the input method is enabled) when input methods are allowed.
    pub fn enter(&mut self, registry: &WindowRegistry, surface: u64) -> (r: Option<u64>)
        requires
            registry.wf(),
        ensures
            r == surface_owner(registry.units@, surface),
            final(self).surface == (if r is Some {
                Some(surface)
            } else {
                old(self).surface
            }),
            final(self).pending_commit == old(self).pending_commit,
            final(self).pending_preedit == old(self).pending_preedit,
    {
        let id = registry.get_id_from_surface(surface);
        if id.is_some() {
            self.surface = Some(surface);
        }
        id
    }

    /// `leave` of `surface`: the text input is on no surface and the input
    /// method is disabled. Returns the window owed a `Disabled` message.
    pub fn leave(&mut self, registry: &WindowRegistry, surface: u64) -> (r: Option<u64>)
        requires
            registry.wf(),
        ensures
            r == surface_owner(registry.units@, surface),
            final(self).surface is None,
            final(self).pending_commit == old(self).pending_commit,
            final(self).pending_preedit == old(self).pending_preedit,
    {
        self.surface = None;
        registry.get_id_from_surface(surface)
    }
}

/// The place of the first occurrence of `t` in `s`.
pub open spec fn first_place(s: Seq<u64>, t: u64) -> Option<int> {
    if s.contains(t) {
        Some(choose|i: int| 0 <= i < s.len() && s[i] == t && forall|j: int| 0 <= j < i ==> s[j] != t)
    } else {
        None
    }
}

fn find_input(inputs: &Vec<u64>, t: u64) -> (r: Option<usize>)
    ensures
        r matches Some(i) ==> i < inputs@.len() && first_place(inputs@, t) == Some(i as int),
        r is None ==> first_place(inputs@, t) is None,
{
    let mut i: usize = 0;
    while i < inputs.len()
        invariant
            0 <= i <= inputs@.len(),
            forall|j: int| 0 <= j < i ==> inputs@[j] != t,
        decreases inputs@.len() - i,
    {
        if inputs[i] == t {
            proof {
                assert(0 <= i < inputs@.len() && inputs@[i as int] == t && forall|j: int| 0 <= j < i ==> inputs@[j] != t);
                let k = choose|k: int| 0 <= k < inputs@.len() && inputs@[k] == t && forall|j: int| 0 <= j < k ==> inputs@[j] != t;
                if k < i {
                } else if k > i {
                    assert(inputs@[i as int] == t);
                }
            }
            return Some(i);
        }
        i += 1;
    }
    None
}

/// A text input (by protocol id) entered a surface: it is listed, once, to
/// receive the window's input-method settings.
pub fn text_input_entered(inputs: &mut Vec<u64>, t: u64)
    ensures
        final(inputs)@ == (if old(inputs)@.contains(t) {
            old(inputs)@
        } else {
            old(inputs)@.push(t)
        }),
{
    if find_input(inputs, t).is_none() {
        inputs.push(t);
    }
}

/// A text input left its surface: it is no longer listed.
pub fn text_input_left(inputs: &mut Vec<u64>, t: u64)
    ensures
        final(inputs)@ == match first_place(old(inputs)@, t) {
            Some(i) => old(inputs)@.remove(i),
            None => old(inputs)@,
        },
{
    if let Some(i) = find_input(inputs, t) {
        inputs.remove(i);
    }
}

/// A text input listed once is unlisted by its leave.
pub proof fn lemma_entered_then_left(inputs: Seq<u64>, t: u64)
    requires
        !inputs.contains(t),
    ensures
        first_place(inputs.push(t), t) == Some(inputs.len() as int),
        inputs.push(t).remove(inputs.len() as int) == inputs,
{
    let s = inputs.push(t);
    assert(s[inputs.len() as int] == t);
    assert(s.contains(t));
    assert(forall|j: int| 0 <= j < inputs.len() ==> s[j] != t) by {
        assert forall|j: int| 0 <= j < inputs.len() implies s[j] != t by {
            assert(s[j] == inputs[j]);
        }
    }
    let k = choose|k: int| 0 <= k < s.len() && s[k] == t && forall|j: int| 0 <= j < k ==> s[j] != t;
    assert(k == inputs.len());
    assert(s.remove(inputs.len() as int) =~= inputs);
}

/// A committed text reaches the window whole, after the preedit is
/// cleared, and nothing stays pending.
pub proof fn lemma_commit_delivered(msgs: Seq<Ime>, text: String)
    requires
        done_messages(msgs, Some(text), None),
    ensures
        msgs.len() == 2,
        msgs[0] matches Ime::Preedit(t, None) && t@.len() == 0,
        msgs[1] == Ime::Commit(text),
{
    let e = choose|e: String| e@.len() == 0 && msgs == done_sequence(e, Some(text), None);
    assert(msgs[0] == Ime::Preedit(e, None));
}

/// A new preedit alone replaces the old one without clearing it first.
pub proof fn lemma_preedit_replaces(msgs: Seq<Ime>, p: Preedit)
    requires
        done_messages(msgs, None, Some(p)),
    ensures
        msgs.len() == 1,
        msgs[0] == Ime::Preedit(p.text, cursor_range(p)),
{
    let e = choose|e: String| e@.len() == 0 && msgs == done_sequence(e, None, Some(p));
    assert(msgs == done_sequence(e, None, Some(p)));
}

/// One of the requests an input-method change needs.
#[derive(Debug, Clone, Copy, PartialEq, Eq, Structural)]
pub enum ImeState {
    /// disable the input method
    Disabled,
    /// allow the input method
    Allowed,
    /// update the cursor area and purpose
    Update,
}

/// The requests an input-method change needs.
#[derive(Debug, Clone, Copy, PartialEq, Eq, Structural)]
pub struct ImeFlags {
    pub disabled: bool,
    pub allowed: bool,
    pub update: bool,
}

impl ImeFlags {
    /// Whether `flag` is among the requests.
    pub fn contains(self, flag: ImeState) -> (r: bool)
        ensures
            r == match flag {
                ImeState::Disabled => self.disabled,
                ImeState::Allowed => self.allowed,
                ImeState::Update => self.update,
            },
    {
        match flag {
            ImeState::Disabled => self.disabled,
            ImeState::Allowed => self.allowed,
            ImeState::Update => self.update,
        }
    }
}

/// The requests for a widget's input method, given whether the window had
/// an input method area (`had_area`), whether the widget asks for one
/// (`enabled`), and whether the area and purpose it asks for are those
/// already set (`same_area`): disabling one that was there, allowing one
/// that was not, and updating a changed one.
pub fn ime_request_flags(had_area: bool, enabled: bool, same_area: bool) -> (r: ImeFlags)
    ensures
        r == (if enabled {
            ImeFlags { disabled: false, allowed: !had_area, update: !(had_area && same_area) }
        } else {
            ImeFlags { disabled: had_area, allowed: false, update: false }
        }),
{
    if enabled {
        ImeFlags { disabled: false, allowed: !had_area, update: !(had_area && same_area) }
    } else {
        ImeFlags { disabled: had_area, allowed: false, update: false }
    }
}

} // verus!
