//! The chord resolver: a binding table from key sequences to actions,
//! one in-progress sequence, and the guarantee that literal text entry
//! is never swallowed by a binding.

use vstd::prelude::*;

verus! {

use crate::buffer::buffer::{BufferKind, Mode};
use crate::buffer::minibuffer::MinibufferKind;
use crate::keybinding::actions::{
    Action,
    AddCharAction,
    AddMbCharAction,
    AddTabAction,
    AppendAction,
    BotOfBufferAction,
    DeleteCharAction,
    DeleteLineAction,
    DeleteMbCharAction,
    EscapeAction,
    ExecuteCommandAction,
    ExecuteMbCommandAction,
    InsertDirection,
    MinibufferAction,
    ModeParams,
    MoveCursorAction,
    MoveMbCursorAction,
    NewLineAction,
    NewLineDirection,
    OpenBufferAction,
    OpenFileAction,
    QuitAction,
    SwitchModeAction,
    TopOfBufferAction,
    WriteBufferAction,
};
use crate::text::str_to_line;

/// An abstract key: what the resolver sees of a key press.
#[derive(Debug, PartialEq, Eq, Hash, Clone, Copy, Structural)]
pub enum Key {
    Char(char),
    Esc,
    Enter,
    Tab,
    Backspace,
    Left,
    Right,
    Up,
    Down,
}

/// The modifier held with a key.
#[derive(Debug, PartialEq, Eq, Hash, Clone, Copy, Structural)]
pub enum Modifiers {
    Plain,
    Shift,
    Control,
    Alt,
}

/// One key press: a key with its modifier.
#[derive(Debug, PartialEq, Eq, Hash, Clone, Copy, Structural)]
pub struct Keybinding {
    pub key: Key,
    pub modifiers: Modifiers,
}

/// The keys pressed so far towards a chord.
#[derive(Debug, PartialEq, Eq, Clone)]
pub struct KeySequence {
    pub keys: Vec<Keybinding>,
}

/// One row of the binding table.
#[derive(Debug, Clone)]
pub struct Binding {
    pub mode: Mode,
    pub buffer_kind: Option<BufferKind>,
    pub keys: Vec<Keybinding>,
    pub action: Action,
}

/// `a` could have come out of the same binding as `b`: equal up to the
/// identity of the heap buffers its payloads live in.
pub open spec fn action_like(a: Action, b: Action) -> bool {
    match (a, b) {
        (Action::SwitchMode(x), Action::SwitchMode(y)) => {
            match (x.params, y.params) {
                (ModeParams::Normal, ModeParams::Normal) => true,
                (
                    ModeParams::Insert { insert_direction: d1 },
                    ModeParams::Insert { insert_direction: d2 },
                ) => d1 == d2,
                (ModeParams::Visual, ModeParams::Visual) => true,
                (
                    ModeParams::Command { prefix: p1, input: i1 },
                    ModeParams::Command { prefix: p2, input: i2 },
                ) => p1@ == p2@ && i1@ == i2@,
                (ModeParams::Minibuffer, ModeParams::Minibuffer) => true,
                _ => false,
            }
        },
        (Action::OpenFile(x), Action::OpenFile(y)) => crate::text::lines_view(x.path@)
            == crate::text::lines_view(y.path@),
        (Action::Minibuffer(x), Action::Minibuffer(y)) => {
            match (x.kind, y.kind) {
                (MinibufferKind::Nop, MinibufferKind::Nop) => true,
                (MinibufferKind::File(p1), MinibufferKind::File(p2)) => crate::text::lines_view(
                    p1@,
                ) == crate::text::lines_view(p2@),
                (MinibufferKind::Buffer(t1), MinibufferKind::Buffer(t2)) => crate::text::lines_view(
                    t1@,
                ) == crate::text::lines_view(t2@),
                _ => false,
            }
        },
        _ => a == b,
    }
}

/// Index of the first table row with this mode, buffer-kind slot and
/// key sequence, from `i` on; the table length if there is none.
pub open spec fn find_binding(
    table: Seq<Binding>,
    mode: Mode,
    buffer_kind: Option<BufferKind>,
    keys: Seq<Keybinding>,
    i: int,
) -> int
    decreases table.len() - i,
{
    if i < 0 || i >= table.len() {
        table.len() as int
    } else if table[i].mode == mode && table[i].buffer_kind == buffer_kind && table[i].keys@
        == keys {
        i
    } else {
        find_binding(table, mode, buffer_kind, keys, i + 1)
    }
}

/// The action bound to exactly this sequence in one slot of the table.
pub open spec fn lookup_spec(
    table: Seq<Binding>,
    mode: Mode,
    buffer_kind: Option<BufferKind>,
    keys: Seq<Keybinding>,
) -> Option<Action> {
    let i = find_binding(table, mode, buffer_kind, keys, 0);
    if i < table.len() {
        Some(table[i].action)
    } else {
        None
    }
}

/// What this sequence resolves to for a buffer of the given kind:
/// kind-specific bindings beat wildcard bindings.
pub open spec fn resolve_spec(
    table: Seq<Binding>,
    mode: Mode,
    buffer_kind: BufferKind,
    keys: Seq<Keybinding>,
) -> Option<Action> {
    match lookup_spec(table, mode, Some(buffer_kind), keys) {
        Some(a) => Some(a),
        None => lookup_spec(table, mode, None, keys),
    }
}

/// The sequence is a prefix of some chord registered for this mode, in
/// the wildcard slot or the slot of this buffer kind.
pub open spec fn is_live_prefix(
    table: Seq<Binding>,
    mode: Mode,
    buffer_kind: BufferKind,
    keys: Seq<Keybinding>,
) -> bool {
    exists|i: int|
        0 <= i < table.len() && (#[trigger] table[i]).mode == mode && (table[i].buffer_kind
            is None || table[i].buffer_kind == Some(buffer_kind)) && keys.is_prefix_of(
            table[i].keys@,
        )
}

/// The built-in action of a key in the text-entry modes, which no
/// binding may shadow: plain and shifted characters insert themselves,
/// and backspace, enter and tab keep their own meaning where the mode
/// accepts them.
pub open spec fn literal_action(mode: Mode, key: Keybinding) -> Option<Action> {
    match mode {
        Mode::Insert => match key.key {
            Key::Char(c) => if key.modifiers == Modifiers::Plain || key.modifiers
                == Modifiers::Shift {
                Some(Action::AddChar(AddCharAction { character: c }))
            } else {
                None
            },
            Key::Tab => if key.modifiers == Modifiers::Plain || key.modifiers == Modifiers::Shift {
                Some(Action::AddTab(AddTabAction))
            } else {
                None
            },
            Key::Backspace => Some(Action::DeleteChar(DeleteCharAction)),
            Key::Enter => Some(
                Action::NewLine(NewLineAction { direction: NewLineDirection::Under }),
            ),
            _ => None,
        },
        Mode::Command => match key.key {
            Key::Char(c) => if key.modifiers == Modifiers::Plain || key.modifiers
                == Modifiers::Shift {
                Some(Action::AddChar(AddCharAction { character: c }))
            } else {
                None
            },
            Key::Backspace => Some(Action::DeleteChar(DeleteCharAction)),
            _ => None,
        },
        Mode::Minibuffer => match key.key {
            Key::Char(c) => if key.modifiers == Modifiers::Plain || key.modifiers
                == Modifiers::Shift {
                Some(Action::AddMbChar(AddMbCharAction { character: c }))
            } else {
                None
            },
            Key::Backspace => Some(Action::DeleteMbChar(DeleteMbCharAction)),
            Key::Esc => Some(Action::Escape(EscapeAction)),
            _ => None,
        },
        _ => None,
    }
}

/// The two-key `g g` chord of the default bindings.
pub open spec fn top_of_buffer_chord() -> Seq<Keybinding> {
    seq![
        Keybinding { key: Key::Char('g'), modifiers: Modifiers::Plain },
        Keybinding { key: Key::Char('g'), modifiers: Modifiers::Plain },
    ]
}

/// The binding table with the in-progress chord and the kind of the
/// buffer the keys are aimed at.
#[derive(Debug, Clone)]
pub struct KeybindingManager {
    pub mode_bindings: Vec<Binding>,
    pub current_buffer_kind: BufferKind,
    pub current_sequence: KeySequence,
}

/// Reads a `:`-command: single-letter tokens `w` (write) and `q`
/// (quit), composable as `wq`; anything else is a no-op.
pub struct CommandParser;

proof fn lemma_find_binding_push_hit(
    table: Seq<Binding>,
    b: Binding,
    mode: Mode,
    buffer_kind: Option<BufferKind>,
    i: int,
)
    requires
        0 <= i <= table.len(),
        b.mode == mode && b.buffer_kind == buffer_kind,
        find_binding(table, mode, buffer_kind, b.keys@, i) == table.len(),
    ensures
        find_binding(table.push(b), mode, buffer_kind, b.keys@, i) == table.len(),
    decreases table.len() - i,
{
    if i < table.len() {
        lemma_find_binding_push_hit(table, b, mode, buffer_kind, i + 1);
    } else {
        assert(table.push(b)[i] == b);
    }
}

proof fn lemma_find_binding_found(
    table: Seq<Binding>,
    mode: Mode,
    buffer_kind: Option<BufferKind>,
    keys: Seq<Keybinding>,
    i: int,
)
    requires
        0 <= i <= table.len(),
    ensures
        ({
            let f = find_binding(table, mode, buffer_kind, keys, i);
            &&& i <= f <= table.len()
            &&& f < table.len() ==> table[f].mode == mode && table[f].buffer_kind == buffer_kind
                && table[f].keys@ == keys
        }),
    decreases table.len() - i,
{
    if i < table.len() {
        lemma_find_binding_found(table, mode, buffer_kind, keys, i + 1);
    }
}

/// Two one-key sequences with different keys are different sequences.
proof fn lemma_one_key_differs(a: Keybinding, b: Keybinding)
    requires
        a != b,
    ensures
        seq![a] != seq![b],
{
    assert(seq![a][0] == a);
    assert(seq![b][0] == b);
}

/// A sequence that is no live prefix for this mode and buffer kind is
/// in particular bound in neither slot: an exact match would be its own
/// prefix.
proof fn lemma_no_prefix_no_lookup(
    table: Seq<Binding>,
    mode: Mode,
    kind: BufferKind,
    keys: Seq<Keybinding>,
)
    requires
        !is_live_prefix(table, mode, kind, keys),
    ensures
        lookup_spec(table, mode, Some(kind), keys) is None,
        lookup_spec(table, mode, None, keys) is None,
{
    lemma_find_binding_found(table, mode, Some(kind), keys, 0);
    lemma_find_binding_found(table, mode, None, keys, 0);
    let fs = find_binding(table, mode, Some(kind), keys, 0);
    if fs < table.len() {
        assert(keys.is_prefix_of(table[fs].keys@)) by {
            assert(keys =~= table[fs].keys@.subrange(0, keys.len() as int));
        }
        assert(is_live_prefix(table, mode, kind, keys));
    }
    let fw = find_binding(table, mode, None, keys, 0);
    if fw < table.len() {
        assert(keys.is_prefix_of(table[fw].keys@)) by {
            assert(keys =~= table[fw].keys@.subrange(0, keys.len() as int));
        }
        assert(is_live_prefix(table, mode, kind, keys));
    }
}

proof fn lemma_find_binding_update_action(
    table: Seq<Binding>,
    j: int,
    b: Binding,
    mode: Mode,
    buffer_kind: Option<BufferKind>,
    keys: Seq<Keybinding>,
    i: int,
)
    requires
        0 <= j < table.len(),
        table[j].mode == b.mode && table[j].buffer_kind == b.buffer_kind && table[j].keys@
            == b.keys@,
        0 <= i,
    ensures
        find_binding(table.update(j, b), mode, buffer_kind, keys, i) == find_binding(
            table,
            mode,
            buffer_kind,
            keys,
            i,
        ),
    decreases table.len() - i,
{
    if i < table.len() {
        lemma_find_binding_update_action(table, j, b, mode, buffer_kind, keys, i + 1);
    }
}

proof fn lemma_find_binding_push(
    table: Seq<Binding>,
    b: Binding,
    mode: Mode,
    buffer_kind: Option<BufferKind>,
    keys: Seq<Keybinding>,
    i: int,
)
    requires
        0 <= i,
        !(b.mode == mode && b.buffer_kind == buffer_kind && b.keys@ == keys),
    ensures
        find_binding(table, mode, buffer_kind, keys, i) < table.len() ==> find_binding(
            table.push(b),
            mode,
            buffer_kind,
            keys,
            i,
        ) == find_binding(table, mode, buffer_kind, keys, i),
        find_binding(table, mode, buffer_kind, keys, i) == table.len() ==> find_binding(
            table.push(b),
            mode,
            buffer_kind,
            keys,
            i,
        ) == table.len() + 1,
    decreases table.len() - i,
{
    if i < table.len() {
        lemma_find_binding_push(table, b, mode, buffer_kind, keys, i + 1);
    } else {
        assert(table.push(b)[table.len() as int] == b);
        assert(find_binding(table.push(b), mode, buffer_kind, keys, table.len() as int + 1)
            == table.len() + 1);
    }
}

impl KeybindingManager {
    /// A resolver with the default bindings, no chord in progress, and
    /// an ordinary buffer in focus.  Among the defaults: in normal mode
    /// the two-key chord `g g` jumps to the top of the buffer whatever
    /// kind of buffer is in focus; a single `g` resolves to nothing but
    /// is a live prefix of that chord, and `g` followed by any other
    /// key neither resolves nor leads to any chord.
    pub fn new() -> (r: KeybindingManager)
        ensures
            r.current_sequence.keys@ == Seq::<Keybinding>::empty(),
            r.current_buffer_kind == BufferKind::Normal,
            forall|k: BufferKind| #[trigger] resolve_spec(
                r.mode_bindings@,
                Mode::Normal,
                k,
                top_of_buffer_chord(),
            ) == Some(Action::TopOfBuffer(TopOfBufferAction)),
            forall|k: BufferKind| #[trigger] is_live_prefix(
                r.mode_bindings@,
                Mode::Normal,
                k,
                top_of_buffer_chord().take(1),
            ),
            forall|k: BufferKind| #[trigger] resolve_spec(
                r.mode_bindings@,
                Mode::Normal,
                k,
                top_of_buffer_chord().take(1),
            ) is None,
            forall|k: BufferKind, kb: Keybinding|
                kb != (Keybinding { key: Key::Char('g'), modifiers: Modifiers::Plain })
                    ==> #[trigger] resolve_spec(
                    r.mode_bindings@,
                    Mode::Normal,
                    k,
                    top_of_buffer_chord().take(1).push(kb),
                ) is None,
            forall|k: BufferKind, kb: Keybinding|
                kb != (Keybinding { key: Key::Char('g'), modifiers: Modifiers::Plain })
                    ==> !(#[trigger] is_live_prefix(
                    r.mode_bindings@,
                    Mode::Normal,
                    k,
                    top_of_buffer_chord().take(1).push(kb),
                )),
    {
        let mut manager = KeybindingManager {
            mode_bindings: Vec::new(),
            current_buffer_kind: BufferKind::Normal,
            current_sequence: KeySequence { keys: Vec::new() },
        };
        proof {
            assert(manager.current_sequence.keys@ =~= Seq::<Keybinding>::empty());
            assert(manager.mode_bindings@ =~= Seq::<Binding>::empty());
        }

        manager.setup_default_bindings();
        manager
    }

    /// Registers or replaces the binding of one (mode, buffer kind,
    /// sequence) triple.  Every other lookup is untouched, and a
    /// sequence now counts as a live chord prefix exactly if it did
    /// before or is a prefix of the new chord.
    pub fn add_binding(
        &mut self,
        mode: Mode,
        buffer_kind: Option<BufferKind>,
        key_sequence: Vec<Keybinding>,
        action: Action,
    )
        ensures
            final(self).current_buffer_kind == old(self).current_buffer_kind,
            final(self).current_sequence == old(self).current_sequence,
            lookup_spec(final(self).mode_bindings@, mode, buffer_kind, key_sequence@) == Some(
                action,
            ),
            forall|m2: Mode, k2: Option<BufferKind>, s2: Seq<Keybinding>|
                !(m2 == mode && k2 == buffer_kind && s2 == key_sequence@) ==> #[trigger] lookup_spec(
                    final(self).mode_bindings@,
                    m2,
                    k2,
                    s2,
                ) == lookup_spec(old(self).mode_bindings@, m2, k2, s2),
            forall|m2: Mode, k2: BufferKind, s2: Seq<Keybinding>| #[trigger] is_live_prefix(
                final(self).mode_bindings@,
                m2,
                k2,
                s2,
            ) <==> is_live_prefix(old(self).mode_bindings@, m2, k2, s2) || (m2 == mode && (
            buffer_kind is None || buffer_kind == Some(k2)) && s2.is_prefix_of(key_sequence@)),
    {
        let table_len = self.mode_bindings.len();
        let mut i: usize = 0;
        let mut found = false;
        while !found && i < table_len
            invariant
                i <= table_len,
                table_len == self.mode_bindings@.len(),
                !found ==> find_binding(self.mode_bindings@, mode, buffer_kind, key_sequence@, 0)
                    == find_binding(self.mode_bindings@, mode, buffer_kind, key_sequence@, i as int),
                found ==> i < table_len && find_binding(
                    self.mode_bindings@,
                    mode,
                    buffer_kind,
                    key_sequence@,
                    0,
                ) == i && self.mode_bindings@[i as int].mode == mode
                    && self.mode_bindings@[i as int].buffer_kind == buffer_kind
                    && self.mode_bindings@[i as int].keys@ == key_sequence@,
            decreases table_len - i + (if found { 0int } else { 1int }),
        {
            let hit = self.mode_bindings[i].mode == mode && option_kind_equal(
                &self.mode_bindings[i].buffer_kind,
                &buffer_kind,
            ) && keys_equal(&self.mode_bindings[i].keys, &key_sequence);
            if hit {
                found = true;
            } else {
                i += 1;
            }
        }
        let ghost prev = self.mode_bindings@;
        let b = Binding { mode, buffer_kind, keys: key_sequence, action };
        if found {
            proof {
                assert(find_binding(prev, mode, buffer_kind, b.keys@, 0) == i);
                assert(prev[i as int].mode == mode && prev[i as int].buffer_kind == buffer_kind
                    && prev[i as int].keys@ == b.keys@);
            }
            self.mode_bindings.set(i, b);
            proof {
                let cur = self.mode_bindings@;
                assert(cur == prev.update(i as int, cur[i as int]));
                assert forall|m2: Mode, k2: Option<BufferKind>, s2: Seq<Keybinding>|
                    !(m2 == mode && k2 == buffer_kind && s2 == cur[i as int].keys@) implies #[trigger] lookup_spec(
                    cur,
                    m2,
                    k2,
                    s2,
                ) == lookup_spec(prev, m2, k2, s2) by {
                    lemma_find_binding_update_action(prev, i as int, cur[i as int], m2, k2, s2, 0);
                    lemma_find_binding_found(prev, m2, k2, s2, 0);
                    let f = find_binding(prev, m2, k2, s2, 0);
                    if f < prev.len() && f == i {
                        assert(m2 == prev[i as int].mode);
                        assert(s2 == prev[i as int].keys@);
                        assert(false);
                    }
                    if f < prev.len() {
                        assert(prev.update(i as int, cur[i as int])[f] == prev[f]);
                        assert(cur[f] == prev[f]);
                    }
                }
                lemma_find_binding_update_action(
                    prev,
                    i as int,
                    cur[i as int],
                    mode,
                    buffer_kind,
                    cur[i as int].keys@,
                    0,
                );
                assert(lookup_spec(cur, mode, buffer_kind, cur[i as int].keys@) == Some(
                    cur[i as int].action,
                ));
                assert forall|m2: Mode, k2: BufferKind, s2: Seq<Keybinding>| #[trigger] is_live_prefix(
                    cur,
                    m2,
                    k2,
                    s2,
                ) <==> (is_live_prefix(prev, m2, k2, s2) || (m2 == mode && (buffer_kind is None
                    || buffer_kind == Some(k2)) && s2.is_prefix_of(cur[i as int].keys@))) by {
                    if is_live_prefix(cur, m2, k2, s2) {
                        let w = choose|w: int|
                            0 <= w < cur.len() && (#[trigger] cur[w]).mode == m2 && (
                            cur[w].buffer_kind is None || cur[w].buffer_kind == Some(k2))
                                && s2.is_prefix_of(cur[w].keys@);
                        assert(prev[w].mode == cur[w].mode && prev[w].buffer_kind
                            == cur[w].buffer_kind && prev[w].keys@ == cur[w].keys@);
                        assert(is_live_prefix(prev, m2, k2, s2));
                    }
                    if is_live_prefix(prev, m2, k2, s2) {
                        let w = choose|w: int|
                            0 <= w < prev.len() && (#[trigger] prev[w]).mode == m2 && (
                            prev[w].buffer_kind is None || prev[w].buffer_kind == Some(k2))
                                && s2.is_prefix_of(prev[w].keys@);
                        assert(cur[w].mode == prev[w].mode && cur[w].buffer_kind
                            == prev[w].buffer_kind && cur[w].keys@ == prev[w].keys@);
                        assert(is_live_prefix(cur, m2, k2, s2));
                    }
                    if m2 == mode && (buffer_kind is None || buffer_kind == Some(k2))
                        && s2.is_prefix_of(cur[i as int].keys@) {
                        assert(cur[i as int].mode == mode);
                        assert(is_live_prefix(cur, m2, k2, s2));
                    }
                }
            }
        } else {
            proof {
                assert(find_binding(prev, mode, buffer_kind, b.keys@, 0) == prev.len());
            }
            self.mode_bindings.push(b);
            proof {
                let cur = self.mode_bindings@;
                assert(cur == prev.push(cur[cur.len() - 1]));
                let nb = cur[cur.len() - 1];
                assert(lookup_spec(cur, mode, buffer_kind, nb.keys@) == Some(nb.action)) by {
                    lemma_find_binding_push_hit(prev, nb, mode, buffer_kind, 0);
                    assert(find_binding(cur, mode, buffer_kind, nb.keys@, 0) == prev.len());
                    assert(cur[prev.len() as int] == nb);
                }
                assert forall|m2: Mode, k2: Option<BufferKind>, s2: Seq<Keybinding>|
                    !(m2 == mode && k2 == buffer_kind && s2 == nb.keys@) implies #[trigger] lookup_spec(
                    cur,
                    m2,
                    k2,
                    s2,
                ) == lookup_spec(prev, m2, k2, s2) by {
                    lemma_find_binding_push(prev, nb, m2, k2, s2, 0);
                    lemma_find_binding_found(prev, m2, k2, s2, 0);
                    lemma_find_binding_found(cur, m2, k2, s2, 0);
                    let f = find_binding(prev, m2, k2, s2, 0);
                    if f < prev.len() {
                        assert(prev.push(nb)[f] == prev[f]);
                        assert(cur[f] == prev[f]);
                    }
                }
                assert forall|m2: Mode, k2: BufferKind, s2: Seq<Keybinding>| #[trigger] is_live_prefix(
                    cur,
                    m2,
                    k2,
                    s2,
                ) <==> (is_live_prefix(prev, m2, k2, s2) || (m2 == mode && (buffer_kind is None
                    || buffer_kind == Some(k2)) && s2.is_prefix_of(nb.keys@))) by {
                    if is_live_prefix(cur, m2, k2, s2) {
                        let w = choose|w: int|
                            0 <= w < cur.len() && (#[trigger] cur[w]).mode == m2 && (
                            cur[w].buffer_kind is None || cur[w].buffer_kind == Some(k2))
                                && s2.is_prefix_of(cur[w].keys@);
                        if w < prev.len() {
                            assert(is_live_prefix(prev, m2, k2, s2));
                        }
                    }
                    if is_live_prefix(prev, m2, k2, s2) {
                        let w = choose|w: int|
                            0 <= w < prev.len() && (#[trigger] prev[w]).mode == m2 && (
                            prev[w].buffer_kind is None || prev[w].buffer_kind == Some(k2))
                                && s2.is_prefix_of(prev[w].keys@);
                        assert(cur[w].mode == prev[w].mode && cur[w].buffer_kind
                            == prev[w].buffer_kind && cur[w].keys@ == prev[w].keys@);
                        assert(is_live_prefix(cur, m2, k2, s2));
                    }
                    if m2 == mode && (buffer_kind is None || buffer_kind == Some(k2))
                        && s2.is_prefix_of(nb.keys@) {
                        assert(cur[cur.len() - 1].mode == mode);
                        assert(is_live_prefix(cur, m2, k2, s2));
                    }
                }
            }
        }
    }

    /// Resolves one key press.
    ///
    /// The key joins the chord in progress.  In a text-entry mode a
    /// literal key bypasses the table and acts as itself.  Otherwise an
    /// exact match returns its action and ends the chord; no match
    /// returns nothing, keeping the chord alive exactly if it is still
    /// the prefix of some registered sequence.
    pub fn handle_input(&mut self, current_mode: &Mode, key: Keybinding) -> (r: Option<Action>)
        ensures
            final(self).mode_bindings == old(self).mode_bindings,
            final(self).current_buffer_kind == old(self).current_buffer_kind,
            ({
                let s = old(self).current_sequence.keys@.push(key);
                let table = old(self).mode_bindings@;
                let kind = old(self).current_buffer_kind;
                &&& literal_action(*current_mode, key) matches Some(a) ==> (r matches Some(b)
                    && action_like(b, a) && final(self).current_sequence.keys@ == Seq::<
                    Keybinding,
                >::empty())
                &&& literal_action(*current_mode, key) is None ==> {
                    let hit = resolve_spec(table, *current_mode, kind, s);
                    &&& hit matches Some(a) ==> (r matches Some(b) && action_like(b, a) && final(self).current_sequence.keys@ == Seq::<Keybinding>::empty())
                    &&& hit is None ==> r is None && final(self).current_sequence.keys@ == (
                    if is_live_prefix(table, *current_mode, kind, s) {
                        s
                    } else {
                        Seq::<Keybinding>::empty()
                    })
                }
            }),
    {
        self.current_sequence.keys.push(key);

        // literal text entry bypasses the table
        let bypass: Option<Action> = match current_mode {
            Mode::Insert => match key.key {
                Key::Char(c) => {
                    if matches!(key.modifiers, Modifiers::Plain | Modifiers::Shift) {
                        Some(Action::AddChar(AddCharAction::new(c)))
                    } else {
                        None
                    }
                },
                Key::Tab => {
                    if matches!(key.modifiers, Modifiers::Plain | Modifiers::Shift) {
                        Some(Action::AddTab(AddTabAction))
                    } else {
                        None
                    }
                },
                Key::Backspace => Some(Action::DeleteChar(DeleteCharAction)),
                Key::Enter => Some(Action::NewLine(NewLineAction::new(NewLineDirection::Under))),
                _ => None,
            },
            Mode::Command => match key.key {
                Key::Char(c) => {
                    if matches!(key.modifiers, Modifiers::Plain | Modifiers::Shift) {
                        Some(Action::AddChar(AddCharAction::new(c)))
                    } else {
                        None
                    }
                },
                Key::Backspace => Some(Action::DeleteChar(DeleteCharAction)),
                _ => None,
            },
            Mode::Minibuffer => match key.key {
                Key::Char(c) => {
                    if matches!(key.modifiers, Modifiers::Plain | Modifiers::Shift) {
                        Some(Action::AddMbChar(AddMbCharAction::new(c)))
                    } else {
                        None
                    }
                },
                Key::Backspace => Some(Action::DeleteMbChar(DeleteMbCharAction)),
                Key::Esc => Some(Action::Escape(EscapeAction)),
                _ => None,
            },
            _ => None,
        };
        if let Some(a) = bypass {
            self.current_sequence.keys.clear();
            return Some(a);
        }

        // exact lookup: the kind-specific slot, then the wildcard slot
        let specific_hit = find_in(
            &self.mode_bindings,
            current_mode,
            &Some(self.current_buffer_kind),
            &self.current_sequence.keys,
        );
        let found: Option<usize> = match specific_hit {
            Some(i) => Some(i),
            None => find_in(&self.mode_bindings, current_mode, &None, &self.current_sequence.keys),
        };

        match found {
            Some(i) => {
                proof {
                    vstd::std_specs::vec::axiom_spec_len(&self.mode_bindings);
                    let table = self.mode_bindings@;
                    let md = *current_mode;
                    let kind = self.current_buffer_kind;
                    let sq = self.current_sequence.keys@;
                    let fs = find_binding(table, md, Some(kind), sq, 0);
                    let fw = find_binding(table, md, None, sq, 0);
                    if specific_hit is Some {
                        assert(fs < table.len());
                        assert(i == fs);
                        assert(lookup_spec(table, md, Some(kind), sq) == Some(table[fs].action));
                        assert(resolve_spec(table, md, kind, sq) == Some(table[i as int].action));
                    } else {
                        assert(fs == table.len());
                        assert(lookup_spec(table, md, Some(kind), sq) is None);
                        assert(fw < table.len() && i == fw);
                        assert(lookup_spec(table, md, None, sq) == Some(table[fw].action));
                        assert(resolve_spec(table, md, kind, sq) == Some(table[i as int].action));
                    }
                }
                let a = duplicate_action(&self.mode_bindings[i].action);
                self.current_sequence.keys.clear();
                Some(a)
            },
            None => {
                if !live_prefix_in(
                    &self.mode_bindings,
                    current_mode,
                    self.current_buffer_kind,
                    &self.current_sequence.keys,
                ) {
                    self.current_sequence.keys.clear();
                }
                None
            },
        }
    }

    /// Points the resolver at a buffer of the given kind.
    pub fn set_buffer_kind(&mut self, kind: BufferKind)
        ensures
            final(self).current_buffer_kind == kind,
            final(self).mode_bindings == old(self).mode_bindings,
            final(self).current_sequence == old(self).current_sequence,
    {
        self.current_buffer_kind = kind;
    }

    /// Installs the default bindings into an empty table.
    #[verifier::rlimit(100)]
    fn setup_default_bindings(&mut self)
        requires
            old(self).mode_bindings@ == Seq::<Binding>::empty(),
        ensures
            final(self).current_sequence == old(self).current_sequence,
            final(self).current_buffer_kind == old(self).current_buffer_kind,
            forall|k: BufferKind| #[trigger] resolve_spec(
                final(self).mode_bindings@,
                Mode::Normal,
                k,
                top_of_buffer_chord(),
            ) == Some(Action::TopOfBuffer(TopOfBufferAction)),
            forall|k: BufferKind| #[trigger] is_live_prefix(
                final(self).mode_bindings@,
                Mode::Normal,
                k,
                top_of_buffer_chord().take(1),
            ),
            forall|k: BufferKind| #[trigger] resolve_spec(
                final(self).mode_bindings@,
                Mode::Normal,
                k,
                top_of_buffer_chord().take(1),
            ) is None,
            forall|k: BufferKind, kb: Keybinding|
                kb != (Keybinding { key: Key::Char('g'), modifiers: Modifiers::Plain })
                    ==> #[trigger] resolve_spec(
                    final(self).mode_bindings@,
                    Mode::Normal,
                    k,
                    top_of_buffer_chord().take(1).push(kb),
                ) is None,
            forall|k: BufferKind, kb: Keybinding|
                kb != (Keybinding { key: Key::Char('g'), modifiers: Modifiers::Plain })
                    ==> !(#[trigger] is_live_prefix(
                    final(self).mode_bindings@,
                    Mode::Normal,
                    k,
                    top_of_buffer_chord().take(1).push(kb),
                )),
    {
        // NORMAL MODE
        self.add_binding(
            Mode::Normal,
            None,
            one_key(Key::Char('n')),
            Action::MoveCursor(MoveCursorAction::new(-1, 0)),
        );
        self.add_binding(
            Mode::Normal,
            None,
            one_key(Key::Char('e')),
            Action::MoveCursor(MoveCursorAction::new(0, 1)),
        );
        self.add_binding(
            Mode::Normal,
            None,
            one_key(Key::Char('i')),
            Action::MoveCursor(MoveCursorAction::new(0, -1)),
        );
        self.add_binding(
            Mode::Normal,
            None,
            one_key(Key::Char('o')),
            Action::MoveCursor(MoveCursorAction::new(1, 0)),
        );
        self.add_binding(
            Mode::Normal,
            Some(BufferKind::Normal),
            one_key(Key::Char('s')),
            Action::SwitchMode(
                SwitchModeAction::new(
                    ModeParams::Insert { insert_direction: InsertDirection::Before },
                ),
            ),
        );
        self.add_binding(
            Mode::Normal,
            Some(BufferKind::Normal),
            one_shifted(Key::Char('S')),
            Action::SwitchMode(
                SwitchModeAction::new(
                    ModeParams::Insert { insert_direction: InsertDirection::Beginning },
                ),
            ),
        );
        self.add_binding(
            Mode::Normal,
            Some(BufferKind::Normal),
            one_key(Key::Char('a')),
            Action::SwitchMode(
                SwitchModeAction::new(
                    ModeParams::Insert { insert_direction: InsertDirection::After },
                ),
            ),
        );
        self.add_binding(
            Mode::Normal,
            Some(BufferKind::Normal),
            one_shifted(Key::Char('A')),
            Action::SwitchMode(
                SwitchModeAction::new(ModeParams::Insert { insert_direction: InsertDirection::End }),
            ),
        );
        self.add_binding(
            Mode::Normal,
            Some(BufferKind::Normal),
            one_key(Key::Char('x')),
            Action::DeleteChar(DeleteCharAction),
        );
        self.add_binding(
            Mode::Normal,
            Some(BufferKind::Normal),
            two_keys(Key::Char('d'), Key::Char('d')),
            Action::DeleteLine(DeleteLineAction),
        );
        self.add_binding(
            Mode::Normal,
            None,
            two_keys(Key::Char('g'), Key::Char('g')),
            Action::TopOfBuffer(TopOfBufferAction),
        );
        self.add_binding(
            Mode::Normal,
            None,
            one_shifted(Key::Char('G')),
            Action::BotOfBuffer(BotOfBufferAction),
        );
        self.add_binding(
            Mode::Normal,
            Some(BufferKind::Normal),
            one_key(Key::Char('f')),
            Action::NewLine(NewLineAction::new(NewLineDirection::Under)),
        );
        self.add_binding(
            Mode::Normal,
            Some(BufferKind::Normal),
            one_shifted(Key::Char('F')),
            Action::NewLine(NewLineAction::new(NewLineDirection::Over)),
        );
        self.add_binding(
            Mode::Normal,
            None,
            one_key(Key::Char(':')),
            Action::SwitchMode(
                SwitchModeAction::new(
                    ModeParams::Command { prefix: str_to_line(":"), input: Vec::new() },
                ),
            ),
        );
        self.add_binding(
            Mode::Normal,
            None,
            one_key(Key::Char('v')),
            Action::SwitchMode(SwitchModeAction::new(ModeParams::Visual)),
        );
        self.add_binding(
            Mode::Normal,
            None,
            three_keys(Key::Char(' '), Key::Char('f'), Key::Char('f')),
            Action::Minibuffer(MinibufferAction::new(MinibufferKind::File(Vec::new()))),
        );
        self.add_binding(
            Mode::Normal,
            None,
            three_keys(Key::Char(' '), Key::Char('f'), Key::Char('b')),
            Action::Minibuffer(MinibufferAction::new(MinibufferKind::Buffer(Vec::new()))),
        );
        self.add_binding(Mode::Normal, None, one_key(Key::Esc), Action::Escape(EscapeAction));

        // INSERT MODE
        self.add_binding(
            Mode::Insert,
            None,
            one_key(Key::Esc),
            Action::SwitchMode(SwitchModeAction::new(ModeParams::Normal)),
        );
        self.add_binding(
            Mode::Insert,
            None,
            one_key(Key::Enter),
            Action::NewLine(NewLineAction::new(NewLineDirection::Under)),
        );

        // VISUAL MODE
        self.add_binding(
            Mode::Visual,
            None,
            one_key(Key::Char('n')),
            Action::MoveCursor(MoveCursorAction::new(-1, 0)),
        );
        self.add_binding(
            Mode::Visual,
            None,
            one_key(Key::Char('e')),
            Action::MoveCursor(MoveCursorAction::new(0, 1)),
        );
        self.add_binding(
            Mode::Visual,
            None,
            one_key(Key::Char('i')),
            Action::MoveCursor(MoveCursorAction::new(0, -1)),
        );
        self.add_binding(
            Mode::Visual,
            None,
            one_key(Key::Char('o')),
            Action::MoveCursor(MoveCursorAction::new(1, 0)),
        );
        self.add_binding(
            Mode::Visual,
            None,
            one_key(Key::Char('d')),
            Action::DeleteChar(DeleteCharAction),
        );
        self.add_binding(
            Mode::Visual,
            None,
            one_key(Key::Char('x')),
            Action::DeleteChar(DeleteCharAction),
        );
        self.add_binding(
            Mode::Visual,
            None,
            one_key(Key::Esc),
            Action::SwitchMode(SwitchModeAction::new(ModeParams::Normal)),
        );
        self.add_binding(
            Mode::Visual,
            None,
            two_keys(Key::Char('g'), Key::Char('g')),
            Action::TopOfBuffer(TopOfBufferAction),
        );
        self.add_binding(
            Mode::Visual,
            None,
            one_shifted(Key::Char('G')),
            Action::BotOfBuffer(BotOfBufferAction),
        );

        // COMMAND MODE
        self.add_binding(
            Mode::Command,
            None,
            one_key(Key::Esc),
            Action::SwitchMode(SwitchModeAction::new(ModeParams::Normal)),
        );
        self.add_binding(
            Mode::Command,
            None,
            one_key(Key::Enter),
            Action::ExecuteCommand(ExecuteCommandAction),
        );
        self.add_binding(
            Mode::Command,
            None,
            one_key(Key::Left),
            Action::MoveCursor(MoveCursorAction::new(-1, 0)),
        );
        self.add_binding(
            Mode::Command,
            None,
            one_key(Key::Right),
            Action::MoveCursor(MoveCursorAction::new(1, 0)),
        );

        // MINIBUFFER MODE
        self.add_binding(Mode::Minibuffer, None, one_key(Key::Esc), Action::Escape(EscapeAction));
        self.add_binding(
            Mode::Minibuffer,
            None,
            one_key(Key::Enter),
            Action::ExecuteMbCommand(ExecuteMbCommandAction),
        );
        self.add_binding(
            Mode::Minibuffer,
            None,
            one_key(Key::Left),
            Action::MoveMbCursor(MoveMbCursorAction::new(-1, 0)),
        );
        self.add_binding(
            Mode::Minibuffer,
            None,
            one_key(Key::Down),
            Action::MoveMbCursor(MoveMbCursorAction::new(0, 1)),
        );
        self.add_binding(
            Mode::Minibuffer,
            None,
            one_key(Key::Up),
            Action::MoveMbCursor(MoveMbCursorAction::new(0, -1)),
        );
        self.add_binding(
            Mode::Minibuffer,
            None,
            one_key(Key::Right),
            Action::MoveMbCursor(MoveMbCursorAction::new(1, 0)),
        );
        self.add_binding(Mode::Minibuffer, None, one_key(Key::Tab), Action::Append(AppendAction));

        proof {
            let t = self.mode_bindings@;
            let g = Keybinding { key: Key::Char('g'), modifiers: Modifiers::Plain };
            assert(top_of_buffer_chord().take(1) =~= seq![g]);
            // a single g matches none of the one-key defaults
            lemma_one_key_differs(g, Keybinding { key: Key::Char('n'), modifiers: Modifiers::Plain });
            lemma_one_key_differs(g, Keybinding { key: Key::Char('e'), modifiers: Modifiers::Plain });
            lemma_one_key_differs(g, Keybinding { key: Key::Char('i'), modifiers: Modifiers::Plain });
            lemma_one_key_differs(g, Keybinding { key: Key::Char('o'), modifiers: Modifiers::Plain });
            lemma_one_key_differs(g, Keybinding { key: Key::Char(':'), modifiers: Modifiers::Plain });
            lemma_one_key_differs(g, Keybinding { key: Key::Char('v'), modifiers: Modifiers::Plain });
            lemma_one_key_differs(g, Keybinding { key: Key::Char('G'), modifiers: Modifiers::Shift });
            lemma_one_key_differs(g, Keybinding { key: Key::Esc, modifiers: Modifiers::Plain });
            lemma_one_key_differs(g, Keybinding { key: Key::Char('s'), modifiers: Modifiers::Plain });
            lemma_one_key_differs(g, Keybinding { key: Key::Char('S'), modifiers: Modifiers::Shift });
            lemma_one_key_differs(g, Keybinding { key: Key::Char('a'), modifiers: Modifiers::Plain });
            lemma_one_key_differs(g, Keybinding { key: Key::Char('A'), modifiers: Modifiers::Shift });
            lemma_one_key_differs(g, Keybinding { key: Key::Char('x'), modifiers: Modifiers::Plain });
            lemma_one_key_differs(g, Keybinding { key: Key::Char('f'), modifiers: Modifiers::Plain });
            lemma_one_key_differs(g, Keybinding { key: Key::Char('F'), modifiers: Modifiers::Shift });
            assert(lookup_spec(t, Mode::Normal, None, top_of_buffer_chord()) == Some(
                Action::TopOfBuffer(TopOfBufferAction),
            ));
            assert forall|k: BufferKind| #[trigger] lookup_spec(
                t,
                Mode::Normal,
                Some(k),
                top_of_buffer_chord(),
            ) is None by {}
            assert(lookup_spec(t, Mode::Normal, None, seq![g]) is None);
            assert(lookup_spec(t, Mode::Normal, Some(BufferKind::Normal), seq![g]) is None);
            assert(lookup_spec(t, Mode::Normal, Some(BufferKind::BufferList), seq![g]) is None);
            assert forall|k: BufferKind| #[trigger] resolve_spec(
                t,
                Mode::Normal,
                k,
                top_of_buffer_chord().take(1),
            ) is None by {
                assert(k == BufferKind::Normal || k == BufferKind::BufferList);
                assert(lookup_spec(t, Mode::Normal, Some(k), seq![g]) is None);
                assert(lookup_spec(t, Mode::Normal, None, seq![g]) is None);
            }
            assert forall|k: BufferKind, kb: Keybinding|
                kb != (Keybinding {
                    key: Key::Char('g'),
                    modifiers: Modifiers::Plain,
                }) implies !(#[trigger] is_live_prefix(
                t,
                Mode::Normal,
                k,
                top_of_buffer_chord().take(1).push(kb),
            )) by {
                assert(top_of_buffer_chord().take(1).push(kb) =~= seq![g, kb]);
                assert(!is_live_prefix(t, Mode::Normal, k, seq![g, kb]));
            }
            assert forall|k: BufferKind, kb: Keybinding|
                kb != (Keybinding {
                    key: Key::Char('g'),
                    modifiers: Modifiers::Plain,
                }) implies #[trigger] resolve_spec(
                t,
                Mode::Normal,
                k,
                top_of_buffer_chord().take(1).push(kb),
            ) is None by {
                assert(top_of_buffer_chord().take(1).push(kb) =~= seq![g, kb]);
                lemma_no_prefix_no_lookup(t, Mode::Normal, k, seq![g, kb]);
            }
        }
    }
}


/// Index of the first binding of this mode and slot matching `keys`
/// exactly.
#[verifier::loop_isolation(false)]
fn find_in(
    table: &Vec<Binding>,
    mode: &Mode,
    slot: &Option<BufferKind>,
    keys: &Vec<Keybinding>,
) -> (r: Option<usize>)
    ensures
        ({
            let i = find_binding(table@, *mode, *slot, keys@, 0);
            &&& 0 <= i <= table@.len()
            &&& i < table@.len() ==> r == Some(i as usize)
            &&& i == table@.len() ==> r is None
        }),
{
    proof {
        lemma_find_binding_found(table@, *mode, *slot, keys@, 0);
    }
    let mut i: usize = 0;
    while i < table.len()
        invariant
            i <= table@.len(),
            find_binding(table@, *mode, *slot, keys@, 0) == find_binding(
                table@,
                *mode,
                *slot,
                keys@,
                i as int,
            ),
        decreases table@.len() - i,
    {
        let b = &table[i];
        if b.mode == *mode && option_kind_equal(&b.buffer_kind, slot) && keys_equal(
            &b.keys,
            keys,
        ) {
            return Some(i);
        }
        i += 1;
    }
    None
}

/// Whether `keys` still leads towards some chord of this mode, in the
/// wildcard slot or the slot of this buffer kind.
#[verifier::loop_isolation(false)]
fn live_prefix_in(table: &Vec<Binding>, mode: &Mode, kind: BufferKind, keys: &Vec<Keybinding>) -> (r:
    bool)
    ensures
        r == is_live_prefix(table@, *mode, kind, keys@),
{
    let mut i: usize = 0;
    while i < table.len()
        invariant
            i <= table@.len(),
            forall|j: int|
                0 <= j < i ==> !((#[trigger] table@[j]).mode == *mode && (table@[j].buffer_kind
                    is None || table@[j].buffer_kind == Some(kind)) && keys@.is_prefix_of(
                    table@[j].keys@,
                )),
        decreases table@.len() - i,
    {
        let b = &table[i];
        let kind_ok = match b.buffer_kind {
            None => true,
            Some(k) => k == kind,
        };
        if b.mode == *mode && kind_ok && keys_prefix(keys, &b.keys) {
            return true;
        }
        i += 1;
    }
    false
}

/// A one-key sequence without modifiers.
fn one_key(key: Key) -> (r: Vec<Keybinding>)
    ensures
        r@ == seq![Keybinding { key, modifiers: Modifiers::Plain }],
{
    let mut r: Vec<Keybinding> = Vec::new();
    r.push(Keybinding { key, modifiers: Modifiers::Plain });
    proof {
        assert(r@ =~= seq![Keybinding { key, modifiers: Modifiers::Plain }]);
    }
    r
}

/// A one-key sequence with shift held.
fn one_shifted(key: Key) -> (r: Vec<Keybinding>)
    ensures
        r@ == seq![Keybinding { key, modifiers: Modifiers::Shift }],
{
    let mut r: Vec<Keybinding> = Vec::new();
    r.push(Keybinding { key, modifiers: Modifiers::Shift });
    proof {
        assert(r@ =~= seq![Keybinding { key, modifiers: Modifiers::Shift }]);
    }
    r
}

/// A two-key chord without modifiers.
fn two_keys(a: Key, b: Key) -> (r: Vec<Keybinding>)
    ensures
        r@ == seq![
            Keybinding { key: a, modifiers: Modifiers::Plain },
            Keybinding { key: b, modifiers: Modifiers::Plain },
        ],
{
    let mut r: Vec<Keybinding> = Vec::new();
    r.push(Keybinding { key: a, modifiers: Modifiers::Plain });
    r.push(Keybinding { key: b, modifiers: Modifiers::Plain });
    proof {
        assert(r@ =~= seq![
            Keybinding { key: a, modifiers: Modifiers::Plain },
            Keybinding { key: b, modifiers: Modifiers::Plain },
        ]);
    }
    r
}

/// A three-key chord without modifiers.
fn three_keys(a: Key, b: Key, c: Key) -> (r: Vec<Keybinding>)
    ensures
        r@ == seq![
            Keybinding { key: a, modifiers: Modifiers::Plain },
            Keybinding { key: b, modifiers: Modifiers::Plain },
            Keybinding { key: c, modifiers: Modifiers::Plain },
        ],
{
    let mut r: Vec<Keybinding> = Vec::new();
    r.push(Keybinding { key: a, modifiers: Modifiers::Plain });
    r.push(Keybinding { key: b, modifiers: Modifiers::Plain });
    r.push(Keybinding { key: c, modifiers: Modifiers::Plain });
    proof {
        assert(r@ =~= seq![
            Keybinding { key: a, modifiers: Modifiers::Plain },
            Keybinding { key: b, modifiers: Modifiers::Plain },
            Keybinding { key: c, modifiers: Modifiers::Plain },
        ]);
    }
    r
}

/// Compares two buffer-kind slots.
fn option_kind_equal(a: &Option<BufferKind>, b: &Option<BufferKind>) -> (r: bool)
    ensures
        r == (a == b),
{
    match (a, b) {
        (None, None) => true,
        (Some(x), Some(y)) => x == y,
        _ => false,
    }
}

/// Compares two key sequences.
fn keys_equal(a: &Vec<Keybinding>, b: &Vec<Keybinding>) -> (r: bool)
    ensures
        r == (a@ == b@),
{
    if a.len() != b.len() {
        return false;
    }
    let mut i: usize = 0;
    while i < a.len()
        invariant
            i <= a@.len(),
            a@.len() == b@.len(),
            forall|j: int| 0 <= j < i ==> a@[j] == b@[j],
        decreases a@.len() - i,
    {
        if a[i] != b[i] {
            return false;
        }
        i += 1;
    }
    proof {
        assert(a@ =~= b@);
    }
    true
}

/// Whether `a` is a prefix of `b`.
fn keys_prefix(a: &Vec<Keybinding>, b: &Vec<Keybinding>) -> (r: bool)
    ensures
        r == a@.is_prefix_of(b@),
{
    if a.len() > b.len() {
        return false;
    }
    let mut i: usize = 0;
    while i < a.len()
        invariant
            i <= a@.len(),
            a@.len() <= b@.len(),
            forall|j: int| 0 <= j < i ==> a@[j] == b@[j],
        decreases a@.len() - i,
    {
        if a[i] != b[i] {
            proof {
                assert(!a@.is_prefix_of(b@)) by {
                    assert(b@.subrange(0, a@.len() as int)[i as int] == b@[i as int]);
                }
            }
            return false;
        }
        i += 1;
    }
    proof {
        assert(a@ =~= b@.subrange(0, a@.len() as int));
    }
    true
}

/// Copies an action out of the binding table.
fn duplicate_action(a: &Action) -> (r: Action)
    ensures
        action_like(r, *a),
{
    match a {
        Action::MoveCursor(x) => Action::MoveCursor(*x),
        Action::SwitchMode(x) => Action::SwitchMode(
            SwitchModeAction {
                params: match &x.params {
                    ModeParams::Normal => ModeParams::Normal,
                    ModeParams::Insert { insert_direction } => ModeParams::Insert {
                        insert_direction: *insert_direction,
                    },
                    ModeParams::Visual => ModeParams::Visual,
                    ModeParams::Command { prefix, input } => ModeParams::Command {
                        prefix: crate::text::clone_line(prefix),
                        input: crate::text::clone_line(input),
                    },
                    ModeParams::Minibuffer => ModeParams::Minibuffer,
                },
            },
        ),
        Action::AddChar(x) => Action::AddChar(*x),
        Action::AddTab(x) => Action::AddTab(*x),
        Action::NewLine(x) => Action::NewLine(*x),
        Action::DeleteLine(x) => Action::DeleteLine(*x),
        Action::TopOfBuffer(x) => Action::TopOfBuffer(*x),
        Action::BotOfBuffer(x) => Action::BotOfBuffer(*x),
        Action::Quit(x) => Action::Quit(*x),
        Action::DeleteChar(x) => Action::DeleteChar(*x),
        Action::WriteBuffer(x) => Action::WriteBuffer(*x),
        Action::ExecuteCommand(x) => Action::ExecuteCommand(*x),
        Action::OpenFile(x) => Action::OpenFile(
            OpenFileAction { path: crate::text::clone_lines(&x.path) },
        ),
        Action::Minibuffer(x) => Action::Minibuffer(
            MinibufferAction {
                kind: match &x.kind {
                    MinibufferKind::Nop => MinibufferKind::Nop,
                    MinibufferKind::File(p) => MinibufferKind::File(crate::text::clone_lines(p)),
                    MinibufferKind::Buffer(t) => MinibufferKind::Buffer(crate::text::clone_lines(t)),
                },
            },
        ),
        Action::Append(x) => Action::Append(*x),
        Action::OpenBuffer(x) => Action::OpenBuffer(*x),
        Action::Escape(x) => Action::Escape(*x),
        Action::AddMbChar(x) => Action::AddMbChar(*x),
        Action::DeleteMbChar(x) => Action::DeleteMbChar(*x),
        Action::ExecuteMbCommand(x) => Action::ExecuteMbCommand(*x),
        Action::MoveMbCursor(x) => Action::MoveMbCursor(*x),
    }
}

impl CommandParser {
    /// Turns the typed command into the actions it stands for: `w`
    /// writes, `q` quits, `wq` does both in order; anything else does
    /// nothing.
    pub fn parse(input: &Vec<char>) -> (r: Vec<Action>)
        ensures
            input@ == "wq"@ ==> r@ == seq![
                Action::WriteBuffer(WriteBufferAction),
                Action::Quit(QuitAction),
            ],
            input@ == "w"@ ==> r@ == seq![Action::WriteBuffer(WriteBufferAction)],
            input@ == "q"@ ==> r@ == seq![Action::Quit(QuitAction)],
            input@ != "wq"@ && input@ != "w"@ && input@ != "q"@ ==> r@ == Seq::<Action>::empty(),
    {
        let mut r: Vec<Action> = Vec::new();
        let wq = str_to_line("wq");
        let w = str_to_line("w");
        let q = str_to_line("q");
        proof {
            reveal_strlit("wq");
            reveal_strlit("w");
            reveal_strlit("q");
            assert("wq"@.len() == 2 && "w"@.len() == 1 && "q"@.len() == 1);
            assert("w"@[0] == 'w' && "q"@[0] == 'q');
            assert(r@ =~= Seq::<Action>::empty());
        }
        if crate::text::lines_equal(input, &wq) {
            r.push(Action::WriteBuffer(WriteBufferAction));
            r.push(Action::Quit(QuitAction));
            proof {
                assert(r@ =~= seq![
                    Action::WriteBuffer(WriteBufferAction),
                    Action::Quit(QuitAction),
                ]);
            }
        } else if crate::text::lines_equal(input, &w) {
            r.push(Action::WriteBuffer(WriteBufferAction));
            proof {
                assert(r@ =~= seq![Action::WriteBuffer(WriteBufferAction)]);
            }
        } else if crate::text::lines_equal(input, &q) {
            r.push(Action::Quit(QuitAction));
            proof {
                assert(r@ =~= seq![Action::Quit(QuitAction)]);
            }
        }
        r
    }
}

} // verus!
