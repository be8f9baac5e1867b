use vstd::prelude::*;
use vstd::string::*;
use crate::strings::str_chars;

verus! {

/// What a frame of keyboard input did to the dialog.
#[derive(Clone, Copy, Debug, PartialEq, Eq, Structural)]
pub enum KeyOutcome {
    /// The dialog stays open.
    Continue,
    /// The text was submitted; the dialog closes.
    Confirm,
    /// The dialog was dismissed; it closes.
    Cancel,
}

/// The keys and characters of one frame of keyboard input.
pub struct KeyFrame {
    /// A control key is held.
    pub ctrl: bool,
    pub key_a: bool,
    pub key_c: bool,
    pub key_x: bool,
    pub key_v: bool,
    /// The clipboard's content, read when control and V are pressed.
    pub clipboard: Option<Vec<char>>,
    /// The characters typed this frame, in the order they were received.
    pub chars: Vec<char>,
    pub backspace: bool,
    pub delete: bool,
    pub left: bool,
    pub right: bool,
    pub home: bool,
    pub end: bool,
    pub enter: bool,
    pub escape: bool,
}

/// The result of a frame: the outcome and, when text was copied or cut, the
/// text to put on the clipboard.
pub struct KeyResult {
    pub outcome: KeyOutcome,
    pub clipboard: Option<Vec<char>>,
}

/// The editable state of a text field: its characters, the cursor (a position
/// between characters) and the selected range, if any.
pub struct EditState {
    pub text: Seq<char>,
    pub cursor: int,
    pub selection: Option<(int, int)>,
}

/// The cursor and the selection lie within the text.
pub open spec fn edit_wf(st: EditState) -> bool {
    &&& 0 <= st.cursor <= st.text.len()
    &&& st.selection matches Some((s, e)) ==> 0 <= s <= e <= st.text.len()
}

/// Deletes the selected range, if any, and puts the cursor where it began.
pub open spec fn take_selection(st: EditState) -> EditState {
    match st.selection {
        Some((s, e)) => EditState {
            text: st.text.subrange(0, s) + st.text.subrange(e, st.text.len() as int),
            cursor: s,
            selection: None,
        },
        None => st,
    }
}

/// Inserts `ins` at the cursor and moves the cursor past it.
pub open spec fn insert_at_cursor(st: EditState, ins: Seq<char>) -> EditState {
    EditState {
        text: st.text.subrange(0, st.cursor) + ins + st.text.subrange(st.cursor, st.text.len() as int),
        cursor: st.cursor + ins.len(),
        selection: st.selection,
    }
}

/// The selected characters, if any.
pub open spec fn selected_text(st: EditState) -> Option<Seq<char>> {
    match st.selection {
        Some((s, e)) => Some(st.text.subrange(s, e)),
        None => None,
    }
}

/// A control character (Unicode category Cc).
pub open spec fn is_control_char(c: char) -> bool {
    (c as u32) <= 0x1f || (0x7f <= (c as u32) && (c as u32) <= 0x9f)
}

/// The characters of a frame's input that are kept, in arrival order;
/// `None` when a line break submits a single-line field.
pub open spec fn filter_typed(chars: Seq<char>, multiline: bool) -> Option<Seq<char>>
    decreases chars.len(),
{
    if chars.len() == 0 {
        Some(Seq::empty())
    } else {
        match filter_typed(chars.drop_last(), multiline) {
            None => None,
            Some(acc) => {
                let c = chars.last();
                if c == '\r' || c == '\n' {
                    if multiline {
                        Some(acc.push('\n'))
                    } else {
                        None
                    }
                } else if c == '\u{8}' || c == '\u{7f}' {
                    Some(acc)
                } else if is_control_char(c) && c != '\t' {
                    Some(acc)
                } else {
                    Some(acc.push(c))
                }
            }
        }
    }
}

/// The characters of `s` in reverse order.
pub open spec fn reversed(s: Seq<char>) -> Seq<char> {
    Seq::new(s.len(), |i: int| s[s.len() - 1 - i])
}

/// Backspace: deletes the selection, or else the character before the cursor.
pub open spec fn backspace_op(st: EditState) -> EditState {
    if st.selection is Some {
        take_selection(st)
    } else if st.cursor > 0 {
        EditState {
            text: st.text.subrange(0, st.cursor - 1) + st.text.subrange(st.cursor, st.text.len() as int),
            cursor: st.cursor - 1,
            selection: None,
        }
    } else {
        st
    }
}

/// Delete: deletes the selection, or else the character after the cursor.
pub open spec fn delete_op(st: EditState) -> EditState {
    if st.selection is Some {
        take_selection(st)
    } else if st.cursor < st.text.len() {
        EditState {
            text: st.text.subrange(0, st.cursor) + st.text.subrange(st.cursor + 1, st.text.len() as int),
            cursor: st.cursor,
            selection: None,
        }
    } else {
        st
    }
}

/// Left arrow: one character back, dropping the selection.
pub open spec fn left_op(st: EditState) -> EditState {
    if st.cursor > 0 {
        EditState { text: st.text, cursor: st.cursor - 1, selection: None }
    } else {
        st
    }
}

/// Right arrow: one character forward, dropping the selection.
pub open spec fn right_op(st: EditState) -> EditState {
    if st.cursor < st.text.len() {
        EditState { text: st.text, cursor: st.cursor + 1, selection: None }
    } else {
        st
    }
}

/// The state after one frame of keyboard input with the given keys: control
/// shortcuts first (select all, copy, cut, paste), else the typed
/// characters, then backspace, delete, arrows, home, end, enter and escape, in
/// that order. The result also holds the outcome and the text for the
/// clipboard.
pub open spec fn key_frame_step(
    st: EditState,
    multiline: bool,
    ctrl: bool,
    key_a: bool,
    key_c: bool,
    key_x: bool,
    key_v: bool,
    clip: Option<Seq<char>>,
    chars: Seq<char>,
    keys: (bool, bool, bool, bool, bool, bool, bool, bool),
) -> (EditState, KeyOutcome, Option<Seq<char>>) {
    let (backspace, delete, left, right, home, end, enter, escape) = keys;
    if ctrl && key_a {
        (EditState { text: st.text, cursor: st.text.len() as int, selection: Some((0, st.text.len() as int)) }, KeyOutcome::Continue, None)
    } else if ctrl && key_c {
        (st, KeyOutcome::Continue, selected_text(st))
    } else if ctrl && key_x {
        (take_selection(st), KeyOutcome::Continue, selected_text(st))
    } else if ctrl && key_v {
        match clip {
            Some(c) => (insert_at_cursor(take_selection(st), c), KeyOutcome::Continue, None),
            None => (st, KeyOutcome::Continue, None),
        }
    } else {
        match filter_typed(chars, multiline) {
            None => (st, KeyOutcome::Confirm, None),
            Some(inp) => {
                let (s7, outcome) = edit_keys_step(st, multiline, inp, keys);
                (s7, outcome, None)
            },
        }
    }
}

/// The state and outcome after inserting the kept characters `inp` (in
/// reverse order, replacing the selection) and applying backspace, delete,
/// the arrows, home, end, enter and escape in that order.
pub open spec fn edit_keys_step(
    st: EditState,
    multiline: bool,
    inp: Seq<char>,
    keys: (bool, bool, bool, bool, bool, bool, bool, bool),
) -> (EditState, KeyOutcome) {
    let (backspace, delete, left, right, home, end, enter, escape) = keys;
    let s1 = if inp.len() > 0 {
        insert_at_cursor(take_selection(st), reversed(inp))
    } else {
        st
    };
    let s2 = if backspace { backspace_op(s1) } else { s1 };
    let s3 = if delete { delete_op(s2) } else { s2 };
    let s4 = if left { left_op(s3) } else { s3 };
    let s5 = if right { right_op(s4) } else { s4 };
    let s6 = if home { EditState { text: s5.text, cursor: 0, selection: None } } else { s5 };
    let s7 = if end {
        EditState { text: s6.text, cursor: s6.text.len() as int, selection: None }
    } else {
        s6
    };
    if enter && !multiline {
        (s7, KeyOutcome::Confirm)
    } else if escape {
        (s7, KeyOutcome::Cancel)
    } else {
        (s7, KeyOutcome::Continue)
    }
}

/// How the dialog takes its text.
#[derive(Clone, Copy, Debug, PartialEq, Eq, Structural)]
pub enum InputMode {
    Text,
    Password,
    Multiline,
}

/// A modal text-input dialog: its texts and the editing state of its field.
pub struct InputDialog {
    pub id: String,
    pub title: String,
    pub prompt: String,
    pub text: Vec<char>,
    pub password: bool,
    pub multiline: bool,
    pub ok_label: String,
    pub cancel_label: String,
    pub cursor: usize,
    pub selection: Option<(usize, usize)>,
}

/// `res` is `v` with the range `[s, e)` replaced by `ins`.
fn splice(v: &Vec<char>, s: usize, e: usize, ins: &Vec<char>) -> (res: Vec<char>)
    requires
        s <= e <= v@.len(),
        v@.len() + ins@.len() <= usize::MAX,
    ensures
        res@ == v@.subrange(0, s as int) + ins@ + v@.subrange(e as int, v@.len() as int),
{
    let mut res: Vec<char> = Vec::new();
    let mut i: usize = 0;
    while i < s
        invariant
            i <= s <= e <= v@.len(),
            res@ == v@.subrange(0, i as int),
        decreases s - i,
    {
        res.push(v[i]);
        i = i + 1;
    }
    let mut j: usize = 0;
    while j < ins.len()
        invariant
            j <= ins@.len(),
            res@ == v@.subrange(0, s as int) + ins@.subrange(0, j as int),
        decreases ins@.len() - j,
    {
        res.push(ins[j]);
        j = j + 1;
    }
    assert(ins@.subrange(0, ins@.len() as int) == ins@);
    let mut k: usize = e;
    while k < v.len()
        invariant
            s <= e <= k <= v@.len(),
            res@ == v@.subrange(0, s as int) + ins@ + v@.subrange(e as int, k as int),
        decreases v@.len() - k,
    {
        res.push(v[k]);
        k = k + 1;
        assert(v@.subrange(e as int, k as int) == v@.subrange(e as int, k - 1) + seq![v@[k - 1]]);
    }
    res
}

/// The characters of `v` from `s` to `e`.
fn slice_chars(v: &Vec<char>, s: usize, e: usize) -> (res: Vec<char>)
    requires
        s <= e <= v@.len(),
    ensures
        res@ == v@.subrange(s as int, e as int),
{
    let mut res: Vec<char> = Vec::new();
    let mut i: usize = s;
    while i < e
        invariant
            s <= i <= e <= v@.len(),
            res@ == v@.subrange(s as int, i as int),
        decreases e - i,
    {
        res.push(v[i]);
        i = i + 1;
    }
    res
}

/// Whether `c` is a control character (Unicode category Cc).
pub fn is_control(c: char) -> (res: bool)
    ensures
        res == is_control_char(c),
{
    let u = c as u32;
    u <= 0x1f || (0x7f <= u && u <= 0x9f)
}

impl InputDialog {
    /// The abstract editing state.
    pub open spec fn edit_state(&self) -> EditState {
        EditState {
            text: self.text@,
            cursor: self.cursor as int,
            selection: match self.selection {
                Some((s, e)) => Some((s as int, e as int)),
                None => None,
            },
        }
    }

    /// The dialog's id, texts, labels and mode are those of `other`.
    pub open spec fn same_labels(&self, other: InputDialog) -> bool {
        &&& self.id == other.id
        &&& self.title == other.title
        &&& self.prompt == other.prompt
        &&& self.password == other.password
        &&& self.ok_label == other.ok_label
        &&& self.cancel_label == other.cancel_label
    }

    /// The cursor and selection lie within the text.
    pub open spec fn wf(&self) -> bool {
        edit_wf(self.edit_state())
    }

    /// Opens a dialog on `default` with the cursor at its end; missing labels
    /// default to empty title and prompt, "OK" and "Cancel".
    pub fn new(
        id: String,
        mode: InputMode,
        default: &str,
        title: Option<String>,
        prompt: Option<String>,
        ok_label: Option<String>,
        cancel_label: Option<String>,
    ) -> (res: InputDialog)
        ensures
            res.wf(),
            res.id == id,
            res.text@ == default@,
            res.cursor == default@.len(),
            res.selection is None,
            res.password == (mode == InputMode::Password),
            res.multiline == (mode == InputMode::Multiline),
            title matches Some(t) ==> res.title == t,
            title is None ==> res.title@ == Seq::<char>::empty(),
            prompt matches Some(p) ==> res.prompt == p,
            prompt is None ==> res.prompt@ == Seq::<char>::empty(),
            ok_label matches Some(l) ==> res.ok_label == l,
            ok_label is None ==> res.ok_label@ == "OK"@,
            cancel_label matches Some(l) ==> res.cancel_label == l,
            cancel_label is None ==> res.cancel_label@ == "Cancel"@,
    {
        let text = str_chars(default);
        let cursor = text.len();
        InputDialog {
            id,
            title: match title {
                Some(t) => t,
                None => String::new(),
            },
            prompt: match prompt {
                Some(p) => p,
                None => String::new(),
            },
            text,
            password: mode == InputMode::Password,
            multiline: mode == InputMode::Multiline,
            ok_label: match ok_label {
                Some(l) => l,
                None => String::from_str("OK"),
            },
            cancel_label: match cancel_label {
                Some(l) => l,
                None => String::from_str("Cancel"),
            },
            cursor,
            selection: None,
        }
    }

    /// Deletes the selected range, if any, and moves the cursor to its start.
    fn take_selection(&mut self)
        requires
            old(self).wf(),
        ensures
            final(self).wf(),
            final(self).edit_state() == take_selection(old(self).edit_state()),
            final(self).multiline == old(self).multiline,
            final(self).same_labels(*old(self)),
    {
        if let Some((s, e)) = self.selection {
            let empty: Vec<char> = Vec::new();
            let _ = self.text.len();
            self.text = splice(&self.text, s, e, &empty);
            self.cursor = s;
            self.selection = None;
            proof {
                assert(self.text@ == old(self).text@.subrange(0, s as int) + old(self).text@.subrange(e as int, old(self).text@.len() as int));
            }
        }
    }

    /// Inserts `ins` at the cursor and moves the cursor past it.
    fn insert_at_cursor(&mut self, ins: &Vec<char>)
        requires
            old(self).wf(),
            old(self).selection is None,
            old(self).text@.len() + ins@.len() <= usize::MAX,
        ensures
            final(self).wf(),
            final(self).edit_state() == insert_at_cursor(old(self).edit_state(), ins@),
            final(self).multiline == old(self).multiline,
            final(self).same_labels(*old(self)),
    {
        self.text = splice(&self.text, self.cursor, self.cursor, ins);
        self.cursor = self.cursor + ins.len();
    }

    /// Handles one frame of keyboard input: control shortcuts, typed
    /// characters, editing and navigation keys, enter and escape.
    pub fn update_keyboard(&mut self, frame: &KeyFrame) -> (res: KeyResult)
        requires
            old(self).wf(),
            old(self).text@.len() + frame.chars@.len() <= usize::MAX,
            frame.clipboard matches Some(c) ==> old(self).text@.len() + c@.len() <= usize::MAX,
        ensures
            final(self).wf(),
            final(self).multiline == old(self).multiline,
            final(self).same_labels(*old(self)),
            ({
                let (st, outcome, clip) = key_frame_step(
                    old(self).edit_state(),
                    old(self).multiline,
                    frame.ctrl,
                    frame.key_a,
                    frame.key_c,
                    frame.key_x,
                    frame.key_v,
                    match frame.clipboard {
                        Some(c) => Some(c@),
                        None => None,
                    },
                    frame.chars@,
                    (frame.backspace, frame.delete, frame.left, frame.right, frame.home, frame.end, frame.enter, frame.escape),
                );
                &&& final(self).edit_state() == st
                &&& res.outcome == outcome
                &&& match res.clipboard {
                    Some(c) => clip == Some(c@),
                    None => clip is None,
                }
            }),
    {
        let ghost st0 = self.edit_state();
        if frame.ctrl && frame.key_a {
            self.selection = Some((0, self.text.len()));
            self.cursor = self.text.len();
            return KeyResult { outcome: KeyOutcome::Continue, clipboard: None };
        }
        if frame.ctrl && frame.key_c {
            let clip = match self.selection {
                Some((s, e)) => Some(slice_chars(&self.text, s, e)),
                None => None,
            };
            return KeyResult { outcome: KeyOutcome::Continue, clipboard: clip };
        }
        if frame.ctrl && frame.key_x {
            let clip = match self.selection {
                Some((s, e)) => Some(slice_chars(&self.text, s, e)),
                None => None,
            };
            self.take_selection();
            return KeyResult { outcome: KeyOutcome::Continue, clipboard: clip };
        }
        if frame.ctrl && frame.key_v {
            match &frame.clipboard {
                Some(clip) => {
                    self.take_selection();
                    self.insert_at_cursor(clip);
                },
                None => {},
            }
            return KeyResult { outcome: KeyOutcome::Continue, clipboard: None };
        }
        match filter_input(&frame.chars, self.multiline) {
            None => KeyResult { outcome: KeyOutcome::Confirm, clipboard: None },
            Some(input) => {
                let outcome = self.apply_edit_keys(&input, frame);
                KeyResult { outcome, clipboard: None }
            },
        }
    }

    /// Inserts the kept characters and applies the editing and navigation
    /// keys of a frame.
    fn apply_edit_keys(&mut self, input: &Vec<char>, frame: &KeyFrame) -> (res: KeyOutcome)
        requires
            old(self).wf(),
            old(self).text@.len() + input@.len() <= usize::MAX,
        ensures
            final(self).wf(),
            final(self).multiline == old(self).multiline,
            final(self).same_labels(*old(self)),
            (final(self).edit_state(), res) == edit_keys_step(
                old(self).edit_state(),
                old(self).multiline,
                input@,
                (frame.backspace, frame.delete, frame.left, frame.right, frame.home, frame.end, frame.enter, frame.escape),
            ),
    {
        self.insert_typed(input);
        if frame.backspace {
            self.backspace_key();
        }
        if frame.delete {
            self.delete_key();
        }
        if frame.left {
            self.left_key();
        }
        if frame.right {
            self.right_key();
        }
        if frame.home {
            self.selection = None;
            self.cursor = 0;
        }
        if frame.end {
            self.selection = None;
            self.cursor = self.text.len();
        }
        if frame.enter && !self.multiline {
            return KeyOutcome::Confirm;
        }
        if frame.escape {
            return KeyOutcome::Cancel;
        }
        KeyOutcome::Continue
    }

    /// Replaces the selection by the typed characters, in reverse order.
    fn insert_typed(&mut self, input: &Vec<char>)
        requires
            old(self).wf(),
            old(self).text@.len() + input@.len() <= usize::MAX,
        ensures
            final(self).wf(),
            final(self).multiline == old(self).multiline,
            final(self).same_labels(*old(self)),
            final(self).edit_state() == (if input@.len() > 0 {
                insert_at_cursor(take_selection(old(self).edit_state()), reversed(input@))
            } else {
                old(self).edit_state()
            }),
    {
        if input.len() > 0 {
            self.take_selection();
            let mut rev: Vec<char> = Vec::new();
            let mut k: usize = input.len();
            while k > 0
                invariant
                    k <= input@.len(),
                    rev@ == reversed(input@).subrange(0, (input@.len() - k) as int),
                decreases k,
            {
                k = k - 1;
                rev.push(input[k]);
            }
            assert(rev@ == reversed(input@));
            self.insert_at_cursor(&rev);
        }
    }

    /// Backspace: deletes the selection, or else the character before the
    /// cursor.
    fn backspace_key(&mut self)
        requires
            old(self).wf(),
        ensures
            final(self).wf(),
            final(self).multiline == old(self).multiline,
            final(self).same_labels(*old(self)),
            final(self).edit_state() == backspace_op(old(self).edit_state()),
    {
        if self.selection.is_some() {
            self.take_selection();
        } else if self.cursor > 0 {
            let empty: Vec<char> = Vec::new();
            let _ = self.text.len();
            self.text = splice(&self.text, self.cursor - 1, self.cursor, &empty);
            self.cursor = self.cursor - 1;
        }
    }

    /// Delete: deletes the selection, or else the character after the cursor.
    fn delete_key(&mut self)
        requires
            old(self).wf(),
        ensures
            final(self).wf(),
            final(self).multiline == old(self).multiline,
            final(self).same_labels(*old(self)),
            final(self).edit_state() == delete_op(old(self).edit_state()),
    {
        if self.selection.is_some() {
            self.take_selection();
        } else if self.cursor < self.text.len() {
            let empty: Vec<char> = Vec::new();
            self.text = splice(&self.text, self.cursor, self.cursor + 1, &empty);
        }
    }

    /// Left arrow.
    fn left_key(&mut self)
        requires
            old(self).wf(),
        ensures
            final(self).wf(),
            final(self).multiline == old(self).multiline,
            final(self).same_labels(*old(self)),
            final(self).edit_state() == left_op(old(self).edit_state()),
    {
        if self.cursor > 0 {
            self.selection = None;
            self.cursor = self.cursor - 1;
        }
    }

    /// Right arrow.
    fn right_key(&mut self)
        requires
            old(self).wf(),
        ensures
            final(self).wf(),
            final(self).multiline == old(self).multiline,
            final(self).same_labels(*old(self)),
            final(self).edit_state() == right_op(old(self).edit_state()),
    {
        if self.cursor < self.text.len() {
            self.selection = None;
            self.cursor = self.cursor + 1;
        }
    }
}

/// The characters of a frame's input that are kept; `None` when a line break
/// submits a single-line field.
fn filter_input(chars: &Vec<char>, multiline: bool) -> (res: Option<Vec<char>>)
    ensures
        match res {
            Some(v) => filter_typed(chars@, multiline) == Some(v@),
            None => filter_typed(chars@, multiline) is None,
        },
        res matches Some(v) ==> v@.len() <= chars@.len(),
{
    let mut input: Vec<char> = Vec::new();
    let mut i: usize = 0;
    while i < chars.len()
        invariant
            i <= chars@.len(),
            filter_typed(chars@.subrange(0, i as int), multiline) == Some(input@),
            input@.len() <= i,
        decreases chars@.len() - i,
    {
        let c = chars[i];
        proof {
            assert(chars@.subrange(0, i + 1).drop_last() == chars@.subrange(0, i as int));
            assert(chars@.subrange(0, i + 1).last() == c);
        }
        if c == '\r' || c == '\n' {
            if multiline {
                input.push('\n');
            } else {
                proof {
                    lemma_filter_none_extends(chars@, (i + 1) as int, multiline);
                }
                return None;
            }
        } else if c == '\u{8}' || c == '\u{7f}' {
        } else if is_control(c) && c != '\t' {
        } else {
            input.push(c);
        }
        i = i + 1;
    }
    assert(chars@.subrange(0, chars@.len() as int) == chars@);
    Some(input)
}

/// Once a line break has submitted a single-line field, later characters do
/// not matter.
proof fn lemma_filter_none_extends(chars: Seq<char>, i: int, multiline: bool)
    requires
        0 < i <= chars.len(),
        filter_typed(chars.subrange(0, i), multiline) is None,
    ensures
        filter_typed(chars, multiline) is None,
    decreases chars.len() - i,
{
    if i < chars.len() {
        assert(chars.subrange(0, i + 1).drop_last() == chars.subrange(0, i));
        lemma_filter_none_extends(chars, i + 1, multiline);
    } else {
        assert(chars.subrange(0, i) == chars);
    }
}

/// Cutting the selection and pasting what was cut, with no other key
/// pressed, gives back the text one started from.
pub proof fn law_cut_then_paste_restores(st: EditState, multiline: bool)
    requires
        edit_wf(st),
        st.selection is Some,
    ensures
        ({
            let no_keys = (false, false, false, false, false, false, false, false);
            let (s1, o1, clip) = key_frame_step(st, multiline, true, false, false, true, false, None, Seq::empty(), no_keys);
            let (s2, o2, _) = key_frame_step(s1, multiline, true, false, false, false, true, clip, Seq::empty(), no_keys);
            &&& o1 == KeyOutcome::Continue
            &&& o2 == KeyOutcome::Continue
            &&& s2.text == st.text
        }),
{
    let (s, e) = st.selection.unwrap();
    let t = st.text;
    let t1 = t.subrange(0, s) + t.subrange(e, t.len() as int);
    assert(t1.subrange(0, s) =~= t.subrange(0, s));
    assert(t1.subrange(s, t1.len() as int) =~= t.subrange(e, t.len() as int));
    assert(t.subrange(0, s) + t.subrange(s, e) + t.subrange(e, t.len() as int) =~= t);
}

/// Selecting everything and pressing delete leaves the field empty.
pub proof fn law_select_all_then_delete_empties(st: EditState, multiline: bool)
    requires
        edit_wf(st),
    ensures
        ({
            let no_keys = (false, false, false, false, false, false, false, false);
            let del = (false, true, false, false, false, false, false, false);
            let (s1, _, _) = key_frame_step(st, multiline, true, true, false, false, false, None, Seq::empty(), no_keys);
            let (s2, o2, _) = key_frame_step(s1, multiline, false, false, false, false, false, None, Seq::empty(), del);
            &&& s2.text.len() == 0
            &&& s2.cursor == 0
            &&& o2 == KeyOutcome::Continue
        }),
{
    let t = st.text;
    assert(t.subrange(0, 0) + t.subrange(t.len() as int, t.len() as int) =~= Seq::<char>::empty());
}

/// Control and A selects the whole text and puts the cursor at its end,
/// leaving the text as it is; escape alone cancels the dialog and changes
/// nothing; either way the field stays well formed.
pub proof fn law_select_all_and_escape(st: EditState, multiline: bool, clip: Option<Seq<char>>, chars: Seq<char>)
    requires
        edit_wf(st),
    ensures
        ({
            let no_keys = (false, false, false, false, false, false, false, false);
            let esc = (false, false, false, false, false, false, false, true);
            let (s1, o1, c1) = key_frame_step(st, multiline, true, true, false, false, false, clip, chars, no_keys);
            let (s2, o2, c2) = key_frame_step(st, multiline, false, false, false, false, false, clip, Seq::empty(), esc);
            &&& s1.text == st.text
            &&& s1.selection == Some((0int, st.text.len() as int))
            &&& s1.cursor == st.text.len()
            &&& o1 == KeyOutcome::Continue
            &&& c1 is None
            &&& edit_wf(s1)
            &&& s2 == st
            &&& o2 == KeyOutcome::Cancel
            &&& c2 is None
        }),
{
    let inp = filter_typed(Seq::<char>::empty(), multiline);
    assert(inp == Some(Seq::<char>::empty()));
}

/// The arrow keys alone (no shortcut, nothing typed) move the cursor by
/// exactly one character, right or left, within the text: the text stays as
/// it is, the selection is dropped and the dialog stays open; at the end (or
/// the start) of the text the key does nothing.
pub proof fn law_arrow_moves_one_character(st: EditState, multiline: bool, clip: Option<Seq<char>>)
    requires
        edit_wf(st),
    ensures
        ({
            let right = (false, false, false, true, false, false, false, false);
            let (s1, o1, c1) = key_frame_step(st, multiline, false, false, false, false, false, clip, Seq::empty(), right);
            &&& s1.text == st.text
            &&& o1 == KeyOutcome::Continue
            &&& c1 is None
            &&& st.cursor < st.text.len() ==> s1.cursor == st.cursor + 1 && s1.selection is None
            &&& st.cursor == st.text.len() ==> s1 == st
        }),
        ({
            let left = (false, false, true, false, false, false, false, false);
            let (s2, o2, c2) = key_frame_step(st, multiline, false, false, false, false, false, clip, Seq::empty(), left);
            &&& s2.text == st.text
            &&& o2 == KeyOutcome::Continue
            &&& c2 is None
            &&& st.cursor > 0 ==> s2.cursor == st.cursor - 1 && s2.selection is None
            &&& st.cursor == 0 ==> s2 == st
        }),
{
    assert(filter_typed(Seq::<char>::empty(), multiline) == Some(Seq::<char>::empty()));
}

} // verus!
