use vstd::prelude::*;
use vstd::string::*;
use crate::strings::{string_push, string_pop};
use crate::text_edit::{is_control, is_control_char};

verus! {

/// A step of the first-run wizard.
#[derive(Clone, Copy, Debug, PartialEq, Eq, Structural)]
pub enum Step {
    Language,
    Login,
    Volume,
    General,
    Finish,
}

/// The position of a step in the wizard.
pub open spec fn step_index(s: Step) -> int {
    match s {
        Step::Language => 0,
        Step::Login => 1,
        Step::Volume => 2,
        Step::General => 3,
        Step::Finish => 4,
    }
}

/// The step at a position of the wizard.
pub open spec fn step_at(i: int) -> Step {
    if i <= 0 {
        Step::Language
    } else if i == 1 {
        Step::Login
    } else if i == 2 {
        Step::Volume
    } else if i == 3 {
        Step::General
    } else {
        Step::Finish
    }
}

/// The number of steps.
pub const STEP_COUNT: usize = 5;

impl Step {
    /// The step's position in the wizard (0 to 4).
    pub fn index(self) -> (res: usize)
        ensures
            res == step_index(self),
    {
        match self {
            Step::Language => 0,
            Step::Login => 1,
            Step::Volume => 2,
            Step::General => 3,
            Step::Finish => 4,
        }
    }

    /// The step at position `i`.
    pub fn at(i: usize) -> (res: Step)
        requires
            i < STEP_COUNT,
        ensures
            res == step_at(i as int),
            step_index(res) == i,
    {
        if i == 0 {
            Step::Language
        } else if i == 1 {
            Step::Login
        } else if i == 2 {
            Step::Volume
        } else if i == 3 {
            Step::General
        } else {
            Step::Finish
        }
    }

    /// How many rows the step shows.
    pub fn rows(self) -> (res: usize)
        ensures
            res == match self {
                Step::Language => 1usize,
                Step::Login => 4usize,
                Step::Volume => 3usize,
                Step::General => 3usize,
                Step::Finish => 2usize,
            },
    {
        match self {
            Step::Language => 1,
            Step::Login => 4,
            Step::Volume | Step::General => 3,
            Step::Finish => 2,
        }
    }
}

/// An input row of the login step.
#[derive(Clone, Copy, Debug, PartialEq, Eq, Structural)]
pub enum LoginField {
    Email,
    Name,
    Pwd,
}

/// What the screen has to do after a move.
#[derive(Clone, Copy, Debug, PartialEq, Eq, Structural)]
pub struct MoveEffect {
    /// Editing ended: hide the on-screen keyboard.
    pub hide_keyboard: bool,
    /// The login step was entered: prepare the sign-in host.
    pub prepare_login: bool,
}

/// The outcome of "next".
#[derive(Clone, Copy, Debug, PartialEq, Eq, Structural)]
pub enum NextOutcome {
    /// Moved on to the following step.
    Moved(MoveEffect),
    /// The last step was confirmed: the wizard is done.
    Finished,
}

/// The wizard's state: the current step, the login row being edited and the
/// three login inputs.
pub struct SetupWizard {
    pub step: Step,
    pub active: Option<LoginField>,
    pub t_email: String,
    pub t_name: String,
    pub t_pwd: String,
}

impl SetupWizard {
    /// A wizard at its first step with empty inputs.
    pub fn new() -> (res: SetupWizard)
        ensures
            res.step == Step::Language,
            res.active is None,
            res.t_email@.len() == 0,
            res.t_name@.len() == 0,
            res.t_pwd@.len() == 0,
    {
        SetupWizard {
            step: Step::Language,
            active: None,
            t_email: String::new(),
            t_name: String::new(),
            t_pwd: String::new(),
        }
    }

    /// The text of an input.
    pub open spec fn field_text(&self, f: LoginField) -> Seq<char> {
        match f {
            LoginField::Email => self.t_email@,
            LoginField::Name => self.t_name@,
            LoginField::Pwd => self.t_pwd@,
        }
    }

    /// Starts editing an input.
    pub fn activate(&mut self, f: LoginField)
        ensures
            final(self).active == Some(f),
            final(self).step == old(self).step,
            forall|g: LoginField| final(self).field_text(g) == old(self).field_text(g),
    {
        self.active = Some(f);
    }

    /// Stops editing; true when an input was being edited (the keyboard is
    /// then hidden).
    pub fn finish_editing(&mut self) -> (res: bool)
        ensures
            res == old(self).active is Some,
            final(self).active is None,
            final(self).step == old(self).step,
            forall|g: LoginField| final(self).field_text(g) == old(self).field_text(g),
    {
        let was = self.active.is_some();
        self.active = None;
        was
    }

    /// Goes to a step, ending any editing.
    pub fn goto(&mut self, step: Step) -> (res: MoveEffect)
        ensures
            final(self).step == step,
            final(self).active is None,
            res.hide_keyboard == old(self).active is Some,
            res.prepare_login == (step == Step::Login),
            forall|g: LoginField| final(self).field_text(g) == old(self).field_text(g),
    {
        let hide = self.finish_editing();
        self.step = step;
        MoveEffect { hide_keyboard: hide, prepare_login: step == Step::Login }
    }

    /// Goes back one step; nothing happens on the first step.
    pub fn step_prev(&mut self) -> (res: Option<MoveEffect>)
        ensures
            step_index(old(self).step) == 0 ==> res is None && final(self).step == old(self).step
                && final(self).active == old(self).active,
            step_index(old(self).step) > 0 ==> res is Some && final(self).step == step_at(step_index(old(self).step) - 1)
                && final(self).active is None,
            forall|g: LoginField| final(self).field_text(g) == old(self).field_text(g),
    {
        let i = self.step.index();
        if i > 0 {
            Some(self.goto(Step::at(i - 1)))
        } else {
            None
        }
    }

    /// Goes on one step; on the last step the wizard is finished.
    pub fn step_next(&mut self) -> (res: NextOutcome)
        ensures
            step_index(old(self).step) < 4 ==> res is Moved && final(self).step == step_at(step_index(old(self).step) + 1)
                && final(self).active is None,
            step_index(old(self).step) == 4 ==> res is Finished && final(self).step == old(self).step
                && final(self).active == old(self).active,
            forall|g: LoginField| final(self).field_text(g) == old(self).field_text(g),
    {
        let i = self.step.index();
        if i + 1 < STEP_COUNT {
            NextOutcome::Moved(self.goto(Step::at(i + 1)))
        } else {
            NextOutcome::Finished
        }
    }

    /// The text shown in an input row: the password masked with one `*` per
    /// character, and a `|` cursor after the input being edited.
    pub fn field_display(&self, f: LoginField) -> (res: String)
        ensures
            res@ == (if f == LoginField::Pwd { Seq::new(self.t_pwd@.len(), |i: int| '*') } else {
                self.field_text(f)
            }) + (if self.active == Some(f) { seq!['|'] } else { Seq::<char>::empty() }),
    {
        let mut shown = match f {
            LoginField::Email => self.t_email.clone(),
            LoginField::Name => self.t_name.clone(),
            LoginField::Pwd => {
                let n = self.t_pwd.as_str().unicode_len();
                let mut stars = String::new();
                let mut i: usize = 0;
                while i < n
                    invariant
                        i <= n,
                        stars@ == Seq::new(i as nat, |k: int| '*'),
                    decreases n - i,
                {
                    string_push(&mut stars, '*');
                    i = i + 1;
                    assert(stars@ =~= Seq::new(i as nat, |k: int| '*'));
                }
                stars
            },
        };
        if self.active == Some(f) {
            string_push(&mut shown, '|');
        } else {
            assert(shown@ + Seq::<char>::empty() =~= shown@);
        }
        shown
    }

    /// Writes a frame's typed characters into the input being edited: a line
    /// break ends editing (returns true; nothing of the frame is written);
    /// control characters are dropped; the rest is appended in reverse order
    /// of arrival; backspace then removes the last character.
    pub fn update_typing(&mut self, chars: &Vec<char>, backspace: bool) -> (res: bool)
        ensures
            old(self).active is None ==> !res && final(self).active == old(self).active
                && forall|g: LoginField| final(self).field_text(g) == old(self).field_text(g),
            final(self).step == old(self).step,
            old(self).active matches Some(f) ==> ({
                let kept = kept_chars(chars@);
                match kept {
                    None => res && final(self).active is None
                        && forall|g: LoginField| final(self).field_text(g) == old(self).field_text(g),
                    Some(batch) => {
                        let typed = old(self).field_text(f) + crate::text_edit::reversed(batch);
                        &&& !res
                        &&& final(self).active == old(self).active
                        &&& final(self).field_text(f) == (if backspace && typed.len() > 0 { typed.drop_last() } else { typed })
                        &&& forall|g: LoginField| g != f ==> final(self).field_text(g) == old(self).field_text(g)
                    },
                }
            }),
    {
        let f = match self.active {
            Some(f) => f,
            None => return false,
        };
        let mut batch: Vec<char> = Vec::new();
        let mut i: usize = 0;
        while i < chars.len()
            invariant
                i <= chars@.len(),
                kept_chars(chars@.subrange(0, i as int)) == Some(batch@),
                self.active == Some(f),
                old(self).active == Some(f),
                self.step == old(self).step,
                forall|g: LoginField| self.field_text(g) == old(self).field_text(g),
            decreases chars@.len() - i,
        {
            let c = chars[i];
            proof {
                assert(chars@.subrange(0, i + 1).drop_last() == chars@.subrange(0, i as int));
                assert(chars@.subrange(0, i + 1).last() == c);
            }
            if c == '\r' || c == '\n' {
                proof {
                    lemma_kept_none_extends(chars@, (i + 1) as int);
                }
                self.finish_editing();
                return true;
            }
            if !(c == '\u{8}' || c == '\u{7f}' || is_control(c)) {
                batch.push(c);
            }
            i = i + 1;
        }
        assert(chars@.subrange(0, chars@.len() as int) == chars@);
        let ghost start = self.field_text(f);
        let mut k: usize = batch.len();
        while k > 0
            invariant
                k <= batch@.len(),
                self.active == Some(f),
                self.field_text(f) == start + crate::text_edit::reversed(batch@).subrange(0, (batch@.len() - k) as int),
                forall|g: LoginField| g != f ==> self.field_text(g) == old(self).field_text(g),
                self.step == old(self).step,
            decreases k,
        {
            k = k - 1;
            match f {
                LoginField::Email => string_push(&mut self.t_email, batch[k]),
                LoginField::Name => string_push(&mut self.t_name, batch[k]),
                LoginField::Pwd => string_push(&mut self.t_pwd, batch[k]),
            }
            proof {
                assert(crate::text_edit::reversed(batch@).subrange(0, (batch@.len() - k) as int)
                    =~= crate::text_edit::reversed(batch@).subrange(0, (batch@.len() - k - 1) as int).push(batch@[k as int]));
            }
        }
        assert(crate::text_edit::reversed(batch@).subrange(0, batch@.len() as int) =~= crate::text_edit::reversed(batch@));
        if backspace {
            match f {
                LoginField::Email => {
                    string_pop(&mut self.t_email);
                },
                LoginField::Name => {
                    string_pop(&mut self.t_name);
                },
                LoginField::Pwd => {
                    string_pop(&mut self.t_pwd);
                },
            }
        }
        false
    }
}

/// The characters a frame writes into an input, in arrival order; `None`
/// when a line break ends editing.
pub open spec fn kept_chars(chars: Seq<char>) -> Option<Seq<char>>
    decreases chars.len(),
{
    if chars.len() == 0 {
        Some(Seq::empty())
    } else {
        match kept_chars(chars.drop_last()) {
            None => None,
            Some(acc) => {
                let c = chars.last();
                if c == '\r' || c == '\n' {
                    None
                } else if c == '\u{8}' || c == '\u{7f}' || is_control_char(c) {
                    Some(acc)
                } else {
                    Some(acc.push(c))
                }
            },
        }
    }
}

proof fn lemma_kept_none_extends(chars: Seq<char>, i: int)
    requires
        0 < i <= chars.len(),
        kept_chars(chars.subrange(0, i)) is None,
    ensures
        kept_chars(chars) is None,
    decreases chars.len() - i,
{
    if i < chars.len() {
        assert(chars.subrange(0, i + 1).drop_last() == chars.subrange(0, i));
        lemma_kept_none_extends(chars, i + 1);
    } else {
        assert(chars.subrange(0, i) == chars);
    }
}

/// Going forward from a step other than the last and then back returns to
/// that step.
pub proof fn law_next_then_prev_returns(s: Step)
    requires
        step_index(s) < 4,
    ensures
        step_at(step_index(step_at(step_index(s) + 1)) - 1) == s,
{
}

} // verus!
