use vstd::prelude::*;

verus! {

/// What the top scene asks for at the start of a frame.
pub enum Transition<S, R> {
    /// Stay.
    Stay,
    /// Leave the top scene.
    Pop,
    /// Leave the given number of scenes.
    PopN(usize),
    /// Leave the top scene, handing a result to the one below.
    PopWithResult(R),
    /// Leave the given number of scenes, handing a result to the new top.
    PopNWithResult(usize, R),
    /// Quit the program.
    Exit,
    /// Open a scene on top of the current one.
    Overlay(S),
    /// Put a scene in place of the current one.
    Replace(S),
}

/// What the caller still has to do after a transition was applied.
pub enum Effect<S, T, R> {
    /// Nothing.
    Nothing,
    /// Scenes were left: seek the clock to `seek` (when present), hand
    /// `result` (when present) to the new top scene, then enter it.
    Resume { seek: Option<T>, result: Option<R> },
    /// The clock time was saved: enter `scene`, then push it with
    /// [`SceneStack::push_scene`].
    Overlay(S),
    /// Enter `scene`, then put it on top with [`SceneStack::replace_top`].
    Replace(S),
}

/// The stack of open scenes, the clock time saved when each overlay was
/// opened, and the program's pause and exit flags.
pub struct SceneStack<S, T> {
    pub scenes: Vec<S>,
    pub times: Vec<T>,
    pub paused: bool,
    pub should_exit: bool,
}

/// Whether a transition can be applied to a stack with `scenes` scenes and
/// `times` saved times: at least one scene must remain and every left scene
/// needs a saved time.
pub open spec fn transition_allowed<S, R>(t: Transition<S, R>, scenes: nat, times: nat) -> bool {
    match t {
        Transition::Pop => scenes >= 2 && times >= 1,
        Transition::PopWithResult(_) => scenes >= 2 && times >= 1,
        Transition::PopN(n) => scenes > n && times >= n,
        Transition::PopNWithResult(n, _) => scenes > n && times >= n,
        _ => true,
    }
}

/// The scenes after a transition (before an overlay or replacement scene is
/// pushed).
pub open spec fn scenes_after<S, R>(sc: Seq<S>, t: Transition<S, R>) -> Seq<S> {
    match t {
        Transition::Pop => sc.drop_last(),
        Transition::PopWithResult(_) => sc.drop_last(),
        Transition::PopN(n) => sc.subrange(0, sc.len() - n),
        Transition::PopNWithResult(n, _) => sc.subrange(0, sc.len() - n),
        _ => sc,
    }
}

/// The saved times after a transition: left scenes take their times along,
/// an overlay saves the current time.
pub open spec fn times_after<S, T, R>(tm: Seq<T>, t: Transition<S, R>, now: T) -> Seq<T> {
    match t {
        Transition::Pop => tm.drop_last(),
        Transition::PopWithResult(_) => tm.drop_last(),
        Transition::PopN(n) => tm.subrange(0, tm.len() - n),
        Transition::PopNWithResult(n, _) => tm.subrange(0, tm.len() - n),
        Transition::Overlay(_) => tm.push(now),
        _ => tm,
    }
}

/// The time the clock returns to after scenes are left: the earliest saved
/// time among those removed.
pub open spec fn seek_after<S, T, R>(tm: Seq<T>, t: Transition<S, R>) -> Option<T> {
    match t {
        Transition::Pop => Some(tm.last()),
        Transition::PopWithResult(_) => Some(tm.last()),
        Transition::PopN(n) => if n == 0 { None } else { Some(tm[tm.len() - n]) },
        Transition::PopNWithResult(n, _) => if n == 0 { None } else { Some(tm[tm.len() - n]) },
        _ => None,
    }
}

impl<S, T: Copy> SceneStack<S, T> {
    /// At least one scene is open.
    pub open spec fn wf(&self) -> bool {
        self.scenes@.len() >= 1
    }

    /// A stack holding only `scene`.
    pub fn new(scene: S) -> (res: Self)
        ensures
            res.wf(),
            res.scenes@ == seq![scene],
            res.times@.len() == 0,
            !res.paused,
            !res.should_exit,
    {
        let mut scenes = Vec::new();
        scenes.push(scene);
        SceneStack { scenes, times: Vec::new(), paused: false, should_exit: false }
    }

    /// Leaves `n` scenes and returns the last saved time that was removed.
    fn pop_n(&mut self, n: usize) -> (res: Option<T>)
        requires
            old(self).scenes@.len() > n,
            old(self).times@.len() >= n,
        ensures
            final(self).scenes@ == old(self).scenes@.subrange(0, old(self).scenes@.len() - n),
            final(self).times@ == old(self).times@.subrange(0, old(self).times@.len() - n),
            n == 0 ==> res is None,
            n > 0 ==> res == Some(old(self).times@[old(self).times@.len() - n]),
            final(self).paused == old(self).paused,
            final(self).should_exit == old(self).should_exit,
    {
        let mut last: Option<T> = None;
        let mut i: usize = 0;
        while i < n
            invariant
                i <= n,
                old(self).scenes@.len() > n,
                old(self).times@.len() >= n,
                self.scenes@ == old(self).scenes@.subrange(0, old(self).scenes@.len() - i),
                self.times@ == old(self).times@.subrange(0, old(self).times@.len() - i),
                i == 0 ==> last is None,
                i > 0 ==> last == Some(old(self).times@[old(self).times@.len() - i]),
                self.paused == old(self).paused,
                self.should_exit == old(self).should_exit,
            decreases n - i,
        {
            self.scenes.pop();
            last = self.times.pop();
            i = i + 1;
        }
        last
    }

    /// Applies the top scene's request. While the program is paused nothing
    /// happens. Otherwise scenes that are left are removed together with
    /// their saved times; an overlay saves `now` before its scene is entered;
    /// exit raises the exit flag.
    pub fn apply<R>(&mut self, t: Transition<S, R>, now: T) -> (res: Effect<S, T, R>)
        requires
            old(self).wf(),
            !old(self).paused ==> transition_allowed(t, old(self).scenes@.len(), old(self).times@.len()),
        ensures
            final(self).wf(),
            final(self).paused == old(self).paused,
            old(self).paused ==> res is Nothing && final(self).scenes@ == old(self).scenes@ && final(self).times@
                == old(self).times@ && final(self).should_exit == old(self).should_exit,
            !old(self).paused ==> final(self).scenes@ == scenes_after(old(self).scenes@, t),
            !old(self).paused ==> final(self).times@ == times_after(old(self).times@, t, now),
            !old(self).paused ==> final(self).should_exit == (old(self).should_exit || t is Exit),
            !old(self).paused ==> match t {
                Transition::Stay => res is Nothing,
                Transition::Exit => res is Nothing,
                Transition::Pop => res matches Effect::Resume { seek, result }
                    && seek == seek_after(old(self).times@, t) && result is None,
                Transition::PopN(_) => res matches Effect::Resume { seek, result }
                    && seek == seek_after(old(self).times@, t) && result is None,
                Transition::PopWithResult(r) => res matches Effect::Resume { seek, result }
                    && seek == seek_after(old(self).times@, t) && result == Some(r),
                Transition::PopNWithResult(_, r) => res matches Effect::Resume { seek, result }
                    && seek == seek_after(old(self).times@, t) && result == Some(r),
                Transition::Overlay(sc) => res == Effect::<S, T, R>::Overlay(sc),
                Transition::Replace(sc) => res == Effect::<S, T, R>::Replace(sc),
            },
    {
        if self.paused {
            return Effect::Nothing;
        }
        match t {
            Transition::Stay => Effect::Nothing,
            Transition::Exit => {
                self.should_exit = true;
                Effect::Nothing
            },
            Transition::Pop => {
                let seek = self.pop_n(1);
                Effect::Resume { seek, result: None }
            },
            Transition::PopWithResult(r) => {
                let seek = self.pop_n(1);
                Effect::Resume { seek, result: Some(r) }
            },
            Transition::PopN(n) => {
                let seek = self.pop_n(n);
                Effect::Resume { seek, result: None }
            },
            Transition::PopNWithResult(n, r) => {
                let seek = self.pop_n(n);
                Effect::Resume { seek, result: Some(r) }
            },
            Transition::Overlay(s) => {
                self.times.push(now);
                Effect::Overlay(s)
            },
            Transition::Replace(s) => Effect::Replace(s),
        }
    }

    /// Opens an entered scene on top.
    pub fn push_scene(&mut self, scene: S)
        ensures
            final(self).scenes@ == old(self).scenes@.push(scene),
            final(self).times@ == old(self).times@,
            final(self).paused == old(self).paused,
            final(self).should_exit == old(self).should_exit,
    {
        self.scenes.push(scene);
    }

    /// Puts an entered scene in place of the top one.
    pub fn replace_top(&mut self, scene: S)
        requires
            old(self).wf(),
        ensures
            final(self).wf(),
            final(self).scenes@ == old(self).scenes@.update(old(self).scenes@.len() - 1, scene),
            final(self).times@ == old(self).times@,
            final(self).paused == old(self).paused,
            final(self).should_exit == old(self).should_exit,
    {
        let n = self.scenes.len();
        self.scenes.set(n - 1, scene);
    }

    /// The scene currently shown.
    pub fn top(&self) -> (res: &S)
        requires
            self.wf(),
        ensures
            *res == self.scenes@.last(),
    {
        let n = self.scenes.len();
        &self.scenes[n - 1]
    }

    /// Stops updates and rendering until [`SceneStack::resume`].
    pub fn pause(&mut self)
        ensures
            final(self).paused,
            final(self).scenes@ == old(self).scenes@,
            final(self).times@ == old(self).times@,
            final(self).should_exit == old(self).should_exit,
    {
        self.paused = true;
    }

    /// Lets updates and rendering run again.
    pub fn resume(&mut self)
        ensures
            !final(self).paused,
            final(self).scenes@ == old(self).scenes@,
            final(self).times@ == old(self).times@,
            final(self).should_exit == old(self).should_exit,
    {
        self.paused = false;
    }

    /// Whether a scene asked to quit.
    pub fn should_exit(&self) -> (res: bool)
        ensures
            res == self.should_exit,
    {
        self.should_exit
    }
}

/// Opening an overlay and then leaving it gives back the scenes and saved
/// times from before, and the clock returns to the time of the overlay.
pub proof fn law_overlay_then_pop_restores<S, T, R>(sc: Seq<S>, tm: Seq<T>, now: T, later: T, s: S)
    requires
        sc.len() >= 1,
    ensures
        ({
            let sc1 = scenes_after(sc, Transition::<S, R>::Overlay(s)).push(s);
            let tm1 = times_after(tm, Transition::<S, R>::Overlay(s), now);
            &&& transition_allowed(Transition::<S, R>::Pop, sc1.len(), tm1.len())
            &&& scenes_after(sc1, Transition::<S, R>::Pop) == sc
            &&& times_after(tm1, Transition::<S, R>::Pop, later) == tm
            &&& seek_after(tm1, Transition::<S, R>::Pop) == Some(now)
        }),
{
    assert(sc.push(s).drop_last() =~= sc);
    assert(tm.push(now).drop_last() =~= tm);
}

/// The scenes once a transition is complete: after an overlay its scene is
/// on top, after a replacement the new scene stands in place of the top one.
pub open spec fn scenes_entered<S, R>(sc: Seq<S>, t: Transition<S, R>) -> Seq<S> {
    match t {
        Transition::Overlay(s) => sc.push(s),
        Transition::Replace(s) => sc.update(sc.len() - 1, s),
        _ => scenes_after(sc, t),
    }
}

/// Every transition keeps one saved time per scene below the top: the stack
/// grows by one scene with an overlay, shrinks by the number of scenes left,
/// and otherwise keeps its size; a replacement ends up on top.
pub proof fn law_stack_shape_kept<S, T, R>(sc: Seq<S>, tm: Seq<T>, t: Transition<S, R>, now: T)
    requires
        sc.len() == tm.len() + 1,
        transition_allowed(t, sc.len(), tm.len()),
    ensures
        ({
            let sc1 = scenes_entered(sc, t);
            let tm1 = times_after(tm, t, now);
            &&& sc1.len() == tm1.len() + 1
            &&& sc1.len() == match t {
                Transition::Overlay(_) => sc.len() + 1int,
                Transition::Pop => sc.len() - 1,
                Transition::PopWithResult(_) => sc.len() - 1,
                Transition::PopN(n) => sc.len() - n,
                Transition::PopNWithResult(n, _) => sc.len() - n,
                _ => sc.len() as int,
            }
            &&& (t matches Transition::Replace(s) ==> sc1.last() == s)
        }),
{
}

/// Leaving `n` scenes at once seeks the clock where leaving them one by one
/// would: to the time saved when the lowest of them was opened, which is
/// where a last single pop after leaving the other `n - 1` seeks. Handing a
/// result along changes nothing of that.
pub proof fn law_pop_n_seeks_like_single_pops<S, T, R>(tm: Seq<T>, n: usize, r: R, now: T)
    requires
        1 <= n <= tm.len(),
    ensures
        seek_after(tm, Transition::<S, R>::PopN(n)) == Some(tm[tm.len() - n]),
        seek_after(tm, Transition::<S, R>::PopN(n)) == seek_after(
            times_after(tm, Transition::<S, R>::PopN((n - 1) as usize), now),
            Transition::<S, R>::Pop,
        ),
        seek_after(tm, Transition::<S, R>::PopN(n)) == seek_after(tm, Transition::<S, R>::PopNWithResult(n, r)),
        n == 1 ==> seek_after(tm, Transition::<S, R>::PopN(n)) == seek_after(tm, Transition::<S, R>::Pop),
{
    let rest = tm.subrange(0, tm.len() - (n - 1));
    assert(times_after(tm, Transition::<S, R>::PopN((n - 1) as usize), now) == rest);
    assert(rest.last() == tm[tm.len() - n]);
}

} // verus!
