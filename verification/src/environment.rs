use vstd::prelude::*;

verus! {

/// A binding slot, distinguishing a declared-but-unassigned binding from an
/// assigned one.
#[derive(Debug, Clone, Copy)]
pub enum VarStore<T> {
    UnInit(T),
    Init(T),
}

impl<T> VarStore<T> {
    /// The value or type held by the slot, whether or not it was assigned.
    pub open spec fn stored(self) -> T {
        match self {
            VarStore::UnInit(v) => v,
            VarStore::Init(v) => v,
        }
    }

    pub open spec fn is_init(self) -> bool {
        match self {
            VarStore::UnInit(_) => false,
            VarStore::Init(_) => true,
        }
    }
}

impl<T: Copy> VarStore<T> {
    /// Extract a copy of the held value, ignoring the initialization tag.
    pub fn clone_store(&self) -> (r: T)
        ensures
            r == self.stored(),
    {
        match self {
            VarStore::UnInit(v) => *v,
            VarStore::Init(v) => *v,
        }
    }
}

/// One lexical frame, as it appears in specifications: a sequence of
/// name-to-slot bindings in which the latest binding for a name wins.
pub type SpecFrame<T> = Seq<(Seq<char>, VarStore<T>)>;

/// The view of one executable frame.
pub open spec fn frame_view<T>(f: Seq<(String, VarStore<T>)>) -> SpecFrame<T> {
    f.map(|i: int, p: (String, VarStore<T>)| (p.0@, p.1))
}

/// The view of a stack of executable frames.
pub open spec fn frames_view<T>(fs: Seq<Vec<(String, VarStore<T>)>>) -> Seq<SpecFrame<T>> {
    fs.map(|i: int, f: Vec<(String, VarStore<T>)>| frame_view(f@))
}

proof fn lemma_frames_view_push<T>(s: Seq<Vec<(String, VarStore<T>)>>, x: Vec<(String, VarStore<T>)>)
    ensures
        frames_view(s.push(x)) == frames_view(s).push(frame_view(x@)),
{
    assert forall|i: int| 0 <= i < s.len() + 1 implies frames_view(s.push(x))[i] == frames_view(
        s,
    ).push(frame_view(x@))[i] by {
        if i < s.len() {
            assert(s.push(x)[i] == s[i]);
        } else {
            assert(s.push(x)[i] == x);
        }
    }
    assert(frames_view(s.push(x)) =~~= frames_view(s).push(frame_view(x@)));
}

/// The latest binding of `n` in the frame, if any.
pub open spec fn frame_find<T>(f: SpecFrame<T>, n: Seq<char>) -> Option<VarStore<T>>
    decreases f.len(),
{
    if f.len() == 0 {
        None
    } else if f.last().0 == n {
        Some(f.last().1)
    } else {
        frame_find(f.drop_last(), n)
    }
}

/// The binding of `n` in the chain, searching the innermost frame first.
pub open spec fn env_find<T>(frames: Seq<SpecFrame<T>>, n: Seq<char>) -> Option<VarStore<T>>
    decreases frames.len(),
{
    if frames.len() == 0 {
        None
    } else {
        match frame_find(frames.last(), n) {
            Some(slot) => Some(slot),
            None => env_find(frames.drop_last(), n),
        }
    }
}

/// The chain after assigning `v` to `n`: the innermost frame that binds `n`
/// receives the assigned value, and a chain that binds `n` nowhere is
/// returned unchanged.
pub open spec fn env_assign<T>(frames: Seq<SpecFrame<T>>, n: Seq<char>, v: T) -> Seq<SpecFrame<T>>
    decreases frames.len(),
{
    if frames.len() == 0 {
        frames
    } else if frame_find(frames.last(), n) is Some {
        frames.update(frames.len() - 1, frames.last().push((n, VarStore::Init(v))))
    } else {
        env_assign(frames.drop_last(), n, v).push(frames.last())
    }
}

/// A chain of lexical frames mapping names to slots.  The outermost (global)
/// frame is always present; child frames are pushed when a block or a
/// function call is entered and popped when it completes.
#[derive(Debug)]
pub struct Environment<T> {
    frames: Vec<Vec<(String, VarStore<T>)>>,
}

impl<T> View for Environment<T> {
    type V = Seq<SpecFrame<T>>;

    closed spec fn view(&self) -> Seq<SpecFrame<T>> {
        frames_view(self.frames@)
    }
}

impl<T: Copy> Environment<T> {
    /// Well-formedness: the global frame is always present.
    pub open spec fn wf(&self) -> bool {
        self@.len() >= 1
    }

    /// A fresh environment holding only an empty global frame.
    pub fn new() -> (r: Self)
        ensures
            r@ == seq![Seq::<(Seq<char>, VarStore<T>)>::empty()],
            r.wf(),
    {
        let mut frames: Vec<Vec<(String, VarStore<T>)>> = Vec::new();
        frames.push(Vec::new());
        let r = Environment { frames };
        proof {
            assert(r@ =~~= seq![Seq::<(Seq<char>, VarStore<T>)>::empty()]);
        }
        r
    }

    /// Whether the current frame is the global frame.
    pub fn in_global_scope(&self) -> (r: bool)
        requires
            self.wf(),
        ensures
            r == (self@.len() == 1),
    {
        self.frames.len() == 1
    }

    /// Enter a fresh, empty child frame.
    pub fn enter_child(&mut self)
        ensures
            final(self)@ == old(self)@.push(Seq::empty()),
    {
        self.frames.push(Vec::new());
        proof {
            assert(self@ =~~= old(self)@.push(Seq::<(Seq<char>, VarStore<T>)>::empty()));
        }
    }

    /// Enter a child frame seeded with the given bindings, as for the
    /// parameter frame of a function call.
    pub fn enter_child_fn(&mut self, params: Vec<(String, VarStore<T>)>)
        ensures
            final(self)@ == old(self)@.push(frame_view(params@)),
    {
        let ghost p = params@;
        self.frames.push(params);
        proof {
            assert(self@ =~~= old(self)@.push(frame_view(p)));
        }
    }

    /// Exit the current child frame.  Exiting the global frame is refused:
    /// it signals a defect in the caller, never a user-facing error.
    pub fn exit_child(&mut self) -> (r: Result<(), ()>)
        ensures
            old(self)@.len() > 1 ==> r is Ok && final(self)@ == old(self)@.drop_last(),
            old(self)@.len() <= 1 ==> r is Err && final(self)@ == old(self)@,
    {
        if self.frames.len() > 1 {
            let _ = self.frames.pop();
            proof {
                assert(self@ =~~= old(self)@.drop_last());
            }
            Ok(())
        } else {
            Err(())
        }
    }

    /// Exit the current child frame, which must not be the global frame.
    pub fn exit_child_unwrap(&mut self)
        requires
            old(self)@.len() > 1,
        ensures
            final(self)@ == old(self)@.drop_last(),
    {
        let _ = self.frames.pop();
        proof {
            assert(self@ =~~= old(self)@.drop_last());
        }
    }

    /// Record `name` in the current frame as assigned to `value`.
    pub fn define_init(&mut self, name: &String, value: T)
        requires
            old(self).wf(),
        ensures
            final(self)@ == old(self)@.update(
                old(self)@.len() - 1,
                old(self)@.last().push((name@, VarStore::Init(value))),
            ),
    {
        self.define_slot(name, VarStore::Init(value));
    }

    /// Record `name` in the current frame as declared but unassigned.
    pub fn define_uninit(&mut self, name: &String, value: T)
        requires
            old(self).wf(),
        ensures
            final(self)@ == old(self)@.update(
                old(self)@.len() - 1,
                old(self)@.last().push((name@, VarStore::UnInit(value))),
            ),
    {
        self.define_slot(name, VarStore::UnInit(value));
    }

    fn define_slot(&mut self, name: &String, slot: VarStore<T>)
        requires
            old(self).wf(),
        ensures
            final(self)@ == old(self)@.update(
                old(self)@.len() - 1,
                old(self)@.last().push((name@, slot)),
            ),
    {
        let ghost pre = self@;
        let mut top = self.frames.pop().unwrap();
        top.push((name.clone(), slot));
        self.frames.push(top);
        proof {
            assert(frame_view(top@) =~~= pre.last().push((name@, slot)));
            assert(self@ =~~= pre.update(pre.len() - 1, pre.last().push((name@, slot))));
        }
    }

    /// Assign `value` to the innermost binding of `name` anywhere in the
    /// chain.  A name bound nowhere leaves the chain unchanged.
    pub fn assign(&mut self, name: &String, value: T)
        ensures
            final(self)@ == env_assign(old(self)@, name@, value),
    {
        let ghost orig = self@;
        let mut saved: Vec<Vec<(String, VarStore<T>)>> = Vec::new();
        proof {
            assert(frames_view(saved@).reverse() =~~= Seq::<SpecFrame<T>>::empty());
        }
        loop
            invariant_except_break
                env_assign(orig, name@, value) =~~= env_assign(self@, name@, value) + frames_view(
                    saved@,
                ).reverse(),
            ensures
                env_assign(orig, name@, value) =~~= self@ + frames_view(saved@).reverse(),
            decreases self.frames.len(),
        {
            let ghost pre = self@;
            let ghost saved_pre = saved@;
            if self.frames.len() == 0 {
                proof {
                    assert(env_assign(pre, name@, value) =~~= pre);
                }
                break;
            }
            let mut top = self.frames.pop().unwrap();
            proof {
                assert(frame_view(top@) == pre.last());
                assert(self@ =~~= pre.drop_last());
            }
            if frame_get(&top, name).is_some() {
                top.push((name.clone(), VarStore::Init(value)));
                self.frames.push(top);
                proof {
                    assert(frame_view(top@) =~~= pre.last().push((name@, VarStore::Init(value))));
                    assert(self@ =~~= pre.update(
                        pre.len() - 1,
                        pre.last().push((name@, VarStore::Init(value))),
                    ));
                    assert(env_assign(pre, name@, value) == self@);
                }
                break;
            } else {
                saved.push(top);
                proof {
                    assert(saved@ == saved_pre.push(saved@.last()));
                    lemma_frames_view_push(saved_pre, saved@.last());
                    assert(frames_view(saved@) == frames_view(saved_pre).push(pre.last()));
                    assert(frames_view(saved@).reverse() =~~= seq![pre.last()] + frames_view(
                        saved_pre,
                    ).reverse());
                    assert(env_assign(pre, name@, value) == env_assign(self@, name@, value).push(
                        pre.last(),
                    ));
                    assert(env_assign(self@, name@, value).push(pre.last()) + frames_view(
                        saved_pre,
                    ).reverse() =~~= env_assign(self@, name@, value) + frames_view(
                        saved@,
                    ).reverse());
                }
            }
        }
        while saved.len() > 0
            invariant
                env_assign(orig, name@, value) =~~= self@ + frames_view(saved@).reverse(),
            decreases saved.len(),
        {
            let ghost pre = self@;
            let ghost saved_pre = saved@;
            let f = saved.pop().unwrap();
            let ghost f_view = frame_view(f@);
            self.frames.push(f);
            proof {
                lemma_frames_view_push(self.frames@.drop_last(), self.frames@.last());
                assert(self.frames@.drop_last().push(self.frames@.last()) == self.frames@);
                assert(self@ == pre.push(f_view));
                assert(saved_pre == saved@.push(saved_pre.last()));
                lemma_frames_view_push(saved@, saved_pre.last());
                assert(frames_view(saved_pre) == frames_view(saved@).push(f_view));
                assert(frames_view(saved_pre).reverse() =~~= seq![f_view] + frames_view(
                    saved@,
                ).reverse());
                assert(pre + frames_view(saved_pre).reverse() =~~= self@ + frames_view(
                    saved@,
                ).reverse());
            }
        }
        proof {
            assert(frames_view(saved@).reverse() =~~= Seq::<SpecFrame<T>>::empty());
            assert(self@ =~~= env_assign(orig, name@, value));
        }
    }

    /// Detach every frame above the global one, handing the detached
    /// frames back in their original order.  A function call executes its
    /// body against the global frame plus its own parameter frame alone:
    /// the callee must not see the caller's locals.
    pub fn detach_locals(&mut self) -> (r: Vec<Vec<(String, VarStore<T>)>>)
        requires
            old(self).wf(),
        ensures
            final(self)@ == old(self)@.take(1),
            frames_view(r@) == old(self)@.skip(1),
    {
        let r = self.frames.split_off(1);
        proof {
            assert(self@ =~~= old(self)@.take(1));
            assert(frames_view(r@) =~~= old(self)@.skip(1));
        }
        r
    }

    /// Put frames detached for a function call back on top of the chain,
    /// in their original order.
    pub fn reattach_locals(&mut self, saved: Vec<Vec<(String, VarStore<T>)>>)
        ensures
            final(self)@ == old(self)@ + frames_view(saved@),
    {
        let ghost saved_view = frames_view(saved@);
        let mut saved = saved;
        self.frames.append(&mut saved);
        proof {
            assert(self@ =~~= old(self)@ + saved_view);
        }
    }

    /// Look up `name` anywhere in the chain, innermost frame first,
    /// returning a copy of its slot.
    pub fn get(&self, name: &String) -> (r: Option<VarStore<T>>)
        ensures
            r == env_find(self@, name@),
    {
        proof {
            assert(self@.take(self@.len() as int) =~~= self@);
        }
        let mut i: usize = self.frames.len();
        while i > 0
            invariant
                i <= self.frames.len(),
                env_find(self@, name@) == env_find(self@.take(i as int), name@),
            decreases i,
        {
            let k = i - 1;
            let found = frame_get(&self.frames[k], name);
            proof {
                assert(self@.take(i as int).last() == frame_view(self.frames@[k as int]@));
                assert(self@.take(i as int).drop_last() =~~= self@.take(k as int));
            }
            if found.is_some() {
                return found;
            }
            i = k;
        }
        proof {
            assert(self@.take(0) =~~= Seq::<SpecFrame<T>>::empty());
        }
        None
    }

    /// Whether the current frame (not the chain) binds `name`.
    pub fn top_contains(&self, name: &String) -> (r: bool)
        requires
            self.wf(),
        ensures
            r == (frame_find(self@.last(), name@) is Some),
    {
        let fr = &self.frames[self.frames.len() - 1];
        frame_get(fr, name).is_some()
    }
}

/// Search one executable frame for the latest binding of `name`.
fn frame_get<T: Copy>(f: &Vec<(String, VarStore<T>)>, name: &String) -> (r: Option<VarStore<T>>)
    ensures
        r == frame_find(frame_view(f@), name@),
{
    proof {
        assert(frame_view(f@).take(f@.len() as int) =~~= frame_view(f@));
    }
    let mut i: usize = f.len();
    while i > 0
        invariant
            i <= f.len(),
            frame_find(frame_view(f@), name@) == frame_find(frame_view(f@).take(i as int), name@),
        decreases i,
    {
        let k = i - 1;
        proof {
            assert(frame_view(f@).take(i as int).last() == (f@[k as int].0@, f@[k as int].1));
            assert(frame_view(f@).take(i as int).drop_last() =~~= frame_view(f@).take(k as int));
        }
        if f[k].0 == *name {
            return Some(f[k].1);
        }
        i = k;
    }
    proof {
        assert(frame_view(f@).take(0) =~~= Seq::<(Seq<char>, VarStore<T>)>::empty());
    }
    None
}

} // verus!
