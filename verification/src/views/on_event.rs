//! The callback shell around the root: controller-level callbacks keyed by
//! event triggers, run before or after the inner tree sees an event.

use vstd::prelude::*;
use crate::direction::Direction;
use crate::event::Callback;
use crate::event::Event;
use crate::event::EventResult;
use crate::event::EventTrigger;
use crate::geom::Vec2;
use crate::views::screens::ScreensView;
use crate::views::stack::StackView;

verus! {

/// The first registered callback whose trigger matches `e`, as a
/// spec-level value.
pub open spec fn first_match(list: Seq<(EventTrigger, Callback)>, e: Event) -> Option<Callback>
    decreases list.len(),
{
    if list.len() == 0 {
        None
    } else if list[0].0.spec_matches(e) {
        Some(list[0].1)
    } else {
        first_match(list.skip(1), e)
    }
}

/// The first registered inner handler whose trigger matches `e`, as a
/// spec-level value: the handler's payload is the optional callback its
/// consumed result carries.
pub open spec fn first_match_inner(
    list: Seq<(EventTrigger, Option<Callback>)>,
    e: Event,
) -> Option<Option<Callback>>
    decreases list.len(),
{
    if list.len() == 0 {
        None
    } else if list[0].0.spec_matches(e) {
        Some(list[0].1)
    } else {
        first_match_inner(list.skip(1), e)
    }
}

/// The registrations left when those for exactly the event `e` are
/// cleared, as a spec-level value.
pub open spec fn without_exact<T>(list: Seq<(EventTrigger, T)>, e: Event) -> Seq<(EventTrigger, T)>
    decreases list.len(),
{
    if list.len() == 0 {
        Seq::empty()
    } else if list.last().0 == EventTrigger::Exact(e) {
        without_exact(list.drop_last(), e)
    } else {
        without_exact(list.drop_last(), e).push(list.last())
    }
}

/// A wrapper around the root that runs registered callbacks on events:
/// priority callbacks before the tree, fallback callbacks when the tree
/// ignored the event, and inner handlers that answer with a ready-made
/// result on either side.
#[derive(PartialEq, Eq, Debug)]
pub struct OnEventView<V> {
    /// The wrapped view.
    pub inner: V,
    /// Priority callbacks: a match consumes the event before the tree.
    pub pre: Vec<(EventTrigger, Callback)>,
    /// Priority inner handlers: a match answers before the tree.
    pub pre_inner: Vec<(EventTrigger, Option<Callback>)>,
    /// Inner handlers consulted when the tree ignored the event.
    pub post_inner: Vec<(EventTrigger, Option<Callback>)>,
    /// Fallback callbacks run when everything else ignored the event.
    pub post: Vec<(EventTrigger, Callback)>,
}

impl<V> OnEventView<V> {
    /// Wraps `inner` with no callbacks registered.
    pub fn new(inner: V) -> (r: OnEventView<V>)
        ensures
            r.inner == inner,
            r.pre@ =~= Seq::<(EventTrigger, Callback)>::empty(),
            r.pre_inner@ =~= Seq::<(EventTrigger, Option<Callback>)>::empty(),
            r.post_inner@ =~= Seq::<(EventTrigger, Option<Callback>)>::empty(),
            r.post@ =~= Seq::<(EventTrigger, Callback)>::empty(),
    {
        OnEventView {
            inner,
            pre: Vec::new(),
            pre_inner: Vec::new(),
            post_inner: Vec::new(),
            post: Vec::new(),
        }
    }

    /// A shared reference to the wrapped view.
    pub fn get_inner(&self) -> (r: &V)
        ensures
            r == &self.inner,
    {
        &self.inner
    }

    /// An exclusive reference to the wrapped view.
    pub fn get_inner_mut(&mut self) -> (r: &mut V)
        ensures
            *r == old(self).inner,
            *final(self) == (OnEventView { inner: *final(r), ..*old(self) }),
    {
        &mut self.inner
    }

    /// Registers a fallback callback, run when the tree ignored a
    /// matching event.
    pub fn set_on_event(&mut self, trigger: EventTrigger, cb: Callback)
        ensures
            final(self).post@ =~= old(self).post@.push((trigger, cb)),
            final(self).inner == old(self).inner,
            final(self).pre@ =~= old(self).pre@,
            final(self).pre_inner@ =~= old(self).pre_inner@,
            final(self).post_inner@ =~= old(self).post_inner@,
    {
        self.post.push((trigger, cb));
    }

    /// Registers a priority callback: a matching event is consumed before
    /// the tree sees it.
    pub fn set_on_pre_event(&mut self, trigger: EventTrigger, cb: Callback)
        ensures
            final(self).pre@ =~= old(self).pre@.push((trigger, cb)),
            final(self).inner == old(self).inner,
            final(self).pre_inner@ =~= old(self).pre_inner@,
            final(self).post_inner@ =~= old(self).post_inner@,
            final(self).post@ =~= old(self).post@,
    {
        self.pre.push((trigger, cb));
    }

    /// Registers a priority inner handler: a matching event is answered
    /// with the given consumed result before the tree sees it.
    pub fn set_on_pre_event_inner(&mut self, trigger: EventTrigger, result: Option<Callback>)
        ensures
            final(self).pre_inner@ =~= old(self).pre_inner@.push((trigger, result)),
            final(self).inner == old(self).inner,
            final(self).pre@ =~= old(self).pre@,
            final(self).post_inner@ =~= old(self).post_inner@,
            final(self).post@ =~= old(self).post@,
    {
        self.pre_inner.push((trigger, result));
    }

    /// Registers an inner handler consulted when the tree ignored a
    /// matching event.
    pub fn set_on_event_inner(&mut self, trigger: EventTrigger, result: Option<Callback>)
        ensures
            final(self).post_inner@ =~= old(self).post_inner@.push((trigger, result)),
            final(self).inner == old(self).inner,
            final(self).pre@ =~= old(self).pre@,
            final(self).pre_inner@ =~= old(self).pre_inner@,
            final(self).post@ =~= old(self).post@,
    {
        self.post_inner.push((trigger, result));
    }

    /// Removes every registration tied to exactly the given event.
    pub fn clear_event(&mut self, event: Event)
        ensures
            final(self).pre@ =~= without_exact(old(self).pre@, event),
            final(self).pre_inner@ =~= without_exact(old(self).pre_inner@, event),
            final(self).post_inner@ =~= without_exact(old(self).post_inner@, event),
            final(self).post@ =~= without_exact(old(self).post@, event),
            final(self).inner == old(self).inner,
    {
        self.pre = Self::retain_others(&self.pre, event);
        self.pre_inner = Self::retain_others_inner(&self.pre_inner, event);
        self.post_inner = Self::retain_others_inner(&self.post_inner, event);
        self.post = Self::retain_others(&self.post, event);
    }

    fn retain_others(list: &Vec<(EventTrigger, Callback)>, event: Event) -> (r: Vec<
        (EventTrigger, Callback),
    >)
        ensures
            r@ =~= without_exact(list@, event),
    {
        let n = list.len();
        let mut out: Vec<(EventTrigger, Callback)> = Vec::new();
        let mut i: usize = 0;
        while i < n
            invariant
                i <= n,
                n == list@.len(),
                out@ =~= without_exact(list@.subrange(0, i as int), event),
            decreases n - i,
        {
            let entry = list[i];
            if !(entry.0 == EventTrigger::Exact(event)) {
                out.push(entry);
            }
            proof {
                assert(list@.subrange(0, i + 1).drop_last() =~= list@.subrange(0, i as int));
            }
            i = i + 1;
        }
        proof {
            assert(list@.subrange(0, n as int) =~= list@);
        }
        out
    }

    fn retain_others_inner(list: &Vec<(EventTrigger, Option<Callback>)>, event: Event) -> (r: Vec<
        (EventTrigger, Option<Callback>),
    >)
        ensures
            r@ =~= without_exact(list@, event),
    {
        let n = list.len();
        let mut out: Vec<(EventTrigger, Option<Callback>)> = Vec::new();
        let mut i: usize = 0;
        while i < n
            invariant
                i <= n,
                n == list@.len(),
                out@ =~= without_exact(list@.subrange(0, i as int), event),
            decreases n - i,
        {
            let entry = list[i];
            if !(entry.0 == EventTrigger::Exact(event)) {
                out.push(entry);
            }
            proof {
                assert(list@.subrange(0, i + 1).drop_last() =~= list@.subrange(0, i as int));
            }
            i = i + 1;
        }
        proof {
            assert(list@.subrange(0, n as int) =~= list@);
        }
        out
    }

    fn find_match(list: &Vec<(EventTrigger, Callback)>, event: &Event) -> (r: Option<Callback>)
        ensures
            r == first_match(list@, *event),
    {
        let n = list.len();
        proof {
            assert(list@.skip(0) =~= list@);
        }
        let mut i: usize = 0;
        while i < n
            invariant
                i <= n,
                n == list@.len(),
                first_match(list@, *event) == first_match(list@.skip(i as int), *event),
            decreases n - i,
        {
            if list[i].0.matches(event) {
                return Some(list[i].1);
            }
            proof {
                assert(list@.skip(i as int).skip(1) =~= list@.skip(i + 1));
            }
            i = i + 1;
        }
        None
    }

    fn find_match_inner(list: &Vec<(EventTrigger, Option<Callback>)>, event: &Event) -> (r: Option<
        Option<Callback>,
    >)
        ensures
            r == first_match_inner(list@, *event),
    {
        let n = list.len();
        proof {
            assert(list@.skip(0) =~= list@);
        }
        let mut i: usize = 0;
        while i < n
            invariant
                i <= n,
                n == list@.len(),
                first_match_inner(list@, *event) == first_match_inner(
                    list@.skip(i as int),
                    *event,
                ),
            decreases n - i,
        {
            if list[i].0.matches(event) {
                return Some(list[i].1);
            }
            proof {
                assert(list@.skip(i as int).skip(1) =~= list@.skip(i + 1));
            }
            i = i + 1;
        }
        None
    }
}

impl OnEventView<ScreensView<StackView>> {
    /// The result the shell answers with once the tree's own answer is
    /// known, as a spec-level value: a consumed answer stands; an ignored
    /// event falls to the inner handlers, then to the fallback callbacks.
    pub open spec fn after_inner_spec(self, e: Event, inner_result: EventResult) -> EventResult {
        if inner_result is Consumed {
            inner_result
        } else {
            match first_match_inner(self.post_inner@, e) {
                Some(opt) => EventResult::Consumed(opt),
                None => match first_match(self.post@, e) {
                    Some(cb) => EventResult::Consumed(Some(cb)),
                    None => EventResult::Ignored,
                },
            }
        }
    }

    /// Whether `post` and `r` are the shell and result dispatching `e`
    /// leaves behind, as a spec-level value.
    pub open spec fn dispatched(
        self,
        e: Event,
        post: OnEventView<ScreensView<StackView>>,
        r: EventResult,
    ) -> bool {
        let registrations_kept = {
            &&& post.pre@ =~= self.pre@
            &&& post.pre_inner@ =~= self.pre_inner@
            &&& post.post_inner@ =~= self.post_inner@
            &&& post.post@ =~= self.post@
        };
        match first_match(self.pre@, e) {
            Some(cb) => {
                &&& registrations_kept
                &&& post.inner == self.inner
                &&& r == EventResult::Consumed(Some(cb))
            },
            None => match first_match_inner(self.pre_inner@, e) {
                Some(opt) => {
                    &&& registrations_kept
                    &&& post.inner == self.inner
                    &&& r == EventResult::Consumed(opt)
                },
                None => {
                    &&& registrations_kept
                    &&& exists|ir: EventResult|
                        self.inner.dispatched(e, post.inner, ir) && r == self.after_inner_spec(
                            e,
                            ir,
                        )
                },
            },
        }
    }

    /// Dispatches an event: priority callbacks first, then priority inner
    /// handlers, then the tree; when the tree ignores it, the inner
    /// handlers and fallback callbacks get their turn.
    pub fn on_event(&mut self, event: Event) -> (r: EventResult)
        ensures
            old(self).dispatched(event, *final(self), r),
    {
        match Self::find_match(&self.pre, &event) {
            Some(cb) => EventResult::Consumed(Some(cb)),
            None => match Self::find_match_inner(&self.pre_inner, &event) {
                Some(opt) => EventResult::Consumed(opt),
                None => {
                    let inner_result = self.inner.on_event(event);
                    let consumed = match inner_result {
                        EventResult::Consumed(_) => true,
                        EventResult::Ignored => false,
                    };
                    let answer = if consumed {
                        inner_result
                    } else {
                        match Self::find_match_inner(&self.post_inner, &event) {
                            Some(opt) => EventResult::Consumed(opt),
                            None => match Self::find_match(&self.post, &event) {
                                Some(cb) => EventResult::Consumed(Some(cb)),
                                None => EventResult::Ignored,
                            },
                        }
                    };
                    proof {
                        assert(old(self).inner.dispatched(event, self.inner, inner_result)
                            && answer == old(self).after_inner_spec(event, inner_result));
                    }
                    answer
                },
            },
        }
    }
}

} // verus!
