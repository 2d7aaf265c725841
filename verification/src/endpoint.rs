//! The two endpoint capabilities and their in-memory and boxed forms.

use vstd::prelude::*;

verus! {

/// What an endpoint holds after it accepted `data`: the value joins the end
/// of a described content, and an undescribed content stays undescribed.
pub open spec fn after_push<T>(held: Option<Seq<T>>, data: T) -> Option<Seq<T>> {
    match held {
        Some(s) => Some(s.push(data)),
        None => None,
    }
}

/// Whether `after` is what `s` becomes when it gives up `v`: one place of `s`
/// that held `v` is gone, and the other values keep their order.
pub open spec fn gives_up<T>(s: Seq<T>, v: T, after: Option<Seq<T>>) -> bool {
    exists|i: int|
        #![trigger s.remove(i)]
        0 <= i < s.len() && s[i] == v && after == Some(s.remove(i))
}

/// Whether one poll that hands out `out` takes an endpoint from `before` to
/// `after`. A described content gives up exactly one of its values, and gives
/// up nothing only when it is empty. An undescribed content stays
/// undescribed, whatever came out.
pub open spec fn takes_one<T>(before: Option<Seq<T>>, out: Option<T>, after: Option<Seq<T>>) -> bool {
    match (before, out) {
        (Some(s), Some(v)) => gives_up(s, v, after),
        (Some(s), None) => s.len() == 0 && after == before,
        (None, _) => after is None,
    }
}

/// The value a stack-ordered poll of `s` hands out: the newest, if there is one.
pub open spec fn top<T>(s: Seq<T>) -> Option<T> {
    if s.len() > 0 {
        Some(s.last())
    } else {
        None
    }
}

/// What a stack-ordered poll leaves of `s`: all but the newest value.
pub open spec fn below_top<T>(s: Seq<T>) -> Seq<T> {
    if s.len() > 0 {
        s.drop_last()
    } else {
        s
    }
}

/// An endpoint that accepts values of type `T`.
pub trait Pushable<T> {
    /// The values the endpoint holds, oldest first, where the endpoint's own
    /// value determines them; `None` where they live elsewhere, as behind a
    /// channel or a shared cell. An endpoint that says nothing else does not
    /// describe its content.
    open spec fn stored(&self) -> Option<Seq<T>> {
        None
    }

    /// Takes ownership of `data` and makes it available to whatever consumes
    /// this endpoint.
    fn push(&mut self, data: T)
        ensures
            final(self).stored() == after_push(old(self).stored(), data),
    ;
}

/// An endpoint that yields values of type `T`.
pub trait Pullable<T> {
    /// The values the endpoint can still yield, oldest first, where the
    /// endpoint's own value determines them; `None` where they live
    /// elsewhere. An endpoint that says nothing else does not describe its
    /// content.
    open spec fn available(&self) -> Option<Seq<T>> {
        None
    }

    /// Whether one poll of this endpoint hands out `out` and leaves `after`
    /// as what the endpoint can still yield. An endpoint that fixes which of
    /// its values leaves first says so here; one that says nothing else
    /// promises only that one value leaves.
    open spec fn polled(&self, out: Option<T>, after: Option<Seq<T>>) -> bool {
        takes_one(self.available(), out, after)
    }

    /// Polls for one value without waiting. `None` means that nothing was
    /// there at the moment of the call; it is no error.
    fn pull(&mut self) -> (out: Option<T>)
        ensures
            takes_one(old(self).available(), out, final(self).available()),
            old(self).polled(out, final(self).available()),
    ;
}

impl<T> Pushable<T> for Vec<T> {
    open spec fn stored(&self) -> Option<Seq<T>> {
        Some(self@)
    }

    /// Appends `data` at the end.
    fn push(&mut self, data: T)
        ensures
            final(self)@ == old(self)@.push(data),
    {
        Vec::push(self, data);
    }
}

impl<T> Pullable<T> for Vec<T> {
    open spec fn available(&self) -> Option<Seq<T>> {
        Some(self@)
    }

    open spec fn polled(&self, out: Option<T>, after: Option<Seq<T>>) -> bool {
        out == top(self@) && after == Some(below_top(self@))
    }

    /// Removes and returns the value pushed last: a vector is polled as a
    /// stack, newest first, not in order of arrival.
    fn pull(&mut self) -> (out: Option<T>)
        ensures
            out == top(old(self)@),
            final(self)@ == below_top(old(self)@),
    {
        let out = self.pop();
        proof {
            let s = old(self)@;
            if s.len() > 0 {
                assert(self@ =~= s.drop_last());
                assert(s.remove(s.len() - 1) =~= s.drop_last());
            }
        }
        out
    }
}

impl<T, P: ?Sized + Pushable<T>> Pushable<T> for Box<P> {
    open spec fn stored(&self) -> Option<Seq<T>> {
        (**self).stored()
    }

    /// Forwards to the endpoint in the box.
    fn push(&mut self, data: T) {
        (**self).push(data);
    }
}

impl<T, P: ?Sized + Pullable<T>> Pullable<T> for Box<P> {
    open spec fn available(&self) -> Option<Seq<T>> {
        (**self).available()
    }

    open spec fn polled(&self, out: Option<T>, after: Option<Seq<T>>) -> bool {
        (**self).polled(out, after)
    }

    /// Forwards to the endpoint in the box: the result is the one that the
    /// boxed endpoint's own poll hands out.
    fn pull(&mut self) -> (out: Option<T>) {
        (**self).pull()
    }
}

/// The outcomes of `n` stack-ordered polls of `s`, first poll first.
pub open spec fn polls<T>(s: Seq<T>, n: nat) -> Seq<Option<T>>
    decreases n,
{
    if n == 0 {
        Seq::empty()
    } else {
        seq![top(s)] + polls(below_top(s), (n - 1) as nat)
    }
}

/// What `n` stack-ordered polls leave of `s`.
pub open spec fn left_by_polls<T>(s: Seq<T>, n: nat) -> Seq<T>
    decreases n,
{
    if n == 0 {
        s
    } else {
        left_by_polls(below_top(s), (n - 1) as nat)
    }
}

/// A stack-ordered poll right after a push hands the pushed value back and
/// leaves what was there before the push.
pub proof fn lemma_poll_undoes_push<T>(s: Seq<T>, data: T)
    ensures
        top(s.push(data)) == Some(data),
        below_top(s.push(data)) == s,
{
    assert(s.push(data).drop_last() =~= s);
}

/// Last in, first out: once `items` were pushed onto `s` one after another,
/// as many stack-ordered polls hand them back newest first, each exactly
/// once, and leave `s` as it was before the first push.
pub proof fn lemma_last_in_first_out<T>(s: Seq<T>, items: Seq<T>)
    ensures
        polls(s + items, items.len()) == items.reverse().map_values(|v: T| Some(v)),
        left_by_polls(s + items, items.len()) == s,
    decreases items.len(),
{
    let yielded = items.reverse().map_values(|v: T| Some(v));
    if items.len() == 0 {
        assert(s + items =~= s);
        assert(polls(s + items, 0) =~= yielded);
    } else {
        let earlier = items.drop_last();
        assert(s + items =~= (s + earlier).push(items.last()));
        lemma_poll_undoes_push(s + earlier, items.last());
        lemma_last_in_first_out(s, earlier);
        assert(polls(s + items, items.len()) =~= yielded);
    }
}

} // verus!
