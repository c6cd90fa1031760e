//! What the three machines have in common: they are asked for a step, take a
//! reply, and account for the platform resources that pass through their
//! hands. On that footing this module follows a machine through a whole
//! dialogue and shows that its books balance.

use crate::platform::{gained, given_up, Call, Reply, Resource, Step};
use vstd::multiset::Multiset;
use vstd::prelude::*;

verus! {

/// An operation that advances one platform call at a time.
pub trait Machine: Sized {
    /// What the operation results in.
    type Outcome;

    /// The step that this state waits for.
    spec fn pending(self) -> Step<Self::Outcome>;

    /// The state that follows when the pending call is answered by `reply`.
    /// A reply that does not answer the pending call changes nothing.
    spec fn after(self, reply: Reply) -> Self;

    /// The resources that the machine has obtained and not yet given back.
    spec fn held(self) -> Multiset<Resource>;

    /// The step to take now: the call to perform, or the result.
    fn step(&self) -> (step: Step<Self::Outcome>)
        ensures
            step == self.pending(),
    ;

    /// Takes the reply to the pending call, moves on, and returns the step
    /// that is pending then. A reply that does not answer the pending call
    /// is set aside: the machine stays where it is.
    fn resume(&mut self, reply: Reply) -> (step: Step<Self::Outcome>)
        ensures
            *final(self) == old(self).after(reply),
            step == final(self).pending(),
    ;

    /// Across one exchange nothing is lost and nothing made up: what was
    /// held, with what the reply brought, is what is held afterwards, with
    /// what the call gave up.
    proof fn exchange_conserves(self, reply: Reply)
        requires
            self.pending() is Perform,
            (self.pending()->Perform_0).answered_by(reply),
        ensures
            self.held().add(gained(self.pending()->Perform_0, reply)) =~= self.after(reply).held().add(
                given_up(self.pending()->Perform_0),
            ),
    ;

    /// A machine that has finished holds nothing.
    proof fn finished_holds_nothing(self)
        requires
            self.pending() is Finish,
        ensures
            self.held() =~= Multiset::empty(),
    ;

    /// A reply that does not answer the pending call changes nothing.
    proof fn stray_reply_is_set_aside(self, reply: Reply)
        requires
            !(self.pending() is Perform && (self.pending()->Perform_0).answered_by(reply)),
        ensures
            self.after(reply) == self,
    ;
}

/// Whether `reply` answers the call that `machine` has pending.
pub open spec fn accepts<M: Machine>(machine: M, reply: Reply) -> bool {
    machine.pending() matches Step::Perform(call) && call.answered_by(reply)
}

/// Tells whether `reply` answers the call that `machine` has pending.
pub fn expects<M: Machine>(machine: &M, reply: &Reply) -> (fits: bool)
    ensures
        fits == accepts(*machine, *reply),
{
    match machine.step() {
        Step::Perform(call) => call.is_answered_by(reply),
        Step::Finish(_) => false,
    }
}

/// One call together with the reply that answered it.
#[derive(Clone, Copy, Debug, PartialEq, Eq)]
pub struct Exchange {
    pub call: Call,
    pub reply: Reply,
}

/// The state that `start` reaches when it is handed `replies` in turn.
pub open spec fn run<M: Machine>(start: M, replies: Seq<Reply>) -> M
    decreases replies.len(),
{
    if replies.len() == 0 {
        start
    } else {
        run(start, replies.drop_last()).after(replies.last())
    }
}

/// Whether each of `replies` answers the call that is pending when it comes.
pub open spec fn answered<M: Machine>(start: M, replies: Seq<Reply>) -> bool
    decreases replies.len(),
{
    replies.len() == 0 || (answered(start, replies.drop_last()) && accepts(
        run(start, replies.drop_last()),
        replies.last(),
    ))
}

/// The exchanges that take place when `start` is handed `replies` in turn:
/// each reply beside the call that was pending when it came.
pub open spec fn dialogue<M: Machine>(start: M, replies: Seq<Reply>) -> Seq<Exchange>
    decreases replies.len(),
{
    if replies.len() == 0 {
        Seq::empty()
    } else {
        dialogue(start, replies.drop_last()).push(
            Exchange {
                call: run(start, replies.drop_last()).pending()->Perform_0,
                reply: replies.last(),
            },
        )
    }
}

/// A dialogue has one exchange for each reply.
pub proof fn dialogue_has_one_exchange_per_reply<M: Machine>(start: M, replies: Seq<Reply>)
    ensures
        dialogue(start, replies).len() == replies.len(),
    decreases replies.len(),
{
    if replies.len() > 0 {
        dialogue_has_one_exchange_per_reply(start, replies.drop_last());
    }
}

/// Each exchange of a dialogue holds the call that was pending when its reply
/// came, and that reply.
pub proof fn dialogue_holds_the_pending_calls<M: Machine>(start: M, replies: Seq<Reply>, at: int)
    requires
        0 <= at < replies.len(),
    ensures
        dialogue(start, replies)[at] == (Exchange {
            call: run(start, replies.take(at)).pending()->Perform_0,
            reply: replies[at],
        }),
    decreases replies.len(),
{
    dialogue_has_one_exchange_per_reply(start, replies.drop_last());
    if at == replies.len() - 1 {
        assert(replies.take(at) =~= replies.drop_last());
    } else {
        dialogue_holds_the_pending_calls(start, replies.drop_last(), at);
        assert(replies.drop_last().take(at) =~= replies.take(at));
    }
}

/// Everything that the exchanges brought into the caller's hands.
pub open spec fn acquired(exchanges: Seq<Exchange>) -> Multiset<Resource>
    decreases exchanges.len(),
{
    if exchanges.len() == 0 {
        Multiset::empty()
    } else {
        acquired(exchanges.drop_last()).add(gained(exchanges.last().call, exchanges.last().reply))
    }
}

/// Everything that the exchanges took out of the caller's hands.
pub open spec fn released(exchanges: Seq<Exchange>) -> Multiset<Resource>
    decreases exchanges.len(),
{
    if exchanges.len() == 0 {
        Multiset::empty()
    } else {
        released(exchanges.drop_last()).add(given_up(exchanges.last().call))
    }
}

/// At every point of a dialogue in which each reply answers its call, what
/// the machine held at the start and has acquired since is what it has
/// released and what it still holds. So nothing is released that is not in
/// hand, and nothing in hand is forgotten.
pub proof fn books_balance<M: Machine>(start: M, replies: Seq<Reply>)
    requires
        answered(start, replies),
    ensures
        start.held().add(acquired(dialogue(start, replies))) =~= released(
            dialogue(start, replies),
        ).add(run(start, replies).held()),
    decreases replies.len(),
{
    broadcast use vstd::multiset::group_multiset_axioms;

    if replies.len() > 0 {
        let before = replies.drop_last();
        let exchanges = dialogue(start, replies);
        books_balance(start, before);
        run(start, before).exchange_conserves(replies.last());
        assert(exchanges.drop_last() =~= dialogue(start, before));
        assert(acquired(exchanges) == acquired(dialogue(start, before)).add(
            gained(exchanges.last().call, exchanges.last().reply),
        ));
        assert(released(exchanges) == released(dialogue(start, before)).add(
            given_up(exchanges.last().call),
        ));
        let call = run(start, before).pending()->Perform_0;
        sums_carry_over(
            start.held(),
            acquired(dialogue(start, before)),
            released(dialogue(start, before)),
            run(start, before).held(),
            gained(call, replies.last()),
            given_up(call),
            run(start, replies).held(),
        );
    }
}

/// If `a + b` is `c + d`, and `d + g` is `e + u`, then `a + (b + g)` is
/// `(c + u) + e`.
proof fn sums_carry_over(
    a: Multiset<Resource>,
    b: Multiset<Resource>,
    c: Multiset<Resource>,
    d: Multiset<Resource>,
    g: Multiset<Resource>,
    u: Multiset<Resource>,
    e: Multiset<Resource>,
)
    requires
        a.add(b) =~= c.add(d),
        d.add(g) =~= e.add(u),
    ensures
        a.add(b.add(g)) =~= c.add(u).add(e),
{
    broadcast use vstd::multiset::group_multiset_axioms;

    assert forall|v: Resource| a.add(b.add(g)).count(v) == c.add(u).add(e).count(v) by {
        assert(a.add(b).count(v) == c.add(d).count(v));
        assert(d.add(g).count(v) == e.add(u).count(v));
    }
}

/// A machine that starts with empty hands and finishes has released exactly
/// what it acquired, item for item; and at no point before had it released
/// anything that it had not acquired.
pub proof fn every_resource_is_released_once<M: Machine>(start: M, replies: Seq<Reply>)
    requires
        start.held() =~= Multiset::empty(),
        answered(start, replies),
    ensures
        forall|n: int|
            0 <= n <= replies.len() ==> #[trigger] released(
                dialogue(start, replies.take(n)),
            ).subset_of(acquired(dialogue(start, replies.take(n)))),
        run(start, replies).pending() is Finish ==> released(dialogue(start, replies))
            =~= acquired(dialogue(start, replies)),
{
    broadcast use vstd::multiset::group_multiset_axioms;

    assert forall|n: int| 0 <= n <= replies.len() implies #[trigger] released(
        dialogue(start, replies.take(n)),
    ).subset_of(acquired(dialogue(start, replies.take(n)))) by {
        prefix_is_answered(start, replies, n);
        books_balance(start, replies.take(n));
        let exchanges = dialogue(start, replies.take(n));
        assert forall|v: Resource| released(exchanges).count(v) <= acquired(exchanges).count(
            v,
        ) by {
            assert(start.held().add(acquired(exchanges)).count(v) == released(exchanges).add(
                run(start, replies.take(n)).held(),
            ).count(v));
        }
    }
    books_balance(start, replies);
    if run(start, replies).pending() is Finish {
        run(start, replies).finished_holds_nothing();
        let exchanges = dialogue(start, replies);
        assert forall|v: Resource| released(exchanges).count(v) == acquired(exchanges).count(
            v,
        ) by {
            assert(start.held().add(acquired(exchanges)).count(v) == released(exchanges).add(
                run(start, replies).held(),
            ).count(v));
        }
    }
}

/// Every beginning of an answered dialogue is an answered dialogue.
pub proof fn prefix_is_answered<M: Machine>(start: M, replies: Seq<Reply>, n: int)
    requires
        answered(start, replies),
        0 <= n <= replies.len(),
    ensures
        answered(start, replies.take(n)),
    decreases replies.len(),
{
    if n == replies.len() {
        assert(replies.take(n) =~= replies);
    } else {
        prefix_is_answered(start, replies.drop_last(), n);
        assert(replies.drop_last().take(n) =~= replies.take(n));
    }
}

} // verus!
