//! The broadcast hub: the one place that decides which followers receive
//! a clipboard change.

use crate::clipboard::ClipboardType;
use crate::codec::encode;
use crate::codec::encoded;
use crate::codec::Content;
use crate::codec::Message;
use crate::codec::MessageView;
use crate::follower::sent;
use crate::follower::Delivery;
use crate::follower::Follower;
use crate::follower::FollowerView;
use crate::guard::EchoGuard;
use vstd::prelude::*;

verus! {

/// What the hub wants read from the clipboard after a change.
#[derive(Clone, Copy, Debug, PartialEq, Eq, Structural)]
pub enum Demand {
    /// Nothing: nobody listens, or the change is of no kind that travels.
    Nothing,
    /// The clipboard's text.
    Text,
    /// The clipboard's image.
    Image,
}

/// The hub as mathematical values.
pub struct HubView {
    /// The followers that a broadcast addresses, in the order in which
    /// they joined.
    pub roster: Seq<FollowerView>,
    /// The followers that have registered and not joined the roster yet,
    /// oldest first.
    pub pending: Seq<FollowerView>,
    /// The follower whose update was applied to the clipboard last, if
    /// no broadcast has consumed the hint since.
    pub last_writer: Option<Seq<char>>,
}

/// The views of a sequence of followers, one for one.
pub open spec fn views(followers: Seq<Follower>) -> Seq<FollowerView> {
    followers.map_values(|f: Follower| f@)
}

/// The working followers of `roster`, in their order.
pub open spec fn survivors(roster: Seq<FollowerView>) -> Seq<FollowerView> {
    roster.filter(|f: FollowerView| f.working)
}

/// What is to be read for a change of kind `kind` when `listeners`
/// followers are on the roster.
pub open spec fn demand_for(listeners: nat, kind: ClipboardType) -> Demand {
    if listeners == 0 {
        Demand::Nothing
    } else {
        match kind {
            ClipboardType::Text => Demand::Text,
            ClipboardType::Image => Demand::Image,
            _ => Demand::Nothing,
        }
    }
}

/// Whether a broadcast with the hint `writer` passes `follower` over.
pub open spec fn excluded(follower: FollowerView, writer: Option<Seq<char>>) -> bool {
    writer == Some(follower.id)
}

/// Whether `receipts` is what a broadcast to `roster` with the hint
/// `writer` may report: one receipt for each follower, in roster order;
/// none exactly for the followers that the hint excludes; and for a
/// follower that was stopped already, no delivery but `Stopped`.
pub open spec fn receipts_fit(
    roster: Seq<FollowerView>,
    writer: Option<Seq<char>>,
    receipts: Seq<Option<Delivery>>,
) -> bool {
    &&& receipts.len() == roster.len()
    &&& forall|i: int|
        0 <= i < roster.len() ==> (#[trigger] receipts[i] is None <==> excluded(roster[i], writer))
    &&& forall|i: int|
        0 <= i < roster.len() && !roster[i].working ==> #[trigger] receipts[i] is None
            || receipts[i] == Some(Delivery::Stopped)
}

/// One follower after a broadcast of `message` that left it `receipt`.
pub open spec fn reached(
    before: FollowerView,
    message: MessageView,
    receipt: Option<Delivery>,
) -> FollowerView {
    match receipt {
        Some(delivery) => sent(before, message, delivery),
        None => before,
    }
}

/// The roster after a broadcast of `message` that left `receipts`.
pub open spec fn fanned_out(
    roster: Seq<FollowerView>,
    message: MessageView,
    receipts: Seq<Option<Delivery>>,
) -> Seq<FollowerView> {
    Seq::new(roster.len(), |i: int| reached(roster[i], message, receipts[i]))
}

/// The working followers of a roster in which everybody works are the
/// roster.
pub proof fn lemma_survivors_of_working(roster: Seq<FollowerView>)
    requires
        forall|i: int| 0 <= i < roster.len() ==> (#[trigger] roster[i]).working,
    ensures
        survivors(roster) == roster,
    decreases roster.len(),
{
    reveal(Seq::filter);
    if roster.len() > 0 {
        lemma_survivors_of_working(roster.drop_last());
        assert(roster.drop_last().push(roster.last()) =~= roster);
    }
}

/// Taking a stopped follower out of a roster takes nothing from its
/// working followers.
pub proof fn lemma_survivors_without_stopped(roster: Seq<FollowerView>, at: int)
    requires
        0 <= at < roster.len(),
        !roster[at].working,
    ensures
        survivors(roster.remove(at)) == survivors(roster),
{
    let keep = |f: FollowerView| f.working;
    let head = roster.take(at);
    let one = seq![roster[at]];
    let tail = roster.skip(at + 1);
    assert(roster =~= head + one + tail);
    assert(roster.remove(at) =~= head + tail);
    Seq::filter_distributes_over_add(head + one, tail, keep);
    Seq::filter_distributes_over_add(head, one, keep);
    Seq::filter_distributes_over_add(head, tail, keep);
    assert(one.filter(keep) =~= Seq::<FollowerView>::empty()) by {
        reveal(Seq::filter);
        assert(one.drop_last().len() == 0);
        assert(one.drop_last().filter(keep) =~= Seq::<FollowerView>::empty());
    }
    assert(head.filter(keep) + one.filter(keep) =~= head.filter(keep));
}

/// Every survivor works, and every working follower of the roster is
/// among the survivors: pruning removes the stopped followers and nobody
/// else.
pub proof fn lemma_survivors_are_the_working(roster: Seq<FollowerView>)
    ensures
        forall|i: int| 0 <= i < survivors(roster).len() ==> (#[trigger] survivors(roster)[i]).working,
        forall|i: int|
            0 <= i < roster.len() && roster[i].working ==> survivors(roster).contains(
                #[trigger] roster[i],
            ),
        forall|f: FollowerView| #[trigger] survivors(roster).contains(f) ==> roster.contains(f),
        survivors(roster).len() <= roster.len(),
{
    let keep = |f: FollowerView| f.working;
    assert forall|i: int| 0 <= i < survivors(roster).len() implies (#[trigger] survivors(
        roster,
    )[i]).working by {
        roster.lemma_filter_pred(keep, i);
    }
    assert forall|i: int| 0 <= i < roster.len() && roster[i].working implies survivors(
        roster,
    ).contains(#[trigger] roster[i]) by {
        roster.lemma_filter_contains(keep, i);
    }
    assert forall|f: FollowerView| #[trigger] survivors(roster).contains(f) implies roster.contains(
        f,
    ) by {
        roster.lemma_filter_contains_rev(keep, f);
    }
    roster.lemma_filter_len(keep);
}

/// A stopped follower is on no pruned roster.
pub proof fn lemma_stopped_is_pruned(roster: Seq<FollowerView>, stopped: FollowerView)
    requires
        !stopped.working,
    ensures
        !survivors(roster).contains(stopped),
{
    lemma_survivors_are_the_working(roster);
    if survivors(roster).contains(stopped) {
        let at = choose|i: int| 0 <= i < survivors(roster).len() && survivors(roster)[i] == stopped;
        assert(survivors(roster)[at].working);
    }
}

/// A broadcast without a hint passes nobody over: every follower of the
/// roster has a delivery. Each follower keeps its place and its
/// identifier. A working follower whose queue took the message has it
/// once, at the end of its outbox; every other outbox is as it was.
pub proof fn lemma_broadcast_reaches_all(
    roster: Seq<FollowerView>,
    message: MessageView,
    receipts: Seq<Option<Delivery>>,
)
    requires
        receipts_fit(roster, None, receipts),
    ensures
        fanned_out(roster, message, receipts).len() == roster.len(),
        forall|i: int| 0 <= i < roster.len() ==> (#[trigger] receipts[i]) is Some,
        forall|i: int|
            0 <= i < roster.len() ==> (#[trigger] fanned_out(roster, message, receipts)[i]).id
                == roster[i].id,
        forall|i: int|
            0 <= i < roster.len() && receipts[i] == Some(Delivery::Queued) ==> roster[i].working && (
            #[trigger] fanned_out(roster, message, receipts)[i]).outbox == roster[i].outbox.push(
                message,
            ),
        forall|i: int|
            0 <= i < roster.len() && receipts[i] != Some(Delivery::Queued) ==> (
            #[trigger] fanned_out(roster, message, receipts)[i]).outbox == roster[i].outbox,
{
    assert forall|i: int| 0 <= i < roster.len() implies (#[trigger] receipts[i]) is Some by {
        assert(!excluded(roster[i], None));
    }
}

/// A broadcast with a hint passes over exactly the followers that the
/// hint names: they are left as they were, outbox and state, and every
/// other follower has a delivery, as in a broadcast without a hint.
pub proof fn lemma_broadcast_excludes_writer(
    roster: Seq<FollowerView>,
    writer: Seq<char>,
    message: MessageView,
    receipts: Seq<Option<Delivery>>,
)
    requires
        receipts_fit(roster, Some(writer), receipts),
    ensures
        forall|i: int|
            0 <= i < roster.len() && roster[i].id == writer ==> #[trigger] fanned_out(
                roster,
                message,
                receipts,
            )[i] == roster[i],
        forall|i: int|
            0 <= i < roster.len() && roster[i].id != writer ==> (#[trigger] receipts[i]) is Some,
        forall|i: int|
            0 <= i < roster.len() && roster[i].id != writer ==> #[trigger] fanned_out(
                roster,
                message,
                receipts,
            )[i] == sent(roster[i], message, receipts[i].unwrap()),
        forall|i: int|
            0 <= i < roster.len() && roster[i].id != writer && receipts[i] == Some(
                Delivery::Queued,
            ) ==> (#[trigger] fanned_out(roster, message, receipts)[i]).outbox
                == roster[i].outbox.push(message),
{
    assert forall|i: int| 0 <= i < roster.len() && roster[i].id == writer implies #[trigger] fanned_out(
        roster,
        message,
        receipts,
    )[i] == roster[i] by {
        assert(excluded(roster[i], Some(writer)));
        assert(receipts[i] is None);
    }
    assert forall|i: int| 0 <= i < roster.len() && roster[i].id != writer implies (
    #[trigger] receipts[i]) is Some by {
        assert(!excluded(roster[i], Some(writer)));
    }
}

/// Two broadcasts reach a follower in the order in which they were made:
/// where its queue took both messages, the first stands before the
/// second at the end of its outbox.
pub proof fn lemma_broadcasts_keep_order(
    roster: Seq<FollowerView>,
    first: MessageView,
    first_receipts: Seq<Option<Delivery>>,
    second: MessageView,
    second_receipts: Seq<Option<Delivery>>,
    at: int,
)
    requires
        0 <= at < roster.len(),
        first_receipts.len() == roster.len(),
        second_receipts.len() == roster.len(),
        first_receipts[at] == Some(Delivery::Queued),
        second_receipts[at] == Some(Delivery::Queued),
    ensures
        fanned_out(fanned_out(roster, first, first_receipts), second, second_receipts)[at].outbox
            == roster[at].outbox.push(first).push(second),
{
}

/// A follower that answers a send with `Stopped` took nothing into its
/// outbox, works no longer, and is gone from the roster after the hub's
/// next change, whoever else is on the roster or waits to join it.
pub proof fn lemma_cancelled_follower_leaves(
    follower: FollowerView,
    message: MessageView,
    roster: Seq<FollowerView>,
    pending: Seq<FollowerView>,
)
    ensures
        sent(follower, message, Delivery::Stopped).outbox == follower.outbox,
        !sent(follower, message, Delivery::Stopped).working,
        !survivors(roster + pending).contains(sent(follower, message, Delivery::Stopped)),
{
    lemma_stopped_is_pruned(roster + pending, sent(follower, message, Delivery::Stopped));
}

/// The hub: the roster of followers, the queue of those that registered
/// since the last change, and the hint that names the last writer.
pub struct ClipboardListener {
    followers: Vec<Follower>,
    pending: Vec<Follower>,
    last_writer: Option<String>,
}

impl View for ClipboardListener {
    type V = HubView;

    closed spec fn view(&self) -> HubView {
        HubView {
            roster: views(self.followers@),
            pending: views(self.pending@),
            last_writer: match self.last_writer {
                Some(id) => Some(id@),
                None => None,
            },
        }
    }
}

impl ClipboardListener {
    /// A hub with nobody on the roster, nobody waiting and no hint.
    pub fn new() -> (hub: Self)
        ensures
            hub@.roster == Seq::<FollowerView>::empty(),
            hub@.pending == Seq::<FollowerView>::empty(),
            hub@.last_writer is None,
    {
        let hub = ClipboardListener { followers: Vec::new(), pending: Vec::new(), last_writer: None };
        assert(views(hub.followers@) =~= Seq::<FollowerView>::empty());
        assert(views(hub.pending@) =~= Seq::<FollowerView>::empty());
        hub
    }

    /// Queues `follower` to join the roster at the next change.
    pub fn register(&mut self, follower: Follower)
        ensures
            final(self)@.pending == old(self)@.pending.push(follower@),
            final(self)@.roster == old(self)@.roster,
            final(self)@.last_writer == old(self)@.last_writer,
    {
        self.pending.push(follower);
        assert(views(self.pending@) =~= views(old(self).pending@).push(follower@));
    }

    /// Notes that the follower named `id` wrote the clipboard last. A
    /// later note replaces an earlier one.
    pub fn set_last_writer(&mut self, id: String)
        ensures
            final(self)@.last_writer == Some(id@),
            final(self)@.roster == old(self)@.roster,
            final(self)@.pending == old(self)@.pending,
    {
        self.last_writer = Some(id);
    }

    /// How many followers are on the roster.
    pub fn follower_count(&self) -> (count: usize)
        ensures
            count == self@.roster.len(),
    {
        self.followers.len()
    }

    /// How many followers wait to join the roster.
    pub fn pending_count(&self) -> (count: usize)
        ensures
            count == self@.pending.len(),
    {
        self.pending.len()
    }

    /// Whether a hint names a last writer.
    pub fn has_last_writer(&self) -> (present: bool)
        ensures
            present == self@.last_writer is Some,
    {
        self.last_writer.is_some()
    }

    /// Removes every stopped follower from the roster.
    fn prune(&mut self)
        ensures
            final(self)@.roster == survivors(old(self)@.roster),
            final(self)@.pending == old(self)@.pending,
            final(self)@.last_writer == old(self)@.last_writer,
    {
        let mut at: usize = 0;
        while at < self.followers.len()
            invariant
                at <= self.followers.len(),
                survivors(views(self.followers@)) == survivors(views(old(self).followers@)),
                forall|j: int| 0 <= j < at ==> (#[trigger] views(self.followers@)[j]).working,
                self.pending == old(self).pending,
                self.last_writer == old(self).last_writer,
            decreases self.followers.len() - at,
        {
            if self.followers[at].is_working() {
                at += 1;
            } else {
                let ghost before = views(self.followers@);
                let _stopped = self.followers.remove(at);
                proof {
                    assert(views(self.followers@) =~= before.remove(at as int));
                    lemma_survivors_without_stopped(before, at as int);
                }
            }
        }
        proof {
            lemma_survivors_of_working(views(self.followers@));
        }
    }

    /// Takes a clipboard change of kind `kind`: the waiting followers join
    /// the roster, the stopped ones leave it, and the answer says what is
    /// to be read from the clipboard and handed to `publish`: nothing
    /// where nobody is left to listen or the kind does not travel.
    pub fn on_clipboard_change(&mut self, kind: ClipboardType) -> (demand: Demand)
        ensures
            final(self)@.roster == survivors(old(self)@.roster + old(self)@.pending),
            final(self)@.pending == Seq::<FollowerView>::empty(),
            final(self)@.last_writer == old(self)@.last_writer,
            demand == demand_for(final(self)@.roster.len(), kind),
    {
        self.followers.append(&mut self.pending);
        assert(views(self.followers@) =~= old(self)@.roster + old(self)@.pending);
        assert(views(self.pending@) =~= Seq::<FollowerView>::empty());
        if self.followers.is_empty() {
            proof {
                lemma_survivors_of_working(views(self.followers@));
            }
            return Demand::Nothing;
        }
        self.prune();
        if self.followers.is_empty() {
            return Demand::Nothing;
        }
        match kind {
            ClipboardType::Text => Demand::Text,
            ClipboardType::Image => Demand::Image,
            _ => Demand::Nothing,
        }
    }

    /// Sends `message` to every follower on the roster but the one that
    /// the hint names, in roster order, and clears the hint.
    ///
    /// The receipts tell, follower by follower, what became of the
    /// message: none for the follower passed over, else the delivery. A
    /// follower that does not take the message holds nobody else up.
    pub fn broadcast(&mut self, message: &Message) -> (receipts: Vec<Option<Delivery>>)
        ensures
            receipts_fit(old(self)@.roster, old(self)@.last_writer, receipts@),
            final(self)@.roster == fanned_out(old(self)@.roster, message@, receipts@),
            final(self)@.pending == old(self)@.pending,
            final(self)@.last_writer is None,
    {
        let writer: Option<String> = self.last_writer.take();
        let ghost hint: Option<Seq<char>> = old(self)@.last_writer;
        let ghost start: Seq<FollowerView> = old(self)@.roster;
        let mut receipts: Vec<Option<Delivery>> = Vec::new();
        let mut at: usize = 0;
        while at < self.followers.len()
            invariant
                at <= self.followers.len(),
                self.followers.len() == start.len(),
                receipts.len() == at,
                self.pending == old(self).pending,
                self.last_writer is None,
                hint == (match writer {
                    Some(id) => Some(id@),
                    None => None,
                }),
                forall|j: int|
                    0 <= j < at ==> (#[trigger] receipts@[j] is None <==> excluded(start[j], hint)),
                forall|j: int|
                    0 <= j < at && !start[j].working ==> #[trigger] receipts@[j] is None
                        || receipts@[j] == Some(Delivery::Stopped),
                forall|j: int|
                    0 <= j < at ==> #[trigger] views(self.followers@)[j] == reached(
                        start[j],
                        message@,
                        receipts@[j],
                    ),
                forall|j: int|
                    at <= j < start.len() ==> #[trigger] views(self.followers@)[j] == start[j],
            decreases self.followers.len() - at,
        {
            let passed_over = match &writer {
                Some(id) => *self.followers[at].id() == *id,
                None => false,
            };
            let ghost followers_before = self.followers@;
            let ghost receipts_before = receipts@;
            assert(views(followers_before)[at as int] == start[at as int]);
            assert(passed_over == excluded(start[at as int], hint));
            if passed_over {
                receipts.push(None);
            } else {
                let copy = message.clone();
                let delivery = self.followers[at].send(copy);
                receipts.push(Some(delivery));
                assert(self.followers@.len() == followers_before.len());
                assert(self.followers@[at as int]@ == sent(start[at as int], message@, delivery));
            }
            proof {
                let now = views(self.followers@);
                let before = views(followers_before);
                assert forall|j: int| 0 <= j < start.len() && j != at implies #[trigger] now[j]
                    == before[j] by {
                    assert(self.followers@[j] == followers_before[j]);
                }
                assert forall|j: int| 0 <= j < at + 1 implies #[trigger] now[j] == reached(
                    start[j],
                    message@,
                    receipts@[j],
                ) by {
                    if j < at {
                        assert(receipts@[j] == receipts_before[j]);
                        assert(now[j] == before[j]);
                    }
                }
                assert forall|j: int| at + 1 <= j < start.len() implies #[trigger] now[j]
                    == start[j] by {
                    assert(now[j] == before[j]);
                }
            }
            at += 1;
        }
        assert(views(self.followers@) =~= fanned_out(start, message@, receipts@));
        receipts
    }

    /// Encodes `content` and broadcasts the message. Content that has no
    /// message, an image too large for one, reaches nobody and leaves the
    /// hub as it was, the hint included.
    pub fn publish(&mut self, content: &Content) -> (receipts: Option<Vec<Option<Delivery>>>)
        ensures
            receipts is Some <==> encoded(content@) is Some,
            receipts is None ==> final(self)@ == old(self)@,
            receipts is Some ==> {
                &&& receipts_fit(old(self)@.roster, old(self)@.last_writer, receipts.unwrap()@)
                &&& final(self)@.roster == fanned_out(
                    old(self)@.roster,
                    encoded(content@).unwrap(),
                    receipts.unwrap()@,
                )
                &&& final(self)@.pending == old(self)@.pending
                &&& final(self)@.last_writer is None
            },
    {
        match encode(content) {
            Some(message) => Some(self.broadcast(&message)),
            None => None,
        }
    }

    /// The detection path: tests and clears `guard` before anything else.
    /// The change that finds the guard armed is the echo of a write made
    /// for a peer: it is swallowed, and the hub stays as it was. Any other
    /// change is taken as `on_clipboard_change` takes it.
    pub fn detect(&mut self, guard: &mut EchoGuard, kind: ClipboardType) -> (demand: Demand)
        ensures
            !final(guard)@,
            old(guard)@ ==> demand == Demand::Nothing && final(self)@ == old(self)@,
            !old(guard)@ ==> {
                &&& final(self)@.roster == survivors(old(self)@.roster + old(self)@.pending)
                &&& final(self)@.pending == Seq::<FollowerView>::empty()
                &&& final(self)@.last_writer == old(self)@.last_writer
                &&& demand == demand_for(final(self)@.roster.len(), kind)
            },
    {
        if guard.test_and_clear() {
            return Demand::Nothing;
        }
        self.on_clipboard_change(kind)
    }
}

} // verus!
