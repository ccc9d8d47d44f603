//! Gathering the reports of many components into one view of the whole
//! scoreboard.
//!
//! Whoever wants the view names the components it expects to hear from,
//! asks them all at once and offers every report that comes back to a
//! [`SnapshotCollector`]. The collector keeps the first report of each
//! expected component and ignores the rest, so that reports which answer
//! someone else's request, or arrive twice, do no harm.

use vstd::prelude::*;
use crate::component::{Component, Snapshot};

verus! {

/// The components that a series of reports comes from, in order.
pub open spec fn identities(replies: Seq<Snapshot>) -> Seq<Component> {
    replies.map_values(|reply: Snapshot| reply.component)
}

/// Whether `reply` is kept, given the reports kept so far: it is if it
/// comes from an expected component that has not been heard from.
pub open spec fn is_news(expected: Seq<Component>, kept: Seq<Snapshot>, reply: Snapshot) -> bool {
    expected.contains(reply.component) && !identities(kept).contains(reply.component)
}

/// The reports kept after `reply` has been offered.
pub open spec fn collect(expected: Seq<Component>, kept: Seq<Snapshot>, reply: Snapshot) -> Seq<
    Snapshot,
> {
    if is_news(expected, kept, reply) {
        kept.push(reply)
    } else {
        kept
    }
}

/// The reports kept after all of `offers` have been offered, in order.
pub open spec fn collect_all(expected: Seq<Component>, offers: Seq<Snapshot>) -> Seq<Snapshot>
    decreases offers.len(),
{
    if offers.len() == 0 {
        Seq::empty()
    } else {
        collect(expected, collect_all(expected, offers.drop_last()), offers.last())
    }
}

/// Whether every expected component has been heard from.
pub open spec fn is_complete(expected: Seq<Component>, kept: Seq<Snapshot>) -> bool {
    forall|component: Component| #[trigger]
        expected.contains(component) ==> identities(kept).contains(component)
}

/// Whether `kept` holds at most one report per component, each from an
/// expected component.
pub open spec fn is_tidy(expected: Seq<Component>, kept: Seq<Snapshot>) -> bool {
    &&& identities(kept).no_duplicates()
    &&& forall|i: int| 0 <= i < kept.len() ==> expected.contains(#[trigger] kept[i].component)
}

/// Offering a report keeps the collection tidy.
pub proof fn lemma_collect_keeps_tidy(
    expected: Seq<Component>,
    kept: Seq<Snapshot>,
    reply: Snapshot,
)
    requires
        is_tidy(expected, kept),
    ensures
        is_tidy(expected, collect(expected, kept, reply)),
{
    if is_news(expected, kept, reply) {
        let next = kept.push(reply);
        assert forall|i: int, j: int|
            0 <= i < identities(next).len() && 0 <= j < identities(next).len() && i
                != j implies identities(next)[i] != identities(next)[j] by {
            if i < kept.len() {
                assert(identities(kept)[i] == identities(next)[i]);
            }
            if j < kept.len() {
                assert(identities(kept)[j] == identities(next)[j]);
            }
        }
        assert forall|i: int| 0 <= i < next.len() implies expected.contains(
            #[trigger] next[i].component,
        ) by {}
    }
}

/// However many reports come in, and from whomever, the view that results
/// holds exactly one entry for each expected component that reported: the
/// first report it made. Once every expected component has reported, the
/// view holds one entry for each of them and no other.
pub proof fn lemma_one_entry_per_component(expected: Seq<Component>, offers: Seq<Snapshot>)
    ensures
        is_tidy(expected, collect_all(expected, offers)),
        forall|component: Component|
            identities(collect_all(expected, offers)).contains(component) <==> (expected.contains(
                component,
            ) && #[trigger] identities(offers).contains(component)),
        forall|i: int|
            0 <= i < collect_all(expected, offers).len() ==> exists|j: int|
                0 <= j < offers.len() && offers[j] == #[trigger] collect_all(expected, offers)[i]
                    && forall|k: int|
                    0 <= k < j ==> (#[trigger] offers[k]).component != offers[j].component,
        (forall|component: Component| #[trigger]
            expected.contains(component) ==> identities(offers).contains(component))
            ==> is_complete(expected, collect_all(expected, offers)),
        (forall|component: Component| #[trigger]
            expected.contains(component) ==> identities(offers).contains(component))
            && expected.no_duplicates() ==> collect_all(expected, offers).len() == expected.len(),
    decreases offers.len(),
{
    let kept = collect_all(expected, offers);
    if offers.len() > 0 {
        let earlier = offers.drop_last();
        let before = collect_all(expected, earlier);
        let reply = offers.last();
        lemma_one_entry_per_component(expected, earlier);
        lemma_collect_keeps_tidy(expected, before, reply);
        assert forall|component: Component|
            identities(kept).contains(component) <==> (expected.contains(component)
                && #[trigger] identities(offers).contains(component)) by {
            if identities(offers).contains(component) {
                let j = choose|j: int|
                    0 <= j < identities(offers).len() && identities(offers)[j] == component;
                if j < earlier.len() {
                    assert(identities(earlier)[j] == component);
                }
            }
            if identities(earlier).contains(component) {
                let j = choose|j: int|
                    0 <= j < identities(earlier).len() && identities(earlier)[j] == component;
                assert(identities(offers)[j] == component);
            }
            if is_news(expected, before, reply) {
                if identities(before).contains(component) {
                    let j = choose|j: int|
                        0 <= j < identities(before).len() && identities(before)[j] == component;
                    assert(identities(kept)[j] == component);
                }
                if identities(kept).contains(component) {
                    let j = choose|j: int|
                        0 <= j < identities(kept).len() && identities(kept)[j] == component;
                    if j < before.len() {
                        assert(identities(before)[j] == component);
                    }
                }
                assert(identities(kept)[before.len() as int] == reply.component);
            } else {
                assert(identities(offers)[earlier.len() as int] == reply.component);
            }
        }
        assert forall|i: int| 0 <= i < kept.len() implies exists|j: int|
            0 <= j < offers.len() && offers[j] == #[trigger] kept[i] && forall|k: int|
                0 <= k < j ==> (#[trigger] offers[k]).component != offers[j].component by {
            if i < before.len() {
                let j = choose|j: int|
                    0 <= j < earlier.len() && earlier[j] == before[i] && forall|k: int|
                        0 <= k < j ==> (#[trigger] earlier[k]).component != earlier[j].component;
                assert forall|k: int| 0 <= k < j implies (#[trigger] offers[k]).component
                    != offers[j].component by {
                    assert(offers[k] == earlier[k]);
                }
            } else {
                let j = earlier.len() as int;
                assert forall|k: int| 0 <= k < j implies (#[trigger] offers[k]).component
                    != offers[j].component by {
                    assert(identities(earlier)[k] == offers[k].component);
                    assert(identities(earlier).contains(offers[k].component));
                }
            }
        }
    }
    if forall|component: Component| #[trigger]
        expected.contains(component) ==> identities(offers).contains(component) {
        if expected.no_duplicates() {
            let heard = identities(kept);
            assert(heard.to_set() =~= expected.to_set()) by {
                assert forall|component: Component|
                    heard.to_set().contains(component) <==> expected.to_set().contains(
                        component,
                    ) by {}
            }
            heard.unique_seq_to_set();
            expected.unique_seq_to_set();
        }
    }
}

/// What a collector hands over when it is done.
#[derive(Debug)]
pub enum Collected {
    /// One report from every expected component.
    Complete(Vec<Snapshot>),
    /// The reports that came in before the collector was closed, with at
    /// least one expected component missing.
    Partial(Vec<Snapshot>),
}

/// The collector of the reports that answer one request.
#[derive(Debug)]
pub struct SnapshotCollector {
    expected: Vec<Component>,
    kept: Vec<Snapshot>,
}

impl SnapshotCollector {
    #[verifier::type_invariant]
    pub closed spec fn tidy(self) -> bool {
        is_tidy(self.expected@, self.kept@)
    }

    /// The components that the collector waits for.
    pub closed spec fn expected(self) -> Seq<Component> {
        self.expected@
    }

    /// The reports that the collector has kept, in the order they came in.
    pub closed spec fn kept(self) -> Seq<Snapshot> {
        self.kept@
    }

    /// A collector that waits for `expected` and has heard nothing yet.
    pub fn new(expected: Vec<Component>) -> (collector: SnapshotCollector)
        ensures
            collector.expected() == expected@,
            collector.kept() == Seq::<Snapshot>::empty(),
    {
        let kept: Vec<Snapshot> = Vec::new();
        SnapshotCollector { expected, kept }
    }

    /// Whether the component `component` is among `list`.
    fn lists(list: &Vec<Component>, component: Component) -> (found: bool)
        ensures
            found == list@.contains(component),
    {
        let mut i: usize = 0;
        while i < list.len()
            invariant
                i <= list.len(),
                forall|j: int| 0 <= j < i ==> list@[j] != component,
            decreases list.len() - i,
        {
            if list[i] == component {
                return true;
            }
            i += 1;
        }
        false
    }

    /// Whether one of `replies` comes from the component `component`.
    fn heard_from(replies: &Vec<Snapshot>, component: Component) -> (found: bool)
        ensures
            found == identities(replies@).contains(component),
    {
        let mut i: usize = 0;
        while i < replies.len()
            invariant
                i <= replies.len(),
                forall|j: int| 0 <= j < i ==> identities(replies@)[j] != component,
            decreases replies.len() - i,
        {
            if replies[i].component == component {
                assert(identities(replies@)[i as int] == component);
                return true;
            }
            i += 1;
        }
        false
    }

    /// Offers a report to the collector, which keeps it if it is the first
    /// from an expected component and drops it otherwise. Returns whether
    /// the report was kept.
    pub fn offer(&mut self, reply: Snapshot) -> (accepted: bool)
        ensures
            accepted == is_news(old(self).expected(), old(self).kept(), reply),
            final(self).kept() == collect(old(self).expected(), old(self).kept(), reply),
            final(self).expected() == old(self).expected(),
    {
        proof {
            use_type_invariant(&*self);
            lemma_collect_keeps_tidy(self.expected@, self.kept@, reply);
        }
        if SnapshotCollector::lists(&self.expected, reply.component)
            && !SnapshotCollector::heard_from(&self.kept, reply.component) {
            let mut kept: Vec<Snapshot> = Vec::new();
            std::mem::swap(&mut self.kept, &mut kept);
            kept.push(reply);
            self.kept = kept;
            true
        } else {
            false
        }
    }

    /// Whether every expected component has been heard from.
    pub fn is_complete(&self) -> (complete: bool)
        ensures
            complete == is_complete(self.expected(), self.kept()),
    {
        let mut i: usize = 0;
        while i < self.expected.len()
            invariant
                i <= self.expected.len(),
                forall|j: int|
                    0 <= j < i ==> identities(self.kept@).contains(#[trigger] self.expected@[j]),
            decreases self.expected.len() - i,
        {
            if !SnapshotCollector::heard_from(&self.kept, self.expected[i]) {
                assert(self.expected@.contains(self.expected@[i as int]));
                return false;
            }
            i += 1;
        }
        true
    }

    /// Closes the collector and hands over what it has kept: complete if
    /// every expected component has been heard from, partial otherwise,
    /// as when the time allowed for replies has run out.
    pub fn finish(self) -> (collected: Collected)
        ensures
            match collected {
                Collected::Complete(replies) => replies@ == self.kept() && is_complete(
                    self.expected(),
                    self.kept(),
                ),
                Collected::Partial(replies) => replies@ == self.kept() && !is_complete(
                    self.expected(),
                    self.kept(),
                ),
            },
            is_tidy(self.expected(), self.kept()),
    {
        proof {
            use_type_invariant(&self);
        }
        if self.is_complete() {
            Collected::Complete(self.kept)
        } else {
            Collected::Partial(self.kept)
        }
    }
}

} // verus!
