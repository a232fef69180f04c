//! The live-sync hub, modeled exactly: a registry mapping a document
//! identity to its fan-out channel, created lazily and shared by every
//! later lookup, and the channel's delivery discipline — a subscription
//! observes only what is published after it was created, each message
//! exactly once, in publish order, with no replay of history. The
//! deployed channel behind this model is bounded, so a subscriber that
//! lags far behind may miss messages; the model states the delivery
//! order and isolation that every delivered message obeys.

use vstd::prelude::*;

verus! {

/// One fan-out channel: the history of messages published to it.
#[derive(Clone, Debug, PartialEq)]
pub struct FanoutChannel {
    pub messages: Vec<String>,
}

/// One registry entry: a document identity and its channel.
#[derive(Clone, Debug, PartialEq)]
pub struct ChannelEntry {
    pub path: String,
    pub channel: FanoutChannel,
}

/// A subscription: the publish count when it was created, and the cursor
/// of the next message to deliver. It never looks back before `start`.
#[derive(Clone, Copy, Debug, PartialEq, Eq, Structural)]
pub struct Subscriber {
    pub start: usize,
    pub next: usize,
}

/// The registry of fan-out channels, keyed by document identity.
#[derive(Clone, Debug, PartialEq)]
pub struct Hub {
    pub entries: Vec<ChannelEntry>,
}

/// The index of the first entry for a document identity, if any.
pub open spec fn spec_find_channel(entries: Seq<ChannelEntry>, path: Seq<char>) -> Option<int>
    decreases entries.len(),
{
    if entries.len() == 0 {
        Option::None
    } else if entries[0].path@ == path {
        Option::Some(0)
    } else {
        match spec_find_channel(entries.drop_first(), path) {
            Option::Some(i) => Option::Some(i + 1),
            Option::None => Option::None,
        }
    }
}

/// A subscriber is consistent with a channel when its cursor lies between
/// its subscription point and the channel's publish count.
pub open spec fn sub_wf(sub: Subscriber, ch: FanoutChannel) -> bool {
    sub.start <= sub.next <= ch.messages@.len()
}

/// What a subscriber has received so far: the slice of the history from
/// its subscription point to its cursor.
pub open spec fn spec_received(sub: Subscriber, ch: FanoutChannel) -> Seq<String> {
    ch.messages@.subrange(sub.start as int, sub.next as int)
}

/// Fan-out isolation: a subscriber created after a message was published
/// never receives it. Everything received is drawn, in order, from the
/// history at or beyond the subscription point, so a message whose index
/// lies before `start` — published before the subscriber existed — is
/// not among it.
pub proof fn lemma_fanout_isolation(sub: Subscriber, ch: FanoutChannel, early: int)
    requires
        sub_wf(sub, ch),
        0 <= early < sub.start,
    ensures
        forall|j: int|
            0 <= j < spec_received(sub, ch).len() ==> #[trigger] spec_received(sub, ch)[j]
                == ch.messages@[sub.start + j] && sub.start + j > early,
{
}

/// In-order, exactly-once delivery: a subscriber whose cursor has reached
/// the end of the history has received exactly the messages published
/// after it subscribed, in publish order, each once — independent of any
/// other subscriber's cursor, which this statement does not mention.
pub proof fn lemma_receives_all_in_order(sub: Subscriber, ch: FanoutChannel)
    requires
        sub_wf(sub, ch),
        sub.next == ch.messages@.len(),
    ensures
        spec_received(sub, ch) == ch.messages@.skip(sub.start as int),
{
    assert(spec_received(sub, ch) =~= ch.messages@.skip(sub.start as int));
}

/// Creation is idempotent: once an entry for an identity has been
/// appended to a registry that had none, a later lookup finds exactly
/// that entry — so a repeated get-or-create returns the same channel and
/// leaves the registry unchanged.
pub proof fn lemma_channel_reused(entries: Seq<ChannelEntry>, entry: ChannelEntry, path: Seq<char>)
    requires
        spec_find_channel(entries, path) is None,
        entry.path@ == path,
    ensures
        spec_find_channel(entries.push(entry), path) == Option::Some(entries.len() as int),
    decreases entries.len(),
{
    if entries.len() == 0 {
        assert(entries.push(entry)[0] == entry);
    } else {
        assert(entries.push(entry)[0] == entries[0]);
        assert(entries.push(entry).drop_first() =~= entries.drop_first().push(entry));
        lemma_channel_reused(entries.drop_first(), entry, path);
    }
}

impl Hub {
    /// An empty registry.
    pub fn new() -> (h: Hub)
        ensures
            h.entries@.len() == 0,
    {
        Hub { entries: Vec::new() }
    }

    /// The channel for a document identity, created on first reference:
    /// when the identity is already present the registry is unchanged and
    /// the index of its first entry is returned; otherwise a fresh, empty
    /// channel is appended for it. Repeated calls with the same identity
    /// therefore return the same channel.
    pub fn get_or_create_channel(&mut self, path: &str) -> (idx: usize)
        ensures
            idx < final(self).entries@.len(),
            final(self).entries@[idx as int].path@ == path@,
            match spec_find_channel(old(self).entries@, path@) {
                Option::Some(i) => *final(self) == *old(self) && idx == i,
                Option::None => {
                    &&& idx == old(self).entries@.len()
                    &&& final(self).entries@.len() == idx + 1
                    &&& (forall|j: int|
                        0 <= j < idx ==> final(self).entries@[j] == old(self).entries@[j])
                    &&& final(self).entries@[idx as int].channel.messages@.len() == 0
                },
            },
    {
        let n = self.entries.len();
        let mut i: usize = 0;
        proof {
            assert(self.entries@.skip(0) =~= self.entries@);
        }
        while i < n
            invariant
                i <= n,
                n == self.entries@.len(),
                spec_find_channel(self.entries@, path@) == match spec_find_channel(
                    self.entries@.skip(i as int),
                    path@,
                ) {
                    Option::Some(k) => Option::Some(k + i),
                    Option::None => Option::None::<int>,
                },
            decreases n - i,
        {
            proof {
                assert(self.entries@.skip(i as int)[0] == self.entries@[i as int]);
                assert(self.entries@.skip(i as int).drop_first() =~= self.entries@.skip(i + 1));
            }
            if str_eq_string(path, &self.entries[i].path) {
                proof {
                    assert(spec_find_channel(self.entries@.skip(i as int), path@)
                        == Option::Some(0int));
                }
                return i;
            }
            i = i + 1;
        }
        proof {
            assert(self.entries@.skip(n as int) =~= Seq::<ChannelEntry>::empty());
        }
        let entry = ChannelEntry {
            path: String::from_str(path),
            channel: FanoutChannel { messages: Vec::new() },
        };
        self.entries.push(entry);
        n
    }

    /// Publishes a message to a channel: it is appended to that channel's
    /// history and every other entry is untouched. With no subscriber
    /// attached nothing observes it — fire-and-forget, never queued for
    /// later subscribers.
    pub fn publish(&mut self, idx: usize, msg: String)
        requires
            idx < old(self).entries@.len(),
        ensures
            final(self).entries@.len() == old(self).entries@.len(),
            final(self).entries@[idx as int].path == old(self).entries@[idx as int].path,
            final(self).entries@[idx as int].channel.messages@ == old(
                self,
            ).entries@[idx as int].channel.messages@.push(msg),
            forall|j: int|
                0 <= j < old(self).entries@.len() && j != idx ==> final(self).entries@[j] == old(
                    self,
                ).entries@[j],
    {
        let ghost e = self.entries@;
        let mut entry = self.entries.remove(idx);
        entry.channel.messages.push(msg);
        self.entries.insert(idx, entry);
        proof {
            let f = self.entries@;
            assert(f.len() == e.len());
            assert forall|j: int| 0 <= j < e.len() && j != idx implies f[j] == e[j] by {
                if j < idx {
                    assert(f[j] == e.remove(idx as int)[j]);
                    assert(e.remove(idx as int)[j] == e[j]);
                } else {
                    assert(f[j] == e.remove(idx as int)[j - 1]);
                    assert(e.remove(idx as int)[j - 1] == e[j]);
                }
            }
        }
    }

    /// A new, independent subscription to a channel: it begins at the
    /// channel's current publish count, so it observes only messages
    /// published after this call — no replay of history.
    pub fn subscribe(&self, idx: usize) -> (sub: Subscriber)
        requires
            idx < self.entries@.len(),
        ensures
            sub.start == self.entries@[idx as int].channel.messages@.len(),
            sub.next == sub.start,
            sub_wf(sub, self.entries@[idx as int].channel),
            spec_received(sub, self.entries@[idx as int].channel).len() == 0,
    {
        let len = self.entries[idx].channel.messages.len();
        let sub = Subscriber { start: len, next: len };
        proof {
            assert(spec_received(sub, self.entries@[idx as int].channel) =~= Seq::<
                String,
            >::empty());
        }
        sub
    }

    /// Delivers the next message for a subscription, if one is pending:
    /// the message at the subscriber's cursor, which then moves forward by
    /// one; `None`, with nothing changed, when the subscriber has seen the
    /// whole history. Deliveries thus follow publish order exactly.
    pub fn try_recv(&self, idx: usize, sub: &mut Subscriber) -> (m: Option<String>)
        requires
            idx < self.entries@.len(),
            sub_wf(*old(sub), self.entries@[idx as int].channel),
        ensures
            sub_wf(*final(sub), self.entries@[idx as int].channel),
            final(sub).start == old(sub).start,
            final(sub).next >= old(sub).next,
            old(sub).next < self.entries@[idx as int].channel.messages@.len() ==> {
                &&& m == Option::Some(
                    self.entries@[idx as int].channel.messages@[old(sub).next as int],
                )
                &&& final(sub).next == old(sub).next + 1
                &&& spec_received(*final(sub), self.entries@[idx as int].channel) == spec_received(
                    *old(sub),
                    self.entries@[idx as int].channel,
                ).push(self.entries@[idx as int].channel.messages@[old(sub).next as int])
            },
            old(sub).next >= self.entries@[idx as int].channel.messages@.len() ==> m is None
                && *final(sub) == *old(sub),
    {
        let ch = &self.entries[idx].channel;
        if sub.next < ch.messages.len() {
            let msg = ch.messages[sub.next].clone();
            let ghost old_sub = *sub;
            sub.next = sub.next + 1;
            proof {
                assert(spec_received(*sub, self.entries@[idx as int].channel) =~= spec_received(
                    old_sub,
                    self.entries@[idx as int].channel,
                ).push(self.entries@[idx as int].channel.messages@[old_sub.next as int]));
            }
            Some(msg)
        } else {
            None
        }
    }
}

/// Whether a borrowed path equals a stored identity.
fn str_eq_string(path: &str, stored: &String) -> (b: bool)
    ensures
        b == (path@ == stored@),
{
    let owned = String::from_str(path);
    owned.eq(stored)
}

} // verus!
