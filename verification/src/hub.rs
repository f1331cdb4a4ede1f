//! The reload hub: the registry of live-reload subscribers. Each
//! subscriber is the sending half of a channel whose receiving half is
//! held by one event-stream connection handler. Broadcasting sends to
//! every registered channel and, in the same pass, drops every channel
//! whose consumer is gone — that pruning is the sole cleanup mechanism.

use vstd::prelude::*;

verus! {

/// Declares `std::sync::mpsc::Sender` to the verifier as an opaque type:
/// a subscriber's outbound channel end.
#[verifier::external_type_specification]
#[verifier::external_body]
#[verifier::reject_recursive_types(T)]
pub struct ExSender<T>(std::sync::mpsc::Sender<T>);

/// Declares `std::sync::mpsc::Receiver` to the verifier as an opaque
/// type: the end a connection handler reads broadcasts from.
#[verifier::external_type_specification]
#[verifier::external_body]
#[verifier::reject_recursive_types(T)]
pub struct ExReceiver<T>(std::sync::mpsc::Receiver<T>);

/// Relies on `std::sync::mpsc::channel`: creates a connected
/// sender/receiver pair. Which receiver a sender feeds is not modelled, so
/// nothing is stated of the pair.
#[verifier::external_body]
fn channel_pair() -> (std::sync::mpsc::Sender<String>, std::sync::mpsc::Receiver<String>) {
    std::sync::mpsc::channel()
}

/// Relies on `Sender::send`: delivers the message to the paired receiver's
/// queue, without blocking, and fails exactly when the receiver has been
/// dropped. Whether this subscriber is still connected is outside the
/// model, so nothing is stated of the returned flag.
#[verifier::external_body]
fn send_text(tx: &std::sync::mpsc::Sender<String>, msg: &str) -> (ok: bool) {
    tx.send(msg.to_string()).is_ok()
}

/// The subscribers left after one broadcast pass, given which sends
/// succeeded: exactly those whose send came back good, in their original
/// order.
pub open spec fn prune<T>(subs: Seq<T>, ok: Seq<bool>) -> Seq<T>
    recommends
        ok.len() == subs.len(),
    decreases subs.len(),
{
    if subs.len() == 0 {
        Seq::empty()
    } else {
        let rest = prune(subs.drop_last(), ok.drop_last());
        if ok.len() == subs.len() && ok.last() {
            rest.push(subs.last())
        } else {
            rest
        }
    }
}

/// How many sends of one broadcast pass succeeded: the number of
/// subscribers the message was delivered to.
pub open spec fn count_true(ok: Seq<bool>) -> int
    decreases ok.len(),
{
    if ok.len() == 0 {
        0
    } else {
        count_true(ok.drop_last()) + if ok.last() {
            1 as int
        } else {
            0 as int
        }
    }
}

/// The registry of connected live-reload subscribers.
pub struct ReloadHub {
    subs: Vec<std::sync::mpsc::Sender<String>>,
}

impl ReloadHub {
    /// The registered outbound channels, in registration order.
    pub closed spec fn subscribers(&self) -> Seq<std::sync::mpsc::Sender<String>> {
        self.subs@
    }

    /// An empty registry.
    pub fn new() -> (h: ReloadHub)
        ensures
            h.subscribers() =~= Seq::<std::sync::mpsc::Sender<String>>::empty(),
    {
        ReloadHub { subs: Vec::new() }
    }

    /// How many subscribers are registered.
    pub fn subscriber_count(&self) -> (n: usize)
        ensures
            n == self.subscribers().len(),
    {
        self.subs.len()
    }

    /// Registers a new outbound channel and hands its receiving half to
    /// the caller, the connection handler that owns the live socket.
    pub fn subscribe(&mut self) -> (rx: std::sync::mpsc::Receiver<String>)
        ensures
            final(self).subscribers().len() == old(self).subscribers().len() + 1,
            final(self).subscribers().drop_last() == old(self).subscribers(),
    {
        let (tx, rx) = channel_pair();
        self.subs.push(tx);
        assert(self.subs@.drop_last() =~= old(self).subs@);
        rx
    }

    /// Sends `msg` to every registered subscriber and removes, in the same
    /// pass, each one whose send failed: afterwards the registry holds
    /// exactly the subscribers whose send succeeded, in their original
    /// order.
    pub fn broadcast(&mut self, msg: &str)
        ensures
            final(self).subscribers().len() <= old(self).subscribers().len(),
            exists|ok: Seq<bool>|
                ok.len() == old(self).subscribers().len() && final(self).subscribers() == prune(
                    old(self).subscribers(),
                    ok,
                ),
    {
        let mut pending: Vec<std::sync::mpsc::Sender<String>> = Vec::new();
        core::mem::swap(&mut pending, &mut self.subs);
        let ghost orig: Seq<std::sync::mpsc::Sender<String>> = pending@;
        let mut kept: Vec<std::sync::mpsc::Sender<String>> = Vec::new();
        let ghost mut oks: Seq<bool> = Seq::empty();
        while pending.len() > 0
            invariant
                oks.len() + pending@.len() == orig.len(),
                pending@ == orig.subrange(oks.len() as int, orig.len() as int),
                kept@ == prune(orig.subrange(0, oks.len() as int), oks),
            decreases pending@.len(),
        {
            let ghost i: int = oks.len() as int;
            let ghost prev: Seq<bool> = oks;
            let tx = pending.remove(0);
            assert(tx == orig[i]);
            assert(pending@ =~= orig.subrange(i + 1, orig.len() as int));
            let ok = send_text(&tx, msg);
            if ok {
                kept.push(tx);
            }
            proof {
                oks = oks.push(ok);
                assert(orig.subrange(0, i + 1).drop_last() =~= orig.subrange(0, i));
                assert(oks.drop_last() =~= prev);
                assert(orig.subrange(0, i + 1).last() == orig[i]);
            }
            assert(kept@ == prune(orig.subrange(0, i + 1), oks));
        }
        self.subs = kept;
        proof {
            assert(orig.subrange(0, orig.len() as int) =~= orig);
            assert(final(self).subscribers() == prune(old(self).subscribers(), oks));
            lemma_prune_never_grows(old(self).subscribers(), oks);
        }
    }
}

/// One broadcast pass never adds subscribers.
pub proof fn lemma_prune_never_grows<T>(subs: Seq<T>, ok: Seq<bool>)
    ensures
        prune(subs, ok).len() <= subs.len(),
    decreases subs.len(),
{
    if subs.len() > 0 {
        lemma_prune_never_grows(subs.drop_last(), ok.drop_last());
    }
}

/// Sends the `reload` token to every subscriber, pruning the dead ones:
/// what the detector does after each build settles.
pub fn broadcast_reload(hub: &mut ReloadHub)
    ensures
        final(hub).subscribers().len() <= old(hub).subscribers().len(),
        exists|ok: Seq<bool>|
            ok.len() == old(hub).subscribers().len() && final(hub).subscribers() == prune(
                old(hub).subscribers(),
                ok,
            ),
{
    hub.broadcast("reload")
}

/// Broadcasting with zero subscribers is a no-op: whatever the send
/// results, nothing is delivered and the registry stays empty.
pub proof fn lemma_broadcast_no_subscribers<T>(ok: Seq<bool>)
    ensures
        prune(Seq::<T>::empty(), ok) == Seq::<T>::empty(),
        count_true(Seq::<bool>::empty()) == 0,
{
}

/// When every send succeeds, a broadcast delivers to every subscriber and
/// removes none.
pub proof fn lemma_broadcast_all_live<T>(subs: Seq<T>, ok: Seq<bool>)
    requires
        ok.len() == subs.len(),
        forall|i: int| 0 <= i < ok.len() ==> ok[i],
    ensures
        prune(subs, ok) == subs,
        count_true(ok) == subs.len(),
    decreases subs.len(),
{
    if subs.len() > 0 {
        lemma_broadcast_all_live(subs.drop_last(), ok.drop_last());
        assert(prune(subs, ok) =~= subs);
    }
}

/// When exactly one subscriber is dead, a broadcast delivers to the other
/// N - 1 and removes exactly the dead one: the registry shrinks by one.
pub proof fn lemma_broadcast_one_dead<T>(subs: Seq<T>, ok: Seq<bool>, dead: int)
    requires
        ok.len() == subs.len(),
        0 <= dead < subs.len(),
        !ok[dead],
        forall|i: int| 0 <= i < ok.len() && i != dead ==> ok[i],
    ensures
        prune(subs, ok) == subs.remove(dead),
        count_true(ok) == subs.len() - 1,
    decreases subs.len(),
{
    if dead == subs.len() - 1 {
        lemma_broadcast_all_live(subs.drop_last(), ok.drop_last());
        assert(prune(subs, ok) =~= subs.remove(dead));
    } else {
        lemma_broadcast_one_dead(subs.drop_last(), ok.drop_last(), dead);
        assert(subs.drop_last().remove(dead).push(subs.last()) =~= subs.remove(dead));
        assert(prune(subs, ok) =~= subs.remove(dead));
    }
}

} // verus!
