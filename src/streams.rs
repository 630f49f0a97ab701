use crate::event::MarketEvent;
use crate::instant::UtcInstant;
use crate::subscription::{de_tiker_subscription_id, subscription_text, SubscriptionId, Tikers, TICKERS_CHANNEL};
use crate::tiker::{tiker_of_wire, wire_valid, BinanceTiker, DecodeError, ExchangeId, WireTiker};
use vstd::prelude::*;
use vstd::string::*;

verus! {

/// Kind of instrument a subscription is for.
#[derive(Clone, Copy, Debug, PartialEq, Eq, Structural)]
pub enum InstrumentKind {
    Spot,
    Perpetual,
}

/// Instrument identity carried by every event: base and quote asset and kind.
pub struct Instrument {
    pub base: String,
    pub quote: String,
    pub kind: InstrumentKind,
}

/// One requested stream: exchange, base asset, quote asset, instrument kind and
/// subscription kind.
pub struct Subscription {
    pub exchange: ExchangeId,
    pub base: String,
    pub quote: String,
    pub instrument_kind: InstrumentKind,
    pub kind: Tikers,
}

/// Routing key of a subscription: the ticker channel and the market `<base><quote>`.
pub open spec fn subscription_key(s: Subscription) -> Seq<char> {
    subscription_text(TICKERS_CHANNEL@, s.base@ + s.quote@)
}

/// `i` is the instrument of subscription `s`.
pub open spec fn instrument_of(i: Instrument, s: Subscription) -> bool {
    i.base@ == s.base@ && i.quote@ == s.quote@ && i.kind == s.instrument_kind
}

impl Subscription {
    pub fn new(
        exchange: ExchangeId,
        base: &str,
        quote: &str,
        instrument_kind: InstrumentKind,
        kind: Tikers,
    ) -> (r: Subscription)
        ensures
            r.exchange == exchange,
            r.base@ == base@,
            r.quote@ == quote@,
            r.instrument_kind == instrument_kind,
    {
        Subscription {
            exchange,
            base: String::from_str(base),
            quote: String::from_str(quote),
            instrument_kind,
            kind,
        }
    }

    /// The routing key of this subscription.
    pub fn id(&self) -> (r: SubscriptionId)
        ensures
            r.text@ == subscription_key(*self),
    {
        let market = String::from_str(self.base.as_str()).concat(self.quote.as_str());
        de_tiker_subscription_id(market.as_str())
    }

    pub fn instrument(&self) -> (r: Instrument)
        ensures
            instrument_of(r, *self),
    {
        Instrument { base: self.base.clone(), quote: self.quote.clone(), kind: self.instrument_kind }
    }
}

/// `conns` holds one connection per batch, in order, each serving its batch.
pub open spec fn connections_for(batches: Seq<Vec<Subscription>>, conns: Seq<Connection>) -> bool {
    conns.len() == batches.len() && forall|c: int|
        0 <= c < conns.len() ==> (#[trigger] conns[c]).serves(batches[c]@)
}

/// Accumulates subscription requests; each call of `subscribe` asks for one connection.
pub struct StreamBuilder {
    pub batches: Vec<Vec<Subscription>>,
}

impl StreamBuilder {
    pub fn new() -> (r: StreamBuilder)
        ensures
            r.batches@.len() == 0,
    {
        StreamBuilder { batches: Vec::new() }
    }

    /// Request one connection carrying every subscription of `batch`.
    pub fn subscribe(&mut self, batch: Vec<Subscription>)
        ensures
            final(self).batches@ == old(self).batches@.push(batch),
    {
        self.batches.push(batch);
    }

    /// Number of connections requested so far.
    pub fn connection_count(&self) -> (r: usize)
        ensures
            r == self.batches@.len(),
    {
        self.batches.len()
    }

    /// One connection per `subscribe` call, in call order, each routing the
    /// subscriptions of its call.
    pub fn init(self) -> (r: Vec<Connection>)
        ensures
            connections_for(self.batches@, r@),
    {
        let mut out: Vec<Connection> = Vec::new();
        let mut c: usize = 0;
        while c < self.batches.len()
            invariant
                c <= self.batches@.len(),
                out@.len() == c,
                forall|k: int| 0 <= k < c ==> (#[trigger] out@[k]).serves(self.batches@[k]@),
            decreases self.batches@.len() - c,
        {
            let conn = Connection::for_batch(&self.batches[c]);
            out.push(conn);
            c = c + 1;
        }
        out
    }
}

/// One source's view of a message after decoding and routing.
pub enum Inbound {
    /// The message decoded and routed to one of the connection's subscriptions.
    Event(MarketEvent<Instrument>),
    /// The message did not decode; it is dropped.
    Rejected(DecodeError),
    /// The message decoded but its key matches no subscription; it is dropped.
    Unrouted(SubscriptionId),
}

/// A connection: its subscriptions and the routing key of each.
pub struct Connection {
    pub subscriptions: Vec<Subscription>,
    pub keys: Vec<SubscriptionId>,
}

impl Connection {
    pub open spec fn well_formed(&self) -> bool {
        self.keys@.len() == self.subscriptions@.len() && forall|i: int|
            0 <= i < self.keys@.len() ==> (#[trigger] self.keys@[i]).text@ == subscription_key(
                self.subscriptions@[i],
            )
    }

    /// This connection routes exactly the subscriptions of `batch`.
    pub open spec fn serves(&self, batch: Seq<Subscription>) -> bool {
        self.well_formed() && self.subscriptions@.len() == batch.len() && forall|i: int|
            0 <= i < batch.len() ==> subscription_key(#[trigger] self.subscriptions@[i])
                == subscription_key(batch[i]) && self.subscriptions@[i].exchange == batch[i].exchange
                && self.subscriptions@[i].base@ == batch[i].base@ && self.subscriptions@[i].quote@
                == batch[i].quote@ && self.subscriptions@[i].instrument_kind
                == batch[i].instrument_kind
    }

    pub fn for_batch(batch: &Vec<Subscription>) -> (r: Connection)
        ensures
            r.serves(batch@),
    {
        let mut subscriptions: Vec<Subscription> = Vec::new();
        let mut keys: Vec<SubscriptionId> = Vec::new();
        let mut i: usize = 0;
        while i < batch.len()
            invariant
                i <= batch@.len(),
                subscriptions@.len() == i,
                keys@.len() == i,
                forall|k: int| 0 <= k < i ==> (#[trigger] keys@[k]).text@ == subscription_key(
                    subscriptions@[k],
                ),
                forall|k: int|
                    0 <= k < i ==> subscription_key(#[trigger] subscriptions@[k]) == subscription_key(
                        batch@[k],
                    ) && subscriptions@[k].exchange == batch@[k].exchange
                        && subscriptions@[k].base@ == batch@[k].base@ && subscriptions@[k].quote@
                        == batch@[k].quote@ && subscriptions@[k].instrument_kind
                        == batch@[k].instrument_kind,
            decreases batch@.len() - i,
        {
            let s = &batch[i];
            let copy = Subscription {
                exchange: s.exchange,
                base: s.base.clone(),
                quote: s.quote.clone(),
                instrument_kind: s.instrument_kind,
                kind: s.kind,
            };
            keys.push(copy.id());
            subscriptions.push(copy);
            i = i + 1;
        }
        Connection { subscriptions, keys }
    }

    /// Index of the first subscription whose key is `id`.
    pub fn route(&self, id: &SubscriptionId) -> (r: Option<usize>)
        requires
            self.well_formed(),
        ensures
            match r {
                Some(i) => i < self.keys@.len() && self.keys@[i as int].text@ == id.text@
                    && forall|j: int| 0 <= j < i ==> (#[trigger] self.keys@[j]).text@ != id.text@,
                None => forall|j: int|
                    0 <= j < self.keys@.len() ==> (#[trigger] self.keys@[j]).text@ != id.text@,
            },
    {
        let mut j: usize = 0;
        while j < self.keys.len()
            invariant
                j <= self.keys@.len(),
                forall|k: int| 0 <= k < j ==> (#[trigger] self.keys@[k]).text@ != id.text@,
            decreases self.keys@.len() - j,
        {
            if self.keys[j].same_as(id) {
                return Some(j);
            }
            j = j + 1;
        }
        None
    }

    /// Decode a wire message received at `received` and route it to its subscription.
    pub fn handle(&self, w: &WireTiker, received: UtcInstant) -> (r: Inbound)
        requires
            self.well_formed(),
        ensures
            !wire_valid(*w) <==> r is Rejected,
            r matches Inbound::Unrouted(k) ==> k.text@ == subscription_text(TICKERS_CHANNEL@, w.symbol@)
                && forall|j: int|
                0 <= j < self.keys@.len() ==> (#[trigger] self.keys@[j]).text@ != k.text@,
            r matches Inbound::Event(e) ==> exists|i: int|
                0 <= i < self.keys@.len() && (#[trigger] self.keys@[i]).text@ == subscription_text(
                    TICKERS_CHANNEL@,
                    w.symbol@,
                ) && e.exchange == self.subscriptions@[i].exchange && instrument_of(
                    e.instrument,
                    self.subscriptions@[i],
                ) && e.kind == tiker_of_wire(*w) && e.exchange_time.epoch_ms == w.close_time
                    && e.received_time == received,
            wire_valid(*w) && (exists|i: int|
                0 <= i < self.keys@.len() && (#[trigger] self.keys@[i]).text@ == subscription_text(
                    TICKERS_CHANNEL@,
                    w.symbol@,
                )) ==> r is Event,
    {
        match BinanceTiker::decode(w) {
            Err(e) => Inbound::Rejected(e),
            Ok(t) => {
                let id = t.subscription_id.duplicate();
                match self.route(&id) {
                    None => Inbound::Unrouted(id),
                    Some(i) => {
                        let s = &self.subscriptions[i];
                        Inbound::Event(MarketEvent::from_tiker(s.exchange, s.instrument(), t, received))
                    },
                }
            },
        }
    }
}

/// What one source hands to the merge.
pub enum SourceItem<T, E> {
    Item(T),
    Error(E),
    Ended,
}

/// What the merge does with one source item.
pub enum MergeAction<T, E> {
    /// Yield the item.
    Emit(T),
    /// Hand the error to the error handler once, then drop it.
    Report(E),
    /// Nothing to yield; keep polling.
    Pending,
    /// Every source has ended: the merged sequence ends.
    Finished,
}

/// The sources' liveness after `source` hands the merge an item (`ended == false`)
/// or its end (`ended == true`).
pub open spec fn next_live(live: Seq<bool>, source: int, ended: bool) -> Seq<bool> {
    if ended {
        live.update(source, false)
    } else {
        live
    }
}

pub open spec fn all_ended(live: Seq<bool>) -> bool {
    forall|i: int| 0 <= i < live.len() ==> !live[i]
}

/// Merge of independently failing sources: one flag per source, true while it runs.
pub struct SelectAll {
    pub live: Vec<bool>,
}

impl SelectAll {
    pub fn new(sources: usize) -> (r: SelectAll)
        ensures
            r.live@ == Seq::new(sources as nat, |i: int| true),
    {
        let mut live: Vec<bool> = Vec::new();
        let mut i: usize = 0;
        while i < sources
            invariant
                i <= sources,
                live@ == Seq::new(i as nat, |k: int| true),
            decreases sources - i,
        {
            live.push(true);
            i = i + 1;
        }
        SelectAll { live }
    }

    /// Every source has ended.
    pub fn is_finished(&self) -> (r: bool)
        ensures
            r == all_ended(self.live@),
    {
        let mut i: usize = 0;
        while i < self.live.len()
            invariant
                i <= self.live@.len(),
                forall|k: int| 0 <= k < i ==> !self.live@[k],
            decreases self.live@.len() - i,
        {
            if self.live[i] {
                return false;
            }
            i = i + 1;
        }
        true
    }

    /// Take one item from `source`. Items are yielded and errors reported as they
    /// come; only the end of the last running source ends the merge.
    pub fn step<T, E>(&mut self, source: usize, item: SourceItem<T, E>) -> (r: MergeAction<T, E>)
        requires
            source < old(self).live@.len(),
        ensures
            final(self).live@ == next_live(old(self).live@, source as int, item is Ended),
            !old(self).live@[source as int] ==> r is Pending,
            old(self).live@[source as int] ==> match item {
                SourceItem::Item(x) => r == MergeAction::<T, E>::Emit(x),
                SourceItem::Error(e) => r == MergeAction::<T, E>::Report(e),
                SourceItem::Ended => if all_ended(final(self).live@) {
                    r is Finished
                } else {
                    r is Pending
                },
            },
    {
        if !self.live[source] {
            if let SourceItem::Ended = item {
                proof {
                    assert(self.live@.update(source as int, false) =~= self.live@);
                }
            }
            return MergeAction::Pending;
        }
        match item {
            SourceItem::Item(x) => MergeAction::Emit(x),
            SourceItem::Error(e) => MergeAction::Report(e),
            SourceItem::Ended => {
                self.live.set(source, false);
                if self.is_finished() {
                    MergeAction::Finished
                } else {
                    MergeAction::Pending
                }
            },
        }
    }
}

/// An error from one source leaves every source running, so the merge goes on
/// while any source runs; the merge ends exactly when the last running source ends.
pub proof fn lemma_merge_resilience(live: Seq<bool>, failed: int, other: int)
    requires
        0 <= failed < live.len(),
        0 <= other < live.len(),
        live[other],
    ensures
        next_live(live, failed, false) == live,
        !all_ended(next_live(live, failed, false)),
        other != failed ==> next_live(live, failed, true)[other],
        all_ended(next_live(live, other, true)) <==> forall|j: int|
            0 <= j < live.len() && j != other ==> !live[j],
{
    let after = next_live(live, other, true);
    if forall|j: int| 0 <= j < live.len() && j != other ==> !live[j] {
        assert forall|i: int| 0 <= i < after.len() implies !after[i] by {
            if i != other {
                assert(!live[i]);
            }
        }
    }
    if all_ended(after) {
        assert forall|j: int| 0 <= j < live.len() && j != other implies !live[j] by {
            assert(!after[j]);
        }
    }
}

/// Connection fan-out: subscribing `x` and `y` in one call and then initialising
/// gives one new connection serving both; subscribing them in two calls gives two
/// new connections, each serving its own subscription.
pub proof fn lemma_fan_out(
    builder: StreamBuilder,
    x: Subscription,
    y: Subscription,
    both: Vec<Subscription>,
    only_x: Vec<Subscription>,
    only_y: Vec<Subscription>,
    together: Seq<Connection>,
    apart: Seq<Connection>,
)
    requires
        both@ == seq![x, y],
        only_x@ == seq![x],
        only_y@ == seq![y],
        connections_for(builder.batches@.push(both), together),
        connections_for(builder.batches@.push(only_x).push(only_y), apart),
    ensures
        together.len() == builder.batches@.len() + 1,
        together.last().serves(seq![x, y]),
        apart.len() == builder.batches@.len() + 2,
        apart[apart.len() - 2].serves(seq![x]),
        apart.last().serves(seq![y]),
{
    let n = builder.batches@.len() as int;
    assert(together[n].serves(builder.batches@.push(both)[n]@));
    assert(apart[n].serves(builder.batches@.push(only_x).push(only_y)[n]@));
    assert(apart[n + 1].serves(builder.batches@.push(only_x).push(only_y)[n + 1]@));
}

} // verus!
