use vstd::prelude::*;
use vstd::string::*;

verus! {

/// Channel literal of the futures ticker stream.
pub const TICKERS_CHANNEL: &'static str = "@tiker";

/// Upper-case form of a text under the Unicode case mapping.
pub uninterp spec fn upper_of(s: Seq<char>) -> Seq<char>;

/// Canonical text of a subscription key: `<channel>|<MARKET>`.
pub open spec fn subscription_text(channel: Seq<char>, market: Seq<char>) -> Seq<char> {
    channel + seq!['|'] + upper_of(market)
}

/// Relies on `str::to_uppercase`: the upper-case form of the text, which depends on
/// the characters alone.
#[verifier::external_body]
fn uppercase(s: &str) -> (r: String)
    ensures
        r@ == upper_of(s@),
{
    s.to_uppercase()
}

/// Routing key that links an exchange channel and market to inbound messages.
pub struct SubscriptionId {
    pub text: String,
}

impl SubscriptionId {
    /// Derive the key of `market` on `channel`; the market is upper-cased.
    pub fn derive(channel: &str, market: &str) -> (r: SubscriptionId)
        ensures
            r.text@ == subscription_text(channel@, market@),
    {
        let upper = uppercase(market);
        proof {
            reveal_strlit("|");
        }
        assert("|"@ =~= seq!['|']);
        let text = String::from_str(channel).concat("|").concat(upper.as_str());
        SubscriptionId { text }
    }

    /// The key as text.
    pub fn as_str(&self) -> (r: &str)
        ensures
            r@ == self.text@,
    {
        self.text.as_str()
    }

    /// Key equality, by text.
    pub fn same_as(&self, other: &SubscriptionId) -> (r: bool)
        ensures
            r == (self.text@ == other.text@),
    {
        self.text == other.text
    }

    pub fn duplicate(&self) -> (r: SubscriptionId)
        ensures
            r.text@ == self.text@,
    {
        SubscriptionId { text: self.text.clone() }
    }
}

/// Derive the ticker subscription key for a market symbol as it arrives on the wire
/// (eg/ "ETHUSDT" gives "@tiker|ETHUSDT").
pub fn de_tiker_subscription_id(market: &str) -> (r: SubscriptionId)
    ensures
        r.text@ == subscription_text(TICKERS_CHANNEL@, market@),
{
    SubscriptionId::derive(TICKERS_CHANNEL, market)
}

/// Subscription kind marker for ticker (rolling window statistics) streams.
#[derive(Clone, Copy, Debug, PartialEq, Eq, Structural)]
pub struct Tikers;

impl Tikers {
    /// Stable name of this subscription kind.
    pub fn as_str(&self) -> (r: &'static str)
        ensures
            r@ == "tikers"@,
    {
        "tikers"
    }
}

/// Key derivation ignores the letter case of the market: two markets with the
/// same upper-case form give the same key.
pub proof fn lemma_derive_case_insensitive(channel: Seq<char>, m1: Seq<char>, m2: Seq<char>)
    requires
        upper_of(m1) == upper_of(m2),
    ensures
        subscription_text(channel, m1) == subscription_text(channel, m2),
{
}

/// Keys do not collide: for channels without a `|`, two keys are equal exactly when
/// they come from the same channel and markets of the same upper-case form.
pub proof fn lemma_derive_injective(c1: Seq<char>, m1: Seq<char>, c2: Seq<char>, m2: Seq<char>)
    requires
        !c1.contains('|'),
        !c2.contains('|'),
    ensures
        subscription_text(c1, m1) == subscription_text(c2, m2) <==> (c1 == c2 && upper_of(m1)
            == upper_of(m2)),
{
    if subscription_text(c1, m1) == subscription_text(c2, m2) {
        lemma_split_key(c1, m1, c2, m2);
    }
}

proof fn lemma_split_key(c1: Seq<char>, m1: Seq<char>, c2: Seq<char>, m2: Seq<char>)
    requires
        !c1.contains('|'),
        !c2.contains('|'),
        subscription_text(c1, m1) == subscription_text(c2, m2),
    ensures
        c1 == c2,
        upper_of(m1) == upper_of(m2),
{
    let t = subscription_text(c1, m1);
    if c1.len() < c2.len() {
        assert(t[c1.len() as int] == '|');
        assert(c2[c1.len() as int] == t[c1.len() as int]);
        assert(c2.contains('|'));
    } else if c2.len() < c1.len() {
        assert(t[c2.len() as int] == '|');
        assert(c1[c2.len() as int] == t[c2.len() as int]);
        assert(c1.contains('|'));
    }
    assert(c1.len() == c2.len());
    assert(c1 =~= t.subrange(0, c1.len() as int));
    assert(c2 =~= t.subrange(0, c2.len() as int));
    assert(upper_of(m1) =~= t.subrange(c1.len() as int + 1, t.len() as int));
    assert(upper_of(m2) =~= t.subrange(c2.len() as int + 1, t.len() as int));
}

} // verus!
