//! The service's decisions: which feeds to create at start-up, what price
//! to submit for a round, and how each submission is bounded and numbered.

use vstd::prelude::*;
use vstd::string::StringExecFns;
use crate::registry::{
    Asset, RegistryError, registry_spec, feed_id_spec, asset_spec, description_spec,
    get_feed_id, asset_of_feed, get_feed_description, registered_assets,
};
use crate::price::{UsdPrice, scaled_spec, to_scaled};
use crate::sequence::SequenceTracker;
use crate::events::{EventDecoder, RoundRequest};
use crate::link::LinkState;

verus! {

/// The number of blocks, from the finalized head on, in which a submitted
/// transaction stays valid.
pub const MORTALITY_PERIOD: u64 = 5;

/// The scheme that the node address is reached by.
pub open spec fn ws_prefix() -> Seq<char> {
    "ws://"@
}

/// Why the command line could not be used.
#[derive(Clone, Copy, Debug, PartialEq, Eq, Structural)]
pub enum ConfigError {
    /// The command line, program name included, held `found` words instead
    /// of the program name and the node's `host:port`.
    Usage { found: usize },
}

pub struct Configuration {
    /// The websocket address of the ledger node.
    pub node_url: String,
}

impl Configuration {
    /// Reads the configuration from the command line `args`, program name
    /// first: the one argument is the node's `host:port`.
    pub fn new(args: &Vec<String>) -> (r: Result<Configuration, ConfigError>)
        ensures
            args@.len() == 2 <==> r is Ok,
            r matches Ok(c) ==> c.node_url@ == ws_prefix() + args@[1]@,
            r matches Err(e) ==> e == (ConfigError::Usage { found: args@.len() as usize }),
    {
        if args.len() != 2 {
            return Err(ConfigError::Usage { found: args.len() });
        }
        let mut node_url = String::from_str("ws://");
        node_url.append(args[1].as_str());
        Ok(Configuration { node_url })
    }
}

/// The arguments a feed is created with.
#[derive(Clone, Copy, Debug, PartialEq, Eq)]
pub struct FeedSetup {
    pub asset: Asset,
    pub description: &'static str,
    /// Paid to oracles per submission.
    pub payment: u128,
    /// Rounds time out after this many blocks; 0 for never.
    pub timeout: u32,
    pub min_value: u128,
    pub max_value: u128,
    /// Submissions needed before a round's answer counts.
    pub min_submissions: u32,
    /// The decimals of the submitted value.
    pub decimals: u8,
    /// Rounds an oracle must wait before it may start a round again.
    pub restart_delay: u32,
    pub pruning_window: Option<u32>,
    pub max_debt: Option<u128>,
}

pub open spec fn setup_matches(f: FeedSetup, a: Asset) -> bool {
    &&& f.asset == a
    &&& f.description@ == description_spec(a)
    &&& f.payment == 0
    &&& f.timeout == 0
    &&& f.min_value == 0
    &&& f.max_value == u128::MAX
    &&& f.min_submissions == 1
    &&& f.decimals == 0
    &&& f.restart_delay == 0
    &&& f.pruning_window is None
    &&& f.max_debt is None
}

/// The feeds that start-up creates, given whether the ledger reports any
/// feed as existing.
pub open spec fn bootstrap_spec(feeds_exist: bool) -> Seq<Asset> {
    if feeds_exist {
        Seq::empty()
    } else {
        registry_spec()
    }
}

/// What the ledger's existence probe reports once `created` feeds were
/// created: whether any was.
pub open spec fn probe_spec(created: Seq<Asset>) -> bool {
    created.len() > 0
}

/// The arguments of the feed for `asset`.
pub fn feed_setup(asset: Asset) -> (r: FeedSetup)
    ensures
        setup_matches(r, asset),
{
    FeedSetup {
        asset,
        description: get_feed_description(asset),
        payment: 0,
        timeout: 0,
        min_value: 0,
        max_value: u128::MAX,
        min_submissions: 1,
        decimals: 0,
        restart_delay: 0,
        pruning_window: None,
        max_debt: None,
    }
}

/// The feeds to create at start-up: none where the ledger already holds
/// one, else one per registered asset in registry order, which fixes each
/// feed's identifier.
pub fn feeds_to_create(feeds_exist: bool) -> (r: Vec<FeedSetup>)
    ensures
        r@.len() == bootstrap_spec(feeds_exist).len(),
        forall|i: int|
            0 <= i < r@.len() ==> setup_matches(#[trigger] r@[i], bootstrap_spec(feeds_exist)[i]),
{
    let mut r: Vec<FeedSetup> = Vec::new();
    if feeds_exist {
        return r;
    }
    let assets = registered_assets();
    let mut i: usize = 0;
    while i < assets.len()
        invariant
            !feeds_exist,
            assets@ == registry_spec(),
            i <= assets@.len(),
            r@.len() == i,
            forall|j: int| 0 <= j < i ==> setup_matches(#[trigger] r@[j], assets@[j]),
        decreases assets@.len() - i,
    {
        r.push(feed_setup(assets[i]));
        i = i + 1;
    }
    r
}

/// Start-up is idempotent under the existence probe: on a ledger with no
/// feed, running it twice, the second time after the probe sees what the
/// first created, leaves exactly one feed per registered asset, created in
/// registry order.
pub proof fn lemma_bootstrap_idempotent()
    ensures
        ({
            let first = bootstrap_spec(probe_spec(Seq::empty()));
            let second = bootstrap_spec(probe_spec(first));
            &&& first + second == registry_spec()
            &&& (first + second).no_duplicates()
            &&& forall|a: Asset| #[trigger] (first + second).contains(a)
        }),
{
    let first = bootstrap_spec(probe_spec(Seq::empty()));
    let second = bootstrap_spec(probe_spec(first));
    assert(first + second =~= registry_spec());
    crate::registry::lemma_feed_bijection();
    assert forall|i: int, j: int|
        0 <= i < registry_spec().len() && 0 <= j < registry_spec().len() && i != j implies
        registry_spec()[i] != registry_spec()[j] by {
        assert(feed_id_spec(registry_spec()[i]) == i);
        assert(feed_id_spec(registry_spec()[j]) == j);
    }
}

/// A USD quote for one asset, as the quote source gave it.
#[derive(Clone, Copy, Debug, PartialEq, Eq, Structural)]
pub struct Quote {
    pub asset: Asset,
    pub price: UsdPrice,
}

/// The reported price of `asset` among `quotes`: the first one given.
pub open spec fn quote_spec(quotes: Seq<Quote>, asset: Asset) -> Option<UsdPrice>
    decreases quotes.len(),
{
    if quotes.len() == 0 {
        None
    } else {
        match quote_spec(quotes.drop_last(), asset) {
            Some(p) => Some(p),
            None => if quotes.last().asset == asset {
                Some(quotes.last().price)
            } else {
                None
            },
        }
    }
}

/// The first quote for `asset`.
pub fn find_quote(quotes: &Vec<Quote>, asset: Asset) -> (r: Option<UsdPrice>)
    ensures
        r == quote_spec(quotes@, asset),
{
    let mut r: Option<UsdPrice> = None;
    let mut i: usize = 0;
    while i < quotes.len()
        invariant
            i <= quotes@.len(),
            r == quote_spec(quotes@.subrange(0, i as int), asset),
        decreases quotes@.len() - i,
    {
        proof {
            assert(quotes@.subrange(0, i + 1).drop_last() =~= quotes@.subrange(0, i as int));
        }
        if r.is_none() && quotes[i].asset == asset {
            r = Some(quotes[i].price);
        }
        i = i + 1;
    }
    assert(quotes@.subrange(0, quotes@.len() as int) =~= quotes@);
    r
}

/// The quote source could not be reached or answered in an unexpected shape.
#[derive(Clone, Copy, Debug, PartialEq, Eq, Structural)]
pub struct QuoteFetchError;

/// Why no price is submitted for a round.
#[derive(Clone, Copy, Debug, PartialEq, Eq, Structural)]
pub enum RoundError {
    /// The quotes could not be fetched.
    FetchFailed,
    /// The event names a feed that no registered asset has.
    UnknownFeed { feed_id: u32 },
    /// The quotes hold none for the feed's asset.
    MissingQuote { asset: Asset },
    /// The quote is not a valid price.
    InvalidQuote { asset: Asset },
    /// The scaled price does not fit in 128 bits.
    Overflow { asset: Asset },
}

/// A price to submit for one round of one feed.
#[derive(Clone, Copy, Debug, PartialEq, Eq, Structural)]
pub struct PriceUpdate {
    pub feed_id: u32,
    pub round_id: u32,
    pub value: u128,
}

/// The submission that a round request calls for, given the fetched quotes.
pub open spec fn plan_spec(req: RoundRequest, fetched: Result<Seq<Quote>, QuoteFetchError>) -> Result<
    PriceUpdate,
    RoundError,
> {
    match fetched {
        Err(_) => Err(RoundError::FetchFailed),
        Ok(quotes) => match asset_spec(req.feed_id) {
            None => Err(RoundError::UnknownFeed { feed_id: req.feed_id }),
            Some(a) => match quote_spec(quotes, a) {
                None => Err(RoundError::MissingQuote { asset: a }),
                Some(p) => if !p.wf() {
                    Err(RoundError::InvalidQuote { asset: a })
                } else if scaled_spec(p) > u128::MAX {
                    Err(RoundError::Overflow { asset: a })
                } else {
                    Ok(
                        PriceUpdate {
                            feed_id: feed_id_spec(a),
                            round_id: req.round_id,
                            value: scaled_spec(p) as u128,
                        },
                    )
                },
            },
        },
    }
}

/// The price to submit for a round: the quote of the asset whose feed the
/// request names, scaled to 10^18, echoing the round identifier. Any
/// failure abandons this round alone.
pub fn plan_round(req: &RoundRequest, fetched: &Result<Vec<Quote>, QuoteFetchError>) -> (r: Result<
    PriceUpdate,
    RoundError,
>)
    ensures
        r == plan_spec(
            *req,
            match fetched {
                Ok(q) => Ok(q@),
                Err(e) => Err(*e),
            },
        ),
{
    let quotes = match fetched {
        Err(_) => return Err(RoundError::FetchFailed),
        Ok(q) => q,
    };
    let asset = match asset_of_feed(req.feed_id) {
        Err(RegistryError::UnknownFeed { feed_id }) => {
            return Err(RoundError::UnknownFeed { feed_id });
        },
        Ok(a) => a,
    };
    let price = match find_quote(quotes, asset) {
        None => return Err(RoundError::MissingQuote { asset }),
        Some(p) => p,
    };
    if price.scale > crate::price::MAX_SCALE {
        return Err(RoundError::InvalidQuote { asset });
    }
    match to_scaled(&price) {
        None => Err(RoundError::Overflow { asset }),
        Some(value) => Ok(PriceUpdate { feed_id: get_feed_id(asset), round_id: req.round_id, value }),
    }
}

/// A signed price update, bounded to `MORTALITY_PERIOD` blocks from the
/// finalized head it was built on.
#[derive(Clone, Copy, Debug, PartialEq, Eq, Structural)]
pub struct BoundedTransaction {
    pub feed_id: u32,
    pub round_id: u32,
    pub value: u128,
    /// The account sequence number it is signed with.
    pub nonce: u32,
    /// The validity window, in blocks.
    pub period: u64,
    /// The number of the finalized block the window starts at.
    pub from_block: u64,
}

pub open spec fn transaction_spec(u: PriceUpdate, nonce: nat, head: u64) -> BoundedTransaction {
    BoundedTransaction {
        feed_id: u.feed_id,
        round_id: u.round_id,
        value: u.value,
        nonce: nonce as u32,
        period: MORTALITY_PERIOD,
        from_block: head,
    }
}

/// Why a transaction could not be built.
#[derive(Clone, Copy, Debug, PartialEq, Eq, Structural)]
pub enum SubmitError {
    /// The sequence number has reached the largest `u32`.
    SequenceExhausted,
}

/// The state of one running oracle service.
pub struct Service {
    configuration: Configuration,
    /// Where round-initiation events sit in the ledger's event numbering.
    decoder: EventDecoder,
    sequence: SequenceTracker,
    link: LinkState,
}

impl Service {
    /// The sequence number the next transaction is signed with.
    pub closed spec fn nonce_spec(&self) -> nat {
        self.sequence@
    }

    pub closed spec fn link_spec(&self) -> LinkState {
        self.link
    }

    pub closed spec fn node_url_spec(&self) -> Seq<char> {
        self.configuration.node_url@
    }

    pub closed spec fn decoder_spec(&self) -> EventDecoder {
        self.decoder
    }

    /// The websocket address of the ledger node.
    pub fn node_url(&self) -> (r: &str)
        ensures
            r@ == self.node_url_spec(),
    {
        self.configuration.node_url.as_str()
    }

    /// The decoder for the ledger's event records.
    pub fn decoder(&self) -> (r: EventDecoder)
        ensures
            r == self.decoder_spec(),
    {
        self.decoder
    }

    /// A service that signs from `nonce`, the ledger's current sequence
    /// number for the signing account, on; its subscription is yet to be
    /// opened.
    pub fn init(configuration: Configuration, decoder: EventDecoder, nonce: u32) -> (r: Self)
        ensures
            r.nonce_spec() == nonce,
            r.link_spec() == LinkState::Connecting,
            r.node_url_spec() == configuration.node_url@,
            r.decoder_spec() == decoder,
    {
        Service {
            configuration,
            decoder,
            sequence: SequenceTracker::new(nonce),
            link: LinkState::Connecting,
        }
    }

    /// The sequence number the next transaction is signed with.
    pub fn next_nonce(&self) -> (r: u32)
        ensures
            r == self.nonce_spec(),
    {
        self.sequence.current()
    }

    /// The state of the event subscription.
    pub fn link(&self) -> (r: LinkState)
        ensures
            r == self.link_spec(),
    {
        self.link
    }

    /// Feeds the outcome of the last subscription action to the
    /// subscription's lifecycle and returns the next action.
    pub fn on_link_signal(&mut self, sig: crate::link::LinkSignal) -> (r: crate::link::LinkAction)
        ensures
            final(self).link_spec() == crate::link::next_state_spec(old(self).link_spec(), sig),
            r == crate::link::pending_spec(final(self).link_spec()),
            final(self).nonce_spec() == old(self).nonce_spec(),
            final(self).node_url_spec() == old(self).node_url_spec(),
            final(self).decoder_spec() == old(self).decoder_spec(),
    {
        self.link.step(sig)
    }

    /// Builds the transaction for `update` on the finalized block `head`,
    /// signed with the current sequence number, and moves the sequence
    /// number on: the transaction is sent without waiting for it, and the
    /// counter advances whatever the outcome of the send.
    pub fn prepare_submission(&mut self, update: &PriceUpdate, head: u64) -> (r: Result<
        BoundedTransaction,
        SubmitError,
    >)
        ensures
            old(self).nonce_spec() < u32::MAX ==> {
                &&& r == Ok::<BoundedTransaction, SubmitError>(
                    transaction_spec(*update, old(self).nonce_spec(), head),
                )
                &&& final(self).nonce_spec() == old(self).nonce_spec() + 1
            },
            old(self).nonce_spec() >= u32::MAX ==> {
                &&& r == Err::<BoundedTransaction, SubmitError>(SubmitError::SequenceExhausted)
                &&& final(self).nonce_spec() == old(self).nonce_spec()
            },
            final(self).link_spec() == old(self).link_spec(),
            final(self).node_url_spec() == old(self).node_url_spec(),
            final(self).decoder_spec() == old(self).decoder_spec(),
    {
        if !self.sequence.can_advance() {
            return Err(SubmitError::SequenceExhausted);
        }
        let tx = BoundedTransaction {
            feed_id: update.feed_id,
            round_id: update.round_id,
            value: update.value,
            nonce: self.sequence.current(),
            period: MORTALITY_PERIOD,
            from_block: head,
        };
        self.sequence.advance();
        Ok(tx)
    }

    /// Builds the transactions for `updates`, in order, on the finalized
    /// block `head`. Starting from sequence number `s`, the `n` transactions
    /// are signed with exactly `s, s + 1, ..., s + n - 1` and the sequence
    /// number ends at `s + n`. Where that would pass the largest `u32`,
    /// nothing is built and the sequence number is left as it is.
    pub fn prepare_batch(&mut self, updates: &Vec<PriceUpdate>, head: u64) -> (r: Result<
        Vec<BoundedTransaction>,
        SubmitError,
    >)
        ensures
            old(self).nonce_spec() + updates@.len() <= u32::MAX <==> r is Ok,
            r matches Ok(txs) ==> {
                &&& txs@.len() == updates@.len()
                &&& forall|i: int|
                    0 <= i < txs@.len() ==> #[trigger] txs@[i] == transaction_spec(
                        updates@[i],
                        old(self).nonce_spec() + i as nat,
                        head,
                    )
                &&& final(self).nonce_spec() == old(self).nonce_spec() + updates@.len()
            },
            r is Err ==> final(self).nonce_spec() == old(self).nonce_spec(),
            r matches Err(e) ==> e == SubmitError::SequenceExhausted,
            final(self).link_spec() == old(self).link_spec(),
            final(self).node_url_spec() == old(self).node_url_spec(),
            final(self).decoder_spec() == old(self).decoder_spec(),
    {
        let start = self.sequence.current();
        if updates.len() as u64 > (u32::MAX - start) as u64 {
            return Err(SubmitError::SequenceExhausted);
        }
        let mut txs: Vec<BoundedTransaction> = Vec::new();
        let mut i: usize = 0;
        while i < updates.len()
            invariant
                i <= updates@.len(),
                start + updates@.len() <= u32::MAX,
                self.nonce_spec() == start + i,
                txs@.len() == i,
                forall|j: int|
                    0 <= j < i ==> #[trigger] txs@[j] == transaction_spec(
                        updates@[j],
                        (start + j) as nat,
                        head,
                    ),
                self.link_spec() == old(self).link_spec(),
                self.node_url_spec() == old(self).node_url_spec(),
                self.decoder_spec() == old(self).decoder_spec(),
                start == old(self).nonce_spec(),
            decreases updates@.len() - i,
        {
            match self.prepare_submission(&updates[i], head) {
                Ok(tx) => txs.push(tx),
                Err(_) => {
                    assert(false);
                },
            }
            i = i + 1;
        }
        Ok(txs)
    }
}

} // verus!
