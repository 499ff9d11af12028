//! Interpreting inbound feed frames and mutating the book snapshot.
//!
//! A frame is a JSON document `{asset_id|assetId|token_id: string,
//! bids?: [{price, size}], asks?: [{price, size}]}`.  Everything after the
//! JSON decoding is verified: alias resolution, best-level selection (the
//! last element of a side's array), the field-by-field mutation with its
//! complementary derived quotes, and the outcome that decides whether a
//! change signal is due.

use vstd::prelude::*;

use crate::pricing::complement;
use crate::pricing::complement_of;
use crate::state::BookView;
use crate::state::ConfigView;
use crate::state::OrderbookState;
use crate::OrderbookConfig;

verus! {

/// One price level as the feed delivered it.  Either field may be absent
/// from the frame (or not a string), which disqualifies the level.
pub struct RawLevel {
    pub price: Option<String>,
    pub size: Option<String>,
}

/// The instrument-identifier fields of one frame, one per accepted alias.
/// The outer option records whether the key was present at all, the inner
/// one whether its value was a string.
pub struct FrameIds {
    pub asset_id: Option<Option<String>>,
    pub asset_id_camel: Option<Option<String>>,
    pub token_id: Option<Option<String>>,
}

/// The identifier fields that decoding the text as JSON yields, `None` when
/// the text is not a JSON document.
pub uninterp spec fn ids_of(s: Seq<char>) -> Option<FrameIds>;

/// The price levels under the array `key` of the document: one entry per
/// array element, with its `price` and `size` string fields.  Empty when the
/// text is not a JSON document or the key holds no array.
pub uninterp spec fn levels_of(s: Seq<char>, key: Seq<char>) -> Seq<RawLevel>;

/// Relies on `serde_json::from_str` and `Value::get`/`as_str`: the values of
/// the three identifier keys of the document, each a string or not, and
/// `None` when the text is not JSON.
#[verifier::external_body]
fn decode_ids(txt: &str) -> (r: Option<FrameIds>)
    ensures
        r == ids_of(txt@),
{
    let d: serde_json::Value = match serde_json::from_str(txt) {
        Ok(d) => d,
        Err(_) => return None,
    };
    let field = |k: &str| d.get(k).map(|v| v.as_str().map(String::from));
    Some(FrameIds {
        asset_id: field("asset_id"),
        asset_id_camel: field("assetId"),
        token_id: field("token_id"),
    })
}

/// Relies on `serde_json::from_str` and `Value::get`/`as_array`/`as_str`:
/// each element of the array under `key`, with its `price` and `size`
/// string fields; empty when the key holds no array or the text is not JSON.
#[verifier::external_body]
fn decode_levels(txt: &str, key: &str) -> (r: Vec<RawLevel>)
    ensures
        r@ == levels_of(txt@, key@),
{
    let d: serde_json::Value = match serde_json::from_str(txt) {
        Ok(d) => d,
        Err(_) => return Vec::new(),
    };
    let arr = match d.get(key).and_then(|v| v.as_array()) {
        Some(a) => a,
        None => return Vec::new(),
    };
    arr.iter().map(|e| RawLevel {
        price: e.get("price").and_then(|v| v.as_str()).map(String::from),
        size: e.get("size").and_then(|v| v.as_str()).map(String::from),
    }).collect()
}

/// Relies on `chrono::Utc::now` and `DateTime::timestamp_millis` for the
/// wall clock in epoch milliseconds.
#[verifier::external_body]
fn now_millis() -> i64 {
    chrono::Utc::now().timestamp_millis()
}

/// What interpreting one frame came to.
#[derive(Clone, Copy, Debug, PartialEq, Eq, Structural)]
pub enum UpdateOutcome {
    /// Not JSON, no recognizable identifier, or neither configured instrument.
    Ignored,
    /// A recognized instrument, but no usable bid or ask data.
    NoChange,
    /// The snapshot was mutated; a change signal is due.
    Applied,
}

/// A complete quote: price and size, both present.
pub struct Quote {
    pub price: String,
    pub size: String,
}

/// Mathematical view of a quote.
pub ghost struct QuoteView {
    pub price: Seq<char>,
    pub size: Seq<char>,
}

impl View for Quote {
    type V = QuoteView;

    open spec fn view(&self) -> QuoteView {
        QuoteView { price: self.price@, size: self.size@ }
    }
}

/// View of an optional quote.
pub open spec fn opt_quote_view(q: Option<Quote>) -> Option<QuoteView> {
    match q {
        Some(q) => Some(q@),
        None => None,
    }
}

/// The quote a level carries, if both fields are present.
pub open spec fn level_quote(l: RawLevel) -> Option<QuoteView> {
    match (l.price, l.size) {
        (Some(p), Some(s)) => Some(QuoteView { price: p@, size: s@ }),
        _ => None,
    }
}

/// The best level of a side: the last element of the array (the feed sends
/// levels in ascending order), disqualified when a field is missing.
pub open spec fn best_of(levels: Seq<RawLevel>) -> Option<QuoteView> {
    if levels.len() == 0 {
        None
    } else {
        level_quote(levels.last())
    }
}

/// The alias field the frame is identified by: `asset_id` wins over
/// `assetId`, which wins over `token_id`.
pub open spec fn chosen_alias(f: FrameIds) -> Option<Option<String>> {
    if f.asset_id is Some {
        f.asset_id
    } else if f.asset_id_camel is Some {
        f.asset_id_camel
    } else {
        f.token_id
    }
}

/// The instrument identifier of the frame: the first present alias, provided
/// its value is a string.
pub open spec fn frame_instrument(f: FrameIds) -> Option<Seq<char>> {
    match chosen_alias(f) {
        Some(Some(id)) => Some(id@),
        _ => None,
    }
}

/// Commit a best bid: the direct side's bid fields take the quote, and when
/// the price has a complement the opposite side's ask takes the derived
/// price with the same size.  Nothing else moves.
pub open spec fn apply_bid(st: BookView, is_up: bool, q: QuoteView) -> BookView {
    let direct = if is_up {
        BookView { up_bid_price: q.price, up_bid_size: q.size, ..st }
    } else {
        BookView { down_bid_price: q.price, down_bid_size: q.size, ..st }
    };
    match complement_of(q.price) {
        Some(c) => if is_up {
            BookView { down_ask_price: c, down_ask_size: q.size, ..direct }
        } else {
            BookView { up_ask_price: c, up_ask_size: q.size, ..direct }
        },
        None => direct,
    }
}

/// Commit a best ask, symmetrically: the direct side's ask fields and the
/// opposite side's derived bid.
pub open spec fn apply_ask(st: BookView, is_up: bool, q: QuoteView) -> BookView {
    let direct = if is_up {
        BookView { up_ask_price: q.price, up_ask_size: q.size, ..st }
    } else {
        BookView { down_ask_price: q.price, down_ask_size: q.size, ..st }
    };
    match complement_of(q.price) {
        Some(c) => if is_up {
            BookView { down_bid_price: c, down_bid_size: q.size, ..direct }
        } else {
            BookView { up_bid_price: c, up_bid_size: q.size, ..direct }
        },
        None => direct,
    }
}

/// Commit one frame's quotes: bid first, then ask (each derived price comes
/// from the incoming update's raw price, never from a previously derived
/// value), then the timestamp.
pub open spec fn apply_frame_view(
    st: BookView,
    is_up: bool,
    bid: Option<QuoteView>,
    ask: Option<QuoteView>,
    now: int,
) -> BookView {
    let st1 = match bid {
        Some(q) => apply_bid(st, is_up, q),
        None => st,
    };
    let st2 = match ask {
        Some(q) => apply_ask(st1, is_up, q),
        None => st1,
    };
    BookView { last_update_ms: now, ..st2 }
}

/// The full interpretation of one frame against a configuration and a prior
/// snapshot: the outcome and the snapshot after it.
pub open spec fn interpret_view(
    ids: Option<FrameIds>,
    bids: Seq<RawLevel>,
    asks: Seq<RawLevel>,
    cfg: ConfigView,
    st: BookView,
    now: int,
) -> (UpdateOutcome, BookView) {
    match ids {
        None => (UpdateOutcome::Ignored, st),
        Some(f) => match frame_instrument(f) {
            None => (UpdateOutcome::Ignored, st),
            Some(id) => {
                let is_up = id == cfg.token_up;
                let is_down = id == cfg.token_down;
                if !is_up && !is_down {
                    (UpdateOutcome::Ignored, st)
                } else {
                    let bid = best_of(bids);
                    let ask = best_of(asks);
                    if bid is None && ask is None {
                        (UpdateOutcome::NoChange, st)
                    } else {
                        (UpdateOutcome::Applied, apply_frame_view(st, is_up, bid, ask, now))
                    }
                }
            },
        },
    }
}

/// The best (last) complete level of a side, as an owned quote.
pub fn best_level(levels: &Vec<RawLevel>) -> (r: Option<Quote>)
    ensures
        opt_quote_view(r) == best_of(levels@),
{
    if levels.len() == 0 {
        return None;
    }
    let l = &levels[levels.len() - 1];
    match (&l.price, &l.size) {
        (Some(p), Some(s)) => Some(Quote { price: p.clone(), size: s.clone() }),
        _ => None,
    }
}

/// The instrument identifier of a decoded frame, per the alias order.
pub fn frame_token<'a>(ids: &'a FrameIds) -> (r: Option<&'a String>)
    ensures
        match r {
            Some(id) => frame_instrument(*ids) == Some(id@),
            None => frame_instrument(*ids) is None,
        },
{
    let chosen = if ids.asset_id.is_some() {
        &ids.asset_id
    } else if ids.asset_id_camel.is_some() {
        &ids.asset_id_camel
    } else {
        &ids.token_id
    };
    match chosen {
        Some(Some(id)) => Some(id),
        _ => None,
    }
}

/// Mutates the snapshot for one frame's quotes, exactly as
/// [`apply_frame_view`] describes it.
pub fn apply_update(
    state: &mut OrderbookState,
    is_up: bool,
    bid: &Option<Quote>,
    ask: &Option<Quote>,
    now_ms: i64,
)
    ensures
        final(state)@ == apply_frame_view(
            old(state)@,
            is_up,
            opt_quote_view(*bid),
            opt_quote_view(*ask),
            now_ms as int,
        ),
{
    match bid {
        Some(q) => {
            if is_up {
                state.up_bid_price = q.price.clone();
                state.up_bid_size = q.size.clone();
            } else {
                state.down_bid_price = q.price.clone();
                state.down_bid_size = q.size.clone();
            }
            match complement(q.price.as_str()) {
                Some(c) => {
                    if is_up {
                        state.down_ask_price = c;
                        state.down_ask_size = q.size.clone();
                    } else {
                        state.up_ask_price = c;
                        state.up_ask_size = q.size.clone();
                    }
                },
                None => {},
            }
            proof {
                assert(state@ =~= apply_bid(old(state)@, is_up, q@));
            }
        },
        None => {},
    }
    let ghost mid = state@;
    match ask {
        Some(q) => {
            if is_up {
                state.up_ask_price = q.price.clone();
                state.up_ask_size = q.size.clone();
            } else {
                state.down_ask_price = q.price.clone();
                state.down_ask_size = q.size.clone();
            }
            match complement(q.price.as_str()) {
                Some(c) => {
                    if is_up {
                        state.down_bid_price = c;
                        state.down_bid_size = q.size.clone();
                    } else {
                        state.up_bid_price = c;
                        state.up_bid_size = q.size.clone();
                    }
                },
                None => {},
            }
            proof {
                assert(state@ =~= apply_ask(mid, is_up, q@));
            }
        },
        None => {},
    }
    state.last_update_ms = now_ms;
    proof {
        assert(state@ =~= apply_frame_view(
            old(state)@,
            is_up,
            opt_quote_view(*bid),
            opt_quote_view(*ask),
            now_ms as int,
        ));
    }
}

/// Interprets one frame against the configuration and commits it to the
/// snapshot at the given wall-clock time, exactly as [`interpret_view`]
/// describes it.  The mutation is fully committed to the store before the
/// `Applied` outcome — the caller's cue to publish a change signal — is
/// returned, so a signal is never ahead of the state it announces.
pub fn process_frame_at(
    txt: &str,
    cfg: &OrderbookConfig,
    state: &mut OrderbookState,
    now_ms: i64,
) -> (o: UpdateOutcome)
    ensures
        ({
            let r = interpret_view(
                ids_of(txt@),
                levels_of(txt@, "bids"@),
                levels_of(txt@, "asks"@),
                cfg@,
                old(state)@,
                now_ms as int,
            );
            o == r.0 && final(state)@ == r.1
        }),
        o != UpdateOutcome::Applied ==> final(state)@ == old(state)@,
{
    let ids = match decode_ids(txt) {
        None => {
            return UpdateOutcome::Ignored;
        },
        Some(f) => f,
    };
    let token = match frame_token(&ids) {
        None => {
            return UpdateOutcome::Ignored;
        },
        Some(t) => t,
    };
    let is_up = *token == cfg.token_up;
    let is_down = *token == cfg.token_down;
    if !is_up && !is_down {
        return UpdateOutcome::Ignored;
    }
    let bids = decode_levels(txt, "bids");
    let asks = decode_levels(txt, "asks");
    let bid = best_level(&bids);
    let ask = best_level(&asks);
    if bid.is_none() && ask.is_none() {
        return UpdateOutcome::NoChange;
    }
    apply_update(state, is_up, &bid, &ask, now_ms);
    UpdateOutcome::Applied
}

/// [`process_frame_at`] stamped with the wall clock, as the ingestion loop
/// uses it.  The outcome and the quote fields do not depend on the clock;
/// only the committed timestamp does.
pub fn process_message(txt: &str, cfg: &OrderbookConfig, state: &mut OrderbookState) -> (o:
    UpdateOutcome)
    ensures
        ({
            let r = interpret_view(
                ids_of(txt@),
                levels_of(txt@, "bids"@),
                levels_of(txt@, "asks"@),
                cfg@,
                old(state)@,
                final(state)@.last_update_ms,
            );
            o == r.0 && final(state)@ == r.1
        }),
        o != UpdateOutcome::Applied ==> final(state)@ == old(state)@,
{
    let now = now_millis();
    process_frame_at(txt, cfg, state, now)
}

/// A frame naming neither configured instrument — or none at all — never
/// mutates the snapshot and is never `Applied`, so it never causes a signal.
pub proof fn lemma_foreign_frame_ignored(
    ids: Option<FrameIds>,
    bids: Seq<RawLevel>,
    asks: Seq<RawLevel>,
    cfg: ConfigView,
    st: BookView,
    now: int,
)
    requires
        match ids {
            Some(f) => match frame_instrument(f) {
                Some(id) => id != cfg.token_up && id != cfg.token_down,
                None => true,
            },
            None => true,
        },
    ensures
        interpret_view(ids, bids, asks, cfg, st, now).0 == UpdateOutcome::Ignored,
        interpret_view(ids, bids, asks, cfg, st, now).1 == st,
{
}

/// A bid-only update for one instrument sets that instrument's bid fields to
/// the update's quote and the opposite instrument's ask to the complementary
/// price with the update's size; every other quote field keeps its prior
/// value, and the timestamp takes the update's time.
pub proof fn lemma_bid_update(st: BookView, is_up: bool, q: QuoteView, now: int, c: Seq<char>)
    requires
        complement_of(q.price) == Some(c),
    ensures
        ({
            let r = apply_frame_view(st, is_up, Some(q), None, now);
            &&& (is_up ==> r.up_bid_price == q.price && r.up_bid_size == q.size
                && r.down_ask_price == c && r.down_ask_size == q.size && r.up_ask_price
                == st.up_ask_price && r.up_ask_size == st.up_ask_size && r.down_bid_price
                == st.down_bid_price && r.down_bid_size == st.down_bid_size)
            &&& (!is_up ==> r.down_bid_price == q.price && r.down_bid_size == q.size
                && r.up_ask_price == c && r.up_ask_size == q.size && r.down_ask_price
                == st.down_ask_price && r.down_ask_size == st.down_ask_size && r.up_bid_price
                == st.up_bid_price && r.up_bid_size == st.up_bid_size)
            &&& r.last_update_ms == now
        }),
{
}

/// An ask-only update, symmetrically: the direct side's ask fields take the
/// update's quote, the opposite instrument's bid takes the complementary
/// price with the update's size, and every other quote field keeps its prior
/// value.
pub proof fn lemma_ask_update(st: BookView, is_up: bool, q: QuoteView, now: int, c: Seq<char>)
    requires
        complement_of(q.price) == Some(c),
    ensures
        ({
            let r = apply_frame_view(st, is_up, None, Some(q), now);
            &&& (is_up ==> r.up_ask_price == q.price && r.up_ask_size == q.size
                && r.down_bid_price == c && r.down_bid_size == q.size && r.up_bid_price
                == st.up_bid_price && r.up_bid_size == st.up_bid_size && r.down_ask_price
                == st.down_ask_price && r.down_ask_size == st.down_ask_size)
            &&& (!is_up ==> r.down_ask_price == q.price && r.down_ask_size == q.size
                && r.up_bid_price == c && r.up_bid_size == q.size && r.down_bid_price
                == st.down_bid_price && r.down_bid_size == st.down_bid_size && r.up_ask_price
                == st.up_ask_price && r.up_ask_size == st.up_ask_size)
            &&& r.last_update_ms == now
        }),
{
}

/// A signal is only ever due for a fully committed mutation: an `Applied`
/// outcome — the one cue to publish — comes with the snapshot equal to the
/// complete mutation of the prior snapshot, and every other outcome leaves
/// the snapshot untouched.  A reader that reacts to a signal therefore
/// observes at least that whole mutation, never a partial one.
pub proof fn lemma_signal_commits_mutation(
    ids: Option<FrameIds>,
    bids: Seq<RawLevel>,
    asks: Seq<RawLevel>,
    cfg: ConfigView,
    st: BookView,
    now: int,
)
    ensures
        ({
            let r = interpret_view(ids, bids, asks, cfg, st, now);
            &&& (r.0 != UpdateOutcome::Applied ==> r.1 == st)
            &&& (r.0 == UpdateOutcome::Applied ==> match ids {
                Some(f) => match frame_instrument(f) {
                    Some(id) => r.1 == apply_frame_view(
                        st,
                        id == cfg.token_up,
                        best_of(bids),
                        best_of(asks),
                        now,
                    ),
                    None => false,
                },
                None => false,
            })
        }),
{
}

/// Replaying an identical frame is idempotent on the quotes: the outcome is
/// the same and the second pass changes nothing but (possibly) the
/// timestamp.
pub proof fn lemma_replay_idempotent(
    ids: Option<FrameIds>,
    bids: Seq<RawLevel>,
    asks: Seq<RawLevel>,
    cfg: ConfigView,
    st: BookView,
    t1: int,
    t2: int,
)
    ensures
        ({
            let r1 = interpret_view(ids, bids, asks, cfg, st, t1);
            let r2 = interpret_view(ids, bids, asks, cfg, r1.1, t2);
            r2.0 == r1.0 && r2.1.quotes() == r1.1.quotes()
        }),
{
    let r1 = interpret_view(ids, bids, asks, cfg, st, t1);
    let r2 = interpret_view(ids, bids, asks, cfg, r1.1, t2);
    assert(r2.1.quotes() =~= r1.1.quotes());
}

} // verus!
