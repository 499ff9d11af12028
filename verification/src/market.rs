//! Market discovery support: selecting the active market from a discovery
//! response.
//!
//! Discovery itself is a collaborator: a surrounding task queries a slug per
//! candidate time slot and hands the fields of each response here.  The
//! decisions — which slots to try and whether a response names a usable
//! market — are verified; the data layer consumes only the two instrument
//! identifiers of the chosen market.

use vstd::prelude::*;

use crate::pricing::opt_text;

verus! {

/// A resolved market: display title, expiry in epoch seconds, and the two
/// instrument identifiers.
#[derive(Debug)]
pub struct Market {
    pub title: String,
    pub end_ts: i64,
    pub token_up: String,
    pub token_down: String,
}

/// Mathematical view of a resolved market.
#[verifier::ext_equal]
pub ghost struct MarketView {
    pub title: Seq<char>,
    pub end_ts: int,
    pub token_up: Seq<char>,
    pub token_down: Seq<char>,
}

impl View for Market {
    type V = MarketView;

    open spec fn view(&self) -> MarketView {
        MarketView {
            title: self.title@,
            end_ts: self.end_ts as int,
            token_up: self.token_up@,
            token_down: self.token_down@,
        }
    }
}

/// The market slots worth querying at a given time: the current quarter-hour
/// boundary and the two following ones.
pub fn slot_candidates(now: i64) -> (r: Vec<i64>)
    requires
        0 <= now,
        now + 1800 <= i64::MAX,
    ensures
        r@.len() == 3,
        r@[0] == now - now % 900,
        r@[1] == (now - now % 900) + 900,
        r@[2] == (now - now % 900) + 1800,
{
    proof {
        vstd::arithmetic::div_mod::lemma_fundamental_div_mod(now as int, 900);
        assert(now as int / 900 >= 0) by (nonlinear_arith)
            requires
                now >= 0,
        ;
        assert(900 * (now as int / 900) >= 0) by (nonlinear_arith)
            requires
                now as int / 900 >= 0,
        ;
    }
    let base = now - now % 900;
    let mut r: Vec<i64> = Vec::new();
    r.push(base);
    r.push(base + 900);
    r.push(base + 1800);
    r
}

/// The string list a discovery response's identifier field encodes, `None`
/// when the text is not a JSON array of strings.
pub uninterp spec fn token_list_of(s: Seq<char>) -> Option<Seq<String>>;

/// Relies on `serde_json::from_str::<Vec<String>>`: the JSON string array
/// the text holds, `None` when it is not one.
#[verifier::external_body]
fn decode_token_list(s: &str) -> (r: Option<Vec<String>>)
    ensures
        match r {
            Some(v) => token_list_of(s@) == Some(v@),
            None => token_list_of(s@) is None,
        },
{
    serde_json::from_str::<Vec<String>>(s).ok()
}

/// The market a discovery response names, when it is active, not closed, and
/// its first listed market carries at least two instrument identifiers.
pub open spec fn event_market(
    title: Seq<char>,
    active: bool,
    closed: bool,
    end_ts: int,
    ids: Option<Seq<char>>,
) -> Option<MarketView> {
    if active && !closed {
        match ids {
            Some(t) => match token_list_of(t) {
                Some(ts) => if ts.len() >= 2 {
                    Some(
                        MarketView {
                            title: title,
                            end_ts: end_ts,
                            token_up: ts[0]@,
                            token_down: ts[1]@,
                        },
                    )
                } else {
                    None
                },
                None => None,
            },
            None => None,
        }
    } else {
        None
    }
}

/// An otherwise usable response whose identifier field is not a string list
/// abandons the search instead of moving to the next slot.
pub open spec fn event_aborts(active: bool, closed: bool, ids: Option<Seq<char>>) -> bool {
    active && !closed && (match ids {
        Some(t) => token_list_of(t) is None,
        None => false,
    })
}

/// What one discovery response comes to.
#[derive(Debug)]
pub enum EventChoice {
    /// The response names an active market with both instrument identifiers.
    Chosen(Market),
    /// The response cannot be used; the search moves to the next slot.
    SkipSlot,
    /// The identifier list is malformed; the search is abandoned.
    AbortSearch,
}

/// Decides what one discovery response comes to: the market it names, a slot
/// to skip, or a malformed identifier list that abandons the search.
pub fn choose_event(
    title: String,
    active: bool,
    closed: bool,
    end_ts: i64,
    clob_token_ids: Option<String>,
) -> (r: EventChoice)
    ensures
        ({
            let sel = event_market(title@, active, closed, end_ts as int, opt_text(clob_token_ids));
            let ab = event_aborts(active, closed, opt_text(clob_token_ids));
            match r {
                EventChoice::Chosen(m) => sel == Some(m@),
                EventChoice::SkipSlot => sel is None && !ab,
                EventChoice::AbortSearch => ab,
            }
        }),
{
    if !active || closed {
        return EventChoice::SkipSlot;
    }
    let ids = match clob_token_ids {
        Some(s) => s,
        None => {
            return EventChoice::SkipSlot;
        },
    };
    let toks = match decode_token_list(ids.as_str()) {
        Some(v) => v,
        None => {
            return EventChoice::AbortSearch;
        },
    };
    if toks.len() < 2 {
        return EventChoice::SkipSlot;
    }
    let token_up = toks[0].clone();
    let token_down = toks[1].clone();
    let m = Market { title, end_ts, token_up, token_down };
    proof {
        assert(event_market(m.title@, active, closed, end_ts as int, opt_text(Some(ids)))
            =~= Some(m@));
    }
    EventChoice::Chosen(m)
}

} // verus!
