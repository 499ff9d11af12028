//! The shared top-of-book snapshot and its mathematical view.

use vstd::prelude::*;

verus! {

/// Mathematical snapshot of the combined book: the eight quote fields and the
/// timestamp of the most recent mutation.
#[verifier::ext_equal]
pub ghost struct BookView {
    pub up_bid_price: Seq<char>,
    pub up_bid_size: Seq<char>,
    pub up_ask_price: Seq<char>,
    pub up_ask_size: Seq<char>,
    pub down_bid_price: Seq<char>,
    pub down_bid_size: Seq<char>,
    pub down_ask_price: Seq<char>,
    pub down_ask_size: Seq<char>,
    pub last_update_ms: int,
}

impl BookView {
    /// The quote fields alone, with the timestamp cleared: two snapshots agree
    /// on their quotes exactly when their prices and sizes agree.
    pub open spec fn quotes(self) -> BookView {
        BookView { last_update_ms: 0, ..self }
    }
}

/// Top-of-book state for the paired market.  Every field starts empty (zero
/// for the timestamp) and is only ever overwritten by an inbound update that
/// carries data for it.
#[derive(Clone, Debug)]
pub struct OrderbookState {
    pub up_bid_price: String,
    pub up_bid_size: String,
    pub up_ask_price: String,
    pub up_ask_size: String,
    pub down_bid_price: String,
    pub down_bid_size: String,
    pub down_ask_price: String,
    pub down_ask_size: String,
    pub last_update_ms: i64,
}

impl View for OrderbookState {
    type V = BookView;

    open spec fn view(&self) -> BookView {
        BookView {
            up_bid_price: self.up_bid_price@,
            up_bid_size: self.up_bid_size@,
            up_ask_price: self.up_ask_price@,
            up_ask_size: self.up_ask_size@,
            down_bid_price: self.down_bid_price@,
            down_bid_size: self.down_bid_size@,
            down_ask_price: self.down_ask_price@,
            down_ask_size: self.down_ask_size@,
            last_update_ms: self.last_update_ms as int,
        }
    }
}

/// The view of the empty snapshot.
pub open spec fn empty_book() -> BookView {
    BookView {
        up_bid_price: Seq::empty(),
        up_bid_size: Seq::empty(),
        up_ask_price: Seq::empty(),
        up_ask_size: Seq::empty(),
        down_bid_price: Seq::empty(),
        down_bid_size: Seq::empty(),
        down_ask_price: Seq::empty(),
        down_ask_size: Seq::empty(),
        last_update_ms: 0,
    }
}

impl OrderbookState {
    /// The initial snapshot: all quote fields empty, timestamp zero.
    pub fn new() -> (s: OrderbookState)
        ensures
            s@ == empty_book(),
    {
        let s = OrderbookState {
            up_bid_price: String::new(),
            up_bid_size: String::new(),
            up_ask_price: String::new(),
            up_ask_size: String::new(),
            down_bid_price: String::new(),
            down_bid_size: String::new(),
            down_ask_price: String::new(),
            down_ask_size: String::new(),
            last_update_ms: 0,
        };
        proof {
            assert(s@ =~= empty_book());
        }
        s
    }

    /// A self-consistent copy of the snapshot, for readers.
    pub fn snapshot(&self) -> (r: OrderbookState)
        ensures
            r@ == self@,
    {
        let r = OrderbookState {
            up_bid_price: self.up_bid_price.clone(),
            up_bid_size: self.up_bid_size.clone(),
            up_ask_price: self.up_ask_price.clone(),
            up_ask_size: self.up_ask_size.clone(),
            down_bid_price: self.down_bid_price.clone(),
            down_bid_size: self.down_bid_size.clone(),
            down_ask_price: self.down_ask_price.clone(),
            down_ask_size: self.down_ask_size.clone(),
            last_update_ms: self.last_update_ms,
        };
        proof {
            assert(r@ =~= self@);
        }
        r
    }
}

impl Default for OrderbookState {
    fn default() -> (s: OrderbookState)
        ensures
            s@ == empty_book(),
    {
        OrderbookState::new()
    }
}

/// View of the configured instrument pair.
pub ghost struct ConfigView {
    pub token_up: Seq<char>,
    pub token_down: Seq<char>,
}

} // verus!
