//! The order blotter: the engine's order-activity feed read into rows, the
//! panel state a fetch outcome leads to, and when a row may offer Cancel. It
//! renders truth and never invents an order.

use vstd::prelude::*;
use crate::feeds;
use crate::json::{self, JsonValue};
use crate::strs;

verus! {

/// One order row: its status, the engine's plain sentence, and the broker's
/// order id when the feed carries one.
#[derive(Clone, Debug, PartialEq, Eq)]
pub struct Order {
    pub status: String,
    pub plain: String,
    pub broker_order_id: Option<String>,
}

/// The panel's connection state.
#[derive(Clone, Copy, Debug, PartialEq, Eq)]
pub enum Status {
    NotConnected,
    Loading,
    Connected,
    Unreachable,
}

/// The outcome of one fetch of the feed.
#[derive(Clone, Debug, PartialEq, Eq)]
pub enum FetchResult {
    NotConnected,
    Unreachable,
    Fetched(Vec<Order>),
}

/// An order as plain values.
pub open spec fn order_view(o: Order) -> (Seq<char>, Seq<char>, Option<Seq<char>>) {
    (o.status@, o.plain@, strs::opt_view(o.broker_order_id))
}

/// The broker order id an item carries: a string, or an integer written in
/// decimal; a blank one counts as none.
pub open spec fn order_id_of(item: JsonValue) -> Option<Seq<char>> {
    let raw = match json::str_of(json::field(item, "broker_order_id"@)) {
        Some(s) => Some(s),
        None => match json::i64_of(json::field(item, "broker_order_id"@)) {
            Some(n) => Some(strs::signed_decimal(n)),
            None => None,
        },
    };
    match raw {
        Some(s) => if strs::trim(s).len() > 0 { Some(s) } else { None },
        None => None,
    }
}

/// The rows a feed reply yields: one per item with a non-empty plain sentence.
pub open spec fn rows_of(items: Seq<JsonValue>) -> Seq<(Seq<char>, Seq<char>, Option<Seq<char>>)>
    decreases items.len(),
{
    if items.len() == 0 {
        Seq::empty()
    } else {
        let item = items.last();
        let plain = match json::str_of(json::field(item, "plain"@)) {
            Some(p) => p,
            None => Seq::<char>::empty(),
        };
        if plain.len() == 0 {
            rows_of(items.drop_last())
        } else {
            let status = match json::str_of(json::field(item, "status"@)) {
                Some(s) => s,
                None => Seq::<char>::empty(),
            };
            rows_of(items.drop_last()).push((status, plain, order_id_of(item)))
        }
    }
}

fn str_or_empty(v: Option<&JsonValue>) -> (r: String)
    ensures
        r@ == match json::str_of(match v {
            Some(x) => Some(*x),
            None => None,
        }) {
            Some(s) => s,
            None => Seq::<char>::empty(),
        },
{
    match v {
        Some(x) => match x.as_str() {
            Some(s) => strs::own(s),
            None => String::new(),
        },
        None => String::new(),
    }
}

fn order_id(item: &JsonValue) -> (r: Option<String>)
    ensures
        strs::opt_view(r) == order_id_of(*item),
{
    let raw = match item.get("broker_order_id") {
        Some(v) => match v.as_str() {
            Some(s) => Some(strs::own(s)),
            None => match v.as_i64() {
                Some(n) => {
                    let mut t = String::new();
                    strs::push_signed_decimal(&mut t, n);
                    Some(t)
                },
                None => None,
            },
        },
        None => None,
    };
    match raw {
        Some(s) => {
            if strs::is_blank(s.as_str()) {
                None
            } else {
                Some(s)
            }
        },
        None => None,
    }
}

/// Read the order-activity reply (`{ "orders": [...] }`) into rows; items
/// without a plain sentence are skipped.
pub fn orders_from(value: &JsonValue) -> (r: Vec<Order>)
    ensures
        r@.map_values(|o: Order| order_view(o)) == match json::items_of(json::field(*value, "orders"@)) {
            Some(items) => rows_of(items),
            None => Seq::empty(),
        },
{
    let mut out: Vec<Order> = Vec::new();
    let items = match value.get("orders") {
        Some(v) => match v.as_array() {
            Some(items) => items,
            None => {
                assert(out@.map_values(|o: Order| order_view(o)) =~= Seq::empty());
                return out;
            },
        },
        None => {
            assert(out@.map_values(|o: Order| order_view(o)) =~= Seq::empty());
            return out;
        },
    };
    let mut i: usize = 0;
    assert(out@.map_values(|o: Order| order_view(o)) =~= rows_of(items@.take(0)));
    while i < items.len()
        invariant
            i <= items@.len(),
            out@.map_values(|o: Order| order_view(o)) == rows_of(items@.take(i as int)),
        decreases items@.len() - i,
    {
        let item = &items[i];
        assert(items@.take(i + 1).drop_last() =~= items@.take(i as int));
        assert(items@.take(i + 1).last() == *item);
        let plain = str_or_empty(item.get("plain"));
        if strs::chars_of(plain.as_str()).len() > 0 {
            let status = str_or_empty(item.get("status"));
            let id = order_id(item);
            let ghost before = out@.map_values(|o: Order| order_view(o));
            let order = Order { status, plain, broker_order_id: id };
            let ghost row = order_view(order);
            out.push(order);
            assert(out@.map_values(|o: Order| order_view(o)) =~= before.push(row));
        }
        i = i + 1;
    }
    assert(items@.take(i as int) =~= items@);
    out
}

/// The blotter panel's state.
#[derive(Clone, Debug, PartialEq, Eq)]
pub struct Blotter {
    pub orders: Vec<Order>,
    pub status: Status,
    /// A short message shown when a cancel failed, cleared by the next
    /// successful fetch.
    pub last_error: Option<String>,
}

impl Blotter {
    /// A panel opening: loading when a key is saved, else not connected.
    pub fn new(has_saved_key: bool) -> (b: Self)
        ensures
            b.orders@.len() == 0,
            b.status == if has_saved_key { Status::Loading } else { Status::NotConnected },
            b.last_error is None,
    {
        Blotter {
            orders: Vec::new(),
            status: if has_saved_key { Status::Loading } else { Status::NotConnected },
            last_error: None,
        }
    }

    /// Apply a fetch outcome: not connected clears the rows; unreachable
    /// keeps the last rows; fetched rows replace them and clear the error.
    pub fn apply_fetch(&mut self, fetched: FetchResult)
        ensures
            match fetched {
                FetchResult::NotConnected => final(self).status == Status::NotConnected
                    && final(self).orders@.len() == 0
                    && final(self).last_error == old(self).last_error,
                FetchResult::Unreachable => final(self).status == Status::Unreachable
                    && final(self).orders == old(self).orders
                    && final(self).last_error == old(self).last_error,
                FetchResult::Fetched(items) => final(self).status == Status::Connected
                    && final(self).orders == items
                    && final(self).last_error is None,
            },
    {
        match fetched {
            FetchResult::NotConnected => {
                self.status = Status::NotConnected;
                self.orders = Vec::new();
            },
            FetchResult::Unreachable => {
                self.status = Status::Unreachable;
            },
            FetchResult::Fetched(items) => {
                self.status = Status::Connected;
                self.orders = items;
                self.last_error = None;
            },
        }
    }

    /// A manual retry started: show loading at once.
    pub fn begin_refetch(&mut self)
        ensures
            final(self).status == Status::Loading,
            final(self).orders == old(self).orders,
            final(self).last_error == old(self).last_error,
    {
        self.status = Status::Loading;
    }

    /// A new connection was saved: loading again, with no stale rows.
    pub fn reconnect(&mut self)
        ensures
            final(self).status == Status::Loading,
            final(self).orders@.len() == 0,
            final(self).last_error == old(self).last_error,
    {
        self.status = Status::Loading;
        self.orders = Vec::new();
    }

    /// A cancel request failed: say so (`all` for "Cancel all").
    pub fn cancel_failed(&mut self, all: bool, error: &str)
        ensures
            final(self).last_error matches Some(m) && m@ == (if all { "Couldn't cancel all: "@ } else { "Couldn't cancel: "@ }) + error@ + "."@,
            final(self).status == old(self).status,
            final(self).orders == old(self).orders,
    {
        let mut m = strs::own(if all { "Couldn't cancel all: " } else { "Couldn't cancel: " });
        strs::append_str(&mut m, error);
        strs::append_str(&mut m, ".");
        self.last_error = Some(m);
    }

    /// The fetch after a cancel: only fetched rows are applied; any other
    /// outcome leaves the panel as it was.
    pub fn after_cancel(&mut self, fetched: FetchResult)
        ensures
            match fetched {
                FetchResult::Fetched(items) => final(self).status == Status::Connected
                    && final(self).orders == items
                    && final(self).last_error is None,
                _ => *final(self) == *old(self),
            },
    {
        if let FetchResult::Fetched(items) = fetched {
            self.status = Status::Connected;
            self.orders = items;
            self.last_error = None;
        }
    }
}

/// The order id a row's Cancel targets: only a working order that carries
/// the broker's id offers one.
pub fn cancel_target(order: &Order) -> (r: Option<String>)
    ensures
        strs::opt_view(r) == if feeds::working_status(feeds::folded(order.status@)) {
            strs::opt_view(order.broker_order_id)
        } else {
            None
        },
{
    if feeds::is_cancellable(order.status.as_str()) {
        match &order.broker_order_id {
            Some(id) => Some(id.clone()),
            None => None,
        }
    } else {
        None
    }
}

/// The cancel route for a broker order id.
pub fn cancel_path(order_id: &str) -> (r: String)
    ensures
        r@ == "/ui/api/orders/cancel/"@ + order_id@,
{
    let mut r = strs::own("/ui/api/orders/cancel/");
    strs::append_str(&mut r, order_id);
    r
}

} // verus!
