//! The trade record, its validation rules, and the field-level diff engine.
//!
//! A [`TradeDetails`] record owns the originating requester identity, the
//! mutable trade fields, an immutable creation timestamp (the trade date), and
//! an optional strike set once upon execution. The record is tagged at the
//! type level with its lifecycle state, so only the transitions legal from
//! that state are callable.
//!
//! Dates are plain integers, milliseconds since the Unix epoch; currencies are
//! their ISO 4217 numeric codes.

use core::marker::PhantomData;
use vstd::prelude::*;

use crate::clock::now_millis;
use crate::error::{DetailIssue, InvalidDetails, UnauthorisedRequester};
use crate::history::{appended_event, HistoricalRecord, TradeHistory};
use crate::state::{
    Approved, CancellableState, Cancelled, Draft, Executed, NeedsReapproval, PendingApproval,
    SentToCounterparty, TradeAction, TradeState,
};
use crate::users::{Approver, Requester, Transitioner, User};

verus! {

/// The entity on the other side of the trade.
#[derive(Debug, PartialEq, Eq)]
pub struct Counterparty(pub String);

impl Clone for Counterparty {
    fn clone(&self) -> (r: Self)
        ensures
            r == *self,
    {
        Counterparty(self.0.clone())
    }
}

/// The contract-type label of the trade.
#[derive(Debug, PartialEq, Eq)]
pub struct Style(pub String);

impl Clone for Style {
    fn clone(&self) -> (r: Self)
        ensures
            r == *self,
    {
        Style(self.0.clone())
    }
}

/// Direction of the trade: buy or sell.
#[derive(Debug, Clone, Copy, PartialEq, Eq, Structural)]
pub enum Direction {
    BUY,
    SELL,
}

impl Direction {
    /// The direction's numeric wire encoding.
    pub open spec fn spec_code(self) -> i32 {
        match self {
            Direction::BUY => 0,
            Direction::SELL => 1,
        }
    }

    /// The direction's numeric wire encoding.
    pub fn code(&self) -> (r: i32)
        ensures
            r == self.spec_code(),
    {
        match self {
            Direction::BUY => 0,
            Direction::SELL => 1,
        }
    }

    /// Decodes a numeric wire value; any value that encodes no direction is
    /// rejected with `None`.
    pub fn from_code(code: i32) -> (r: Option<Direction>)
        ensures
            code == 0 ==> r == Some(Direction::BUY),
            code == 1 ==> r == Some(Direction::SELL),
            code != 0 && code != 1 ==> r is None,
    {
        if code == 0 {
            Some(Direction::BUY)
        } else if code == 1 {
            Some(Direction::SELL)
        } else {
            None
        }
    }
}

/// A currency, identified by its ISO 4217 numeric code.
#[derive(Debug, Clone, Copy, PartialEq, Eq, Structural)]
pub struct CurrencyCode(pub u16);

/// All trade details that can be replaced on update requests.
#[derive(Debug, PartialEq, Eq)]
pub struct MutTradeDetails {
    /// The entity on the other side of the trade.
    pub counterparty: Counterparty,
    /// Direction of the trade, so buy or sell.
    pub direction: Direction,
    /// The contract-type label.
    pub style: Style,
    /// Currency of the notional amount.
    pub notional_currency: CurrencyCode,
    /// The size of the trade in the selected notional currency.
    pub notional_amount: u64,
    /// The eligible notional currencies. The notional currency selected must
    /// be part of the underlying.
    pub underlying: Vec<CurrencyCode>,
    /// The date when the trade value is realized, in milliseconds since the
    /// Unix epoch.
    pub value_date: i64,
    /// The date when the trade assets are delivered, in milliseconds since
    /// the Unix epoch.
    pub delivery_date: i64,
}

impl MutTradeDetails {
    /// Structural equality over all eight fields, strings and lists compared
    /// by their contents.
    pub open spec fn spec_eq(self, other: Self) -> bool {
        &&& self.counterparty.0@ == other.counterparty.0@
        &&& self.direction == other.direction
        &&& self.style.0@ == other.style.0@
        &&& self.notional_currency == other.notional_currency
        &&& self.notional_amount == other.notional_amount
        &&& self.underlying@ == other.underlying@
        &&& self.value_date == other.value_date
        &&& self.delivery_date == other.delivery_date
    }

    /// Runtime check of [`MutTradeDetails::spec_eq`].
    pub fn eq_fields(&self, other: &Self) -> (r: bool)
        ensures
            r == self.spec_eq(*other),
    {
        self.counterparty.0 == other.counterparty.0 && self.direction == other.direction
            && self.style.0 == other.style.0 && self.notional_currency == other.notional_currency
            && self.notional_amount == other.notional_amount
            && codes_equal(&self.underlying, &other.underlying)
            && self.value_date == other.value_date && self.delivery_date == other.delivery_date
    }
}

impl Clone for MutTradeDetails {
    fn clone(&self) -> (r: Self)
        ensures
            r.spec_eq(*self),
    {
        MutTradeDetails {
            counterparty: self.counterparty.clone(),
            direction: self.direction,
            style: self.style.clone(),
            notional_currency: self.notional_currency,
            notional_amount: self.notional_amount,
            underlying: clone_codes(&self.underlying),
            value_date: self.value_date,
            delivery_date: self.delivery_date,
        }
    }
}

/// Whether `c` occurs in `underlying`.
pub open spec fn spec_currency_in(underlying: Seq<CurrencyCode>, c: CurrencyCode) -> bool {
    exists|i: int| 0 <= i < underlying.len() && underlying[i] == c
}

/// The three date-ordering validation rules, checked against the record's
/// immutable trade date.
pub open spec fn spec_dates_ordered(m: MutTradeDetails, trade_date: i64) -> bool {
    &&& m.value_date >= trade_date
    &&& m.delivery_date >= trade_date
    &&& m.delivery_date >= m.value_date
}

/// The currency-membership validation rule: the notional currency must be
/// among the eligible underlying currencies.
pub open spec fn spec_currency_listed(m: MutTradeDetails) -> bool {
    spec_currency_in(m.underlying@, m.notional_currency)
}

/// All four validation rules together: dates ordered and currency listed.
pub open spec fn spec_details_valid(m: MutTradeDetails, trade_date: i64) -> bool {
    spec_dates_ordered(m, trade_date) && spec_currency_listed(m)
}

fn codes_equal(a: &Vec<CurrencyCode>, b: &Vec<CurrencyCode>) -> (r: bool)
    ensures
        r == (a@ == b@),
{
    if a.len() != b.len() {
        return false;
    }
    let mut i: usize = 0;
    while i < a.len()
        invariant
            i <= a.len(),
            a@.len() == b@.len(),
            forall|j: int| 0 <= j < i ==> a@[j] == b@[j],
        decreases a.len() - i,
    {
        if a[i] != b[i] {
            return false;
        }
        i += 1;
    }
    proof {
        assert(a@ =~= b@);
    }
    true
}

fn clone_codes(v: &Vec<CurrencyCode>) -> (r: Vec<CurrencyCode>)
    ensures
        r@ == v@,
{
    let mut r: Vec<CurrencyCode> = Vec::new();
    let mut i: usize = 0;
    while i < v.len()
        invariant
            i <= v.len(),
            r@ == v@.subrange(0, i as int),
        decreases v.len() - i,
    {
        r.push(v[i]);
        proof {
            assert(r@ =~= v@.subrange(0, i as int + 1));
        }
        i += 1;
    }
    proof {
        assert(r@ =~= v@);
    }
    r
}

fn contains_code(v: &Vec<CurrencyCode>, c: CurrencyCode) -> (r: bool)
    ensures
        r == spec_currency_in(v@, c),
{
    let mut i: usize = 0;
    while i < v.len()
        invariant
            i <= v.len(),
            forall|j: int| 0 <= j < i ==> v@[j] != c,
        decreases v.len() - i,
    {
        if v[i] == c {
            proof {
                assert(spec_currency_in(v@, c)) by {
                    assert(v@[i as int] == c);
                }
            }
            return true;
        }
        i += 1;
    }
    false
}

/// The field-level delta between two snapshots of a trade's mutable fields:
/// a (before, after) pair for each field that changed, plus the
/// post-transition strike if one is set.
#[derive(Debug)]
pub struct TradeDetailsDiff {
    pub counterparty: Option<(Counterparty, Counterparty)>,
    pub direction: Option<(Direction, Direction)>,
    pub style: Option<(Style, Style)>,
    pub notional_currency: Option<(CurrencyCode, CurrencyCode)>,
    pub notional_amount: Option<(u64, u64)>,
    pub underlying: Option<(Vec<CurrencyCode>, Vec<CurrencyCode>)>,
    pub value_date: Option<(i64, i64)>,
    pub delivery_date: Option<(i64, i64)>,
    pub strike: Option<u64>,
}

/// What a correct diff looks like for the snapshots `before` and `after` and
/// the post-transition strike: each change field is present exactly when the
/// corresponding trade field differs, and then carries the (before, after)
/// pair; the strike field carries the post-transition strike as is.
pub open spec fn diff_matches(
    d: TradeDetailsDiff,
    before: MutTradeDetails,
    after: MutTradeDetails,
    strike: Option<u64>,
) -> bool {
    &&& if before.counterparty.0@ == after.counterparty.0@ {
        d.counterparty is None
    } else {
        d.counterparty matches Some(p) && p.0.0@ == before.counterparty.0@ && p.1.0@
            == after.counterparty.0@
    }
    &&& if before.direction == after.direction {
        d.direction is None
    } else {
        d.direction == Some((before.direction, after.direction))
    }
    &&& if before.style.0@ == after.style.0@ {
        d.style is None
    } else {
        d.style matches Some(p) && p.0.0@ == before.style.0@ && p.1.0@ == after.style.0@
    }
    &&& if before.notional_currency == after.notional_currency {
        d.notional_currency is None
    } else {
        d.notional_currency == Some((before.notional_currency, after.notional_currency))
    }
    &&& if before.notional_amount == after.notional_amount {
        d.notional_amount is None
    } else {
        d.notional_amount == Some((before.notional_amount, after.notional_amount))
    }
    &&& if before.underlying@ == after.underlying@ {
        d.underlying is None
    } else {
        d.underlying matches Some(p) && p.0@ == before.underlying@ && p.1@ == after.underlying@
    }
    &&& if before.value_date == after.value_date {
        d.value_date is None
    } else {
        d.value_date == Some((before.value_date, after.value_date))
    }
    &&& if before.delivery_date == after.delivery_date {
        d.delivery_date is None
    } else {
        d.delivery_date == Some((before.delivery_date, after.delivery_date))
    }
    &&& d.strike == strike
}

/// What a correct optional diff looks like: absent exactly when nothing
/// changed and no strike is set, otherwise present and correct per
/// [`diff_matches`].
pub open spec fn opt_diff_matches(
    od: Option<TradeDetailsDiff>,
    before: MutTradeDetails,
    after: MutTradeDetails,
    strike: Option<u64>,
) -> bool {
    if before.spec_eq(after) && strike is None {
        od is None
    } else {
        od matches Some(d) && diff_matches(d, before, after, strike)
    }
}

impl TradeDetailsDiff {
    /// Equality of two diffs, strings and lists compared by their contents.
    pub open spec fn spec_eq(self, other: Self) -> bool {
        &&& match (self.counterparty, other.counterparty) {
            (None, None) => true,
            (Some(a), Some(b)) => a.0.0@ == b.0.0@ && a.1.0@ == b.1.0@,
            _ => false,
        }
        &&& self.direction == other.direction
        &&& match (self.style, other.style) {
            (None, None) => true,
            (Some(a), Some(b)) => a.0.0@ == b.0.0@ && a.1.0@ == b.1.0@,
            _ => false,
        }
        &&& self.notional_currency == other.notional_currency
        &&& self.notional_amount == other.notional_amount
        &&& match (self.underlying, other.underlying) {
            (None, None) => true,
            (Some(a), Some(b)) => a.0@ == b.0@ && a.1@ == b.1@,
            _ => false,
        }
        &&& self.value_date == other.value_date
        &&& self.delivery_date == other.delivery_date
        &&& self.strike == other.strike
    }

    /// The (before, after) pair for the counterparty, if it changed.
    pub fn changed_counterparty(&self) -> (r: Option<&(Counterparty, Counterparty)>)
        ensures
            r matches Some(p) ==> self.counterparty == Some(*p),
            r is None ==> self.counterparty is None,
    {
        self.counterparty.as_ref()
    }

    /// The (before, after) pair for the direction, if it changed.
    pub fn changed_direction(&self) -> (r: Option<&(Direction, Direction)>)
        ensures
            r matches Some(p) ==> self.direction == Some(*p),
            r is None ==> self.direction is None,
    {
        self.direction.as_ref()
    }

    /// The (before, after) pair for the style, if it changed.
    pub fn changed_style(&self) -> (r: Option<&(Style, Style)>)
        ensures
            r matches Some(p) ==> self.style == Some(*p),
            r is None ==> self.style is None,
    {
        self.style.as_ref()
    }

    /// The (before, after) pair for the notional currency, if it changed.
    pub fn changed_currency(&self) -> (r: Option<&(CurrencyCode, CurrencyCode)>)
        ensures
            r matches Some(p) ==> self.notional_currency == Some(*p),
            r is None ==> self.notional_currency is None,
    {
        self.notional_currency.as_ref()
    }

    /// The (before, after) pair for the notional amount, if it changed.
    pub fn changed_amount(&self) -> (r: Option<(u64, u64)>)
        ensures
            r == self.notional_amount,
    {
        self.notional_amount
    }

    /// The (before, after) pair for the underlying set, if it changed.
    pub fn changed_underlying(&self) -> (r: Option<&(Vec<CurrencyCode>, Vec<CurrencyCode>)>)
        ensures
            r matches Some(p) ==> self.underlying == Some(*p),
            r is None ==> self.underlying is None,
    {
        self.underlying.as_ref()
    }

    /// The (before, after) pair for the value date, if it changed.
    pub fn changed_value_date(&self) -> (r: Option<(i64, i64)>)
        ensures
            r == self.value_date,
    {
        self.value_date
    }

    /// The (before, after) pair for the delivery date, if it changed.
    pub fn changed_delivery_date(&self) -> (r: Option<(i64, i64)>)
        ensures
            r == self.delivery_date,
    {
        self.delivery_date
    }

    /// The post-transition strike, if one is set.
    pub fn changed_strike(&self) -> (r: Option<u64>)
        ensures
            r == self.strike,
    {
        self.strike
    }

    /// Computes the delta between two trade snapshots: absent when no field
    /// changed and the post-transition strike is unset, otherwise one
    /// (before, after) pair per changed field plus the post-transition
    /// strike.
    pub(crate) fn new<Before: TradeState, After: TradeState>(
        from_details: &TradeDetails<Before>,
        to_details: &TradeDetails<After>,
    ) -> (r: Option<TradeDetailsDiff>)
        ensures
            opt_diff_matches(
                r,
                from_details.spec_details(),
                to_details.spec_details(),
                to_details.spec_strike(),
            ),
    {
        let before: &MutTradeDetails = &from_details.mutable_details;
        let after: &MutTradeDetails = &to_details.mutable_details;
        if before.eq_fields(after) && to_details.strike.is_none() {
            return None;
        }
        let mut diff = TradeDetailsDiff {
            counterparty: None,
            direction: None,
            style: None,
            notional_currency: None,
            notional_amount: None,
            underlying: None,
            value_date: None,
            delivery_date: None,
            strike: None,
        };
        if before.counterparty.0 != after.counterparty.0 {
            diff.counterparty = Some((before.counterparty.clone(), after.counterparty.clone()));
        }
        if before.direction != after.direction {
            diff.direction = Some((before.direction, after.direction));
        }
        if before.style.0 != after.style.0 {
            diff.style = Some((before.style.clone(), after.style.clone()));
        }
        if before.notional_currency != after.notional_currency {
            diff.notional_currency = Some((before.notional_currency, after.notional_currency));
        }
        if before.notional_amount != after.notional_amount {
            diff.notional_amount = Some((before.notional_amount, after.notional_amount));
        }
        if !codes_equal(&before.underlying, &after.underlying) {
            diff.underlying = Some((clone_codes(&before.underlying), clone_codes(
                &after.underlying,
            )));
        }
        if before.value_date != after.value_date {
            diff.value_date = Some((before.value_date, after.value_date));
        }
        if before.delivery_date != after.delivery_date {
            diff.delivery_date = Some((before.delivery_date, after.delivery_date));
        }
        diff.strike = to_details.strike;
        Some(diff)
    }
}

impl Clone for TradeDetailsDiff {
    fn clone(&self) -> (r: Self)
        ensures
            r.spec_eq(*self),
    {
        TradeDetailsDiff {
            counterparty: match &self.counterparty {
                Some(p) => Some((p.0.clone(), p.1.clone())),
                None => None,
            },
            direction: self.direction,
            style: match &self.style {
                Some(p) => Some((p.0.clone(), p.1.clone())),
                None => None,
            },
            notional_currency: self.notional_currency,
            notional_amount: self.notional_amount,
            underlying: match &self.underlying {
                Some(p) => Some((clone_codes(&p.0), clone_codes(&p.1))),
                None => None,
            },
            value_date: self.value_date,
            delivery_date: self.delivery_date,
            strike: self.strike,
        }
    }
}

/// A trade record tagged with its lifecycle state `S`. The trading entity and
/// the trade date never change across transitions; only the mutable fields,
/// the strike and the state tag do.
#[derive(Debug)]
pub struct TradeDetails<S: TradeState> {
    /// Legal entity conducting the trade.
    pub(crate) trading_entity: User<Requester>,
    /// All details which can be mutated on update requests.
    pub(crate) mutable_details: MutTradeDetails,
    /// The date when the trade was initiated, in milliseconds since the Unix
    /// epoch.
    pub(crate) trade_date: i64,
    /// Agreed rate, set once when the trade is booked for execution.
    pub(crate) strike: Option<u64>,
    pub(crate) _state: PhantomData<S>,
}

impl<S: TradeState> TradeDetails<S> {
    /// The originating requester identity.
    pub closed spec fn spec_entity(&self) -> User<Requester> {
        self.trading_entity
    }

    /// The current mutable trade fields.
    pub closed spec fn spec_details(&self) -> MutTradeDetails {
        self.mutable_details
    }

    /// The immutable creation timestamp.
    pub closed spec fn spec_trade_date(&self) -> i64 {
        self.trade_date
    }

    /// The strike, set only upon execution.
    pub closed spec fn spec_strike(&self) -> Option<u64> {
        self.strike
    }

    /// The originating requester identity.
    pub fn trading_entity(&self) -> (r: &User<Requester>)
        ensures
            *r == self.spec_entity(),
    {
        &self.trading_entity
    }

    /// The entity on the other side of the trade.
    pub fn counterparty(&self) -> (r: &Counterparty)
        ensures
            *r == self.spec_details().counterparty,
    {
        &self.mutable_details.counterparty
    }

    /// Direction of the trade.
    pub fn direction(&self) -> (r: &Direction)
        ensures
            *r == self.spec_details().direction,
    {
        &self.mutable_details.direction
    }

    /// The contract-type label.
    pub fn style(&self) -> (r: &Style)
        ensures
            *r == self.spec_details().style,
    {
        &self.mutable_details.style
    }

    /// Currency of the notional amount.
    pub fn currency(&self) -> (r: CurrencyCode)
        ensures
            r == self.spec_details().notional_currency,
    {
        self.mutable_details.notional_currency
    }

    /// The size of the trade in the notional currency.
    pub fn amount(&self) -> (r: u64)
        ensures
            r == self.spec_details().notional_amount,
    {
        self.mutable_details.notional_amount
    }

    /// The eligible notional currencies.
    pub fn underlying(&self) -> (r: &Vec<CurrencyCode>)
        ensures
            *r == self.spec_details().underlying,
    {
        &self.mutable_details.underlying
    }

    /// The date when the trade value is realized.
    pub fn value_date(&self) -> (r: i64)
        ensures
            r == self.spec_details().value_date,
    {
        self.mutable_details.value_date
    }

    /// The date when the trade assets are delivered.
    pub fn delivery_date(&self) -> (r: i64)
        ensures
            r == self.spec_details().delivery_date,
    {
        self.mutable_details.delivery_date
    }

    /// The date when the trade was initiated.
    pub fn trade_date(&self) -> (r: i64)
        ensures
            r == self.spec_trade_date(),
    {
        self.trade_date
    }

    /// Agreed rate, available only after the trade is booked.
    pub fn strike(&self) -> (r: Option<u64>)
        ensures
            r == self.spec_strike(),
    {
        self.strike
    }

    /// The display name of the record's lifecycle state.
    pub fn state() -> (r: &'static str)
        ensures
            r@ == S::state_name(),
    {
        S::name()
    }

    /// Common checks that need to be made on every mutation, against the
    /// record's immutable trade date. Reports the first rule violated, dates
    /// before currency membership.
    fn check_details(&self, mut_details: &MutTradeDetails) -> (r: Result<(), InvalidDetails>)
        ensures
            r is Ok <==> spec_details_valid(*mut_details, self.spec_trade_date()),
            !spec_dates_ordered(*mut_details, self.spec_trade_date()) ==> (r matches Err(e)
                && e.issue == DetailIssue::DatesNotOrdered),
            spec_dates_ordered(*mut_details, self.spec_trade_date()) && !spec_currency_listed(
                *mut_details,
            ) ==> (r matches Err(e) && e.issue == DetailIssue::CurrencyNotInUnderlying),
    {
        if mut_details.value_date < self.trade_date || mut_details.delivery_date < self.trade_date
            || mut_details.delivery_date < mut_details.value_date {
            return Err(InvalidDetails { issue: DetailIssue::DatesNotOrdered });
        }
        if !contains_code(&mut_details.underlying, mut_details.notional_currency) {
            return Err(InvalidDetails { issue: DetailIssue::CurrencyNotInUnderlying });
        }
        Ok(())
    }
}

impl TradeDetails<Draft> {
    /// Creates a draft record dated `trade_date`, owned by `user`, with
    /// strike unset. Succeeds exactly when the proposed fields satisfy all
    /// four validation rules against that trade date; otherwise reports the
    /// first rule violated, dates before currency membership.
    pub fn new_at(user: &User<Requester>, details: MutTradeDetails, trade_date: i64) -> (r: Result<
        TradeDetails<Draft>,
        InvalidDetails,
    >)
        ensures
            r is Ok <==> spec_details_valid(details, trade_date),
            r matches Ok(d) ==> ({
                &&& d.spec_entity() == *user
                &&& d.spec_details() == details
                &&& d.spec_trade_date() == trade_date
                &&& d.spec_strike() is None
            }),
            !spec_dates_ordered(details, trade_date) ==> (r matches Err(e) && e.issue
                == DetailIssue::DatesNotOrdered),
            spec_dates_ordered(details, trade_date) && !spec_currency_listed(details) ==> (r
                matches Err(e) && e.issue == DetailIssue::CurrencyNotInUnderlying),
    {
        let record = TradeDetails {
            trading_entity: user.clone(),
            mutable_details: details,
            trade_date,
            strike: None,
            _state: PhantomData,
        };
        match record.check_details(&record.mutable_details) {
            Ok(()) => Ok(record),
            Err(e) => Err(e),
        }
    }

    /// Creates a draft record stamped with the current wall-clock time as its
    /// trade date, then validates as [`TradeDetails::new_at`] does. Because
    /// the trade date comes from the clock, success cannot be promised from
    /// the arguments alone; every guarantee below holds whatever the clock
    /// returned.
    pub fn new(
        user: &User<Requester>,
        counterparty: Counterparty,
        direction: Direction,
        style: Style,
        currency: CurrencyCode,
        amount: u64,
        underlying: Vec<CurrencyCode>,
        value_date: i64,
        delivery_date: i64,
    ) -> (r: Result<TradeDetails<Draft>, InvalidDetails>)
        ensures
            r matches Ok(d) ==> ({
                &&& d.spec_entity() == *user
                &&& d.spec_details().counterparty.0@ == counterparty.0@
                &&& d.spec_details().direction == direction
                &&& d.spec_details().style.0@ == style.0@
                &&& d.spec_details().notional_currency == currency
                &&& d.spec_details().notional_amount == amount
                &&& d.spec_details().underlying@ == underlying@
                &&& d.spec_details().value_date == value_date
                &&& d.spec_details().delivery_date == delivery_date
                &&& d.spec_strike() is None
                &&& spec_details_valid(d.spec_details(), d.spec_trade_date())
            }),
            delivery_date < value_date ==> (r matches Err(e) && e.issue
                == DetailIssue::DatesNotOrdered),
            !spec_currency_in(underlying@, currency) ==> r is Err,
            r matches Err(e) ==> e.issue == DetailIssue::DatesNotOrdered || !spec_currency_in(
                underlying@,
                currency,
            ),
    {
        let details = MutTradeDetails {
            counterparty,
            direction,
            style,
            notional_currency: currency,
            notional_amount: amount,
            underlying,
            value_date,
            delivery_date,
        };
        let trade_date = now_millis();
        Self::new_at(user, details, trade_date)
    }
}

impl<S: TradeState> Clone for TradeDetails<S> {
    fn clone(&self) -> (r: Self)
        ensures
            r.spec_entity() == self.spec_entity(),
            r.spec_details().spec_eq(self.spec_details()),
            r.spec_trade_date() == self.spec_trade_date(),
            r.spec_strike() == self.spec_strike(),
    {
        TradeDetails {
            trading_entity: self.trading_entity.clone(),
            mutable_details: self.mutable_details.clone(),
            trade_date: self.trade_date,
            strike: self.strike,
            _state: PhantomData,
        }
    }
}

/// Law: a diff computed for a change of only the notional amount, from one
/// value to a different one, carries exactly that (before, after) amount pair;
/// every other change field is absent, and the strike field carries the
/// post-transition strike as is.
pub proof fn lemma_diff_amount_only(
    od: Option<TradeDetailsDiff>,
    before: MutTradeDetails,
    after: MutTradeDetails,
    strike: Option<u64>,
)
    requires
        opt_diff_matches(od, before, after, strike),
        before.counterparty.0@ == after.counterparty.0@,
        before.direction == after.direction,
        before.style.0@ == after.style.0@,
        before.notional_currency == after.notional_currency,
        before.underlying@ == after.underlying@,
        before.value_date == after.value_date,
        before.delivery_date == after.delivery_date,
        before.notional_amount != after.notional_amount,
    ensures
        od matches Some(d) && d.notional_amount == Some(
            (before.notional_amount, after.notional_amount),
        ) && d.counterparty is None && d.direction is None && d.style is None
            && d.notional_currency is None && d.underlying is None && d.value_date is None
            && d.delivery_date is None && d.strike == strike,
{
}

/// Law: whenever a transition sets a strike, the audit diff is present and its
/// strike field carries the supplied value, even if no other trade field
/// changed.
pub proof fn lemma_diff_strike_present(
    od: Option<TradeDetailsDiff>,
    before: MutTradeDetails,
    after: MutTradeDetails,
    strike_price: u64,
)
    requires
        opt_diff_matches(od, before, after, Some(strike_price)),
    ensures
        od matches Some(d) && d.strike == Some(strike_price),
{
}

impl<S: TradeState> TradeDetails<S> {
    /// The one transition primitive every named operation is built on: checks
    /// the actor's authorization against the record's trading entity,
    /// installs the new mutable fields and strike, retags the record with the
    /// target state, and appends exactly one audit entry. On an authorization
    /// failure the ledger and the fields are untouched and the record is not
    /// returned: the attempt consumes it.
    pub(crate) fn transition_to<To: TradeState, U: Transitioner>(
        self,
        user: &U,
        new_details: MutTradeDetails,
        new_strike: Option<u64>,
        action: TradeAction,
        history: &mut TradeHistory,
    ) -> (r: Result<TradeDetails<To>, UnauthorisedRequester<S>>)
        ensures
            r is Ok <==> user.spec_permits(&self.spec_entity()),
            r matches Ok(d) ==> ({
                &&& d.spec_entity() == self.spec_entity()
                &&& d.spec_details() == new_details
                &&& d.spec_trade_date() == self.spec_trade_date()
                &&& d.spec_strike() == new_strike
                &&& appended_event(
                    old(history).spec_records(),
                    final(history).spec_records(),
                    action,
                    user.spec_actor_id(),
                    S::state_name(),
                    To::state_name(),
                    self.spec_details(),
                    new_details,
                    new_strike,
                )
            }),
            r matches Err(e) ==> ({
                &&& !user.spec_permits(&self.spec_entity())
                &&& e.spec_requester() == user.spec_actor_id()
                &&& e.spec_action() == action
                &&& final(history).spec_records() == old(history).spec_records()
            }),
    {
        if !user.permits(&self.trading_entity) {
            return Err(UnauthorisedRequester::new(user.actor_id(), action));
        }
        let after = TradeDetails::<To> {
            trading_entity: self.trading_entity.clone(),
            mutable_details: new_details,
            trade_date: self.trade_date,
            strike: new_strike,
            _state: PhantomData,
        };
        let rec = HistoricalRecord::new::<S, To>(action, user.actor_id(), &self, &after);
        history.add_record(rec);
        proof {
            assert(final(history).spec_records().drop_last() =~= old(history).spec_records());
        }
        Ok(after)
    }
}

impl<S: CancellableState> TradeDetails<S> {
    /// Cancels the trade. Only records in a cancellable state offer this
    /// operation; for `Draft`, `Executed` and `Cancelled` records the call
    /// does not compile. A requester must own the record; an approver may
    /// cancel any record. On success one audit entry is appended; on an
    /// authorization failure the ledger is untouched.
    pub fn cancel<U: Transitioner>(self, user: &U, history: &mut TradeHistory) -> (r: Result<
        TradeDetails<Cancelled>,
        UnauthorisedRequester<S>,
    >)
        ensures
            r is Ok <==> user.spec_permits(&self.spec_entity()),
            r matches Ok(d) ==> ({
                &&& d.spec_entity() == self.spec_entity()
                &&& d.spec_details().spec_eq(self.spec_details())
                &&& d.spec_trade_date() == self.spec_trade_date()
                &&& d.spec_strike() == self.spec_strike()
                &&& appended_event(
                    old(history).spec_records(),
                    final(history).spec_records(),
                    TradeAction::Cancel,
                    user.spec_actor_id(),
                    S::state_name(),
                    Cancelled::state_name(),
                    self.spec_details(),
                    d.spec_details(),
                    self.spec_strike(),
                )
            }),
            r matches Err(e) ==> ({
                &&& !user.spec_permits(&self.spec_entity())
                &&& e.spec_requester() == user.spec_actor_id()
                &&& e.spec_action() == TradeAction::Cancel
                &&& final(history).spec_records() == old(history).spec_records()
            }),
    {
        let new_details = self.mutable_details.clone();
        let strike = self.strike;
        self.transition_to::<Cancelled, U>(user, new_details, strike, TradeAction::Cancel, history)
    }
}

impl TradeDetails<Draft> {
    /// Submits the draft for approval. Succeeds exactly when the acting
    /// requester owns the record, appending one audit entry whose diff is
    /// absent (no field changes); an unauthorised requester gets the typed
    /// error, the ledger untouched, and the record consumed.
    pub fn submit(self, requester: &User<Requester>, history: &mut TradeHistory) -> (r: Result<
        TradeDetails<PendingApproval>,
        UnauthorisedRequester<Draft>,
    >)
        ensures
            r is Ok <==> requester.spec_id() == self.spec_entity().spec_id(),
            r matches Ok(d) ==> ({
                &&& d.spec_entity() == self.spec_entity()
                &&& d.spec_details().spec_eq(self.spec_details())
                &&& d.spec_trade_date() == self.spec_trade_date()
                &&& d.spec_strike() == self.spec_strike()
                &&& appended_event(
                    old(history).spec_records(),
                    final(history).spec_records(),
                    TradeAction::Submit,
                    requester.spec_id(),
                    Draft::state_name(),
                    PendingApproval::state_name(),
                    self.spec_details(),
                    d.spec_details(),
                    self.spec_strike(),
                )
            }),
            r is Ok && self.spec_strike() is None
                ==> final(history).spec_records().last().difference is None,
            r matches Err(e) ==> ({
                &&& requester.spec_id() != self.spec_entity().spec_id()
                &&& e.spec_requester() == requester.spec_id()
                &&& e.spec_action() == TradeAction::Submit
                &&& final(history).spec_records() == old(history).spec_records()
            }),
    {
        let new_details = self.mutable_details.clone();
        let strike = self.strike;
        self.transition_to::<PendingApproval, User<Requester>>(
            requester,
            new_details,
            strike,
            TradeAction::Submit,
            history,
        )
    }
}

impl TradeDetails<PendingApproval> {
    /// Accepts the pending trade. Approvers are not subject to an ownership
    /// check, so the transition cannot fail; one audit entry is appended.
    pub fn accept(self, approver: &User<Approver>, history: &mut TradeHistory) -> (d: TradeDetails<
        Approved,
    >)
        ensures
            d.spec_entity() == self.spec_entity(),
            d.spec_details().spec_eq(self.spec_details()),
            d.spec_trade_date() == self.spec_trade_date(),
            d.spec_strike() == self.spec_strike(),
            appended_event(
                old(history).spec_records(),
                final(history).spec_records(),
                TradeAction::Accept,
                approver.spec_id(),
                PendingApproval::state_name(),
                Approved::state_name(),
                self.spec_details(),
                d.spec_details(),
                self.spec_strike(),
            ),
    {
        let new_details = self.mutable_details.clone();
        let strike = self.strike;
        match self.transition_to::<Approved, User<Approver>>(
            approver,
            new_details,
            strike,
            TradeAction::Accept,
            history,
        ) {
            Ok(d) => d,
            Err(_) => vstd::pervasive::unreached(),
        }
    }

    /// A copy of the current mutable fields, for the caller to edit and hand
    /// back through [`TradeDetails::update`].
    pub fn grab_mut_details(&self) -> (r: MutTradeDetails)
        ensures
            r.spec_eq(self.spec_details()),
    {
        self.mutable_details.clone()
    }

    /// Replaces the mutable fields, sending the trade back for reapproval.
    /// The proposed fields are validated against the record's trade date
    /// before any state change or audit entry: on a validation failure the
    /// caller gets the typed error and keeps nothing changed. On success one
    /// audit entry is appended whose diff records exactly the changed fields.
    pub fn update(
        self,
        approver: &User<Approver>,
        new_details: MutTradeDetails,
        history: &mut TradeHistory,
    ) -> (r: Result<TradeDetails<NeedsReapproval>, InvalidDetails>)
        ensures
            r is Ok <==> spec_details_valid(new_details, self.spec_trade_date()),
            r matches Ok(d) ==> ({
                &&& d.spec_entity() == self.spec_entity()
                &&& d.spec_details() == new_details
                &&& d.spec_trade_date() == self.spec_trade_date()
                &&& d.spec_strike() == self.spec_strike()
                &&& appended_event(
                    old(history).spec_records(),
                    final(history).spec_records(),
                    TradeAction::Update,
                    approver.spec_id(),
                    PendingApproval::state_name(),
                    NeedsReapproval::state_name(),
                    self.spec_details(),
                    new_details,
                    self.spec_strike(),
                )
            }),
            r matches Err(e) ==> ({
                &&& final(history).spec_records() == old(history).spec_records()
                &&& (!spec_dates_ordered(new_details, self.spec_trade_date()) ==> e.issue
                    == DetailIssue::DatesNotOrdered)
                &&& (spec_dates_ordered(new_details, self.spec_trade_date())
                    && !spec_currency_listed(new_details) ==> e.issue
                    == DetailIssue::CurrencyNotInUnderlying)
            }),
    {
        match self.check_details(&new_details) {
            Err(e) => Err(e),
            Ok(()) => {
                let strike = self.strike;
                match self.transition_to::<NeedsReapproval, User<Approver>>(
                    approver,
                    new_details,
                    strike,
                    TradeAction::Update,
                    history,
                ) {
                    Ok(d) => Ok(d),
                    Err(_) => vstd::pervasive::unreached(),
                }
            },
        }
    }
}

impl TradeDetails<NeedsReapproval> {
    /// Reapproves the updated trade. Succeeds exactly when the acting
    /// requester owns the record, appending one audit entry; an unauthorised
    /// requester gets the typed error, the ledger untouched, and the record
    /// consumed.
    pub fn approve(self, requester: &User<Requester>, history: &mut TradeHistory) -> (r: Result<
        TradeDetails<Approved>,
        UnauthorisedRequester<NeedsReapproval>,
    >)
        ensures
            r is Ok <==> requester.spec_id() == self.spec_entity().spec_id(),
            r matches Ok(d) ==> ({
                &&& d.spec_entity() == self.spec_entity()
                &&& d.spec_details().spec_eq(self.spec_details())
                &&& d.spec_trade_date() == self.spec_trade_date()
                &&& d.spec_strike() == self.spec_strike()
                &&& appended_event(
                    old(history).spec_records(),
                    final(history).spec_records(),
                    TradeAction::Approve,
                    requester.spec_id(),
                    NeedsReapproval::state_name(),
                    Approved::state_name(),
                    self.spec_details(),
                    d.spec_details(),
                    self.spec_strike(),
                )
            }),
            r matches Err(e) ==> ({
                &&& requester.spec_id() != self.spec_entity().spec_id()
                &&& e.spec_requester() == requester.spec_id()
                &&& e.spec_action() == TradeAction::Approve
                &&& final(history).spec_records() == old(history).spec_records()
            }),
    {
        let new_details = self.mutable_details.clone();
        let strike = self.strike;
        self.transition_to::<Approved, User<Requester>>(
            requester,
            new_details,
            strike,
            TradeAction::Approve,
            history,
        )
    }
}

impl TradeDetails<Approved> {
    /// Routes the approved trade to the counterparty. Approvers are not
    /// subject to an ownership check, so the transition cannot fail; one
    /// audit entry is appended.
    pub fn send_to_execute(self, approver: &User<Approver>, history: &mut TradeHistory) -> (d:
        TradeDetails<SentToCounterparty>)
        ensures
            d.spec_entity() == self.spec_entity(),
            d.spec_details().spec_eq(self.spec_details()),
            d.spec_trade_date() == self.spec_trade_date(),
            d.spec_strike() == self.spec_strike(),
            appended_event(
                old(history).spec_records(),
                final(history).spec_records(),
                TradeAction::SendToExecute,
                approver.spec_id(),
                Approved::state_name(),
                SentToCounterparty::state_name(),
                self.spec_details(),
                d.spec_details(),
                self.spec_strike(),
            ),
    {
        let new_details = self.mutable_details.clone();
        let strike = self.strike;
        match self.transition_to::<SentToCounterparty, User<Approver>>(
            approver,
            new_details,
            strike,
            TradeAction::SendToExecute,
            history,
        ) {
            Ok(d) => d,
            Err(_) => vstd::pervasive::unreached(),
        }
    }
}

impl TradeDetails<SentToCounterparty> {
    /// Books the trade at the agreed strike, executing it. A requester must
    /// own the record; an approver may book any record. On success the
    /// record's strike is set to the supplied value and one audit entry is
    /// appended whose diff is always present and carries that strike, even
    /// when no other field changed.
    pub fn book<U: Transitioner>(
        self,
        strike_price: u64,
        user: &U,
        history: &mut TradeHistory,
    ) -> (r: Result<TradeDetails<Executed>, UnauthorisedRequester<SentToCounterparty>>)
        ensures
            r is Ok <==> user.spec_permits(&self.spec_entity()),
            r matches Ok(d) ==> ({
                &&& d.spec_entity() == self.spec_entity()
                &&& d.spec_details().spec_eq(self.spec_details())
                &&& d.spec_trade_date() == self.spec_trade_date()
                &&& d.spec_strike() == Some(strike_price)
                &&& appended_event(
                    old(history).spec_records(),
                    final(history).spec_records(),
                    TradeAction::Book,
                    user.spec_actor_id(),
                    SentToCounterparty::state_name(),
                    Executed::state_name(),
                    self.spec_details(),
                    d.spec_details(),
                    Some(strike_price),
                )
            }),
            r is Ok ==> (final(history).spec_records().last().difference matches Some(dd)
                && dd.strike == Some(strike_price)),
            r matches Err(e) ==> ({
                &&& !user.spec_permits(&self.spec_entity())
                &&& e.spec_requester() == user.spec_actor_id()
                &&& e.spec_action() == TradeAction::Book
                &&& final(history).spec_records() == old(history).spec_records()
            }),
    {
        let new_details = self.mutable_details.clone();
        self.transition_to::<Executed, U>(
            user,
            new_details,
            Some(strike_price),
            TradeAction::Book,
            history,
        )
    }
}

} // verus!
