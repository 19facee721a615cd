use trade_lifecycle::error::DetailIssue;
use trade_lifecycle::history::{get_historical_record, total_historical_record_count, TradeHistory};
use trade_lifecycle::state::{Approved, Draft, Executed, NeedsReapproval, PendingApproval, SentToCounterparty, TradeAction};
use trade_lifecycle::trade::{Counterparty, CurrencyCode, Direction, MutTradeDetails, Style, TradeDetails};
use trade_lifecycle::users::{Approver, Requester, User};

const USD: CurrencyCode = CurrencyCode(840);
const GBP: CurrencyCode = CurrencyCode(826);
const EUR: CurrencyCode = CurrencyCode(978);

fn fields(currency: CurrencyCode, underlying: Vec<CurrencyCode>, value_date: i64, delivery_date: i64) -> MutTradeDetails {
    MutTradeDetails {
        counterparty: Counterparty("Acme".to_string()),
        direction: Direction::BUY,
        style: Style("Forward".to_string()),
        notional_currency: currency,
        notional_amount: 100,
        underlying,
        value_date,
        delivery_date,
    }
}

fn pending_trade(owner: &User<Requester>, history: &mut TradeHistory) -> TradeDetails<PendingApproval> {
    let draft = TradeDetails::<Draft>::new_at(owner, fields(USD, vec![USD, GBP], 2_000, 3_000), 1_000).unwrap();
    draft.submit(owner, history).unwrap()
}

#[test]
fn creating_a_valid_draft() {
    let owner = User::<Requester>::sign_in("Owner");
    let draft = TradeDetails::<Draft>::new_at(&owner, fields(USD, vec![USD, GBP], 2_000, 3_000), 1_000).unwrap();
    assert_eq!(draft.trading_entity().user_id(), "Owner");
    assert_eq!(draft.counterparty().0, "Acme");
    assert_eq!(*draft.direction(), Direction::BUY);
    assert_eq!(draft.style().0, "Forward");
    assert_eq!(draft.currency(), USD);
    assert_eq!(draft.amount(), 100);
    assert_eq!(*draft.underlying(), vec![USD, GBP]);
    assert_eq!(draft.trade_date(), 1_000);
    assert_eq!(draft.value_date(), 2_000);
    assert_eq!(draft.delivery_date(), 3_000);
    assert_eq!(draft.strike(), None);
    assert_eq!(TradeDetails::<Draft>::state(), "Draft");
}

#[test]
fn value_date_before_trade_date_rejected() {
    let owner = User::<Requester>::sign_in("Owner");
    let err = TradeDetails::<Draft>::new_at(&owner, fields(USD, vec![USD], 500, 3_000), 1_000).unwrap_err();
    assert_eq!(err.issue, DetailIssue::DatesNotOrdered);
    assert_eq!(err.description(), "Dates must be chronologically ordered");
}

#[test]
fn delivery_date_before_trade_date_rejected() {
    let owner = User::<Requester>::sign_in("Owner");
    let err = TradeDetails::<Draft>::new_at(&owner, fields(USD, vec![USD], 2_000, 900), 1_000).unwrap_err();
    assert_eq!(err.issue, DetailIssue::DatesNotOrdered);
}

#[test]
fn delivery_date_before_value_date_rejected() {
    let owner = User::<Requester>::sign_in("Owner");
    let err = TradeDetails::<Draft>::new_at(&owner, fields(USD, vec![USD], 3_000, 2_000), 1_000).unwrap_err();
    assert_eq!(err.issue, DetailIssue::DatesNotOrdered);
}

#[test]
fn currency_outside_underlying_rejected() {
    let owner = User::<Requester>::sign_in("Owner");
    let err = TradeDetails::<Draft>::new_at(&owner, fields(USD, vec![GBP, EUR], 2_000, 3_000), 1_000).unwrap_err();
    assert_eq!(err.issue, DetailIssue::CurrencyNotInUnderlying);
    assert_eq!(err.description(), "Currency not listed in the underlying");
}

#[test]
fn dates_checked_before_currency_membership() {
    let owner = User::<Requester>::sign_in("Owner");
    // Both rules are violated: the date rules are reported first.
    let err = TradeDetails::<Draft>::new_at(&owner, fields(USD, vec![GBP], 3_000, 2_000), 1_000).unwrap_err();
    assert_eq!(err.issue, DetailIssue::DatesNotOrdered);
}

#[test]
fn submit_appends_one_entry_without_diff() {
    let mut history = TradeHistory::new();
    let owner = User::<Requester>::sign_in("Owner");
    let draft = TradeDetails::<Draft>::new_at(&owner, fields(USD, vec![USD], 2_000, 3_000), 1_000).unwrap();
    let _pending = draft.submit(&owner, &mut history).unwrap();
    assert_eq!(total_historical_record_count(&history), 1);
    let record = get_historical_record(&history, 0).unwrap();
    assert_eq!(record.action, TradeAction::Submit);
    assert_eq!(record.user_id, "Owner");
    assert_eq!(record.state_before, "Draft");
    assert_eq!(record.state_after, "PendingApproval");
    assert!(record.difference.is_none());
}

#[test]
fn unauthorised_submit_appends_nothing() {
    let mut history = TradeHistory::new();
    let owner = User::<Requester>::sign_in("Owner");
    let stranger = User::<Requester>::sign_in("Stranger");
    let draft = TradeDetails::<Draft>::new_at(&owner, fields(USD, vec![USD], 2_000, 3_000), 1_000).unwrap();
    let err = draft.submit(&stranger, &mut history).unwrap_err();
    assert_eq!(err.requester(), "Stranger");
    assert_eq!(err.action(), TradeAction::Submit);
    assert_eq!(err.state_name(), "Draft");
    assert_eq!(total_historical_record_count(&history), 0);
}

#[test]
fn update_amount_only_diff() {
    let mut history = TradeHistory::new();
    let owner = User::<Requester>::sign_in("Owner");
    let approver = User::<Approver>::sign_in("Admin");
    let pending = pending_trade(&owner, &mut history);
    let mut new_details = pending.grab_mut_details();
    assert_eq!(new_details.notional_amount, 100);
    new_details.notional_amount = 250;
    let _updated = pending.update(&approver, new_details, &mut history).unwrap();
    let record = get_historical_record(&history, 1).unwrap();
    assert_eq!(record.action, TradeAction::Update);
    let diff = record.changes().unwrap();
    assert_eq!(diff.changed_amount(), Some((100, 250)));
    assert!(diff.changed_counterparty().is_none());
    assert!(diff.changed_direction().is_none());
    assert!(diff.changed_style().is_none());
    assert!(diff.changed_currency().is_none());
    assert!(diff.changed_underlying().is_none());
    assert!(diff.changed_value_date().is_none());
    assert!(diff.changed_delivery_date().is_none());
    assert!(diff.changed_strike().is_none());
}

#[test]
fn update_of_several_fields_lists_each_pair() {
    let mut history = TradeHistory::new();
    let owner = User::<Requester>::sign_in("Owner");
    let approver = User::<Approver>::sign_in("Admin");
    let pending = pending_trade(&owner, &mut history);
    let mut new_details = pending.grab_mut_details();
    new_details.counterparty = Counterparty("Bravo".to_string());
    new_details.direction = Direction::SELL;
    new_details.underlying = vec![USD, GBP, EUR];
    let _updated = pending.update(&approver, new_details, &mut history).unwrap();
    let record = get_historical_record(&history, 1).unwrap();
    let diff = record.changes().unwrap();
    let (before_cp, after_cp) = diff.changed_counterparty().unwrap();
    assert_eq!(before_cp.0, "Acme");
    assert_eq!(after_cp.0, "Bravo");
    assert_eq!(diff.changed_direction().unwrap(), &(Direction::BUY, Direction::SELL));
    let (before_under, after_under) = diff.changed_underlying().unwrap();
    assert_eq!(*before_under, vec![USD, GBP]);
    assert_eq!(*after_under, vec![USD, GBP, EUR]);
    assert!(diff.changed_style().is_none());
    assert!(diff.changed_currency().is_none());
    assert!(diff.changed_amount().is_none());
    assert!(diff.changed_value_date().is_none());
    assert!(diff.changed_delivery_date().is_none());
    assert!(diff.changed_strike().is_none());
}

#[test]
fn update_with_invalid_dates_leaves_no_entry() {
    let mut history = TradeHistory::new();
    let owner = User::<Requester>::sign_in("Owner");
    let approver = User::<Approver>::sign_in("Admin");
    let pending = pending_trade(&owner, &mut history);
    assert_eq!(total_historical_record_count(&history), 1);
    let mut new_details = pending.grab_mut_details();
    new_details.delivery_date = 1_500;
    new_details.value_date = 2_500;
    let err = pending.update(&approver, new_details, &mut history).unwrap_err();
    assert_eq!(err.issue, DetailIssue::DatesNotOrdered);
    assert_eq!(total_historical_record_count(&history), 1);
}

#[test]
fn booking_sets_strike_in_diff() {
    let mut history = TradeHistory::new();
    let owner = User::<Requester>::sign_in("Owner");
    let approver = User::<Approver>::sign_in("Admin");
    let pending = pending_trade(&owner, &mut history);
    let sent = pending.accept(&approver, &mut history).send_to_execute(&approver, &mut history);
    // No field changes in this call: the diff is still present, for the strike.
    let executed = sent.book(900, &approver, &mut history).unwrap();
    assert_eq!(executed.strike(), Some(900));
    assert_eq!(TradeDetails::<Executed>::state(), "Executed");
    let record = get_historical_record(&history, 3).unwrap();
    assert_eq!(record.action, TradeAction::Book);
    assert_eq!(record.state_before, "SentToCounterparty");
    assert_eq!(record.state_after, "Executed");
    let diff = record.changes().unwrap();
    assert_eq!(diff.changed_strike(), Some(900));
    assert!(diff.changed_amount().is_none());
    assert!(diff.changed_counterparty().is_none());
}

#[test]
fn booking_by_unauthorised_requester_rejected() {
    let mut history = TradeHistory::new();
    let owner = User::<Requester>::sign_in("Owner");
    let stranger = User::<Requester>::sign_in("Stranger");
    let approver = User::<Approver>::sign_in("Admin");
    let pending = pending_trade(&owner, &mut history);
    let sent = pending.accept(&approver, &mut history).send_to_execute(&approver, &mut history);
    let entries_before = total_historical_record_count(&history);
    let err = sent.book(900, &stranger, &mut history).unwrap_err();
    assert_eq!(err.requester(), "Stranger");
    assert_eq!(err.action(), TradeAction::Book);
    assert_eq!(err.state_name(), "SentToCounterparty");
    assert_eq!(total_historical_record_count(&history), entries_before);
}

#[test]
fn history_indices_stable_and_monotonic() {
    let mut history = TradeHistory::new();
    history.clear();
    let owner = User::<Requester>::sign_in("Owner");
    let approver = User::<Approver>::sign_in("Admin");
    let pending = pending_trade(&owner, &mut history);
    let approved = pending.accept(&approver, &mut history);
    let _sent = approved.send_to_execute(&approver, &mut history);
    assert_eq!(total_historical_record_count(&history), 3);
    assert!(get_historical_record(&history, 0).is_some());
    assert!(get_historical_record(&history, 1).is_some());
    assert!(get_historical_record(&history, 2).is_some());
    assert!(get_historical_record(&history, 3).is_none());
    assert!(get_historical_record(&history, 10).is_none());
    // The first entry kept its index and value across later appends.
    let first = get_historical_record(&history, 0).unwrap();
    assert_eq!(first.action, TradeAction::Submit);
    assert_eq!(first.state_before, "Draft");
}

#[test]
fn full_lifecycle_to_execution() {
    let mut history = TradeHistory::new();
    let bob = User::<Requester>::sign_in("Bob");
    let ellie = User::<Approver>::sign_in("Ellie");
    let trade = TradeDetails::<Draft>::new_at(
        &bob,
        MutTradeDetails {
            counterparty: Counterparty("Maggie".to_string()),
            direction: Direction::BUY,
            style: Style("Forward Contract Currency Exchange.".to_string()),
            notional_currency: USD,
            notional_amount: 1,
            underlying: vec![USD, GBP],
            value_date: 2_000,
            delivery_date: 3_000,
        },
        1_000,
    )
    .unwrap();
    let trade = trade.submit(&bob, &mut history).unwrap();
    assert_eq!(total_historical_record_count(&history), 1);
    let mut new_details = trade.grab_mut_details();
    new_details.notional_amount = 1000;
    let trade = trade.update(&ellie, new_details, &mut history).unwrap();
    assert_eq!(total_historical_record_count(&history), 2);
    let record = get_historical_record(&history, 1).unwrap();
    assert_eq!(record.changes().unwrap().changed_amount(), Some((1, 1000)));
    let trade = trade.approve(&bob, &mut history).unwrap();
    assert_eq!(total_historical_record_count(&history), 3);
    let trade = trade.send_to_execute(&ellie, &mut history);
    let trade = trade.book(900, &ellie, &mut history).unwrap();
    assert_eq!(total_historical_record_count(&history), 5);
    assert_eq!(trade.strike(), Some(900));
    assert_eq!(trade.amount(), 1000);
    assert_eq!(TradeDetails::<Executed>::state(), "Executed");
}

#[test]
fn cancel_from_pending_approval() {
    let mut history = TradeHistory::new();
    let owner = User::<Requester>::sign_in("Owner");
    let pending = pending_trade(&owner, &mut history);
    let cancelled = pending.cancel(&owner, &mut history).unwrap();
    assert_eq!(cancelled.strike(), None);
    assert_eq!(total_historical_record_count(&history), 2);
    let record = get_historical_record(&history, 1).unwrap();
    assert_eq!(record.action, TradeAction::Cancel);
    assert_eq!(record.state_before, "PendingApproval");
    assert_eq!(record.state_after, "Cancelled");
    assert!(record.difference.is_none());
}

#[test]
fn cancel_from_needs_reapproval() {
    let mut history = TradeHistory::new();
    let owner = User::<Requester>::sign_in("Owner");
    let approver = User::<Approver>::sign_in("Admin");
    let pending = pending_trade(&owner, &mut history);
    let mut new_details = pending.grab_mut_details();
    new_details.notional_amount = 7;
    let needs_reapproval = pending.update(&approver, new_details, &mut history).unwrap();
    let _cancelled = needs_reapproval.cancel(&approver, &mut history).unwrap();
    let record = get_historical_record(&history, 2).unwrap();
    assert_eq!(record.action, TradeAction::Cancel);
    assert_eq!(record.state_before, "NeedsReapproval");
}

#[test]
fn cancel_from_approved() {
    let mut history = TradeHistory::new();
    let owner = User::<Requester>::sign_in("Owner");
    let approver = User::<Approver>::sign_in("Admin");
    let approved: TradeDetails<Approved> = pending_trade(&owner, &mut history).accept(&approver, &mut history);
    let _cancelled = approved.cancel(&approver, &mut history).unwrap();
    let record = get_historical_record(&history, 2).unwrap();
    assert_eq!(record.action, TradeAction::Cancel);
    assert_eq!(record.state_before, "Approved");
}

#[test]
fn cancel_from_sent_to_counterparty() {
    let mut history = TradeHistory::new();
    let owner = User::<Requester>::sign_in("Owner");
    let approver = User::<Approver>::sign_in("Admin");
    let sent: TradeDetails<SentToCounterparty> = pending_trade(&owner, &mut history)
        .accept(&approver, &mut history)
        .send_to_execute(&approver, &mut history);
    let _cancelled = sent.cancel(&owner, &mut history).unwrap();
    let record = get_historical_record(&history, 3).unwrap();
    assert_eq!(record.action, TradeAction::Cancel);
    assert_eq!(record.state_before, "SentToCounterparty");
}

#[test]
fn cancel_by_wrong_requester_rejected() {
    let mut history = TradeHistory::new();
    let owner = User::<Requester>::sign_in("Owner");
    let stranger = User::<Requester>::sign_in("Stranger");
    let pending = pending_trade(&owner, &mut history);
    let err = pending.cancel(&stranger, &mut history).unwrap_err();
    assert_eq!(err.requester(), "Stranger");
    assert_eq!(err.action(), TradeAction::Cancel);
    assert_eq!(total_historical_record_count(&history), 1);
}

#[test]
fn approve_by_wrong_requester_rejected() {
    let mut history = TradeHistory::new();
    let owner = User::<Requester>::sign_in("Owner");
    let stranger = User::<Requester>::sign_in("Stranger");
    let approver = User::<Approver>::sign_in("Admin");
    let pending = pending_trade(&owner, &mut history);
    let mut new_details = pending.grab_mut_details();
    new_details.notional_amount = 7;
    let needs_reapproval = pending.update(&approver, new_details, &mut history).unwrap();
    let entries_before = total_historical_record_count(&history);
    let err = needs_reapproval.approve(&stranger, &mut history).unwrap_err();
    assert_eq!(err.requester(), "Stranger");
    assert_eq!(err.action(), TradeAction::Approve);
    assert_eq!(err.state_name(), "NeedsReapproval");
    assert_eq!(total_historical_record_count(&history), entries_before);
}

#[test]
fn direction_wire_codes() {
    assert_eq!(Direction::BUY.code(), 0);
    assert_eq!(Direction::SELL.code(), 1);
    assert_eq!(Direction::from_code(0), Some(Direction::BUY));
    assert_eq!(Direction::from_code(1), Some(Direction::SELL));
    assert_eq!(Direction::from_code(2), None);
    assert_eq!(Direction::from_code(-1), None);
}

#[test]
fn action_names() {
    assert_eq!(TradeAction::Cancel.name(), "cancel");
    assert_eq!(TradeAction::Submit.name(), "submit");
    assert_eq!(TradeAction::Accept.name(), "accept");
    assert_eq!(TradeAction::Update.name(), "update");
    assert_eq!(TradeAction::Approve.name(), "approve");
    assert_eq!(TradeAction::SendToExecute.name(), "send to execute");
    assert_eq!(TradeAction::Book.name(), "book");
}

#[test]
fn state_names() {
    assert_eq!(TradeDetails::<Draft>::state(), "Draft");
    assert_eq!(TradeDetails::<PendingApproval>::state(), "PendingApproval");
    assert_eq!(TradeDetails::<NeedsReapproval>::state(), "NeedsReapproval");
    assert_eq!(TradeDetails::<Approved>::state(), "Approved");
    assert_eq!(TradeDetails::<SentToCounterparty>::state(), "SentToCounterparty");
    assert_eq!(TradeDetails::<Executed>::state(), "Executed");
    assert_eq!(TradeDetails::<trade_lifecycle::state::Cancelled>::state(), "Cancelled");
}
