use krypton::codec::encode;
use krypton::event::{IntentQueue, PaymentEvent};
use krypton::guard::ProcessedSet;
use krypton::ledger::{check_transaction_status, ledger_query_url, InMsg, PaymentStatus, TonTransaction};
use krypton::settlement::{poll_decision, Delivery, Notification, PollAction, Settlement};
use krypton::transaction::{Price, Settle, Transaction, TxStatus};

fn transfer(payload: Option<&str>) -> TonTransaction {
    TonTransaction {
        in_msg: InMsg {
            value: "1000000000".to_string(),
            source: "EQSender".to_string(),
            payload: payload.map(|p| p.to_string()),
        },
    }
}

fn price() -> Price {
    Price::new(1500, 2).unwrap()
}

fn transaction(id: i64, wallet: &str) -> Transaction {
    Transaction::new(id, 7, 100, 200, price(), "USDT".to_string(), wallet.to_string(), 1_700_000_000, 5)
}

fn intent(id: i64, wallet: &str) -> PaymentEvent {
    PaymentEvent {
        transaction_id: id,
        telegram_id: 7,
        channel_id: 100,
        chat_id: 200,
        price: price(),
        currency: "USDT".to_string(),
        wallet_address: wallet.to_string(),
    }
}

#[test]
fn mark_if_new_true_only_once() {
    let mut set = ProcessedSet::new();
    let deliveries = [5i64, 9, 5, 5, 9, 11, 5];
    let results: Vec<bool> = deliveries.iter().map(|&id| set.mark_if_new(id)).collect();
    assert_eq!(results, vec![true, true, false, false, false, true, false]);
    let fives: Vec<bool> = deliveries.iter().zip(results.iter()).filter(|(d, _)| **d == 5).map(|(_, r)| *r).collect();
    assert_eq!(fives.iter().filter(|r| **r).count(), 1);
    assert_eq!(fives.iter().filter(|r| !**r).count(), 3);
    assert!(set.contains(11));
    assert!(!set.contains(12));
}

#[test]
fn queue_is_first_in_first_out() {
    let mut q = IntentQueue::new();
    assert!(q.consume().is_none());
    q.publish(intent(1, "A"));
    q.publish(intent(2, "B"));
    assert_eq!(q.len(), 2);
    assert_eq!(q.consume().unwrap().transaction_id, 1);
    assert_eq!(q.consume().unwrap().transaction_id, 2);
    assert!(q.consume().is_none());
}

#[test]
fn reconciliation_finds_the_one_matching_memo() {
    let memo = encode(42);
    let history = vec![
        transfer(None),
        transfer(Some("garbage")),
        transfer(Some(&encode(41))),
        transfer(Some(&memo)),
        transfer(Some("")),
    ];
    assert_eq!(check_transaction_status(42, Some(&history)), PaymentStatus::Success);
}

#[test]
fn reconciliation_pending_when_nothing_matches() {
    let history = vec![transfer(None), transfer(Some(&encode(43))), transfer(Some("aGVsbG89NDI="))];
    assert_eq!(check_transaction_status(42, Some(&history)), PaymentStatus::Pending);
    assert_eq!(check_transaction_status(42, Some(&[])), PaymentStatus::Pending);
}

#[test]
fn reconciliation_error_when_fetch_failed() {
    assert_eq!(check_transaction_status(42, None), PaymentStatus::Error);
}

#[test]
fn status_names() {
    assert_eq!(PaymentStatus::Pending.name(), "pending");
    assert_eq!(PaymentStatus::Success.name(), "success");
    assert_eq!(PaymentStatus::Error.name(), "error");
    assert_eq!(TxStatus::Active.name(), "active");
    assert_eq!(TxStatus::Completed.name(), "completed");
    assert_eq!(TxStatus::Failed.name(), "failed");
}

#[test]
fn ledger_url_carries_address_limit_and_key() {
    assert_eq!(
        ledger_query_url("EQW", "KEY"),
        "https://toncenter.com/api/v2/getTransactions?address=EQW&limit=15&api_key=KEY"
    );
}

#[test]
fn price_bounds() {
    assert!(Price::new(1, 28).is_some());
    assert!(Price::new(1, 29).is_none());
    assert!(Price::new(79228162514264337593543950335, 0).is_some());
    assert!(Price::new(79228162514264337593543950336, 0).is_none());
    assert!(Price::new(-79228162514264337593543950336, 0).is_none());
}

#[test]
fn transaction_state_machine_terminal_states_stick() {
    let mut tx = transaction(1, "W");
    assert_eq!(tx.status(), TxStatus::Active);
    assert_eq!(tx.completed_at(), None);
    assert!(tx.lifecycle.settle(Settle::Complete, 10));
    assert_eq!(tx.status(), TxStatus::Completed);
    assert_eq!(tx.completed_at(), Some(10));
    assert!(!tx.lifecycle.settle(Settle::Fail, 20));
    assert_eq!(tx.status(), TxStatus::Completed);
    assert_eq!(tx.completed_at(), Some(10));

    let mut other = transaction(2, "W");
    assert!(other.lifecycle.settle(Settle::Fail, 30));
    assert!(!other.lifecycle.settle(Settle::Complete, 40));
    assert_eq!(other.status(), TxStatus::Failed);
    assert_eq!(other.completed_at(), Some(30));
}

#[test]
fn poll_decision_policy() {
    assert_eq!(poll_decision(PaymentStatus::Success, 0, 3), PollAction::Settle(Settle::Complete));
    assert_eq!(poll_decision(PaymentStatus::Success, 9, 3), PollAction::Settle(Settle::Complete));
    assert_eq!(poll_decision(PaymentStatus::Pending, 0, 3), PollAction::PollAgain);
    assert_eq!(poll_decision(PaymentStatus::Error, 1, 3), PollAction::PollAgain);
    assert_eq!(poll_decision(PaymentStatus::Pending, 2, 3), PollAction::Settle(Settle::Fail));
    assert_eq!(poll_decision(PaymentStatus::Error, u32::MAX, u32::MAX), PollAction::Settle(Settle::Fail));
}

#[test]
fn create_refuses_duplicate_ids() {
    let mut s = Settlement::new(3);
    assert!(s.create(transaction(1, "W")));
    assert!(!s.create(transaction(1, "X")));
    assert_eq!(s.transaction(1).unwrap().wallet_address, "W");
    assert_eq!(s.status(2), None);
}

#[test]
fn delivery_of_unknown_transaction_is_dropped() {
    let mut s = Settlement::new(3);
    assert_eq!(s.deliver(&intent(99, "W")), Delivery::MissingTransaction);
    assert!(!s.is_processed(99));
}

#[test]
fn scenario_payment_found_completes_once() {
    let wallet = "EQWallet";
    let mut s = Settlement::new(5);
    assert!(s.create(transaction(42, wallet)));
    let mut q = IntentQueue::new();
    q.publish(intent(42, wallet));

    let mut notifications: Vec<Notification> = Vec::new();
    while let Some(ev) = q.consume() {
        if s.deliver(&ev) != Delivery::Reconcile {
            continue;
        }
        let history = vec![transfer(Some("junk")), transfer(Some(&encode(42)))];
        let status = check_transaction_status(ev.transaction_id, Some(&history));
        assert_eq!(status, PaymentStatus::Success);
        let action = poll_decision(status, 0, s.max_attempts());
        if let Some(n) = s.apply(ev.transaction_id, action, 1_700_000_100) {
            notifications.push(n);
        }
    }
    assert_eq!(s.status(42), Some(TxStatus::Completed));
    assert_eq!(s.transaction(42).unwrap().completed_at(), Some(1_700_000_100));
    assert_eq!(notifications, vec![Notification { transaction_id: 42, status: TxStatus::Completed }]);
    // a repeated settle request changes nothing and notifies nothing
    assert_eq!(s.apply(42, PollAction::Settle(Settle::Complete), 1_700_000_200), None);
    assert_eq!(s.apply(42, PollAction::Settle(Settle::Fail), 1_700_000_300), None);
    assert_eq!(s.status(42), Some(TxStatus::Completed));
}

#[test]
fn scenario_redelivery_reconciles_once() {
    let wallet = "EQWallet";
    let mut s = Settlement::new(5);
    assert!(s.create(transaction(42, wallet)));
    let mut q = IntentQueue::new();
    q.publish(intent(42, wallet));
    q.publish(intent(42, wallet));

    let mut cycles = 0;
    let mut notifications: Vec<Notification> = Vec::new();
    let mut decisions: Vec<Delivery> = Vec::new();
    while let Some(ev) = q.consume() {
        let d = s.deliver(&ev);
        decisions.push(d);
        if d != Delivery::Reconcile {
            continue;
        }
        cycles += 1;
        let history = vec![transfer(Some(&encode(42)))];
        let status = check_transaction_status(ev.transaction_id, Some(&history));
        if let Some(n) = s.apply(ev.transaction_id, poll_decision(status, 0, 5), 9) {
            notifications.push(n);
        }
    }
    assert_eq!(decisions, vec![Delivery::Reconcile, Delivery::Duplicate]);
    assert_eq!(cycles, 1);
    assert_eq!(notifications.len(), 1);
    assert_eq!(s.status(42), Some(TxStatus::Completed));
}

#[test]
fn scenario_budget_exhausted_fails_once() {
    let wallet = "EQWallet";
    let budget: u32 = 3;
    let mut s = Settlement::new(budget);
    assert!(s.create(transaction(42, wallet)));
    assert_eq!(s.deliver(&intent(42, wallet)), Delivery::Reconcile);

    let mut notifications: Vec<Notification> = Vec::new();
    let mut attempt: u32 = 0;
    loop {
        let history = if attempt == 1 { None } else { Some(vec![transfer(Some(&encode(43)))]) };
        let status = check_transaction_status(42, history.as_deref());
        assert_ne!(status, PaymentStatus::Success);
        let action = poll_decision(status, attempt, budget);
        if let Some(n) = s.apply(42, action, 1000 + attempt as i64) {
            notifications.push(n);
        }
        if action != PollAction::PollAgain {
            break;
        }
        attempt += 1;
    }
    assert_eq!(attempt, budget - 1);
    assert_eq!(s.status(42), Some(TxStatus::Failed));
    assert_eq!(notifications, vec![Notification { transaction_id: 42, status: TxStatus::Failed }]);
    assert_eq!(s.transaction(42).unwrap().completed_at(), Some(1002));
}
