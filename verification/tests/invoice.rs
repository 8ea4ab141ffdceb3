use billing::ids::{AccountId, ExchangeId, InvoiceId, OrderId, StoreId, TransactionId, UserId};
use billing::invoice::{
    increase_amount_captured, new_invoice, refresh_rates, get_rate, reserve_or_refresh_rate, refreshed_rate, reserved_rate, ExchangeRateStatus,
    NewOrderExchangeRate, OrderExchangeRate, Rate, RatePlan, RateRefresh, RateStep, RawInvoice,
};
use billing::money::{Amount, Currency};
use billing::order::{PaymentState, RawOrder};
use billing::repo_error::ErrorKind as RepoErrorKind;

fn order(seller_currency: Currency, total: u128) -> RawOrder {
    RawOrder {
        id: OrderId(5),
        seller_currency,
        total_amount: Amount(total),
        cashback_amount: Amount(0),
        invoice_id: InvoiceId(9),
        store_id: StoreId(1),
        state: PaymentState::Initial,
    }
}

#[test]
fn same_currency_needs_no_reservation() {
    assert_eq!(get_rate(Currency::Stq, Currency::Stq, Amount(100)), RatePlan::Identity);
    match get_rate(Currency::Btc, Currency::Stq, Amount(100)) {
        RatePlan::Reserve(g) => {
            assert_eq!(g.from, Currency::Btc);
            assert_eq!(g.to, Currency::Stq);
            assert_eq!(g.amount_currency, Currency::Stq);
            assert_eq!(g.amount, Amount(100));
            assert_eq!((g.id >> 76) & 0xf, 4);
        }
        other => panic!("unexpected {:?}", other),
    }
}

#[test]
fn rate_steps() {
    let o = order(Currency::Stq, 100);
    match reserve_or_refresh_rate::<u64>(&o, Currency::Stq, None, 1) {
        RateStep::Done(Some(r)) => {
            assert_eq!(r.order_id, OrderId(5));
            assert!(r.exchange_id.is_none());
            assert_eq!(r.exchange_rate, 1);
        }
        other => panic!("unexpected {:?}", other),
    }
    assert!(matches!(reserve_or_refresh_rate::<u64>(&o, Currency::Eth, None, 1), RateStep::Reserve(_)));
    let unreserved = OrderExchangeRate { order_id: OrderId(5), exchange_id: None, exchange_rate: 7u64, status: ExchangeRateStatus::Active };
    assert!(matches!(reserve_or_refresh_rate(&o, Currency::Eth, Some(&unreserved), 1), RateStep::Done(Some(NewOrderExchangeRate { exchange_rate: 1, .. }))));
    let reserved = OrderExchangeRate {
        order_id: OrderId(5),
        exchange_id: Some(ExchangeId(77)),
        exchange_rate: 7u64,
        status: ExchangeRateStatus::Active,
    };
    assert!(matches!(reserve_or_refresh_rate(&o, Currency::Eth, Some(&reserved), 1), RateStep::Refresh(ExchangeId(77))));
}

#[test]
fn refreshes_keep_or_replace_the_rate() {
    let r = reserved_rate(OrderId(5), Rate { id: 8, rate: 3u64 });
    assert_eq!(r.exchange_id, Some(ExchangeId(8)));
    assert_eq!(r.exchange_rate, 3);
    let fresh = refreshed_rate(OrderId(5), RateRefresh { rate: Rate { id: 9, rate: 4u64 }, is_new_rate: true }).unwrap();
    assert_eq!(fresh.exchange_id, Some(ExchangeId(9)));
    assert!(refreshed_rate(OrderId(5), RateRefresh { rate: Rate { id: 9, rate: 4u64 }, is_new_rate: false }).is_none());
}

#[test]
fn new_rates_keeps_the_new_ones_in_order() {
    let a = NewOrderExchangeRate { order_id: OrderId(1), exchange_id: None, exchange_rate: 1u64 };
    let b = NewOrderExchangeRate { order_id: OrderId(3), exchange_id: Some(ExchangeId(2)), exchange_rate: 5u64 };
    let rates = refresh_rates(vec![Some(a), None, Some(b), None]);
    let ids: Vec<OrderId> = rates.iter().map(|r| r.order_id).collect();
    assert_eq!(ids, vec![OrderId(1), OrderId(3)]);
    assert!(refresh_rates::<u64>(vec![None, None]).is_empty());
}

#[test]
fn a_new_invoice_has_captured_nothing() {
    let i = new_invoice(InvoiceId(3), AccountId(4), Currency::Btc, UserId(5));
    assert_eq!(i.account_id, Some(AccountId(4)));
    assert_eq!(i.amount_captured, Amount(0));
    assert_eq!(i.buyer_user_id, UserId(5));
}

#[test]
fn captured_amounts_add_up() {
    let invoice = RawInvoice {
        id: InvoiceId(3),
        account_id: Some(AccountId(4)),
        buyer_currency: Currency::Btc,
        amount_captured: Amount(10),
        buyer_user_id: UserId(5),
    };
    let (record, captured) = increase_amount_captured(&invoice, TransactionId(6), Amount(15)).unwrap();
    assert_eq!(record.invoice_id, InvoiceId(3));
    assert_eq!(record.id, TransactionId(6));
    assert_eq!(record.amount_received, Amount(15));
    assert_eq!(captured, Amount(25));
    let full = RawInvoice { amount_captured: Amount(u128::MAX), ..invoice };
    let e = increase_amount_captured(&full, TransactionId(6), Amount(1)).unwrap_err();
    assert!(matches!(e.kind, RepoErrorKind::Internal));
}
