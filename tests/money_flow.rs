use aml::entities::Bank;
use aml::join::group_by_key;
use aml::money_flow::{parse_amount, parse_count, CustomerInfo, FlowEntry, MoneyFlow};

fn s(x: &str) -> String {
    x.to_string()
}

fn line(converted: &str, count: &str) -> FlowEntry {
    FlowEntry {
        counterpart_name: None,
        counterpart_id: None,
        counterpart_account: None,
        counterpart_bank_name: None,
        counterpart_bank_code: None,
        total_amount: None,
        total_converted: Some(s(converted)),
        total_transactions: Some(s(count)),
        tx_from: None,
        tx_to: None,
        currency: s("VND"),
        content: None,
    }
}

#[test]
fn flows_total_inflows_and_outflows_per_account() {
    let key = (s("CIF1"), s("001"));
    let inflows = group_by_key(vec![(key.clone(), line("100", "1")), (key.clone(), line("50", "2"))]);
    let outflows = group_by_key(vec![(key.clone(), line("30", "1"))]);
    let banks = group_by_key(vec![(key.clone(), Bank { bank_name: Some(s("VCB")), bank_code: Some(s("970436")) })]);
    let customers = group_by_key(vec![(s("CIF1"), CustomerInfo { name: s("Nguyễn Văn A"), id_number: s("0123") })]);
    let flows = MoneyFlow::aggregate(&inflows, &outflows, &banks, &customers);
    assert_eq!(flows.len(), 1);
    let f = &flows[0];
    assert_eq!(f.total_converted_in, 15000);
    assert_eq!(f.total_converted_out, 3000);
    assert_eq!(f.total_transactions_in, 3);
    assert_eq!(f.total_transactions_out, 1);
    assert_eq!(f.inflows.len(), 2);
    assert_eq!(f.bank_name, Some(s("VCB")));
    assert_eq!(f.subject_name, "Nguyễn Văn A");
    assert_eq!(f.identification, "0123");
}

#[test]
fn flows_cover_the_union_of_keys() {
    let a = (s("C1"), s("001"));
    let b = (s("C2"), s("002"));
    let c = (s("C1"), s("003"));
    let inflows = group_by_key(vec![(a.clone(), line("10", "1")), (b.clone(), line("20", "1"))]);
    let outflows = group_by_key(vec![(c.clone(), line("5", "1")), (a.clone(), line("1,000", "2"))]);
    let banks = group_by_key(Vec::<((String, String), Bank)>::new());
    let customers = group_by_key(Vec::<(String, CustomerInfo)>::new());
    let flows = MoneyFlow::aggregate(&inflows, &outflows, &banks, &customers);
    let keys: Vec<(String, String)> = flows.iter().map(|f| (f.id.clone(), f.account_number.clone())).collect();
    assert_eq!(keys, vec![a, b, c]);
    assert_eq!(flows[0].total_converted_out, 100000);
    assert_eq!(flows[2].total_converted_in, 0);
    assert!(flows[2].inflows.is_empty());
    assert_eq!(flows[2].bank_name, None);
    assert_eq!(flows[2].subject_name, "");
}

#[test]
fn amounts_are_decimal_hundredths() {
    assert_eq!(parse_amount(&Some(s("1,234,567"))), 123456700);
    assert_eq!(parse_amount(&Some(s("1,000.50"))), 100050);
    assert_eq!(parse_amount(&Some(s("12.5"))), 1250);
    assert_eq!(parse_amount(&Some(s("12.345"))), 1234);
    assert_eq!(parse_amount(&Some(s(".5"))), 50);
    assert_eq!(parse_amount(&Some(s("-42"))), -4200);
    assert_eq!(parse_amount(&Some(s("+7."))), 700);
    assert_eq!(parse_amount(&Some(s("abc"))), 0);
    assert_eq!(parse_amount(&Some(s("."))), 0);
    assert_eq!(parse_amount(&Some(s("1.2.3"))), 0);
    assert_eq!(parse_amount(&Some(s("-"))), 0);
    assert_eq!(parse_amount(&Some(s("92233720368547758.07"))), i64::MAX);
    assert_eq!(parse_amount(&Some(s("92233720368547758.08"))), 0);
    assert_eq!(parse_amount(&None), 0);
}

#[test]
fn counts_default_to_zero() {
    assert_eq!(parse_count(&Some(s("1,234"))), 1234);
    assert_eq!(parse_count(&Some(s("-42"))), -42);
    assert_eq!(parse_count(&Some(s("12.5"))), 0);
    assert_eq!(parse_count(&Some(s("9223372036854775807"))), i64::MAX);
    assert_eq!(parse_count(&Some(s("-9223372036854775808"))), i64::MIN);
    assert_eq!(parse_count(&Some(s("9223372036854775808"))), 0);
    assert_eq!(parse_count(&None), 0);
}
