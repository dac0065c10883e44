use account_balance::account::Account;
use account_balance::account::AccountError;
use account_balance::account::Transaction;
use account_balance::json::Json;

const WELL_FORMED: &str =
    "{\"id\": \"acct-1\", \"transactions\": [{\"id\":\"t1\",\"amount\":1000},{\"id\":\"t2\",\"amount\":3536}]}";

#[test]
fn should_load_account() {
    Account::from_json_bytes(WELL_FORMED.as_bytes()).unwrap();
}

#[test]
fn should_calculate_balance() {
    let account = Account::from_json_bytes(WELL_FORMED.as_bytes()).unwrap();
    assert_eq!(account.balance(), Ok(4536));
}

#[test]
fn loads_fields_exactly() {
    let account = Account::from_json_bytes(WELL_FORMED.as_bytes()).unwrap();
    assert_eq!(account.id, "acct-1");
    assert_eq!(account.transactions.len(), 2);
    assert_eq!(account.transactions[0].id, "t1");
    assert_eq!(account.transactions[0].amount, 1000);
    assert_eq!(account.transactions[1].id, "t2");
    assert_eq!(account.transactions[1].amount, 3536);
}

#[test]
fn malformed_json_is_parse_error() {
    let r = Account::from_json_bytes(b"{not json");
    assert_eq!(r, Err(AccountError::ParseError));
}

#[test]
fn wrong_id_type_is_parse_error() {
    let r = Account::from_json_bytes(b"{\"id\": 7, \"transactions\": []}");
    assert_eq!(r, Err(AccountError::ParseError));
}

#[test]
fn missing_transactions_is_parse_error() {
    let r = Account::from_json_bytes(b"{\"id\": \"acct-1\"}");
    assert_eq!(r, Err(AccountError::ParseError));
}

#[test]
fn non_array_transactions_is_parse_error() {
    let r = Account::from_json_bytes(b"{\"id\": \"a\", \"transactions\": {}}");
    assert_eq!(r, Err(AccountError::ParseError));
}

#[test]
fn fractional_amount_is_parse_error() {
    let r = Account::from_json_bytes(
        b"{\"id\": \"a\", \"transactions\": [{\"id\":\"t\",\"amount\":1.5}]}",
    );
    assert_eq!(r, Err(AccountError::ParseError));
}

#[test]
fn oversized_amount_is_parse_error() {
    let r = Account::from_json_bytes(
        b"{\"id\": \"a\", \"transactions\": [{\"id\":\"t\",\"amount\":9223372036854775808}]}",
    );
    assert_eq!(r, Err(AccountError::ParseError));
}

#[test]
fn string_amount_is_parse_error() {
    let r = Account::from_json_bytes(
        b"{\"id\": \"a\", \"transactions\": [{\"id\":\"t\",\"amount\":\"many\"}]}",
    );
    assert_eq!(r, Err(AccountError::ParseError));
}

#[test]
fn extra_fields_are_ignored() {
    let account = Account::from_json_bytes(
        b"{\"id\": \"a\", \"note\": null, \"transactions\": [{\"id\":\"t\",\"amount\":2,\"memo\":[]}]}",
    )
    .unwrap();
    assert_eq!(account.id, "a");
    assert_eq!(account.transactions.len(), 1);
    assert_eq!(account.transactions[0].amount, 2);
    assert_eq!(account.balance(), Ok(2));
}

#[test]
fn negative_balance_scenario() {
    let account = Account::from_json_bytes(
        b"{\"id\": \"a\", \"transactions\": [{\"id\":\"t1\",\"amount\":100},{\"id\":\"t2\",\"amount\":-200}]}",
    )
    .unwrap();
    assert_eq!(account.balance(), Err(AccountError::NegativeBalance(-100)));
}

#[test]
fn empty_transactions_balance_is_zero() {
    let account = Account::from_json_bytes(b"{\"id\": \"a\", \"transactions\": []}").unwrap();
    assert_eq!(account.balance(), Ok(0));
}

#[test]
fn nonnegative_sum_is_returned_exactly() {
    let account = Account {
        id: String::from("a"),
        transactions: vec![
            Transaction { id: String::from("t1"), amount: 5 },
            Transaction { id: String::from("t2"), amount: -3 },
            Transaction { id: String::from("t3"), amount: 1 },
        ],
    };
    assert_eq!(account.balance(), Ok(3));
}

#[test]
fn overflowing_sum_wraps() {
    let account = Account {
        id: String::from("a"),
        transactions: vec![
            Transaction { id: String::from("t1"), amount: i64::MAX },
            Transaction { id: String::from("t2"), amount: 1 },
        ],
    };
    assert_eq!(account.balance(), Err(AccountError::NegativeBalance(i64::MIN)));
}

#[test]
fn account_from_constructed_json() {
    let j = Json::Object(vec![
        (String::from("id"), Json::Text(String::from("acct-9"))),
        (
            String::from("transactions"),
            Json::Array(vec![Json::Object(vec![
                (String::from("id"), Json::Text(String::from("t9"))),
                (String::from("amount"), Json::Int(41)),
            ])]),
        ),
    ]);
    let account = Account::from_json(&j).unwrap();
    assert_eq!(account.id, "acct-9");
    assert_eq!(account.transactions.len(), 1);
    assert_eq!(account.transactions[0].id, "t9");
    assert_eq!(account.transactions[0].amount, 41);
}

#[test]
fn first_field_occurrence_wins() {
    let j = Json::Object(vec![
        (String::from("id"), Json::Text(String::from("first"))),
        (String::from("id"), Json::Text(String::from("second"))),
        (String::from("transactions"), Json::Array(vec![])),
    ]);
    let account = Account::from_json(&j).unwrap();
    assert_eq!(account.id, "first");
}

#[test]
fn transaction_from_non_object_fails() {
    let r = Transaction::from_json(&Json::Array(vec![]));
    assert_eq!(r, Err(AccountError::ParseError));
}

#[test]
fn error_descriptions() {
    assert_eq!(AccountError::IOError.description(), "IO error");
    assert_eq!(AccountError::ParseError.description(), "JSON error");
    assert_eq!(AccountError::NegativeBalance(-1).description(), "Negative balance");
}
