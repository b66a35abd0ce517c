use transact::errors::RecordError;
use transact::exchange::{initialize, GetBalance, GetTokenInfo, MintState, TokenAccountState};

#[test]
fn initialize_stores_tokens_and_zero_cursor() {
    let tokens = vec!["sol".to_string(), "usdc".to_string()];
    let account = initialize(tokens.clone());
    assert_eq!(account.token_list, tokens);
    assert_eq!(account.history_index, 0);
}

#[test]
fn initialize_with_no_tokens() {
    let account = initialize(Vec::new());
    assert!(account.token_list.is_empty());
    assert_eq!(account.history_index, 0);
}

#[test]
fn balance_projects_the_account_amount() {
    let read = GetBalance { token_account: TokenAccountState { amount: 250 } };
    assert_eq!(read.get_balance(), 250);
}

#[test]
fn total_supply_projects_the_mint_supply() {
    let read = GetTokenInfo { mint: MintState { supply: 21_000_000 } };
    assert_eq!(read.get_total_supply(), 21_000_000);
}

#[test]
fn token_name_is_not_available() {
    let read = GetTokenInfo { mint: MintState { supply: 0 } };
    assert_eq!(read.get_name(), "Token name not available on-chain");
}

#[test]
fn error_kinds_describe_themselves() {
    assert_eq!(
        RecordError::Unauthorized.describe(),
        "caller does not control the sender identity"
    );
    assert_eq!(
        RecordError::CapacityExceeded.describe(),
        "store is at its maximum record count"
    );
    assert_eq!(RecordError::FieldTooLong.describe(), "text field exceeds its byte budget");
    assert_eq!(RecordError::StorageFault.describe(), "backing storage failed");
    assert_ne!(RecordError::Unauthorized, RecordError::FieldTooLong);
}
