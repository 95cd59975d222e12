use ethers::types::U256;
use mev_share::share::{
    FlashbotsAuctionPreferences, FlashbotsHints, InternalFlashbotsPayloadPreferences,
    ShareTransactionOptions,
};

fn all_false() -> FlashbotsHints {
    FlashbotsHints {
        logs: false,
        calldata: false,
        function_selector: false,
        contract_address: false,
    }
}

#[test]
fn default_hints_are_all_false() {
    assert_eq!(FlashbotsHints::default(), all_false());
}

#[test]
fn default_options_have_no_bound_and_no_flags() {
    let o = ShareTransactionOptions::default();
    assert_eq!(o.max_block_number, None);
    assert_eq!(o.preferences, all_false());
}

#[test]
fn new_copies_fields_verbatim() {
    let hints = FlashbotsHints {
        logs: true,
        calldata: false,
        function_selector: true,
        contract_address: false,
    };
    let o = ShareTransactionOptions::new(Some(U256::from(7u64)), hints);
    assert_eq!(o.max_block_number, Some(U256::from(7u64)));
    assert_eq!(o.preferences, hints);
}

#[test]
fn with_max_block_number_keeps_preferences() {
    let o = ShareTransactionOptions::default().with_logs();
    let o2 = o.with_max_block_number(U256::from(99u64));
    assert_eq!(o2.max_block_number, Some(U256::from(99u64)));
    assert_eq!(o2.preferences, o.preferences);
}

#[test]
fn each_with_call_sets_exactly_one_flag() {
    let base = ShareTransactionOptions::default();
    assert_eq!(
        base.with_logs().preferences,
        FlashbotsHints { logs: true, ..all_false() }
    );
    assert_eq!(
        base.with_calldata().preferences,
        FlashbotsHints { calldata: true, ..all_false() }
    );
    assert_eq!(
        base.with_function_selector().preferences,
        FlashbotsHints { function_selector: true, ..all_false() }
    );
    assert_eq!(
        base.with_contract_address().preferences,
        FlashbotsHints { contract_address: true, ..all_false() }
    );
}

#[test]
fn with_calls_are_order_independent() {
    let base = ShareTransactionOptions::default();
    assert_eq!(
        base.with_logs().with_calldata(),
        base.with_calldata().with_logs()
    );
    assert_eq!(
        base.with_function_selector().with_contract_address().with_logs(),
        base.with_logs().with_contract_address().with_function_selector()
    );
}

#[test]
fn with_calls_are_monotonic() {
    let o = ShareTransactionOptions::default().with_logs();
    assert!(o.preferences.logs);
    let o2 = o.with_calldata().with_contract_address().with_function_selector();
    assert!(o2.preferences.logs);
    let o3 = o2.with_logs();
    assert!(o3.preferences.logs);
    assert!(o3.preferences.calldata);
    assert!(o3.preferences.function_selector);
    assert!(o3.preferences.contract_address);
}

#[test]
fn default_options_convert_without_auction() {
    let p = InternalFlashbotsPayloadPreferences::from(ShareTransactionOptions::default());
    assert!(p.fast);
    assert!(p.auction.is_none());
}

#[test]
fn block_bound_alone_enables_auction_with_default_hint() {
    let o = ShareTransactionOptions::new(Some(U256::from(12345u64)), FlashbotsHints::default());
    let p = InternalFlashbotsPayloadPreferences::from(o);
    assert!(p.fast);
    assert_eq!(
        p.auction,
        Some(FlashbotsAuctionPreferences { enable: true, hint: Some(all_false()) })
    );
}

#[test]
fn any_hint_enables_auction_with_full_hint_set() {
    let o = ShareTransactionOptions::new(None, FlashbotsHints::default())
        .with_logs()
        .with_calldata();
    let p = InternalFlashbotsPayloadPreferences::from(o);
    assert!(p.fast);
    assert_eq!(
        p.auction,
        Some(FlashbotsAuctionPreferences {
            enable: true,
            hint: Some(FlashbotsHints {
                logs: true,
                calldata: true,
                function_selector: false,
                contract_address: false,
            }),
        })
    );
}

#[test]
fn conversion_is_deterministic() {
    let o = ShareTransactionOptions::new(Some(U256::from(42u64)), FlashbotsHints::default())
        .with_contract_address();
    let p1 = InternalFlashbotsPayloadPreferences::from(o.clone());
    let p2 = InternalFlashbotsPayloadPreferences::from(o);
    assert_eq!(p1, p2);
}
