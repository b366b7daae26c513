use deribit_base::model::transfer::{AddressBookEntry, AddressType};

#[test]
fn test_address_book_entry() {
    let entry = AddressBookEntry::new(
        "bc1qxy2kgdygjrsqtzq2n0yrf2493p83kkfjhx0wlh".to_string(),
        "BTC".to_string(),
        "Main wallet".to_string(),
        AddressType::Withdrawal,
        1640995200000,
    )
    .with_confirmation(true)
    .with_personal(false)
    .with_beneficiary(
        "John".to_string(),
        "Doe".to_string(),
        "123 Main St".to_string(),
    );

    assert!(entry.is_withdrawal());
    assert!(!entry.is_deposit());
    assert!(entry.requires_confirmation);
    assert_eq!(entry.beneficiary_first_name, Some("John".to_string()));
}
