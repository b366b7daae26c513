//! Transfer states, address kinds and address book entries.
use vstd::prelude::*;

verus! {

/// Transfer state enumeration
#[derive(Clone, Copy, PartialEq, Eq, Structural, Hash, Debug)]
pub enum TransferState {
    /// Transfer is prepared but not yet confirmed
    Prepared,
    /// Transfer has been confirmed
    Confirmed,
    /// Transfer has been cancelled
    Cancelled,
    /// Transfer is waiting for admin approval
    WaitingForAdmin,
    /// Transfer failed due to insufficient funds
    InsufficientFunds,
    /// Transfer failed due to withdrawal limit
    WithdrawalLimit,
}

impl Default for TransferState {
    /// A transfer starts out prepared.
    fn default() -> (r: TransferState)
        ensures
            r == TransferState::Prepared,
    {
        TransferState::Prepared
    }
}

/// Address type enumeration
#[derive(Clone, Copy, PartialEq, Eq, Structural, Hash, Debug)]
pub enum AddressType {
    /// Deposit address
    Deposit,
    /// Withdrawal address
    Withdrawal,
    /// Transfer address
    Transfer,
}

impl Default for AddressType {
    /// An address is a deposit address unless said otherwise.
    fn default() -> (r: AddressType)
        ensures
            r == AddressType::Deposit,
    {
        AddressType::Deposit
    }
}

/// Address book entry
#[derive(Clone, Debug)]
pub struct AddressBookEntry {
    /// Cryptocurrency address
    pub address: String,
    /// Currency for this address
    pub currency: String,
    /// User-defined label for the address
    pub label: String,
    /// Type of address
    pub address_type: AddressType,
    /// Whether this address requires email confirmation for withdrawals
    pub requires_confirmation: bool,
    /// Creation timestamp (milliseconds since Unix epoch)
    pub creation_timestamp: i64,
    /// Whether this is a personal address
    pub personal: Option<bool>,
    /// Beneficiary information for compliance
    pub beneficiary_first_name: Option<String>,
    /// Beneficiary last name
    pub beneficiary_last_name: Option<String>,
    /// Beneficiary address for compliance
    pub beneficiary_address: Option<String>,
    /// Beneficiary VASP DID
    pub beneficiary_vasp_did: Option<String>,
    /// Beneficiary VASP name
    pub beneficiary_vasp_name: Option<String>,
}

impl AddressBookEntry {
    /// Create a new address book entry
    pub fn new(
        address: String,
        currency: String,
        label: String,
        address_type: AddressType,
        creation_timestamp: i64,
    ) -> (r: AddressBookEntry)
        ensures
            r == (AddressBookEntry {
                address,
                currency,
                label,
                address_type,
                requires_confirmation: false,
                creation_timestamp,
                personal: None,
                beneficiary_first_name: None,
                beneficiary_last_name: None,
                beneficiary_address: None,
                beneficiary_vasp_did: None,
                beneficiary_vasp_name: None,
            }),
    {
        AddressBookEntry {
            address,
            currency,
            label,
            address_type,
            requires_confirmation: false,
            creation_timestamp,
            personal: None,
            beneficiary_first_name: None,
            beneficiary_last_name: None,
            beneficiary_address: None,
            beneficiary_vasp_did: None,
            beneficiary_vasp_name: None,
        }
    }

    /// Set confirmation requirement
    pub fn with_confirmation(self, required: bool) -> (r: AddressBookEntry)
        ensures
            r == (AddressBookEntry { requires_confirmation: required, ..self }),
    {
        AddressBookEntry { requires_confirmation: required, ..self }
    }

    /// Set personal flag
    pub fn with_personal(self, personal: bool) -> (r: AddressBookEntry)
        ensures
            r == (AddressBookEntry { personal: Some(personal), ..self }),
    {
        AddressBookEntry { personal: Some(personal), ..self }
    }

    /// Set beneficiary information
    pub fn with_beneficiary(self, first_name: String, last_name: String, address: String) -> (r:
        AddressBookEntry)
        ensures
            r == (AddressBookEntry {
                beneficiary_first_name: Some(first_name),
                beneficiary_last_name: Some(last_name),
                beneficiary_address: Some(address),
                ..self
            }),
    {
        AddressBookEntry {
            beneficiary_first_name: Some(first_name),
            beneficiary_last_name: Some(last_name),
            beneficiary_address: Some(address),
            ..self
        }
    }

    /// Set VASP information
    pub fn with_vasp(self, vasp_did: String, vasp_name: String) -> (r: AddressBookEntry)
        ensures
            r == (AddressBookEntry {
                beneficiary_vasp_did: Some(vasp_did),
                beneficiary_vasp_name: Some(vasp_name),
                ..self
            }),
    {
        AddressBookEntry {
            beneficiary_vasp_did: Some(vasp_did),
            beneficiary_vasp_name: Some(vasp_name),
            ..self
        }
    }

    /// Check if this is a withdrawal address
    pub fn is_withdrawal(&self) -> (r: bool)
        ensures
            r == (self.address_type == AddressType::Withdrawal),
    {
        self.address_type == AddressType::Withdrawal
    }

    /// Check if this is a deposit address
    pub fn is_deposit(&self) -> (r: bool)
        ensures
            r == (self.address_type == AddressType::Deposit),
    {
        self.address_type == AddressType::Deposit
    }

    /// Check if this is a transfer address
    pub fn is_transfer(&self) -> (r: bool)
        ensures
            r == (self.address_type == AddressType::Transfer),
    {
        self.address_type == AddressType::Transfer
    }
}

} // verus!
