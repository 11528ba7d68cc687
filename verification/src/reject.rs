//! Rejects: their scope and code as exchanged across the C boundary, the
//! owned reject record, borrowed reject views and caller-owned reject lists.

use crate::string::OpenPitStringView;
use crate::text::{import_string, str_eq, str_to_ascii_lowercase, str_trim, trimmed_text, ascii_lowercase, view_text};
use vstd::prelude::*;
use vstd::string::StringSliceAdditionalSpecFns;

verus! {

/// Broad area to which a reject applies.
///
/// Valid values on the wire: `Order` (1), `Account` (2); zero is not a
/// valid scope value.
#[derive(Clone, Copy, Debug, PartialEq, Eq, Structural)]
pub enum OpenPitRejectScope {
    /// The reject applies to one order or order-like request.
    Order,
    /// The reject applies to account state rather than to one order only.
    Account,
}

impl OpenPitRejectScope {
    /// The wire value of the scope.
    pub open spec fn spec_value(self) -> u8 {
        match self {
            OpenPitRejectScope::Order => 1,
            OpenPitRejectScope::Account => 2,
        }
    }

    /// The wire value of the scope.
    pub fn value(self) -> (res: u8)
        ensures
            res == self.spec_value(),
    {
        match self {
            OpenPitRejectScope::Order => 1,
            OpenPitRejectScope::Account => 2,
        }
    }

    /// The scope with wire value `value`, if any.
    pub fn from_value(value: u8) -> (res: Option<Self>)
        ensures
            match res {
                Some(scope) => scope.spec_value() == value,
                None => value != 1 && value != 2,
            },
    {
        if value == 1 {
            Some(OpenPitRejectScope::Order)
        } else if value == 2 {
            Some(OpenPitRejectScope::Account)
        } else {
            None
        }
    }
}

/// Stable classification code for a reject.
///
/// Valid wire codes are `1..=39`, `254` (`Custom`) and `255` (`Other`).
/// Unknown incoming codes are mapped to `Other`.
#[derive(Clone, Copy, Debug, PartialEq, Eq, Structural)]
pub enum OpenPitRejectCode {
    /// A required field is absent.
    MissingRequiredField,
    /// A field cannot be parsed from the supplied wire value.
    InvalidFieldFormat,
    /// A field is syntactically valid but semantically unacceptable.
    InvalidFieldValue,
    /// The requested order type is not supported.
    UnsupportedOrderType,
    /// The requested time-in-force is not supported.
    UnsupportedTimeInForce,
    /// Another order attribute is unsupported.
    UnsupportedOrderAttribute,
    /// The client order identifier duplicates an active order.
    DuplicateClientOrderId,
    /// The order arrived after the allowed entry deadline.
    TooLateToEnter,
    /// Trading is closed for the relevant venue or session.
    ExchangeClosed,
    /// The instrument cannot be resolved.
    UnknownInstrument,
    /// The account cannot be resolved.
    UnknownAccount,
    /// The venue cannot be resolved.
    UnknownVenue,
    /// The clearing account cannot be resolved.
    UnknownClearingAccount,
    /// The collateral asset cannot be resolved.
    UnknownCollateralAsset,
    /// Available balance is insufficient.
    InsufficientFunds,
    /// Available margin is insufficient.
    InsufficientMargin,
    /// Available position is insufficient.
    InsufficientPosition,
    /// A credit limit was exceeded.
    CreditLimitExceeded,
    /// A risk limit was exceeded.
    RiskLimitExceeded,
    /// The order exceeds a generic configured limit.
    OrderExceedsLimit,
    /// The order quantity exceeds a configured limit.
    OrderQtyExceedsLimit,
    /// The order notional exceeds a configured limit.
    OrderNotionalExceedsLimit,
    /// The resulting position exceeds a configured limit.
    PositionLimitExceeded,
    /// Concentration constraints were violated.
    ConcentrationLimitExceeded,
    /// Leverage constraints were violated.
    LeverageLimitExceeded,
    /// The request rate exceeded a configured limit.
    RateLimitExceeded,
    /// A loss barrier has blocked further risk-taking.
    PnlKillSwitchTriggered,
    /// The account is blocked.
    AccountBlocked,
    /// The account is not authorized for this action.
    AccountNotAuthorized,
    /// A compliance restriction blocked the action.
    ComplianceRestriction,
    /// The instrument is restricted.
    InstrumentRestricted,
    /// A jurisdiction restriction blocked the action.
    JurisdictionRestriction,
    /// The action would violate wash-trade prevention.
    WashTradePrevention,
    /// The action would violate self-match prevention.
    SelfMatchPrevention,
    /// Short-sale restriction blocked the action.
    ShortSaleRestriction,
    /// Required risk configuration is missing.
    RiskConfigurationMissing,
    /// Required reference data is unavailable.
    ReferenceDataUnavailable,
    /// The system could not compute an order value needed for validation.
    OrderValueCalculationFailed,
    /// A required service or subsystem is unavailable.
    SystemUnavailable,
    /// Reserved value for caller-defined reject classes (see `user_data`).
    Custom,
    /// A catch-all code for rejects that do not fit a more specific class.
    Other,
}

impl OpenPitRejectCode {
    /// The wire code.
    pub open spec fn spec_value(self) -> u16 {
        match self {
            OpenPitRejectCode::MissingRequiredField => 1,
            OpenPitRejectCode::InvalidFieldFormat => 2,
            OpenPitRejectCode::InvalidFieldValue => 3,
            OpenPitRejectCode::UnsupportedOrderType => 4,
            OpenPitRejectCode::UnsupportedTimeInForce => 5,
            OpenPitRejectCode::UnsupportedOrderAttribute => 6,
            OpenPitRejectCode::DuplicateClientOrderId => 7,
            OpenPitRejectCode::TooLateToEnter => 8,
            OpenPitRejectCode::ExchangeClosed => 9,
            OpenPitRejectCode::UnknownInstrument => 10,
            OpenPitRejectCode::UnknownAccount => 11,
            OpenPitRejectCode::UnknownVenue => 12,
            OpenPitRejectCode::UnknownClearingAccount => 13,
            OpenPitRejectCode::UnknownCollateralAsset => 14,
            OpenPitRejectCode::InsufficientFunds => 15,
            OpenPitRejectCode::InsufficientMargin => 16,
            OpenPitRejectCode::InsufficientPosition => 17,
            OpenPitRejectCode::CreditLimitExceeded => 18,
            OpenPitRejectCode::RiskLimitExceeded => 19,
            OpenPitRejectCode::OrderExceedsLimit => 20,
            OpenPitRejectCode::OrderQtyExceedsLimit => 21,
            OpenPitRejectCode::OrderNotionalExceedsLimit => 22,
            OpenPitRejectCode::PositionLimitExceeded => 23,
            OpenPitRejectCode::ConcentrationLimitExceeded => 24,
            OpenPitRejectCode::LeverageLimitExceeded => 25,
            OpenPitRejectCode::RateLimitExceeded => 26,
            OpenPitRejectCode::PnlKillSwitchTriggered => 27,
            OpenPitRejectCode::AccountBlocked => 28,
            OpenPitRejectCode::AccountNotAuthorized => 29,
            OpenPitRejectCode::ComplianceRestriction => 30,
            OpenPitRejectCode::InstrumentRestricted => 31,
            OpenPitRejectCode::JurisdictionRestriction => 32,
            OpenPitRejectCode::WashTradePrevention => 33,
            OpenPitRejectCode::SelfMatchPrevention => 34,
            OpenPitRejectCode::ShortSaleRestriction => 35,
            OpenPitRejectCode::RiskConfigurationMissing => 36,
            OpenPitRejectCode::ReferenceDataUnavailable => 37,
            OpenPitRejectCode::OrderValueCalculationFailed => 38,
            OpenPitRejectCode::SystemUnavailable => 39,
            OpenPitRejectCode::Custom => 254,
            OpenPitRejectCode::Other => 255,
        }
    }

    /// The wire code.
    pub fn value(self) -> (res: u16)
        ensures
            res == self.spec_value(),
    {
        match self {
            OpenPitRejectCode::MissingRequiredField => 1,
            OpenPitRejectCode::InvalidFieldFormat => 2,
            OpenPitRejectCode::InvalidFieldValue => 3,
            OpenPitRejectCode::UnsupportedOrderType => 4,
            OpenPitRejectCode::UnsupportedTimeInForce => 5,
            OpenPitRejectCode::UnsupportedOrderAttribute => 6,
            OpenPitRejectCode::DuplicateClientOrderId => 7,
            OpenPitRejectCode::TooLateToEnter => 8,
            OpenPitRejectCode::ExchangeClosed => 9,
            OpenPitRejectCode::UnknownInstrument => 10,
            OpenPitRejectCode::UnknownAccount => 11,
            OpenPitRejectCode::UnknownVenue => 12,
            OpenPitRejectCode::UnknownClearingAccount => 13,
            OpenPitRejectCode::UnknownCollateralAsset => 14,
            OpenPitRejectCode::InsufficientFunds => 15,
            OpenPitRejectCode::InsufficientMargin => 16,
            OpenPitRejectCode::InsufficientPosition => 17,
            OpenPitRejectCode::CreditLimitExceeded => 18,
            OpenPitRejectCode::RiskLimitExceeded => 19,
            OpenPitRejectCode::OrderExceedsLimit => 20,
            OpenPitRejectCode::OrderQtyExceedsLimit => 21,
            OpenPitRejectCode::OrderNotionalExceedsLimit => 22,
            OpenPitRejectCode::PositionLimitExceeded => 23,
            OpenPitRejectCode::ConcentrationLimitExceeded => 24,
            OpenPitRejectCode::LeverageLimitExceeded => 25,
            OpenPitRejectCode::RateLimitExceeded => 26,
            OpenPitRejectCode::PnlKillSwitchTriggered => 27,
            OpenPitRejectCode::AccountBlocked => 28,
            OpenPitRejectCode::AccountNotAuthorized => 29,
            OpenPitRejectCode::ComplianceRestriction => 30,
            OpenPitRejectCode::InstrumentRestricted => 31,
            OpenPitRejectCode::JurisdictionRestriction => 32,
            OpenPitRejectCode::WashTradePrevention => 33,
            OpenPitRejectCode::SelfMatchPrevention => 34,
            OpenPitRejectCode::ShortSaleRestriction => 35,
            OpenPitRejectCode::RiskConfigurationMissing => 36,
            OpenPitRejectCode::ReferenceDataUnavailable => 37,
            OpenPitRejectCode::OrderValueCalculationFailed => 38,
            OpenPitRejectCode::SystemUnavailable => 39,
            OpenPitRejectCode::Custom => 254,
            OpenPitRejectCode::Other => 255,
        }
    }

    /// Whether `value` is the wire code of some reject code.
    pub open spec fn is_known_value(value: u16) -> bool {
        1 <= value <= 39 || value == 254 || value == 255
    }

    /// The reject code with wire code `value`; `Other` for an unknown code.
    pub fn from_value(value: u16) -> (res: Self)
        ensures
            Self::is_known_value(value) ==> res.spec_value() == value,
            !Self::is_known_value(value) ==> res == OpenPitRejectCode::Other,
    {
        match value {
            1 => OpenPitRejectCode::MissingRequiredField,
            2 => OpenPitRejectCode::InvalidFieldFormat,
            3 => OpenPitRejectCode::InvalidFieldValue,
            4 => OpenPitRejectCode::UnsupportedOrderType,
            5 => OpenPitRejectCode::UnsupportedTimeInForce,
            6 => OpenPitRejectCode::UnsupportedOrderAttribute,
            7 => OpenPitRejectCode::DuplicateClientOrderId,
            8 => OpenPitRejectCode::TooLateToEnter,
            9 => OpenPitRejectCode::ExchangeClosed,
            10 => OpenPitRejectCode::UnknownInstrument,
            11 => OpenPitRejectCode::UnknownAccount,
            12 => OpenPitRejectCode::UnknownVenue,
            13 => OpenPitRejectCode::UnknownClearingAccount,
            14 => OpenPitRejectCode::UnknownCollateralAsset,
            15 => OpenPitRejectCode::InsufficientFunds,
            16 => OpenPitRejectCode::InsufficientMargin,
            17 => OpenPitRejectCode::InsufficientPosition,
            18 => OpenPitRejectCode::CreditLimitExceeded,
            19 => OpenPitRejectCode::RiskLimitExceeded,
            20 => OpenPitRejectCode::OrderExceedsLimit,
            21 => OpenPitRejectCode::OrderQtyExceedsLimit,
            22 => OpenPitRejectCode::OrderNotionalExceedsLimit,
            23 => OpenPitRejectCode::PositionLimitExceeded,
            24 => OpenPitRejectCode::ConcentrationLimitExceeded,
            25 => OpenPitRejectCode::LeverageLimitExceeded,
            26 => OpenPitRejectCode::RateLimitExceeded,
            27 => OpenPitRejectCode::PnlKillSwitchTriggered,
            28 => OpenPitRejectCode::AccountBlocked,
            29 => OpenPitRejectCode::AccountNotAuthorized,
            30 => OpenPitRejectCode::ComplianceRestriction,
            31 => OpenPitRejectCode::InstrumentRestricted,
            32 => OpenPitRejectCode::JurisdictionRestriction,
            33 => OpenPitRejectCode::WashTradePrevention,
            34 => OpenPitRejectCode::SelfMatchPrevention,
            35 => OpenPitRejectCode::ShortSaleRestriction,
            36 => OpenPitRejectCode::RiskConfigurationMissing,
            37 => OpenPitRejectCode::ReferenceDataUnavailable,
            38 => OpenPitRejectCode::OrderValueCalculationFailed,
            39 => OpenPitRejectCode::SystemUnavailable,
            254 => OpenPitRejectCode::Custom,
            _ => OpenPitRejectCode::Other,
        }
    }

    /// The code's name, as openpit spells it.
    pub open spec fn spec_name(self) -> Seq<char> {
        match self {
            OpenPitRejectCode::MissingRequiredField => "MissingRequiredField"@,
            OpenPitRejectCode::InvalidFieldFormat => "InvalidFieldFormat"@,
            OpenPitRejectCode::InvalidFieldValue => "InvalidFieldValue"@,
            OpenPitRejectCode::UnsupportedOrderType => "UnsupportedOrderType"@,
            OpenPitRejectCode::UnsupportedTimeInForce => "UnsupportedTimeInForce"@,
            OpenPitRejectCode::UnsupportedOrderAttribute => "UnsupportedOrderAttribute"@,
            OpenPitRejectCode::DuplicateClientOrderId => "DuplicateClientOrderId"@,
            OpenPitRejectCode::TooLateToEnter => "TooLateToEnter"@,
            OpenPitRejectCode::ExchangeClosed => "ExchangeClosed"@,
            OpenPitRejectCode::UnknownInstrument => "UnknownInstrument"@,
            OpenPitRejectCode::UnknownAccount => "UnknownAccount"@,
            OpenPitRejectCode::UnknownVenue => "UnknownVenue"@,
            OpenPitRejectCode::UnknownClearingAccount => "UnknownClearingAccount"@,
            OpenPitRejectCode::UnknownCollateralAsset => "UnknownCollateralAsset"@,
            OpenPitRejectCode::InsufficientFunds => "InsufficientFunds"@,
            OpenPitRejectCode::InsufficientMargin => "InsufficientMargin"@,
            OpenPitRejectCode::InsufficientPosition => "InsufficientPosition"@,
            OpenPitRejectCode::CreditLimitExceeded => "CreditLimitExceeded"@,
            OpenPitRejectCode::RiskLimitExceeded => "RiskLimitExceeded"@,
            OpenPitRejectCode::OrderExceedsLimit => "OrderExceedsLimit"@,
            OpenPitRejectCode::OrderQtyExceedsLimit => "OrderQtyExceedsLimit"@,
            OpenPitRejectCode::OrderNotionalExceedsLimit => "OrderNotionalExceedsLimit"@,
            OpenPitRejectCode::PositionLimitExceeded => "PositionLimitExceeded"@,
            OpenPitRejectCode::ConcentrationLimitExceeded => "ConcentrationLimitExceeded"@,
            OpenPitRejectCode::LeverageLimitExceeded => "LeverageLimitExceeded"@,
            OpenPitRejectCode::RateLimitExceeded => "RateLimitExceeded"@,
            OpenPitRejectCode::PnlKillSwitchTriggered => "PnlKillSwitchTriggered"@,
            OpenPitRejectCode::AccountBlocked => "AccountBlocked"@,
            OpenPitRejectCode::AccountNotAuthorized => "AccountNotAuthorized"@,
            OpenPitRejectCode::ComplianceRestriction => "ComplianceRestriction"@,
            OpenPitRejectCode::InstrumentRestricted => "InstrumentRestricted"@,
            OpenPitRejectCode::JurisdictionRestriction => "JurisdictionRestriction"@,
            OpenPitRejectCode::WashTradePrevention => "WashTradePrevention"@,
            OpenPitRejectCode::SelfMatchPrevention => "SelfMatchPrevention"@,
            OpenPitRejectCode::ShortSaleRestriction => "ShortSaleRestriction"@,
            OpenPitRejectCode::RiskConfigurationMissing => "RiskConfigurationMissing"@,
            OpenPitRejectCode::ReferenceDataUnavailable => "ReferenceDataUnavailable"@,
            OpenPitRejectCode::OrderValueCalculationFailed => "OrderValueCalculationFailed"@,
            OpenPitRejectCode::SystemUnavailable => "SystemUnavailable"@,
            OpenPitRejectCode::Custom => "Custom"@,
            OpenPitRejectCode::Other => "Other"@,
        }
    }

    /// The code's name, as openpit spells it.
    pub fn as_str(self) -> (res: &'static str)
        ensures
            res@ == self.spec_name(),
    {
        match self {
            OpenPitRejectCode::MissingRequiredField => "MissingRequiredField",
            OpenPitRejectCode::InvalidFieldFormat => "InvalidFieldFormat",
            OpenPitRejectCode::InvalidFieldValue => "InvalidFieldValue",
            OpenPitRejectCode::UnsupportedOrderType => "UnsupportedOrderType",
            OpenPitRejectCode::UnsupportedTimeInForce => "UnsupportedTimeInForce",
            OpenPitRejectCode::UnsupportedOrderAttribute => "UnsupportedOrderAttribute",
            OpenPitRejectCode::DuplicateClientOrderId => "DuplicateClientOrderId",
            OpenPitRejectCode::TooLateToEnter => "TooLateToEnter",
            OpenPitRejectCode::ExchangeClosed => "ExchangeClosed",
            OpenPitRejectCode::UnknownInstrument => "UnknownInstrument",
            OpenPitRejectCode::UnknownAccount => "UnknownAccount",
            OpenPitRejectCode::UnknownVenue => "UnknownVenue",
            OpenPitRejectCode::UnknownClearingAccount => "UnknownClearingAccount",
            OpenPitRejectCode::UnknownCollateralAsset => "UnknownCollateralAsset",
            OpenPitRejectCode::InsufficientFunds => "InsufficientFunds",
            OpenPitRejectCode::InsufficientMargin => "InsufficientMargin",
            OpenPitRejectCode::InsufficientPosition => "InsufficientPosition",
            OpenPitRejectCode::CreditLimitExceeded => "CreditLimitExceeded",
            OpenPitRejectCode::RiskLimitExceeded => "RiskLimitExceeded",
            OpenPitRejectCode::OrderExceedsLimit => "OrderExceedsLimit",
            OpenPitRejectCode::OrderQtyExceedsLimit => "OrderQtyExceedsLimit",
            OpenPitRejectCode::OrderNotionalExceedsLimit => "OrderNotionalExceedsLimit",
            OpenPitRejectCode::PositionLimitExceeded => "PositionLimitExceeded",
            OpenPitRejectCode::ConcentrationLimitExceeded => "ConcentrationLimitExceeded",
            OpenPitRejectCode::LeverageLimitExceeded => "LeverageLimitExceeded",
            OpenPitRejectCode::RateLimitExceeded => "RateLimitExceeded",
            OpenPitRejectCode::PnlKillSwitchTriggered => "PnlKillSwitchTriggered",
            OpenPitRejectCode::AccountBlocked => "AccountBlocked",
            OpenPitRejectCode::AccountNotAuthorized => "AccountNotAuthorized",
            OpenPitRejectCode::ComplianceRestriction => "ComplianceRestriction",
            OpenPitRejectCode::InstrumentRestricted => "InstrumentRestricted",
            OpenPitRejectCode::JurisdictionRestriction => "JurisdictionRestriction",
            OpenPitRejectCode::WashTradePrevention => "WashTradePrevention",
            OpenPitRejectCode::SelfMatchPrevention => "SelfMatchPrevention",
            OpenPitRejectCode::ShortSaleRestriction => "ShortSaleRestriction",
            OpenPitRejectCode::RiskConfigurationMissing => "RiskConfigurationMissing",
            OpenPitRejectCode::ReferenceDataUnavailable => "ReferenceDataUnavailable",
            OpenPitRejectCode::OrderValueCalculationFailed => "OrderValueCalculationFailed",
            OpenPitRejectCode::SystemUnavailable => "SystemUnavailable",
            OpenPitRejectCode::Custom => "Custom",
            OpenPitRejectCode::Other => "Other",
        }
    }
}

/// Why a text names no reject code or scope.
#[derive(Clone, Copy, Debug, PartialEq, Eq, Structural)]
pub enum RejectTextError {
    /// The text names no supported reject code.
    UnsupportedCode,
    /// The text names neither the order nor the account scope.
    InvalidScope,
}

/// Whether a code may be named by a policy's reject: every code but
/// `Custom`.
pub open spec fn is_nameable(code: OpenPitRejectCode) -> bool {
    code != OpenPitRejectCode::Custom
}

/// The reject code named exactly by `value`; `Custom` is not nameable.
pub fn parse_reject_code(value: &str) -> (res: Result<OpenPitRejectCode, RejectTextError>)
    ensures
        match res {
            Ok(code) => is_nameable(code) && value@ == code.spec_name(),
            Err(e) => e == RejectTextError::UnsupportedCode && forall|code: OpenPitRejectCode|
                is_nameable(code) ==> value@ != #[trigger] code.spec_name(),
        },
{
    if str_eq(value, "MissingRequiredField") {
        return Ok(OpenPitRejectCode::MissingRequiredField);
    }
    if str_eq(value, "InvalidFieldFormat") {
        return Ok(OpenPitRejectCode::InvalidFieldFormat);
    }
    if str_eq(value, "InvalidFieldValue") {
        return Ok(OpenPitRejectCode::InvalidFieldValue);
    }
    if str_eq(value, "UnsupportedOrderType") {
        return Ok(OpenPitRejectCode::UnsupportedOrderType);
    }
    if str_eq(value, "UnsupportedTimeInForce") {
        return Ok(OpenPitRejectCode::UnsupportedTimeInForce);
    }
    if str_eq(value, "UnsupportedOrderAttribute") {
        return Ok(OpenPitRejectCode::UnsupportedOrderAttribute);
    }
    if str_eq(value, "DuplicateClientOrderId") {
        return Ok(OpenPitRejectCode::DuplicateClientOrderId);
    }
    if str_eq(value, "TooLateToEnter") {
        return Ok(OpenPitRejectCode::TooLateToEnter);
    }
    if str_eq(value, "ExchangeClosed") {
        return Ok(OpenPitRejectCode::ExchangeClosed);
    }
    if str_eq(value, "UnknownInstrument") {
        return Ok(OpenPitRejectCode::UnknownInstrument);
    }
    if str_eq(value, "UnknownAccount") {
        return Ok(OpenPitRejectCode::UnknownAccount);
    }
    if str_eq(value, "UnknownVenue") {
        return Ok(OpenPitRejectCode::UnknownVenue);
    }
    if str_eq(value, "UnknownClearingAccount") {
        return Ok(OpenPitRejectCode::UnknownClearingAccount);
    }
    if str_eq(value, "UnknownCollateralAsset") {
        return Ok(OpenPitRejectCode::UnknownCollateralAsset);
    }
    if str_eq(value, "InsufficientFunds") {
        return Ok(OpenPitRejectCode::InsufficientFunds);
    }
    if str_eq(value, "InsufficientMargin") {
        return Ok(OpenPitRejectCode::InsufficientMargin);
    }
    if str_eq(value, "InsufficientPosition") {
        return Ok(OpenPitRejectCode::InsufficientPosition);
    }
    if str_eq(value, "CreditLimitExceeded") {
        return Ok(OpenPitRejectCode::CreditLimitExceeded);
    }
    if str_eq(value, "RiskLimitExceeded") {
        return Ok(OpenPitRejectCode::RiskLimitExceeded);
    }
    if str_eq(value, "OrderExceedsLimit") {
        return Ok(OpenPitRejectCode::OrderExceedsLimit);
    }
    if str_eq(value, "OrderQtyExceedsLimit") {
        return Ok(OpenPitRejectCode::OrderQtyExceedsLimit);
    }
    if str_eq(value, "OrderNotionalExceedsLimit") {
        return Ok(OpenPitRejectCode::OrderNotionalExceedsLimit);
    }
    if str_eq(value, "PositionLimitExceeded") {
        return Ok(OpenPitRejectCode::PositionLimitExceeded);
    }
    if str_eq(value, "ConcentrationLimitExceeded") {
        return Ok(OpenPitRejectCode::ConcentrationLimitExceeded);
    }
    if str_eq(value, "LeverageLimitExceeded") {
        return Ok(OpenPitRejectCode::LeverageLimitExceeded);
    }
    if str_eq(value, "RateLimitExceeded") {
        return Ok(OpenPitRejectCode::RateLimitExceeded);
    }
    if str_eq(value, "PnlKillSwitchTriggered") {
        return Ok(OpenPitRejectCode::PnlKillSwitchTriggered);
    }
    if str_eq(value, "AccountBlocked") {
        return Ok(OpenPitRejectCode::AccountBlocked);
    }
    if str_eq(value, "AccountNotAuthorized") {
        return Ok(OpenPitRejectCode::AccountNotAuthorized);
    }
    if str_eq(value, "ComplianceRestriction") {
        return Ok(OpenPitRejectCode::ComplianceRestriction);
    }
    if str_eq(value, "InstrumentRestricted") {
        return Ok(OpenPitRejectCode::InstrumentRestricted);
    }
    if str_eq(value, "JurisdictionRestriction") {
        return Ok(OpenPitRejectCode::JurisdictionRestriction);
    }
    if str_eq(value, "WashTradePrevention") {
        return Ok(OpenPitRejectCode::WashTradePrevention);
    }
    if str_eq(value, "SelfMatchPrevention") {
        return Ok(OpenPitRejectCode::SelfMatchPrevention);
    }
    if str_eq(value, "ShortSaleRestriction") {
        return Ok(OpenPitRejectCode::ShortSaleRestriction);
    }
    if str_eq(value, "RiskConfigurationMissing") {
        return Ok(OpenPitRejectCode::RiskConfigurationMissing);
    }
    if str_eq(value, "ReferenceDataUnavailable") {
        return Ok(OpenPitRejectCode::ReferenceDataUnavailable);
    }
    if str_eq(value, "OrderValueCalculationFailed") {
        return Ok(OpenPitRejectCode::OrderValueCalculationFailed);
    }
    if str_eq(value, "SystemUnavailable") {
        return Ok(OpenPitRejectCode::SystemUnavailable);
    }
    if str_eq(value, "Other") {
        return Ok(OpenPitRejectCode::Other);
    }
    Err(RejectTextError::UnsupportedCode)
}

/// The scope named by `value`, ignoring surrounding white space and ASCII
/// case: `order` or `account`.
pub fn parse_reject_scope(value: &str) -> (res: Result<OpenPitRejectScope, RejectTextError>)
    ensures
        ({
            let key = ascii_lowercase(trimmed_text(value@));
            match res {
                Ok(OpenPitRejectScope::Order) => key == "order"@,
                Ok(OpenPitRejectScope::Account) => key == "account"@,
                Err(e) => e == RejectTextError::InvalidScope && key != "order"@ && key != "account"@,
            }
        }),
{
    let key = str_to_ascii_lowercase(str_trim(value));
    if str_eq(key.as_str(), "order") {
        Ok(OpenPitRejectScope::Order)
    } else if str_eq(key.as_str(), "account") {
        Ok(OpenPitRejectScope::Account)
    } else {
        Err(RejectTextError::InvalidScope)
    }
}

/// Law: wire codes identify reject codes: every code's wire code is known,
/// and no two codes share one.
pub proof fn lemma_reject_code_values_distinct(a: OpenPitRejectCode, b: OpenPitRejectCode)
    ensures
        OpenPitRejectCode::is_known_value(a.spec_value()),
        a.spec_value() == b.spec_value() ==> a == b,
{
}

/// Law: every scope's wire value is valid, and scopes have distinct values.
pub proof fn lemma_reject_scope_values_distinct(a: OpenPitRejectScope, b: OpenPitRejectScope)
    ensures
        a.spec_value() == 1 || a.spec_value() == 2,
        a.spec_value() == b.spec_value() ==> a == b,
{
}

/// Law: the wire code and the name of every reject code, as the C interface
/// and openpit number and spell them.
pub proof fn lemma_reject_code_table(code: OpenPitRejectCode)
    ensures
        code == OpenPitRejectCode::MissingRequiredField ==> code.spec_value() == 1 && code.spec_name() == "MissingRequiredField"@,
        code == OpenPitRejectCode::InvalidFieldFormat ==> code.spec_value() == 2 && code.spec_name() == "InvalidFieldFormat"@,
        code == OpenPitRejectCode::InvalidFieldValue ==> code.spec_value() == 3 && code.spec_name() == "InvalidFieldValue"@,
        code == OpenPitRejectCode::UnsupportedOrderType ==> code.spec_value() == 4 && code.spec_name() == "UnsupportedOrderType"@,
        code == OpenPitRejectCode::UnsupportedTimeInForce ==> code.spec_value() == 5 && code.spec_name() == "UnsupportedTimeInForce"@,
        code == OpenPitRejectCode::UnsupportedOrderAttribute ==> code.spec_value() == 6 && code.spec_name() == "UnsupportedOrderAttribute"@,
        code == OpenPitRejectCode::DuplicateClientOrderId ==> code.spec_value() == 7 && code.spec_name() == "DuplicateClientOrderId"@,
        code == OpenPitRejectCode::TooLateToEnter ==> code.spec_value() == 8 && code.spec_name() == "TooLateToEnter"@,
        code == OpenPitRejectCode::ExchangeClosed ==> code.spec_value() == 9 && code.spec_name() == "ExchangeClosed"@,
        code == OpenPitRejectCode::UnknownInstrument ==> code.spec_value() == 10 && code.spec_name() == "UnknownInstrument"@,
        code == OpenPitRejectCode::UnknownAccount ==> code.spec_value() == 11 && code.spec_name() == "UnknownAccount"@,
        code == OpenPitRejectCode::UnknownVenue ==> code.spec_value() == 12 && code.spec_name() == "UnknownVenue"@,
        code == OpenPitRejectCode::UnknownClearingAccount ==> code.spec_value() == 13 && code.spec_name() == "UnknownClearingAccount"@,
        code == OpenPitRejectCode::UnknownCollateralAsset ==> code.spec_value() == 14 && code.spec_name() == "UnknownCollateralAsset"@,
        code == OpenPitRejectCode::InsufficientFunds ==> code.spec_value() == 15 && code.spec_name() == "InsufficientFunds"@,
        code == OpenPitRejectCode::InsufficientMargin ==> code.spec_value() == 16 && code.spec_name() == "InsufficientMargin"@,
        code == OpenPitRejectCode::InsufficientPosition ==> code.spec_value() == 17 && code.spec_name() == "InsufficientPosition"@,
        code == OpenPitRejectCode::CreditLimitExceeded ==> code.spec_value() == 18 && code.spec_name() == "CreditLimitExceeded"@,
        code == OpenPitRejectCode::RiskLimitExceeded ==> code.spec_value() == 19 && code.spec_name() == "RiskLimitExceeded"@,
        code == OpenPitRejectCode::OrderExceedsLimit ==> code.spec_value() == 20 && code.spec_name() == "OrderExceedsLimit"@,
        code == OpenPitRejectCode::OrderQtyExceedsLimit ==> code.spec_value() == 21 && code.spec_name() == "OrderQtyExceedsLimit"@,
        code == OpenPitRejectCode::OrderNotionalExceedsLimit ==> code.spec_value() == 22 && code.spec_name() == "OrderNotionalExceedsLimit"@,
        code == OpenPitRejectCode::PositionLimitExceeded ==> code.spec_value() == 23 && code.spec_name() == "PositionLimitExceeded"@,
        code == OpenPitRejectCode::ConcentrationLimitExceeded ==> code.spec_value() == 24 && code.spec_name() == "ConcentrationLimitExceeded"@,
        code == OpenPitRejectCode::LeverageLimitExceeded ==> code.spec_value() == 25 && code.spec_name() == "LeverageLimitExceeded"@,
        code == OpenPitRejectCode::RateLimitExceeded ==> code.spec_value() == 26 && code.spec_name() == "RateLimitExceeded"@,
        code == OpenPitRejectCode::PnlKillSwitchTriggered ==> code.spec_value() == 27 && code.spec_name() == "PnlKillSwitchTriggered"@,
        code == OpenPitRejectCode::AccountBlocked ==> code.spec_value() == 28 && code.spec_name() == "AccountBlocked"@,
        code == OpenPitRejectCode::AccountNotAuthorized ==> code.spec_value() == 29 && code.spec_name() == "AccountNotAuthorized"@,
        code == OpenPitRejectCode::ComplianceRestriction ==> code.spec_value() == 30 && code.spec_name() == "ComplianceRestriction"@,
        code == OpenPitRejectCode::InstrumentRestricted ==> code.spec_value() == 31 && code.spec_name() == "InstrumentRestricted"@,
        code == OpenPitRejectCode::JurisdictionRestriction ==> code.spec_value() == 32 && code.spec_name() == "JurisdictionRestriction"@,
        code == OpenPitRejectCode::WashTradePrevention ==> code.spec_value() == 33 && code.spec_name() == "WashTradePrevention"@,
        code == OpenPitRejectCode::SelfMatchPrevention ==> code.spec_value() == 34 && code.spec_name() == "SelfMatchPrevention"@,
        code == OpenPitRejectCode::ShortSaleRestriction ==> code.spec_value() == 35 && code.spec_name() == "ShortSaleRestriction"@,
        code == OpenPitRejectCode::RiskConfigurationMissing ==> code.spec_value() == 36 && code.spec_name() == "RiskConfigurationMissing"@,
        code == OpenPitRejectCode::ReferenceDataUnavailable ==> code.spec_value() == 37 && code.spec_name() == "ReferenceDataUnavailable"@,
        code == OpenPitRejectCode::OrderValueCalculationFailed ==> code.spec_value() == 38 && code.spec_name() == "OrderValueCalculationFailed"@,
        code == OpenPitRejectCode::SystemUnavailable ==> code.spec_value() == 39 && code.spec_name() == "SystemUnavailable"@,
        code == OpenPitRejectCode::Custom ==> code.spec_value() == 254 && code.spec_name() == "Custom"@,
        code == OpenPitRejectCode::Other ==> code.spec_value() == 255 && code.spec_name() == "Other"@,
{
}

/// Law: the wire values of the reject scopes: 1 for an order, 2 for an
/// account.
pub proof fn lemma_reject_scope_table()
    ensures
        OpenPitRejectScope::Order.spec_value() == 1,
        OpenPitRejectScope::Account.spec_value() == 2,
{
}

/// Owned reject record.
#[derive(Clone, Debug, PartialEq, Eq)]
pub struct RejectRecord {
    /// Policy name that produced the reject.
    pub policy: String,
    /// Human-readable reject reason.
    pub reason: String,
    /// Case-specific reject details.
    pub details: String,
    /// Opaque caller-defined token; 0 means not set.
    pub user_data: usize,
    /// Stable machine-readable reject code.
    pub code: OpenPitRejectCode,
    /// Reject scope.
    pub scope: OpenPitRejectScope,
}

/// Single rejection record returned by checks, its texts borrowed.
#[derive(Clone, Copy, Debug, PartialEq, Eq)]
pub struct OpenPitReject<'a> {
    /// Policy name that produced the reject.
    pub policy: OpenPitStringView<'a>,
    /// Human-readable reject reason.
    pub reason: OpenPitStringView<'a>,
    /// Case-specific reject details.
    pub details: OpenPitStringView<'a>,
    /// Opaque caller-defined token; 0 means not set. Never inspected.
    pub user_data: usize,
    /// Stable machine-readable reject code.
    pub code: OpenPitRejectCode,
    /// Reject scope.
    pub scope: OpenPitRejectScope,
}

/// Whether a record holds what a borrowed reject view designates.
pub open spec fn record_of_view(r: RejectRecord, v: OpenPitReject) -> bool {
    &&& r.policy@ == view_text(v.policy)
    &&& r.reason@ == view_text(v.reason)
    &&& r.details@ == view_text(v.details)
    &&& r.user_data == v.user_data
    &&& r.code == v.code
    &&& r.scope == v.scope
}

/// Whether every text of a reject view can be read.
pub open spec fn reject_view_readable(v: OpenPitReject) -> bool {
    v.policy.readable() && v.reason.readable() && v.details.readable()
}

/// A view of a string's bytes.
fn view_of(s: &String) -> (res: OpenPitStringView<'_>)
    ensures
        res.readable(),
        res.ptr.target() is Some,
        view_text(res) == s@,
{
    let res = OpenPitStringView::from_utf8(s.as_str());
    proof {
        crate::text::lemma_view_text_of_str(res, s@);
    }
    res
}

impl<'a> OpenPitReject<'a> {
    /// A view of a record: its texts borrowed from the record.
    pub fn from_reject(inner: &'a RejectRecord) -> (res: Self)
        ensures
            reject_view_readable(res),
            record_of_view(*inner, res),
    {
        OpenPitReject {
            policy: view_of(&inner.policy),
            reason: view_of(&inner.reason),
            details: view_of(&inner.details),
            user_data: inner.user_data,
            code: inner.code,
            scope: inner.scope,
        }
    }

    /// A record holding copies of the view's texts.
    pub fn to_reject(self) -> (res: RejectRecord)
        requires
            reject_view_readable(self),
        ensures
            record_of_view(res, self),
    {
        RejectRecord {
            policy: import_string(self.policy),
            reason: import_string(self.reason),
            details: import_string(self.details),
            user_data: self.user_data,
            code: self.code,
            scope: self.scope,
        }
    }
}

/// Law: a record copied back from a view of a record equals it.
pub proof fn lemma_reject_view_round_trip(r: RejectRecord, v: OpenPitReject, back: RejectRecord)
    requires
        record_of_view(r, v),
        record_of_view(back, v),
    ensures
        back.policy@ == r.policy@,
        back.reason@ == r.reason@,
        back.details@ == r.details@,
        back.user_data == r.user_data,
        back.code == r.code,
        back.scope == r.scope,
{
}

/// Caller-owned list of rejects.
pub struct OpenPitRejectList {
    items: Vec<RejectRecord>,
}

impl View for OpenPitRejectList {
    type V = Seq<RejectRecord>;

    closed spec fn view(&self) -> Seq<RejectRecord> {
        self.items@
    }
}

impl OpenPitRejectList {
    /// An empty list with room for `reserve` rejects.
    pub fn new(reserve: usize) -> (res: Self)
        ensures
            res@.len() == 0,
    {
        OpenPitRejectList { items: Vec::with_capacity(reserve) }
    }

    /// A list holding `items`, in order.
    pub fn from_records(items: Vec<RejectRecord>) -> (res: Self)
        ensures
            res@ == items@,
    {
        OpenPitRejectList { items }
    }

    /// The records, in order.
    pub fn records(&self) -> (res: &[RejectRecord])
        ensures
            res@ == self@,
    {
        self.items.as_slice()
    }

    /// The records, taken out of the list.
    pub fn into_records(self) -> (res: Vec<RejectRecord>)
        ensures
            res@ == self@,
    {
        self.items
    }

    /// Appends a copy of `reject`.
    pub fn push(&mut self, reject: OpenPitReject)
        requires
            reject_view_readable(reject),
        ensures
            final(self)@.len() == old(self)@.len() + 1,
            final(self)@.take(old(self)@.len() as int) == old(self)@,
            record_of_view(final(self)@[old(self)@.len() as int], reject),
    {
        let record = reject.to_reject();
        self.items.push(record);
        assert(self@.take(old(self)@.len() as int) =~= old(self)@);
    }

    /// Appends a record.
    pub fn push_record(&mut self, record: RejectRecord)
        ensures
            final(self)@ == old(self)@.push(record),
    {
        self.items.push(record);
    }

    /// Number of rejects.
    pub fn len(&self) -> (res: usize)
        ensures
            res == self@.len(),
    {
        self.items.len()
    }

    /// A view of the reject at `index`, borrowing the list's texts; `None`
    /// when `index` is out of bounds.
    pub fn get(&self, index: usize) -> (res: Option<OpenPitReject<'_>>)
        ensures
            index < self@.len() ==> (res matches Some(v) && reject_view_readable(v)
                && record_of_view(self@[index as int], v)),
            index >= self@.len() ==> res is None,
    {
        if index < self.items.len() {
            Some(OpenPitReject::from_reject(&self.items[index]))
        } else {
            None
        }
    }
}

/// A new caller-owned, empty reject list with room for `reserve` rejects.
pub fn openpit_create_reject_list(reserve: usize) -> (res: Box<OpenPitRejectList>)
    ensures
        res@.len() == 0,
{
    Box::new(OpenPitRejectList::new(reserve))
}

/// Appends a copy of `reject` to `list`.
pub fn openpit_reject_list_push(list: &mut OpenPitRejectList, reject: OpenPitReject)
    requires
        reject_view_readable(reject),
    ensures
        final(list)@.len() == old(list)@.len() + 1,
        final(list)@.take(old(list)@.len() as int) == old(list)@,
        record_of_view(final(list)@[old(list)@.len() as int], reject),
{
    list.push(reject);
}

/// Number of rejects in `list`.
pub fn openpit_reject_list_len(list: &OpenPitRejectList) -> (res: usize)
    ensures
        res == list@.len(),
{
    list.len()
}

/// A view of the reject at `index` of `list`, borrowing the list's texts;
/// `None` when `index` is out of bounds.
pub fn openpit_reject_list_get(list: &OpenPitRejectList, index: usize) -> (res: Option<OpenPitReject<'_>>)
    ensures
        index < list@.len() ==> (res matches Some(v) && reject_view_readable(v) && record_of_view(
            list@[index as int],
            v,
        )),
        index >= list@.len() ==> res is None,
{
    list.get(index)
}

} // verus!
