//! Arguments of the runtime reconfiguration of the built-in policies: each
//! axis that the caller marks as present is read and parsed into its
//! replacement; axes left out are kept by the policy.

use crate::engine::{OpenPitConfigureError, OpenPitConfigureErrorKind};
use crate::param::OpenPitParamPnl;
use crate::policy::{
    limit_error, limit_ok, limit_parsed, parse_configure_limit, parse_order_size_account_asset_barriers,
    parse_order_size_asset_barriers, parse_pnl_account_barrier_updates, parse_pnl_broker_barriers,
    parse_settlement_asset, pnl_brokers_ok, pnl_brokers_parsed, pnl_brokers_refused, pnl_update_error,
    pnl_update_ok, pnl_update_parsed, settlement_code, settlement_error, size_account_assets_ok,
    size_account_assets_parsed, size_account_assets_refused, size_assets_ok, size_assets_parsed,
    size_assets_refused, indexed, OpenPitPretradePoliciesOrderSizeAccountAssetBarrier,
    OpenPitPretradePoliciesOrderSizeAssetBarrier, OpenPitPretradePoliciesOrderSizeBrokerBarrier,
    OpenPitPretradePoliciesPnlBoundsAccountBarrierUpdate, OpenPitPretradePoliciesPnlBoundsBarrier,
    OrderSizeAccountAssetRule, OrderSizeAssetRule, OrderSizeLimitRule, PnlBoundsAccountUpdateRule,
    PnlBoundsRule,
    array_arg, cstr_arg, cstr_text, null_array_message, parse_rate_limit_account_asset_barriers,
    parse_rate_limit_asset_barriers, rate_account_assets_ok, rate_account_assets_parsed,
    rate_account_assets_refused, rate_assets_ok, rate_assets_parsed, rate_assets_refused,
    read_array_arg, OpenPitPretradePoliciesRateLimitAccountAssetBarrier,
    OpenPitPretradePoliciesRateLimitAccountBarrier, OpenPitPretradePoliciesRateLimitAssetBarrier,
    OpenPitPretradePoliciesRateLimitBrokerBarrier, RateLimitAccountAssetRule, RateLimitAssetRule,
};
use crate::string::OpenPitStringView;
use vstd::prelude::*;
use vstd::string::StringExecFns;

verus! {

/// Whether `e` is a validation error with message `m`.
pub open spec fn is_validation(e: OpenPitConfigureError, m: Seq<char>) -> bool {
    e.spec_kind() == OpenPitConfigureErrorKind::Validation && e.spec_message() == m
}

/// The message for a policy name that cannot be read.
pub open spec fn bad_name_message() -> Seq<char> {
    "policy name is null or invalid UTF-8"@
}

/// The name of the policy to reconfigure; a null or non-UTF-8 name is a
/// validation error.
pub fn configure_policy_name(name: OpenPitStringView) -> (res: Result<String, OpenPitConfigureError>)
    requires
        name.readable(),
    ensures
        match res {
            Ok(n) => cstr_text(name) == Some(n@),
            Err(e) => cstr_text(name) is None && is_validation(e, bad_name_message()),
        },
{
    match cstr_arg(name) {
        Some(n) => Ok(n),
        None => Err(OpenPitConfigureError::validation(String::from_str("policy name is null or invalid UTF-8"))),
    }
}

/// An array argument of a reconfiguration: a null pointer with a length is a
/// validation error.
pub fn read_configure_array<'a, T>(items: Option<&'a [T]>, len: usize, label: &str) -> (res: Result<
    &'a [T],
    OpenPitConfigureError,
>)
    requires
        items matches Some(s) ==> len <= s@.len(),
    ensures
        match res {
            Ok(es) => array_arg(items, len) == Some(es@),
            Err(e) => array_arg(items, len) is None && is_validation(e, null_array_message(label@)),
        },
{
    match read_array_arg(items, len, label) {
        Ok(es) => Ok(es),
        Err(m) => Err(OpenPitConfigureError::validation(m)),
    }
}

/// The replacement axes of a rate-limit policy; `None` keeps an axis.
pub struct RateLimitUpdate {
    /// Name of the policy to reconfigure.
    pub name: String,
    /// Replacement broker barrier (itself optional: `Some(None)` removes it).
    pub broker: Option<Option<OpenPitPretradePoliciesRateLimitBrokerBarrier>>,
    /// Replacement per-asset barriers.
    pub asset: Option<Vec<RateLimitAssetRule>>,
    /// Replacement per-account barriers.
    pub account: Option<Vec<OpenPitPretradePoliciesRateLimitAccountBarrier>>,
    /// Replacement per-(account, asset) barriers.
    pub account_asset: Option<Vec<RateLimitAccountAssetRule>>,
}

/// The arguments of a rate-limit reconfiguration: the name, then the asset
/// array (read and parsed), the account array and the account-asset array
/// (read and parsed), each only when marked present; the first refusal is
/// reported as a validation error.
pub fn rate_limit_update(
    name: OpenPitStringView,
    broker: Option<OpenPitPretradePoliciesRateLimitBrokerBarrier>,
    has_broker: bool,
    asset: Option<&[OpenPitPretradePoliciesRateLimitAssetBarrier]>,
    asset_len: usize,
    has_asset: bool,
    account: Option<&[OpenPitPretradePoliciesRateLimitAccountBarrier]>,
    account_len: usize,
    has_account: bool,
    account_asset: Option<&[OpenPitPretradePoliciesRateLimitAccountAssetBarrier]>,
    account_asset_len: usize,
    has_account_asset: bool,
) -> (res: Result<RateLimitUpdate, OpenPitConfigureError>)
    requires
        name.readable(),
        asset matches Some(s) ==> asset_len <= s@.len() && forall|k: int|
            0 <= k < asset_len ==> (#[trigger] s@[k]).settlement_asset.readable(),
        account matches Some(s) ==> account_len <= s@.len(),
        account_asset matches Some(s) ==> account_asset_len <= s@.len() && forall|k: int|
            0 <= k < account_asset_len ==> (#[trigger] s@[k]).settlement_asset.readable(),
    ensures
        cstr_text(name) is None ==> (res matches Err(e) && is_validation(e, bad_name_message())),
        cstr_text(name) matches Some(n) ==> if has_asset && array_arg(asset, asset_len) is None {
            res matches Err(e) && is_validation(e, null_array_message("rate_limit asset"@))
        } else if has_asset && !rate_assets_ok(array_arg(asset, asset_len)->0) {
            res matches Err(e) && e.spec_kind() == OpenPitConfigureErrorKind::Validation && rate_assets_refused(
                array_arg(asset, asset_len)->0,
                "asset"@,
                e.spec_message(),
            )
        } else if has_account && array_arg(account, account_len) is None {
            res matches Err(e) && is_validation(e, null_array_message("rate_limit account"@))
        } else if has_account_asset && array_arg(account_asset, account_asset_len) is None {
            res matches Err(e) && is_validation(e, null_array_message("rate_limit account_asset"@))
        } else if has_account_asset && !rate_account_assets_ok(array_arg(account_asset, account_asset_len)->0) {
            res matches Err(e) && e.spec_kind() == OpenPitConfigureErrorKind::Validation
                && rate_account_assets_refused(
                array_arg(account_asset, account_asset_len)->0,
                "account_asset"@,
                e.spec_message(),
            )
        } else {
            res matches Ok(u) && u.name@ == n && u.broker == (if has_broker {
                Some(broker)
            } else {
                None
            }) && (if has_asset {
                u.asset matches Some(rules) && rate_assets_parsed(array_arg(asset, asset_len)->0, rules@)
            } else {
                u.asset is None
            }) && (if has_account {
                u.account matches Some(es) && es@ == array_arg(account, account_len)->0
            } else {
                u.account is None
            }) && (if has_account_asset {
                u.account_asset matches Some(rules) && rate_account_assets_parsed(
                    array_arg(account_asset, account_asset_len)->0,
                    rules@,
                )
            } else {
                u.account_asset is None
            })
        },
{
    let name = match configure_policy_name(name) {
        Ok(n) => n,
        Err(e) => return Err(e),
    };
    let broker = if has_broker {
        Some(broker)
    } else {
        None
    };
    let asset_rules = if has_asset {
        let entries = match read_configure_array(asset, asset_len, "rate_limit asset") {
            Ok(es) => es,
            Err(e) => return Err(e),
        };
        match parse_rate_limit_asset_barriers(entries, "asset") {
            Ok(rules) => Some(rules),
            Err(m) => return Err(OpenPitConfigureError::validation(m)),
        }
    } else {
        None
    };
    let accounts = if has_account {
        match read_configure_array(account, account_len, "rate_limit account") {
            Ok(es) => Some(vstd::slice::slice_to_vec(es)),
            Err(e) => return Err(e),
        }
    } else {
        None
    };
    let account_asset_rules = if has_account_asset {
        let entries = match read_configure_array(account_asset, account_asset_len, "rate_limit account_asset") {
            Ok(es) => es,
            Err(e) => return Err(e),
        };
        match parse_rate_limit_account_asset_barriers(entries, "account_asset") {
            Ok(rules) => Some(rules),
            Err(m) => return Err(OpenPitConfigureError::validation(m)),
        }
    } else {
        None
    };
    Ok(RateLimitUpdate { name, broker, asset: asset_rules, account: accounts, account_asset: account_asset_rules })
}

/// The settlement asset code of entry `index` of array `label` given at
/// runtime: refused as a validation error.
pub fn parse_configure_asset(view: OpenPitStringView, label: &str, index: usize) -> (res: Result<
    String,
    OpenPitConfigureError,
>)
    requires
        view.readable(),
    ensures
        match res {
            Ok(code) => settlement_code(view) == Some(code@),
            Err(e) => settlement_code(view) is None && is_validation(e, settlement_error(view, label@, index as nat)),
        },
{
    match parse_settlement_asset(view, label, index) {
        Ok(code) => Ok(code),
        Err(m) => Err(OpenPitConfigureError::validation(m)),
    }
}

/// The replacement axes of an order-size limit policy; `None` keeps an axis.
pub struct OrderSizeLimitUpdate {
    /// Name of the policy to reconfigure.
    pub name: String,
    /// Replacement broker limits (itself optional: `Some(None)` removes them).
    pub broker: Option<Option<OrderSizeLimitRule>>,
    /// Replacement per-asset barriers.
    pub asset: Option<Vec<OrderSizeAssetRule>>,
    /// Replacement per-(account, asset) barriers.
    pub account_asset: Option<Vec<OrderSizeAccountAssetRule>>,
}

/// The arguments of an order-size limit reconfiguration: the name, the
/// broker limits, then the asset array and the account-asset array (each
/// read and parsed), each only when marked present; the first refusal is
/// reported as a validation error.
pub fn order_size_limit_update(
    name: OpenPitStringView,
    broker: Option<OpenPitPretradePoliciesOrderSizeBrokerBarrier>,
    has_broker: bool,
    asset: Option<&[OpenPitPretradePoliciesOrderSizeAssetBarrier]>,
    asset_len: usize,
    has_asset: bool,
    account_asset: Option<&[OpenPitPretradePoliciesOrderSizeAccountAssetBarrier]>,
    account_asset_len: usize,
    has_account_asset: bool,
) -> (res: Result<OrderSizeLimitUpdate, OpenPitConfigureError>)
    requires
        name.readable(),
        asset matches Some(s) ==> asset_len <= s@.len() && forall|k: int|
            0 <= k < asset_len ==> (#[trigger] s@[k]).settlement_asset.readable(),
        account_asset matches Some(s) ==> account_asset_len <= s@.len() && forall|k: int|
            0 <= k < account_asset_len ==> (#[trigger] s@[k]).settlement_asset.readable(),
    ensures
        cstr_text(name) is None ==> (res matches Err(e) && is_validation(e, bad_name_message())),
        cstr_text(name) matches Some(n) ==> if has_broker && broker is Some && !limit_ok(broker->0.limit) {
            res matches Err(e) && is_validation(e, limit_error(broker->0.limit, indexed("broker"@, 0)))
        } else if has_asset && array_arg(asset, asset_len) is None {
            res matches Err(e) && is_validation(e, null_array_message("order_size_limit asset"@))
        } else if has_asset && !size_assets_ok(array_arg(asset, asset_len)->0) {
            res matches Err(e) && e.spec_kind() == OpenPitConfigureErrorKind::Validation && size_assets_refused(
                array_arg(asset, asset_len)->0,
                "asset"@,
                e.spec_message(),
            )
        } else if has_account_asset && array_arg(account_asset, account_asset_len) is None {
            res matches Err(e) && is_validation(e, null_array_message("order_size_limit account_asset"@))
        } else if has_account_asset && !size_account_assets_ok(array_arg(account_asset, account_asset_len)->0) {
            res matches Err(e) && e.spec_kind() == OpenPitConfigureErrorKind::Validation
                && size_account_assets_refused(
                array_arg(account_asset, account_asset_len)->0,
                "account_asset"@,
                e.spec_message(),
            )
        } else {
            res matches Ok(u) && u.name@ == n && (if has_broker {
                match broker {
                    Some(b) => u.broker matches Some(Some(r)) && limit_parsed(b.limit, r),
                    None => u.broker == Some(None::<OrderSizeLimitRule>),
                }
            } else {
                u.broker is None
            }) && (if has_asset {
                u.asset matches Some(rules) && size_assets_parsed(array_arg(asset, asset_len)->0, rules@)
            } else {
                u.asset is None
            }) && (if has_account_asset {
                u.account_asset matches Some(rules) && size_account_assets_parsed(
                    array_arg(account_asset, account_asset_len)->0,
                    rules@,
                )
            } else {
                u.account_asset is None
            })
        },
{
    let name = match configure_policy_name(name) {
        Ok(n) => n,
        Err(e) => return Err(e),
    };
    let broker_rule = if has_broker {
        match broker {
            Some(b) => match parse_configure_limit(b.limit, "broker", 0) {
                Ok(r) => Some(Some(r)),
                Err(e) => return Err(e),
            },
            None => Some(None),
        }
    } else {
        None
    };
    let asset_rules = if has_asset {
        let entries = match read_configure_array(asset, asset_len, "order_size_limit asset") {
            Ok(es) => es,
            Err(e) => return Err(e),
        };
        match parse_order_size_asset_barriers(entries, "asset") {
            Ok(rules) => Some(rules),
            Err(m) => return Err(OpenPitConfigureError::validation(m)),
        }
    } else {
        None
    };
    let account_asset_rules = if has_account_asset {
        let entries = match read_configure_array(
            account_asset,
            account_asset_len,
            "order_size_limit account_asset",
        ) {
            Ok(es) => es,
            Err(e) => return Err(e),
        };
        match parse_order_size_account_asset_barriers(entries, "account_asset") {
            Ok(rules) => Some(rules),
            Err(m) => return Err(OpenPitConfigureError::validation(m)),
        }
    } else {
        None
    };
    Ok(OrderSizeLimitUpdate { name, broker: broker_rule, asset: asset_rules, account_asset: account_asset_rules })
}

/// Whether every account P&L barrier update parses.
pub open spec fn pnl_updates_ok(es: Seq<OpenPitPretradePoliciesPnlBoundsAccountBarrierUpdate>) -> bool {
    forall|k: int| 0 <= k < es.len() ==> pnl_update_ok(#[trigger] es[k])
}

/// Whether `m` reports the first account P&L barrier update that does not parse.
pub open spec fn pnl_updates_refused(
    es: Seq<OpenPitPretradePoliciesPnlBoundsAccountBarrierUpdate>,
    label: Seq<char>,
    m: Seq<char>,
) -> bool {
    exists|i: int|
        0 <= i < es.len() && !pnl_update_ok(#[trigger] es[i]) && m == pnl_update_error(es[i], label, i as nat)
            && forall|k: int| 0 <= k < i ==> pnl_update_ok(#[trigger] es[k])
}

/// Whether `rules` are the parses of account P&L barrier updates.
pub open spec fn pnl_updates_parsed(
    es: Seq<OpenPitPretradePoliciesPnlBoundsAccountBarrierUpdate>,
    rules: Seq<PnlBoundsAccountUpdateRule>,
) -> bool {
    rules.len() == es.len() && forall|k: int| 0 <= k < es.len() ==> pnl_update_parsed(#[trigger] es[k], rules[k])
}

/// The replacement axes of a P&L bounds kill-switch policy; `None` keeps an axis.
pub struct PnlBoundsUpdate {
    /// Name of the policy to reconfigure.
    pub name: String,
    /// Replacement broker barriers.
    pub broker: Option<Vec<PnlBoundsRule>>,
    /// Replacement per-(account, asset) barriers; live P&L is kept.
    pub account: Option<Vec<PnlBoundsAccountUpdateRule>>,
}

/// The arguments of a P&L bounds kill-switch reconfiguration: the name, then
/// the broker array and the account array (each read and parsed), each only
/// when marked present; the first refusal is reported as a validation error.
pub fn pnl_bounds_killswitch_update(
    name: OpenPitStringView,
    broker: Option<&[OpenPitPretradePoliciesPnlBoundsBarrier]>,
    broker_len: usize,
    has_broker: bool,
    account: Option<&[OpenPitPretradePoliciesPnlBoundsAccountBarrierUpdate]>,
    account_len: usize,
    has_account: bool,
) -> (res: Result<PnlBoundsUpdate, OpenPitConfigureError>)
    requires
        name.readable(),
        broker matches Some(s) ==> broker_len <= s@.len() && forall|k: int|
            0 <= k < broker_len ==> (#[trigger] s@[k]).settlement_asset.readable(),
        account matches Some(s) ==> account_len <= s@.len() && forall|k: int|
            0 <= k < account_len ==> (#[trigger] s@[k]).settlement_asset.readable(),
    ensures
        cstr_text(name) is None ==> (res matches Err(e) && is_validation(e, bad_name_message())),
        cstr_text(name) matches Some(n) ==> if has_broker && array_arg(broker, broker_len) is None {
            res matches Err(e) && is_validation(e, null_array_message("pnl_bounds broker"@))
        } else if has_broker && !pnl_brokers_ok(array_arg(broker, broker_len)->0) {
            res matches Err(e) && e.spec_kind() == OpenPitConfigureErrorKind::Validation && pnl_brokers_refused(
                array_arg(broker, broker_len)->0,
                "broker"@,
                e.spec_message(),
            )
        } else if has_account && array_arg(account, account_len) is None {
            res matches Err(e) && is_validation(e, null_array_message("pnl_bounds account"@))
        } else if has_account && !pnl_updates_ok(array_arg(account, account_len)->0) {
            res matches Err(e) && e.spec_kind() == OpenPitConfigureErrorKind::Validation && pnl_updates_refused(
                array_arg(account, account_len)->0,
                "account"@,
                e.spec_message(),
            )
        } else {
            res matches Ok(u) && u.name@ == n && (if has_broker {
                u.broker matches Some(rules) && pnl_brokers_parsed(array_arg(broker, broker_len)->0, rules@)
            } else {
                u.broker is None
            }) && (if has_account {
                u.account matches Some(rules) && pnl_updates_parsed(array_arg(account, account_len)->0, rules@)
            } else {
                u.account is None
            })
        },
{
    let name = match configure_policy_name(name) {
        Ok(n) => n,
        Err(e) => return Err(e),
    };
    let broker_rules = if has_broker {
        let entries = match read_configure_array(broker, broker_len, "pnl_bounds broker") {
            Ok(es) => es,
            Err(e) => return Err(e),
        };
        match parse_pnl_broker_barriers(entries, "broker") {
            Ok(rules) => Some(rules),
            Err(m) => return Err(OpenPitConfigureError::validation(m)),
        }
    } else {
        None
    };
    let account_rules = if has_account {
        let entries = match read_configure_array(account, account_len, "pnl_bounds account") {
            Ok(es) => es,
            Err(e) => return Err(e),
        };
        match parse_pnl_account_barrier_updates(entries, "account") {
            Ok(rules) => Some(rules),
            Err(m) => return Err(OpenPitConfigureError::validation(m)),
        }
    } else {
        None
    };
    Ok(PnlBoundsUpdate { name, broker: broker_rules, account: account_rules })
}

/// An override of the accumulated P&L of one account and settlement asset.
pub struct AccountPnlOverride {
    /// Name of the policy to reconfigure.
    pub name: String,
    /// Account id.
    pub account_id: u64,
    /// Settlement asset code.
    pub settlement_asset: String,
    /// The new accumulated P&L, serialized.
    pub pnl: [u8; 16],
}

/// The arguments of an accumulated P&L override: the name, the settlement
/// asset, then the P&L value; the first refusal is reported as a validation
/// error.
pub fn set_account_pnl_arguments(
    name: OpenPitStringView,
    account_id: u64,
    settlement_asset: OpenPitStringView,
    pnl: OpenPitParamPnl,
) -> (res: Result<AccountPnlOverride, OpenPitConfigureError>)
    requires
        name.readable(),
        settlement_asset.readable(),
    ensures
        cstr_text(name) is None ==> (res matches Err(e) && is_validation(e, bad_name_message())),
        cstr_text(name) matches Some(n) ==> if settlement_code(settlement_asset) is None {
            res matches Err(e) && is_validation(
                e,
                settlement_error(settlement_asset, "pnl_bounds settlement"@, 0),
            )
        } else if !pnl.0.is_valid() {
            res matches Err(e) && is_validation(e, "pnl is invalid: "@ + pnl.0.spec_error().spec_message())
        } else {
            res matches Ok(o) && o.name@ == n && o.account_id == account_id && settlement_code(settlement_asset)
                == Some(o.settlement_asset@) && o.pnl@ == pnl.0.spec_bits()
        },
{
    let name = match configure_policy_name(name) {
        Ok(n) => n,
        Err(e) => return Err(e),
    };
    let settlement = match parse_configure_asset(settlement_asset, "pnl_bounds settlement", 0) {
        Ok(code) => code,
        Err(e) => return Err(e),
    };
    let value = match pnl.0.to_bits() {
        Ok(bits) => bits,
        Err(e) => return Err(OpenPitConfigureError::validation(String::from_str("pnl is invalid: ").concat(e.message()))),
    };
    Ok(AccountPnlOverride { name, account_id, settlement_asset: settlement, pnl: value })
}

} // verus!
