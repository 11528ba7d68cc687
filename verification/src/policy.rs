//! Arguments of the built-in and custom pre-trade policies: policy names,
//! settlement assets, optional P&L bounds, barrier arrays, policy handles,
//! and the outcome of a custom callback's reject list.

use crate::engine::{
    spec_add_policy, BuilderPhase, OpenPitConfigureError, OpenPitConfigureErrorKind,
};
use crate::instrument::{asset_code, empty_asset_message};
use crate::param::{
    DecimalParamError, OpenPitParamDecimal, OpenPitParamPnl, OpenPitParamPnlOptional,
    OpenPitParamQuantity, OpenPitParamVolume,
};
use crate::reject::{OpenPitRejectList, RejectRecord};
use crate::string::OpenPitStringView;
use crate::text::{decimal_string, decimal_text, str_from_utf8, trimmed_text};
use std::sync::Arc;
use vstd::prelude::*;
use vstd::string::StringExecFns;

verus! {

/// The text a borrowed string argument holds: `None` when the pointer is
/// null or the bytes are not UTF-8.
pub open spec fn cstr_text(view: OpenPitStringView) -> Option<Seq<char>> {
    if view.ptr.target() is None {
        None
    } else if vstd::utf8::valid_utf8(view.spec_bytes()) {
        Some(vstd::utf8::decode_utf8(view.spec_bytes()))
    } else {
        None
    }
}

/// Copies a borrowed string argument (see `cstr_text`).
pub fn cstr_arg(view: OpenPitStringView) -> (res: Option<String>)
    requires
        view.readable(),
    ensures
        match res {
            Some(text) => cstr_text(view) == Some(text@),
            None => cstr_text(view) is None,
        },
{
    let bytes = match view.ptr.bytes() {
        None => return None,
        Some(bytes) => bytes,
    };
    match str_from_utf8(vstd::slice::slice_subrange(bytes, 0, view.len)) {
        Ok(text) => Some(String::from_str(text)),
        Err(_) => None,
    }
}

/// Why a custom policy name is refused.
#[derive(Clone, Copy, Debug, PartialEq, Eq, Structural)]
pub enum PolicyNameError {
    /// The name pointer is null.
    Null,
    /// The name is not valid UTF-8.
    NotValidString,
    /// The name is empty.
    Empty,
}

impl PolicyNameError {
    /// The message reporting the error.
    pub open spec fn spec_message(self) -> Seq<char> {
        match self {
            PolicyNameError::Null => "policy name is null"@,
            PolicyNameError::NotValidString => "policy name is not valid string"@,
            PolicyNameError::Empty => "policy name is empty"@,
        }
    }

    /// The message reporting the error.
    pub fn message(self) -> (res: &'static str)
        ensures
            res@ == self.spec_message(),
    {
        match self {
            PolicyNameError::Null => "policy name is null",
            PolicyNameError::NotValidString => "policy name is not valid string",
            PolicyNameError::Empty => "policy name is empty",
        }
    }
}

/// The name a custom policy is created with: a non-empty UTF-8 text.
pub fn parse_policy_name(name: OpenPitStringView) -> (res: Result<String, PolicyNameError>)
    requires
        name.readable(),
    ensures
        match res {
            Ok(text) => cstr_text(name) == Some(text@) && text@.len() > 0,
            Err(PolicyNameError::Null) => name.ptr.target() is None,
            Err(PolicyNameError::NotValidString) => name.ptr.target() is Some && cstr_text(name) is None,
            Err(PolicyNameError::Empty) => cstr_text(name) == Some(Seq::<char>::empty()),
        },
{
    let bytes = match name.ptr.bytes() {
        None => return Err(PolicyNameError::Null),
        Some(bytes) => bytes,
    };
    let text = match str_from_utf8(vstd::slice::slice_subrange(bytes, 0, name.len)) {
        Ok(text) => text,
        Err(_) => return Err(PolicyNameError::NotValidString),
    };
    if text.is_empty() {
        return Err(PolicyNameError::Empty);
    }
    Ok(String::from_str(text))
}

/// `label[index]`, the prefix of an entry's error messages.
pub open spec fn indexed(label: Seq<char>, index: nat) -> Seq<char> {
    label + "["@ + decimal_text(index) + "]"@
}

/// `label[index]` as text.
fn indexed_string(label: &str, index: usize) -> (res: String)
    ensures
        res@ == indexed(label@, index as nat),
{
    String::from_str(label).concat("[").concat(decimal_string(index as u64).as_str()).concat("]")
}

/// The settlement asset code an argument holds, if it holds a valid one.
pub open spec fn settlement_code(view: OpenPitStringView) -> Option<Seq<char>> {
    match cstr_text(view) {
        Some(text) => if trimmed_text(text).len() > 0 {
            Some(text)
        } else {
            None
        },
        None => None,
    }
}

/// The message for a settlement asset argument that holds no valid code.
pub open spec fn settlement_error(view: OpenPitStringView, label: Seq<char>, index: nat) -> Seq<char> {
    if cstr_text(view) is None {
        indexed(label, index) + " settlement_asset is not set"@
    } else {
        indexed(label, index) + " settlement_asset is invalid: "@ + empty_asset_message()
    }
}

/// The settlement asset code of entry `index` of array `label`.
pub fn parse_settlement_asset(view: OpenPitStringView, label: &str, index: usize) -> (res: Result<String, String>)
    requires
        view.readable(),
    ensures
        match res {
            Ok(code) => settlement_code(view) == Some(code@),
            Err(m) => settlement_code(view) is None && m@ == settlement_error(view, label@, index as nat),
        },
{
    let text = match cstr_arg(view) {
        Some(text) => text,
        None => return Err(indexed_string(label, index).concat(" settlement_asset is not set")),
    };
    match asset_code(text.as_str()) {
        Some(code) => Ok(code),
        None => Err(
            indexed_string(label, index).concat(" settlement_asset is invalid: ").concat(
                "asset must not be empty",
            ),
        ),
    }
}

/// The P&L value of an optional bound, when set and valid.
pub open spec fn optional_pnl_ok(bound: OpenPitParamPnlOptional) -> bool {
    !bound.is_set || bound.value.0.is_valid()
}

/// Whether `r` is the parse of an optional P&L bound.
pub open spec fn optional_pnl_parsed(bound: OpenPitParamPnlOptional, r: Option<[u8; 16]>) -> bool {
    if bound.is_set {
        r matches Some(b) && b@ == bound.value.0.spec_bits()
    } else {
        r is None
    }
}

/// The message for an invalid optional P&L bound.
pub open spec fn pnl_error(prefix: Seq<char>, field: Seq<char>, d: OpenPitParamDecimal) -> Seq<char> {
    prefix + " "@ + field + " is invalid: "@ + d.spec_error().spec_message()
}

/// Parses the optional P&L bound `field` of entry `index` of array `label`.
pub fn parse_optional_pnl(bound: OpenPitParamPnlOptional, label: &str, index: usize, field: &str) -> (res: Result<
    Option<[u8; 16]>,
    String,
>)
    ensures
        match res {
            Ok(r) => optional_pnl_ok(bound) && optional_pnl_parsed(bound, r),
            Err(m) => !optional_pnl_ok(bound) && m@ == pnl_error(
                indexed(label@, index as nat),
                field@,
                bound.value.0,
            ),
        },
{
    if !bound.is_set {
        return Ok(None);
    }
    match bound.value.0.to_bits() {
        Ok(bits) => Ok(Some(bits)),
        Err(e) => Err(
            indexed_string(label, index).concat(" ").concat(field).concat(" is invalid: ").concat(
                e.message(),
            ),
        ),
    }
}

/// The optional P&L bound `field` of entry `index` of array `label` given
/// at runtime: refused as a validation error of the configuration.
pub fn parse_configure_optional_pnl(
    bound: OpenPitParamPnlOptional,
    label: &str,
    index: usize,
    field: &str,
) -> (res: Result<Option<[u8; 16]>, OpenPitConfigureError>)
    ensures
        match res {
            Ok(r) => optional_pnl_ok(bound) && optional_pnl_parsed(bound, r),
            Err(e) => !optional_pnl_ok(bound) && e.spec_kind() == OpenPitConfigureErrorKind::Validation
                && e.spec_message() == pnl_error(indexed(label@, index as nat), field@, bound.value.0),
        },
{
    match parse_optional_pnl(bound, label, index, field) {
        Ok(r) => Ok(r),
        Err(m) => Err(OpenPitConfigureError::validation(m)),
    }
}

/// The prefix of an array argument's error: `<label> is null`.
pub open spec fn null_array_message(label: Seq<char>) -> Seq<char> {
    label + " is null"@
}

/// The entries an array argument designates: none for a zero length (the
/// pointer is then not read), refused (`None`) for a null pointer with a
/// length, otherwise the first `len` entries.
pub open spec fn array_arg<T>(items: Option<&[T]>, len: usize) -> Option<Seq<T>> {
    if len == 0 {
        Some(Seq::empty())
    } else {
        match items {
            None => None,
            Some(s) => Some(s@.subrange(0, len as int)),
        }
    }
}

/// Reads an array argument (see `array_arg`); `label` names it in the
/// refusal.
pub fn read_array_arg<'a, T>(items: Option<&'a [T]>, len: usize, label: &str) -> (res: Result<&'a [T], String>)
    requires
        items matches Some(s) ==> len <= s@.len(),
    ensures
        match res {
            Ok(es) => array_arg(items, len) == Some(es@),
            Err(m) => array_arg(items, len) is None && m@ == null_array_message(label@),
        },
{
    if len == 0 {
        let empty: &[T] = &[];
        assert(empty@ =~= Seq::<T>::empty());
        return Ok(empty);
    }
    match items {
        None => Err(String::from_str(label).concat(" is null")),
        Some(s) => Ok(vstd::slice::slice_subrange(s, 0, len)),
    }
}

/// The entries of an array argument: empty when the length is zero (the
/// pointer is then not read), refused when the pointer is null with a
/// length, otherwise the first `len` entries.
pub fn try_slice_arg<'a, T>(items: Option<&'a [T]>, len: usize, label: &str) -> (res: Result<
    Option<&'a [T]>,
    String,
>)
    requires
        items matches Some(s) ==> len <= s@.len(),
    ensures
        len == 0 ==> res == Ok::<Option<&[T]>, String>(None),
        len > 0 && items is None ==> (res matches Err(m) && m@ == null_array_message(label@)),
        len > 0 && items is Some ==> (res matches Ok(Some(s)) && s@ == items->0@.subrange(
            0,
            len as int,
        )),
{
    if len == 0 {
        return Ok(None);
    }
    match items {
        None => Err(String::from_str(label).concat(" is null")),
        Some(s) => Ok(Some(vstd::slice::slice_subrange(s, 0, len))),
    }
}

/// Opaque context passed to main-stage custom policy callbacks; valid only
/// during the callback.
pub struct OpenPitPretradeContext;

/// Opaque context passed to account-adjustment custom policy callbacks;
/// valid only during the callback.
pub struct OpenPitAccountAdjustmentContext;

/// Opaque context passed to post-trade custom policy callbacks; valid only
/// during the callback.
pub struct OpenPitPostTradeContext;

/// A policy that reports its stable name.
pub trait GeneralPreTradePolicy {
    /// The name the policy reports.
    spec fn spec_name(&self) -> Seq<char>;

    /// The policy's stable name.
    fn name(&self) -> (res: &str)
        ensures
            res@ == self.spec_name(),
    ;
}

/// What a custom policy is created with, besides its callbacks: its name and
/// the policy group it tags its outcomes with.
pub struct CustomPolicyIdentity {
    /// The policy name.
    pub name: String,
    /// The policy group id (0 for the default group).
    pub policy_group_id: u16,
}

impl GeneralPreTradePolicy for CustomPolicyIdentity {
    open spec fn spec_name(&self) -> Seq<char> {
        self.name@
    }

    fn name(&self) -> (res: &str) {
        self.name.as_str()
    }
}

impl CustomPolicyIdentity {
    /// The identity of a custom policy named by `name`, or why the name is
    /// refused.
    pub fn from_view(name: OpenPitStringView, policy_group_id: u16) -> (res: Result<Self, PolicyNameError>)
        requires
            name.readable(),
        ensures
            match res {
                Ok(identity) => cstr_text(name) == Some(identity.name@) && identity.name@.len() > 0
                    && identity.policy_group_id == policy_group_id,
                Err(PolicyNameError::Null) => name.ptr.target() is None,
                Err(PolicyNameError::NotValidString) => name.ptr.target() is Some && cstr_text(name)
                    is None,
                Err(PolicyNameError::Empty) => cstr_text(name) == Some(Seq::<char>::empty()),
            },
    {
        match parse_policy_name(name) {
            Ok(name) => Ok(CustomPolicyIdentity { name, policy_group_id }),
            Err(e) => Err(e),
        }
    }
}

/// Caller-owned reference to a shared policy.
pub struct PolicyHandle<Policy> {
    policy: Arc<Policy>,
}

impl<Policy: GeneralPreTradePolicy> PolicyHandle<Policy> {
    /// The policy referenced.
    pub closed spec fn spec_policy(&self) -> Policy {
        *self.policy
    }

    /// A new caller-owned reference to `policy`.
    pub fn new(policy: Arc<Policy>) -> (res: Box<Self>)
        ensures
            res.spec_policy() == *policy,
    {
        Box::new(PolicyHandle { policy })
    }

    /// Another reference to the same policy, for the engine to retain.
    pub fn share(&self) -> (res: Arc<Policy>)
        ensures
            *res == self.spec_policy(),
    {
        Arc::clone(&self.policy)
    }

    /// A view of the policy's name, borrowed from the policy.
    pub fn get_name(&self) -> (res: OpenPitStringView<'_>)
        ensures
            res.readable(),
            res.ptr.target() is Some,
            crate::text::view_text(res) == self.spec_policy().spec_name(),
    {
        let name = self.policy.name();
        let view = OpenPitStringView::from_utf8(name);
        proof {
            crate::text::lemma_view_text_of_str(view, name@);
        }
        view
    }
}

/// A view of the name of the policy a handle references.
pub fn openpit_pretrade_pre_trade_policy_get_name<Policy: GeneralPreTradePolicy>(policy: &PolicyHandle<Policy>) -> (res:
    OpenPitStringView<'_>)
    ensures
        res.readable(),
        res.ptr.target() is Some,
        crate::text::view_text(res) == policy.spec_policy().spec_name(),
{
    policy.get_name()
}

/// The policy a handle references, for a builder to retain: refused without
/// a builder, without a policy, or when the builder is consumed; a builder
/// that accepts the policy is ready to build.
pub fn openpit_engine_builder_add_pre_trade_policy<Policy: GeneralPreTradePolicy>(
    builder: Option<&mut BuilderPhase>,
    policy: Option<&PolicyHandle<Policy>>,
) -> (res: Result<Arc<Policy>, String>)
    ensures
        builder is None ==> (res matches Err(m) && m@ == "engine builder is null"@),
        builder is Some && policy is None ==> (res matches Err(m) && m@ == "policy is null"@),
        builder matches Some(b) ==> (policy is None ==> *final(b) == *b),
        builder matches Some(b) ==> (policy matches Some(p) ==> *final(b) == spec_add_policy(*b).0
            && match spec_add_policy(*b).1 {
            Ok(()) => res matches Ok(shared) && *shared == p.spec_policy(),
            Err(e) => res matches Err(m) && m@ == e.spec_message(),
        }),
{
    match builder {
        None => Err(String::from_str("engine builder is null")),
        Some(b) => match policy {
            None => Err(String::from_str("policy is null")),
            Some(p) => {
                let shared = p.share();
                match b.add_policy() {
                    Ok(()) => Ok(shared),
                    Err(e) => Err(String::from_str(e.message())),
                }
            },
        },
    }
}

/// What a custom callback's reject list means: no list or an empty list
/// accepts; otherwise the rejects.
pub fn import_reject_list_result(rejects: Option<OpenPitRejectList>) -> (res: Result<(), Vec<RejectRecord>>)
    ensures
        match rejects {
            None => res is Ok,
            Some(list) => if list@.len() == 0 {
                res is Ok
            } else {
                res matches Err(items) && items@ == list@
            },
        },
{
    match rejects {
        None => Ok(()),
        Some(list) => {
            if list.len() == 0 {
                Ok(())
            } else {
                Err(list.into_records())
            }
        },
    }
}


/// Which callback a stage of a custom policy runs.
#[derive(Clone, Copy, Debug, PartialEq, Eq, Structural)]
pub enum HookCall {
    /// No callback: the stage accepts.
    Accept,
    /// The stage's normal callback.
    Normal,
    /// The stage's dry-run callback.
    DryRun,
}

/// The callback a start-stage or main-stage check of a custom policy runs:
/// a dry run uses the dry-run hook when one is set and otherwise delegates to
/// the normal hook; without a hook to run the stage accepts.
pub fn select_hook(normal_set: bool, dry_run_set: bool, dry_run: bool) -> (res: HookCall)
    ensures
        res == select_hook_spec(normal_set, dry_run_set, dry_run),
{
    if dry_run && dry_run_set {
        HookCall::DryRun
    } else if normal_set {
        HookCall::Normal
    } else {
        HookCall::Accept
    }
}

/// The callback choice of `select_hook`.
pub open spec fn select_hook_spec(normal_set: bool, dry_run_set: bool, dry_run: bool) -> HookCall {
    if dry_run && dry_run_set {
        HookCall::DryRun
    } else if normal_set {
        HookCall::Normal
    } else {
        HookCall::Accept
    }
}

/// Law: a dry run without its own hook runs exactly what a normal check
/// runs, whatever the normal hook is.
pub proof fn lemma_dry_run_delegates(normal_set: bool)
    ensures
        select_hook_spec(normal_set, false, true) == select_hook_spec(normal_set, false, false),
        select_hook_spec(normal_set, true, true) == HookCall::DryRun,
{
}

/// What a main-stage callback's outputs mean: a non-empty reject list
/// rejects; otherwise the stage passes, with a result only when the callback
/// stored lock prices or account adjustments.
pub fn main_stage_result<L, A>(
    rejects: Option<OpenPitRejectList>,
    lock_prices: Vec<L>,
    account_adjustments: Vec<A>,
) -> (res: Result<Option<(Vec<L>, Vec<A>)>, Vec<RejectRecord>>)
    ensures
        match rejects {
            Some(list) if list@.len() > 0 => res matches Err(items) && items@ == list@,
            _ => if lock_prices@.len() == 0 && account_adjustments@.len() == 0 {
                res matches Ok(None)
            } else {
                res matches Ok(Some((l, a))) && l@ == lock_prices@ && a@ == account_adjustments@
            },
        },
{
    match import_reject_list_result(rejects) {
        Err(items) => Err(items),
        Ok(()) => {
            if lock_prices.len() == 0 && account_adjustments.len() == 0 {
                Ok(None)
            } else {
                Ok(Some((lock_prices, account_adjustments)))
            }
        },
    }
}

/// What an account-adjustment callback's outputs mean: a non-empty reject
/// list rejects; otherwise the outcomes it stored are kept.
pub fn account_adjustment_result<O>(rejects: Option<OpenPitRejectList>, outcomes: Vec<O>) -> (res:
    Result<Vec<O>, Vec<RejectRecord>>)
    ensures
        match rejects {
            Some(list) if list@.len() > 0 => res matches Err(items) && items@ == list@,
            _ => res matches Ok(kept) && kept@ == outcomes@,
        },
{
    match import_reject_list_result(rejects) {
        Err(items) => Err(items),
        Ok(()) => Ok(outcomes),
    }
}

/// What a post-trade callback's outputs mean: the account blocks it returned
/// (none for no list) and the adjustments it stored; no result when both are
/// empty.
pub fn post_trade_result<B, A>(account_blocks: Option<Vec<B>>, account_adjustments: Vec<A>) -> (res:
    Option<(Vec<B>, Vec<A>)>)
    ensures
        ({
            let blocks = match account_blocks {
                Some(b) => b@,
                None => Seq::<B>::empty(),
            };
            if blocks.len() == 0 && account_adjustments@.len() == 0 {
                res is None
            } else {
                res matches Some((b, a)) && b@ == blocks && a@ == account_adjustments@
            }
        }),
{
    let blocks = match account_blocks {
        Some(b) => b,
        None => Vec::new(),
    };
    if blocks.len() == 0 && account_adjustments.len() == 0 {
        None
    } else {
        Some((blocks, account_adjustments))
    }
}

/// Broker-wide rate-limit barrier.
#[derive(Clone, Copy, Debug, PartialEq, Eq, Structural)]
pub struct OpenPitPretradePoliciesRateLimitBrokerBarrier {
    /// Maximum number of orders accepted within the window.
    pub max_orders: usize,
    /// Window duration in nanoseconds.
    pub window_nanoseconds: u64,
}

/// Per-settlement-asset rate-limit barrier.
#[derive(Clone, Copy, Debug, PartialEq, Eq)]
pub struct OpenPitPretradePoliciesRateLimitAssetBarrier<'a> {
    /// Settlement asset this barrier applies to.
    pub settlement_asset: OpenPitStringView<'a>,
    /// Maximum number of orders accepted within the window.
    pub max_orders: usize,
    /// Window duration in nanoseconds.
    pub window_nanoseconds: u64,
}

/// Per-account rate-limit barrier.
#[derive(Clone, Copy, Debug, PartialEq, Eq, Structural)]
pub struct OpenPitPretradePoliciesRateLimitAccountBarrier {
    /// Account this barrier applies to.
    pub account_id: u64,
    /// Maximum number of orders accepted within the window.
    pub max_orders: usize,
    /// Window duration in nanoseconds.
    pub window_nanoseconds: u64,
}

/// Per-(account, settlement-asset) rate-limit barrier.
#[derive(Clone, Copy, Debug, PartialEq, Eq)]
pub struct OpenPitPretradePoliciesRateLimitAccountAssetBarrier<'a> {
    /// Account this barrier applies to.
    pub account_id: u64,
    /// Settlement asset this barrier applies to.
    pub settlement_asset: OpenPitStringView<'a>,
    /// Maximum number of orders accepted within the window.
    pub max_orders: usize,
    /// Window duration in nanoseconds.
    pub window_nanoseconds: u64,
}

/// A rate limit on one settlement asset.
#[derive(Clone, Debug, PartialEq, Eq)]
pub struct RateLimitAssetRule {
    /// Settlement asset code.
    pub settlement_asset: String,
    /// Maximum number of orders accepted within the window.
    pub max_orders: usize,
    /// Window duration in nanoseconds.
    pub window_nanoseconds: u64,
}

/// A rate limit on one account and settlement asset.
#[derive(Clone, Debug, PartialEq, Eq)]
pub struct RateLimitAccountAssetRule {
    /// Account id.
    pub account_id: u64,
    /// Settlement asset code.
    pub settlement_asset: String,
    /// Maximum number of orders accepted within the window.
    pub max_orders: usize,
    /// Window duration in nanoseconds.
    pub window_nanoseconds: u64,
}

/// The barriers a rate-limit policy is configured with.
pub struct ParsedRateLimitBarriers {
    /// Broker-wide barrier, when given.
    pub broker: Option<OpenPitPretradePoliciesRateLimitBrokerBarrier>,
    /// Per-settlement-asset barriers.
    pub asset: Vec<RateLimitAssetRule>,
    /// Per-account barriers.
    pub account: Vec<OpenPitPretradePoliciesRateLimitAccountBarrier>,
    /// Per-(account, settlement-asset) barriers.
    pub account_asset: Vec<RateLimitAccountAssetRule>,
}

/// Whether an asset rate-limit barrier parses.
pub open spec fn rate_asset_ok(e: OpenPitPretradePoliciesRateLimitAssetBarrier) -> bool {
    settlement_code(e.settlement_asset) is Some
}

/// Whether `r` is the parse of an asset rate-limit barrier.
pub open spec fn rate_asset_parsed(e: OpenPitPretradePoliciesRateLimitAssetBarrier, r: RateLimitAssetRule) -> bool {
    settlement_code(e.settlement_asset) == Some(r.settlement_asset@) && r.max_orders == e.max_orders
        && r.window_nanoseconds == e.window_nanoseconds
}

/// The message an asset rate-limit barrier that does not parse gives.
pub open spec fn rate_asset_error(e: OpenPitPretradePoliciesRateLimitAssetBarrier, label: Seq<char>, index: nat) -> Seq<char> {
    settlement_error(e.settlement_asset, label, index)
}

/// Whether an account-asset rate-limit barrier parses.
pub open spec fn rate_account_asset_ok(e: OpenPitPretradePoliciesRateLimitAccountAssetBarrier) -> bool {
    settlement_code(e.settlement_asset) is Some
}

/// Whether `r` is the parse of an account-asset rate-limit barrier.
pub open spec fn rate_account_asset_parsed(
    e: OpenPitPretradePoliciesRateLimitAccountAssetBarrier,
    r: RateLimitAccountAssetRule,
) -> bool {
    settlement_code(e.settlement_asset) == Some(r.settlement_asset@) && r.account_id == e.account_id
        && r.max_orders == e.max_orders && r.window_nanoseconds == e.window_nanoseconds
}

/// The message an account-asset rate-limit barrier that does not parse gives.
pub open spec fn rate_account_asset_error(
    e: OpenPitPretradePoliciesRateLimitAccountAssetBarrier,
    label: Seq<char>,
    index: nat,
) -> Seq<char> {
    settlement_error(e.settlement_asset, label, index)
}

/// Parses per-asset rate-limit barriers, in order; the error of the first that does not parse.
pub fn parse_rate_limit_asset_barriers(entries: &[OpenPitPretradePoliciesRateLimitAssetBarrier], label: &str) -> (res: Result<Vec<RateLimitAssetRule>, String>)
    requires
        forall|k: int| 0 <= k < entries@.len() ==> (#[trigger] entries@[k]).settlement_asset.readable(),
    ensures
        match res {
            Ok(rules) => rules@.len() == entries@.len() && forall|k: int|
                0 <= k < entries@.len() ==> rate_asset_ok(#[trigger] entries@[k]) && rate_asset_parsed(
                    entries@[k],
                    rules@[k],
                ),
            Err(m) => exists|i: int|
                0 <= i < entries@.len() && !rate_asset_ok(#[trigger] entries@[i]) && m@ == rate_asset_error(
                    entries@[i],
                    label@,
                    i as nat,
                ) && forall|k: int| 0 <= k < i ==> rate_asset_ok(#[trigger] entries@[k]),
        },
{
    let mut rules: Vec<RateLimitAssetRule> = Vec::new();
    let mut i: usize = 0;
    while i < entries.len()
        invariant
            i <= entries@.len(),
            rules@.len() == i,
            forall|k: int| 0 <= k < entries@.len() ==> (#[trigger] entries@[k]).settlement_asset.readable(),
            forall|k: int|
                0 <= k < i ==> rate_asset_ok(#[trigger] entries@[k]) && rate_asset_parsed(entries@[k], rules@[k]),
        decreases entries@.len() - i,
    {
        let entry = entries[i];
        let settlement_asset = match parse_settlement_asset(entry.settlement_asset, label, i) {
            Ok(code) => code,
            Err(m) => return Err(m),
        };
        rules.push(
            RateLimitAssetRule {
                settlement_asset,
                max_orders: entry.max_orders,
                window_nanoseconds: entry.window_nanoseconds,
            },
        );
        i = i + 1;
    }
    Ok(rules)
}

/// Parses per-(account, asset) rate-limit barriers, in order; the error of the first that does not parse.
pub fn parse_rate_limit_account_asset_barriers(entries: &[OpenPitPretradePoliciesRateLimitAccountAssetBarrier], label: &str) -> (res: Result<Vec<RateLimitAccountAssetRule>, String>)
    requires
        forall|k: int| 0 <= k < entries@.len() ==> (#[trigger] entries@[k]).settlement_asset.readable(),
    ensures
        match res {
            Ok(rules) => rules@.len() == entries@.len() && forall|k: int|
                0 <= k < entries@.len() ==> rate_account_asset_ok(#[trigger] entries@[k]) && rate_account_asset_parsed(
                    entries@[k],
                    rules@[k],
                ),
            Err(m) => exists|i: int|
                0 <= i < entries@.len() && !rate_account_asset_ok(#[trigger] entries@[i]) && m@ == rate_account_asset_error(
                    entries@[i],
                    label@,
                    i as nat,
                ) && forall|k: int| 0 <= k < i ==> rate_account_asset_ok(#[trigger] entries@[k]),
        },
{
    let mut rules: Vec<RateLimitAccountAssetRule> = Vec::new();
    let mut i: usize = 0;
    while i < entries.len()
        invariant
            i <= entries@.len(),
            rules@.len() == i,
            forall|k: int| 0 <= k < entries@.len() ==> (#[trigger] entries@[k]).settlement_asset.readable(),
            forall|k: int|
                0 <= k < i ==> rate_account_asset_ok(#[trigger] entries@[k]) && rate_account_asset_parsed(entries@[k], rules@[k]),
        decreases entries@.len() - i,
    {
        let entry = entries[i];
        let settlement_asset = match parse_settlement_asset(entry.settlement_asset, label, i) {
            Ok(code) => code,
            Err(m) => return Err(m),
        };
        rules.push(
            RateLimitAccountAssetRule {
                account_id: entry.account_id,
                settlement_asset,
                max_orders: entry.max_orders,
                window_nanoseconds: entry.window_nanoseconds,
            },
        );
        i = i + 1;
    }
    Ok(rules)
}

/// Whether every asset rate-limit barrier parses.
pub open spec fn rate_assets_ok(es: Seq<OpenPitPretradePoliciesRateLimitAssetBarrier>) -> bool {
    forall|k: int| 0 <= k < es.len() ==> rate_asset_ok(#[trigger] es[k])
}

/// Whether `m` reports the first asset rate-limit barrier that does not parse.
pub open spec fn rate_assets_refused(es: Seq<OpenPitPretradePoliciesRateLimitAssetBarrier>, label: Seq<char>, m: Seq<char>) -> bool {
    exists|i: int|
        0 <= i < es.len() && !rate_asset_ok(#[trigger] es[i]) && m == rate_asset_error(es[i], label, i as nat)
            && forall|k: int| 0 <= k < i ==> rate_asset_ok(#[trigger] es[k])
}

/// Whether `rules` are the parses of asset rate-limit barriers.
pub open spec fn rate_assets_parsed(es: Seq<OpenPitPretradePoliciesRateLimitAssetBarrier>, rules: Seq<RateLimitAssetRule>) -> bool {
    rules.len() == es.len() && forall|k: int| 0 <= k < es.len() ==> rate_asset_parsed(#[trigger] es[k], rules[k])
}

/// Whether every account-asset rate-limit barrier parses.
pub open spec fn rate_account_assets_ok(es: Seq<OpenPitPretradePoliciesRateLimitAccountAssetBarrier>) -> bool {
    forall|k: int| 0 <= k < es.len() ==> rate_account_asset_ok(#[trigger] es[k])
}

/// Whether `m` reports the first account-asset rate-limit barrier that does
/// not parse.
pub open spec fn rate_account_assets_refused(
    es: Seq<OpenPitPretradePoliciesRateLimitAccountAssetBarrier>,
    label: Seq<char>,
    m: Seq<char>,
) -> bool {
    exists|i: int|
        0 <= i < es.len() && !rate_account_asset_ok(#[trigger] es[i]) && m == rate_account_asset_error(
            es[i],
            label,
            i as nat,
        ) && forall|k: int| 0 <= k < i ==> rate_account_asset_ok(#[trigger] es[k])
}

/// Whether `rules` are the parses of account-asset rate-limit barriers.
pub open spec fn rate_account_assets_parsed(
    es: Seq<OpenPitPretradePoliciesRateLimitAccountAssetBarrier>,
    rules: Seq<RateLimitAccountAssetRule>,
) -> bool {
    rules.len() == es.len() && forall|k: int|
        0 <= k < es.len() ==> rate_account_asset_parsed(#[trigger] es[k], rules[k])
}

/// The barriers of a rate-limit policy from the arguments of its creation:
/// the three arrays are read first (asset, account, account-asset), then the
/// asset barriers and the account-asset barriers are parsed in order; the
/// first refusal is reported.
pub fn rate_limit_barriers(
    broker: Option<OpenPitPretradePoliciesRateLimitBrokerBarrier>,
    asset: Option<&[OpenPitPretradePoliciesRateLimitAssetBarrier]>,
    asset_len: usize,
    account: Option<&[OpenPitPretradePoliciesRateLimitAccountBarrier]>,
    account_len: usize,
    account_asset: Option<&[OpenPitPretradePoliciesRateLimitAccountAssetBarrier]>,
    account_asset_len: usize,
) -> (res: Result<ParsedRateLimitBarriers, String>)
    requires
        asset matches Some(s) ==> asset_len <= s@.len() && forall|k: int|
            0 <= k < asset_len ==> (#[trigger] s@[k]).settlement_asset.readable(),
        account matches Some(s) ==> account_len <= s@.len(),
        account_asset matches Some(s) ==> account_asset_len <= s@.len() && forall|k: int|
            0 <= k < account_asset_len ==> (#[trigger] s@[k]).settlement_asset.readable(),
    ensures
        array_arg(asset, asset_len) is None ==> (res matches Err(m) && m@ == null_array_message(
            "rate_limit_policy asset"@,
        )),
        array_arg(asset, asset_len) is Some && array_arg(account, account_len) is None ==> (res matches Err(
            m,
        ) && m@ == null_array_message("rate_limit_policy account"@)),
        array_arg(asset, asset_len) is Some && array_arg(account, account_len) is Some && array_arg(
            account_asset,
            account_asset_len,
        ) is None ==> (res matches Err(m) && m@ == null_array_message("rate_limit_policy account_asset"@)),
        array_arg(asset, asset_len) matches Some(a) ==> (array_arg(account, account_len) matches Some(acc)
            ==> (array_arg(account_asset, account_asset_len) matches Some(aa) ==> if !rate_assets_ok(a) {
            res matches Err(m) && rate_assets_refused(a, "asset"@, m@)
        } else if !rate_account_assets_ok(aa) {
            res matches Err(m) && rate_account_assets_refused(aa, "account_asset"@, m@)
        } else {
            res matches Ok(p) && p.broker == broker && rate_assets_parsed(a, p.asset@) && p.account@
                == acc && rate_account_assets_parsed(aa, p.account_asset@)
        })),
{
    let assets = match read_array_arg(asset, asset_len, "rate_limit_policy asset") {
        Ok(s) => s,
        Err(m) => return Err(m),
    };
    let accounts = match read_array_arg(account, account_len, "rate_limit_policy account") {
        Ok(s) => s,
        Err(m) => return Err(m),
    };
    let account_assets = match read_array_arg(account_asset, account_asset_len, "rate_limit_policy account_asset") {
        Ok(s) => s,
        Err(m) => return Err(m),
    };
    let asset_rules = match parse_rate_limit_asset_barriers(assets, "asset") {
        Ok(rules) => rules,
        Err(m) => return Err(m),
    };
    let account_asset_rules = match parse_rate_limit_account_asset_barriers(account_assets, "account_asset") {
        Ok(rules) => rules,
        Err(m) => return Err(m),
    };
    Ok(
        ParsedRateLimitBarriers {
            broker,
            asset: asset_rules,
            account: vstd::slice::slice_to_vec(accounts),
            account_asset: account_asset_rules,
        },
    )
}

/// Shared order-size limits.
#[derive(Clone, Copy, Debug, PartialEq, Eq, Structural)]
pub struct OpenPitPretradePoliciesOrderSizeLimit {
    /// Maximum allowed quantity for one order.
    pub max_quantity: OpenPitParamQuantity,
    /// Maximum allowed notional for one order.
    pub max_notional: OpenPitParamVolume,
}

/// Broker-wide order-size barrier.
#[derive(Clone, Copy, Debug, PartialEq, Eq, Structural)]
pub struct OpenPitPretradePoliciesOrderSizeBrokerBarrier {
    /// Size limits for this broker barrier.
    pub limit: OpenPitPretradePoliciesOrderSizeLimit,
}

/// Per-settlement-asset order-size barrier.
#[derive(Clone, Copy, Debug, PartialEq, Eq)]
pub struct OpenPitPretradePoliciesOrderSizeAssetBarrier<'a> {
    /// Size limits for this asset barrier.
    pub limit: OpenPitPretradePoliciesOrderSizeLimit,
    /// Settlement asset this barrier applies to.
    pub settlement_asset: OpenPitStringView<'a>,
}

/// Per-(account, settlement-asset) order-size barrier.
#[derive(Clone, Copy, Debug, PartialEq, Eq)]
pub struct OpenPitPretradePoliciesOrderSizeAccountAssetBarrier<'a> {
    /// Size limits for this account+asset barrier.
    pub limit: OpenPitPretradePoliciesOrderSizeLimit,
    /// Account this barrier applies to.
    pub account_id: u64,
    /// Settlement asset this barrier applies to.
    pub settlement_asset: OpenPitStringView<'a>,
}

/// Order-size limits, each value serialized.
#[derive(Clone, Copy, Debug, PartialEq, Eq)]
pub struct OrderSizeLimitRule {
    /// Maximum allowed quantity for one order.
    pub max_quantity: [u8; 16],
    /// Maximum allowed notional for one order.
    pub max_notional: [u8; 16],
}

/// Order-size limits on one settlement asset.
#[derive(Clone, Debug, PartialEq, Eq)]
pub struct OrderSizeAssetRule {
    /// The limits.
    pub limit: OrderSizeLimitRule,
    /// Settlement asset code.
    pub settlement_asset: String,
}

/// Order-size limits on one account and settlement asset.
#[derive(Clone, Debug, PartialEq, Eq)]
pub struct OrderSizeAccountAssetRule {
    /// The limits.
    pub limit: OrderSizeLimitRule,
    /// Account id.
    pub account_id: u64,
    /// Settlement asset code.
    pub settlement_asset: String,
}

/// Whether order-size limits parse: both values non-negative decimals.
pub open spec fn limit_ok(l: OpenPitPretradePoliciesOrderSizeLimit) -> bool {
    l.max_quantity.0.is_non_negative() && l.max_notional.0.is_non_negative()
}

/// Whether `r` is the parse of order-size limits.
pub open spec fn limit_parsed(l: OpenPitPretradePoliciesOrderSizeLimit, r: OrderSizeLimitRule) -> bool {
    r.max_quantity@ == l.max_quantity.0.spec_bits() && r.max_notional@ == l.max_notional.0.spec_bits()
}

/// The message order-size limits that do not parse give.
pub open spec fn limit_error(l: OpenPitPretradePoliciesOrderSizeLimit, prefix: Seq<char>) -> Seq<char> {
    if !l.max_quantity.0.is_non_negative() {
        prefix + " max_quantity is invalid: "@ + l.max_quantity.0.spec_non_negative_error().spec_message()
    } else {
        prefix + " max_notional is invalid: "@ + l.max_notional.0.spec_non_negative_error().spec_message()
    }
}

/// Parses order-size limits; `prefix` names them in error messages.
pub fn parse_order_size_limit(l: OpenPitPretradePoliciesOrderSizeLimit, prefix: String) -> (res: Result<
    OrderSizeLimitRule,
    String,
>)
    ensures
        match res {
            Ok(r) => limit_ok(l) && limit_parsed(l, r),
            Err(m) => !limit_ok(l) && m@ == limit_error(l, prefix@),
        },
{
    let max_quantity = match l.max_quantity.0.to_non_negative_bits() {
        Ok(bits) => bits,
        Err(e) => return Err(prefix.concat(" max_quantity is invalid: ").concat(e.message())),
    };
    let max_notional = match l.max_notional.0.to_non_negative_bits() {
        Ok(bits) => bits,
        Err(e) => return Err(prefix.concat(" max_notional is invalid: ").concat(e.message())),
    };
    Ok(OrderSizeLimitRule { max_quantity, max_notional })
}

/// Parses the broker-wide order-size barrier.
pub fn parse_order_size_broker_barrier(b: OpenPitPretradePoliciesOrderSizeBrokerBarrier) -> (res: Result<
    OrderSizeLimitRule,
    String,
>)
    ensures
        match res {
            Ok(r) => limit_ok(b.limit) && limit_parsed(b.limit, r),
            Err(m) => !limit_ok(b.limit) && m@ == limit_error(b.limit, "broker"@),
        },
{
    parse_order_size_limit(b.limit, String::from_str("broker"))
}

/// Order-size limits of entry `index` of array `label` given at runtime:
/// refused as a validation error of the configuration.
pub fn parse_configure_limit(l: OpenPitPretradePoliciesOrderSizeLimit, label: &str, index: usize) -> (res: Result<
    OrderSizeLimitRule,
    OpenPitConfigureError,
>)
    ensures
        match res {
            Ok(r) => limit_ok(l) && limit_parsed(l, r),
            Err(e) => !limit_ok(l) && e.spec_kind() == OpenPitConfigureErrorKind::Validation
                && e.spec_message() == limit_error(l, indexed(label@, index as nat)),
        },
{
    match parse_order_size_limit(l, indexed_string(label, index)) {
        Ok(r) => Ok(r),
        Err(m) => Err(OpenPitConfigureError::validation(m)),
    }
}

/// Whether an asset order-size barrier parses.
pub open spec fn size_asset_ok(e: OpenPitPretradePoliciesOrderSizeAssetBarrier) -> bool {
    settlement_code(e.settlement_asset) is Some && limit_ok(e.limit)
}

/// Whether `r` is the parse of an asset order-size barrier.
pub open spec fn size_asset_parsed(e: OpenPitPretradePoliciesOrderSizeAssetBarrier, r: OrderSizeAssetRule) -> bool {
    settlement_code(e.settlement_asset) == Some(r.settlement_asset@) && limit_parsed(e.limit, r.limit)
}

/// The message an asset order-size barrier that does not parse gives.
pub open spec fn size_asset_error(e: OpenPitPretradePoliciesOrderSizeAssetBarrier, label: Seq<char>, index: nat) -> Seq<char> {
    if settlement_code(e.settlement_asset) is None {
        settlement_error(e.settlement_asset, label, index)
    } else {
        limit_error(e.limit, indexed(label, index))
    }
}

/// Whether an account-asset order-size barrier parses.
pub open spec fn size_account_asset_ok(e: OpenPitPretradePoliciesOrderSizeAccountAssetBarrier) -> bool {
    settlement_code(e.settlement_asset) is Some && limit_ok(e.limit)
}

/// Whether `r` is the parse of an account-asset order-size barrier.
pub open spec fn size_account_asset_parsed(
    e: OpenPitPretradePoliciesOrderSizeAccountAssetBarrier,
    r: OrderSizeAccountAssetRule,
) -> bool {
    settlement_code(e.settlement_asset) == Some(r.settlement_asset@) && limit_parsed(e.limit, r.limit)
        && r.account_id == e.account_id
}

/// The message an account-asset order-size barrier that does not parse gives.
pub open spec fn size_account_asset_error(
    e: OpenPitPretradePoliciesOrderSizeAccountAssetBarrier,
    label: Seq<char>,
    index: nat,
) -> Seq<char> {
    if settlement_code(e.settlement_asset) is None {
        settlement_error(e.settlement_asset, label, index)
    } else {
        limit_error(e.limit, indexed(label, index))
    }
}

/// Parses per-asset order-size barriers, in order; the error of the first that does not parse.
pub fn parse_order_size_asset_barriers(entries: &[OpenPitPretradePoliciesOrderSizeAssetBarrier], label: &str) -> (res: Result<Vec<OrderSizeAssetRule>, String>)
    requires
        forall|k: int| 0 <= k < entries@.len() ==> (#[trigger] entries@[k]).settlement_asset.readable(),
    ensures
        match res {
            Ok(rules) => rules@.len() == entries@.len() && forall|k: int|
                0 <= k < entries@.len() ==> size_asset_ok(#[trigger] entries@[k]) && size_asset_parsed(
                    entries@[k],
                    rules@[k],
                ),
            Err(m) => exists|i: int|
                0 <= i < entries@.len() && !size_asset_ok(#[trigger] entries@[i]) && m@ == size_asset_error(
                    entries@[i],
                    label@,
                    i as nat,
                ) && forall|k: int| 0 <= k < i ==> size_asset_ok(#[trigger] entries@[k]),
        },
{
    let mut rules: Vec<OrderSizeAssetRule> = Vec::new();
    let mut i: usize = 0;
    while i < entries.len()
        invariant
            i <= entries@.len(),
            rules@.len() == i,
            forall|k: int| 0 <= k < entries@.len() ==> (#[trigger] entries@[k]).settlement_asset.readable(),
            forall|k: int|
                0 <= k < i ==> size_asset_ok(#[trigger] entries@[k]) && size_asset_parsed(entries@[k], rules@[k]),
        decreases entries@.len() - i,
    {
        let entry = entries[i];
        let settlement_asset = match parse_settlement_asset(entry.settlement_asset, label, i) {
            Ok(code) => code,
            Err(m) => return Err(m),
        };
        let limit = match parse_order_size_limit(entry.limit, indexed_string(label, i)) {
            Ok(limit) => limit,
            Err(m) => return Err(m),
        };
        rules.push(OrderSizeAssetRule { limit, settlement_asset });
        i = i + 1;
    }
    Ok(rules)
}

/// Parses per-(account, asset) order-size barriers, in order; the error of the first that does not parse.
pub fn parse_order_size_account_asset_barriers(entries: &[OpenPitPretradePoliciesOrderSizeAccountAssetBarrier], label: &str) -> (res: Result<Vec<OrderSizeAccountAssetRule>, String>)
    requires
        forall|k: int| 0 <= k < entries@.len() ==> (#[trigger] entries@[k]).settlement_asset.readable(),
    ensures
        match res {
            Ok(rules) => rules@.len() == entries@.len() && forall|k: int|
                0 <= k < entries@.len() ==> size_account_asset_ok(#[trigger] entries@[k]) && size_account_asset_parsed(
                    entries@[k],
                    rules@[k],
                ),
            Err(m) => exists|i: int|
                0 <= i < entries@.len() && !size_account_asset_ok(#[trigger] entries@[i]) && m@ == size_account_asset_error(
                    entries@[i],
                    label@,
                    i as nat,
                ) && forall|k: int| 0 <= k < i ==> size_account_asset_ok(#[trigger] entries@[k]),
        },
{
    let mut rules: Vec<OrderSizeAccountAssetRule> = Vec::new();
    let mut i: usize = 0;
    while i < entries.len()
        invariant
            i <= entries@.len(),
            rules@.len() == i,
            forall|k: int| 0 <= k < entries@.len() ==> (#[trigger] entries@[k]).settlement_asset.readable(),
            forall|k: int|
                0 <= k < i ==> size_account_asset_ok(#[trigger] entries@[k]) && size_account_asset_parsed(entries@[k], rules@[k]),
        decreases entries@.len() - i,
    {
        let entry = entries[i];
        let settlement_asset = match parse_settlement_asset(entry.settlement_asset, label, i) {
            Ok(code) => code,
            Err(m) => return Err(m),
        };
        let limit = match parse_order_size_limit(entry.limit, indexed_string(label, i)) {
            Ok(limit) => limit,
            Err(m) => return Err(m),
        };
        rules.push(OrderSizeAccountAssetRule { limit, account_id: entry.account_id, settlement_asset });
        i = i + 1;
    }
    Ok(rules)
}


/// The barriers an order-size limit policy is configured with.
pub struct ParsedOrderSizeBarriers {
    /// Broker-wide limits, when given.
    pub broker: Option<OrderSizeLimitRule>,
    /// Per-settlement-asset barriers.
    pub asset: Vec<OrderSizeAssetRule>,
    /// Per-(account, settlement-asset) barriers.
    pub account_asset: Vec<OrderSizeAccountAssetRule>,
}

/// Whether every asset order-size barrier parses.
pub open spec fn size_assets_ok(es: Seq<OpenPitPretradePoliciesOrderSizeAssetBarrier>) -> bool {
    forall|k: int| 0 <= k < es.len() ==> size_asset_ok(#[trigger] es[k])
}

/// Whether `m` reports the first asset order-size barrier that does not parse.
pub open spec fn size_assets_refused(es: Seq<OpenPitPretradePoliciesOrderSizeAssetBarrier>, label: Seq<char>, m: Seq<char>) -> bool {
    exists|i: int|
        0 <= i < es.len() && !size_asset_ok(#[trigger] es[i]) && m == size_asset_error(es[i], label, i as nat)
            && forall|k: int| 0 <= k < i ==> size_asset_ok(#[trigger] es[k])
}

/// Whether `rules` are the parses of asset order-size barriers.
pub open spec fn size_assets_parsed(es: Seq<OpenPitPretradePoliciesOrderSizeAssetBarrier>, rules: Seq<OrderSizeAssetRule>) -> bool {
    rules.len() == es.len() && forall|k: int| 0 <= k < es.len() ==> size_asset_parsed(#[trigger] es[k], rules[k])
}

/// Whether every account-asset order-size barrier parses.
pub open spec fn size_account_assets_ok(es: Seq<OpenPitPretradePoliciesOrderSizeAccountAssetBarrier>) -> bool {
    forall|k: int| 0 <= k < es.len() ==> size_account_asset_ok(#[trigger] es[k])
}

/// Whether `m` reports the first account-asset order-size barrier that does
/// not parse.
pub open spec fn size_account_assets_refused(
    es: Seq<OpenPitPretradePoliciesOrderSizeAccountAssetBarrier>,
    label: Seq<char>,
    m: Seq<char>,
) -> bool {
    exists|i: int|
        0 <= i < es.len() && !size_account_asset_ok(#[trigger] es[i]) && m == size_account_asset_error(
            es[i],
            label,
            i as nat,
        ) && forall|k: int| 0 <= k < i ==> size_account_asset_ok(#[trigger] es[k])
}

/// Whether `rules` are the parses of account-asset order-size barriers.
pub open spec fn size_account_assets_parsed(
    es: Seq<OpenPitPretradePoliciesOrderSizeAccountAssetBarrier>,
    rules: Seq<OrderSizeAccountAssetRule>,
) -> bool {
    rules.len() == es.len() && forall|k: int|
        0 <= k < es.len() ==> size_account_asset_parsed(#[trigger] es[k], rules[k])
}

/// The barriers of an order-size limit policy from the arguments of its
/// creation: the two arrays are read first (asset, account-asset), then the
/// broker limits, the asset barriers and the account-asset barriers are
/// parsed in order; the first refusal is reported.
pub fn order_size_limit_barriers(
    broker: Option<OpenPitPretradePoliciesOrderSizeBrokerBarrier>,
    asset: Option<&[OpenPitPretradePoliciesOrderSizeAssetBarrier]>,
    asset_len: usize,
    account_asset: Option<&[OpenPitPretradePoliciesOrderSizeAccountAssetBarrier]>,
    account_asset_len: usize,
) -> (res: Result<ParsedOrderSizeBarriers, String>)
    requires
        asset matches Some(s) ==> asset_len <= s@.len() && forall|k: int|
            0 <= k < asset_len ==> (#[trigger] s@[k]).settlement_asset.readable(),
        account_asset matches Some(s) ==> account_asset_len <= s@.len() && forall|k: int|
            0 <= k < account_asset_len ==> (#[trigger] s@[k]).settlement_asset.readable(),
    ensures
        array_arg(asset, asset_len) is None ==> (res matches Err(m) && m@ == null_array_message(
            "order_size_limit_policy asset"@,
        )),
        array_arg(asset, asset_len) is Some && array_arg(account_asset, account_asset_len) is None ==> (res matches Err(
            m,
        ) && m@ == null_array_message("order_size_limit_policy account_asset"@)),
        array_arg(asset, asset_len) matches Some(a) ==> (array_arg(account_asset, account_asset_len) matches Some(aa)
            ==> if broker matches Some(b) && !limit_ok(b.limit) {
            res matches Err(m) && m@ == limit_error(broker->0.limit, "broker"@)
        } else if !size_assets_ok(a) {
            res matches Err(m) && size_assets_refused(a, "asset"@, m@)
        } else if !size_account_assets_ok(aa) {
            res matches Err(m) && size_account_assets_refused(aa, "account_asset"@, m@)
        } else {
            res matches Ok(p) && (broker matches Some(b) ==> (p.broker matches Some(r) && limit_parsed(b.limit, r)))
                && (broker is None ==> p.broker is None) && size_assets_parsed(a, p.asset@)
                && size_account_assets_parsed(aa, p.account_asset@)
        }),
{
    let assets = match read_array_arg(asset, asset_len, "order_size_limit_policy asset") {
        Ok(s) => s,
        Err(m) => return Err(m),
    };
    let account_assets = match read_array_arg(
        account_asset,
        account_asset_len,
        "order_size_limit_policy account_asset",
    ) {
        Ok(s) => s,
        Err(m) => return Err(m),
    };
    let broker_rule = match broker {
        Some(b) => match parse_order_size_broker_barrier(b) {
            Ok(r) => Some(r),
            Err(m) => return Err(m),
        },
        None => None,
    };
    let asset_rules = match parse_order_size_asset_barriers(assets, "asset") {
        Ok(rules) => rules,
        Err(m) => return Err(m),
    };
    let account_asset_rules = match parse_order_size_account_asset_barriers(account_assets, "account_asset") {
        Ok(rules) => rules,
        Err(m) => return Err(m),
    };
    Ok(ParsedOrderSizeBarriers { broker: broker_rule, asset: asset_rules, account_asset: account_asset_rules })
}

/// Broker P&L bounds barrier: a settlement asset and optional bounds.
#[derive(Clone, Copy, Debug, PartialEq, Eq)]
pub struct OpenPitPretradePoliciesPnlBoundsBarrier<'a> {
    /// Settlement asset whose accumulated P&L is monitored.
    pub settlement_asset: OpenPitStringView<'a>,
    /// Optional lower bound for accumulated P&L.
    pub lower_bound: OpenPitParamPnlOptional,
    /// Optional upper bound for accumulated P&L.
    pub upper_bound: OpenPitParamPnlOptional,
}

/// Per-(account, settlement-asset) P&L bounds barrier with an initial P&L.
#[derive(Clone, Copy, Debug, PartialEq, Eq)]
pub struct OpenPitPretradePoliciesPnlBoundsAccountBarrier<'a> {
    /// Account this barrier applies to.
    pub account_id: u64,
    /// Settlement asset whose accumulated P&L is monitored.
    pub settlement_asset: OpenPitStringView<'a>,
    /// Optional lower bound.
    pub lower_bound: OpenPitParamPnlOptional,
    /// Optional upper bound.
    pub upper_bound: OpenPitParamPnlOptional,
    /// Starting accumulated P&L.
    pub initial_pnl: OpenPitParamPnl,
}

/// Runtime replacement of a per-(account, settlement-asset) P&L barrier; the
/// live accumulated P&L is kept.
#[derive(Clone, Copy, Debug, PartialEq, Eq)]
pub struct OpenPitPretradePoliciesPnlBoundsAccountBarrierUpdate<'a> {
    /// Account this barrier applies to.
    pub account_id: u64,
    /// Settlement asset whose live accumulated P&L is monitored.
    pub settlement_asset: OpenPitStringView<'a>,
    /// Optional replacement lower bound.
    pub lower_bound: OpenPitParamPnlOptional,
    /// Optional replacement upper bound.
    pub upper_bound: OpenPitParamPnlOptional,
}

/// P&L bounds on one settlement asset, each bound serialized.
#[derive(Clone, Debug, PartialEq, Eq)]
pub struct PnlBoundsRule {
    /// Settlement asset code.
    pub settlement_asset: String,
    /// Lower bound.
    pub lower_bound: Option<[u8; 16]>,
    /// Upper bound.
    pub upper_bound: Option<[u8; 16]>,
}

/// P&L bounds on one account and settlement asset, with its initial P&L.
#[derive(Clone, Debug, PartialEq, Eq)]
pub struct PnlBoundsAccountRule {
    /// Account id.
    pub account_id: u64,
    /// The bounds.
    pub bounds: PnlBoundsRule,
    /// Starting accumulated P&L, serialized.
    pub initial_pnl: [u8; 16],
}

/// Replacement P&L bounds on one account and settlement asset.
#[derive(Clone, Debug, PartialEq, Eq)]
pub struct PnlBoundsAccountUpdateRule {
    /// Account id.
    pub account_id: u64,
    /// The bounds.
    pub bounds: PnlBoundsRule,
}

/// Whether a settlement asset and two optional bounds parse.
pub open spec fn bounds_ok(
    settlement: OpenPitStringView,
    lower: OpenPitParamPnlOptional,
    upper: OpenPitParamPnlOptional,
) -> bool {
    settlement_code(settlement) is Some && optional_pnl_ok(lower) && optional_pnl_ok(upper)
}

/// Whether `r` is the parse of a settlement asset and two optional bounds.
pub open spec fn bounds_parsed(
    settlement: OpenPitStringView,
    lower: OpenPitParamPnlOptional,
    upper: OpenPitParamPnlOptional,
    r: PnlBoundsRule,
) -> bool {
    settlement_code(settlement) == Some(r.settlement_asset@) && optional_pnl_parsed(lower, r.lower_bound)
        && optional_pnl_parsed(upper, r.upper_bound)
}

/// The message a settlement asset and two bounds that do not parse give.
pub open spec fn bounds_error(
    settlement: OpenPitStringView,
    lower: OpenPitParamPnlOptional,
    upper: OpenPitParamPnlOptional,
    label: Seq<char>,
    index: nat,
) -> Seq<char> {
    if settlement_code(settlement) is None {
        settlement_error(settlement, label, index)
    } else if !optional_pnl_ok(lower) {
        pnl_error(indexed(label, index), "lower_bound"@, lower.value.0)
    } else {
        pnl_error(indexed(label, index), "upper_bound"@, upper.value.0)
    }
}

/// Parses a settlement asset and its two optional bounds.
fn parse_bounds(
    settlement: OpenPitStringView,
    lower: OpenPitParamPnlOptional,
    upper: OpenPitParamPnlOptional,
    label: &str,
    index: usize,
) -> (res: Result<PnlBoundsRule, String>)
    requires
        settlement.readable(),
    ensures
        match res {
            Ok(r) => bounds_ok(settlement, lower, upper) && bounds_parsed(settlement, lower, upper, r),
            Err(m) => !bounds_ok(settlement, lower, upper) && m@ == bounds_error(
                settlement,
                lower,
                upper,
                label@,
                index as nat,
            ),
        },
{
    let settlement_asset = match parse_settlement_asset(settlement, label, index) {
        Ok(code) => code,
        Err(m) => return Err(m),
    };
    let lower_bound = match parse_optional_pnl(lower, label, index, "lower_bound") {
        Ok(b) => b,
        Err(m) => return Err(m),
    };
    let upper_bound = match parse_optional_pnl(upper, label, index, "upper_bound") {
        Ok(b) => b,
        Err(m) => return Err(m),
    };
    Ok(PnlBoundsRule { settlement_asset, lower_bound, upper_bound })
}

/// Whether a broker P&L barrier parses.
pub open spec fn pnl_broker_ok(e: OpenPitPretradePoliciesPnlBoundsBarrier) -> bool {
    bounds_ok(e.settlement_asset, e.lower_bound, e.upper_bound)
}

/// Whether `r` is the parse of a broker P&L barrier.
pub open spec fn pnl_broker_parsed(e: OpenPitPretradePoliciesPnlBoundsBarrier, r: PnlBoundsRule) -> bool {
    bounds_parsed(e.settlement_asset, e.lower_bound, e.upper_bound, r)
}

/// The message a broker P&L barrier that does not parse gives.
pub open spec fn pnl_broker_error(e: OpenPitPretradePoliciesPnlBoundsBarrier, label: Seq<char>, index: nat) -> Seq<char> {
    bounds_error(e.settlement_asset, e.lower_bound, e.upper_bound, label, index)
}

/// Whether an account P&L barrier parses.
pub open spec fn pnl_account_ok(e: OpenPitPretradePoliciesPnlBoundsAccountBarrier) -> bool {
    bounds_ok(e.settlement_asset, e.lower_bound, e.upper_bound) && e.initial_pnl.0.is_valid()
}

/// Whether `r` is the parse of an account P&L barrier.
pub open spec fn pnl_account_parsed(e: OpenPitPretradePoliciesPnlBoundsAccountBarrier, r: PnlBoundsAccountRule) -> bool {
    bounds_parsed(e.settlement_asset, e.lower_bound, e.upper_bound, r.bounds) && r.account_id
        == e.account_id && r.initial_pnl@ == e.initial_pnl.0.spec_bits()
}

/// The message an account P&L barrier that does not parse gives.
pub open spec fn pnl_account_error(e: OpenPitPretradePoliciesPnlBoundsAccountBarrier, label: Seq<char>, index: nat) -> Seq<char> {
    if !bounds_ok(e.settlement_asset, e.lower_bound, e.upper_bound) {
        bounds_error(e.settlement_asset, e.lower_bound, e.upper_bound, label, index)
    } else {
        indexed(label, index) + " initial_pnl is invalid: "@ + e.initial_pnl.0.spec_error().spec_message()
    }
}

/// Whether an account P&L barrier update parses.
pub open spec fn pnl_update_ok(e: OpenPitPretradePoliciesPnlBoundsAccountBarrierUpdate) -> bool {
    bounds_ok(e.settlement_asset, e.lower_bound, e.upper_bound)
}

/// Whether `r` is the parse of an account P&L barrier update.
pub open spec fn pnl_update_parsed(
    e: OpenPitPretradePoliciesPnlBoundsAccountBarrierUpdate,
    r: PnlBoundsAccountUpdateRule,
) -> bool {
    bounds_parsed(e.settlement_asset, e.lower_bound, e.upper_bound, r.bounds) && r.account_id
        == e.account_id
}

/// The message an account P&L barrier update that does not parse gives.
pub open spec fn pnl_update_error(
    e: OpenPitPretradePoliciesPnlBoundsAccountBarrierUpdate,
    label: Seq<char>,
    index: nat,
) -> Seq<char> {
    bounds_error(e.settlement_asset, e.lower_bound, e.upper_bound, label, index)
}

/// Parses broker P&L barriers, in order; the error of the first that does not parse.
pub fn parse_pnl_broker_barriers(entries: &[OpenPitPretradePoliciesPnlBoundsBarrier], label: &str) -> (res: Result<Vec<PnlBoundsRule>, String>)
    requires
        forall|k: int| 0 <= k < entries@.len() ==> (#[trigger] entries@[k]).settlement_asset.readable(),
    ensures
        match res {
            Ok(rules) => rules@.len() == entries@.len() && forall|k: int|
                0 <= k < entries@.len() ==> pnl_broker_ok(#[trigger] entries@[k]) && pnl_broker_parsed(
                    entries@[k],
                    rules@[k],
                ),
            Err(m) => exists|i: int|
                0 <= i < entries@.len() && !pnl_broker_ok(#[trigger] entries@[i]) && m@ == pnl_broker_error(
                    entries@[i],
                    label@,
                    i as nat,
                ) && forall|k: int| 0 <= k < i ==> pnl_broker_ok(#[trigger] entries@[k]),
        },
{
    let mut rules: Vec<PnlBoundsRule> = Vec::new();
    let mut i: usize = 0;
    while i < entries.len()
        invariant
            i <= entries@.len(),
            rules@.len() == i,
            forall|k: int| 0 <= k < entries@.len() ==> (#[trigger] entries@[k]).settlement_asset.readable(),
            forall|k: int|
                0 <= k < i ==> pnl_broker_ok(#[trigger] entries@[k]) && pnl_broker_parsed(entries@[k], rules@[k]),
        decreases entries@.len() - i,
    {
        let entry = entries[i];
        let rule = match parse_bounds(entry.settlement_asset, entry.lower_bound, entry.upper_bound, label, i) {
            Ok(rule) => rule,
            Err(m) => return Err(m),
        };
        rules.push(rule);
        i = i + 1;
    }
    Ok(rules)
}

/// Parses account P&L barriers, in order; the error of the first that does not parse.
pub fn parse_pnl_account_barriers(entries: &[OpenPitPretradePoliciesPnlBoundsAccountBarrier], label: &str) -> (res: Result<Vec<PnlBoundsAccountRule>, String>)
    requires
        forall|k: int| 0 <= k < entries@.len() ==> (#[trigger] entries@[k]).settlement_asset.readable(),
    ensures
        match res {
            Ok(rules) => rules@.len() == entries@.len() && forall|k: int|
                0 <= k < entries@.len() ==> pnl_account_ok(#[trigger] entries@[k]) && pnl_account_parsed(
                    entries@[k],
                    rules@[k],
                ),
            Err(m) => exists|i: int|
                0 <= i < entries@.len() && !pnl_account_ok(#[trigger] entries@[i]) && m@ == pnl_account_error(
                    entries@[i],
                    label@,
                    i as nat,
                ) && forall|k: int| 0 <= k < i ==> pnl_account_ok(#[trigger] entries@[k]),
        },
{
    let mut rules: Vec<PnlBoundsAccountRule> = Vec::new();
    let mut i: usize = 0;
    while i < entries.len()
        invariant
            i <= entries@.len(),
            rules@.len() == i,
            forall|k: int| 0 <= k < entries@.len() ==> (#[trigger] entries@[k]).settlement_asset.readable(),
            forall|k: int|
                0 <= k < i ==> pnl_account_ok(#[trigger] entries@[k]) && pnl_account_parsed(entries@[k], rules@[k]),
        decreases entries@.len() - i,
    {
        let entry = entries[i];
        let bounds = match parse_bounds(entry.settlement_asset, entry.lower_bound, entry.upper_bound, label, i) {
            Ok(rule) => rule,
            Err(m) => return Err(m),
        };
        let initial_pnl = match entry.initial_pnl.0.to_bits() {
            Ok(bits) => bits,
            Err(e) => return Err(
                indexed_string(label, i).concat(" initial_pnl is invalid: ").concat(e.message()),
            ),
        };
        rules.push(PnlBoundsAccountRule { account_id: entry.account_id, bounds, initial_pnl });
        i = i + 1;
    }
    Ok(rules)
}

/// Parses account P&L barrier updates, in order; the error of the first that does not parse.
pub fn parse_pnl_account_barrier_updates(entries: &[OpenPitPretradePoliciesPnlBoundsAccountBarrierUpdate], label: &str) -> (res: Result<Vec<PnlBoundsAccountUpdateRule>, String>)
    requires
        forall|k: int| 0 <= k < entries@.len() ==> (#[trigger] entries@[k]).settlement_asset.readable(),
    ensures
        match res {
            Ok(rules) => rules@.len() == entries@.len() && forall|k: int|
                0 <= k < entries@.len() ==> pnl_update_ok(#[trigger] entries@[k]) && pnl_update_parsed(
                    entries@[k],
                    rules@[k],
                ),
            Err(m) => exists|i: int|
                0 <= i < entries@.len() && !pnl_update_ok(#[trigger] entries@[i]) && m@ == pnl_update_error(
                    entries@[i],
                    label@,
                    i as nat,
                ) && forall|k: int| 0 <= k < i ==> pnl_update_ok(#[trigger] entries@[k]),
        },
{
    let mut rules: Vec<PnlBoundsAccountUpdateRule> = Vec::new();
    let mut i: usize = 0;
    while i < entries.len()
        invariant
            i <= entries@.len(),
            rules@.len() == i,
            forall|k: int| 0 <= k < entries@.len() ==> (#[trigger] entries@[k]).settlement_asset.readable(),
            forall|k: int|
                0 <= k < i ==> pnl_update_ok(#[trigger] entries@[k]) && pnl_update_parsed(entries@[k], rules@[k]),
        decreases entries@.len() - i,
    {
        let entry = entries[i];
        let bounds = match parse_bounds(entry.settlement_asset, entry.lower_bound, entry.upper_bound, label, i) {
            Ok(rule) => rule,
            Err(m) => return Err(m),
        };
        rules.push(PnlBoundsAccountUpdateRule { account_id: entry.account_id, bounds });
        i = i + 1;
    }
    Ok(rules)
}

/// The barriers a P&L bounds kill-switch policy is configured with.
pub struct ParsedPnlBoundsBarriers {
    /// Broker-wide barriers.
    pub broker: Vec<PnlBoundsRule>,
    /// Per-(account, settlement-asset) barriers.
    pub account: Vec<PnlBoundsAccountRule>,
}

/// Whether every broker P&L barrier parses.
pub open spec fn pnl_brokers_ok(es: Seq<OpenPitPretradePoliciesPnlBoundsBarrier>) -> bool {
    forall|k: int| 0 <= k < es.len() ==> pnl_broker_ok(#[trigger] es[k])
}

/// Whether `m` reports the first broker P&L barrier that does not parse.
pub open spec fn pnl_brokers_refused(es: Seq<OpenPitPretradePoliciesPnlBoundsBarrier>, label: Seq<char>, m: Seq<char>) -> bool {
    exists|i: int|
        0 <= i < es.len() && !pnl_broker_ok(#[trigger] es[i]) && m == pnl_broker_error(es[i], label, i as nat)
            && forall|k: int| 0 <= k < i ==> pnl_broker_ok(#[trigger] es[k])
}

/// Whether `rules` are the parses of broker P&L barriers.
pub open spec fn pnl_brokers_parsed(es: Seq<OpenPitPretradePoliciesPnlBoundsBarrier>, rules: Seq<PnlBoundsRule>) -> bool {
    rules.len() == es.len() && forall|k: int| 0 <= k < es.len() ==> pnl_broker_parsed(#[trigger] es[k], rules[k])
}

/// Whether every account P&L barrier parses.
pub open spec fn pnl_accounts_ok(es: Seq<OpenPitPretradePoliciesPnlBoundsAccountBarrier>) -> bool {
    forall|k: int| 0 <= k < es.len() ==> pnl_account_ok(#[trigger] es[k])
}

/// Whether `m` reports the first account P&L barrier that does not parse.
pub open spec fn pnl_accounts_refused(
    es: Seq<OpenPitPretradePoliciesPnlBoundsAccountBarrier>,
    label: Seq<char>,
    m: Seq<char>,
) -> bool {
    exists|i: int|
        0 <= i < es.len() && !pnl_account_ok(#[trigger] es[i]) && m == pnl_account_error(es[i], label, i as nat)
            && forall|k: int| 0 <= k < i ==> pnl_account_ok(#[trigger] es[k])
}

/// Whether `rules` are the parses of account P&L barriers.
pub open spec fn pnl_accounts_parsed(
    es: Seq<OpenPitPretradePoliciesPnlBoundsAccountBarrier>,
    rules: Seq<PnlBoundsAccountRule>,
) -> bool {
    rules.len() == es.len() && forall|k: int| 0 <= k < es.len() ==> pnl_account_parsed(#[trigger] es[k], rules[k])
}

/// The barriers of a P&L bounds kill-switch policy from the arguments of its
/// creation: the broker array is read and parsed, then the account array is
/// read and parsed; the first refusal is reported.
pub fn pnl_bounds_killswitch_barriers(
    broker: Option<&[OpenPitPretradePoliciesPnlBoundsBarrier]>,
    broker_len: usize,
    account: Option<&[OpenPitPretradePoliciesPnlBoundsAccountBarrier]>,
    account_len: usize,
) -> (res: Result<ParsedPnlBoundsBarriers, String>)
    requires
        broker matches Some(s) ==> broker_len <= s@.len() && forall|k: int|
            0 <= k < broker_len ==> (#[trigger] s@[k]).settlement_asset.readable(),
        account matches Some(s) ==> account_len <= s@.len() && forall|k: int|
            0 <= k < account_len ==> (#[trigger] s@[k]).settlement_asset.readable(),
    ensures
        array_arg(broker, broker_len) is None ==> (res matches Err(m) && m@ == null_array_message(
            "pnl_bounds_killswitch_policy broker"@,
        )),
        array_arg(broker, broker_len) matches Some(b) ==> if !pnl_brokers_ok(b) {
            res matches Err(m) && pnl_brokers_refused(b, "broker"@, m@)
        } else if array_arg(account, account_len) is None {
            res matches Err(m) && m@ == null_array_message("pnl_bounds_killswitch_policy account"@)
        } else if !pnl_accounts_ok(array_arg(account, account_len)->0) {
            res matches Err(m) && pnl_accounts_refused(array_arg(account, account_len)->0, "account"@, m@)
        } else {
            res matches Ok(p) && pnl_brokers_parsed(b, p.broker@) && pnl_accounts_parsed(
                array_arg(account, account_len)->0,
                p.account@,
            )
        },
{
    let brokers = match read_array_arg(broker, broker_len, "pnl_bounds_killswitch_policy broker") {
        Ok(s) => s,
        Err(m) => return Err(m),
    };
    let broker_rules = match parse_pnl_broker_barriers(brokers, "broker") {
        Ok(rules) => rules,
        Err(m) => return Err(m),
    };
    let accounts = match read_array_arg(account, account_len, "pnl_bounds_killswitch_policy account") {
        Ok(s) => s,
        Err(m) => return Err(m),
    };
    let account_rules = match parse_pnl_account_barriers(accounts, "account") {
        Ok(rules) => rules,
        Err(m) => return Err(m),
    };
    Ok(ParsedPnlBoundsBarriers { broker: broker_rules, account: account_rules })
}

/// Law: the messages of the policy name refusals.
pub proof fn lemma_policy_name_error_texts()
    ensures
        PolicyNameError::Null.spec_message() == "policy name is null"@,
        PolicyNameError::NotValidString.spec_message() == "policy name is not valid string"@,
        PolicyNameError::Empty.spec_message() == "policy name is empty"@,
{
}

} // verus!
