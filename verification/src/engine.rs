//! Engine-facing records of the C interface: synchronization policies,
//! builder phases, build errors, batch errors, account-group and
//! account-block errors, configure errors, and the decoding of the
//! arguments these calls take.

use crate::account_adjustment::{
    adjustment_error, adjustment_imported, adjustment_ok, adjustment_readable,
    import_account_adjustment, AccountAdjustment, OpenPitAccountAdjustment,
};
use crate::reject::OpenPitRejectList;
use openpit::param::AccountGroupId;
use crate::string::OpenPitStringView;
use crate::text::{decimal_string, decimal_text, lossy_utf8_text, string_from_utf8_lossy};
use vstd::prelude::*;
use vstd::string::StringExecFns;

verus! {

/// Synchronization policy an engine is built with.
#[derive(Clone, Copy, Debug, PartialEq, Eq, Structural)]
pub enum OpenPitSyncPolicy {
    /// No synchronization: the handle stays on the thread that created it.
    NoSync,
    /// Full synchronization: concurrent calls on one handle are allowed.
    Full,
    /// Per-account synchronization: sequential cross-thread access.
    Account,
}

impl OpenPitSyncPolicy {
    /// The wire byte of the policy.
    pub open spec fn spec_byte(self) -> u8 {
        match self {
            OpenPitSyncPolicy::NoSync => 0,
            OpenPitSyncPolicy::Full => 1,
            OpenPitSyncPolicy::Account => 2,
        }
    }

    /// The policy a wire byte selects: 0, 1 or 2; any other byte is refused
    /// and handed back.
    pub fn from_byte(byte: u8) -> (res: Result<Self, u8>)
        ensures
            match res {
                Ok(policy) => policy.spec_byte() == byte,
                Err(invalid) => invalid == byte && byte > 2,
            },
    {
        match byte {
            0 => Ok(OpenPitSyncPolicy::NoSync),
            1 => Ok(OpenPitSyncPolicy::Full),
            2 => Ok(OpenPitSyncPolicy::Account),
            invalid => Err(invalid),
        }
    }
}

/// Message for a sync-policy byte that selects no policy.
pub open spec fn invalid_sync_policy_message(byte: u8) -> Seq<char> {
    "openpit_create_engine_builder: invalid sync_policy byte "@ + decimal_text(byte as nat)
        + ", expected 0..=2"@
}

/// The message for a sync-policy byte that selects no policy.
pub fn invalid_sync_policy_error(byte: u8) -> (res: String)
    ensures
        res@ == invalid_sync_policy_message(byte),
{
    String::from_str("openpit_create_engine_builder: invalid sync_policy byte ").concat(
        decimal_string(byte as u64).as_str(),
    ).concat(", expected 0..=2")
}

/// Where an engine builder stands: created without policies, holding at
/// least one policy, or consumed by a build.
#[derive(Clone, Copy, Debug, PartialEq, Eq, Structural)]
pub enum BuilderPhase {
    /// Created; no policy registered yet.
    Synced,
    /// At least one policy registered.
    Ready,
    /// Consumed by a build (successful or not).
    Consumed,
}

/// Why a builder refuses a request.
#[derive(Clone, Copy, Debug, PartialEq, Eq, Structural)]
pub enum BuilderError {
    /// A policy was added to a consumed builder.
    NoLongerAvailable,
    /// A consumed builder was built again.
    AlreadyConsumed,
    /// A builder without policies was built.
    NoPolicies,
}

impl BuilderError {
    /// The message reporting the error.
    pub open spec fn spec_message(self) -> Seq<char> {
        match self {
            BuilderError::NoLongerAvailable => "engine builder is no longer available"@,
            BuilderError::AlreadyConsumed => "engine builder already consumed"@,
            BuilderError::NoPolicies => "no policies registered"@,
        }
    }

    /// The message reporting the error.
    pub fn message(self) -> (res: &'static str)
        ensures
            res@ == self.spec_message(),
    {
        match self {
            BuilderError::NoLongerAvailable => "engine builder is no longer available",
            BuilderError::AlreadyConsumed => "engine builder already consumed",
            BuilderError::NoPolicies => "no policies registered",
        }
    }
}

/// What registering a policy does to a builder: the next phase and the
/// outcome.
pub open spec fn spec_add_policy(p: BuilderPhase) -> (BuilderPhase, Result<(), BuilderError>) {
    match p {
        BuilderPhase::Consumed => (BuilderPhase::Consumed, Err(BuilderError::NoLongerAvailable)),
        _ => (BuilderPhase::Ready, Ok(())),
    }
}

/// What a build attempt does to a builder: it is consumed, and only a ready
/// builder goes on to build.
pub open spec fn spec_start_build(p: BuilderPhase) -> (BuilderPhase, Result<(), BuilderError>) {
    (
        BuilderPhase::Consumed,
        match p {
            BuilderPhase::Ready => Ok(()),
            BuilderPhase::Synced => Err(BuilderError::NoPolicies),
            BuilderPhase::Consumed => Err(BuilderError::AlreadyConsumed),
        },
    )
}

impl BuilderPhase {
    /// Registering a policy (see `spec_add_policy`).
    pub fn add_policy(&mut self) -> (res: Result<(), BuilderError>)
        ensures
            (*final(self), res) == spec_add_policy(*old(self)),
    {
        match *self {
            BuilderPhase::Consumed => Err(BuilderError::NoLongerAvailable),
            _ => {
                *self = BuilderPhase::Ready;
                Ok(())
            },
        }
    }

    /// Building (see `spec_start_build`).
    pub fn start_build(&mut self) -> (res: Result<(), BuilderError>)
        ensures
            (*final(self), res) == spec_start_build(*old(self)),
    {
        let phase = *self;
        *self = BuilderPhase::Consumed;
        match phase {
            BuilderPhase::Ready => Ok(()),
            BuilderPhase::Synced => Err(BuilderError::NoPolicies),
            BuilderPhase::Consumed => Err(BuilderError::AlreadyConsumed),
        }
    }
}

/// Law: the wire bytes of the synchronization policies (0 none, 1 full,
/// 2 per account) and the messages of the builder refusals.
pub proof fn lemma_sync_policy_and_builder_texts()
    ensures
        OpenPitSyncPolicy::NoSync.spec_byte() == 0,
        OpenPitSyncPolicy::Full.spec_byte() == 1,
        OpenPitSyncPolicy::Account.spec_byte() == 2,
        BuilderError::NoLongerAvailable.spec_message() == "engine builder is no longer available"@,
        BuilderError::AlreadyConsumed.spec_message() == "engine builder already consumed"@,
        BuilderError::NoPolicies.spec_message() == "no policies registered"@,
{
}

/// Law: a builder is consumed by any build attempt, successful or not;
/// afterwards building again is refused as already consumed and adding a
/// policy as no longer available.
pub proof fn lemma_builder_consumed_after_build(p: BuilderPhase)
    ensures
        spec_start_build(p).0 == BuilderPhase::Consumed,
        spec_start_build(spec_start_build(p).0).1 == Err::<(), _>(BuilderError::AlreadyConsumed),
        spec_add_policy(spec_start_build(p).0).1 == Err::<(), _>(BuilderError::NoLongerAvailable),
{
}

/// Law: a builder builds only after a policy was registered: registering a
/// policy on a builder that is not consumed makes the next build go ahead.
pub proof fn lemma_builder_ready_after_policy(p: BuilderPhase)
    requires
        p != BuilderPhase::Consumed,
    ensures
        spec_add_policy(p).1 is Ok,
        spec_start_build(spec_add_policy(p).0).1 is Ok,
{
}

/// The synchronization policy a new engine builder is created with; an
/// invalid byte is refused with its message.
pub fn openpit_create_engine_builder(sync_policy: u8) -> (res: Result<OpenPitSyncPolicy, String>)
    ensures
        match res {
            Ok(policy) => policy.spec_byte() == sync_policy,
            Err(m) => sync_policy > 2 && m@ == invalid_sync_policy_message(sync_policy),
        },
{
    match OpenPitSyncPolicy::from_byte(sync_policy) {
        Ok(policy) => Ok(policy),
        Err(invalid) => Err(invalid_sync_policy_error(invalid)),
    }
}

/// Whether a builder goes on to build: refused without a builder, when it is
/// consumed, or when it holds no policy; any attempt on a builder consumes it.
pub fn openpit_engine_builder_build(builder: Option<&mut BuilderPhase>) -> (res: Result<(), String>)
    ensures
        builder is None ==> (res matches Err(m) && m@ == "engine builder is null"@),
        builder matches Some(b) ==> *final(b) == spec_start_build(*b).0 && match spec_start_build(
            *b,
        ).1 {
            Ok(()) => res is Ok,
            Err(e) => res matches Err(m) && m@ == e.spec_message(),
        },
{
    match builder {
        None => Err(String::from_str("engine builder is null")),
        Some(b) => match b.start_build() {
            Ok(()) => Ok(()),
            Err(e) => Err(String::from_str(e.message())),
        },
    }
}

/// Result status for pre-trade operations.
#[derive(Clone, Copy, Debug, PartialEq, Eq, Structural)]
pub enum OpenPitPretradeStatus {
    /// The order or request passed this stage.
    Passed,
    /// The order or request was rejected.
    Rejected,
    /// The call failed on invalid input.
    Error,
}

/// Machine-readable reason an engine build failed.
#[derive(Clone, Copy, Debug, PartialEq, Eq, Structural)]
pub enum OpenPitEngineBuildErrorCode {
    /// Two or more registered policies declare the same name.
    DuplicatePolicyName,
    /// Two or more registered policies declare the same non-default group id.
    DuplicatePolicyGroupId,
    /// Any other failure; no payload.
    Other,
}

/// Structured build-failure details: the category, and the offending policy
/// name or group id when the category has one.
pub struct OpenPitEngineBuildError {
    code: OpenPitEngineBuildErrorCode,
    policy_name: String,
    policy_group_id: u16,
}

impl OpenPitEngineBuildError {
    /// The failure category.
    pub closed spec fn spec_code(&self) -> OpenPitEngineBuildErrorCode {
        self.code
    }

    /// The offending policy name (empty unless the name is duplicated).
    pub closed spec fn spec_policy_name(&self) -> Seq<char> {
        self.policy_name@
    }

    /// The offending group id (zero unless the group id is duplicated).
    pub closed spec fn spec_policy_group_id(&self) -> u16 {
        self.policy_group_id
    }

    /// Two policies share the name `name`.
    pub fn duplicate_policy_name(name: String) -> (res: Self)
        ensures
            res.spec_code() == OpenPitEngineBuildErrorCode::DuplicatePolicyName,
            res.spec_policy_name() == name@,
            res.spec_policy_group_id() == 0,
    {
        OpenPitEngineBuildError {
            code: OpenPitEngineBuildErrorCode::DuplicatePolicyName,
            policy_name: name,
            policy_group_id: 0,
        }
    }

    /// Two policies share the group id `policy_group_id`.
    pub fn duplicate_policy_group_id(policy_group_id: u16) -> (res: Self)
        ensures
            res.spec_code() == OpenPitEngineBuildErrorCode::DuplicatePolicyGroupId,
            res.spec_policy_name() == Seq::<char>::empty(),
            res.spec_policy_group_id() == policy_group_id,
    {
        OpenPitEngineBuildError {
            code: OpenPitEngineBuildErrorCode::DuplicatePolicyGroupId,
            policy_name: String::new(),
            policy_group_id,
        }
    }

    /// Any other build failure.
    pub fn other() -> (res: Self)
        ensures
            res.spec_code() == OpenPitEngineBuildErrorCode::Other,
            res.spec_policy_name() == Seq::<char>::empty(),
            res.spec_policy_group_id() == 0,
    {
        OpenPitEngineBuildError {
            code: OpenPitEngineBuildErrorCode::Other,
            policy_name: String::new(),
            policy_group_id: 0,
        }
    }

    /// The failure category.
    pub fn get_code(&self) -> (res: OpenPitEngineBuildErrorCode)
        ensures
            res == self.spec_code(),
    {
        self.code
    }

    /// A view of the offending policy name, borrowed from the error.
    pub fn get_policy_name(&self) -> (res: OpenPitStringView<'_>)
        ensures
            res.readable(),
            res.ptr.target() is Some,
            crate::text::view_text(res) == self.spec_policy_name(),
    {
        let view = OpenPitStringView::from_utf8(self.policy_name.as_str());
        proof {
            crate::text::lemma_view_text_of_str(view, self.policy_name@);
        }
        view
    }

    /// The offending group id.
    pub fn get_policy_group_id(&self) -> (res: u16)
        ensures
            res == self.spec_policy_group_id(),
    {
        self.policy_group_id
    }
}

/// Batch rejection details of an account-adjustment apply: the rejects and
/// the zero-based index of the failing adjustment.
pub struct OpenPitAccountAdjustmentBatchError {
    rejects: OpenPitRejectList,
    failed_adjustment_index: usize,
}

impl OpenPitAccountAdjustmentBatchError {
    /// The rejects.
    pub closed spec fn spec_rejects(&self) -> Seq<crate::reject::RejectRecord> {
        self.rejects@
    }

    /// The failing adjustment's index.
    pub closed spec fn spec_failed_adjustment_index(&self) -> usize {
        self.failed_adjustment_index
    }

    /// Batch error for the adjustment at `failed_adjustment_index`.
    pub fn new(failed_adjustment_index: usize, rejects: OpenPitRejectList) -> (res: Self)
        ensures
            res.spec_failed_adjustment_index() == failed_adjustment_index,
            res.spec_rejects() == rejects@,
    {
        OpenPitAccountAdjustmentBatchError { rejects, failed_adjustment_index }
    }

    /// The failing adjustment's index.
    pub fn get_failed_adjustment_index(&self) -> (res: usize)
        ensures
            res == self.spec_failed_adjustment_index(),
    {
        self.failed_adjustment_index
    }

    /// The rejects, borrowed from the batch error.
    pub fn get_rejects(&self) -> (res: &OpenPitRejectList)
        ensures
            res@ == self.spec_rejects(),
    {
        &self.rejects
    }
}

/// Decodes every payload of a batch, in order; the error of the first that
/// does not decode.
pub fn import_account_adjustments(views: &[OpenPitAccountAdjustment]) -> (res: Result<
    Vec<AccountAdjustment>,
    String,
>)
    requires
        forall|k: int| 0 <= k < views@.len() ==> adjustment_readable(#[trigger] views@[k]),
    ensures
        match res {
            Ok(values) => values@.len() == views@.len() && forall|k: int|
                0 <= k < views@.len() ==> adjustment_ok(#[trigger] views@[k]) && adjustment_imported(
                    views@[k],
                    values@[k],
                ),
            Err(m) => exists|i: int|
                0 <= i < views@.len() && !adjustment_ok(#[trigger] views@[i]) && adjustment_error(
                    views@[i],
                    m@,
                ) && forall|k: int| 0 <= k < i ==> adjustment_ok(#[trigger] views@[k]),
        },
{
    let mut values: Vec<AccountAdjustment> = Vec::new();
    let mut i: usize = 0;
    while i < views.len()
        invariant
            i <= views@.len(),
            values@.len() == i,
            forall|k: int| 0 <= k < views@.len() ==> adjustment_readable(#[trigger] views@[k]),
            forall|k: int|
                0 <= k < i ==> adjustment_ok(#[trigger] views@[k]) && adjustment_imported(
                    views@[k],
                    values@[k],
                ),
        decreases views@.len() - i,
    {
        match import_account_adjustment(&views[i]) {
            Ok(v) => values.push(v),
            Err(m) => {
                assert(!adjustment_ok(views@[i as int]));
                return Err(m);
            },
        }
        i = i + 1;
    }
    Ok(values)
}

/// The adjustments of an apply call, decoded in order: the array may be
/// null only when its length is zero; the first payload that does not decode
/// refuses the batch with its message.
pub fn account_adjustment_batch(adjustments: Option<&[OpenPitAccountAdjustment]>, adjustments_len: usize) -> (res:
    Result<Vec<AccountAdjustment>, String>)
    requires
        adjustments matches Some(s) ==> adjustments_len <= s@.len() && forall|k: int|
            0 <= k < adjustments_len ==> adjustment_readable(#[trigger] s@[k]),
    ensures
        adjustments_len == 0 ==> (res matches Ok(values) && values@.len() == 0),
        adjustments_len > 0 && adjustments is None ==> (res matches Err(m) && m@
            == "adjustments is null"@),
        adjustments_len > 0 && adjustments is Some ==> ({
            let views = adjustments->0@.subrange(0, adjustments_len as int);
            match res {
                Ok(values) => values@.len() == views.len() && forall|k: int|
                    0 <= k < views.len() ==> adjustment_ok(#[trigger] views[k])
                        && adjustment_imported(views[k], values@[k]),
                Err(m) => exists|i: int|
                    0 <= i < views.len() && !adjustment_ok(#[trigger] views[i]) && adjustment_error(
                        views[i],
                        m@,
                    ) && forall|k: int| 0 <= k < i ==> adjustment_ok(#[trigger] views[k]),
            }
        }),
{
    if adjustments_len == 0 {
        return Ok(Vec::new());
    }
    match adjustments {
        None => Err(String::from_str("adjustments is null")),
        Some(s) => {
            let views = vstd::slice::slice_subrange(s, 0, adjustments_len);
            assert(forall|k: int| 0 <= k < views@.len() ==> views@[k] == s@[k]);
            import_account_adjustments(views)
        },
    }
}

/// Where a deferred pre-trade request stands: it can be executed once.
#[derive(Clone, Copy, Debug, PartialEq, Eq, Structural)]
pub enum RequestPhase {
    /// Not executed yet.
    Pending,
    /// Executed (or its execution attempted).
    Consumed,
}

/// What an execute attempt does to a request: it is consumed, and only a
/// pending request goes on to execute.
pub open spec fn spec_request_execute(p: RequestPhase) -> (RequestPhase, bool) {
    (RequestPhase::Consumed, p == RequestPhase::Pending)
}

/// Law: a request executes at most once: after any attempt it is consumed
/// and every further attempt is refused.
pub proof fn lemma_request_executes_once(p: RequestPhase)
    ensures
        spec_request_execute(p).0 == RequestPhase::Consumed,
        !spec_request_execute(spec_request_execute(p).0).1,
{
}

/// Whether a request goes on to execute: refused without a request or once
/// it was executed; any attempt consumes it.
pub fn openpit_pretrade_pre_trade_request_execute(request: Option<&mut RequestPhase>) -> (res: Result<
    (),
    String,
>)
    ensures
        request is None ==> (res matches Err(m) && m@ == "request is null"@),
        request matches Some(r) ==> *final(r) == spec_request_execute(*r).0 && (if spec_request_execute(
            *r,
        ).1 {
            res is Ok
        } else {
            res matches Err(m) && m@ == "pre-trade request already consumed"@
        }),
{
    match request {
        None => Err(String::from_str("request is null")),
        Some(r) => {
            let phase = *r;
            *r = RequestPhase::Consumed;
            match phase {
                RequestPhase::Pending => Ok(()),
                RequestPhase::Consumed => Err(String::from_str("pre-trade request already consumed")),
            }
        },
    }
}

/// The status a pre-trade stage reports for the engine's answer: passed or
/// rejected.
pub fn pre_trade_status<T, E>(outcome: &Result<T, E>) -> (res: OpenPitPretradeStatus)
    ensures
        res == (if outcome is Ok {
            OpenPitPretradeStatus::Passed
        } else {
            OpenPitPretradeStatus::Rejected
        }),
{
    match outcome {
        Ok(_) => OpenPitPretradeStatus::Passed,
        Err(_) => OpenPitPretradeStatus::Rejected,
    }
}

/// What openpit's account-group registry refuses, as plain values.
#[allow(inconsistent_fields)]
#[derive(Clone, Copy, Debug, PartialEq, Eq)]
pub enum AccountGroupFailure {
    /// The target group is the reserved default account group.
    ReservedGroup,
    /// The account is already a member of `current_group`.
    AlreadyRegistered {
        /// The account.
        account: u64,
        /// Its group.
        current_group: u32,
    },
    /// The account is not a member of `requested_group`; it belongs to
    /// `current_group`, or to no group.
    NotInGroup {
        /// The account.
        account: u64,
        /// The group asked for.
        requested_group: u32,
        /// Its group, if any.
        current_group: Option<u32>,
    },
}

impl AccountGroupFailure {
    /// openpit's display text of the refusal.
    pub open spec fn spec_message(self) -> Seq<char> {
        match self {
            AccountGroupFailure::ReservedGroup => "the reserved default account group is not a valid target"@,
            AccountGroupFailure::AlreadyRegistered { .. } => "account is already registered in a different group"@,
            AccountGroupFailure::NotInGroup { current_group: Some(_), .. } =>
                "account is not in the requested group; it belongs to a different group"@,
            AccountGroupFailure::NotInGroup { current_group: None, .. } =>
                "account is not in the requested group; it belongs to no group"@,
        }
    }

    /// The account the refusal names (zero when it names none).
    pub open spec fn spec_account(self) -> u64 {
        match self {
            AccountGroupFailure::ReservedGroup => 0,
            AccountGroupFailure::AlreadyRegistered { account, .. } => account,
            AccountGroupFailure::NotInGroup { account, .. } => account,
        }
    }

    /// The current group the refusal names, if any.
    pub open spec fn spec_current_group(self) -> Option<u32> {
        match self {
            AccountGroupFailure::ReservedGroup => None,
            AccountGroupFailure::AlreadyRegistered { current_group, .. } => Some(current_group),
            AccountGroupFailure::NotInGroup { current_group, .. } => current_group,
        }
    }

    /// openpit's display text of the refusal.
    pub fn message(self) -> (res: &'static str)
        ensures
            res@ == self.spec_message(),
    {
        match self {
            AccountGroupFailure::ReservedGroup => "the reserved default account group is not a valid target",
            AccountGroupFailure::AlreadyRegistered { .. } => "account is already registered in a different group",
            AccountGroupFailure::NotInGroup { current_group: Some(_), .. } =>
                "account is not in the requested group; it belongs to a different group",
            AccountGroupFailure::NotInGroup { current_group: None, .. } =>
                "account is not in the requested group; it belongs to no group",
        }
    }
}

/// Structured error of account-group registry operations.
pub struct OpenPitAccountGroupError {
    message: String,
    account: u64,
    current_group: u32,
    current_group_is_set: bool,
}

impl OpenPitAccountGroupError {
    /// The message.
    pub closed spec fn spec_message(&self) -> Seq<char> {
        self.message@
    }

    /// The offending account.
    pub closed spec fn spec_account(&self) -> u64 {
        self.account
    }

    /// The offending account's current group, if it has one.
    pub closed spec fn spec_current_group(&self) -> Option<u32> {
        if self.current_group_is_set {
            Some(self.current_group)
        } else {
            None
        }
    }

    /// The error reporting what openpit's account-group registry refused:
    /// its message, and the offending account and its current group where
    /// the refusal names them.
    pub fn new(err: AccountGroupFailure) -> (res: Self)
        ensures
            res.spec_message() == err.spec_message(),
            res.spec_account() == err.spec_account(),
            res.spec_current_group() == err.spec_current_group(),
    {
        let message = String::from_str(err.message());
        match err {
            AccountGroupFailure::AlreadyRegistered { account, current_group } => OpenPitAccountGroupError {
                message,
                account,
                current_group,
                current_group_is_set: true,
            },
            AccountGroupFailure::NotInGroup { account, current_group, .. } => match current_group {
                Some(group) => OpenPitAccountGroupError {
                    message,
                    account,
                    current_group: group,
                    current_group_is_set: true,
                },
                None => OpenPitAccountGroupError {
                    message,
                    account,
                    current_group: 0,
                    current_group_is_set: false,
                },
            },
            AccountGroupFailure::ReservedGroup => OpenPitAccountGroupError {
                message,
                account: 0,
                current_group: 0,
                current_group_is_set: false,
            },
        }
    }

    /// A view of the message, borrowed from the error.
    pub fn get_message(&self) -> (res: OpenPitStringView<'_>)
        ensures
            res.readable(),
            crate::text::view_text(res) == self.spec_message(),
    {
        let view = OpenPitStringView::from_utf8(self.message.as_str());
        proof {
            crate::text::lemma_view_text_of_str(view, self.message@);
        }
        view
    }

    /// The offending account.
    pub fn get_account(&self) -> (res: u64)
        ensures
            res == self.spec_account(),
    {
        self.account
    }

    /// The offending account's current group, if it has one.
    pub fn get_current_group(&self) -> (res: Option<u32>)
        ensures
            res == self.spec_current_group(),
    {
        if self.current_group_is_set {
            Some(self.current_group)
        } else {
            None
        }
    }
}

/// `AccountGroupId::from_u32` of openpit, taken back to its integer: every
/// group id but the reserved default group `0`
/// (`AccountGroupIdError::Reserved`).
#[verifier::external_body]
fn account_group_id_from_u32(value: u32) -> (res: Option<u32>)
    ensures
        res is None <==> value == 0,
        res matches Some(group) ==> group == value,
{
    match AccountGroupId::from_u32(value) {
        Ok(group) => Some(group.as_u32()),
        Err(_) => None,
    }
}

/// Why an account-group registry request is refused before it reaches the
/// registry.
pub enum AccountGroupRequestError {
    /// An argument cannot be read; the message says which.
    Argument(String),
    /// The target group is the reserved default group.
    Group(OpenPitAccountGroupError),
}

/// The accounts and the target group of a registry request (registering or
/// unregistering): the accounts array may be null only when its length is
/// zero, and the target must not be the reserved default group.
pub fn account_group_request(accounts: Option<&[u64]>, accounts_len: usize, group: u32) -> (res: Result<
    (Vec<u64>, u32),
    AccountGroupRequestError,
>)
    requires
        accounts matches Some(s) ==> accounts_len <= s@.len(),
    ensures
        accounts_len > 0 && accounts is None ==> (res matches Err(AccountGroupRequestError::Argument(m))
            && m@ == "accounts is null"@),
        !(accounts_len > 0 && accounts is None) && group == 0 ==> (res matches Err(
            AccountGroupRequestError::Group(e),
        ) && e.spec_message() == AccountGroupFailure::ReservedGroup.spec_message()
            && e.spec_account() == 0 && e.spec_current_group() is None),
        !(accounts_len > 0 && accounts is None) && group != 0 ==> (res matches Ok((ids, g)) && g
            == group && ids@ == (if accounts_len == 0 {
            Seq::<u64>::empty()
        } else {
            accounts->0@.subrange(0, accounts_len as int)
        })),
{
    let ids: Vec<u64> = if accounts_len == 0 {
        Vec::new()
    } else {
        match accounts {
            None => return Err(AccountGroupRequestError::Argument(String::from_str("accounts is null"))),
            Some(s) => vstd::slice::slice_to_vec(vstd::slice::slice_subrange(s, 0, accounts_len)),
        }
    };
    match account_group_id_from_u32(group) {
        Some(g) => Ok((ids, g)),
        None => Err(AccountGroupRequestError::Group(OpenPitAccountGroupError::new(AccountGroupFailure::ReservedGroup))),
    }
}

/// The target group of a group block operation: the reserved default group
/// is refused.
pub fn account_block_group(group: u32) -> (res: Result<u32, OpenPitAccountBlockError>)
    ensures
        group == 0 ==> (res matches Err(e) && e.spec_message() == AccountBlockFailure::ReservedGroup.spec_message()
            && e.spec_account() is None && e.spec_group() is None),
        group != 0 ==> res == Ok::<u32, OpenPitAccountBlockError>(group),
{
    match account_group_id_from_u32(group) {
        Some(g) => Ok(g),
        None => Err(OpenPitAccountBlockError::new(AccountBlockFailure::ReservedGroup)),
    }
}

/// Which variant an account-block error carries.
#[derive(Clone, Copy, Debug, PartialEq, Eq, Structural)]
pub enum OpenPitAccountBlockErrorKind {
    /// The target group is the reserved default account group.
    ReservedGroup,
    /// The target account is not currently blocked.
    AccountNotBlocked,
    /// The target account group is not currently blocked.
    GroupNotBlocked,
}

/// What openpit's account-block control refuses, as plain values.
#[derive(Clone, Copy, Debug, PartialEq, Eq, Structural)]
pub enum AccountBlockFailure {
    /// The target group is the reserved default account group.
    ReservedGroup,
    /// The account is not blocked.
    AccountNotBlocked {
        /// The account.
        account: u64,
    },
    /// The account group is not blocked.
    GroupNotBlocked {
        /// The group.
        group: u32,
    },
}

impl AccountBlockFailure {
    /// openpit's display text of the refusal.
    pub open spec fn spec_message(self) -> Seq<char> {
        match self {
            AccountBlockFailure::ReservedGroup => "the reserved default account group is not a valid target"@,
            AccountBlockFailure::AccountNotBlocked { .. } => "account is not blocked"@,
            AccountBlockFailure::GroupNotBlocked { .. } => "account group is not blocked"@,
        }
    }

    /// The account the refusal names, if any.
    pub open spec fn spec_account(self) -> Option<u64> {
        match self {
            AccountBlockFailure::AccountNotBlocked { account } => Some(account),
            _ => None,
        }
    }

    /// The group the refusal names, if any.
    pub open spec fn spec_group(self) -> Option<u32> {
        match self {
            AccountBlockFailure::GroupNotBlocked { group } => Some(group),
            _ => None,
        }
    }

    /// openpit's display text of the refusal.
    pub fn message(self) -> (res: &'static str)
        ensures
            res@ == self.spec_message(),
    {
        match self {
            AccountBlockFailure::ReservedGroup => "the reserved default account group is not a valid target",
            AccountBlockFailure::AccountNotBlocked { .. } => "account is not blocked",
            AccountBlockFailure::GroupNotBlocked { .. } => "account group is not blocked",
        }
    }
}

/// Structured error of account block operations: the message and the
/// offending account or group, when the variant carries one.
pub struct OpenPitAccountBlockError {
    message: String,
    account: u64,
    account_is_set: bool,
    group: u32,
    group_is_set: bool,
}

impl OpenPitAccountBlockError {
    /// The message.
    pub closed spec fn spec_message(&self) -> Seq<char> {
        self.message@
    }

    /// The offending account, if any.
    pub closed spec fn spec_account(&self) -> Option<u64> {
        if self.account_is_set {
            Some(self.account)
        } else {
            None
        }
    }

    /// The offending group, if any.
    pub closed spec fn spec_group(&self) -> Option<u32> {
        if self.group_is_set {
            Some(self.group)
        } else {
            None
        }
    }

    /// The error reporting what openpit's account-block control refused: its
    /// message, and the account or group the refusal names.
    pub fn new(err: AccountBlockFailure) -> (res: Self)
        ensures
            res.spec_message() == err.spec_message(),
            res.spec_account() == err.spec_account(),
            res.spec_group() == err.spec_group(),
    {
        let message = String::from_str(err.message());
        match err {
            AccountBlockFailure::AccountNotBlocked { account } => OpenPitAccountBlockError {
                message,
                account,
                account_is_set: true,
                group: 0,
                group_is_set: false,
            },
            AccountBlockFailure::GroupNotBlocked { group } => OpenPitAccountBlockError {
                message,
                account: 0,
                account_is_set: false,
                group,
                group_is_set: true,
            },
            AccountBlockFailure::ReservedGroup => OpenPitAccountBlockError {
                message,
                account: 0,
                account_is_set: false,
                group: 0,
                group_is_set: false,
            },
        }
    }

    /// A view of the message, borrowed from the error.
    pub fn get_message(&self) -> (res: OpenPitStringView<'_>)
        ensures
            res.readable(),
            crate::text::view_text(res) == self.spec_message(),
    {
        let view = OpenPitStringView::from_utf8(self.message.as_str());
        proof {
            crate::text::lemma_view_text_of_str(view, self.message@);
        }
        view
    }

    /// The variant: an account means the account is not blocked, else a
    /// group means the group is not blocked, else the reserved group.
    pub fn get_kind(&self) -> (res: OpenPitAccountBlockErrorKind)
        ensures
            self.spec_account() is Some ==> res == OpenPitAccountBlockErrorKind::AccountNotBlocked,
            self.spec_account() is None && self.spec_group() is Some ==> res
                == OpenPitAccountBlockErrorKind::GroupNotBlocked,
            self.spec_account() is None && self.spec_group() is None ==> res
                == OpenPitAccountBlockErrorKind::ReservedGroup,
    {
        if self.account_is_set {
            OpenPitAccountBlockErrorKind::AccountNotBlocked
        } else if self.group_is_set {
            OpenPitAccountBlockErrorKind::GroupNotBlocked
        } else {
            OpenPitAccountBlockErrorKind::ReservedGroup
        }
    }

    /// The offending account, if any.
    pub fn get_account(&self) -> (res: Option<u64>)
        ensures
            res == self.spec_account(),
    {
        if self.account_is_set {
            Some(self.account)
        } else {
            None
        }
    }

    /// The offending group, if any.
    pub fn get_group(&self) -> (res: Option<u32>)
        ensures
            res == self.spec_group(),
    {
        if self.group_is_set {
            Some(self.group)
        } else {
            None
        }
    }
}

/// Which variant a configure error carries.
#[derive(Clone, Copy, Debug, PartialEq, Eq, Structural)]
pub enum OpenPitConfigureErrorKind {
    /// No configurable policy carries the requested name.
    Unknown,
    /// The policy's settings type differs from the targeted one.
    TypeMismatch,
    /// The update was refused by validation; the prior configuration applies.
    Validation,
}

/// Structured error of runtime policy reconfiguration.
pub struct OpenPitConfigureError {
    message: String,
    kind: OpenPitConfigureErrorKind,
}

impl OpenPitConfigureError {
    /// The message.
    pub closed spec fn spec_message(&self) -> Seq<char> {
        self.message@
    }

    /// The kind.
    pub closed spec fn spec_kind(&self) -> OpenPitConfigureErrorKind {
        self.kind
    }

    /// An error of kind `kind`.
    pub fn new(message: String, kind: OpenPitConfigureErrorKind) -> (res: Self)
        ensures
            res.spec_message() == message@,
            res.spec_kind() == kind,
    {
        OpenPitConfigureError { message, kind }
    }

    /// An argument that could not be parsed into the value the configuration
    /// needs; reported as a validation failure, nothing was changed.
    pub fn validation(message: String) -> (res: Self)
        ensures
            res.spec_message() == message@,
            res.spec_kind() == OpenPitConfigureErrorKind::Validation,
    {
        OpenPitConfigureError { message, kind: OpenPitConfigureErrorKind::Validation }
    }

    /// A view of the message, borrowed from the error.
    pub fn get_message(&self) -> (res: OpenPitStringView<'_>)
        ensures
            res.readable(),
            crate::text::view_text(res) == self.spec_message(),
    {
        let view = OpenPitStringView::from_utf8(self.message.as_str());
        proof {
            crate::text::lemma_view_text_of_str(view, self.message@);
        }
        view
    }

    /// The kind.
    pub fn get_kind(&self) -> (res: OpenPitConfigureErrorKind)
        ensures
            res == self.spec_kind(),
    {
        self.kind
    }
}

/// The text of a block reason: empty when the pointer is null or the length
/// zero (a null pointer with a length is not read), otherwise the bytes
/// decoded, invalid UTF-8 replaced by U+FFFD.
pub open spec fn reason_text(reason: OpenPitStringView) -> Seq<char> {
    if reason.ptr.target() is None || reason.len == 0 {
        Seq::empty()
    } else if vstd::utf8::valid_utf8(reason.spec_bytes()) {
        vstd::utf8::decode_utf8(reason.spec_bytes())
    } else {
        lossy_utf8_text(reason.spec_bytes())
    }
}

/// Copies a block reason (see `reason_text`).
pub fn import_reason(reason: OpenPitStringView) -> (res: String)
    requires
        reason.readable(),
    ensures
        res@ == reason_text(reason),
{
    if reason.len == 0 {
        return String::new();
    }
    match reason.ptr.bytes() {
        None => String::new(),
        Some(bytes) => string_from_utf8_lossy(vstd::slice::slice_subrange(bytes, 0, reason.len)),
    }
}

/// Law: the messages of the account-group refusals, whatever accounts and
/// groups they name.
pub proof fn lemma_account_group_failure_texts(account: u64, current: u32, requested: u32)
    ensures
        AccountGroupFailure::ReservedGroup.spec_message()
            == "the reserved default account group is not a valid target"@,
        (AccountGroupFailure::AlreadyRegistered { account, current_group: current }).spec_message()
            == "account is already registered in a different group"@,
        (AccountGroupFailure::NotInGroup { account, requested_group: requested, current_group: Some(current) }).spec_message()
            == "account is not in the requested group; it belongs to a different group"@,
        (AccountGroupFailure::NotInGroup { account, requested_group: requested, current_group: None }).spec_message()
            == "account is not in the requested group; it belongs to no group"@,
{
}

/// Law: the messages of the account-block refusals, whatever accounts and
/// groups they name.
pub proof fn lemma_account_block_failure_texts(account: u64, group: u32)
    ensures
        AccountBlockFailure::ReservedGroup.spec_message()
            == "the reserved default account group is not a valid target"@,
        (AccountBlockFailure::AccountNotBlocked { account }).spec_message() == "account is not blocked"@,
        (AccountBlockFailure::GroupNotBlocked { group }).spec_message() == "account group is not blocked"@,
{
}

} // verus!
