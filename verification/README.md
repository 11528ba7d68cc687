# openpit_ffi

The verified core of the OpenPit C interface, written in Verus.

`src/` holds the library; every function in it carries a contract that Verus
proves:

- `param`, `text`, `string`: decimal parameters and their 16-byte form,
  decimal and white-space text, borrowed and shared string views.
- `lock_model`, `pre_trade_lock`, `raw_lock`: pre-trade locks (price
  entries per policy group), their merge and lookup laws, and the binary,
  MessagePack, JSON and CBOR encodings.
- `reject`: reject codes and scopes, reject views and reject lists.
- `instrument`, `account_adjustment`: the instrument and account adjustment
  records exchanged with callers, checked field by field.
- `engine`, `policy`, `configure`: the decisions behind the engine entry
  points: builder phases, sync policies, account group and block errors,
  custom policy names and hooks, and the arguments of the built-in policies
  at creation and at reconfiguration.
- `python`: the text forms used by the Python binding (sides, position
  modes, rounding strategies, account ids, leverage, reject records).

`app/` is plain Rust around the library: the `extern "C"` entry points for
strings, shared bytes, reject lists, pre-trade locks and the error handles,
which only move pointers and handles. `tests/` exercises the library.

The entry points that hold a running engine are not provided: the engine
type is built on the `openpit_interop` crate, which is not available to this
build. These are the engine builder and engine handles
(`openpit_destroy_engine_builder`, `openpit_destroy_engine`), pre-trade start
and execute (`openpit_engine_start_pre_trade`,
`openpit_engine_execute_pre_trade`, `openpit_destroy_pretrade_pre_trade_request`),
reservations (`openpit_pretrade_pre_trade_reservation_commit`, `_rollback`,
`_get_lock`, `_get_account_adjustments`,
`openpit_destroy_pretrade_pre_trade_reservation`), execution reports
(`openpit_engine_apply_execution_report`), account adjustments
(`openpit_engine_apply_account_adjustment`), account groups
(`openpit_engine_register_account_group`, `_unregister_account_group`,
`openpit_engine_account_group`), account blocks (`openpit_engine_block_account`,
`_unblock_account`, `_replace_account_block_reason`, `_block_account_group`,
`_unblock_account_group`, `_replace_account_group_block_reason`), custom
policies (`openpit_create_pretrade_custom_pre_trade_policy`,
`_with_dry_run`, `openpit_destroy_pretrade_pre_trade_policy`), mutations
(`openpit_mutations_push`), and the built-in policies
(`openpit_engine_builder_add_builtin_rate_limit_policy`,
`_order_size_limit_policy`, `_pnl_bounds_killswitch_policy`,
`openpit_engine_configure_rate_limit`, `_order_size_limit`,
`_pnl_bounds_killswitch`, `_set_account_pnl`). What these entry points decide stands in the
library: builder phases, request execution, account group and block
requests, adjustment batches, custom policy names and hooks, and the
arguments of the built-in policies at creation and at reconfiguration.
