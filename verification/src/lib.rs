//! Verified core of the OpenPit C interface: string views, reject records,
//! decimal parameters, pre-trade locks and their binary layout, account
//! adjustments, and the decision logic behind the exported entry points.

pub mod param;
pub mod string;
pub mod lock_model;
pub mod pre_trade_lock;
pub mod raw_lock;
pub mod text;
pub mod reject;
pub mod instrument;
pub mod account_adjustment;
pub mod engine;
pub mod policy;
pub mod configure;
pub mod python;
