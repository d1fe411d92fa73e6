//! State and rules of four small on-chain programs, with every rule proved.
//!
//! The centre is [`multi_sig`], an engine in which a group of owners
//! approves actions by quorum. Beside it stand a counter, a task list and a
//! feed of values. Nothing here reads an account, a clock or a network:
//! callers hand in plain values and store what comes back.

pub mod counter_app;
pub mod key;
pub mod multi_sig;
pub mod price_oracle;
pub mod seq_facts;
pub mod todo_list;
