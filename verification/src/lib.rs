//! An incremental command-grammar and autocomplete engine for a multi-module
//! audio instrument console.
//!
//! As the operator types a command word by word, the engine tracks the set of
//! legal next tokens at the current grammar position, collapses the position
//! to a concrete value once the text matches exactly one candidate (or parses
//! under a numeric rule), and asks the transition graph for the next position
//! until the command is complete.

pub mod command;
pub mod grammar;
pub mod numeric;
pub mod text;
pub mod tokens;

pub use command::Command;
pub use grammar::CandidateSet;
pub use grammar::CmdError;
pub use grammar::NodeType;
pub use grammar::TokenKind;
pub use numeric::Decimal;
pub use text::fold_char;
pub use text::normalize;
pub use tokens::CmdToken;
pub use tokens::TokenValue;
