//! C-style prefix and postfix `++` / `--`: the operator search over the
//! macro input, the block each form expands to, and what that block does.

pub mod api;
pub mod expand;
pub mod laws;
pub mod parse;
pub mod steppable;
pub mod tokens;

pub use api::{crement, post_dec, post_inc, pre_dec, pre_inc};
pub use expand::{Binding, Expansion, Stmt};
pub use parse::{locate_operator, Crement, CrementError, Op, OperatorSite};
pub use steppable::Steppable;
pub use tokens::{Token, TokenKind};
