//! Static (typing-time) reduction of name terms, index terms and types:
//! substitution, name-term normalization, apart-normal decomposition of
//! name sets, index-term evaluation and type normalization.

pub mod ast;
pub mod subst;
pub mod ctx;
pub mod normal;
pub mod util;
