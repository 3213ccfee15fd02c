pub mod ast;
pub mod flow;
pub mod namespace;
pub mod parse;
pub mod stencil_call;
pub mod style;
pub mod style_expr;
pub mod types;
pub mod utils;
