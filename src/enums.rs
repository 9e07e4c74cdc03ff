//! Enums: variantes com e sem dados, `Option` e `if let`.

pub mod definindo_enums;
pub mod if_let;
pub mod option_enum;
