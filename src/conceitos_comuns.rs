//! Conceitos comuns: funções, tipos de dados e controle de fluxo.

pub mod controle_de_fluxo;
pub mod funcoes;
pub mod tipos_de_dados;
