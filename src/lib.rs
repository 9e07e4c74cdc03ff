//! Exemplos curtos da linguagem, com contratos verificados: funções,
//! tipos de dados, controle de fluxo, ownership, structs, métodos e enums.

pub mod conceitos_comuns;
pub mod texto;
pub mod entrada_de_usuario;
pub mod enums;
pub mod structs;
pub mod ownership;
pub mod jogo_de_advinhacao;
