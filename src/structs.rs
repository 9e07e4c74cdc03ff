//! Structs: campos nomeados, tuple structs, métodos e funções associadas.

pub mod definindo_structs;
pub mod exemplo_retangulo;
pub mod metodos;
