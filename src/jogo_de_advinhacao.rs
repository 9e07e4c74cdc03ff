//! O jogo de adivinhação: um número secreto de 1 a 100 e palpites digitados.
//!
//! Cada palpite é uma linha; a resposta diz se o palpite é inválido, se o
//! número secreto é maior ou menor, ou se o jogador acertou.

use vstd::prelude::*;
use crate::texto::{aparado, aparar, decimal, entre, ler_i8};

verus! {

/// Depende de `rand::rng()` e `Rng::random_range(min..=max)`: um valor sorteado
/// no intervalo fechado. O intervalo vazio faria a chamada entrar em pânico.
#[verifier::external_body]
fn sorteia_entre(min: i8, max: i8) -> (r: i8)
    requires
        min <= max,
    ensures
        min <= r <= max,
{
    rand::Rng::random_range(&mut rand::rng(), min..=max)
}

/// A resposta a uma linha digitada.
#[derive(Debug, Clone, Copy, PartialEq, Eq, Structural)]
pub enum Resposta {
    /// A linha não é um `i8`: o palpite é ignorado.
    Invalido,
    /// O palpite, menor que o número secreto.
    SecretoMaior(i8),
    /// O palpite, maior que o número secreto.
    SecretoMenor(i8),
    /// O palpite, igual ao número secreto: o jogo termina.
    Acertou(i8),
}

/// O palpite que uma linha escreve: um `i8` em decimal, com espaços em volta.
pub open spec fn palpite_da_linha(linha: Seq<char>) -> Option<int> {
    let v = decimal(aparado(linha), true);
    if entre(v, i8::MIN as int, i8::MAX as int) {
        v
    } else {
        None
    }
}

/// A resposta a um palpite, comparado ao número secreto.
pub open spec fn resposta_para(palpite: Option<int>, segredo: int) -> Resposta {
    match palpite {
        None => Resposta::Invalido,
        Some(g) => if g < segredo {
            Resposta::SecretoMaior(g as i8)
        } else if g > segredo {
            Resposta::SecretoMenor(g as i8)
        } else {
            Resposta::Acertou(g as i8)
        },
    }
}

/// Uma partida: o número secreto.
#[derive(Debug, Clone, Copy, PartialEq, Eq, Structural)]
pub struct Jogo {
    pub segredo: i8,
}

impl Jogo {
    /// Uma partida com um número secreto sorteado entre 1 e 100.
    pub fn novo() -> (r: Jogo)
        ensures
            1 <= r.segredo <= 100,
    {
        Jogo { segredo: sorteia_entre(1, 100) }
    }

    /// Uma partida com o número secreto dado.
    pub fn com_segredo(segredo: i8) -> (r: Jogo)
        ensures
            r.segredo == segredo,
    {
        Jogo { segredo }
    }

    /// Responde a uma linha digitada. O jogo termina quando a resposta é
    /// `Acertou`.
    pub fn responde(&self, linha: &str) -> (r: Resposta)
        ensures
            r == resposta_para(palpite_da_linha(linha@), self.segredo as int),
    {
        let guess: i8 = match ler_i8(aparar(linha)) {
            Ok(num) => num,
            Err(_) => {
                return Resposta::Invalido;
            },
        };
        if guess < self.segredo {
            Resposta::SecretoMaior(guess)
        } else if guess > self.segredo {
            Resposta::SecretoMenor(guess)
        } else {
            Resposta::Acertou(guess)
        }
    }
}

} // verus!
