//! Ownership: mover, copiar, clonar e emprestar valores.

use vstd::prelude::*;

verus! {

/// Uma `String` movida para outra variável e um `i32` copiado. Devolve o
/// novo dono da `String` e as duas cópias do inteiro, ambas válidas.
pub fn ownership_basico() -> (r: (String, i32, i32))
    ensures
        r.0@ == "olá"@,
        r.1 == 42 && r.2 == 42,
{
    let s1 = "olá".to_string();
    let s2 = s1;
    let x: i32 = 42;
    let y = x;
    (s2, x, y)
}

/// Um nome que passa de dono: quem o recebe fica com ele.
pub fn ownership_com_funcao() -> (r: String)
    ensures
        r@ == "Rustacean"@,
{
    let nome = "Rustacean".to_string();
    nome
}

/// Uma `String` e o seu clone, os dois válidos e iguais.
pub fn clone_vs_move() -> (r: (String, String))
    ensures
        r.0@ == "clone-me"@,
        r.1@ == r.0@,
{
    let a = "clone-me".to_string();
    let b = a.clone();
    (a, b)
}

/// Acrescenta um ponto de exclamação ao fim da `String` emprestada.
pub fn adiciona_exclamacao(s: &mut String)
    ensures
        final(s)@ == old(s)@.push('!'),
{
    s.push('!');
}

/// Uma `String` emprestada de forma mutável e alterada pela função.
pub fn referencia_mutavel() -> (r: String)
    ensures
        r@ == "editável"@.push('!'),
{
    let mut s = "editável".to_string();
    adiciona_exclamacao(&mut s);
    s
}

} // verus!
