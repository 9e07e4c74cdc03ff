//! Referências: empréstimos imutáveis e mutáveis, e quando termina cada um.

use vstd::prelude::*;
use vstd::utf8::{encode_utf8, is_ascii_chars, is_ascii_chars_encode_utf8};

verus! {

/// O tamanho da `String` em bytes, na codificação UTF-8.
pub fn calcula_tamanho(s: &String) -> (r: usize)
    ensures
        r == encode_utf8(s@).len() as usize,
{
    s.as_str().len()
}

/// O tamanho de `"hello"`, lido por uma referência; a `String` segue válida.
pub fn referencia_basica() -> (r: (String, usize))
    ensures
        r.0@ == "hello"@,
        r.1 == 5,
{
    let s1: String = "hello".to_string();
    let len: usize = calcula_tamanho(&s1);
    proof {
        reveal_strlit("hello");
        assert(is_ascii_chars(s1@));
        is_ascii_chars_encode_utf8(s1@);
    }
    (s1, len)
}

/// Um valor emprestado só para leitura fica como estava.
pub fn tentativa_modificacao_imutavel() -> (r: String)
    ensures
        r@ == "hello"@,
{
    let s: String = "hello".to_string();
    s
}

/// Acrescenta `", world"` ao fim da `String` emprestada.
pub fn modifica(s: &mut String)
    ensures
        final(s)@ == old(s)@ + ", world"@,
{
    s.push_str(", world");
}

/// Uma `String` alterada por um empréstimo mutável.
pub fn referencia_mutavel_valida() -> (r: String)
    ensures
        r@ == "hello"@ + ", world"@,
{
    let mut s: String = "hello".to_string();
    modifica(&mut s);
    s
}

/// Um só empréstimo mutável de cada vez: a `String` segue como foi criada.
pub fn referencias_mutaveis_simultaneas() -> (r: String)
    ensures
        r@ == "olá"@,
{
    let s: String = "olá".to_string();
    s
}

/// Empréstimos imutáveis e um mutável não convivem: a `String` segue como
/// foi criada.
pub fn mistura_referencias() -> (r: String)
    ensures
        r@ == "olá"@,
{
    let s: String = "olá".to_string();
    s
}

/// Duas leituras e, depois do último uso delas, uma escrita pela referência
/// mutável. Devolve o que as leituras viram e o valor final.
pub fn escopo_encerra_referencia() -> (r: (String, String))
    ensures
        r.0@ == "olá"@,
        r.1@ == "olá"@ + "!!!"@,
{
    let mut s: String = "olá".to_string();
    let r1: &String = &s;
    let r2: &String = &s;
    let lido = r1.clone();
    assert(r2@ == lido@);
    let r3: &mut String = &mut s;
    r3.push_str("!!!");
    (lido, s)
}

/// Em vez de uma referência a um valor local, que não sobreviveria à
/// função, devolve o próprio valor: a posse passa a quem chamou.
pub fn referencia_pendurada() -> (r: String)
    ensures
        r@ == "hello"@,
{
    let s = "hello".to_string();
    s
}

} // verus!
