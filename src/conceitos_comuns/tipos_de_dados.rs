//! Tipos escalares e compostos: inteiros, booleanos, caracteres, tuplas e arrays.

use vstd::prelude::*;
use crate::texto::{aparado, aparar, decimal, eh_digito, entre, ler_u8, ler_usize, so_digitos, valor_digitos};

verus! {

/// Converte o texto `"42"` para `u8`, com o tipo anotado na variável.
pub fn tipo_numerico_explicito() -> (r: u8)
    ensures
        r == 42,
{
    let texto = "42";
    proof {
        reveal_strlit("42");
        let s = texto@;
        assert(s.len() == 2 && s[0] == '4' && s[1] == '2');
        assert(s.drop_last().drop_last() =~= Seq::<char>::empty());
        assert(eh_digito(s[0]) && eh_digito(s[1]));
        assert(so_digitos(s));
        let d = s.drop_last();
        assert(d.len() == 1 && d.last() == '4');
        assert(valor_digitos(d.drop_last()) == 0);
        assert(valor_digitos(d) == 4);
        assert(valor_digitos(s) == 42);
    }
    let guess: u8 = ler_u8(texto).expect("Não é um número!");
    guess
}

/// As operações inteiras básicas: soma, produto e resto.
pub fn operacoes_basicas() -> (r: (i32, i32, i32))
    ensures
        r == (15i32, 120i32, 3i32),
{
    let sum: i32 = 5 + 10;
    let product: i32 = 4 * 30;
    let remainder: i32 = 43 % 5;
    (sum, product, remainder)
}

/// Dois booleanos e três caracteres, um deles fora do ASCII e outro um emoji.
pub fn tipos_logicos_e_chars() -> (r: (bool, bool, char, char, char))
    ensures
        r == (true, false, 'z', 'ℤ', '😻'),
{
    let t = true;
    let f: bool = false;
    let c = 'z';
    let z = 'ℤ';
    let emoji = '😻';
    (t, f, c, z, emoji)
}

/// Uma tupla, lida por desestruturação e por acesso direto aos campos.
pub fn tuplas() -> (r: (i32, u8))
    ensures
        r == (500i32, 1u8),
{
    let tup: (i32, u8) = (500, 1);
    let (_x, z) = tup;
    let five_hundred = tup.0;
    (five_hundred, z)
}

/// Um array de cinco elementos iguais, e os seus dois primeiros elementos.
pub fn arrays_validos() -> (r: (i32, i32))
    ensures
        r == (3i32, 3i32),
{
    let a: [i32; 5] = [3; 5];
    let first = a[0];
    let second = a[1];
    (first, second)
}

/// O elemento de `[1, 2, 3, 4, 5]` no índice dado. Um índice fora do array
/// faria o acesso entrar em pânico, por isso fica de fora.
pub fn acesso_invalido(index: usize) -> (r: i32)
    requires
        index < 5,
    ensures
        r == index + 1,
{
    let a: [i32; 5] = [1, 2, 3, 4, 5];
    a[index]
}

/// O índice escrito numa linha: dígitos decimais, com espaços em volta.
/// `None` quando a linha não é um número que caiba em `usize`.
pub fn indice_informado(linha: &str) -> (r: Option<usize>)
    ensures
        r is Some <==> entre(decimal(aparado(linha@), false), 0, usize::MAX as int),
        r is Some ==> decimal(aparado(linha@), false) == Some(r->0 as int),
{
    match ler_usize(aparar(linha)) {
        Ok(index) => Some(index),
        Err(_) => None,
    }
}

} // verus!
