//! Fatias de texto: `&str` emprestado de uma `String` ou de um literal.

use vstd::prelude::*;

verus! {

/// O que uma função que aceita `&str` mostra para o texto recebido.
pub fn mensagem_recebida(s: &str) -> (r: String)
    ensures
        r@ == "Recebi: "@ + s@,
{
    let mut mensagem = "Recebi: ".to_string();
    mensagem.push_str(s);
    mensagem
}

/// Uma função que aceita `&str` recebe tanto uma `String` emprestada quanto
/// um literal. Devolve as duas mensagens, na ordem das chamadas.
pub fn exemplo_aceitar_str() -> (r: (String, String))
    ensures
        r.0@ == "Recebi: "@ + "sou String"@,
        r.1@ == "Recebi: "@ + "sou literal &str"@,
{
    let dono = "sou String".to_string();
    let primeira = mensagem_recebida(dono.as_str());
    let segunda = mensagem_recebida("sou literal &str");
    (primeira, segunda)
}

/// Uma fatia usada num escopo interno; quando ele termina, a `String` pode
/// ser alterada. Devolve o que a fatia viu e o valor final.
pub fn exemplo_liberar_referencia() -> (r: (String, String))
    ensures
        r.0@ == "hello"@,
        r.1@ == "hello"@ + " world"@,
{
    let mut s: String = "hello".to_string();
    let visto: String;
    {
        let slice: &str = s.as_str();
        visto = slice.to_string();
    }
    s.push_str(" world");
    (visto, s)
}

/// Um clone independente: a original é alterada e a cópia fica intacta.
pub fn exemplo_clone() -> (r: (String, String))
    ensures
        r.0@ == "hello"@ + " world"@,
        r.1@ == "hello"@,
{
    let mut s: String = "hello".to_string();
    let copia: String = s.clone();
    s.push_str(" world");
    (s, copia)
}

} // verus!
