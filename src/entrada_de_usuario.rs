//! Leitura de dois inteiros digitados e a comparação entre eles.

use vstd::prelude::*;
use crate::texto::{aparado, aparar, decimal, entre, erro_de_leitura, ler_i32, ErroDeInteiro};

verus! {

/// O inteiro que uma linha escreve, quando ela é um `i32` em decimal.
pub open spec fn inteiro_da_linha(linha: Seq<char>) -> Option<int> {
    decimal(aparado(linha), true)
}

/// A linha escreve um `i32`: sinal opcional e dígitos, com espaços em volta.
pub open spec fn linha_eh_i32(linha: Seq<char>) -> bool {
    entre(inteiro_da_linha(linha), i32::MIN as int, i32::MAX as int)
}

/// O erro certo para uma linha que não é um `i32`, quando há um.
pub open spec fn erro_da_linha(linha: Seq<char>) -> Option<ErroDeInteiro> {
    erro_de_leitura(aparado(linha), true, i32::MIN as int, i32::MAX as int)
}

/// Converte uma linha digitada para `i32`, ignorando os espaços das pontas.
/// Uma linha em branco dá `Vazio`, um número fora do `i32` dá `AcimaDoMaximo`
/// ou `AbaixoDoMinimo`, e um texto que não é número dá `DigitoInvalido`
/// quando tem menos de dez dígitos.
pub fn convert_to_int(data_input: &str) -> (r: Result<i32, ErroDeInteiro>)
    ensures
        r is Ok <==> linha_eh_i32(data_input@),
        r is Ok ==> inteiro_da_linha(data_input@) == Some(r->Ok_0 as int),
        r is Err && erro_da_linha(data_input@) is Some ==> erro_da_linha(data_input@) == Some(
            r->Err_0,
        ),
{
    ler_i32(aparar(data_input))
}

/// Qual das duas entradas não é um inteiro.
#[derive(Debug, PartialEq, Eq, Structural)]
pub enum EntradaInvalida {
    Primeira,
    Segunda,
}

/// Os dois números lidos, e se o primeiro é maior que o segundo.
#[derive(Debug, PartialEq, Eq, Structural)]
pub struct Comparacao {
    pub primeiro: i32,
    pub segundo: i32,
    pub primeiro_maior: bool,
}

/// Lê as duas linhas e compara os números. A primeira entrada inválida,
/// na ordem em que foram digitadas, é o erro.
pub fn compara_entradas(num1: &str, num2: &str) -> (r: Result<Comparacao, EntradaInvalida>)
    ensures
        !linha_eh_i32(num1@) ==> r == Err::<Comparacao, EntradaInvalida>(EntradaInvalida::Primeira),
        linha_eh_i32(num1@) && !linha_eh_i32(num2@) ==> r == Err::<Comparacao, EntradaInvalida>(
            EntradaInvalida::Segunda,
        ),
        linha_eh_i32(num1@) && linha_eh_i32(num2@) ==> r is Ok && inteiro_da_linha(num1@) == Some(
            r->Ok_0.primeiro as int,
        ) && inteiro_da_linha(num2@) == Some(r->Ok_0.segundo as int) && r->Ok_0.primeiro_maior == (
        r->Ok_0.primeiro > r->Ok_0.segundo),
{
    let int1: i32 = match convert_to_int(num1) {
        Ok(n) => n,
        Err(_) => {
            return Err(EntradaInvalida::Primeira);
        },
    };
    let int2: i32 = match convert_to_int(num2) {
        Ok(n) => n,
        Err(_) => {
            return Err(EntradaInvalida::Segunda);
        },
    };
    Ok(Comparacao { primeiro: int1, segundo: int2, primeiro_maior: int1 > int2 })
}

} // verus!
