//! Funções com e sem parâmetros, com e sem valor de retorno.

use vstd::prelude::*;

verus! {

/// Devolve sempre cinco: o valor da função é a última expressão do corpo.
pub fn retorna_cinco() -> (r: i32)
    ensures
        r == 5,
{
    5
}

/// Soma um ao argumento. O maior `i32` fica de fora: a soma transbordaria.
pub fn soma_um(x: i32) -> (r: i32)
    requires
        x < i32::MAX,
    ensures
        r == x + 1,
{
    x + 1
}

} // verus!
