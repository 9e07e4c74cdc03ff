//! Texto: aparar espaços, ler inteiros em decimal e estender uma `String`.
//!
//! As operações de `str` e `String` usadas pelos exemplos ficam aqui, cada
//! uma com o contrato que a documentação da biblioteca padrão dá a ela.

use vstd::prelude::*;

verus! {

/// Um caractere com a propriedade Unicode `White_Space`.
pub open spec fn eh_espaco(c: char) -> bool {
    let n = c as u32;
    (0x9 <= n && n <= 0xD) || n == 0x20 || n == 0x85 || n == 0xA0 || n == 0x1680 || (0x2000 <= n
        && n <= 0x200A) || n == 0x2028 || n == 0x2029 || n == 0x202F || n == 0x205F || n == 0x3000
}

/// `s` sem os espaços do começo.
pub open spec fn sem_espacos_a_esquerda(s: Seq<char>) -> Seq<char>
    decreases s.len(),
{
    if s.len() > 0 && eh_espaco(s[0]) {
        sem_espacos_a_esquerda(s.drop_first())
    } else {
        s
    }
}

/// `s` sem os espaços do fim.
pub open spec fn sem_espacos_a_direita(s: Seq<char>) -> Seq<char>
    decreases s.len(),
{
    if s.len() > 0 && eh_espaco(s.last()) {
        sem_espacos_a_direita(s.drop_last())
    } else {
        s
    }
}

/// `s` sem os espaços das duas pontas.
pub open spec fn aparado(s: Seq<char>) -> Seq<char> {
    sem_espacos_a_direita(sem_espacos_a_esquerda(s))
}

/// Um dígito decimal ASCII.
pub open spec fn eh_digito(c: char) -> bool {
    0x30 <= c as u32 && c as u32 <= 0x39
}

/// Um ou mais dígitos decimais, e nada mais.
pub open spec fn so_digitos(s: Seq<char>) -> bool {
    s.len() > 0 && forall|i: int| 0 <= i < s.len() ==> eh_digito(#[trigger] s[i])
}

/// O número que uma sequência de dígitos escreve em base dez.
pub open spec fn valor_digitos(s: Seq<char>) -> int
    decreases s.len(),
{
    if s.len() == 0 {
        0
    } else {
        10 * valor_digitos(s.drop_last()) + (s.last() as u32 - 0x30)
    }
}

/// O inteiro que `s` escreve em decimal: um sinal opcional (`-` só quando
/// `com_sinal`) seguido de um ou mais dígitos. `None` para qualquer outro texto.
pub open spec fn decimal(s: Seq<char>, com_sinal: bool) -> Option<int> {
    if s.len() > 0 && s[0] == '+' && so_digitos(s.drop_first()) {
        Some(valor_digitos(s.drop_first()))
    } else if com_sinal && s.len() > 0 && s[0] == '-' && so_digitos(s.drop_first()) {
        Some(-valor_digitos(s.drop_first()))
    } else if so_digitos(s) {
        Some(valor_digitos(s))
    } else {
        None
    }
}

/// `v` é um número entre `min` e `max`, inclusive.
pub open spec fn entre(v: Option<int>, min: int, max: int) -> bool {
    match v {
        Some(x) => min <= x <= max,
        None => false,
    }
}

/// Por que um texto não foi lido como inteiro.
#[derive(Debug, Clone, Copy, PartialEq, Eq, Structural)]
pub enum ErroDeInteiro {
    /// O texto é vazio.
    Vazio,
    /// Um caractere que não é dígito, ou um sinal fora do lugar.
    DigitoInvalido,
    /// Um número maior que o maior valor do tipo.
    AcimaDoMaximo,
    /// Um número menor que o menor valor do tipo.
    AbaixoDoMinimo,
    /// Outra causa, que a biblioteca padrão não dá para estes tipos.
    Outro,
}

/// Quantos dígitos decimais há em `s`, em qualquer posição.
pub open spec fn n_digitos(s: Seq<char>) -> nat
    decreases s.len(),
{
    if s.len() == 0 {
        0
    } else {
        n_digitos(s.drop_last()) + if eh_digito(s.last()) {
            1nat
        } else {
            0nat
        }
    }
}

/// Dez elevado a `n`.
pub open spec fn potencia_de_dez(n: nat) -> int
    decreases n,
{
    if n == 0 {
        1
    } else {
        10 * potencia_de_dez((n - 1) as nat)
    }
}

/// O erro que a leitura de `s` dá, num tipo de `min` a `max`, quando ele é
/// certo: vazio, um número fora do tipo, ou um texto que não é um número e
/// tem poucos dígitos demais para passar do máximo. `None` quando o texto é
/// lido ou quando o erro não é fixado.
pub open spec fn erro_de_leitura(s: Seq<char>, com_sinal: bool, min: int, max: int) -> Option<
    ErroDeInteiro,
> {
    if s.len() == 0 {
        Some(ErroDeInteiro::Vazio)
    } else {
        match decimal(s, com_sinal) {
            Some(v) => if v > max {
                Some(ErroDeInteiro::AcimaDoMaximo)
            } else if v < min {
                Some(ErroDeInteiro::AbaixoDoMinimo)
            } else {
                None
            },
            None => if potencia_de_dez(n_digitos(s)) <= max + 1 {
                Some(ErroDeInteiro::DigitoInvalido)
            } else {
                None
            },
        }
    }
}

/// Depende de `str::trim`: a fatia sem os caracteres da propriedade Unicode
/// `White_Space` no começo e no fim.
#[verifier::external_body]
pub(crate) fn aparar(s: &str) -> (r: &str)
    ensures
        r@ == aparado(s@),
{
    s.trim()
}

/// Depende de `str::parse::<i32>` (`i32::from_str_radix` na base 10): um `+` ou `-` opcional
/// seguido de um ou mais dígitos, com um valor que caiba em `i32`.
/// O erro é o de `ParseIntError::kind`: `Empty` para o texto vazio,
/// `PosOverflow` e `NegOverflow` para um número fora do tipo, e `InvalidDigit`
/// para o resto, quando não há dígitos que bastem para passar do máximo.
#[verifier::external_body]
pub(crate) fn ler_i32(s: &str) -> (r: Result<i32, ErroDeInteiro>)
    ensures
        r is Ok <==> entre(decimal(s@, true), i32::MIN as int, i32::MAX as int),
        r is Ok ==> decimal(s@, true) == Some(r->Ok_0 as int),
        r is Err && erro_de_leitura(s@, true, i32::MIN as int, i32::MAX as int) is Some ==> erro_de_leitura(
            s@,
            true,
            i32::MIN as int,
            i32::MAX as int,
        ) == Some(r->Err_0),
{
    match s.parse::<i32>() {
        Ok(v) => Ok(v),
        Err(e) => Err(
            match e.kind() {
                std::num::IntErrorKind::Empty => ErroDeInteiro::Vazio,
                std::num::IntErrorKind::InvalidDigit => ErroDeInteiro::DigitoInvalido,
                std::num::IntErrorKind::PosOverflow => ErroDeInteiro::AcimaDoMaximo,
                std::num::IntErrorKind::NegOverflow => ErroDeInteiro::AbaixoDoMinimo,
                _ => ErroDeInteiro::Outro,
            },
        ),
    }
}

/// Depende de `str::parse::<i8>` (`i8::from_str_radix` na base 10): um `+` ou `-` opcional
/// seguido de um ou mais dígitos, com um valor que caiba em `i8`.
/// O erro é o de `ParseIntError::kind`: `Empty` para o texto vazio,
/// `PosOverflow` e `NegOverflow` para um número fora do tipo, e `InvalidDigit`
/// para o resto, quando não há dígitos que bastem para passar do máximo.
#[verifier::external_body]
pub(crate) fn ler_i8(s: &str) -> (r: Result<i8, ErroDeInteiro>)
    ensures
        r is Ok <==> entre(decimal(s@, true), i8::MIN as int, i8::MAX as int),
        r is Ok ==> decimal(s@, true) == Some(r->Ok_0 as int),
        r is Err && erro_de_leitura(s@, true, i8::MIN as int, i8::MAX as int) is Some ==> erro_de_leitura(
            s@,
            true,
            i8::MIN as int,
            i8::MAX as int,
        ) == Some(r->Err_0),
{
    match s.parse::<i8>() {
        Ok(v) => Ok(v),
        Err(e) => Err(
            match e.kind() {
                std::num::IntErrorKind::Empty => ErroDeInteiro::Vazio,
                std::num::IntErrorKind::InvalidDigit => ErroDeInteiro::DigitoInvalido,
                std::num::IntErrorKind::PosOverflow => ErroDeInteiro::AcimaDoMaximo,
                std::num::IntErrorKind::NegOverflow => ErroDeInteiro::AbaixoDoMinimo,
                _ => ErroDeInteiro::Outro,
            },
        ),
    }
}

/// Depende de `str::parse::<u8>` (`u8::from_str_radix` na base 10): um `+` opcional
/// seguido de um ou mais dígitos, com um valor que caiba em `u8`.
/// O erro é o de `ParseIntError::kind`: `Empty` para o texto vazio,
/// `PosOverflow` e `NegOverflow` para um número fora do tipo, e `InvalidDigit`
/// para o resto, quando não há dígitos que bastem para passar do máximo.
#[verifier::external_body]
pub(crate) fn ler_u8(s: &str) -> (r: Result<u8, ErroDeInteiro>)
    ensures
        r is Ok <==> entre(decimal(s@, false), 0, u8::MAX as int),
        r is Ok ==> decimal(s@, false) == Some(r->Ok_0 as int),
        r is Err && erro_de_leitura(s@, false, 0, u8::MAX as int) is Some ==> erro_de_leitura(
            s@,
            false,
            0,
            u8::MAX as int,
        ) == Some(r->Err_0),
{
    match s.parse::<u8>() {
        Ok(v) => Ok(v),
        Err(e) => Err(
            match e.kind() {
                std::num::IntErrorKind::Empty => ErroDeInteiro::Vazio,
                std::num::IntErrorKind::InvalidDigit => ErroDeInteiro::DigitoInvalido,
                std::num::IntErrorKind::PosOverflow => ErroDeInteiro::AcimaDoMaximo,
                std::num::IntErrorKind::NegOverflow => ErroDeInteiro::AbaixoDoMinimo,
                _ => ErroDeInteiro::Outro,
            },
        ),
    }
}

/// Depende de `str::parse::<usize>` (`usize::from_str_radix` na base 10): um `+` opcional
/// seguido de um ou mais dígitos, com um valor que caiba em `usize`.
/// O erro é o de `ParseIntError::kind`: `Empty` para o texto vazio,
/// `PosOverflow` e `NegOverflow` para um número fora do tipo, e `InvalidDigit`
/// para o resto, quando não há dígitos que bastem para passar do máximo.
#[verifier::external_body]
pub(crate) fn ler_usize(s: &str) -> (r: Result<usize, ErroDeInteiro>)
    ensures
        r is Ok <==> entre(decimal(s@, false), 0, usize::MAX as int),
        r is Ok ==> decimal(s@, false) == Some(r->Ok_0 as int),
        r is Err && erro_de_leitura(s@, false, 0, usize::MAX as int) is Some ==> erro_de_leitura(
            s@,
            false,
            0,
            usize::MAX as int,
        ) == Some(r->Err_0),
{
    match s.parse::<usize>() {
        Ok(v) => Ok(v),
        Err(e) => Err(
            match e.kind() {
                std::num::IntErrorKind::Empty => ErroDeInteiro::Vazio,
                std::num::IntErrorKind::InvalidDigit => ErroDeInteiro::DigitoInvalido,
                std::num::IntErrorKind::PosOverflow => ErroDeInteiro::AcimaDoMaximo,
                std::num::IntErrorKind::NegOverflow => ErroDeInteiro::AbaixoDoMinimo,
                _ => ErroDeInteiro::Outro,
            },
        ),
    }
}

/// Depende de `String::push`: o caractere vai para o fim.
pub assume_specification[ String::push ](s: &mut String, ch: char)
    ensures
        final(s)@ == old(s)@.push(ch),
;

/// Depende de `String::push_str`: a fatia vai para o fim.
pub assume_specification[ String::push_str ](s: &mut String, string: &str)
    ensures
        final(s)@ == old(s)@ + string@,
;

/// Depende do `==` entre dois `str`: iguais exatamente quando os caracteres são.
pub assume_specification[ <str as PartialEq>::eq ](a: &str, b: &str) -> (r: bool)
    ensures
        r == (a@ == b@),
;

} // verus!
