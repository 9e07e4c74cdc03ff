//! `if let` e `let ... else`: tratar um só caso de um enum sem um `match` inteiro.

use vstd::prelude::*;
use crate::texto::{aparado, aparar, decimal, entre, ler_i32};

verus! {

/// O máximo configurado, extraído com um `match` que precisa do braço `_`.
pub fn match_verboso() -> (r: Option<u8>)
    ensures
        r == Some(3u8),
{
    let config_max = Some(3u8);
    match config_max {
        Some(max) => Some(max),
        _ => None,
    }
}

/// Uma cor em componentes RGB ou como texto hexadecimal.
#[derive(Debug)]
pub enum Cor {
    Rgb(u8, u8, u8),
    Hex(String),
}

/// Os componentes de uma cor RGB; `None` para uma cor em hexadecimal.
pub fn componentes_rgb(cor: &Cor) -> (r: Option<(u8, u8, u8)>)
    ensures
        r == match *cor {
            Cor::Rgb(red, green, blue) => Some((red, green, blue)),
            Cor::Hex(_) => None::<(u8, u8, u8)>,
        },
{
    if let Cor::Rgb(red, green, blue) = cor {
        Some((*red, *green, *blue))
    } else {
        None
    }
}

/// O que cada `if let` extrai: o máximo configurado, os componentes de uma
/// cor RGB e, de uma cor em hexadecimal, nada.
pub fn if_let_basico() -> (r: (Option<u8>, Option<(u8, u8, u8)>, Option<(u8, u8, u8)>))
    ensures
        r == (Some(3u8), Some((255u8, 128u8, 0u8)), None::<(u8, u8, u8)>),
{
    let config_max = Some(3u8);
    let mut maximo: Option<u8> = None;
    if let Some(max) = config_max {
        maximo = Some(max);
    }
    let cor = Cor::Rgb(255, 128, 0);
    let outra_cor = Cor::Hex("#FF8800".to_string());
    (maximo, componentes_rgb(&cor), componentes_rgb(&outra_cor))
}

/// Uma moeda; o quarter traz o estado em que foi cunhado.
#[derive(Debug)]
pub enum Coin {
    Penny,
    Nickel,
    Dime,
    Quarter(String),
}

/// Os estados dos quarters, na ordem em que aparecem.
pub open spec fn estados_dos_quarters(coins: Seq<Coin>) -> Seq<Seq<char>>
    decreases coins.len(),
{
    if coins.len() == 0 {
        Seq::empty()
    } else {
        let resto = estados_dos_quarters(coins.drop_last());
        match coins.last() {
            Coin::Quarter(state) => resto.push(state@),
            _ => resto,
        }
    }
}

/// Quantas moedas não são quarters.
pub open spec fn nao_quarters(coins: Seq<Coin>) -> nat
    decreases coins.len(),
{
    if coins.len() == 0 {
        0
    } else {
        let resto = nao_quarters(coins.drop_last());
        match coins.last() {
            Coin::Quarter(_) => resto,
            _ => resto + 1,
        }
    }
}

/// Anuncia os quarters e conta o resto: devolve os estados dos quarters, em
/// ordem, e o número das outras moedas.
pub fn anuncia_e_conta(coins: &Vec<Coin>) -> (r: (Vec<String>, usize))
    ensures
        r.0.deep_view() == estados_dos_quarters(coins@),
        r.1 == nao_quarters(coins@),
{
    let mut estados: Vec<String> = Vec::new();
    let mut count: usize = 0;
    let mut i: usize = 0;
    while i < coins.len()
        invariant
            i <= coins.len(),
            count <= i,
            estados.deep_view() == estados_dos_quarters(coins@.take(i as int)),
            count == nao_quarters(coins@.take(i as int)),
        decreases coins.len() - i,
    {
        proof {
            assert(coins@.take(i + 1).drop_last() =~= coins@.take(i as int));
        }
        if let Coin::Quarter(state) = &coins[i] {
            estados.push(state.clone());
            proof {
                assert(estados.deep_view() =~= estados_dos_quarters(coins@.take(i + 1)));
            }
        } else {
            count += 1;
        }
        i += 1;
    }
    proof {
        assert(coins@.take(i as int) =~= coins@);
    }
    (estados, count)
}

/// Cinco moedas: dois quarters, do Alaska e do Texas, e outras três.
pub fn if_let_com_else() -> (r: (Vec<String>, usize))
    ensures
        r.0.deep_view() == seq!["Alaska"@, "Texas"@],
        r.1 == 3,
{
    let alaska = "Alaska".to_string();
    let texas = "Texas".to_string();
    assert(alaska@ == "Alaska"@ && texas@ == "Texas"@);
    let coins = vec![Coin::Quarter(alaska), Coin::Penny, Coin::Dime, Coin::Quarter(texas), Coin::Nickel];
    proof {
        let s = coins@;
        assert(s.drop_last() =~= s.take(4));
        assert(s.take(4).drop_last() =~= s.take(3));
        assert(s.take(3).drop_last() =~= s.take(2));
        assert(s.take(2).drop_last() =~= s.take(1));
        assert(s.take(1).drop_last() =~= s.take(0));
        assert(s.take(1).last() == s[0] && s.take(2).last() == s[1] && s.take(3).last() == s[2]);
        assert(s.take(4).last() == s[3] && s.last() == s[4]);
        assert(nao_quarters(s.take(0)) == 0);
        assert(nao_quarters(s.take(1)) == 0);
        assert(nao_quarters(s.take(2)) == 1);
        assert(nao_quarters(s.take(3)) == 2);
        assert(nao_quarters(s.take(4)) == 2);
        assert(estados_dos_quarters(s.take(0)) =~= Seq::<Seq<char>>::empty());
        assert(s[0] is Quarter && s[0]->Quarter_0@ == "Alaska"@);
        assert(s[3] is Quarter && s[3]->Quarter_0@ == "Texas"@);
        assert(estados_dos_quarters(s.take(1)) =~= seq!["Alaska"@]);
        assert(estados_dos_quarters(s.take(2)) =~= seq!["Alaska"@]);
        assert(estados_dos_quarters(s.take(3)) =~= seq!["Alaska"@]);
        assert(nao_quarters(s) == 3);
        assert(estados_dos_quarters(s.take(4)) =~= seq!["Alaska"@, "Texas"@]);
        assert(estados_dos_quarters(s) =~= seq!["Alaska"@, "Texas"@]);
    }
    anuncia_e_conta(&coins)
}

/// O dobro do número, ou zero quando não há número. O dobro precisa caber
/// num `i32`.
pub fn process_number(maybe_num: Option<i32>) -> (r: i32)
    requires
        match maybe_num {
            Some(num) => i32::MIN <= 2 * num <= i32::MAX,
            None => true,
        },
    ensures
        r == match maybe_num {
            Some(num) => 2 * num,
            None => 0,
        },
{
    let Some(num) = maybe_num else {
        return 0;
    };
    num * 2
}

/// O que `process_number` devolve para `Some(5)` e para `None`.
pub fn let_else_basico() -> (r: (i32, i32))
    ensures
        r == (10i32, 0i32),
{
    (process_number(Some(5)), process_number(None))
}

/// O texto aparado de uma configuração presente.
pub open spec fn texto_da_config(input: Option<&str>) -> Seq<char> {
    aparado(input->0@)
}

/// Valida uma configuração: presente, não em branco, um `i32` em decimal,
/// e entre 0 e 100. Cada validação que falha tem a sua mensagem de erro.
pub fn parse_config(input: Option<&str>) -> (r: Result<i32, &'static str>)
    ensures
        input is None ==> r is Err && r->Err_0@ == "Input vazio"@,
        input is Some && texto_da_config(input).len() == 0 ==> r is Err && r->Err_0@
            == "Input em branco"@,
        input is Some && texto_da_config(input).len() > 0 && !entre(
            decimal(texto_da_config(input), true),
            i32::MIN as int,
            i32::MAX as int,
        ) ==> r is Err && r->Err_0@ == "Não é um número válido"@,
        input is Some && entre(decimal(texto_da_config(input), true), i32::MIN as int, i32::MAX as int)
            && !entre(decimal(texto_da_config(input), true), 0, 100) ==> r is Err && r->Err_0@
            == "Número fora do range 0-100"@,
        input is Some && entre(decimal(texto_da_config(input), true), 0, 100) ==> r is Ok && decimal(
            texto_da_config(input),
            true,
        ) == Some(r->Ok_0 as int),
{
    let Some(text) = input else {
        return Err("Input vazio");
    };
    let text = aparar(text);
    if text.is_empty() {
        return Err("Input em branco");
    }
    let Ok(number) = ler_i32(text) else {
        return Err("Não é um número válido");
    };
    if number < 0 || number > 100 {
        return Err("Número fora do range 0-100");
    }
    Ok(number)
}

} // verus!
