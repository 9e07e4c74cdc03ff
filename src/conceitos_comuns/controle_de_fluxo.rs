//! Controle de fluxo: `if` como instrução e como expressão, `loop`, `while`.

use vstd::prelude::*;

verus! {

/// As duas condições testadas sobre o número: se é menor que cinco e se é
/// diferente de zero.
pub fn if_examples(number: i32) -> (r: (bool, bool))
    ensures
        r == (number < 5, number != 0),
{
    let menor_que_cinco = if number < 5 {
        true
    } else {
        false
    };
    let diferente_de_zero = number != 0;
    (menor_que_cinco, diferente_de_zero)
}

/// Um `if` usado como expressão: 10 quando a condição vale, 20 quando não.
pub fn if_expression_result(condition: bool) -> (r: i32)
    ensures
        r == if condition {
            10i32
        } else {
            20i32
        },
{
    let result = if condition {
        10
    } else {
        20
    };
    result
}

/// O primeiro divisor, entre 4, 3 e 2, nessa ordem, que divide o número.
#[derive(Debug, Clone, Copy, PartialEq, Eq, Structural)]
pub enum Divisibilidade {
    PorQuatro,
    PorTres,
    PorDois,
    Nenhum,
}

/// Uma cadeia de `else if`: só o primeiro ramo que vale é executado.
pub fn else_if_chain(number: i32) -> (r: Divisibilidade)
    ensures
        r == if number % 4 == 0 {
            Divisibilidade::PorQuatro
        } else if number % 3 == 0 {
            Divisibilidade::PorTres
        } else if number % 2 == 0 {
            Divisibilidade::PorDois
        } else {
            Divisibilidade::Nenhum
        },
{
    if number % 4 == 0 {
        Divisibilidade::PorQuatro
    } else if number % 3 == 0 {
        Divisibilidade::PorTres
    } else if number % 2 == 0 {
        Divisibilidade::PorDois
    } else {
        Divisibilidade::Nenhum
    }
}

/// Um `loop` que conta até três e sai devolvendo o dobro do contador.
pub fn loop_with_break_return() -> (r: i32)
    ensures
        r == 6,
{
    let mut counter: i32 = 0;
    let mut result: i32 = 0;
    loop
        invariant_except_break
            0 <= counter < 3,
        ensures
            result == 6,
        decreases 3 - counter,
    {
        counter += 1;
        if counter == 3 {
            result = counter * 2;
            break ;
        }
    }
    result
}

/// Um passo dos laços rotulados: o valor de `count` ao entrar no laço
/// externo, ou o de `inner` ao entrar numa volta do laço interno.
#[derive(Debug, Clone, Copy, PartialEq, Eq, Structural)]
pub enum Passo {
    Count(i32),
    Inner(i32),
}

/// Os passos das voltas completas do laço externo, para `count` de 0 a `n - 1`:
/// cada volta mostra `count` e depois `inner` valendo 10 e 9.
pub open spec fn voltas_completas(n: nat) -> Seq<Passo>
    decreases n,
{
    if n == 0 {
        Seq::empty()
    } else {
        voltas_completas((n - 1) as nat) + seq![
            Passo::Count((n - 1) as i32),
            Passo::Inner(10),
            Passo::Inner(9),
        ]
    }
}

/// Dois laços aninhados: o interno sai sozinho quando `inner` chega a 9, e
/// sai também do externo, pelo rótulo, quando `count` chega a 2. Devolve os
/// passos, na ordem em que acontecem, e o valor final de `count`.
pub fn labeled_loops() -> (r: (Vec<Passo>, i32))
    ensures
        r.0@ == seq![
            Passo::Count(0),
            Passo::Inner(10),
            Passo::Inner(9),
            Passo::Count(1),
            Passo::Inner(10),
            Passo::Inner(9),
            Passo::Count(2),
            Passo::Inner(10),
        ],
        r.1 == 2,
{
    let mut passos: Vec<Passo> = Vec::new();
    let mut count: i32 = 0;
    'outer: loop
        invariant_except_break
            0 <= count <= 2,
            passos@ == voltas_completas(count as nat),
        ensures
            count == 2,
            passos@ == voltas_completas(2) + seq![Passo::Count(2), Passo::Inner(10)],
        decreases 3 - count,
    {
        passos.push(Passo::Count(count));
        let mut inner: i32 = 10;
        loop
            invariant_except_break
                0 <= count <= 2,
                9 <= inner <= 10,
                inner == 9 ==> count != 2,
                passos@ == voltas_completas(count as nat) + if inner == 10 {
                    seq![Passo::Count(count)]
                } else {
                    seq![Passo::Count(count), Passo::Inner(10)]
                },
            ensures
                0 <= count < 2,
                passos@ == voltas_completas(count as nat) + seq![
                    Passo::Count(count),
                    Passo::Inner(10),
                    Passo::Inner(9),
                ],
            decreases inner,
        {
            passos.push(Passo::Inner(inner));
            if inner == 9 {
                break ;
            }
            if count == 2 {
                break 'outer;
            }
            inner -= 1;
        }
        proof {
            assert(voltas_completas((count + 1) as nat) == voltas_completas(count as nat) + seq![
                Passo::Count(count),
                Passo::Inner(10),
                Passo::Inner(9),
            ]);
        }
        count += 1;
    }
    proof {
        assert(voltas_completas(1) == voltas_completas(0) + seq![
            Passo::Count(0),
            Passo::Inner(10),
            Passo::Inner(9),
        ]);
        assert(voltas_completas(2) == voltas_completas(1) + seq![
            Passo::Count(1),
            Passo::Inner(10),
            Passo::Inner(9),
        ]);
        assert(passos@ =~= seq![
            Passo::Count(0),
            Passo::Inner(10),
            Passo::Inner(9),
            Passo::Count(1),
            Passo::Inner(10),
            Passo::Inner(9),
            Passo::Count(2),
            Passo::Inner(10),
        ]);
    }
    (passos, count)
}

/// Uma contagem regressiva com `while`: `numero`, `numero - 1`, ..., 1.
pub fn while_loop_countdown(numero: u32) -> (r: Vec<u32>)
    ensures
        r@.len() == numero,
        forall|i: int| 0 <= i < numero ==> r@[i] == numero - i,
{
    let mut contagem: Vec<u32> = Vec::new();
    let mut number = numero;
    while number != 0
        invariant
            number <= numero,
            contagem@.len() == numero - number,
            forall|i: int| 0 <= i < contagem@.len() ==> contagem@[i] == numero - i,
        decreases number,
    {
        contagem.push(number);
        number -= 1;
    }
    contagem
}

/// Percorre o array com `while` e um índice: os pares (índice, elemento),
/// em ordem.
pub fn while_array_iteration(array: [i32; 5]) -> (r: Vec<(usize, i32)>)
    ensures
        r@.len() == 5,
        forall|i: int| 0 <= i < 5 ==> r@[i] == (i as usize, array@[i]),
{
    let mut pares: Vec<(usize, i32)> = Vec::new();
    let mut index: usize = 0;
    while index < array.len()
        invariant
            index <= 5,
            pares@.len() == index,
            forall|i: int| 0 <= i < index ==> pares@[i] == (i as usize, array@[i]),
        decreases 5 - index,
    {
        pares.push((index, array[index]));
        index += 1;
    }
    pares
}

/// Percorre o array com `for`: os elementos, em ordem.
pub fn for_array_iteration(array: [i32; 5]) -> (r: Vec<i32>)
    ensures
        r@ == array@,
{
    let mut elementos: Vec<i32> = Vec::new();
    for element in it: array.iter()
        invariant
            elementos@.len() == it.index(),
            forall|j: int| 0 <= j < elementos@.len() ==> elementos@[j] == *it.seq()[j],
    {
        elementos.push(*element);
    }
    proof {
        assert(array@.take(5) =~= array@);
    }
    elementos
}

/// Uma contagem regressiva com `for` sobre `(1..fim).rev()`: `fim - 1`, ..., 1.
pub fn for_reverse_countdown(fim: u32) -> (r: Vec<u32>)
    requires
        fim >= 1,
    ensures
        r@.len() == fim - 1,
        forall|i: int| 0 <= i < fim - 1 ==> r@[i] == fim - 1 - i,
{
    let mut contagem: Vec<u32> = Vec::new();
    for number in it: (1..fim).rev()
        invariant
            contagem@.len() == it.index(),
            forall|j: int| 0 <= j < contagem@.len() ==> contagem@[j] == it.seq()[j],
    {
        contagem.push(number);
    }
    contagem
}

} // verus!
