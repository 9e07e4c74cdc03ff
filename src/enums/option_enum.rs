//! `Option<T>`: a presença ou a ausência de um valor, tratada pelo tipo.

use vstd::prelude::*;

verus! {

/// Um usuário; a idade é opcional.
#[derive(Debug)]
pub struct User {
    pub name: String,
    pub email: String,
    pub age: Option<u32>,
}

/// O usuário com esse nome, se houver: `admin`, com idade, e `guest`, sem.
pub open spec fn usuario_conhecido(name: Seq<char>, u: User) -> bool {
    if name == "admin"@ {
        u.name@ == "admin"@ && u.email@ == "admin@example.com"@ && u.age == Some(30u32)
    } else {
        u.name@ == "guest"@ && u.email@ == "guest@example.com"@ && u.age == None::<u32>
    }
}

/// Busca um usuário pelo nome. Só `admin` e `guest` existem.
pub fn find_user(name: &str) -> (r: Option<User>)
    ensures
        r is Some <==> (name@ == "admin"@ || name@ == "guest"@),
        r is Some ==> usuario_conhecido(name@, r->0),
{
    if name.eq("admin") {
        Some(
            User {
                name: "admin".to_string(),
                email: "admin@example.com".to_string(),
                age: Some(30),
            },
        )
    } else if name.eq("guest") {
        Some(User { name: "guest".to_string(), email: "guest@example.com".to_string(), age: None })
    } else {
        None
    }
}

/// O primeiro elemento da fatia, se ela não estiver vazia.
pub fn first_element(vec: &[i32]) -> (r: Option<&i32>)
    ensures
        r is None <==> vec@.len() == 0,
        r is Some ==> *r->0 == vec@[0],
{
    if vec.len() == 0 {
        None
    } else {
        Some(&vec[0])
    }
}

/// Um `i8` somado a um `Option<i8>`, primeiro com `match` e depois com
/// `unwrap_or(0)`: o valor é extraído antes da soma.
pub fn option_precisa_tratamento() -> (r: (i8, i8))
    ensures
        r == (10i8, 10i8),
{
    let x: i8 = 5;
    let y: Option<i8> = Some(5);
    let sum = match y {
        Some(valor) => x + valor,
        None => x,
    };
    let sum2 = x + y.unwrap_or(0);
    (sum, sum2)
}

/// O que os métodos de `Option` devolvem para `Some(42)` e para `None`.
#[derive(Debug, PartialEq, Eq, Structural)]
pub struct MetodosOption {
    pub some_is_some: bool,
    pub some_is_none: bool,
    pub none_is_some: bool,
    pub none_is_none: bool,
    pub some_unwrap: i32,
    pub some_unwrap_or: i32,
    pub none_unwrap_or: i32,
    pub none_unwrap_or_else: i32,
    pub some_expect: i32,
}

/// Os métodos de `Option` aplicados a `Some(42)` e a `None`, com os
/// valores padrão 0 e 100.
pub fn metodos_option() -> (r: MetodosOption)
    ensures
        r == (MetodosOption {
            some_is_some: true,
            some_is_none: false,
            none_is_some: false,
            none_is_none: true,
            some_unwrap: 42,
            some_unwrap_or: 42,
            none_unwrap_or: 0,
            none_unwrap_or_else: 100,
            some_expect: 42,
        }),
{
    let some_value: Option<i32> = Some(42);
    let none_value: Option<i32> = None;
    let some_is_some = some_value.is_some();
    let some_is_none = some_value.is_none();
    let none_is_some = none_value.is_some();
    let none_is_none = none_value.is_none();
    let valor = some_value.unwrap();
    let valor1 = some_value.unwrap_or(0);
    let valor2 = none_value.unwrap_or(0);
    let valor3 = none_value.unwrap_or_else(|| -> (r: i32) ensures r == 100 { 100 });
    let valor4 = some_value.expect("Deveria ter um valor!");
    MetodosOption {
        some_is_some,
        some_is_none,
        none_is_some,
        none_is_none,
        some_unwrap: valor,
        some_unwrap_or: valor1,
        none_unwrap_or: valor2,
        none_unwrap_or_else: valor3,
        some_expect: valor4,
    }
}

} // verus!
