//! Structs: definir, instanciar, atualizar e desestruturar.

use vstd::prelude::*;

verus! {

/// Um usuário com quatro campos tipados; a struct é dona dos seus textos.
#[derive(Debug)]
pub struct User {
    pub active: bool,
    pub username: String,
    pub email: String,
    pub sign_in_count: u64,
}

/// `u` tem exatamente esses quatro valores.
pub open spec fn eh_usuario(
    u: User,
    active: bool,
    username: Seq<char>,
    email: Seq<char>,
    sign_in_count: u64,
) -> bool {
    u.active == active && u.username@ == username && u.email@ == email && u.sign_in_count
        == sign_in_count
}

/// Uma instância criada campo a campo.
pub fn struct_basica() -> (r: User)
    ensures
        eh_usuario(r, true, "rustacean123"@, "rust@example.com"@, 1),
{
    User {
        active: true,
        username: "rustacean123".to_string(),
        email: "rust@example.com".to_string(),
        sign_in_count: 1,
    }
}

/// Uma instância mutável cujo e-mail é trocado depois de criada. Devolve o
/// e-mail original e o usuário alterado.
pub fn struct_mutavel() -> (r: (String, User))
    ensures
        r.0@ == "rust@example.com"@,
        eh_usuario(r.1, true, "rustacean123"@, "novo@example.com"@, 1),
{
    let mut user1 = User {
        active: true,
        username: "rustacean123".to_string(),
        email: "rust@example.com".to_string(),
        sign_in_count: 1,
    };
    let original = user1.email.clone();
    user1.email = "novo@example.com".to_string();
    (original, user1)
}

/// Um usuário ativo, com um login, a partir do e-mail e do nome.
pub fn build_user(email: String, username: String) -> (r: User)
    ensures
        eh_usuario(r, true, username@, email@, 1),
{
    User { active: true, username: username, email: email, sign_in_count: 1 }
}

/// O mesmo que `build_user`, com a forma abreviada de inicializar os campos.
pub fn build_user_short(email: String, username: String) -> (r: User)
    ensures
        eh_usuario(r, true, username@, email@, 1),
{
    User { active: true, username, email, sign_in_count: 1 }
}

/// Um usuário criado por uma função.
pub fn funcao_retorna_struct() -> (r: User)
    ensures
        eh_usuario(r, true, "testuser"@, "test@email.com"@, 1),
{
    build_user("test@email.com".to_string(), "testuser".to_string())
}

/// Um usuário criado pela função de campos abreviados.
pub fn field_init_shorthand() -> (r: User)
    ensures
        eh_usuario(r, true, "shortuser"@, "short@email.com"@, 1),
{
    build_user_short("short@email.com".to_string(), "shortuser".to_string())
}

/// A sintaxe de atualização: `user2` troca só o e-mail de `user1` e leva o
/// resto; `user4` troca e-mail e nome de `user3`, que continua inteiro.
/// Devolve `user2`, os campos `Copy` que ficaram válidos em `user1`,
/// `user3` e `user4`.
pub fn struct_update_syntax() -> (r: (User, (bool, u64), User, User))
    ensures
        eh_usuario(r.0, true, "original"@, "novo@email.com"@, 10),
        r.1 == (true, 10u64),
        eh_usuario(r.2, false, "user3"@, "user3@email.com"@, 1),
        eh_usuario(r.3, false, "user4"@, "user4@email.com"@, 1),
{
    let user1 = User {
        active: true,
        username: "original".to_string(),
        email: "original@email.com".to_string(),
        sign_in_count: 10,
    };
    let user2 = User { email: "novo@email.com".to_string(), ..user1 };
    let ainda_validos = (user1.active, user1.sign_in_count);
    let user3 = User {
        active: false,
        username: "user3".to_string(),
        email: "user3@email.com".to_string(),
        sign_in_count: 1,
    };
    let user4 = User {
        email: "user4@email.com".to_string(),
        username: "user4".to_string(),
        ..user3
    };
    (user2, ainda_validos, user3, user4)
}

/// Uma cor em três componentes.
#[derive(Debug, Clone, Copy, PartialEq, Eq, Structural)]
pub struct Color(pub i32, pub i32, pub i32);

/// Um ponto em três coordenadas; do mesmo formato que `Color`, mas outro tipo.
#[derive(Debug, Clone, Copy, PartialEq, Eq, Structural)]
pub struct Point(pub i32, pub i32, pub i32);

/// O preto e a origem, lidos por índice e por desestruturação.
pub fn tuple_structs() -> (r: (Color, Point))
    ensures
        r == (Color(0, 0, 0), Point(0, 0, 0)),
{
    let black = Color(0, 0, 0);
    let origin = Point(0, 0, 0);
    let Color(red, green, blue) = black;
    let Point(x, y, z) = origin;
    (Color(red, green, blue), Point(x, y, z))
}

/// Uma struct sem campos.
#[derive(Debug, Clone, Copy, PartialEq, Eq, Structural)]
pub struct AlwaysEqual;

/// Uma instância da struct sem campos.
pub fn unit_structs() -> (r: AlwaysEqual)
    ensures
        r == AlwaysEqual,
{
    AlwaysEqual
}

/// Um usuário dono dos seus textos, em `String` e não em `&str`.
pub fn ownership_em_structs() -> (r: User)
    ensures
        eh_usuario(r, true, "dono"@, "dono@email.com"@, 1),
{
    User {
        active: true,
        username: "dono".to_string(),
        email: "dono@email.com".to_string(),
        sign_in_count: 1,
    }
}

} // verus!
