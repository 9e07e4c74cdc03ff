//! Enums: um tipo que é uma variante OU outra, cada uma com os seus dados.

use vstd::prelude::*;

verus! {

/// As versões de endereço IP.
#[derive(Debug, Clone, Copy, PartialEq, Eq, Structural)]
pub enum IpAddrKind {
    V4,
    V6,
}

/// As duas variantes, criadas pelo nome qualificado do enum.
pub fn enum_basico() -> (r: (IpAddrKind, IpAddrKind))
    ensures
        r == (IpAddrKind::V4, IpAddrKind::V6),
{
    let four = IpAddrKind::V4;
    let six = IpAddrKind::V6;
    (four, six)
}

/// As versões passadas, em ordem, a uma função que aceita qualquer variante.
pub fn enum_como_parametro() -> (r: Vec<IpAddrKind>)
    ensures
        r@ == seq![IpAddrKind::V4, IpAddrKind::V6],
{
    let mut rotas: Vec<IpAddrKind> = Vec::new();
    rotas.push(IpAddrKind::V4);
    rotas.push(IpAddrKind::V6);
    rotas
}

/// As versões de IP da primeira tentativa, guardadas ao lado do endereço.
#[derive(Debug, Clone, Copy, PartialEq, Eq, Structural)]
pub enum IpAddrKindV1 {
    V4,
    V6,
}

/// Um endereço como struct: a versão num campo e o texto noutro.
#[derive(Debug)]
pub struct IpAddrStruct {
    pub kind: IpAddrKindV1,
    pub address: String,
}

/// O endereço de casa em IPv4 e o de loopback em IPv6, como structs.
pub fn enum_com_dados_simples() -> (r: (IpAddrStruct, IpAddrStruct))
    ensures
        r.0.kind == IpAddrKindV1::V4 && r.0.address@ == "127.0.0.1"@,
        r.1.kind == IpAddrKindV1::V6 && r.1.address@ == "::1"@,
{
    let home = IpAddrStruct { kind: IpAddrKindV1::V4, address: "127.0.0.1".to_string() };
    let loopback = IpAddrStruct { kind: IpAddrKindV1::V6, address: "::1".to_string() };
    (home, loopback)
}

/// Um endereço com o texto dentro da própria variante.
#[derive(Debug)]
pub enum IpAddr {
    V4(String),
    V6(String),
}

/// Um endereço em que cada variante tem dados de outro tipo.
#[derive(Debug)]
pub enum IpAddrDiff {
    V4(u8, u8, u8, u8),
    V6(String),
}

/// Os mesmos dois endereços, com os dados nas variantes: primeiro como
/// texto nas duas, depois com os quatro octetos na variante IPv4.
pub fn enum_dados_diferentes() -> (r: (IpAddr, IpAddr, IpAddrDiff, IpAddrDiff))
    ensures
        r.0 is V4 && r.0->V4_0@ == "127.0.0.1"@,
        r.1 is V6 && r.1->V6_0@ == "::1"@,
        r.2 is V4 && r.2->V4_0 == 127 && r.2->V4_1 == 0 && r.2->V4_2 == 0 && r.2->V4_3 == 1,
        r.3 is V6 && r.3->V6_0@ == "::1"@,
{
    let home = IpAddr::V4("127.0.0.1".to_string());
    let loopback = IpAddr::V6("::1".to_string());
    let home_diff = IpAddrDiff::V4(127, 0, 0, 1);
    let loopback_diff = IpAddrDiff::V6("::1".to_string());
    (home, loopback, home_diff, loopback_diff)
}

/// Uma mensagem: variantes sem dados, com campos nomeados, com um texto e
/// com três números.
#[derive(Debug)]
pub enum Message {
    Quit,
    Move { x: i32, y: i32 },
    Write(String),
    ChangeColor(i32, i32, i32),
}

/// A descrição de cada variante de `Message`.
pub open spec fn descricao_de(m: Message) -> Seq<char> {
    match m {
        Message::Quit => "Comando para sair"@,
        Message::Move { .. } => "Comando para mover"@,
        Message::Write(_) => "Comando para escrever"@,
        Message::ChangeColor(_, _, _) => "Comando para mudar cor"@,
    }
}

impl Message {
    /// Descreve o comando que a mensagem representa.
    pub fn descricao(&self) -> (r: &str)
        ensures
            r@ == descricao_de(*self),
    {
        match self {
            Message::Quit => "Comando para sair",
            Message::Move { .. } => "Comando para mover",
            Message::Write(_) => "Comando para escrever",
            Message::ChangeColor(_, _, _) => "Comando para mudar cor",
        }
    }
}

/// Uma mensagem de cada variante, todas do mesmo tipo.
pub fn enum_message() -> (r: Vec<Message>)
    ensures
        r@.len() == 4,
        r@[0] is Quit,
        r@[1] == (Message::Move { x: 10, y: 20 }),
        r@[2] is Write && r@[2]->Write_0@ == "Olá!"@,
        r@[3] == Message::ChangeColor(255, 128, 0),
{
    let m1 = Message::Quit;
    let m2 = Message::Move { x: 10, y: 20 };
    let m3 = Message::Write("Olá!".to_string());
    let m4 = Message::ChangeColor(255, 128, 0);
    vec![m1, m2, m3, m4]
}

/// Um método chamado numa variante: a descrição de uma mensagem `Write`.
pub fn metodos_em_enums() -> (r: (Message, String))
    ensures
        r.0 is Write && r.0->Write_0@ == "hello"@,
        r.1@ == "Comando para escrever"@,
{
    let m = Message::Write("hello".to_string());
    let descricao = m.descricao().to_string();
    (m, descricao)
}

} // verus!
