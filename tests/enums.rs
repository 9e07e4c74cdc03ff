use aprendendo_rust::enums::definindo_enums::{
    enum_basico, enum_com_dados_simples, enum_como_parametro, enum_dados_diferentes, enum_message,
    metodos_em_enums, IpAddr, IpAddrDiff, IpAddrKind, IpAddrKindV1, Message,
};
use aprendendo_rust::enums::if_let::{
    anuncia_e_conta, componentes_rgb, if_let_basico, if_let_com_else, let_else_basico,
    match_verboso, parse_config, process_number, Coin, Cor,
};
use aprendendo_rust::enums::option_enum::{
    find_user, first_element, metodos_option, option_precisa_tratamento, MetodosOption,
};

#[test]
fn descricao_de_cada_variante() {
    assert_eq!(Message::Quit.descricao(), "Comando para sair");
    assert_eq!(Message::Move { x: 1, y: 2 }.descricao(), "Comando para mover");
    assert_eq!(Message::Write(String::from("oi")).descricao(), "Comando para escrever");
    assert_eq!(Message::ChangeColor(1, 2, 3).descricao(), "Comando para mudar cor");
}

#[test]
fn enums_com_dados() {
    assert_eq!(enum_basico(), (IpAddrKind::V4, IpAddrKind::V6));
    assert_eq!(enum_como_parametro(), vec![IpAddrKind::V4, IpAddrKind::V6]);
    let (home, loopback) = enum_com_dados_simples();
    assert_eq!(home.kind, IpAddrKindV1::V4);
    assert_eq!(home.address, "127.0.0.1");
    assert_eq!(loopback.kind, IpAddrKindV1::V6);
    assert_eq!(loopback.address, "::1");
    let (a, b, c, d) = enum_dados_diferentes();
    assert!(matches!(a, IpAddr::V4(ref s) if s == "127.0.0.1"));
    assert!(matches!(b, IpAddr::V6(ref s) if s == "::1"));
    assert!(matches!(c, IpAddrDiff::V4(127, 0, 0, 1)));
    assert!(matches!(d, IpAddrDiff::V6(ref s) if s == "::1"));
}

#[test]
fn enum_message_quatro_variantes() {
    let m = enum_message();
    assert_eq!(m.len(), 4);
    assert!(matches!(m[0], Message::Quit));
    assert!(matches!(m[1], Message::Move { x: 10, y: 20 }));
    assert!(matches!(m[2], Message::Write(ref s) if s == "Olá!"));
    assert!(matches!(m[3], Message::ChangeColor(255, 128, 0)));
    let (msg, descricao) = metodos_em_enums();
    assert!(matches!(msg, Message::Write(ref s) if s == "hello"));
    assert_eq!(descricao, "Comando para escrever");
}

#[test]
fn if_let_extrai_so_o_caso_pedido() {
    assert_eq!(match_verboso(), Some(3));
    assert_eq!(if_let_basico(), (Some(3), Some((255, 128, 0)), None));
    assert_eq!(componentes_rgb(&Cor::Rgb(1, 2, 3)), Some((1, 2, 3)));
    assert_eq!(componentes_rgb(&Cor::Hex(String::from("#000000"))), None);
}

#[test]
fn moedas_anuncia_quarters_e_conta_o_resto() {
    let (estados, count) = if_let_com_else();
    assert_eq!(estados, vec![String::from("Alaska"), String::from("Texas")]);
    assert_eq!(count, 3);
    let (estados, count) = anuncia_e_conta(&vec![]);
    assert!(estados.is_empty());
    assert_eq!(count, 0);
    let (estados, count) = anuncia_e_conta(&vec![Coin::Dime, Coin::Penny]);
    assert!(estados.is_empty());
    assert_eq!(count, 2);
}

#[test]
fn process_number_dobra_ou_zero() {
    assert_eq!(process_number(Some(5)), 10);
    assert_eq!(process_number(None), 0);
    assert_eq!(process_number(Some(-7)), -14);
    assert_eq!(let_else_basico(), (10, 0));
}

#[test]
fn parse_config_cada_validacao() {
    assert_eq!(parse_config(None), Err("Input vazio"));
    assert_eq!(parse_config(Some("")), Err("Input em branco"));
    assert_eq!(parse_config(Some("   ")), Err("Input em branco"));
    assert_eq!(parse_config(Some("abc")), Err("Não é um número válido"));
    assert_eq!(parse_config(Some("150")), Err("Número fora do range 0-100"));
    assert_eq!(parse_config(Some("42")), Ok(42));
}

#[test]
fn parse_config_limites() {
    assert_eq!(parse_config(Some(" 0 ")), Ok(0));
    assert_eq!(parse_config(Some("100")), Ok(100));
    assert_eq!(parse_config(Some("101")), Err("Número fora do range 0-100"));
    assert_eq!(parse_config(Some("-1")), Err("Número fora do range 0-100"));
    assert_eq!(parse_config(Some("99999999999")), Err("Não é um número válido"));
}

#[test]
fn find_user_conhecidos_e_desconhecido() {
    let admin = find_user("admin").unwrap();
    assert_eq!(admin.name, "admin");
    assert_eq!(admin.email, "admin@example.com");
    assert_eq!(admin.age, Some(30));
    let guest = find_user("guest").unwrap();
    assert_eq!(guest.name, "guest");
    assert_eq!(guest.email, "guest@example.com");
    assert_eq!(guest.age, None);
    assert!(find_user("inexistente").is_none());
    assert!(find_user("Admin").is_none());
    assert!(find_user("").is_none());
}

#[test]
fn first_element_vazio_e_cheio() {
    assert_eq!(first_element(&[10, 20, 30]), Some(&10));
    assert_eq!(first_element(&[]), None);
}

#[test]
fn metodos_de_option() {
    assert_eq!(option_precisa_tratamento(), (10, 10));
    assert_eq!(
        metodos_option(),
        MetodosOption {
            some_is_some: true,
            some_is_none: false,
            none_is_some: false,
            none_is_none: true,
            some_unwrap: 42,
            some_unwrap_or: 42,
            none_unwrap_or: 0,
            none_unwrap_or_else: 100,
            some_expect: 42,
        }
    );
}
