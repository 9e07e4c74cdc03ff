use aprendendo_rust::conceitos_comuns::tipos_de_dados::{
    acesso_invalido, arrays_validos, indice_informado, operacoes_basicas, tipo_numerico_explicito,
    tipos_logicos_e_chars, tuplas,
};
use aprendendo_rust::entrada_de_usuario::{compara_entradas, convert_to_int, Comparacao, EntradaInvalida};
use aprendendo_rust::jogo_de_advinhacao::{Jogo, Resposta};
use aprendendo_rust::texto::ErroDeInteiro;

#[test]
fn convert_to_int_apara_espacos_e_quebra_de_linha() {
    assert_eq!(convert_to_int("  42\n").unwrap(), 42);
    assert_eq!(convert_to_int("\t-17 \r\n").unwrap(), -17);
    assert_eq!(convert_to_int("+8").unwrap(), 8);
}

#[test]
fn convert_to_int_apara_espacos_unicode() {
    assert_eq!(convert_to_int("\u{3000}7\u{00A0}").unwrap(), 7);
    assert_eq!(convert_to_int("\u{2003}\u{85}-3\u{2029}").unwrap(), -3);
}

#[test]
fn convert_to_int_limites_de_i32() {
    assert_eq!(convert_to_int("2147483647").unwrap(), i32::MAX);
    assert_eq!(convert_to_int("-2147483648").unwrap(), i32::MIN);
    assert_eq!(convert_to_int("2147483648"), Err(ErroDeInteiro::AcimaDoMaximo));
    assert_eq!(convert_to_int("-2147483649"), Err(ErroDeInteiro::AbaixoDoMinimo));
}

#[test]
fn convert_to_int_rejeita_o_que_nao_e_inteiro() {
    assert_eq!(convert_to_int(""), Err(ErroDeInteiro::Vazio));
    assert_eq!(convert_to_int("  \n"), Err(ErroDeInteiro::Vazio));
    assert_eq!(convert_to_int("abc"), Err(ErroDeInteiro::DigitoInvalido));
    assert_eq!(convert_to_int("4 2"), Err(ErroDeInteiro::DigitoInvalido));
    assert_eq!(convert_to_int("1_000"), Err(ErroDeInteiro::DigitoInvalido));
    assert_eq!(convert_to_int("+"), Err(ErroDeInteiro::DigitoInvalido));
    assert_eq!(convert_to_int("-"), Err(ErroDeInteiro::DigitoInvalido));
    assert_eq!(convert_to_int("3.5"), Err(ErroDeInteiro::DigitoInvalido));
    assert_eq!(convert_to_int("٣"), Err(ErroDeInteiro::DigitoInvalido));
}

#[test]
fn compara_entradas_primeiro_maior() {
    let r = compara_entradas("10\n", "3\n");
    assert_eq!(r, Ok(Comparacao { primeiro: 10, segundo: 3, primeiro_maior: true }));
}

#[test]
fn compara_entradas_iguais_nao_e_maior() {
    let r = compara_entradas("5", " 5 ");
    assert_eq!(r, Ok(Comparacao { primeiro: 5, segundo: 5, primeiro_maior: false }));
}

#[test]
fn compara_entradas_primeira_invalida_vem_antes() {
    assert_eq!(compara_entradas("x", "y"), Err(EntradaInvalida::Primeira));
    assert_eq!(compara_entradas("1", "y"), Err(EntradaInvalida::Segunda));
}

#[test]
fn tipos_de_dados_valores() {
    assert_eq!(tipo_numerico_explicito(), 42);
    assert_eq!(operacoes_basicas(), (15, 120, 3));
    assert_eq!(tipos_logicos_e_chars(), (true, false, 'z', 'ℤ', '😻'));
    assert_eq!(tuplas(), (500, 1));
    assert_eq!(arrays_validos(), (3, 3));
}

#[test]
fn acesso_invalido_dentro_do_array() {
    assert_eq!(acesso_invalido(0), 1);
    assert_eq!(acesso_invalido(4), 5);
}

#[test]
fn indice_informado_le_usize() {
    assert_eq!(indice_informado("3\n"), Some(3));
    assert_eq!(indice_informado(" +0 "), Some(0));
    assert_eq!(indice_informado("-1"), None);
    assert_eq!(indice_informado("-0"), None);
    assert_eq!(indice_informado("dois"), None);
}

#[test]
fn jogo_responde_aos_palpites() {
    let jogo = Jogo::com_segredo(50);
    assert_eq!(jogo.responde("10\n"), Resposta::SecretoMaior(10));
    assert_eq!(jogo.responde(" 99 "), Resposta::SecretoMenor(99));
    assert_eq!(jogo.responde("+050\n"), Resposta::Acertou(50));
    assert_eq!(jogo.responde("cinquenta"), Resposta::Invalido);
    assert_eq!(jogo.responde("128"), Resposta::Invalido);
    assert_eq!(jogo.responde("-128"), Resposta::SecretoMaior(-128));
}

#[test]
fn jogo_novo_sorteia_de_1_a_100() {
    for _ in 0..200 {
        let jogo = Jogo::novo();
        assert!(1 <= jogo.segredo && jogo.segredo <= 100);
    }
}
