use aprendendo_rust::structs::definindo_structs::{
    build_user, build_user_short, field_init_shorthand, funcao_retorna_struct,
    ownership_em_structs, struct_basica, struct_mutavel, struct_update_syntax, tuple_structs,
    unit_structs, AlwaysEqual, Color, Point,
};
use aprendendo_rust::structs::exemplo_retangulo::{
    self, area_v1, area_v2, area_v3, com_structs, com_tuplas, com_variaveis_soltas,
};
use aprendendo_rust::structs::metodos::{
    associated_functions, metodo_basico, metodo_mesmo_nome_campo, metodos_com_parametros,
    tipos_de_self, Rectangle,
};

#[test]
fn usuarios_construidos() {
    let u = build_user(String::from("a@b.com"), String::from("ana"));
    assert!(u.active);
    assert_eq!(u.username, "ana");
    assert_eq!(u.email, "a@b.com");
    assert_eq!(u.sign_in_count, 1);
    let v = build_user_short(String::from("c@d.com"), String::from("caio"));
    assert_eq!((v.active, v.username.as_str(), v.email.as_str(), v.sign_in_count), (true, "caio", "c@d.com", 1));
    let b = struct_basica();
    assert_eq!((b.username.as_str(), b.email.as_str()), ("rustacean123", "rust@example.com"));
    let (antigo, m) = struct_mutavel();
    assert_eq!(antigo, "rust@example.com");
    assert_eq!(m.email, "novo@example.com");
    assert_eq!(funcao_retorna_struct().username, "testuser");
    assert_eq!(field_init_shorthand().email, "short@email.com");
    assert_eq!(ownership_em_structs().username, "dono");
}

#[test]
fn struct_update_leva_os_campos_restantes() {
    let (user2, validos, user3, user4) = struct_update_syntax();
    assert_eq!(user2.email, "novo@email.com");
    assert_eq!(user2.username, "original");
    assert!(user2.active);
    assert_eq!(user2.sign_in_count, 10);
    assert_eq!(validos, (true, 10));
    assert_eq!(user3.username, "user3");
    assert_eq!(user4.username, "user4");
    assert_eq!(user4.email, "user4@email.com");
    assert!(!user4.active);
    assert_eq!(user4.sign_in_count, 1);
}

#[test]
fn tuple_e_unit_structs() {
    assert_eq!(tuple_structs(), (Color(0, 0, 0), Point(0, 0, 0)));
    assert_eq!(unit_structs(), AlwaysEqual);
}

#[test]
fn areas_nas_tres_versoes() {
    assert_eq!(area_v1(30, 50), 1500);
    assert_eq!(area_v2((30, 50)), 1500);
    assert_eq!(area_v3(&exemplo_retangulo::Rectangle { width: 7, height: 6 }), 42);
    assert_eq!(area_v1(0, 9), 0);
    assert_eq!(area_v1(65536, 65535), 4294901760);
    assert_eq!(com_variaveis_soltas(), 1500);
    assert_eq!(com_tuplas(), 1500);
    assert_eq!(com_structs(), (1500, exemplo_retangulo::Rectangle { width: 30, height: 50 }));
}

#[test]
fn metodos_do_retangulo() {
    let r = Rectangle::new(3, 4);
    assert_eq!(r.area(), 12);
    assert_eq!(r.perimeter(), 14);
    assert!(!r.is_square());
    assert!(r.width());
    assert!(!Rectangle::new(0, 4).width());
    assert_eq!(r.into_square(), Rectangle::square(4));
    assert_eq!(Rectangle::new(9, 2).into_square(), Rectangle { width: 9, height: 9 });
    assert!(Rectangle::square(5).is_square());
    let mut d = Rectangle::new(3, 4);
    d.double_size();
    assert_eq!(d, Rectangle { width: 6, height: 8 });
    assert!(Rectangle::new(30, 50).can_hold(&Rectangle::new(10, 40)));
    assert!(!Rectangle::new(30, 50).can_hold(&Rectangle::new(30, 40)));
}

#[test]
fn exemplos_de_metodos() {
    assert_eq!(metodo_basico(), 1500);
    assert_eq!(
        tipos_de_self(),
        (200, Rectangle { width: 20, height: 40 }, Rectangle { width: 20, height: 20 })
    );
    assert_eq!(metodo_mesmo_nome_campo(), (true, 30));
    assert_eq!(metodos_com_parametros(), (true, false));
    assert_eq!(
        associated_functions(),
        (Rectangle { width: 30, height: 50 }, Rectangle { width: 25, height: 25 })
    );
}
