use trabajo_final::Actividad::{Futbol, Paddle, Tenis};
use trabajo_final::Categoria::{CategoriaA, CategoriaB, CategoriaC};
use trabajo_final::{AccountId, Categoria, Club, Fecha};

fn alicia() -> AccountId {
    AccountId([1; 32])
}
fn bob() -> AccountId {
    AccountId([2; 32])
}
fn carlos() -> AccountId {
    AccountId([3; 32])
}

fn hoy() -> Fecha {
    Club::obtener_fecha_actual(0)
}

fn generar_club() -> Club {
    let mut club = Club::new(alicia());
    club.set_politica_autorizacion(alicia(), false).unwrap();
    club
}

fn registrar(club: &mut Club, quien: AccountId, dni: u128, nombre: &str, categoria: Categoria) {
    club.registrar_nuevo_socio(quien, hoy(), dni, nombre.to_string(), categoria).unwrap();
}

fn pagar(club: &mut Club, quien: AccountId, dni: u128, monto: u128) {
    club.realizar_pago(quien, hoy(), dni, monto).unwrap();
}

#[test]
fn valores_default_test() {
    let club = generar_club();
    assert_eq!(club.get_precio(CategoriaA), 5000);
    assert_eq!(club.get_precio(CategoriaB(Tenis)), 3000);
    assert_eq!(club.get_precio(CategoriaC), 2000);
    assert_eq!(club.get_nombre(), "Seminario Rust");
    assert_eq!(club.get_pagos(None).unwrap().len(), 0);
    assert_eq!(club.get_cantidad_pagos_bonificacion(), 5);
    assert_eq!(club.get_porcentaje_bonificacion_pagos_consecutivos(), 10);
}

#[test]
fn registrar_socio_test() {
    let mut club = generar_club();
    registrar(&mut club, alicia(), 0, "", CategoriaA);
}

#[test]
#[should_panic]
fn socio_inexistente_test() {
    let mut club = generar_club();
    registrar(&mut club, alicia(), 0, "", CategoriaA);
    pagar(&mut club, alicia(), 1, 100000);
}

#[should_panic]
#[test]
fn registrar_socio_repetido_test() {
    let mut club = generar_club();
    registrar(&mut club, alicia(), 0, "", CategoriaA);
    registrar(&mut club, alicia(), 0, "", CategoriaA);
}

#[test]
fn realizar_pagos_test() {
    let mut club = generar_club();
    registrar(&mut club, alicia(), 5, "", CategoriaA);
    // no such member
    let res = club.clone().realizar_pago(alicia(), hoy(), 4, u128::MAX);
    assert!(res.is_err());
    // short by one
    let precio = club.get_precio(CategoriaA);
    let res = club.clone().realizar_pago(alicia(), hoy(), 5, precio - 1);
    assert!(res.is_err());
    // exact amount
    pagar(&mut club, alicia(), 5, precio);
}

#[test]
fn obtener_pagos_test() {
    let mut club = generar_club();
    registrar(&mut club, alicia(), 0, "", CategoriaA);
    registrar(&mut club, alicia(), 1, "", CategoriaB(Tenis));
    registrar(&mut club, alicia(), 2, "", CategoriaC);
    let precio_c = club.get_precio(CategoriaC);
    pagar(&mut club, alicia(), 2, precio_c);
    assert_eq!(club.get_pagos(None).unwrap().len(), 4);
    assert_eq!(club.get_pagos(Some(0)).unwrap().len(), 1);
    assert_eq!(club.get_pagos(Some(1)).unwrap().len(), 1);
    assert_eq!(club.get_pagos(Some(2)).unwrap().len(), 2);
    assert_eq!(club.get_pagos(Some(0)).unwrap()[0].get_monto(), club.get_precio(CategoriaA));
    assert_eq!(club.get_pagos(Some(1)).unwrap()[0].get_monto(), club.get_precio(CategoriaB(Tenis)));
    assert_eq!(club.get_pagos(Some(2)).unwrap()[0].get_monto(), club.get_precio(CategoriaC));
}

#[test]
fn bonificacion_test() {
    let mut club = generar_club();
    club.set_cantidad_pagos_bonificacion(alicia(), 2).unwrap();
    club.set_porcentaje_bonificacion_pagos_consecutivos(alicia(), 25).unwrap();
    club.set_precio(alicia(), CategoriaA, 100).unwrap();
    registrar(&mut club, alicia(), 0, "", CategoriaA);
    pagar(&mut club, alicia(), 0, 100);
    pagar(&mut club, alicia(), 0, 100);
    pagar(&mut club, alicia(), 0, 75);
    pagar(&mut club, alicia(), 0, 100);
    pagar(&mut club, alicia(), 0, 100);
    pagar(&mut club, alicia(), 0, 75);
    pagar(&mut club, alicia(), 0, 100);
    pagar(&mut club, alicia(), 0, 100);
    pagar(&mut club, alicia(), 0, 75);
    let pagos = club.get_pagos(None).unwrap();
    assert_eq!(pagos[0].get_monto(), 100);
    assert_eq!(pagos[1].get_monto(), 100);
    assert_eq!(pagos[2].get_monto(), 75);
    assert_eq!(pagos[3].get_monto(), 100);
    assert_eq!(pagos[4].get_monto(), 100);
    assert_eq!(pagos[5].get_monto(), 75);
}

#[test]
fn pagos_exactos_test() {
    let mut club = generar_club();
    club.set_cantidad_pagos_bonificacion(alicia(), 2).unwrap();
    club.set_porcentaje_bonificacion_pagos_consecutivos(alicia(), 25).unwrap();
    club.set_precio(alicia(), CategoriaA, 100).unwrap();
    registrar(&mut club, alicia(), 0, "", CategoriaA);
    pagar(&mut club, alicia(), 0, 100);
    assert!(club.clone().realizar_pago(alicia(), hoy(), 0, 101).is_err());
    assert!(club.clone().realizar_pago(alicia(), hoy(), 0, 99).is_err());
    assert!(club.clone().realizar_pago(alicia(), hoy(), 0, 75).is_err());
    pagar(&mut club, alicia(), 0, 100);
    assert!(club.clone().realizar_pago(alicia(), hoy(), 0, 76).is_err());
    assert!(club.clone().realizar_pago(alicia(), hoy(), 0, 74).is_err());
    assert!(club.clone().realizar_pago(alicia(), hoy(), 0, 100).is_err());
    pagar(&mut club, alicia(), 0, 75);
}

#[test]
fn autorizacion_test() {
    let mut club = generar_club();
    club.set_politica_autorizacion(alicia(), true).unwrap();
    assert!(club.soy_el_dueno(alicia()));
    assert!(club.estoy_autorizado(alicia()));
    assert!(!club.soy_el_dueno(bob()));
    assert!(!club.estoy_autorizado(bob()));
    // bob cannot authorize anyone
    assert!(club.clone().agregar_autorizado(bob(), bob()).is_err());

    club.agregar_autorizado(alicia(), bob()).unwrap();
    club.agregar_autorizado(alicia(), carlos()).unwrap();
    // no double authorization
    assert!(club.clone().agregar_autorizado(alicia(), bob()).is_err());
    assert!(club.estoy_autorizado(bob()));
    club.quitar_autorizado(alicia(), bob()).unwrap();
    assert!(!club.estoy_autorizado(bob()));
    assert!(club.estoy_autorizado(carlos()));
    // authorized accounts cannot authorize others, nor take the club
    assert!(club.clone().agregar_autorizado(carlos(), bob()).is_err());
    assert!(club.clone().cambiar_dueno(carlos(), carlos()).is_err());
    club.cambiar_dueno(alicia(), carlos()).unwrap();
    assert!(!club.soy_el_dueno(alicia()));
    assert!(!club.estoy_autorizado(alicia()));
    assert!(club.soy_el_dueno(carlos()));
}

#[test]
fn no_autorizacion_test() {
    // as above, but with everybody authorized
    let mut club = generar_club();
    club.set_politica_autorizacion(alicia(), false).unwrap();
    assert!(club.soy_el_dueno(alicia()));
    assert!(club.estoy_autorizado(alicia()));
    assert!(!club.soy_el_dueno(bob()));
    assert!(club.estoy_autorizado(bob()));
    club.agregar_autorizado(bob(), bob()).unwrap();
    club.agregar_autorizado(bob(), carlos()).unwrap();
    assert!(club.estoy_autorizado(bob()));
    club.quitar_autorizado(bob(), bob()).unwrap();
    assert!(club.estoy_autorizado(bob()));
    assert!(club.estoy_autorizado(carlos()));
}

#[test]
fn autorizacion_leer_cosas_test() {
    let mut club = generar_club();
    club.set_politica_autorizacion(alicia(), true).unwrap();
    club.agregar_autorizado(alicia(), carlos()).unwrap();
    registrar(&mut club, alicia(), 0, "Alicia", CategoriaC);
    pagar(&mut club, alicia(), 0, 2000);
    pagar(&mut club, alicia(), 0, 2000);
    pagar(&mut club, alicia(), 0, 2000);
    // reads need no authorization
    assert_eq!(club.get_autorizados(), vec![carlos()]);
    assert_eq!(club.get_cantidad_pagos_bonificacion(), 5);
    assert_eq!(club.get_porcentaje_bonificacion_pagos_consecutivos(), 10);
    assert_eq!(club.get_dueno(), alicia());
    assert_eq!(club.get_nombre(), "Seminario Rust");
    assert_eq!(club.get_precio(CategoriaA), 5000);
    assert_eq!(club.get_precio(CategoriaB(Paddle)), 3000);
    assert_eq!(club.get_precio(CategoriaC), 2000);
    assert_eq!(club.get_pagos(None).unwrap().len(), 4);
}

#[test]
fn autorizacion_hacer_cosas() {
    let mut club = generar_club();
    club.set_politica_autorizacion(alicia(), true).unwrap();
    registrar(&mut club, alicia(), 0, "Alicia", CategoriaC);
    // bob may do nothing
    assert!(club.clone().cambiar_dueno(bob(), bob()).is_err());
    assert!(club.clone().agregar_autorizado(bob(), bob()).is_err());
    assert!(club.clone().set_cantidad_pagos_bonificacion(bob(), 1).is_err());
    assert!(club.clone().set_porcentaje_bonificacion_pagos_consecutivos(bob(), 100).is_err());
    assert!(club.clone().set_politica_autorizacion(bob(), false).is_err());
    assert!(club.clone().set_precio(bob(), CategoriaA, 0).is_err());
    assert!(club.clone().set_precio(bob(), CategoriaB(Futbol), 0).is_err());
    assert!(club.clone().set_precio(bob(), CategoriaC, 0).is_err());
    assert!(club
        .clone()
        .registrar_nuevo_socio(bob(), hoy(), 1, "Bob".to_string(), CategoriaA)
        .is_err());
    assert!(club.clone().realizar_pago(bob(), hoy(), 0, u128::MAX).is_err());
}

#[test]
fn autorizacion_con_cosas_test() {
    let mut club = generar_club();
    club.set_politica_autorizacion(alicia(), true).unwrap();
}
