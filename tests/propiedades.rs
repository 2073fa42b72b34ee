use trabajo_final::Actividad::{Basquet, Gimnasio, Natacion, Tenis};
use trabajo_final::Categoria::{CategoriaA, CategoriaB, CategoriaC};
use trabajo_final::{AccountId, Club, ErrorClub, Fecha, Pago, TrabajoFinalReporte};

fn duenia() -> AccountId {
    AccountId([1; 32])
}
fn extranio() -> AccountId {
    AccountId([9; 32])
}

fn fecha(dia: u8, mes: u8, anio: i32) -> Fecha {
    Fecha::new(dia, mes, anio).unwrap()
}

fn club_abierto() -> Club {
    let mut club = Club::new(duenia());
    club.set_politica_autorizacion(duenia(), false).unwrap();
    club
}

#[test]
fn fecha_valida_e_invalida() {
    assert!(Fecha::new(31, 2, 2024).is_none());
    assert!(Fecha::new(29, 2, 2023).is_none());
    assert!(Fecha::new(29, 2, 2024).is_some());
    assert!(Fecha::new(29, 2, 1900).is_none());
    assert!(Fecha::new(29, 2, 2000).is_some());
    assert!(Fecha::new(1, 13, 2024).is_none());
    assert!(Fecha::new(0, 1, 2024).is_none());
    assert!(Fecha::new(1, 1, 0).is_none());
    let f = fecha(31, 12, 1999);
    assert_eq!((f.get_dia(), f.get_mes(), f.get_anio()), (31, 12, 1999));
}

#[test]
fn fecha_sumar_dias() {
    assert_eq!(fecha(25, 12, 2023).sumar_dias(10), Some(fecha(4, 1, 2024)));
    assert_eq!(fecha(28, 2, 2024).sumar_dias(1), Some(fecha(29, 2, 2024)));
    assert_eq!(fecha(28, 2, 2023).sumar_dias(1), Some(fecha(1, 3, 2023)));
    assert_eq!(fecha(1, 1, 2024).sumar_dias(366), Some(fecha(1, 1, 2025)));
    assert_eq!(fecha(5, 5, 2024).sumar_dias(0), Some(fecha(5, 5, 2024)));
    assert_eq!(fecha(31, 12, i32::MAX).sumar_dias(1), None);
    assert_eq!(fecha(30, 12, i32::MAX).sumar_dias(1), Some(fecha(31, 12, i32::MAX)));
}

#[test]
fn fecha_desde_milisegundos() {
    assert_eq!(Fecha::desde_milisegundos(0), fecha(1, 1, 1970));
    assert_eq!(Fecha::desde_milisegundos(86_399_999), fecha(1, 1, 1970));
    assert_eq!(Fecha::desde_milisegundos(365 * 86_400_000), fecha(1, 1, 1971));
    // 2024-03-01 is day 19783 after the epoch
    assert_eq!(Club::obtener_fecha_actual(19_783 * 86_400_000), fecha(1, 3, 2024));
}

#[test]
fn fecha_es_mayor() {
    assert!(fecha(2, 1, 2024).es_mayor(&fecha(1, 1, 2024)));
    assert!(fecha(1, 1, 2025).es_mayor(&fecha(31, 12, 2024)));
    assert!(!fecha(1, 1, 2024).es_mayor(&fecha(1, 1, 2024)));
    assert!(!fecha(30, 11, 2024).es_mayor(&fecha(1, 12, 2024)));
}

#[test]
fn categorias() {
    assert_eq!(CategoriaA.num(), 0);
    assert_eq!(CategoriaB(Tenis).num(), 1);
    assert_eq!(CategoriaC.num(), 2);
    assert!(CategoriaA.puede_acceder_a(Natacion));
    assert!(CategoriaB(Tenis).puede_acceder_a(Tenis));
    assert!(CategoriaB(Tenis).puede_acceder_a(Gimnasio));
    assert!(!CategoriaB(Tenis).puede_acceder_a(Basquet));
    assert!(CategoriaC.puede_acceder_a(Gimnasio));
    assert!(!CategoriaC.puede_acceder_a(Tenis));
    assert_eq!(CategoriaB(Gimnasio).assert_valida(), Err(ErrorClub::CategoriaInvalida));
    assert_eq!(CategoriaB(Tenis).assert_valida(), Ok(()));
}

#[test]
fn pago_moroso_y_a_tiempo() {
    let p = Pago {
        id_socio: 0,
        monto: 10,
        vencimiento: fecha(10, 1, 2024),
        pagado: None,
        es_descuento: false,
    };
    assert!(!p.es_moroso(fecha(10, 1, 2024)));
    assert!(p.es_moroso(fecha(11, 1, 2024)));
    assert_eq!(p.es_pagado_a_tiempo(), None);
    let a_tiempo = Pago { pagado: Some(fecha(10, 1, 2024)), ..p };
    assert_eq!(a_tiempo.es_pagado_a_tiempo(), Some(true));
    assert!(!a_tiempo.es_moroso(fecha(1, 2, 2024)));
    let tarde = Pago { pagado: Some(fecha(11, 1, 2024)), ..p };
    assert_eq!(tarde.es_pagado_a_tiempo(), Some(false));
}

#[test]
fn dni_repetido_no_cambia_el_registro() {
    let mut club = club_abierto();
    let hoy = fecha(1, 3, 2024);
    club.registrar_nuevo_socio(duenia(), hoy, 7, "Ana".to_string(), CategoriaA).unwrap();
    let r = club.registrar_nuevo_socio(duenia(), hoy, 7, "Otra".to_string(), CategoriaC);
    assert_eq!(r, Err(ErrorClub::SocioRepetido));
    let socios = club.get_socios();
    assert_eq!(socios.len(), 1);
    assert_eq!(socios[0].get_nombre(), "Ana");
    assert_eq!(club.get_pagos(None).unwrap().len(), 1);
}

#[test]
fn un_pago_pendiente_por_socio() {
    let mut club = club_abierto();
    let hoy = fecha(1, 3, 2024);
    club.registrar_nuevo_socio(duenia(), hoy, 1, "a".to_string(), CategoriaA).unwrap();
    club.registrar_nuevo_socio(duenia(), hoy, 2, "b".to_string(), CategoriaC).unwrap();
    club.realizar_pago(duenia(), hoy, 2, 2000).unwrap();
    club.realizar_pago(duenia(), hoy, 1, 5000).unwrap();
    club.realizar_pago(duenia(), hoy, 2, 2000).unwrap();
    for dni in [1u128, 2] {
        let pendientes = club
            .get_pagos(Some(dni))
            .unwrap()
            .iter()
            .filter(|p| !p.es_pagado())
            .count();
        assert_eq!(pendientes, 1);
    }
    assert_eq!(club.get_pagos(Some(3)), Err(ErrorClub::SocioInexistente));
}

#[test]
fn monto_incorrecto_no_cambia_nada() {
    let mut club = club_abierto();
    let hoy = fecha(1, 3, 2024);
    club.registrar_nuevo_socio(duenia(), hoy, 1, "a".to_string(), CategoriaC).unwrap();
    let antes = club.get_pagos(None).unwrap();
    assert_eq!(club.realizar_pago(duenia(), hoy, 1, 2001), Err(ErrorClub::MontoIncorrecto));
    assert_eq!(club.realizar_pago(duenia(), hoy, 1, 0), Err(ErrorClub::MontoIncorrecto));
    assert_eq!(club.get_pagos(None).unwrap(), antes);
    assert_eq!(club.realizar_pago(duenia(), hoy, 1, 2000), Ok(()));
    let pagos = club.get_pagos(None).unwrap();
    assert_eq!(pagos.len(), 2);
    assert_eq!(pagos[0].get_pagado(), Some(hoy));
}

#[test]
fn vencimiento_sigue_el_calendario() {
    let mut club = club_abierto();
    let alta = fecha(1, 3, 2024);
    club.registrar_nuevo_socio(duenia(), alta, 1, "a".to_string(), CategoriaA).unwrap();
    assert_eq!(club.get_pagos(None).unwrap()[0].get_vencimiento(), fecha(11, 3, 2024));
    // paid late: the next due date still follows the schedule
    club.realizar_pago(duenia(), fecha(30, 4, 2024), 1, 5000).unwrap();
    assert_eq!(club.get_pagos(None).unwrap()[1].get_vencimiento(), fecha(10, 4, 2024));
    // paid early
    club.realizar_pago(duenia(), fecha(2, 3, 2024), 1, 5000).unwrap();
    assert_eq!(club.get_pagos(None).unwrap()[2].get_vencimiento(), fecha(10, 5, 2024));
}

#[test]
fn pagos_tardios_no_cuentan_para_la_bonificacion() {
    let mut club = club_abierto();
    club.set_cantidad_pagos_bonificacion(duenia(), 2).unwrap();
    club.set_porcentaje_bonificacion_pagos_consecutivos(duenia(), 25).unwrap();
    club.set_precio(duenia(), CategoriaA, 100).unwrap();
    let alta = fecha(1, 3, 2024);
    club.registrar_nuevo_socio(duenia(), alta, 1, "a".to_string(), CategoriaA).unwrap();
    club.realizar_pago(duenia(), fecha(1, 6, 2024), 1, 100).unwrap();
    club.realizar_pago(duenia(), alta, 1, 100).unwrap();
    club.realizar_pago(duenia(), alta, 1, 100).unwrap();
    let pagos = club.get_pagos(None).unwrap();
    assert_eq!(pagos[3].get_monto(), 75);
    assert!(pagos[3].get_es_descuento());
    assert!(!pagos[2].get_es_descuento());
    assert_eq!(club.get_socios()[0].pagos_a_tiempo_consecutivos, 0);
}

#[test]
fn precio_nuevo_solo_para_pagos_futuros() {
    let mut club = club_abierto();
    let hoy = fecha(1, 3, 2024);
    club.registrar_nuevo_socio(duenia(), hoy, 1, "a".to_string(), CategoriaB(Tenis)).unwrap();
    club.set_precio(duenia(), CategoriaB(Natacion), 3500).unwrap();
    assert_eq!(club.get_pagos(None).unwrap()[0].get_monto(), 3000);
    club.realizar_pago(duenia(), hoy, 1, 3000).unwrap();
    assert_eq!(club.get_pagos(None).unwrap()[1].get_monto(), 3500);
}

#[test]
fn sin_permiso_todo_falla_y_las_lecturas_siguen() {
    let mut club = Club::new(duenia());
    let hoy = fecha(1, 3, 2024);
    club.registrar_nuevo_socio(duenia(), hoy, 1, "a".to_string(), CategoriaC).unwrap();
    let r = club.registrar_nuevo_socio(extranio(), hoy, 2, "b".to_string(), CategoriaA);
    assert_eq!(r, Err(ErrorClub::NoAutorizado));
    assert_eq!(club.realizar_pago(extranio(), hoy, 1, 2000), Err(ErrorClub::NoAutorizado));
    assert_eq!(club.set_precio(extranio(), CategoriaA, 1), Err(ErrorClub::NoAutorizado));
    assert_eq!(club.cambiar_dueno(extranio(), extranio()), Err(ErrorClub::NoAutorizado));
    assert_eq!(club.cambiar_nombre(extranio(), "x".to_string()), Err(ErrorClub::NoAutorizado));
    assert_eq!(club.get_nombre(), "Seminario Rust");
    assert_eq!(club.get_pagos(None).unwrap().len(), 1);
    assert_eq!(club.get_dueno(), duenia());
    let reporte = TrabajoFinalReporte::new(club);
    assert_eq!(reporte.obtener_socios_morosos(fecha(1, 4, 2024)).len(), 1);
}

#[test]
fn categoria_b_con_gimnasio_se_rechaza() {
    let mut club = club_abierto();
    let hoy = fecha(1, 3, 2024);
    let r = club.registrar_nuevo_socio(duenia(), hoy, 1, "a".to_string(), CategoriaB(Gimnasio));
    assert_eq!(r, Err(ErrorClub::CategoriaInvalida));
    assert_eq!(club.get_socios().len(), 0);
    assert_eq!(club.get_pagos(None).unwrap().len(), 0);
}

#[test]
fn errores_de_parametros_y_listas() {
    let mut club = Club::new(duenia());
    assert_eq!(club.set_cantidad_pagos_bonificacion(duenia(), 0), Err(ErrorClub::FueraDeRango));
    assert_eq!(
        club.set_porcentaje_bonificacion_pagos_consecutivos(duenia(), 0),
        Err(ErrorClub::FueraDeRango)
    );
    assert_eq!(
        club.set_porcentaje_bonificacion_pagos_consecutivos(duenia(), 100),
        Err(ErrorClub::FueraDeRango)
    );
    assert_eq!(club.set_porcentaje_bonificacion_pagos_consecutivos(duenia(), 99), Ok(()));
    assert_eq!(club.agregar_autorizado(duenia(), extranio()), Ok(()));
    assert_eq!(club.agregar_autorizado(duenia(), extranio()), Err(ErrorClub::YaAutorizado));
    assert_eq!(club.quitar_autorizado(duenia(), extranio()), Ok(()));
    assert_eq!(
        club.quitar_autorizado(duenia(), extranio()),
        Err(ErrorClub::AutorizadoInexistente)
    );
    assert_eq!(club.set_politica_autorizacion(extranio(), false), Err(ErrorClub::NoAutorizado));
    assert_eq!(club.cambiar_nombre(duenia(), "Otro".to_string()), Ok(()));
    assert_eq!(club.get_nombre(), "Otro");
}

#[test]
fn quitar_autorizado_pone_el_ultimo_en_su_lugar() {
    let mut club = Club::new(duenia());
    let (a, b, c) = (AccountId([2; 32]), AccountId([3; 32]), AccountId([4; 32]));
    club.agregar_autorizado(duenia(), a).unwrap();
    club.agregar_autorizado(duenia(), b).unwrap();
    club.agregar_autorizado(duenia(), c).unwrap();
    club.quitar_autorizado(duenia(), a).unwrap();
    assert_eq!(club.get_autorizados(), vec![c, b]);
}

#[test]
fn desbordamientos() {
    let mut club = club_abierto();
    let ultimo = fecha(31, 12, i32::MAX);
    let r = club.registrar_nuevo_socio(duenia(), ultimo, 1, "a".to_string(), CategoriaA);
    assert_eq!(r, Err(ErrorClub::Desbordamiento));
    club.set_cantidad_pagos_bonificacion(duenia(), 1).unwrap();
    club.set_precio(duenia(), CategoriaA, u128::MAX).unwrap();
    let hoy = fecha(1, 3, 2024);
    club.registrar_nuevo_socio(duenia(), hoy, 1, "a".to_string(), CategoriaA).unwrap();
    assert_eq!(club.realizar_pago(duenia(), hoy, 1, u128::MAX), Err(ErrorClub::Desbordamiento));
    assert_eq!(club.get_pagos(None).unwrap().len(), 1);
}

#[test]
fn reportes() {
    let mut club = club_abierto();
    let alta = fecha(1, 3, 2024);
    club.registrar_nuevo_socio(duenia(), alta, 1, "a".to_string(), CategoriaA).unwrap();
    club.registrar_nuevo_socio(duenia(), alta, 2, "b".to_string(), CategoriaB(Tenis)).unwrap();
    club.registrar_nuevo_socio(duenia(), alta, 3, "c".to_string(), CategoriaC).unwrap();
    club.realizar_pago(duenia(), fecha(5, 3, 2024), 1, 5000).unwrap();
    club.realizar_pago(duenia(), fecha(6, 3, 2024), 2, 3000).unwrap();
    club.realizar_pago(duenia(), fecha(1, 4, 2024), 1, 5000).unwrap();
    let mut reporte = TrabajoFinalReporte::new(club.clone());
    assert_eq!(reporte.obtener_nombre(), "Seminario Rust");

    // on 20 March only member 3 is past its due date (11 March)
    let morosos = reporte.obtener_socios_morosos(fecha(20, 3, 2024));
    assert_eq!(morosos.len(), 1);
    assert_eq!(morosos[0].get_dni(), 3);
    assert_eq!(reporte.obtener_socios_morosos(fecha(11, 3, 2024)).len(), 0);

    let tenis = reporte.socios_no_morosos_en_actividad(fecha(20, 3, 2024), Tenis);
    let dnis: Vec<u128> = tenis.iter().map(|s| s.get_dni()).collect();
    assert_eq!(dnis, vec![1, 2]);
    let gimnasio = reporte.socios_no_morosos_en_actividad(fecha(5, 3, 2024), Gimnasio);
    assert_eq!(gimnasio.len(), 3);
    let basquet = reporte.socios_no_morosos_en_actividad(fecha(5, 3, 2024), Basquet);
    assert_eq!(basquet.len(), 1);

    let marzo = reporte.informe_recaudacion(2024, 3).unwrap();
    assert_eq!(
        marzo,
        vec![
            ("Categoría A".to_string(), 5000),
            ("Categoría B".to_string(), 3000),
            ("Categoría C".to_string(), 0)
        ]
    );
    let abril = reporte.informe_recaudacion(2024, 4).unwrap();
    assert_eq!(abril[0].1, 5000);
    assert_eq!(reporte.informe_recaudacion(2023, 3).unwrap()[0].1, 0);

    reporte.cambiar_club(Club::new(duenia()));
    assert_eq!(reporte.obtener_socios_morosos(fecha(20, 3, 2024)).len(), 0);
}

#[test]
fn recaudacion_que_no_cabe() {
    let mut club = club_abierto();
    let hoy = fecha(1, 3, 2024);
    club.set_precio(duenia(), CategoriaA, u128::MAX).unwrap();
    club.registrar_nuevo_socio(duenia(), hoy, 1, "a".to_string(), CategoriaA).unwrap();
    club.realizar_pago(duenia(), hoy, 1, u128::MAX).unwrap();
    club.realizar_pago(duenia(), hoy, 1, u128::MAX).unwrap();
    let reporte = TrabajoFinalReporte::new(club);
    assert_eq!(reporte.informe_recaudacion(2024, 3), Err(ErrorClub::Desbordamiento));
}

#[test]
fn lecturas_repetidas_coinciden() {
    let mut club = club_abierto();
    let hoy = fecha(1, 3, 2024);
    club.registrar_nuevo_socio(duenia(), hoy, 1, "a".to_string(), CategoriaA).unwrap();
    club.registrar_nuevo_socio(duenia(), hoy, 2, "b".to_string(), CategoriaC).unwrap();
    club.realizar_pago(duenia(), hoy, 1, 5000).unwrap();
    assert_eq!(club.get_pagos(None), club.get_pagos(None));
    assert_eq!(club.get_pagos(Some(1)), club.get_pagos(Some(1)));
    assert_eq!(club.get_socios(), club.get_socios());
    assert_eq!(club.get_socio(1), club.get_socio(1));
    assert_eq!(club.get_socio(2), None);
    assert_eq!(club.buscar_socio(2), Some(1));
    let reporte = TrabajoFinalReporte::new(club);
    let dia = fecha(20, 3, 2024);
    assert_eq!(reporte.obtener_socios_morosos(dia), reporte.obtener_socios_morosos(dia));
    assert_eq!(reporte.informe_recaudacion(2024, 3), reporte.informe_recaudacion(2024, 3));
    assert_eq!(
        reporte.socios_no_morosos_en_actividad(dia, Gimnasio),
        reporte.socios_no_morosos_en_actividad(dia, Gimnasio)
    );
}
