//! Calendar dates of the proleptic Gregorian calendar, modelled by the number
//! of days elapsed since 1 January of year 1.

use vstd::prelude::*;

verus! {

/// Gregorian leap-year rule.
pub open spec fn es_bisiesto(anio: int) -> bool {
    anio % 4 == 0 && (anio % 100 != 0 || anio % 400 == 0)
}

pub open spec fn dias_del_mes(anio: int, mes: int) -> int {
    if mes == 2 {
        if es_bisiesto(anio) { 29 } else { 28 }
    } else if mes == 4 || mes == 6 || mes == 9 || mes == 11 {
        30
    } else {
        31
    }
}

pub open spec fn dias_del_anio(anio: int) -> int {
    if es_bisiesto(anio) { 366 } else { 365 }
}

/// Days of the years `1 .. anio`.
pub open spec fn dias_antes_del_anio(anio: int) -> int
    decreases anio,
{
    if anio <= 1 { 0 } else { dias_antes_del_anio(anio - 1) + dias_del_anio(anio - 1) }
}

/// Days of the months `1 .. mes` of the year `anio`.
pub open spec fn dias_antes_del_mes(anio: int, mes: int) -> int
    decreases mes,
{
    if mes <= 1 { 0 } else { dias_antes_del_mes(anio, mes - 1) + dias_del_mes(anio, mes - 1) }
}

pub open spec fn fecha_valida(anio: int, mes: int, dia: int) -> bool {
    &&& 1 <= anio
    &&& 1 <= mes <= 12
    &&& 1 <= dia <= dias_del_mes(anio, mes)
}

/// Days elapsed from 1 January of year 1 to the given date.
pub open spec fn numero_de_dia(anio: int, mes: int, dia: int) -> int {
    dias_antes_del_anio(anio) + dias_antes_del_mes(anio, mes) + dia - 1
}

/// The first day that a `Fecha` cannot hold: 1 January of the year after `i32::MAX`.
pub open spec fn dia_limite() -> int {
    dias_antes_del_anio(i32::MAX as int + 1)
}

proof fn lema_mes_siguiente(anio: int, mes: int)
    requires
        1 <= mes,
    ensures
        dias_antes_del_mes(anio, mes + 1) == dias_antes_del_mes(anio, mes) + dias_del_mes(anio, mes),
{
}

proof fn lema_meses_del_anio(anio: int)
    ensures
        dias_antes_del_mes(anio, 12) + 31 == dias_del_anio(anio),
        dias_antes_del_mes(anio, 13) == dias_del_anio(anio),
{
    reveal_with_fuel(dias_antes_del_mes, 13);
}

proof fn lema_meses_crecen(anio: int, m1: int, m2: int)
    requires
        1 <= m1 <= m2,
    ensures
        dias_antes_del_mes(anio, m1) + (m2 - m1) * 28 <= dias_antes_del_mes(anio, m2),
    decreases m2 - m1,
{
    if m1 < m2 {
        lema_meses_crecen(anio, m1, m2 - 1);
    }
}

proof fn lema_anios_crecen(a1: int, a2: int)
    requires
        1 <= a1 <= a2,
    ensures
        dias_antes_del_anio(a1) + (a2 - a1) * 365 <= dias_antes_del_anio(a2),
    decreases a2 - a1,
{
    if a1 < a2 {
        lema_anios_crecen(a1, a2 - 1);
    }
}

proof fn lema_anios_cota_superior(anio: int)
    requires
        1 <= anio,
    ensures
        dias_antes_del_anio(anio) <= (anio - 1) * 366,
    decreases anio,
{
    if anio > 1 {
        lema_anios_cota_superior(anio - 1);
    }
}

/// A valid date falls inside its month and inside its year.
proof fn lema_dentro_del_anio(anio: int, mes: int, dia: int)
    requires
        fecha_valida(anio, mes, dia),
    ensures
        dias_antes_del_anio(anio) + dias_antes_del_mes(anio, mes) <= numero_de_dia(anio, mes, dia),
        numero_de_dia(anio, mes, dia) < dias_antes_del_anio(anio) + dias_antes_del_mes(anio, mes + 1),
        numero_de_dia(anio, mes, dia) < dias_antes_del_anio(anio + 1),
{
    lema_mes_siguiente(anio, mes);
    lema_meses_crecen(anio, mes + 1, 13);
    lema_meses_del_anio(anio);
}

/// The day number orders valid dates as (year, month, day) does.
proof fn lema_orden(a1: int, m1: int, d1: int, a2: int, m2: int, d2: int)
    requires
        fecha_valida(a1, m1, d1),
        fecha_valida(a2, m2, d2),
    ensures
        numero_de_dia(a1, m1, d1) < numero_de_dia(a2, m2, d2) <==> (a1 < a2 || (a1 == a2 && (m1
            < m2 || (m1 == m2 && d1 < d2)))),
        numero_de_dia(a1, m1, d1) == numero_de_dia(a2, m2, d2) <==> (a1 == a2 && m1 == m2 && d1
            == d2),
{
    lema_dentro_del_anio(a1, m1, d1);
    lema_dentro_del_anio(a2, m2, d2);
    lema_meses_crecen(a1, 1, m1);
    lema_meses_crecen(a2, 1, m2);
    if a1 < a2 {
        lema_anios_crecen(a1 + 1, a2);
    } else if a2 < a1 {
        lema_anios_crecen(a2 + 1, a1);
    } else if m1 < m2 {
        lema_meses_crecen(a1, m1 + 1, m2);
    } else if m2 < m1 {
        lema_meses_crecen(a1, m2 + 1, m1);
    }
}

fn calcular_dias_del_mes(anio: i32, mes: u8) -> (r: u8)
    requires
        1 <= anio,
        1 <= mes <= 12,
    ensures
        r == dias_del_mes(anio as int, mes as int),
        28 <= r <= 31,
{
    if mes == 2 {
        if anio % 4 == 0 && (anio % 100 != 0 || anio % 400 == 0) {
            29
        } else {
            28
        }
    } else if mes == 4 || mes == 6 || mes == 9 || mes == 11 {
        30
    } else {
        31
    }
}

/// A valid calendar date.
#[derive(Clone, Copy, Debug, PartialEq, Eq)]
pub struct Fecha {
    dia: u8,
    mes: u8,
    anio: i32,
}

impl Fecha {
    #[verifier::type_invariant]
    spec fn bien_formada(self) -> bool {
        fecha_valida(self.anio as int, self.mes as int, self.dia as int)
    }

    pub closed spec fn anio(self) -> int {
        self.anio as int
    }

    pub closed spec fn mes(self) -> int {
        self.mes as int
    }

    pub closed spec fn dia(self) -> int {
        self.dia as int
    }

    /// Days elapsed since 1 January of year 1.
    pub open spec fn numero(self) -> int {
        numero_de_dia(self.anio(), self.mes(), self.dia())
    }

    /// The date with the given day, month and year, if there is one.
    pub fn new(dia: u8, mes: u8, anio: i32) -> (r: Option<Fecha>)
        ensures
            r is Some <==> fecha_valida(anio as int, mes as int, dia as int),
            r matches Some(f) ==> f.dia() == dia && f.mes() == mes && f.anio() == anio,
    {
        if anio < 1 || mes < 1 || mes > 12 {
            return None;
        }
        if dia < 1 || dia > calcular_dias_del_mes(anio, mes) {
            return None;
        }
        Some(Fecha { dia, mes, anio })
    }

    /// The date `milisegundos` milliseconds after the start of 1 January 1970.
    pub fn desde_milisegundos(milisegundos: u64) -> (r: Fecha)
        ensures
            r.numero() == numero_de_dia(1970, 1, 1) + milisegundos / 86_400_000,
    {
        let inicio = Fecha { dia: 1, mes: 1, anio: 1970 };
        let dias: u64 = milisegundos / 86_400_000;
        proof {
            lema_anios_cota_superior(1970);
            lema_anios_crecen(1970, i32::MAX as int + 1);
        }
        match inicio.sumar_dias(dias) {
            Some(f) => f,
            None => inicio,
        }
    }

    pub fn get_anio(&self) -> (r: i32)
        ensures
            r == self.anio(),
    {
        self.anio
    }

    pub fn get_mes(&self) -> (r: u8)
        ensures
            r == self.mes(),
    {
        self.mes
    }

    pub fn get_dia(&self) -> (r: u8)
        ensures
            r == self.dia(),
    {
        self.dia
    }

    /// True when `self` comes strictly after `otra`.
    pub fn es_mayor(&self, otra: &Fecha) -> (r: bool)
        ensures
            r == (self.numero() > otra.numero()),
    {
        proof {
            use_type_invariant(self);
            use_type_invariant(otra);
            lema_orden(
                otra.anio(),
                otra.mes(),
                otra.dia(),
                self.anio(),
                self.mes(),
                self.dia(),
            );
        }
        if self.anio != otra.anio {
            self.anio > otra.anio
        } else if self.mes != otra.mes {
            self.mes > otra.mes
        } else {
            self.dia > otra.dia
        }
    }

    /// The date `dias` days later, or `None` when its year would not fit in an `i32`.
    pub fn sumar_dias(&self, dias: u64) -> (r: Option<Fecha>)
        ensures
            r is Some <==> self.numero() + dias < dia_limite(),
            r matches Some(f) ==> f.numero() == self.numero() + dias,
    {
        proof {
            use_type_invariant(self);
        }
        let mut anio: i32 = self.anio;
        let mut mes: u8 = self.mes;
        let mut dia: u8 = self.dia;
        let mut resto: u64 = dias;
        let ghost objetivo = self.numero() + dias;
        loop
            invariant
                fecha_valida(anio as int, mes as int, dia as int),
                numero_de_dia(anio as int, mes as int, dia as int) + resto == objetivo,
                objetivo == self.numero() + dias,
            decreases resto,
        {
            let largo = calcular_dias_del_mes(anio, mes);
            if resto <= (largo - dia) as u64 {
                dia = dia + resto as u8;
                proof {
                    lema_dentro_del_anio(anio as int, mes as int, dia as int);
                    lema_anios_crecen(anio as int + 1, i32::MAX as int + 1);
                }
                return Some(Fecha { dia, mes, anio });
            }
            let ghost antes = numero_de_dia(anio as int, mes as int, dia as int);
            let ghost salto = largo - dia + 1;
            resto = resto - ((largo - dia) as u64 + 1);
            proof {
                lema_mes_siguiente(anio as int, mes as int);
                lema_meses_del_anio(anio as int);
            }
            if mes == 12 {
                if anio == i32::MAX {
                    return None;
                }
                anio = anio + 1;
                mes = 1;
            } else {
                mes = mes + 1;
            }
            dia = 1;
            assert(numero_de_dia(anio as int, mes as int, dia as int) == antes + salto);
        }
    }
}

} // verus!
