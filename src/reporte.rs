//! Read-only reports over a club's members and payments: delinquent members,
//! revenue by category, and members in good standing for an activity.

use vstd::prelude::*;
use crate::categoria::Actividad;
use crate::club::{Club, ClubVista};
use crate::error::ErrorClub;
use crate::fecha::Fecha;
use crate::pago::Pago;
use crate::socio::Socio;

verus! {

/// Member `i` has a payment that is still pending and past due on `hoy`.
pub open spec fn es_moroso(pagos: Seq<Pago>, i: int, hoy: Fecha) -> bool {
    exists|k: int| 0 <= k < pagos.len() && pagos[k].id_socio == i && #[trigger] pagos[k].vencido(hoy)
}

/// The members whose index satisfies `elegido`, in order.
pub open spec fn seleccion(socios: Seq<Socio>, elegido: spec_fn(int) -> bool) -> Seq<Socio>
    decreases socios.len(),
{
    if socios.len() == 0 {
        Seq::empty()
    } else {
        let previos = seleccion(socios.drop_last(), elegido);
        if elegido(socios.len() - 1) {
            previos.push(socios.last())
        } else {
            previos
        }
    }
}

/// The delinquent members on `hoy`, in order of registration.
pub open spec fn morosos(socios: Seq<Socio>, pagos: Seq<Pago>, hoy: Fecha) -> Seq<Socio> {
    seleccion(socios, |i: int| es_moroso(pagos, i, hoy))
}

/// The members that are not delinquent on `hoy` and whose category admits
/// `actividad`, in order of registration.
pub open spec fn no_morosos_en(
    socios: Seq<Socio>,
    pagos: Seq<Pago>,
    hoy: Fecha,
    actividad: Actividad,
) -> Seq<Socio> {
    seleccion(
        socios,
        |i: int| !es_moroso(pagos, i, hoy) && socios[i].categoria.admite(actividad),
    )
}

/// Payment `p` was settled in the given month by a member whose current
/// category has index `indice`.
pub open spec fn cuenta_en(p: Pago, socios: Seq<Socio>, anio: int, mes: int, indice: int) -> bool {
    &&& p.pagado matches Some(f) && f.anio() == anio && f.mes() == mes
    &&& p.id_socio < socios.len()
    &&& socios[p.id_socio as int].categoria.indice() == indice
}

/// What the payments settled in the given month brought in for the category
/// with index `indice`.
pub open spec fn recaudado(
    socios: Seq<Socio>,
    pagos: Seq<Pago>,
    anio: int,
    mes: int,
    indice: int,
) -> int
    decreases pagos.len(),
{
    if pagos.len() == 0 {
        0
    } else {
        let resto = recaudado(socios, pagos.drop_last(), anio, mes, indice);
        if cuenta_en(pagos.last(), socios, anio, mes, indice) {
            resto + pagos.last().monto
        } else {
            resto
        }
    }
}

proof fn lema_recaudado_crece(
    socios: Seq<Socio>,
    pagos: Seq<Pago>,
    n: int,
    anio: int,
    mes: int,
    indice: int,
)
    requires
        0 <= n <= pagos.len(),
    ensures
        0 <= recaudado(socios, pagos.subrange(0, n), anio, mes, indice) <= recaudado(
            socios,
            pagos,
            anio,
            mes,
            indice,
        ),
    decreases pagos.len(),
{
    if n < pagos.len() {
        assert(pagos.drop_last().subrange(0, n) =~= pagos.subrange(0, n));
        lema_recaudado_crece(socios, pagos.drop_last(), n, anio, mes, indice);
    } else {
        assert(pagos.subrange(0, n) =~= pagos);
        if pagos.len() > 0 {
            lema_recaudado_crece(socios, pagos.drop_last(), n - 1, anio, mes, indice);
            assert(pagos.drop_last().subrange(0, n - 1) =~= pagos.drop_last());
        }
    }
}

/// For each member, whether it is delinquent on `hoy`.
fn marcar_morosos(cantidad: usize, pagos: &Vec<Pago>, hoy: Fecha) -> (r: Vec<bool>)
    ensures
        r@.len() == cantidad,
        forall|i: int| 0 <= i < cantidad ==> r@[i] == es_moroso(pagos@, i, hoy),
{
    let mut r: Vec<bool> = Vec::new();
    let mut i: usize = 0;
    while i < cantidad
        invariant
            0 <= i <= cantidad,
            r@.len() == i,
            forall|a: int| 0 <= a < i ==> !r@[a],
        decreases cantidad - i,
    {
        r.push(false);
        i = i + 1;
    }
    let mut k: usize = 0;
    while k < pagos.len()
        invariant
            0 <= k <= pagos@.len(),
            r@.len() == cantidad,
            forall|a: int|
                0 <= a < cantidad ==> r@[a] == exists|m: int|
                    0 <= m < k && pagos@[m].id_socio == a && #[trigger] pagos@[m].vencido(hoy),
        decreases pagos.len() - k,
    {
        let p = pagos[k];
        if p.es_moroso(hoy) && p.id_socio < cantidad as u64 {
            r.set(p.id_socio as usize, true);
        }
        k = k + 1;
        proof {
            assert forall|a: int| 0 <= a < cantidad implies r@[a] == exists|m: int|
                0 <= m < k && pagos@[m].id_socio == a && #[trigger] pagos@[m].vencido(hoy) by {
                if p.id_socio == a && p.vencido(hoy) {
                    assert(pagos@[k - 1].vencido(hoy));
                }
            }
        }
    }
    r
}

/// The members whose flag is set, in order.
fn elegir(socios: &Vec<Socio>, elegido: &Vec<bool>, regla: Ghost<spec_fn(int) -> bool>) -> (r: Vec<
    Socio,
>)
    requires
        elegido@.len() == socios@.len(),
        forall|i: int| 0 <= i < socios@.len() ==> elegido@[i] == (regla@)(i),
    ensures
        r@ == seleccion(socios@, regla@),
{
    let mut r: Vec<Socio> = Vec::new();
    let mut i: usize = 0;
    while i < socios.len()
        invariant
            0 <= i <= socios@.len(),
            elegido@.len() == socios@.len(),
            forall|a: int| 0 <= a < socios@.len() ==> elegido@[a] == (regla@)(a),
            r@ == seleccion(socios@.subrange(0, i as int), regla@),
        decreases socios.len() - i,
    {
        if elegido[i] {
            r.push(socios[i].clone());
        }
        i = i + 1;
        proof {
            let hasta = socios@.subrange(0, i as int);
            assert(hasta.drop_last() =~= socios@.subrange(0, i - 1));
        }
    }
    assert(socios@.subrange(0, socios@.len() as int) =~= socios@);
    r
}

/// The members with an overdue payment on `hoy`, each once, in order of
/// registration.
pub fn socios_morosos(socios: &Vec<Socio>, pagos: &Vec<Pago>, hoy: Fecha) -> (r: Vec<Socio>)
    ensures
        r@ == morosos(socios@, pagos@, hoy),
{
    let marcas = marcar_morosos(socios.len(), pagos, hoy);
    elegir(socios, &marcas, Ghost(|i: int| es_moroso(pagos@, i, hoy)))
}

/// The members with no overdue payment on `hoy` whose category admits
/// `actividad`, in order of registration.
pub fn socios_no_morosos(
    socios: &Vec<Socio>,
    pagos: &Vec<Pago>,
    hoy: Fecha,
    actividad: Actividad,
) -> (r: Vec<Socio>)
    ensures
        r@ == no_morosos_en(socios@, pagos@, hoy, actividad),
{
    let marcas = marcar_morosos(socios.len(), pagos, hoy);
    let mut elegidos: Vec<bool> = Vec::new();
    let mut i: usize = 0;
    while i < socios.len()
        invariant
            0 <= i <= socios@.len(),
            marcas@.len() == socios@.len(),
            forall|a: int| 0 <= a < socios@.len() ==> marcas@[a] == es_moroso(pagos@, a, hoy),
            elegidos@.len() == i,
            forall|a: int|
                0 <= a < i ==> elegidos@[a] == (!es_moroso(pagos@, a, hoy)
                    && socios@[a].categoria.admite(actividad)),
        decreases socios.len() - i,
    {
        elegidos.push(!marcas[i] && socios[i].categoria.puede_acceder_a(actividad));
        i = i + 1;
    }
    elegir(
        socios,
        &elegidos,
        Ghost(|a: int| !es_moroso(pagos@, a, hoy) && socios@[a].categoria.admite(actividad)),
    )
}

/// What the payments settled in the given month brought in, for categories
/// A, B and C; `None` when a total does not fit in a `u128`.
pub fn recaudacion(socios: &Vec<Socio>, pagos: &Vec<Pago>, anio: i32, mes: i8) -> (r: Option<
    Vec<u128>,
>)
    ensures
        r is None <==> exists|c: int|
            0 <= c < 3 && #[trigger] recaudado(socios@, pagos@, anio as int, mes as int, c)
                > u128::MAX,
        r matches Some(v) ==> v@.len() == 3 && forall|c: int|
            0 <= c < 3 ==> v@[c] == #[trigger] recaudado(socios@, pagos@, anio as int, mes as int, c),
{
    let mut totales: Vec<u128> = vec![0, 0, 0];
    let mut k: usize = 0;
    while k < pagos.len()
        invariant
            0 <= k <= pagos@.len(),
            totales@.len() == 3,
            forall|c: int|
                0 <= c < 3 ==> totales@[c] == #[trigger] recaudado(
                    socios@,
                    pagos@.subrange(0, k as int),
                    anio as int,
                    mes as int,
                    c,
                ),
        decreases pagos.len() - k,
    {
        let p = pagos[k];
        let ghost previos = pagos@.subrange(0, k as int);
        let ghost hasta = pagos@.subrange(0, k + 1);
        proof {
            assert(hasta.drop_last() =~= previos);
            assert(hasta.last() == p);
        }
        if let Some(f) = p.pagado {
            if f.get_anio() == anio && f.get_mes() as i16 == mes as i16 && p.id_socio
                < socios.len() as u64 {
                let c = socios[p.id_socio as usize].categoria.num();
                match totales[c].checked_add(p.monto) {
                    Some(t) => {
                        totales.set(c, t);
                    },
                    None => {
                        proof {
                            assert(totales@[c as int] == recaudado(socios@, previos, anio as int, mes as int, c as int));
                            assert(cuenta_en(p, socios@, anio as int, mes as int, c as int));
                            lema_recaudado_crece(
                                socios@,
                                pagos@,
                                k + 1,
                                anio as int,
                                mes as int,
                                c as int,
                            );
                            assert(recaudado(socios@, hasta, anio as int, mes as int, c as int)
                                > u128::MAX);
                        }
                        return None;
                    },
                }
            }
        }
        k = k + 1;
        proof {
            assert forall|c: int| 0 <= c < 3 implies totales@[c] == #[trigger] recaudado(
                socios@,
                pagos@.subrange(0, k as int),
                anio as int,
                mes as int,
                c,
            ) by {
                assert(recaudado(socios@, hasta, anio as int, mes as int, c) == recaudado(
                    socios@,
                    previos,
                    anio as int,
                    mes as int,
                    c,
                ) + if cuenta_en(p, socios@, anio as int, mes as int, c) {
                    p.monto as int
                } else {
                    0
                });
            }
        }
    }
    assert(pagos@.subrange(0, pagos@.len() as int) =~= pagos@);
    Some(totales)
}

/// Reports over one club.
pub struct TrabajoFinalReporte {
    club: Club,
}

impl View for TrabajoFinalReporte {
    type V = ClubVista;

    closed spec fn view(&self) -> ClubVista {
        self.club@
    }
}

impl TrabajoFinalReporte {
    pub fn new(club: Club) -> (r: TrabajoFinalReporte)
        ensures
            r@ == club@,
    {
        TrabajoFinalReporte { club }
    }

    /// Reports from now on cover `nuevo_club`.
    pub fn cambiar_club(&mut self, nuevo_club: Club)
        ensures
            final(self)@ == nuevo_club@,
    {
        self.club = nuevo_club;
    }

    pub fn obtener_nombre(&self) -> (r: String)
        ensures
            r@ == self@.nombre,
    {
        self.club.get_nombre()
    }

    /// The members with an overdue payment on `fecha_actual`.
    pub fn obtener_socios_morosos(&self, fecha_actual: Fecha) -> (r: Vec<Socio>)
        ensures
            r@ == morosos(self@.socios, self@.pagos, fecha_actual),
    {
        socios_morosos(self.club.ver_socios(), self.club.ver_pagos(), fecha_actual)
    }

    /// The revenue of the given month for each category, with its label.
    pub fn informe_recaudacion(&self, anio: i32, mes: i8) -> (r: Result<
        Vec<(String, u128)>,
        ErrorClub,
    >)
        ensures
            r is Err <==> exists|c: int|
                0 <= c < 3 && #[trigger] recaudado(
                    self@.socios,
                    self@.pagos,
                    anio as int,
                    mes as int,
                    c,
                ) > u128::MAX,
            r is Err ==> r == Err::<Vec<(String, u128)>, ErrorClub>(ErrorClub::Desbordamiento),
            r matches Ok(v) ==> {
                &&& v@.len() == 3
                &&& v@[0].0@ == "Categoría A"@
                &&& v@[1].0@ == "Categoría B"@
                &&& v@[2].0@ == "Categoría C"@
                &&& forall|c: int|
                    0 <= c < 3 ==> v@[c].1 == #[trigger] recaudado(
                        self@.socios,
                        self@.pagos,
                        anio as int,
                        mes as int,
                        c,
                    )
            },
    {
        let socios = self.club.ver_socios();
        let pagos = self.club.ver_pagos();
        assert(socios@ == self@.socios && pagos@ == self@.pagos);
        match recaudacion(socios, pagos, anio, mes) {
            None => Err(ErrorClub::Desbordamiento),
            Some(t) => {
                let v = vec![
                    (String::from_str("Categoría A"), t[0]),
                    (String::from_str("Categoría B"), t[1]),
                    (String::from_str("Categoría C"), t[2]),
                ];
                assert(forall|c: int| 0 <= c < 3 ==> v@[c].1 == t@[c]);
                Ok(v)
            },
        }
    }

    /// The members with no overdue payment on `fecha_actual` whose category
    /// admits `actividad`.
    pub fn socios_no_morosos_en_actividad(&self, fecha_actual: Fecha, actividad: Actividad) -> (r:
        Vec<Socio>)
        ensures
            r@ == no_morosos_en(self@.socios, self@.pagos, fecha_actual, actividad),
    {
        socios_no_morosos(self.club.ver_socios(), self.club.ver_pagos(), fecha_actual, actividad)
    }
}

} // verus!
