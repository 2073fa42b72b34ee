//! Properties of the ledger that relate its operations, proved over the
//! club's abstract state.

use vstd::prelude::*;
use crate::categoria::Actividad;
use crate::club::{lema_ultimo_pago, tiene_dni, ultimo_pago_de, ClubVista};
use crate::fecha::Fecha;
use crate::reporte::{morosos, no_morosos_en, recaudado};
use crate::categoria::Categoria;

verus! {

/// No two members of a well-formed club share a DNI.
pub proof fn ley_dni_unico(c: ClubVista)
    requires
        c.invariante(),
    ensures
        forall|i: int, j: int|
            0 <= i < c.socios.len() && 0 <= j < c.socios.len() && i != j ==> c.socios[i].dni
                != c.socios[j].dni,
{
    assert forall|i: int, j: int|
        0 <= i < c.socios.len() && 0 <= j < c.socios.len() && i != j implies c.socios[i].dni
        != c.socios[j].dni by {
        if i < j {
            assert(c.socios[i].dni != c.socios[j].dni);
        } else {
            assert(c.socios[j].dni != c.socios[i].dni);
        }
    }
}

/// Once a DNI is registered it stays taken, so registering it again is refused.
pub proof fn ley_dni_registrado(
    c: ClubVista,
    nuevo: ClubVista,
    hoy: Fecha,
    dni: u128,
    nombre: String,
    categoria: Categoria,
)
    requires
        c.registro(nuevo, hoy, dni, nombre, categoria),
    ensures
        tiene_dni(nuevo.socios, dni),
{
    assert(nuevo.socios[c.socios.len() as int].dni == dni);
}

/// Every member of a well-formed club has exactly one pending payment.
pub proof fn ley_un_pago_pendiente(c: ClubVista, i: int)
    requires
        c.invariante(),
        0 <= i < c.socios.len(),
    ensures
        exists|k: int| 0 <= k < c.pagos.len() && c.pagos[k].id_socio == i && c.pagos[k].pagado is None,
        forall|k1: int, k2: int|
            0 <= k1 < c.pagos.len() && 0 <= k2 < c.pagos.len() && c.pagos[k1].id_socio == i
                && c.pagos[k1].pagado is None && c.pagos[k2].id_socio == i && c.pagos[k2].pagado
                is None ==> k1 == k2,
{
    lema_ultimo_pago(c.pagos, i);
    let u = ultimo_pago_de(c.pagos, i);
    assert(0 <= u && c.pagos[u].pagado is None);
    assert(c.pagos[u].id_socio == i);
    assert forall|k1: int, k2: int|
        0 <= k1 < c.pagos.len() && 0 <= k2 < c.pagos.len() && c.pagos[k1].id_socio == i
            && c.pagos[k1].pagado is None && c.pagos[k2].id_socio == i && c.pagos[k2].pagado
            is None implies k1 == k2 by {
        assert(ultimo_pago_de(c.pagos, c.pagos[k1].id_socio as int) == k1);
        assert(ultimo_pago_de(c.pagos, c.pagos[k2].id_socio as int) == k2);
    }
}

/// A settled payment is settled once: after the settlement it carries its
/// date, and the member's pending payment is the one just appended.
pub proof fn ley_pago_unico(c: ClubVista, nuevo: ClubVista, i: int, hoy: Fecha)
    requires
        c.invariante(),
        0 <= i < c.socios.len(),
        c.pago(nuevo, i, hoy),
    ensures
        nuevo.pagos[c.pendiente_de(i)].pagado == Some(hoy),
        nuevo.pendiente_de(i) == c.pagos.len(),
        nuevo.pagos[nuevo.pendiente_de(i)].pagado is None,
{
    let j = c.pendiente_de(i);
    lema_ultimo_pago(c.pagos, i);
    assert(nuevo.pagos.drop_last()[j] == nuevo.pagos[j]);
    lema_ultimo_pago(nuevo.pagos, i);
}

/// The next due date is thirty days after the previous one, whatever the day
/// of the settlement.
pub proof fn ley_vencimiento(
    c: ClubVista,
    nuevo1: ClubVista,
    nuevo2: ClubVista,
    i: int,
    hoy1: Fecha,
    hoy2: Fecha,
)
    requires
        c.pago(nuevo1, i, hoy1),
        c.pago(nuevo2, i, hoy2),
    ensures
        nuevo1.pagos.last().vencimiento.numero() == c.pagos[c.pendiente_de(i)].vencimiento.numero()
            + 30,
        nuevo1.pagos.last().vencimiento.numero() == nuevo2.pagos.last().vencimiento.numero(),
{
}

/// No member of a well-formed club is in category B with the gym as its sport.
pub proof fn ley_categorias_validas(c: ClubVista)
    requires
        c.invariante(),
    ensures
        forall|i: int|
            0 <= i < c.socios.len() ==> c.socios[i].categoria != Categoria::CategoriaB(
                Actividad::Gimnasio,
            ),
{
    assert forall|i: int| 0 <= i < c.socios.len() implies c.socios[i].categoria
        != Categoria::CategoriaB(Actividad::Gimnasio) by {
        assert(c.socios[i].categoria.es_valida());
    }
}

/// The reports are functions of the club's state: two reads of one state,
/// with the same arguments, agree.
pub proof fn ley_lecturas_repetibles(
    c1: ClubVista,
    c2: ClubVista,
    hoy: Fecha,
    actividad: Actividad,
    anio: int,
    mes: int,
    indice: int,
    dni: u128,
)
    requires
        c1 == c2,
    ensures
        morosos(c1.socios, c1.pagos, hoy) == morosos(c2.socios, c2.pagos, hoy),
        no_morosos_en(c1.socios, c1.pagos, hoy, actividad) == no_morosos_en(
            c2.socios,
            c2.pagos,
            hoy,
            actividad,
        ),
        recaudado(c1.socios, c1.pagos, anio, mes, indice) == recaudado(
            c2.socios,
            c2.pagos,
            anio,
            mes,
            indice,
        ),
        tiene_dni(c1.socios, dni) == tiene_dni(c2.socios, dni),
{
}

} // verus!
