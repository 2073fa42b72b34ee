//! The club aggregate: access policy, price and bonus policy, member registry
//! and payment ledger.

use vstd::prelude::*;
use crate::categoria::Categoria;
use crate::cuenta::{lema_cuenta_por_bytes, AccountId};
use crate::error::ErrorClub;
use crate::fecha::{dia_limite, numero_de_dia, Fecha};
use crate::pago::Pago;
use crate::socio::{copiar_socios, Socio};

verus! {

/// The abstract state of a club.
pub struct ClubVista {
    pub nombre: Seq<char>,
    pub pagos: Seq<Pago>,
    pub socios: Seq<Socio>,
    pub precios: Seq<u128>,
    pub cantidad_pagos_bonificacion: u16,
    pub porcentaje_bonificacion: u8,
    pub politica_autorizacion: bool,
    pub duenio: AccountId,
    pub autorizados: Seq<AccountId>,
}

/// Index of the last payment of member `id`, or -1 when it has none.
pub open spec fn ultimo_pago_de(pagos: Seq<Pago>, id: int) -> int
    decreases pagos.len(),
{
    if pagos.len() == 0 {
        -1
    } else if pagos.last().id_socio == id {
        pagos.len() - 1
    } else {
        ultimo_pago_de(pagos.drop_last(), id)
    }
}

pub open spec fn tiene_dni(socios: Seq<Socio>, dni: u128) -> bool {
    exists|i: int| 0 <= i < socios.len() && socios[i].dni == dni
}

/// The index of the member with the given DNI.
pub open spec fn indice_de_dni(socios: Seq<Socio>, dni: u128) -> int {
    choose|i: int| 0 <= i < socios.len() && socios[i].dni == dni
}

/// `p` with its settlement date set.
pub open spec fn saldado(p: Pago, hoy: Fecha) -> Pago {
    Pago { pagado: Some(hoy), ..p }
}

/// `s` with its run of on-time payments set to `n`.
pub open spec fn con_contador(s: Socio, n: u16) -> Socio {
    Socio { pagos_a_tiempo_consecutivos: n, ..s }
}

impl ClubVista {
    /// Open mode, the owner, or an account of the authorized list.
    pub open spec fn autorizado(self, quien: AccountId) -> bool {
        !self.politica_autorizacion || quien == self.duenio || self.autorizados.contains(quien)
    }

    /// Open mode or the owner: what changing the owner or the authorized list asks for.
    pub open spec fn administra(self, quien: AccountId) -> bool {
        !self.politica_autorizacion || quien == self.duenio
    }

    pub open spec fn precio(self, categoria: Categoria) -> u128 {
        self.precios[categoria.indice()]
    }

    /// Index of the pending payment of member `i`.
    pub open spec fn pendiente_de(self, i: int) -> int {
        ultimo_pago_de(self.pagos, i)
    }

    /// Every member has exactly one pending payment: the last one that names it.
    pub open spec fn pendientes_correctos(self) -> bool {
        &&& forall|i: int|
            0 <= i < self.socios.len() ==> 0 <= #[trigger] ultimo_pago_de(self.pagos, i) && self.pagos[ultimo_pago_de(self.pagos, i)].pagado is None
        &&& forall|k: int|
            0 <= k < self.pagos.len() && (#[trigger] self.pagos[k]).pagado is None ==> ultimo_pago_de(
                self.pagos,
                self.pagos[k].id_socio as int,
            ) == k
    }

    pub open spec fn invariante(self) -> bool {
        &&& self.precios.len() == 3
        &&& 1 <= self.cantidad_pagos_bonificacion
        &&& 1 <= self.porcentaje_bonificacion <= 99
        &&& self.autorizados.no_duplicates()
        &&& forall|i: int, j: int|
            0 <= i < j < self.socios.len() ==> (#[trigger] self.socios[i]).dni != (#[trigger] self.socios[j]).dni
        &&& forall|i: int|
            0 <= i < self.socios.len() ==> (#[trigger] self.socios[i]).categoria.es_valida()
                && self.socios[i].pagos_a_tiempo_consecutivos < u16::MAX
        &&& forall|k: int|
            0 <= k < self.pagos.len() ==> (#[trigger] self.pagos[k]).id_socio < self.socios.len()
        &&& self.pendientes_correctos()
    }

    /// Name, prices, bonus parameters and access policy are those of `otro`.
    pub open spec fn misma_configuracion(self, otro: ClubVista) -> bool {
        &&& self.nombre == otro.nombre
        &&& self.precios == otro.precios
        &&& self.cantidad_pagos_bonificacion == otro.cantidad_pagos_bonificacion
        &&& self.porcentaje_bonificacion == otro.porcentaje_bonificacion
        &&& self.politica_autorizacion == otro.politica_autorizacion
        &&& self.duenio == otro.duenio
        &&& self.autorizados == otro.autorizados
    }

    /// `nuevo` is this club after registering the member, with the first
    /// payment due ten days after `hoy`.
    pub open spec fn registro(
        self,
        nuevo: ClubVista,
        hoy: Fecha,
        dni: u128,
        nombre: String,
        categoria: Categoria,
    ) -> bool {
        let p = nuevo.pagos.last();
        &&& nuevo.misma_configuracion(self)
        &&& nuevo.socios == self.socios.push(
            Socio { dni, nombre, categoria, pagos_a_tiempo_consecutivos: 0 },
        )
        &&& nuevo.pagos.len() == self.pagos.len() + 1
        &&& nuevo.pagos.drop_last() == self.pagos
        &&& p.id_socio == self.socios.len()
        &&& p.monto == self.precio(categoria)
        &&& p.vencimiento.numero() == hoy.numero() + 10
        &&& p.pagado is None
        &&& !p.es_descuento
    }

    /// The run of on-time payments of member `i` once its pending payment is
    /// settled on `hoy`.
    pub open spec fn contador_tras_pago(self, i: int, hoy: Fecha) -> int {
        let p = self.pagos[self.pendiente_de(i)];
        let c = self.socios[i].pagos_a_tiempo_consecutivos as int;
        if p.a_tiempo(hoy) && !p.es_descuento {
            c + 1
        } else {
            c
        }
    }

    /// Settling on `hoy` earns member `i` the discount on its next payment.
    pub open spec fn gana_bonificacion(self, i: int, hoy: Fecha) -> bool {
        self.contador_tras_pago(i, hoy) >= self.cantidad_pagos_bonificacion
    }

    /// The price of member `i`'s category, discounted when `bonificado`.
    pub open spec fn monto_siguiente(self, i: int, bonificado: bool) -> int {
        let precio = self.precio(self.socios[i].categoria) as int;
        if bonificado {
            precio * (100 - self.porcentaje_bonificacion) / 100
        } else {
            precio
        }
    }

    /// The next payment of member `i` cannot be represented: its due date or
    /// the discount's product would not fit.
    pub open spec fn desborda_siguiente(self, i: int, hoy: Fecha) -> bool {
        let p = self.pagos[self.pendiente_de(i)];
        let precio = self.precio(self.socios[i].categoria) as int;
        ||| p.vencimiento.numero() + 30 >= dia_limite()
        ||| (self.gana_bonificacion(i, hoy) && precio * (100 - self.porcentaje_bonificacion)
            > u128::MAX)
    }

    /// `nuevo` is this club after member `i` settled its pending payment on
    /// `hoy`: that payment is marked settled and the next one appended, due
    /// thirty days after the previous due date.
    pub open spec fn pago(self, nuevo: ClubVista, i: int, hoy: Fecha) -> bool {
        let j = self.pendiente_de(i);
        let viejo = self.pagos[j];
        let p = nuevo.pagos.last();
        let bonificado = self.gana_bonificacion(i, hoy);
        let contador = if bonificado {
            0
        } else {
            self.contador_tras_pago(i, hoy)
        };
        &&& nuevo.misma_configuracion(self)
        &&& nuevo.socios == self.socios.update(i, con_contador(self.socios[i], contador as u16))
        &&& nuevo.pagos.len() == self.pagos.len() + 1
        &&& nuevo.pagos.drop_last() == self.pagos.update(j, saldado(viejo, hoy))
        &&& p.id_socio == i
        &&& p.monto == self.monto_siguiente(i, bonificado)
        &&& p.vencimiento.numero() == viejo.vencimiento.numero() + 30
        &&& p.pagado is None
        &&& p.es_descuento == bonificado
    }
}

pub proof fn lema_ultimo_pago(pagos: Seq<Pago>, id: int)
    ensures
        -1 <= ultimo_pago_de(pagos, id) < pagos.len(),
        ultimo_pago_de(pagos, id) >= 0 ==> pagos[ultimo_pago_de(pagos, id)].id_socio == id,
        forall|k: int| ultimo_pago_de(pagos, id) < k < pagos.len() ==> (#[trigger] pagos[k]).id_socio != id,
    decreases pagos.len(),
{
    if pagos.len() > 0 && pagos.last().id_socio != id {
        let previos = pagos.drop_last();
        lema_ultimo_pago(previos, id);
        assert forall|k: int| ultimo_pago_de(pagos, id) < k < pagos.len() implies (
        #[trigger] pagos[k]).id_socio != id by {
            if k < pagos.len() - 1 {
                assert(pagos[k] == previos[k]);
            }
        }
    }
}

proof fn lema_ultimo_tras_agregar(pagos: Seq<Pago>, p: Pago, id: int)
    ensures
        ultimo_pago_de(pagos.push(p), id) == if p.id_socio == id {
            pagos.len() as int
        } else {
            ultimo_pago_de(pagos, id)
        },
{
    assert(pagos.push(p).drop_last() =~= pagos);
}

proof fn lema_ultimo_tras_cambiar(pagos: Seq<Pago>, j: int, p: Pago, id: int)
    requires
        0 <= j < pagos.len(),
        p.id_socio == pagos[j].id_socio,
    ensures
        ultimo_pago_de(pagos.update(j, p), id) == ultimo_pago_de(pagos, id),
    decreases pagos.len(),
{
    if j < pagos.len() - 1 {
        assert(pagos.update(j, p).drop_last() =~= pagos.drop_last().update(j, p));
        lema_ultimo_tras_cambiar(pagos.drop_last(), j, p, id);
    } else {
        assert(pagos.update(j, p).drop_last() =~= pagos.drop_last());
    }
}

/// The club: its members, their payments, prices, bonus parameters and
/// access policy.
#[derive(Clone, Debug)]
pub struct Club {
    nombre: String,
    pagos: Vec<Pago>,
    socios: Vec<Socio>,
    precios: [u128; 3],
    cantidad_pagos_bonificacion: u16,
    porcentaje_bonificacion: u8,
    politica_autorizacion: bool,
    duenio: AccountId,
    autorizados: Vec<AccountId>,
}

impl View for Club {
    type V = ClubVista;

    closed spec fn view(&self) -> ClubVista {
        ClubVista {
            nombre: self.nombre@,
            pagos: self.pagos@,
            socios: self.socios@,
            precios: self.precios@,
            cantidad_pagos_bonificacion: self.cantidad_pagos_bonificacion,
            porcentaje_bonificacion: self.porcentaje_bonificacion,
            politica_autorizacion: self.politica_autorizacion,
            duenio: self.duenio,
            autorizados: self.autorizados@,
        }
    }
}

/// Position of `quien` in `cuentas`.
fn posicion_cuenta(cuentas: &Vec<AccountId>, quien: AccountId) -> (r: Option<usize>)
    ensures
        r is None <==> !cuentas@.contains(quien),
        r matches Some(i) ==> i < cuentas@.len() && cuentas@[i as int] == quien,
{
    let mut i: usize = 0;
    while i < cuentas.len()
        invariant
            0 <= i <= cuentas@.len(),
            forall|k: int| 0 <= k < i ==> cuentas@[k] != quien,
        decreases cuentas.len() - i,
    {
        proof {
            lema_cuenta_por_bytes(cuentas@[i as int], quien);
        }
        if cuentas[i] == quien {
            return Some(i);
        }
        i = i + 1;
    }
    None
}

impl Club {
    /// The club's invariant.
    pub open spec fn wf(&self) -> bool {
        self@.invariante()
    }

    /// A club with no members, owned by `duenio`, with the policy enabled and
    /// the default prices and bonus parameters.
    pub fn new(duenio: AccountId) -> (r: Club)
        ensures
            r.wf(),
            r@.nombre == "Seminario Rust"@,
            r@.pagos.len() == 0,
            r@.socios.len() == 0,
            r@.precios == seq![5000u128, 3000u128, 2000u128],
            r@.cantidad_pagos_bonificacion == 5,
            r@.porcentaje_bonificacion == 10,
            r@.politica_autorizacion,
            r@.duenio == duenio,
            r@.autorizados.len() == 0,
    {
        let r = Club {
            nombre: String::from_str("Seminario Rust"),
            pagos: Vec::new(),
            socios: Vec::new(),
            precios: [5000, 3000, 2000],
            cantidad_pagos_bonificacion: 5,
            porcentaje_bonificacion: 10,
            politica_autorizacion: true,
            duenio,
            autorizados: Vec::new(),
        };
        assert(r@.precios =~= seq![5000u128, 3000u128, 2000u128]);
        r
    }

    /// True exactly when `quien` is the owner.
    pub fn soy_el_dueno(&self, quien: AccountId) -> (r: bool)
        ensures
            r == (quien == self@.duenio),
    {
        proof {
            lema_cuenta_por_bytes(self.duenio, quien);
        }
        self.duenio == quien
    }

    /// True when the policy is disabled, or `quien` is the owner or an
    /// authorized account.
    pub fn estoy_autorizado(&self, quien: AccountId) -> (r: bool)
        ensures
            r == self@.autorizado(quien),
    {
        !self.politica_autorizacion || self.soy_el_dueno(quien) || posicion_cuenta(
            &self.autorizados,
            quien,
        ).is_some()
    }

    /// The index of the member with the given DNI, if there is one.
    pub fn buscar_socio(&self, dni: u128) -> (r: Option<usize>)
        requires
            self.wf(),
        ensures
            r is None <==> !tiene_dni(self@.socios, dni),
            r matches Some(i) ==> i == indice_de_dni(self@.socios, dni) && i < self@.socios.len()
                && self@.socios[i as int].dni == dni,
    {
        let mut i: usize = 0;
        while i < self.socios.len()
            invariant
                0 <= i <= self@.socios.len(),
                self.wf(),
                forall|k: int| 0 <= k < i ==> self@.socios[k].dni != dni,
            decreases self.socios.len() - i,
        {
            if self.socios[i].dni == dni {
                proof {
                    let c = indice_de_dni(self@.socios, dni);
                    assert(self@.socios[i as int].dni == dni);
                    if c != i {
                        if c < i {
                            assert(self@.socios[c].dni != self@.socios[i as int].dni);
                        } else {
                            assert(self@.socios[i as int].dni != self@.socios[c].dni);
                        }
                    }
                }
                return Some(i);
            }
            i = i + 1;
        }
        None
    }

    /// The index of the pending payment of member `id_socio`.
    fn buscar_ultimo_pago(&self, id_socio: usize) -> (r: usize)
        requires
            self.wf(),
            id_socio < self@.socios.len(),
        ensures
            r == self@.pendiente_de(id_socio as int),
            r < self@.pagos.len(),
    {
        proof {
            lema_ultimo_pago(self@.pagos, id_socio as int);
        }
        let mut k: usize = self.pagos.len();
        while k > 0
            invariant
                k <= self@.pagos.len(),
                self.wf(),
                id_socio < self@.socios.len(),
                -1 <= ultimo_pago_de(self@.pagos, id_socio as int) < k,
                ultimo_pago_de(self@.pagos, id_socio as int) >= 0 ==> self@.pagos[ultimo_pago_de(
                    self@.pagos,
                    id_socio as int,
                )].id_socio == id_socio,
                forall|m: int|
                    ultimo_pago_de(self@.pagos, id_socio as int) < m < self@.pagos.len() ==> (
                    #[trigger] self@.pagos[m]).id_socio != id_socio,
            decreases k,
        {
            k = k - 1;
            if self.pagos[k].id_socio == id_socio as u64 {
                return k;
            }
        }
        proof {
            assert(false);
        }
        0
    }

    /// Enables or disables the authorization policy; only the owner may.
    pub fn set_politica_autorizacion(&mut self, quien: AccountId, usar_la_politica: bool) -> (r:
        Result<(), ErrorClub>)
        requires
            old(self).wf(),
        ensures
            final(self).wf(),
            r is Ok <==> quien == old(self)@.duenio,
            r is Err ==> r == Err::<(), ErrorClub>(ErrorClub::NoAutorizado) && final(self)@ == old(
                self,
            )@,
            r is Ok ==> final(self)@ == (ClubVista {
                politica_autorizacion: usar_la_politica,
                ..old(self)@
            }),
    {
        if !self.soy_el_dueno(quien) {
            return Err(ErrorClub::NoAutorizado);
        }
        self.politica_autorizacion = usar_la_politica;
        Ok(())
    }

    /// Hands the club over to `nuevo_duenio`.
    pub fn cambiar_dueno(&mut self, quien: AccountId, nuevo_duenio: AccountId) -> (r: Result<
        (),
        ErrorClub,
    >)
        requires
            old(self).wf(),
        ensures
            final(self).wf(),
            r is Ok <==> old(self)@.administra(quien),
            r is Err ==> r == Err::<(), ErrorClub>(ErrorClub::NoAutorizado) && final(self)@ == old(
                self,
            )@,
            r is Ok ==> final(self)@ == (ClubVista { duenio: nuevo_duenio, ..old(self)@ }),
    {
        if self.politica_autorizacion && !self.soy_el_dueno(quien) {
            return Err(ErrorClub::NoAutorizado);
        }
        self.duenio = nuevo_duenio;
        Ok(())
    }

    pub fn get_dueno(&self) -> (r: AccountId)
        ensures
            r == self@.duenio,
    {
        self.duenio
    }

    /// Adds `cuenta` to the authorized list.
    pub fn agregar_autorizado(&mut self, quien: AccountId, cuenta: AccountId) -> (r: Result<
        (),
        ErrorClub,
    >)
        requires
            old(self).wf(),
        ensures
            final(self).wf(),
            r is Ok <==> old(self)@.administra(quien) && !old(self)@.autorizados.contains(cuenta),
            r == Err::<(), ErrorClub>(ErrorClub::NoAutorizado) <==> !old(self)@.administra(quien),
            r == Err::<(), ErrorClub>(ErrorClub::YaAutorizado) <==> old(self)@.administra(quien)
                && old(self)@.autorizados.contains(cuenta),
            r is Err ==> final(self)@ == old(self)@,
            r is Ok ==> final(self)@ == (ClubVista {
                autorizados: old(self)@.autorizados.push(cuenta),
                ..old(self)@
            }),
    {
        if self.politica_autorizacion && !self.soy_el_dueno(quien) {
            return Err(ErrorClub::NoAutorizado);
        }
        if posicion_cuenta(&self.autorizados, cuenta).is_some() {
            return Err(ErrorClub::YaAutorizado);
        }
        let ghost v = self@;
        self.autorizados.push(cuenta);
        proof {
            assert forall|a: int, b: int|
                0 <= a < self@.autorizados.len() && 0 <= b < self@.autorizados.len() && a
                    != b implies self@.autorizados[a] != self@.autorizados[b] by {
                if a == v.autorizados.len() {
                    assert(!v.autorizados.contains(v.autorizados[b]) || v.autorizados[b] != cuenta);
                } else if b == v.autorizados.len() {
                    assert(v.autorizados[a] != cuenta);
                }
            }
        }
        Ok(())
    }

    /// Removes `cuenta` from the authorized list; the last entry takes its place.
    pub fn quitar_autorizado(&mut self, quien: AccountId, cuenta: AccountId) -> (r: Result<
        (),
        ErrorClub,
    >)
        requires
            old(self).wf(),
        ensures
            final(self).wf(),
            r is Ok <==> old(self)@.administra(quien) && old(self)@.autorizados.contains(cuenta),
            r == Err::<(), ErrorClub>(ErrorClub::NoAutorizado) <==> !old(self)@.administra(quien),
            r == Err::<(), ErrorClub>(ErrorClub::AutorizadoInexistente) <==> old(self)@.administra(
                quien,
            ) && !old(self)@.autorizados.contains(cuenta),
            r is Err ==> final(self)@ == old(self)@,
            r is Ok ==> exists|i: int|
                0 <= i < old(self)@.autorizados.len() && old(self)@.autorizados[i] == cuenta
                    && final(self)@ == (ClubVista {
                    autorizados: old(self)@.autorizados.update(
                        i,
                        old(self)@.autorizados.last(),
                    ).drop_last(),
                    ..old(self)@
                }),
            r is Ok ==> !final(self)@.autorizados.contains(cuenta),
    {
        if self.politica_autorizacion && !self.soy_el_dueno(quien) {
            return Err(ErrorClub::NoAutorizado);
        }
        let i = match posicion_cuenta(&self.autorizados, cuenta) {
            Some(i) => i,
            None => {
                return Err(ErrorClub::AutorizadoInexistente);
            },
        };
        let ghost v = self@;
        self.autorizados.swap_remove(i);
        proof {
            let w = v.autorizados;
            let n = w.len() - 1;
            assert(self@.autorizados =~= w.update(i as int, w.last()).drop_last());
            assert forall|a: int, b: int|
                0 <= a < self@.autorizados.len() && 0 <= b < self@.autorizados.len() && a
                    != b implies self@.autorizados[a] != self@.autorizados[b] by {
                let a2 = if a == i { n } else { a };
                let b2 = if b == i { n } else { b };
                assert(self@.autorizados[a] == w[a2]);
                assert(self@.autorizados[b] == w[b2]);
            }
            if self@.autorizados.contains(cuenta) {
                let a = self@.autorizados.index_of(cuenta);
                let a2 = if a == i { n } else { a as int };
                assert(self@.autorizados[a] == w[a2]);
            }
            assert(self@ == (ClubVista {
                autorizados: w.update(i as int, w.last()).drop_last(),
                ..v
            }));
        }
        Ok(())
    }

    pub fn get_autorizados(&self) -> (r: Vec<AccountId>)
        ensures
            r@ == self@.autorizados,
    {
        let mut r: Vec<AccountId> = Vec::new();
        let mut i: usize = 0;
        while i < self.autorizados.len()
            invariant
                0 <= i <= self@.autorizados.len(),
                r@ == self@.autorizados.subrange(0, i as int),
            decreases self.autorizados.len() - i,
        {
            r.push(self.autorizados[i]);
            i = i + 1;
            assert(r@ =~= self@.autorizados.subrange(0, i as int));
        }
        assert(r@ =~= self@.autorizados);
        r
    }

    pub fn cambiar_nombre(&mut self, quien: AccountId, nuevo_nombre: String) -> (r: Result<
        (),
        ErrorClub,
    >)
        requires
            old(self).wf(),
        ensures
            final(self).wf(),
            r is Ok <==> old(self)@.autorizado(quien),
            r is Err ==> r == Err::<(), ErrorClub>(ErrorClub::NoAutorizado) && final(self)@ == old(
                self,
            )@,
            r is Ok ==> final(self)@ == (ClubVista { nombre: nuevo_nombre@, ..old(self)@ }),
    {
        if !self.estoy_autorizado(quien) {
            return Err(ErrorClub::NoAutorizado);
        }
        self.nombre = nuevo_nombre;
        Ok(())
    }

    pub fn get_nombre(&self) -> (r: String)
        ensures
            r@ == self@.nombre,
    {
        self.nombre.clone()
    }

    /// Sets the price of `categoria`; it applies to payments generated from now on.
    pub fn set_precio(&mut self, quien: AccountId, categoria: Categoria, nuevo_valor: u128) -> (r:
        Result<(), ErrorClub>)
        requires
            old(self).wf(),
        ensures
            final(self).wf(),
            r is Ok <==> old(self)@.autorizado(quien),
            r is Err ==> r == Err::<(), ErrorClub>(ErrorClub::NoAutorizado) && final(self)@ == old(
                self,
            )@,
            r is Ok ==> final(self)@ == (ClubVista {
                precios: old(self)@.precios.update(categoria.indice(), nuevo_valor),
                ..old(self)@
            }),
    {
        if !self.estoy_autorizado(quien) {
            return Err(ErrorClub::NoAutorizado);
        }
        let ghost v = self@;
        self.precios[categoria.num()] = nuevo_valor;
        assert(self@.precios =~= v.precios.update(categoria.indice(), nuevo_valor));
        Ok(())
    }

    pub fn get_precio(&self, categoria: Categoria) -> (r: u128)
        ensures
            r == self@.precio(categoria),
    {
        self.precios[categoria.num()]
    }

    /// Sets how many on-time payments in a row earn the discount; it must be positive.
    pub fn set_cantidad_pagos_bonificacion(&mut self, quien: AccountId, nuevo_valor: u16) -> (r:
        Result<(), ErrorClub>)
        requires
            old(self).wf(),
        ensures
            final(self).wf(),
            r is Ok <==> old(self)@.autorizado(quien) && nuevo_valor > 0,
            r == Err::<(), ErrorClub>(ErrorClub::NoAutorizado) <==> !old(self)@.autorizado(quien),
            r == Err::<(), ErrorClub>(ErrorClub::FueraDeRango) <==> old(self)@.autorizado(quien)
                && nuevo_valor == 0,
            r is Err ==> final(self)@ == old(self)@,
            r is Ok ==> final(self)@ == (ClubVista {
                cantidad_pagos_bonificacion: nuevo_valor,
                ..old(self)@
            }),
    {
        if !self.estoy_autorizado(quien) {
            return Err(ErrorClub::NoAutorizado);
        }
        if nuevo_valor == 0 {
            return Err(ErrorClub::FueraDeRango);
        }
        self.cantidad_pagos_bonificacion = nuevo_valor;
        Ok(())
    }

    pub fn get_cantidad_pagos_bonificacion(&self) -> (r: u16)
        ensures
            r == self@.cantidad_pagos_bonificacion,
    {
        self.cantidad_pagos_bonificacion
    }

    /// Sets the discount percentage; it must lie strictly between 0 and 100.
    pub fn set_porcentaje_bonificacion_pagos_consecutivos(
        &mut self,
        quien: AccountId,
        nuevo_valor: u8,
    ) -> (r: Result<(), ErrorClub>)
        requires
            old(self).wf(),
        ensures
            final(self).wf(),
            r is Ok <==> old(self)@.autorizado(quien) && 0 < nuevo_valor < 100,
            r == Err::<(), ErrorClub>(ErrorClub::NoAutorizado) <==> !old(self)@.autorizado(quien),
            r == Err::<(), ErrorClub>(ErrorClub::FueraDeRango) <==> old(self)@.autorizado(quien)
                && !(0 < nuevo_valor < 100),
            r is Err ==> final(self)@ == old(self)@,
            r is Ok ==> final(self)@ == (ClubVista {
                porcentaje_bonificacion: nuevo_valor,
                ..old(self)@
            }),
    {
        if !self.estoy_autorizado(quien) {
            return Err(ErrorClub::NoAutorizado);
        }
        if nuevo_valor == 0 || nuevo_valor >= 100 {
            return Err(ErrorClub::FueraDeRango);
        }
        self.porcentaje_bonificacion = nuevo_valor;
        Ok(())
    }

    pub fn get_porcentaje_bonificacion_pagos_consecutivos(&self) -> (r: u8)
        ensures
            r == self@.porcentaje_bonificacion,
    {
        self.porcentaje_bonificacion
    }

    /// Every registered member, in order of registration.
    pub fn get_socios(&self) -> (r: Vec<Socio>)
        ensures
            r@ == self@.socios,
    {
        copiar_socios(&self.socios)
    }

    /// Every payment, or only those of the member with the given DNI.
    pub fn get_pagos(&self, socio: Option<u128>) -> (r: Result<Vec<Pago>, ErrorClub>)
        requires
            self.wf(),
        ensures
            match socio {
                None => r matches Ok(v) && v@ == self@.pagos,
                Some(dni) => {
                    &&& r is Err <==> !tiene_dni(self@.socios, dni)
                    &&& r is Err ==> r == Err::<Vec<Pago>, ErrorClub>(ErrorClub::SocioInexistente)
                    &&& r matches Ok(v) ==> v@ == self@.pagos.filter(
                        |p: Pago| p.id_socio == indice_de_dni(self@.socios, dni),
                    )
                },
            },
    {
        let id: Option<u64> = match socio {
            None => None,
            Some(dni) => match self.buscar_socio(dni) {
                Some(i) => Some(i as u64),
                None => {
                    return Err(ErrorClub::SocioInexistente);
                },
            },
        };
        let mut r: Vec<Pago> = Vec::new();
        let mut k: usize = 0;
        while k < self.pagos.len()
            invariant
                0 <= k <= self@.pagos.len(),
                id matches Some(x) ==> r@ == self@.pagos.subrange(0, k as int).filter(
                    |p: Pago| p.id_socio == x,
                ),
                id is None ==> r@ == self@.pagos.subrange(0, k as int),
            decreases self.pagos.len() - k,
        {
            let p = self.pagos[k];
            let ghost previos = self@.pagos.subrange(0, k as int);
            match id {
                Some(x) => {
                    if p.id_socio == x {
                        r.push(p);
                    }
                },
                None => {
                    r.push(p);
                },
            }
            k = k + 1;
            proof {
                let hasta = self@.pagos.subrange(0, k as int);
                assert(hasta.drop_last() =~= previos);
                assert(hasta.last() == p);
                reveal(Seq::filter);
                if id is None {
                    assert(r@ =~= hasta);
                }
            }
        }
        assert(self@.pagos.subrange(0, self@.pagos.len() as int) =~= self@.pagos);
        Ok(r)
    }

    /// The member with the given index, if there is one.
    pub fn get_socio(&self, id: u64) -> (r: Option<Socio>)
        ensures
            r == if id < self@.socios.len() {
                Some(self@.socios[id as int])
            } else {
                None::<Socio>
            },
    {
        if id < self.socios.len() as u64 {
            Some(self.socios[id as usize].clone())
        } else {
            None
        }
    }

    /// The date of the day that `milisegundos_desde_epoch` milliseconds after
    /// the start of 1 January 1970 falls in.
    pub fn obtener_fecha_actual(milisegundos_desde_epoch: u64) -> (r: Fecha)
        ensures
            r.numero() == numero_de_dia(1970, 1, 1) + milisegundos_desde_epoch / 86_400_000,
    {
        Fecha::desde_milisegundos(milisegundos_desde_epoch)
    }

    /// The members, for the queries that read them in place.
    pub(crate) fn ver_socios(&self) -> (r: &Vec<Socio>)
        ensures
            r@ == self@.socios,
    {
        &self.socios
    }

    /// The payments, for the queries that read them in place.
    pub(crate) fn ver_pagos(&self) -> (r: &Vec<Pago>)
        ensures
            r@ == self@.pagos,
    {
        &self.pagos
    }

    /// Registers a member and appends its first pending payment, due ten
    /// days after `hoy` at the current price of its category.
    pub fn registrar_nuevo_socio(
        &mut self,
        quien: AccountId,
        hoy: Fecha,
        dni: u128,
        nombre: String,
        categoria: Categoria,
    ) -> (r: Result<(), ErrorClub>)
        requires
            old(self).wf(),
        ensures
            final(self).wf(),
            ({
                let v = old(self)@;
                &&& r is Ok <==> (v.autorizado(quien) && !tiene_dni(v.socios, dni)
                    && categoria.es_valida() && hoy.numero() + 10 < dia_limite())
                &&& r == Err::<(), ErrorClub>(ErrorClub::NoAutorizado) <==> !v.autorizado(quien)
                &&& r == Err::<(), ErrorClub>(ErrorClub::SocioRepetido) <==> (v.autorizado(quien)
                    && tiene_dni(v.socios, dni))
                &&& r == Err::<(), ErrorClub>(ErrorClub::CategoriaInvalida) <==> (v.autorizado(quien)
                    && !tiene_dni(v.socios, dni) && !categoria.es_valida())
                &&& r == Err::<(), ErrorClub>(ErrorClub::Desbordamiento) <==> (v.autorizado(quien)
                    && !tiene_dni(v.socios, dni) && categoria.es_valida() && hoy.numero() + 10
                    >= dia_limite())
                &&& r is Err ==> final(self)@ == v
                &&& r is Ok ==> v.registro(final(self)@, hoy, dni, nombre, categoria)
            }),
    {
        if !self.estoy_autorizado(quien) {
            return Err(ErrorClub::NoAutorizado);
        }
        if self.buscar_socio(dni).is_some() {
            return Err(ErrorClub::SocioRepetido);
        }
        match categoria.assert_valida() {
            Err(e) => {
                return Err(e);
            },
            Ok(()) => {},
        }
        let vencimiento = match hoy.sumar_dias(10) {
            Some(f) => f,
            None => {
                return Err(ErrorClub::Desbordamiento);
            },
        };
        let ghost v = self@;
        let monto = self.precios[categoria.num()];
        let pago = Pago {
            id_socio: self.socios.len() as u64,
            monto,
            vencimiento,
            pagado: None,
            es_descuento: false,
        };
        self.pagos.push(pago);
        self.socios.push(Socio { dni, nombre, categoria, pagos_a_tiempo_consecutivos: 0 });
        proof {
            assert(self@.pagos.drop_last() =~= v.pagos);
            lema_registro_preserva(v, self@, hoy, dni, nombre, categoria);
        }
        Ok(())
    }

    /// Settles the pending payment of the member with the given DNI, which
    /// must be for exactly `monto`, and appends the member's next payment.
    pub fn realizar_pago(&mut self, quien: AccountId, hoy: Fecha, dni: u128, monto: u128) -> (r:
        Result<(), ErrorClub>)
        requires
            old(self).wf(),
        ensures
            final(self).wf(),
            ({
                let v = old(self)@;
                let i = indice_de_dni(v.socios, dni);
                let debido = v.pagos[v.pendiente_de(i)].monto;
                &&& r is Ok <==> (v.autorizado(quien) && tiene_dni(v.socios, dni) && monto == debido
                    && !v.desborda_siguiente(i, hoy))
                &&& r == Err::<(), ErrorClub>(ErrorClub::NoAutorizado) <==> !v.autorizado(quien)
                &&& r == Err::<(), ErrorClub>(ErrorClub::SocioInexistente) <==> (v.autorizado(quien)
                    && !tiene_dni(v.socios, dni))
                &&& r == Err::<(), ErrorClub>(ErrorClub::MontoIncorrecto) <==> (v.autorizado(quien)
                    && tiene_dni(v.socios, dni) && monto != debido)
                &&& r == Err::<(), ErrorClub>(ErrorClub::Desbordamiento) <==> (v.autorizado(quien)
                    && tiene_dni(v.socios, dni) && monto == debido && v.desborda_siguiente(i, hoy))
                &&& r is Err ==> final(self)@ == v
                &&& r is Ok ==> v.pago(final(self)@, i, hoy)
            }),
    {
        if !self.estoy_autorizado(quien) {
            return Err(ErrorClub::NoAutorizado);
        }
        let i = match self.buscar_socio(dni) {
            Some(i) => i,
            None => {
                return Err(ErrorClub::SocioInexistente);
            },
        };
        let j = self.buscar_ultimo_pago(i);
        let pendiente = self.pagos[j];
        if pendiente.monto != monto {
            return Err(ErrorClub::MontoIncorrecto);
        }
        let vencimiento = match pendiente.vencimiento.sumar_dias(30) {
            Some(f) => f,
            None => {
                return Err(ErrorClub::Desbordamiento);
            },
        };
        let contador_actual = self.socios[i].pagos_a_tiempo_consecutivos;
        let contador: u16 = if !hoy.es_mayor(&pendiente.vencimiento) && !pendiente.es_descuento {
            contador_actual + 1
        } else {
            contador_actual
        };
        let categoria = self.socios[i].categoria;
        let precio = self.precios[categoria.num()];
        let bonificado = contador >= self.cantidad_pagos_bonificacion;
        let monto_nuevo: u128 = if bonificado {
            match precio.checked_mul((100 - self.porcentaje_bonificacion) as u128) {
                Some(x) => x / 100,
                None => {
                    return Err(ErrorClub::Desbordamiento);
                },
            }
        } else {
            precio
        };
        let ghost v = self@;
        self.pagos.set(j, Pago { pagado: Some(hoy), ..pendiente });
        self.pagos.push(
            Pago {
                id_socio: i as u64,
                monto: monto_nuevo,
                vencimiento,
                pagado: None,
                es_descuento: bonificado,
            },
        );
        let nuevo_contador: u16 = if bonificado {
            0
        } else {
            contador
        };
        self.socios[i].pagos_a_tiempo_consecutivos = nuevo_contador;
        proof {
            assert(self@.pagos.drop_last() =~= v.pagos.update(j as int, saldado(pendiente, hoy)));
            assert(self@.socios =~= v.socios.update(i as int, con_contador(v.socios[i as int], nuevo_contador)));
            lema_pago_preserva(v, self@, i as int, hoy);
        }
        Ok(())
    }
}

/// Registering a member with a fresh DNI and a valid category keeps the
/// club's invariant.
pub proof fn lema_registro_preserva(
    v: ClubVista,
    nuevo: ClubVista,
    hoy: Fecha,
    dni: u128,
    nombre: String,
    categoria: Categoria,
)
    requires
        v.invariante(),
        v.registro(nuevo, hoy, dni, nombre, categoria),
        !tiene_dni(v.socios, dni),
        categoria.es_valida(),
    ensures
        nuevo.invariante(),
{
    let n = v.socios.len() as int;
    let p = nuevo.pagos.last();
    assert(nuevo.pagos =~= v.pagos.push(p));
    assert forall|x: int| #![all_triggers] true implies ultimo_pago_de(nuevo.pagos, x) == if x == n {
        v.pagos.len() as int
    } else {
        ultimo_pago_de(v.pagos, x)
    } by {
        lema_ultimo_tras_agregar(v.pagos, p, x);
    }
    assert forall|i: int, j: int|
        0 <= i < j < nuevo.socios.len() implies (#[trigger] nuevo.socios[i]).dni != (
    #[trigger] nuevo.socios[j]).dni by {
        if j == n {
            assert(v.socios[i].dni != dni);
        } else {
            assert(v.socios[i] == nuevo.socios[i] && v.socios[j] == nuevo.socios[j]);
        }
    }
    assert forall|i: int| 0 <= i < nuevo.socios.len() implies (#[trigger] nuevo.socios[i]).categoria.es_valida()
        && nuevo.socios[i].pagos_a_tiempo_consecutivos < u16::MAX by {
        if i < n {
            assert(v.socios[i] == nuevo.socios[i]);
        }
    }
    assert forall|k: int| 0 <= k < nuevo.pagos.len() implies (#[trigger] nuevo.pagos[k]).id_socio
        < nuevo.socios.len() by {
        if k < v.pagos.len() {
            assert(v.pagos[k] == nuevo.pagos[k]);
        }
    }
    assert forall|i: int| 0 <= i < nuevo.socios.len() implies 0 <= #[trigger] ultimo_pago_de(
        nuevo.pagos,
        i,
    ) && nuevo.pagos[ultimo_pago_de(nuevo.pagos, i)].pagado is None by {
        lema_ultimo_tras_agregar(v.pagos, p, i);
        if i < n {
            let u = ultimo_pago_de(v.pagos, i);
            assert(0 <= u);
            lema_ultimo_pago(v.pagos, i);
            assert(nuevo.pagos[u] == v.pagos[u]);
        } else {
            assert(nuevo.pagos[v.pagos.len() as int] == p);
        }
    }
    assert forall|k: int|
        0 <= k < nuevo.pagos.len() && (#[trigger] nuevo.pagos[k]).pagado is None implies ultimo_pago_de(
        nuevo.pagos,
        nuevo.pagos[k].id_socio as int,
    ) == k by {
        if k < v.pagos.len() {
            assert(v.pagos[k] == nuevo.pagos[k]);
            assert(v.pagos[k].id_socio < n);
        }
    }
}

/// Settling the pending payment of member `i`, when the next payment can be
/// represented, keeps the club's invariant.
pub proof fn lema_pago_preserva(v: ClubVista, nuevo: ClubVista, i: int, hoy: Fecha)
    requires
        v.invariante(),
        0 <= i < v.socios.len(),
        v.pago(nuevo, i, hoy),
    ensures
        nuevo.invariante(),
{
    let j = v.pendiente_de(i);
    let medio = v.pagos.update(j, saldado(v.pagos[j], hoy));
    let p = nuevo.pagos.last();
    lema_ultimo_pago(v.pagos, i);
    assert(nuevo.pagos =~= medio.push(p));
    assert forall|x: int| #![all_triggers] true implies ultimo_pago_de(nuevo.pagos, x) == if x == i {
        v.pagos.len() as int
    } else {
        ultimo_pago_de(v.pagos, x)
    } by {
        lema_ultimo_tras_agregar(medio, p, x);
        lema_ultimo_tras_cambiar(v.pagos, j, saldado(v.pagos[j], hoy), x);
    }
    assert forall|a: int, b: int|
        0 <= a < b < nuevo.socios.len() implies (#[trigger] nuevo.socios[a]).dni != (
    #[trigger] nuevo.socios[b]).dni by {
        assert(v.socios[a].dni == nuevo.socios[a].dni && v.socios[b].dni == nuevo.socios[b].dni);
    }
    assert forall|a: int| 0 <= a < nuevo.socios.len() implies (#[trigger] nuevo.socios[a]).categoria.es_valida()
        && nuevo.socios[a].pagos_a_tiempo_consecutivos < u16::MAX by {
        assert(v.socios[a].categoria == nuevo.socios[a].categoria);
    }
    assert forall|k: int| 0 <= k < nuevo.pagos.len() implies (#[trigger] nuevo.pagos[k]).id_socio
        < nuevo.socios.len() by {
        if k < v.pagos.len() {
            assert(v.pagos[k].id_socio == nuevo.pagos[k].id_socio);
        }
    }
    assert forall|x: int| 0 <= x < nuevo.socios.len() implies 0 <= #[trigger] ultimo_pago_de(
        nuevo.pagos,
        x,
    ) && nuevo.pagos[ultimo_pago_de(nuevo.pagos, x)].pagado is None by {
        if x != i {
            lema_ultimo_pago(v.pagos, x);
            assert(ultimo_pago_de(nuevo.pagos, x) == ultimo_pago_de(v.pagos, x));
            assert(0 <= ultimo_pago_de(v.pagos, x));
            assert(ultimo_pago_de(v.pagos, x) != j);
            assert(nuevo.pagos[ultimo_pago_de(v.pagos, x)] == v.pagos[ultimo_pago_de(v.pagos, x)]);
        }
    }
    assert forall|k: int|
        0 <= k < nuevo.pagos.len() && (#[trigger] nuevo.pagos[k]).pagado is None implies ultimo_pago_de(
        nuevo.pagos,
        nuevo.pagos[k].id_socio as int,
    ) == k by {
        if k < v.pagos.len() {
            assert(k != j);
            assert(v.pagos[k] == nuevo.pagos[k]);
            assert(ultimo_pago_de(v.pagos, v.pagos[k].id_socio as int) == k);
            if v.pagos[k].id_socio == i {
                assert(false);
            }
        }
    }
}

} // verus!
