//! One billing-cycle obligation of a member.

use vstd::prelude::*;
use crate::fecha::Fecha;

verus! {

/// A payment: who owes it, how much, when it falls due, and when it was
/// settled (`None` while pending).
#[derive(Clone, Copy, Debug, PartialEq, Eq)]
pub struct Pago {
    /// Index of the owing member in the club's member list.
    pub id_socio: u64,
    pub monto: u128,
    pub vencimiento: Fecha,
    pub pagado: Option<Fecha>,
    /// Whether the amount carries the loyalty discount.
    pub es_descuento: bool,
}

impl Pago {
    pub open spec fn pendiente(self) -> bool {
        self.pagado is None
    }

    /// Settled on or before its due date.
    pub open spec fn a_tiempo(self, pagado: Fecha) -> bool {
        pagado.numero() <= self.vencimiento.numero()
    }

    /// Still pending while `hoy` is already past the due date.
    pub open spec fn vencido(self, hoy: Fecha) -> bool {
        self.pagado is None && hoy.numero() > self.vencimiento.numero()
    }

    pub fn get_monto(&self) -> (r: u128)
        ensures
            r == self.monto,
    {
        self.monto
    }

    pub fn get_socio(&self) -> (r: u64)
        ensures
            r == self.id_socio,
    {
        self.id_socio
    }

    pub fn get_vencimiento(&self) -> (r: Fecha)
        ensures
            r == self.vencimiento,
    {
        self.vencimiento
    }

    pub fn get_pagado(&self) -> (r: Option<Fecha>)
        ensures
            r == self.pagado,
    {
        self.pagado
    }

    pub fn get_es_descuento(&self) -> (r: bool)
        ensures
            r == self.es_descuento,
    {
        self.es_descuento
    }

    pub fn es_pagado(&self) -> (r: bool)
        ensures
            r == !self.pendiente(),
    {
        self.pagado.is_some()
    }

    /// Whether the payment was settled on time; `None` while it is pending.
    pub fn es_pagado_a_tiempo(&self) -> (r: Option<bool>)
        ensures
            match self.pagado {
                Some(f) => r == Some(self.a_tiempo(f)),
                None => r is None,
            },
    {
        match self.pagado {
            Some(f) => Some(!f.es_mayor(&self.vencimiento)),
            None => None,
        }
    }

    /// True when, on `fecha_actual`, the payment is pending and past due.
    pub fn es_moroso(&self, fecha_actual: Fecha) -> (r: bool)
        ensures
            r == self.vencido(fecha_actual),
    {
        if self.es_pagado() {
            return false;
        }
        fecha_actual.es_mayor(&self.vencimiento)
    }
}

} // verus!
