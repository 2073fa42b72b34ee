//! Registered club members.

use vstd::prelude::*;
use crate::categoria::Categoria;

verus! {

/// A member, keyed by `dni`.
#[derive(Debug, PartialEq, Eq)]
pub struct Socio {
    pub dni: u128,
    pub nombre: String,
    pub categoria: Categoria,
    /// On-time, non-discounted payments in a row since the last discount.
    pub pagos_a_tiempo_consecutivos: u16,
}

impl Clone for Socio {
    fn clone(&self) -> (r: Socio)
        ensures
            r == *self,
    {
        Socio {
            dni: self.dni,
            nombre: self.nombre.clone(),
            categoria: self.categoria,
            pagos_a_tiempo_consecutivos: self.pagos_a_tiempo_consecutivos,
        }
    }
}

impl Socio {
    pub fn get_dni(&self) -> (r: u128)
        ensures
            r == self.dni,
    {
        self.dni
    }

    pub fn get_nombre(&self) -> (r: &str)
        ensures
            r@ == self.nombre@,
    {
        self.nombre.as_str()
    }

    pub fn get_categoria(&self) -> (r: Categoria)
        ensures
            r == self.categoria,
    {
        self.categoria
    }
}

/// A copy of every member, in order.
pub fn copiar_socios(socios: &Vec<Socio>) -> (r: Vec<Socio>)
    ensures
        r@ == socios@,
{
    let mut r: Vec<Socio> = Vec::new();
    let mut i: usize = 0;
    while i < socios.len()
        invariant
            0 <= i <= socios.len(),
            r@ == socios@.subrange(0, i as int),
        decreases socios.len() - i,
    {
        r.push(socios[i].clone());
        i = i + 1;
        assert(r@ =~= socios@.subrange(0, i as int));
    }
    assert(r@ =~= socios@);
    r
}

} // verus!
