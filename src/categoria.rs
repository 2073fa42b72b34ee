//! Fee categories and the activities that each one gives access to.

use vstd::prelude::*;
use crate::error::ErrorClub;

verus! {

/// The activities that the club offers.
#[derive(Clone, Copy, Debug, PartialEq, Eq, Structural)]
pub enum Actividad {
    Gimnasio,
    Futbol,
    Basquet,
    Rugby,
    Hockey,
    Natacion,
    Tenis,
    Paddle,
}

/// A fee category: A gives every activity, B the gym and one chosen sport,
/// C the gym alone.
#[derive(Clone, Copy, Debug, PartialEq, Eq, Structural)]
pub enum Categoria {
    CategoriaA,
    CategoriaB(Actividad),
    CategoriaC,
}

impl Categoria {
    /// Position of the category in the price table.
    pub open spec fn indice(self) -> int {
        match self {
            Categoria::CategoriaA => 0,
            Categoria::CategoriaB(_) => 1,
            Categoria::CategoriaC => 2,
        }
    }

    pub open spec fn admite(self, actividad: Actividad) -> bool {
        match self {
            Categoria::CategoriaA => true,
            Categoria::CategoriaB(elegida) => actividad == Actividad::Gimnasio || actividad == elegida,
            Categoria::CategoriaC => actividad == Actividad::Gimnasio,
        }
    }

    /// The gym is in every category, so it cannot be the sport chosen in B.
    pub open spec fn es_valida(self) -> bool {
        self != Categoria::CategoriaB(Actividad::Gimnasio)
    }

    /// The index of the category: 0, 1 or 2 for A, B and C.
    pub fn num(&self) -> (r: usize)
        ensures
            r == self.indice(),
            r < 3,
    {
        match self {
            Categoria::CategoriaA => 0,
            Categoria::CategoriaB(_) => 1,
            Categoria::CategoriaC => 2,
        }
    }

    /// True when a member of this category may take part in `actividad`.
    pub fn puede_acceder_a(&self, actividad: Actividad) -> (r: bool)
        ensures
            r == self.admite(actividad),
    {
        match self {
            Categoria::CategoriaA => true,
            Categoria::CategoriaB(elegida) => actividad == Actividad::Gimnasio || actividad == *elegida,
            Categoria::CategoriaC => actividad == Actividad::Gimnasio,
        }
    }

    /// Refuses category B carrying the gym.
    pub fn assert_valida(&self) -> (r: Result<(), ErrorClub>)
        ensures
            r is Ok <==> self.es_valida(),
            r is Err ==> r == Err::<(), ErrorClub>(ErrorClub::CategoriaInvalida),
    {
        if *self == Categoria::CategoriaB(Actividad::Gimnasio) {
            Err(ErrorClub::CategoriaInvalida)
        } else {
            Ok(())
        }
    }
}

} // verus!
