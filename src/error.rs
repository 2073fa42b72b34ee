//! Why an operation on the club was refused.

use vstd::prelude::*;

verus! {

/// The reasons for which an operation on the club is refused. A refused
/// operation leaves the club as it was.
#[derive(Clone, Copy, Debug, PartialEq, Eq, Structural)]
pub enum ErrorClub {
    /// The caller lacks the privilege that the operation asks for.
    NoAutorizado,
    /// The account is already in the authorized list.
    YaAutorizado,
    /// The account is not in the authorized list.
    AutorizadoInexistente,
    /// A bonus parameter outside its range.
    FueraDeRango,
    /// A member with that DNI is already registered.
    SocioRepetido,
    /// Category B cannot carry the gym, which every category includes.
    CategoriaInvalida,
    /// No member has that DNI.
    SocioInexistente,
    /// The amount differs from what the pending payment asks for.
    MontoIncorrecto,
    /// A date or an amount would not fit in its type.
    Desbordamiento,
}

} // verus!
