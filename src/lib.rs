//! Membership dues ledger for a sports club: member registry, payment chain
//! with loyalty discounts, access policy and reporting queries.

pub mod categoria;
pub mod club;
pub mod cuenta;
pub mod error;
pub mod fecha;
pub mod leyes;
pub mod pago;
pub mod reporte;
pub mod socio;

pub use categoria::{Actividad, Categoria};
pub use club::Club;
pub use cuenta::AccountId;
pub use error::ErrorClub;
pub use fecha::Fecha;
pub use pago::Pago;
pub use reporte::TrabajoFinalReporte;
pub use socio::Socio;
