//! Membership registry, payment ledger and reports of a sports club,
//! under a role-based authorization policy.
//!
//! Every operation takes the caller's account, and the current time where it uses one,
//! as arguments; a refused operation returns an [`ErrorClub`] and changes nothing.

pub mod categorias;
pub mod club;
pub mod costos;
pub mod cuenta;
pub mod emision;
pub mod error;
pub mod fechas;
pub mod informes;
pub mod leyes;
pub mod libro;
pub mod modelo;
pub mod padron;
pub mod pago;
pub mod registro;
pub mod reportes;
pub mod secuencias;
pub mod socio;

pub use crate::categorias::{CategoriasSocios, Deporte};
pub use crate::club::ClubSemRust;
pub use crate::costos::CostosCategoria;
pub use crate::cuenta::AccountId;
pub use crate::error::ErrorClub;
pub use crate::fechas::ConversionFecha;
pub use crate::pago::Pago;
pub use crate::socio::Socio;
