//! A member of the club.

use vstd::prelude::*;
use crate::categorias::{CategoriasSocios, Deporte};

verus! {

/// A registered member.
///
/// A member holds an activity only in category B: see [`Socio::bien_formado`].
#[derive(Debug, PartialEq, Eq)]
pub struct Socio {
    /// Surname and name.
    pub apellido_y_nombre: String,
    /// The identifier, unique in the registry.
    pub dni: u32,
    /// The chosen category.
    pub categoria: CategoriasSocios,
    /// The chosen activity, for category B.
    pub deporte: Option<Deporte>,
}

/// The activity a member of `categoria` keeps of the one supplied: the category decides,
/// and only B keeps it.
pub open spec fn deporte_segun_categoria(
    categoria: CategoriasSocios,
    deporte: Option<Deporte>,
) -> Option<Deporte> {
    if categoria == CategoriasSocios::B {
        deporte
    } else {
        None
    }
}

impl Socio {
    /// A member holds an activity only in category B.
    pub open spec fn bien_formado(self) -> bool {
        self.deporte is Some ==> self.categoria == CategoriasSocios::B
    }

    /// Whether the member may take part in `deporte`: it is the member's own activity,
    /// or the member is in category A.
    pub open spec fn practica(self, deporte: Deporte) -> bool {
        self.deporte == Some(deporte) || self.categoria == CategoriasSocios::A
    }

    /// A member with the given data. The supplied activity is kept only in category B.
    pub fn new(
        apellido_y_nombre: String,
        dni: u32,
        categoria: CategoriasSocios,
        deporte: Option<Deporte>,
    ) -> (socio: Socio)
        ensures
            socio == (Socio {
                apellido_y_nombre,
                dni,
                categoria,
                deporte: deporte_segun_categoria(categoria, deporte),
            }),
            socio.bien_formado(),
    {
        match categoria {
            CategoriasSocios::B => Socio { dni, categoria, apellido_y_nombre, deporte },
            _ => Socio { dni, categoria, apellido_y_nombre, deporte: None },
        }
    }

    /// A copy of the surname and name.
    pub fn get_apellido_y_nombre(&self) -> (nombre: String)
        ensures
            nombre == self.apellido_y_nombre,
    {
        self.apellido_y_nombre.clone()
    }

    /// The identifier.
    pub fn get_dni(&self) -> (dni: u32)
        ensures
            dni == self.dni,
    {
        self.dni
    }

    /// The category.
    pub fn get_categoria(&self) -> (categoria: CategoriasSocios)
        ensures
            categoria == self.categoria,
    {
        self.categoria
    }

    /// The activity, if the member holds one.
    pub fn get_deporte(&self) -> (deporte: Option<Deporte>)
        ensures
            deporte == self.deporte,
    {
        self.deporte
    }

    /// Whether the member may take part in `deporte`.
    pub fn puede_practicar(&self, deporte: Deporte) -> (puede: bool)
        ensures
            puede == self.practica(deporte),
    {
        let propio = match self.deporte {
            Some(d) => d == deporte,
            None => false,
        };
        propio || self.categoria == CategoriasSocios::A
    }
}

impl Clone for Socio {
    fn clone(&self) -> (copia: Socio)
        ensures
            copia == *self,
    {
        Socio {
            apellido_y_nombre: self.apellido_y_nombre.clone(),
            dni: self.dni,
            categoria: self.categoria,
            deporte: self.deporte,
        }
    }
}

} // verus!
