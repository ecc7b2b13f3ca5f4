//! Member categories and the activities the club offers.

use vstd::prelude::*;
use crate::error::ErrorClub;

verus! {

/// The category a member chooses on registration.
#[derive(Clone, Copy, Debug, PartialEq, Eq, Structural)]
pub enum CategoriasSocios {
    /// Every activity of the club.
    A,
    /// The gym and one chosen activity.
    B,
    /// The gym only.
    C,
}

/// The category that a code names: 1 is A, 2 is B, 3 is C, any other code names none.
pub open spec fn categoria_de_id(id: u32) -> Option<CategoriasSocios> {
    if id == 1 {
        Some(CategoriasSocios::A)
    } else if id == 2 {
        Some(CategoriasSocios::B)
    } else if id == 3 {
        Some(CategoriasSocios::C)
    } else {
        None
    }
}

impl CategoriasSocios {
    /// The category named by `id`, or `None` where the code names no category.
    pub fn categoria_from_id(id: &u32) -> (categoria: Option<CategoriasSocios>)
        ensures
            categoria == categoria_de_id(*id),
    {
        match *id {
            1 => Some(CategoriasSocios::A),
            2 => Some(CategoriasSocios::B),
            3 => Some(CategoriasSocios::C),
            _ => None,
        }
    }
}

/// An activity of the club. `Gimnasio` is open to every member.
#[derive(Clone, Copy, Debug, PartialEq, Eq, Structural)]
pub enum Deporte {
    Futbol,
    Basquet,
    Rugby,
    Hockey,
    Natacion,
    Tenis,
    Paddle,
    Gimnasio,
}

/// The activity that a code names: 1 to 8 in the order of the variants, any other code
/// names none.
pub open spec fn deporte_de_id(id: u32) -> Option<Deporte> {
    if id == 1 {
        Some(Deporte::Futbol)
    } else if id == 2 {
        Some(Deporte::Basquet)
    } else if id == 3 {
        Some(Deporte::Rugby)
    } else if id == 4 {
        Some(Deporte::Hockey)
    } else if id == 5 {
        Some(Deporte::Natacion)
    } else if id == 6 {
        Some(Deporte::Tenis)
    } else if id == 7 {
        Some(Deporte::Paddle)
    } else if id == 8 {
        Some(Deporte::Gimnasio)
    } else {
        None
    }
}

/// The activity that a member gets from an optional code that is acceptable: the one the
/// code names, and none without a code.
pub open spec fn deporte_de_id_opcional(option_id: Option<u32>) -> Option<Deporte> {
    match option_id {
        Some(id) => deporte_de_id(id),
        None => None,
    }
}

/// Whether an optional activity code is acceptable: no code at all, or a code that names
/// an activity.
pub open spec fn id_deporte_valido(option_id: Option<u32>) -> bool {
    match option_id {
        Some(id) => deporte_de_id(id) is Some,
        None => true,
    }
}

impl Deporte {
    /// The activity named by a code, or the refusal of a code that names none.
    pub fn deporte_de_codigo(id: u32) -> (deporte: Result<Deporte, ErrorClub>)
        ensures
            deporte == match deporte_de_id(id) {
                Some(d) => Ok::<Deporte, ErrorClub>(d),
                None => Err::<Deporte, ErrorClub>(ErrorClub::InvalidActivity),
            },
    {
        match id {
            1 => Ok(Deporte::Futbol),
            2 => Ok(Deporte::Basquet),
            3 => Ok(Deporte::Rugby),
            4 => Ok(Deporte::Hockey),
            5 => Ok(Deporte::Natacion),
            6 => Ok(Deporte::Tenis),
            7 => Ok(Deporte::Paddle),
            8 => Ok(Deporte::Gimnasio),
            _ => Err(ErrorClub::InvalidActivity),
        }
    }

    /// The activity named by an optional code. Without a code there is no activity, and
    /// that is no error; a code that names no activity is refused as such.
    pub fn deporte_from_id(option_id: &Option<u32>) -> (deporte: Result<Option<Deporte>, ErrorClub>)
        ensures
            deporte == match *option_id {
                None => Ok(None),
                Some(id) => match deporte_de_id(id) {
                    Some(d) => Ok(Some(d)),
                    None => Err(ErrorClub::InvalidActivity),
                },
            },
            deporte is Ok <==> id_deporte_valido(*option_id),
            deporte matches Ok(d) ==> d == deporte_de_id_opcional(*option_id),
    {
        match *option_id {
            Some(id) => match Deporte::deporte_de_codigo(id) {
                Ok(deporte) => Ok(Some(deporte)),
                Err(error) => Err(error),
            },
            None => Ok(None),
        }
    }
}

} // verus!
