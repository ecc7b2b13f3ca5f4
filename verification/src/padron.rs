//! The registry of members: who is registered, and under which identifier.

use vstd::prelude::*;
use crate::secuencias::{alguno, es_primero, lema_primero, lema_sin_primero, primero};
use crate::socio::Socio;

verus! {

/// The members with identifier `dni`.
pub open spec fn con_dni(dni: u32) -> spec_fn(Socio) -> bool {
    |s: Socio| s.dni == dni
}

/// Whether a member with identifier `dni` is registered.
pub open spec fn existe_dni(socios: Seq<Socio>, dni: u32) -> bool {
    alguno(socios, con_dni(dni))
}

/// The position of the member with identifier `dni`: the first one, should there be
/// several.
pub open spec fn posicion_de_dni(socios: Seq<Socio>, dni: u32) -> Option<int> {
    primero(socios, con_dni(dni))
}

/// The member with identifier `dni`, if one is registered.
pub open spec fn socio_de_dni(socios: Seq<Socio>, dni: u32) -> Option<Socio> {
    match posicion_de_dni(socios, dni) {
        Some(i) => Some(socios[i]),
        None => None,
    }
}

/// No two members share an identifier.
pub open spec fn dnis_unicos(socios: Seq<Socio>) -> bool {
    forall|i: int, j: int|
        0 <= i < socios.len() && 0 <= j < socios.len() && i != j ==> socios[i].dni
            != socios[j].dni
}

/// Every member holds an activity only in category B.
pub open spec fn socios_bien_formados(socios: Seq<Socio>) -> bool {
    forall|i: int| 0 <= i < socios.len() ==> (#[trigger] socios[i]).bien_formado()
}

/// Adding a member whose identifier is new keeps the identifiers unique.
pub proof fn lema_alta_conserva_unicidad(socios: Seq<Socio>, nuevo: Socio)
    requires
        dnis_unicos(socios),
        !existe_dni(socios, nuevo.dni),
    ensures
        dnis_unicos(socios.push(nuevo)),
{
    let despues = socios.push(nuevo);
    assert forall|i: int, j: int|
        0 <= i < despues.len() && 0 <= j < despues.len() && i != j implies despues[i].dni
        != despues[j].dni by {
        if i < socios.len() && j < socios.len() {
            assert(despues[i] == socios[i] && despues[j] == socios[j]);
        } else if i < socios.len() {
            assert(!con_dni(nuevo.dni)(socios[i]));
        } else {
            assert(!con_dni(nuevo.dni)(socios[j]));
        }
    }
}

/// The position of the member with identifier `dni`, if one is registered.
pub fn buscar_socio(socios: &Vec<Socio>, dni: u32) -> (pos: Option<usize>)
    ensures
        match pos {
            Some(i) => posicion_de_dni(socios@, dni) == Some(i as int) && i < socios.len()
                && socios[i as int].dni == dni,
            None => posicion_de_dni(socios@, dni) is None,
        },
        pos is Some <==> existe_dni(socios@, dni),
{
    let mut i: usize = 0;
    while i < socios.len()
        invariant
            0 <= i <= socios.len(),
            forall|k: int| 0 <= k < i ==> !con_dni(dni)(#[trigger] socios@[k]),
        decreases socios.len() - i,
    {
        if socios[i].dni == dni {
            proof {
                assert(es_primero(socios@, con_dni(dni), i as int));
                lema_primero(socios@, con_dni(dni), i as int);
            }
            return Some(i);
        }
        i += 1;
    }
    proof {
        lema_sin_primero(socios@, con_dni(dni));
    }
    None
}

/// A copy of the registry, in the order of registration.
pub fn copiar_socios(socios: &Vec<Socio>) -> (copia: Vec<Socio>)
    ensures
        copia@ == socios@,
{
    let mut copia: Vec<Socio> = Vec::new();
    let mut i: usize = 0;
    while i < socios.len()
        invariant
            0 <= i <= socios.len(),
            copia@ == socios@.take(i as int),
        decreases socios.len() - i,
    {
        copia.push(socios[i].clone());
        proof {
            assert(socios@.take(i + 1) =~= socios@.take(i as int).push(socios@[i as int]));
        }
        i += 1;
    }
    proof {
        assert(socios@.take(socios.len() as int) =~= socios@);
    }
    copia
}

} // verus!
