//! Reports derived from the registry and the ledger: who is in arrears, what each
//! category has brought in, and who may take part in an activity.
//!
//! The reports read a registry and a ledger and nothing else, so they serve the club's
//! own state as well as any other pair of lists.

use vstd::prelude::*;
use crate::categorias::{deporte_de_id, CategoriasSocios, Deporte};
use crate::error::ErrorClub;
use crate::padron::{buscar_socio, existe_dni, socio_de_dni};
use crate::pago::Pago;
use crate::secuencias::lema_filtro_paso;
use crate::socio::Socio;

verus! {

/// The members in arrears at time `ahora`: those with a pending payment past its due
/// date. Each appears once, in the order in which the ledger first shows such a payment
/// of theirs. A payment of an identifier that is not registered names no member.
pub open spec fn morosos(socios: Seq<Socio>, pagos: Seq<Pago>, ahora: u64) -> Seq<Socio>
    decreases pagos.len(),
{
    if pagos.len() == 0 {
        Seq::empty()
    } else {
        let previos = morosos(socios, pagos.drop_last(), ahora);
        let pago = pagos.last();
        if pago.vencido(ahora) && !existe_dni(previos, pago.dni) {
            match socio_de_dni(socios, pago.dni) {
                Some(socio) => previos.push(socio),
                None => previos,
            }
        } else {
            previos
        }
    }
}

/// Whether member `dni` has a pending payment past its due date at time `ahora`.
pub open spec fn tiene_deuda_vencida(pagos: Seq<Pago>, dni: u32, ahora: u64) -> bool {
    exists|i: int| 0 <= i < pagos.len() && (#[trigger] pagos[i]).dni == dni && pagos[i].vencido(ahora)
}

/// What a payment adds to the revenue of `categoria`: its amount, where it is settled
/// and its member is of that category.
pub open spec fn aporte(socios: Seq<Socio>, pago: Pago, categoria: CategoriasSocios) -> int {
    if pago.pendiente() {
        0
    } else {
        match socio_de_dni(socios, pago.dni) {
            Some(socio) => if socio.categoria == categoria {
                pago.monto as int
            } else {
                0
            },
            None => 0,
        }
    }
}

/// The revenue of `categoria`: the sum of the amounts of the settled payments of its
/// members.
pub open spec fn recaudado(socios: Seq<Socio>, pagos: Seq<Pago>, categoria: CategoriasSocios) -> int
    decreases pagos.len(),
{
    if pagos.len() == 0 {
        0
    } else {
        recaudado(socios, pagos.drop_last(), categoria) + aporte(socios, pagos.last(), categoria)
    }
}

/// Every settled payment belongs to a registered member.
pub open spec fn saldados_de_socios(socios: Seq<Socio>, pagos: Seq<Pago>) -> bool {
    forall|i: int|
        0 <= i < pagos.len() && !(#[trigger] pagos[i]).pendiente() ==> existe_dni(
            socios,
            pagos[i].dni,
        )
}

/// Whether the revenue can be reported: every settled payment belongs to a member, and
/// the revenue of each category fits in 128 bits.
pub open spec fn recaudacion_definida(socios: Seq<Socio>, pagos: Seq<Pago>) -> bool {
    &&& saldados_de_socios(socios, pagos)
    &&& recaudado(socios, pagos, CategoriasSocios::A) <= u128::MAX
    &&& recaudado(socios, pagos, CategoriasSocios::B) <= u128::MAX
    &&& recaudado(socios, pagos, CategoriasSocios::C) <= u128::MAX
}

/// The revenue report: the three categories in the order A, B, C, each with its revenue.
pub open spec fn recaudacion(socios: Seq<Socio>, pagos: Seq<Pago>) -> Seq<(CategoriasSocios, u128)> {
    seq![
        (CategoriasSocios::A, recaudado(socios, pagos, CategoriasSocios::A) as u128),
        (CategoriasSocios::B, recaudado(socios, pagos, CategoriasSocios::B) as u128),
        (CategoriasSocios::C, recaudado(socios, pagos, CategoriasSocios::C) as u128),
    ]
}

/// The members who may take part in `deporte` and are not in arrears at `ahora`. The gym
/// is open to every member; any other activity to those who chose it and to category A.
pub open spec fn habilitado(socios: Seq<Socio>, pagos: Seq<Pago>, ahora: u64, deporte: Deporte)
    -> spec_fn(Socio) -> bool {
    |s: Socio|
        (deporte == Deporte::Gimnasio || s.practica(deporte)) && !existe_dni(
            morosos(socios, pagos, ahora),
            s.dni,
        )
}

/// The report of the members who may take part in the activity that `id_actividad`
/// names and are not in arrears, in the order of the registry.
pub open spec fn no_morosos_por_actividad(
    socios: Seq<Socio>,
    pagos: Seq<Pago>,
    ahora: u64,
    id_actividad: u32,
) -> Result<Seq<Socio>, ErrorClub> {
    match deporte_de_id(id_actividad) {
        None => Err(ErrorClub::InvalidActivity),
        Some(deporte) => Ok(socios.filter(habilitado(socios, pagos, ahora, deporte))),
    }
}

/// The revenue never shrinks as the ledger grows.
pub proof fn lema_recaudado_creciente(
    socios: Seq<Socio>,
    pagos: Seq<Pago>,
    categoria: CategoriasSocios,
    i: int,
)
    requires
        0 <= i <= pagos.len(),
    ensures
        0 <= recaudado(socios, pagos.take(i), categoria) <= recaudado(socios, pagos, categoria),
    decreases pagos.len(),
{
    if pagos.len() == 0 {
        assert(pagos.take(i) =~= pagos);
    } else if i == pagos.len() {
        assert(pagos.take(i) =~= pagos);
        lema_recaudado_creciente(socios, pagos.drop_last(), categoria, i - 1);
    } else {
        assert(pagos.drop_last().take(i) =~= pagos.take(i));
        lema_recaudado_creciente(socios, pagos.drop_last(), categoria, i);
    }
}

/// The members in arrears at time `ahora`, each once, in the order in which the ledger
/// first shows an overdue payment of theirs.
pub fn socios_morosos(socios: &Vec<Socio>, pagos: &Vec<Pago>, ahora: u64) -> (resultado: Vec<Socio>)
    ensures
        resultado@ == morosos(socios@, pagos@, ahora),
{
    let mut resultado: Vec<Socio> = Vec::new();
    let mut i: usize = 0;
    proof {
        assert(pagos@.take(0).len() == 0);
    }
    while i < pagos.len()
        invariant
            0 <= i <= pagos.len(),
            resultado@ == morosos(socios@, pagos@.take(i as int), ahora),
        decreases pagos.len() - i,
    {
        proof {
            assert(pagos@.take(i + 1).drop_last() =~= pagos@.take(i as int));
            assert(pagos@.take(i + 1).last() == pagos@[i as int]);
        }
        if pagos[i].esta_pendiente() && pagos[i].fecha_venci < ahora {
            if buscar_socio(&resultado, pagos[i].dni).is_none() {
                match buscar_socio(socios, pagos[i].dni) {
                    Some(pos) => {
                        resultado.push(socios[pos].clone());
                    },
                    None => {},
                }
            }
        }
        i += 1;
    }
    proof {
        assert(pagos@.take(pagos.len() as int) =~= pagos@);
    }
    resultado
}

/// The revenue of the three categories, or `None` where it cannot be reported: where a
/// settled payment belongs to no member, or a category's revenue exceeds 128 bits.
pub fn recaudacion_controlada(
    socios: &Vec<Socio>,
    pagos: &Vec<Pago>,
) -> (resultado: Option<Vec<(CategoriasSocios, u128)>>)
    ensures
        resultado is Some <==> recaudacion_definida(socios@, pagos@),
        resultado matches Some(r) ==> r@ == recaudacion(socios@, pagos@),
{
    let mut total_a: u128 = 0;
    let mut total_b: u128 = 0;
    let mut total_c: u128 = 0;
    let mut i: usize = 0;
    proof {
        assert(pagos@.take(0).len() == 0);
    }
    while i < pagos.len()
        invariant
            0 <= i <= pagos.len(),
            forall|k: int|
                0 <= k < i && !(#[trigger] pagos@[k]).pendiente() ==> existe_dni(
                    socios@,
                    pagos@[k].dni,
                ),
            total_a == recaudado(socios@, pagos@.take(i as int), CategoriasSocios::A),
            total_b == recaudado(socios@, pagos@.take(i as int), CategoriasSocios::B),
            total_c == recaudado(socios@, pagos@.take(i as int), CategoriasSocios::C),
        decreases pagos.len() - i,
    {
        proof {
            assert(pagos@.take(i + 1).drop_last() =~= pagos@.take(i as int));
            assert(pagos@.take(i + 1).last() == pagos@[i as int]);
            lema_recaudado_creciente(socios@, pagos@, CategoriasSocios::A, i + 1);
            lema_recaudado_creciente(socios@, pagos@, CategoriasSocios::B, i + 1);
            lema_recaudado_creciente(socios@, pagos@, CategoriasSocios::C, i + 1);
        }
        if !pagos[i].esta_pendiente() {
            match buscar_socio(socios, pagos[i].dni) {
                None => {
                    return None;
                },
                Some(pos) => {
                    let monto: u128 = pagos[i].monto;
                    match socios[pos].categoria {
                        CategoriasSocios::A => {
                            if monto > u128::MAX - total_a {
                                return None;
                            }
                            total_a = total_a + monto;
                        },
                        CategoriasSocios::B => {
                            if monto > u128::MAX - total_b {
                                return None;
                            }
                            total_b = total_b + monto;
                        },
                        CategoriasSocios::C => {
                            if monto > u128::MAX - total_c {
                                return None;
                            }
                            total_c = total_c + monto;
                        },
                    }
                },
            }
        }
        i += 1;
    }
    proof {
        assert(pagos@.take(pagos.len() as int) =~= pagos@);
    }
    let mut resultado: Vec<(CategoriasSocios, u128)> = Vec::new();
    resultado.push((CategoriasSocios::A, total_a));
    resultado.push((CategoriasSocios::B, total_b));
    resultado.push((CategoriasSocios::C, total_c));
    proof {
        assert(resultado@ =~= recaudacion(socios@, pagos@));
    }
    Some(resultado)
}

/// The revenue of the three categories, in the order A, B, C: for each, the sum of the
/// amounts of the settled payments of its members. Pending payments count for nothing.
pub fn recaudacion_por_categoria(
    socios: &Vec<Socio>,
    pagos: &Vec<Pago>,
) -> (resultado: Vec<(CategoriasSocios, u128)>)
    requires
        recaudacion_definida(socios@, pagos@),
    ensures
        resultado@ == recaudacion(socios@, pagos@),
{
    recaudacion_controlada(socios, pagos).unwrap()
}

/// The members who may take part in the activity that `id_actividad` names and are not
/// in arrears at time `ahora`, in the order of the registry. A code that names no
/// activity is an error.
pub fn socios_no_morosos_por_actividad(
    socios: &Vec<Socio>,
    pagos: &Vec<Pago>,
    ahora: u64,
    id_actividad: u32,
) -> (resultado: Result<Vec<Socio>, ErrorClub>)
    ensures
        match resultado {
            Ok(r) => no_morosos_por_actividad(socios@, pagos@, ahora, id_actividad) == Ok::<
                Seq<Socio>,
                ErrorClub,
            >(r@),
            Err(e) => no_morosos_por_actividad(socios@, pagos@, ahora, id_actividad) == Err::<
                Seq<Socio>,
                ErrorClub,
            >(e),
        },
{
    let deporte = match Deporte::deporte_de_codigo(id_actividad) {
        Ok(deporte) => deporte,
        Err(error) => {
            return Err(error);
        },
    };
    let en_mora = socios_morosos(socios, pagos, ahora);
    let es_gimnasio = match deporte {
        Deporte::Gimnasio => true,
        _ => false,
    };
    let ghost filtro = habilitado(socios@, pagos@, ahora, deporte);
    let mut resultado: Vec<Socio> = Vec::new();
    let mut i: usize = 0;
    while i < socios.len()
        invariant
            0 <= i <= socios.len(),
            en_mora@ == morosos(socios@, pagos@, ahora),
            es_gimnasio == (deporte == Deporte::Gimnasio),
            filtro == habilitado(socios@, pagos@, ahora, deporte),
            resultado@ == socios@.take(i as int).filter(filtro),
        decreases socios.len() - i,
    {
        proof {
            lema_filtro_paso(socios@, filtro, i as int);
        }
        if (es_gimnasio || socios[i].puede_practicar(deporte)) && buscar_socio(
            &en_mora,
            socios[i].dni,
        ).is_none() {
            resultado.push(socios[i].clone());
        }
        i += 1;
    }
    proof {
        assert(socios@.take(socios.len() as int) =~= socios@);
    }
    Ok(resultado)
}

} // verus!
