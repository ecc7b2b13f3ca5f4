//! Laws of the club: what holds of its operations on every state.

use vstd::prelude::*;
use crate::categorias::{categoria_de_id, id_deporte_valido};
use crate::cuenta::AccountId;
use crate::error::ErrorClub;
use crate::fechas::TREINTA_DIAS;
use crate::libro::{es_pendiente, es_saldado, pago_a_saldar, pendiente_de, pendientes, saldados};
use crate::modelo::EstadoClub;
use crate::padron::{
    con_dni,
    dnis_unicos,
    existe_dni,
    lema_alta_conserva_unicidad,
    posicion_de_dni,
    socio_de_dni,
};
use crate::pago::Pago;
use crate::reportes::{morosos, tiene_deuda_vencida};
use crate::secuencias::{es_primero, lema_primero, lema_primero_es_primero};
use crate::socio::Socio;

verus! {

/// The report of members in arrears is a function of the state and the time: asked twice
/// of the same club at the same time, it gives the same list in the same order.
pub proof fn ley_morosos_idempotente(
    estado: EstadoClub,
    caller: AccountId,
    ahora: u64,
    primero: Result<Seq<Socio>, ErrorClub>,
    segundo: Result<Seq<Socio>, ErrorClub>,
)
    requires
        primero == estado.informe_morosos(caller, ahora),
        segundo == estado.informe_morosos(caller, ahora),
    ensures
        primero == segundo,
{
}

/// Pending and settled payments part the ledger between them: every payment is in
/// exactly one of the two lists, and each list holds only its own kind.
pub proof fn ley_pendientes_y_saldados(pagos: Seq<Pago>)
    ensures
        pendientes(pagos).len() + saldados(pagos).len() == pagos.len(),
        forall|i: int| 0 <= i < pendientes(pagos).len() ==> (#[trigger] pendientes(pagos)[i]).pendiente(),
        forall|i: int| 0 <= i < saldados(pagos).len() ==> !(#[trigger] saldados(pagos)[i]).pendiente(),
    decreases pagos.len(),
{
    reveal(Seq::filter);
    if pagos.len() > 0 {
        ley_pendientes_y_saldados(pagos.drop_last());
        pagos.filter_lemma(es_pendiente());
        pagos.filter_lemma(es_saldado());
    }
    assert forall|i: int| 0 <= i < pendientes(pagos).len() implies (#[trigger] pendientes(
        pagos,
    )[i]).pendiente() by {
        pagos.filter_lemma(es_pendiente());
        assert(es_pendiente()(pendientes(pagos)[i]));
    }
    assert forall|i: int| 0 <= i < saldados(pagos).len() implies !(#[trigger] saldados(
        pagos,
    )[i]).pendiente() by {
        pagos.filter_lemma(es_saldado());
        assert(es_saldado()(saldados(pagos)[i]));
    }
}

/// The member that an identifier names carries that identifier and is registered.
pub proof fn lema_socio_de_dni(socios: Seq<Socio>, dni: u32)
    ensures
        socio_de_dni(socios, dni) is Some <==> existe_dni(socios, dni),
        socio_de_dni(socios, dni) matches Some(socio) ==> socio.dni == dni && socios.contains(socio),
{
    lema_primero_es_primero(socios, con_dni(dni));
    if let Some(i) = posicion_de_dni(socios, dni) {
        assert(es_primero(socios, con_dni(dni), i));
        assert(socios[i] == socio_de_dni(socios, dni)->0);
    }
}

/// A member is on the list of those in arrears exactly when the member is registered
/// and has a pending payment past its due date.
pub proof fn ley_morosos_pertenencia(socios: Seq<Socio>, pagos: Seq<Pago>, ahora: u64, dni: u32)
    ensures
        existe_dni(morosos(socios, pagos, ahora), dni) <==> existe_dni(socios, dni)
            && tiene_deuda_vencida(pagos, dni, ahora),
    decreases pagos.len(),
{
    let lista = morosos(socios, pagos, ahora);
    if pagos.len() == 0 {
        assert(lista.len() == 0);
    } else {
        let resto = pagos.drop_last();
        let previos = morosos(socios, resto, ahora);
        let pago = pagos.last();
        ley_morosos_pertenencia(socios, resto, ahora, dni);
        lema_socio_de_dni(socios, pago.dni);
        // What the shorter ledger owes, the longer one owes too.
        if tiene_deuda_vencida(resto, dni, ahora) {
            let k = choose|k: int|
                0 <= k < resto.len() && (#[trigger] resto[k]).dni == dni && resto[k].vencido(ahora);
            assert(pagos[k] == resto[k]);
            assert(tiene_deuda_vencida(pagos, dni, ahora));
        }
        // A debt of the longer ledger is the last payment, or a debt of the shorter one.
        if tiene_deuda_vencida(pagos, dni, ahora) {
            let k = choose|k: int|
                0 <= k < pagos.len() && (#[trigger] pagos[k]).dni == dni && pagos[k].vencido(ahora);
            if k < resto.len() {
                assert(resto[k] == pagos[k]);
                assert(tiene_deuda_vencida(resto, dni, ahora));
            } else {
                assert(pago.dni == dni && pago.vencido(ahora));
            }
        }
        if pago.vencido(ahora) && !existe_dni(previos, pago.dni) && socio_de_dni(
            socios,
            pago.dni,
        ) is Some {
            let socio = socio_de_dni(socios, pago.dni)->0;
            assert(lista == previos.push(socio));
            if existe_dni(previos, dni) {
                let k = choose|k: int| 0 <= k < previos.len() && con_dni(dni)(#[trigger] previos[k]);
                assert(lista[k] == previos[k]);
                assert(con_dni(dni)(lista[k]));
            }
            if existe_dni(lista, dni) {
                let k = choose|k: int| 0 <= k < lista.len() && con_dni(dni)(#[trigger] lista[k]);
                if k < previos.len() {
                    assert(previos[k] == lista[k]);
                    assert(con_dni(dni)(previos[k]));
                } else {
                    assert(lista[k] == socio);
                    assert(pagos[pagos.len() - 1] == pago);
                }
            }
            if dni == pago.dni {
                assert(lista[previos.len() as int] == socio);
                assert(con_dni(dni)(lista[previos.len() as int]));
                assert(pagos[pagos.len() - 1] == pago);
            }
        } else {
            assert(lista == previos);
            if dni == pago.dni && pago.vencido(ahora) && existe_dni(socios, dni) {
                assert(existe_dni(previos, dni));
            }
        }
    }
}

/// No member is on the list of those in arrears twice.
pub proof fn ley_morosos_sin_repetir(socios: Seq<Socio>, pagos: Seq<Pago>, ahora: u64)
    ensures
        dnis_unicos(morosos(socios, pagos, ahora)),
    decreases pagos.len(),
{
    let lista = morosos(socios, pagos, ahora);
    if pagos.len() > 0 {
        let previos = morosos(socios, pagos.drop_last(), ahora);
        let pago = pagos.last();
        ley_morosos_sin_repetir(socios, pagos.drop_last(), ahora);
        lema_socio_de_dni(socios, pago.dni);
        if pago.vencido(ahora) && !existe_dni(previos, pago.dni) && socio_de_dni(
            socios,
            pago.dni,
        ) is Some {
            let socio = socio_de_dni(socios, pago.dni)->0;
            lema_alta_conserva_unicidad(previos, socio);
        }
    }
}

/// A settled payment is not settled again. After a settlement by member `dni` of
/// `monto` has succeeded, a second one with the same identifier and amount either fails
/// for want of a matching pending payment, or settles a payment further down the ledger
/// and leaves the first as the first settlement left it.
pub proof fn ley_pago_unico(
    estado: EstadoClub,
    caller: AccountId,
    ahora: u64,
    despues_ahora: u64,
    dni: u32,
    monto: u128,
)
    requires
        estado.saldar(caller, ahora, dni, monto) is Ok,
    ensures
        ({
            let i = pago_a_saldar(estado.pagos, dni, monto)->0;
            let despues = estado.saldar(caller, ahora, dni, monto)->Ok_0.0;
            match despues.saldar(caller, despues_ahora, dni, monto) {
                Ok((ultimo, _)) => {
                    &&& pago_a_saldar(despues.pagos, dni, monto) matches Some(j)
                    &&& i < j < estado.pagos.len()
                    &&& ultimo.pagos[i] == despues.pagos[i]
                    &&& ultimo.pagos[i] == estado.pagos[i].saldado(ahora)
                },
                Err(e) => e == ErrorClub::NoMatchingPendingPayment,
            }
        }),
{
    let filtro = pendiente_de(dni, monto);
    lema_primero_es_primero(estado.pagos, filtro);
    let i = pago_a_saldar(estado.pagos, dni, monto)->0;
    let despues = estado.saldar(caller, ahora, dni, monto)->Ok_0.0;
    assert(despues.pagos == estado.pagos.update(i, estado.pagos[i].saldado(ahora)));
    lema_primero_es_primero(despues.pagos, filtro);
    if let Some(j) = pago_a_saldar(despues.pagos, dni, monto) {
        assert(es_primero(despues.pagos, filtro, j));
        assert(!filtro(despues.pagos[i]));
        if j < i {
            assert(despues.pagos[j] == estado.pagos[j]);
            assert(!filtro(estado.pagos[j]));
        }
    }
}

/// Billing waits for its time. After a billing at `ahora` has succeeded, a caller who
/// may operate cannot bill again before thirty days have passed.
pub proof fn ley_emision_espera(
    estado: EstadoClub,
    caller: AccountId,
    ahora: u64,
    otro: AccountId,
    despues_ahora: u64,
)
    requires
        estado.emitir(caller, ahora) is Ok,
        estado.emitir(caller, ahora)->Ok_0.puede_operar(otro),
        despues_ahora < ahora + TREINTA_DIAS,
    ensures
        estado.emitir(caller, ahora)->Ok_0.emitir(otro, despues_ahora) == Err::<
            EstadoClub,
            ErrorClub,
        >(ErrorClub::BillingNotDue),
{
}

/// The first registration starts the billing calendar: after it, a caller who may
/// operate cannot bill before thirty days have passed.
pub proof fn ley_emision_tras_primer_alta(
    estado: EstadoClub,
    caller: AccountId,
    ahora: u64,
    dni: u32,
    apellido_y_nombre: String,
    id_categoria: u32,
    id_deporte: Option<u32>,
    otro: AccountId,
    despues_ahora: u64,
)
    requires
        estado.emision_ultimo_pago is None,
        estado.alta(caller, ahora, dni, apellido_y_nombre, id_categoria, id_deporte) is Ok,
        estado.alta(
            caller,
            ahora,
            dni,
            apellido_y_nombre,
            id_categoria,
            id_deporte,
        )->Ok_0.0.puede_operar(otro),
        despues_ahora < ahora + TREINTA_DIAS,
    ensures
        estado.alta(
            caller,
            ahora,
            dni,
            apellido_y_nombre,
            id_categoria,
            id_deporte,
        )->Ok_0.0.emitir(otro, despues_ahora) == Err::<EstadoClub, ErrorClub>(
            ErrorClub::BillingNotDue,
        ),
{
}

/// Billing is owed once its time has come: thirty days or more after the last billing,
/// a caller who may operate bills every member, unless some member's discount exceeds
/// the member's price.
pub proof fn ley_emision_a_termino(estado: EstadoClub, caller: AccountId, ahora: u64)
    requires
        estado.puede_operar(caller),
        estado.emision_ultimo_pago matches Some(fecha) && ahora >= fecha + TREINTA_DIAS,
        forall|i: int|
            0 <= i < estado.socios.len() ==> !estado.bonificacion_excesiva(
                #[trigger] estado.socios[i],
            ),
    ensures
        estado.emitir(caller, ahora) matches Ok(despues) && despues.pagos.len()
            == estado.pagos.len() + estado.socios.len() && despues.emision_ultimo_pago == Some(
            ahora,
        ),
{
}

/// A registration with a code that names no category fails for that reason, whenever
/// the caller may operate and the identifier is new.
pub proof fn ley_categoria_invalida(
    estado: EstadoClub,
    caller: AccountId,
    ahora: u64,
    dni: u32,
    apellido_y_nombre: String,
    id_categoria: u32,
    id_deporte: Option<u32>,
)
    requires
        estado.puede_operar(caller),
        !existe_dni(estado.socios, dni),
        id_categoria != 1 && id_categoria != 2 && id_categoria != 3,
    ensures
        estado.alta(caller, ahora, dni, apellido_y_nombre, id_categoria, id_deporte) == Err::<
            (EstadoClub, Pago),
            ErrorClub,
        >(ErrorClub::InvalidCategory),
{
}

/// The category decides the activity. A member registered in category A or C holds no
/// activity, whatever activity code the registration carried, and that is what a later
/// look-up of the member shows.
pub proof fn ley_categoria_decide_deporte(
    estado: EstadoClub,
    caller: AccountId,
    ahora: u64,
    dni: u32,
    apellido_y_nombre: String,
    id_categoria: u32,
    id_deporte: Option<u32>,
)
    requires
        id_categoria == 1 || id_categoria == 3,
        estado.alta(caller, ahora, dni, apellido_y_nombre, id_categoria, id_deporte) is Ok,
    ensures
        ({
            let despues = estado.alta(
                caller,
                ahora,
                dni,
                apellido_y_nombre,
                id_categoria,
                id_deporte,
            )->Ok_0.0;
            &&& despues.socios.len() == estado.socios.len() + 1
            &&& despues.socios.last().dni == dni
            &&& despues.socios.last().deporte is None
            &&& categoria_de_id(id_categoria) == Some(despues.socios.last().categoria)
            &&& despues.consultar_socio(caller, dni) == Ok::<Option<Socio>, ErrorClub>(
                Some(despues.socios.last()),
            )
        }),
{
    let despues = estado.alta(caller, ahora, dni, apellido_y_nombre, id_categoria, id_deporte)->Ok_0.0;
    let ultimo = estado.socios.len() as int;
    assert forall|k: int| 0 <= k < ultimo implies !con_dni(dni)(#[trigger] despues.socios[k]) by {
        assert(despues.socios[k] == estado.socios[k]);
        assert(!con_dni(dni)(estado.socios[k]));
    }
    assert(es_primero(despues.socios, con_dni(dni), ultimo));
    lema_primero(despues.socios, con_dni(dni), ultimo);
}

/// A registration in category A or C succeeds with any activity code that names an
/// activity, and with none, whenever the caller may operate and the identifier is new.
pub proof fn ley_alta_sin_deporte(
    estado: EstadoClub,
    caller: AccountId,
    ahora: u64,
    dni: u32,
    apellido_y_nombre: String,
    id_categoria: u32,
    id_deporte: Option<u32>,
)
    requires
        estado.puede_operar(caller),
        !existe_dni(estado.socios, dni),
        id_categoria == 1 || id_categoria == 3,
        id_deporte_valido(id_deporte),
    ensures
        estado.alta(caller, ahora, dni, apellido_y_nombre, id_categoria, id_deporte) is Ok,
{
}

/// While the identifiers are unique, the first member with an identifier is the only
/// one, so to look a member up is to find the member registered under it.
pub proof fn ley_socio_unico(socios: Seq<Socio>, i: int)
    requires
        dnis_unicos(socios),
        0 <= i < socios.len(),
    ensures
        socio_de_dni(socios, socios[i].dni) == Some(socios[i]),
{
    assert(es_primero(socios, con_dni(socios[i].dni), i));
    lema_primero(socios, con_dni(socios[i].dni), i);
}

} // verus!
