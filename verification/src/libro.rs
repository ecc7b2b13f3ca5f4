//! The ledger of payments: filters over it, the search for the payment to settle, and
//! the test for the discount.

use vstd::prelude::*;
use crate::pago::Pago;
use crate::secuencias::{
    es_primero,
    lema_filtro_paso,
    lema_mapa_paso,
    lema_primero,
    lema_sin_primero,
    primero,
};

verus! {

/// The payments of member `dni`.
pub open spec fn de_socio(dni: u32) -> spec_fn(Pago) -> bool {
    |p: Pago| p.dni == dni
}

/// The payments not yet settled.
pub open spec fn es_pendiente() -> spec_fn(Pago) -> bool {
    |p: Pago| p.pendiente()
}

/// The settled payments.
pub open spec fn es_saldado() -> spec_fn(Pago) -> bool {
    |p: Pago| !p.pendiente()
}

/// The pending payments of member `dni` whose amount is exactly `monto`.
pub open spec fn pendiente_de(dni: u32, monto: u128) -> spec_fn(Pago) -> bool {
    |p: Pago| p.dni == dni && p.monto == monto && p.pendiente()
}

/// The amount of a payment.
pub open spec fn monto_de() -> spec_fn(Pago) -> u128 {
    |p: Pago| p.monto
}

/// The pending payments of a ledger, in its order.
pub open spec fn pendientes(pagos: Seq<Pago>) -> Seq<Pago> {
    pagos.filter(es_pendiente())
}

/// The settled payments of a ledger, in its order.
pub open spec fn saldados(pagos: Seq<Pago>) -> Seq<Pago> {
    pagos.filter(es_saldado())
}

/// The payments of member `dni`, in the order of the ledger.
pub open spec fn historial(pagos: Seq<Pago>, dni: u32) -> Seq<Pago> {
    pagos.filter(de_socio(dni))
}

/// The amounts of the payments of member `dni`, in the order of the ledger.
pub open spec fn montos_de_socio(pagos: Seq<Pago>, dni: u32) -> Seq<u128> {
    historial(pagos, dni).map_values(monto_de())
}

/// The position of the payment that a settlement of `monto` by member `dni` settles: the
/// first pending payment of that member with exactly that amount.
pub open spec fn pago_a_saldar(pagos: Seq<Pago>, dni: u32, monto: u128) -> Option<int> {
    primero(pagos, pendiente_de(dni, monto))
}

/// Whether member `dni` has earned the discount on the next payment: the member has at
/// least `racha` payments, and the latest `racha` of them were each settled no later
/// than due, none of them discounted.
pub open spec fn merece_bonificacion(pagos: Seq<Pago>, dni: u32, racha: u8) -> bool {
    let h = historial(pagos, dni);
    &&& racha <= h.len()
    &&& forall|k: int| h.len() - racha <= k < h.len() ==> (#[trigger] h[k]).pagado_en_termino()
}

/// The pending payments, in the order of the ledger.
pub fn pagos_pendientes(pagos: &Vec<Pago>) -> (resultado: Vec<Pago>)
    ensures
        resultado@ == pendientes(pagos@),
{
    let mut resultado: Vec<Pago> = Vec::new();
    let mut i: usize = 0;
    while i < pagos.len()
        invariant
            0 <= i <= pagos.len(),
            resultado@ == pendientes(pagos@.take(i as int)),
        decreases pagos.len() - i,
    {
        proof {
            lema_filtro_paso(pagos@, es_pendiente(), i as int);
        }
        if pagos[i].esta_pendiente() {
            resultado.push(pagos[i]);
        }
        i += 1;
    }
    proof {
        assert(pagos@.take(pagos.len() as int) =~= pagos@);
    }
    resultado
}

/// The settled payments, in the order of the ledger.
pub fn pagos_saldados(pagos: &Vec<Pago>) -> (resultado: Vec<Pago>)
    ensures
        resultado@ == saldados(pagos@),
{
    let mut resultado: Vec<Pago> = Vec::new();
    let mut i: usize = 0;
    while i < pagos.len()
        invariant
            0 <= i <= pagos.len(),
            resultado@ == saldados(pagos@.take(i as int)),
        decreases pagos.len() - i,
    {
        proof {
            lema_filtro_paso(pagos@, es_saldado(), i as int);
        }
        if !pagos[i].esta_pendiente() {
            resultado.push(pagos[i]);
        }
        i += 1;
    }
    proof {
        assert(pagos@.take(pagos.len() as int) =~= pagos@);
    }
    resultado
}

/// The payments of member `dni`, in the order of the ledger.
pub fn pagos_de_socio(pagos: &Vec<Pago>, dni: u32) -> (resultado: Vec<Pago>)
    ensures
        resultado@ == historial(pagos@, dni),
{
    let mut resultado: Vec<Pago> = Vec::new();
    let mut i: usize = 0;
    while i < pagos.len()
        invariant
            0 <= i <= pagos.len(),
            resultado@ == historial(pagos@.take(i as int), dni),
        decreases pagos.len() - i,
    {
        proof {
            lema_filtro_paso(pagos@, de_socio(dni), i as int);
        }
        if pagos[i].dni == dni {
            resultado.push(pagos[i]);
        }
        i += 1;
    }
    proof {
        assert(pagos@.take(pagos.len() as int) =~= pagos@);
    }
    resultado
}

/// The amounts of the payments of member `dni`, in the order of the ledger.
pub fn montos_pagos_de_socio(pagos: &Vec<Pago>, dni: u32) -> (resultado: Vec<u128>)
    ensures
        resultado@ == montos_de_socio(pagos@, dni),
{
    let propios = pagos_de_socio(pagos, dni);
    let mut resultado: Vec<u128> = Vec::new();
    let mut i: usize = 0;
    while i < propios.len()
        invariant
            0 <= i <= propios.len(),
            resultado@ == propios@.take(i as int).map_values(monto_de()),
        decreases propios.len() - i,
    {
        proof {
            lema_mapa_paso(propios@, monto_de(), i as int);
        }
        resultado.push(propios[i].monto);
        i += 1;
    }
    proof {
        assert(propios@.take(propios.len() as int) =~= propios@);
    }
    resultado
}

/// A copy of the ledger.
pub fn copiar_pagos(pagos: &Vec<Pago>) -> (copia: Vec<Pago>)
    ensures
        copia@ == pagos@,
{
    let mut copia: Vec<Pago> = Vec::new();
    let mut i: usize = 0;
    while i < pagos.len()
        invariant
            0 <= i <= pagos.len(),
            copia@ == pagos@.take(i as int),
        decreases pagos.len() - i,
    {
        copia.push(pagos[i]);
        proof {
            assert(pagos@.take(i + 1) =~= pagos@.take(i as int).push(pagos@[i as int]));
        }
        i += 1;
    }
    proof {
        assert(pagos@.take(pagos.len() as int) =~= pagos@);
    }
    copia
}

/// The position of the payment that a settlement of `monto` by member `dni` settles, if
/// there is one.
pub fn buscar_pago_a_saldar(pagos: &Vec<Pago>, dni: u32, monto: u128) -> (pos: Option<usize>)
    ensures
        match pos {
            Some(i) => pago_a_saldar(pagos@, dni, monto) == Some(i as int) && i < pagos.len()
                && pendiente_de(dni, monto)(pagos[i as int]),
            None => pago_a_saldar(pagos@, dni, monto) is None,
        },
{
    let mut i: usize = 0;
    while i < pagos.len()
        invariant
            0 <= i <= pagos.len(),
            forall|k: int| 0 <= k < i ==> !pendiente_de(dni, monto)(#[trigger] pagos@[k]),
        decreases pagos.len() - i,
    {
        if pagos[i].dni == dni && pagos[i].monto == monto && pagos[i].esta_pendiente() {
            proof {
                assert(es_primero(pagos@, pendiente_de(dni, monto), i as int));
                lema_primero(pagos@, pendiente_de(dni, monto), i as int);
            }
            return Some(i);
        }
        i += 1;
    }
    proof {
        lema_sin_primero(pagos@, pendiente_de(dni, monto));
    }
    None
}

/// Whether member `dni` has earned the discount on the next payment, where `racha`
/// consecutive payments in time are asked for.
pub fn corroborar_racha(pagos: &Vec<Pago>, dni: u32, racha: u8) -> (merece: bool)
    ensures
        merece == merece_bonificacion(pagos@, dni, racha),
{
    let propios = pagos_de_socio(pagos, dni);
    let n: usize = propios.len();
    let racha_usize: usize = racha as usize;
    if n < racha_usize {
        return false;
    }
    let mut vistos: usize = 0;
    while vistos < racha_usize
        invariant
            racha_usize == racha,
            n == propios.len(),
            racha_usize <= n,
            0 <= vistos <= racha_usize,
            propios@ == historial(pagos@, dni),
            forall|k: int| n - vistos <= k < n ==> (#[trigger] propios@[k]).pagado_en_termino(),
        decreases racha_usize - vistos,
    {
        let k: usize = n - vistos - 1;
        if !propios[k].fue_pagado_en_termino() {
            return false;
        }
        vistos += 1;
    }
    true
}

} // verus!
