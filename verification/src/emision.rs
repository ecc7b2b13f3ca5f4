//! The monthly billing: who has earned the discount, and the payments of the month.

use vstd::prelude::*;
use crate::club::{con_exito, cumple, ClubSemRust};
use crate::cuenta::AccountId;
use crate::error::ErrorClub;
use crate::fechas::TREINTA_DIAS;
use crate::libro::{corroborar_racha, merece_bonificacion};
use crate::modelo::EstadoClub;
use crate::padron::{con_dni, existe_dni};
use crate::pago::Pago;

verus! {

/// Billing keeps a well-formed club well formed: each new payment belongs to a member.
pub proof fn lema_emision_bien_formada(antes: EstadoClub, ahora: u64)
    requires
        antes.bien_formado(),
        antes.emision_ultimo_pago is Some,
    ensures
        (EstadoClub {
            pagos: antes.pagos + antes.pagos_mensuales(ahora),
            emision_ultimo_pago: Some(ahora),
            ..antes
        }).bien_formado(),
{
    let pagos = antes.pagos + antes.pagos_mensuales(ahora);
    assert forall|i: int| 0 <= i < pagos.len() implies existe_dni(
        antes.socios,
        (#[trigger] pagos[i]).dni,
    ) by {
        if i < antes.pagos.len() {
            assert(pagos[i] == antes.pagos[i]);
        } else {
            let k = i - antes.pagos.len();
            assert(pagos[i] == antes.pago_mensual(antes.socios[k], ahora));
            assert(con_dni(pagos[i].dni)(antes.socios[k]));
        }
    }
}

impl ClubSemRust {
    /// Whether member `dni` has earned the discount on the next payment: the member has
    /// at least as many payments as the club asks for in a row, and the latest of them,
    /// that many, were each settled no later than due and without a discount.
    pub fn corroborar_bonificacion(&self, dni: u32) -> (merece: bool)
        ensures
            merece == merece_bonificacion(
                self@.pagos,
                dni,
                self@.costos.pagos_consecutivos_para_beneficio,
            ),
    {
        corroborar_racha(&self.pagos, dni, self.costos.pagos_consecutivos_para_beneficio)
    }

    /// Bills the month at time `ahora`: every member gets one new pending payment, due in
    /// thirty days, at the price of the member's category less the discount where the
    /// member has earned it; the billing calendar restarts at `ahora`.
    ///
    /// Fails, in this order, where the caller may not operate, where no member was ever
    /// registered, where fewer than thirty days have passed since the last billing, and
    /// where some member's discount exceeds the member's price. A failed billing creates
    /// no payment at all.
    ///
    /// A billing that is due, asked for by a caller who may operate, computes a due date,
    /// which must fit in 64 bits; any other call asks nothing of the clock.
    pub fn emitir_pago_mensual(
        &mut self,
        caller: AccountId,
        ahora: u64,
    ) -> (resultado: Result<bool, ErrorClub>)
        requires
            old(self)@.puede_operar(caller) && old(self)@.corresponde_emitir(ahora) ==> ahora
                + TREINTA_DIAS <= u64::MAX,
        ensures
            cumple(
                old(self)@,
                final(self)@,
                resultado,
                con_exito(old(self)@.emitir(caller, ahora)),
            ),
            old(self)@.bien_formado() ==> final(self)@.bien_formado(),
    {
        if !self.verificar_permisos(caller) {
            return Err(ErrorClub::PermissionDenied);
        }
        let fecha_emision = match self.emision_ultimo_pago {
            Some(fecha) => fecha,
            None => {
                return Err(ErrorClub::NoBillingYet);
            },
        };
        if ahora < fecha_emision || ahora - fecha_emision < TREINTA_DIAS {
            return Err(ErrorClub::BillingNotDue);
        }
        let fecha_venci: u64 = ahora + TREINTA_DIAS;
        let ghost antes = self@;
        let mut nuevos: Vec<Pago> = Vec::new();
        let mut i: usize = 0;
        while i < self.socios.len()
            invariant
                0 <= i <= self.socios.len(),
                self@ == antes,
                antes == old(self)@,
                antes.puede_operar(caller),
                antes.emision_ultimo_pago is Some,
                antes.corresponde_emitir(ahora),
                fecha_venci == ahora + TREINTA_DIAS,
                nuevos@.len() == i,
                forall|k: int| 0 <= k < i ==> !antes.bonificacion_excesiva(#[trigger] antes.socios[k]),
                forall|k: int|
                    0 <= k < i ==> #[trigger] nuevos@[k] == antes.pago_mensual(antes.socios[k], ahora),
            decreases self.socios.len() - i,
        {
            let bonificado = self.corroborar_bonificacion(self.socios[i].dni);
            let mut costo = self.costos.get_costo(&self.socios[i].categoria);
            if bonificado {
                if costo < self.costos.beneficio {
                    proof {
                        assert(antes.bonificacion_excesiva(antes.socios[i as int]));
                    }
                    return Err(ErrorClub::ArithmeticUnderflow);
                }
                costo = costo - self.costos.beneficio;
            }
            let nuevo_pago = Pago::new(self.socios[i].dni, costo, fecha_venci, None, bonificado);
            nuevos.push(nuevo_pago);
            i += 1;
        }
        proof {
            assert(nuevos@ =~= antes.pagos_mensuales(ahora));
            if antes.bien_formado() {
                lema_emision_bien_formada(antes, ahora);
            }
        }
        self.pagos.append(&mut nuevos);
        self.emision_ultimo_pago = Some(ahora);
        Ok(true)
    }
}

} // verus!
