//! Registering members and settling their payments.

use vstd::prelude::*;
use crate::categorias::{CategoriasSocios, Deporte};
use crate::club::{cumple, ClubSemRust};
use crate::cuenta::AccountId;
use crate::error::ErrorClub;
use crate::fechas::DIEZ_DIAS;
use crate::libro::buscar_pago_a_saldar;
use crate::modelo::EstadoClub;
use crate::padron::{buscar_socio, con_dni, existe_dni, lema_alta_conserva_unicidad};
use crate::pago::Pago;
use crate::socio::Socio;

verus! {

/// Adding a member together with the member's first payment keeps a well-formed club
/// well formed, provided the identifier is new and the member holds an activity only in
/// category B.
pub proof fn lema_alta_bien_formada(antes: EstadoClub, socio: Socio, pago: Pago, ahora: u64)
    requires
        antes.bien_formado(),
        !existe_dni(antes.socios, socio.dni),
        socio.bien_formado(),
        pago.dni == socio.dni,
    ensures
        (EstadoClub {
            socios: antes.socios.push(socio),
            pagos: antes.pagos.push(pago),
            emision_ultimo_pago: if antes.emision_ultimo_pago is None {
                Some(ahora)
            } else {
                antes.emision_ultimo_pago
            },
            ..antes
        }).bien_formado(),
{
    let socios = antes.socios.push(socio);
    let pagos = antes.pagos.push(pago);
    lema_alta_conserva_unicidad(antes.socios, socio);
    assert forall|i: int| 0 <= i < pagos.len() implies existe_dni(
        socios,
        (#[trigger] pagos[i]).dni,
    ) by {
        if i < antes.pagos.len() {
            assert(pagos[i] == antes.pagos[i]);
            assert(existe_dni(antes.socios, antes.pagos[i].dni));
            let k = choose|k: int|
                0 <= k < antes.socios.len() && con_dni(pagos[i].dni)(#[trigger] antes.socios[k]);
            assert(socios[k] == antes.socios[k]);
            assert(con_dni(pagos[i].dni)(socios[k]));
        } else {
            assert(socios[antes.socios.len() as int] == socio);
            assert(con_dni(pagos[i].dni)(socios[antes.socios.len() as int]));
        }
    }
    assert forall|i: int| 0 <= i < socios.len() implies (#[trigger] socios[i]).bien_formado() by {
        if i < antes.socios.len() {
            assert(socios[i] == antes.socios[i]);
        }
    }
}

impl ClubSemRust {
    /// Registers a member at time `ahora` and returns the member's first payment, which
    /// is pending, at the price of the category, and due in ten days.
    ///
    /// Fails, in this order, where the caller may not operate, where the identifier is
    /// taken, where `id_categoria` names no category, and where `id_deporte` holds a
    /// code that names no activity. The activity is kept only in category B. The very
    /// first registration also starts the billing calendar.
    ///
    /// A registration that succeeds computes a due date, which must fit in 64 bits; one
    /// that fails asks nothing of the clock.
    pub fn registrar_socio(
        &mut self,
        caller: AccountId,
        ahora: u64,
        dni: u32,
        apellido_y_nombre: String,
        id_categoria: u32,
        id_deporte: Option<u32>,
    ) -> (resultado: Result<Pago, ErrorClub>)
        requires
            old(self)@.alta(caller, ahora, dni, apellido_y_nombre, id_categoria, id_deporte) is Ok
                ==> ahora + DIEZ_DIAS <= u64::MAX,
        ensures
            cumple(
                old(self)@,
                final(self)@,
                resultado,
                old(self)@.alta(caller, ahora, dni, apellido_y_nombre, id_categoria, id_deporte),
            ),
            old(self)@.bien_formado() ==> final(self)@.bien_formado(),
    {
        if !self.verificar_permisos(caller) {
            return Err(ErrorClub::PermissionDenied);
        }
        if self.existe_socio(dni) {
            return Err(ErrorClub::AlreadyExists);
        }
        let categoria = match CategoriasSocios::categoria_from_id(&id_categoria) {
            Some(categoria) => categoria,
            None => {
                return Err(ErrorClub::InvalidCategory);
            },
        };
        let deporte = match Deporte::deporte_from_id(&id_deporte) {
            Ok(deporte) => deporte,
            Err(error) => {
                return Err(error);
            },
        };
        let fecha_venci: u64 = ahora + DIEZ_DIAS;
        let nuevo_socio = Socio::new(apellido_y_nombre, dni, categoria, deporte);
        let pago_pend = Pago::new(dni, self.costos.get_costo(&categoria), fecha_venci, None, false);
        proof {
            if self@.bien_formado() {
                lema_alta_bien_formada(self@, nuevo_socio, pago_pend, ahora);
            }
        }
        self.pagos.push(pago_pend);
        self.socios.push(nuevo_socio);
        if self.emision_ultimo_pago.is_none() {
            self.emision_ultimo_pago = Some(ahora);
        }
        Ok(pago_pend)
    }

    /// Settles, at time `ahora`, the first pending payment of member `dni` whose amount
    /// is exactly `monto`, and returns it as settled. No other payment changes.
    ///
    /// Fails, in this order, where the caller may not operate, where no member has the
    /// identifier, and where the member has no pending payment of that amount.
    pub fn realizar_pago(
        &mut self,
        caller: AccountId,
        ahora: u64,
        dni: u32,
        monto: u128,
    ) -> (resultado: Result<Pago, ErrorClub>)
        ensures
            cumple(old(self)@, final(self)@, resultado, old(self)@.saldar(caller, ahora, dni, monto)),
            old(self)@.bien_formado() ==> final(self)@.bien_formado(),
    {
        if !self.verificar_permisos(caller) {
            return Err(ErrorClub::PermissionDenied);
        }
        if !self.existe_socio(dni) {
            return Err(ErrorClub::NotFound);
        }
        match buscar_pago_a_saldar(&self.pagos, dni, monto) {
            None => Err(ErrorClub::NoMatchingPendingPayment),
            Some(pos) => {
                let mut pago = self.pagos[pos];
                pago.set_fecha_pago(ahora);
                self.pagos[pos] = pago;
                proof {
                    let antes = old(self)@;
                    if antes.bien_formado() {
                        assert forall|i: int| 0 <= i < self.pagos@.len() implies existe_dni(
                            antes.socios,
                            (#[trigger] self.pagos@[i]).dni,
                        ) by {
                            assert(self.pagos@[i].dni == antes.pagos[i].dni);
                        }
                    }
                }
                Ok(pago)
            },
        }
    }
}

} // verus!
