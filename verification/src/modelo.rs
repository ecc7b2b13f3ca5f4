//! The club as a mathematical value, and each operation as a function from the state
//! before it to the state after it and the value it returns.

use vstd::prelude::*;
use crate::categorias::{
    categoria_de_id,
    deporte_de_id_opcional,
    id_deporte_valido,
    CategoriasSocios,
};
use crate::costos::CostosCategoria;
use crate::cuenta::{contiene_cuenta, AccountId};
use crate::error::ErrorClub;
use crate::fechas::{DIEZ_DIAS, TREINTA_DIAS};
use crate::libro::{historial, merece_bonificacion, montos_de_socio, pago_a_saldar};
use crate::padron::{dnis_unicos, existe_dni, socio_de_dni, socios_bien_formados};
use crate::pago::Pago;
use crate::secuencias::primero;
use crate::socio::{deporte_segun_categoria, Socio};

verus! {

/// The state of the club.
pub struct EstadoClub {
    /// Prices and discount terms.
    pub costos: CostosCategoria,
    /// The members, in the order of registration.
    pub socios: Seq<Socio>,
    /// The ledger, in the order in which the payments were created.
    pub pagos: Seq<Pago>,
    /// The owner of the club.
    pub owner: AccountId,
    /// The staff.
    pub permitidos: Seq<AccountId>,
    /// Whether only the owner and the staff may operate.
    pub politica_activada: bool,
    /// The time of the last billing; `None` until the first member is registered.
    pub emision_ultimo_pago: Option<u64>,
}

/// The accounts equal to `cuenta`.
pub open spec fn es_cuenta(cuenta: AccountId) -> spec_fn(AccountId) -> bool {
    |c: AccountId| c == cuenta
}

/// No account occurs twice.
pub open spec fn sin_repetidos(cuentas: Seq<AccountId>) -> bool {
    forall|i: int, j: int|
        0 <= i < cuentas.len() && 0 <= j < cuentas.len() && i != j ==> cuentas[i] != cuentas[j]
}

/// Every payment belongs to a registered member.
pub open spec fn pagos_de_socios(socios: Seq<Socio>, pagos: Seq<Pago>) -> bool {
    forall|i: int| 0 <= i < pagos.len() ==> existe_dni(socios, (#[trigger] pagos[i]).dni)
}

impl EstadoClub {
    /// Whether `caller` is the owner.
    pub open spec fn es_admin(self, caller: AccountId) -> bool {
        caller == self.owner
    }

    /// Whether `caller` is part of the staff.
    pub open spec fn es_staff(self, caller: AccountId) -> bool {
        contiene_cuenta(self.permitidos, caller)
    }

    /// Whether `caller` may operate the club: the owner and the staff always, anyone
    /// while the policy is off.
    pub open spec fn puede_operar(self, caller: AccountId) -> bool {
        self.es_admin(caller) || self.es_staff(caller) || !self.politica_activada
    }

    /// Whether `caller` may change prices and read the policy: the owner and the staff,
    /// whatever the policy.
    pub open spec fn puede_administrar(self, caller: AccountId) -> bool {
        self.es_admin(caller) || self.es_staff(caller)
    }

    /// What holds of every state that the operations reach from a new club: identifiers
    /// are unique, only members of category B hold an activity, no account is staff
    /// twice, every payment belongs to a member, and a billing date is set exactly when
    /// there are members.
    pub open spec fn bien_formado(self) -> bool {
        &&& dnis_unicos(self.socios)
        &&& socios_bien_formados(self.socios)
        &&& sin_repetidos(self.permitidos)
        &&& pagos_de_socios(self.socios, self.pagos)
        &&& (self.emision_ultimo_pago is None <==> self.socios.len() == 0)
    }

    /// A new club: no members, no payments, no staff, the policy on.
    pub open spec fn inicial(owner: AccountId, costos: CostosCategoria) -> EstadoClub {
        EstadoClub {
            costos,
            socios: Seq::empty(),
            pagos: Seq::empty(),
            owner,
            permitidos: Seq::empty(),
            politica_activada: true,
            emision_ultimo_pago: None,
        }
    }

    /// Handing the club to a new owner: for the owner only.
    pub open spec fn con_owner(self, caller: AccountId, nuevo_owner: AccountId) -> Result<
        EstadoClub,
        ErrorClub,
    > {
        if !self.es_admin(caller) {
            Err(ErrorClub::PermissionDenied)
        } else {
            Ok(EstadoClub { owner: nuevo_owner, ..self })
        }
    }

    /// Reading the policy: for the owner and the staff.
    pub open spec fn leer_politica(self, caller: AccountId) -> Result<bool, ErrorClub> {
        if !self.puede_administrar(caller) {
            Err(ErrorClub::PermissionDenied)
        } else {
            Ok(self.politica_activada)
        }
    }

    /// Switching the policy on or off: for the owner only.
    pub open spec fn con_politica_alternada(self, caller: AccountId) -> Result<
        EstadoClub,
        ErrorClub,
    > {
        if !self.es_admin(caller) {
            Err(ErrorClub::PermissionDenied)
        } else {
            Ok(EstadoClub { politica_activada: !self.politica_activada, ..self })
        }
    }

    /// Adding an account to the staff: for the owner only, and only an account that is
    /// not staff yet.
    pub open spec fn con_staff(self, caller: AccountId, nuevo_staff: AccountId) -> Result<
        EstadoClub,
        ErrorClub,
    > {
        if !self.es_admin(caller) {
            Err(ErrorClub::PermissionDenied)
        } else if contiene_cuenta(self.permitidos, nuevo_staff) {
            Err(ErrorClub::AlreadyStaff)
        } else {
            Ok(EstadoClub { permitidos: self.permitidos.push(nuevo_staff), ..self })
        }
    }

    /// Taking an account off the staff: for the owner only, and only an account that is
    /// staff. The others keep their order.
    pub open spec fn sin_staff(self, caller: AccountId, quitar: AccountId) -> Result<
        EstadoClub,
        ErrorClub,
    > {
        if !self.es_admin(caller) {
            Err(ErrorClub::PermissionDenied)
        } else {
            match primero(self.permitidos, es_cuenta(quitar)) {
                None => Err(ErrorClub::NotStaff),
                Some(i) => Ok(EstadoClub { permitidos: self.permitidos.remove(i), ..self }),
            }
        }
    }

    /// Changing the price of the category that `id_categoria` names: for the owner and
    /// the staff.
    pub open spec fn con_costo_categoria(
        self,
        caller: AccountId,
        id_categoria: u32,
        nuevo_costo: u128,
    ) -> Result<EstadoClub, ErrorClub> {
        if !self.puede_administrar(caller) {
            Err(ErrorClub::PermissionDenied)
        } else {
            match categoria_de_id(id_categoria) {
                None => Err(ErrorClub::InvalidCategory),
                Some(categoria) => Ok(
                    EstadoClub { costos: self.costos.con_costo(nuevo_costo, categoria), ..self },
                ),
            }
        }
    }

    /// Changing the amount of the discount: for the owner and the staff.
    pub open spec fn con_beneficio(self, caller: AccountId, nuevo_costo: u128) -> Result<
        EstadoClub,
        ErrorClub,
    > {
        if !self.puede_administrar(caller) {
            Err(ErrorClub::PermissionDenied)
        } else {
            Ok(
                EstadoClub {
                    costos: CostosCategoria { beneficio: nuevo_costo, ..self.costos },
                    ..self
                },
            )
        }
    }

    /// Changing the number of payments in time that earn the discount: for the owner and
    /// the staff.
    pub open spec fn con_racha(self, caller: AccountId, nuevo_valor: u8) -> Result<
        EstadoClub,
        ErrorClub,
    > {
        if !self.puede_administrar(caller) {
            Err(ErrorClub::PermissionDenied)
        } else {
            Ok(
                EstadoClub {
                    costos: CostosCategoria {
                        pagos_consecutivos_para_beneficio: nuevo_valor,
                        ..self.costos
                    },
                    ..self
                },
            )
        }
    }

    /// Looking a member up.
    pub open spec fn consultar_socio(self, caller: AccountId, dni: u32) -> Result<
        Option<Socio>,
        ErrorClub,
    > {
        if !self.puede_operar(caller) {
            Err(ErrorClub::PermissionDenied)
        } else {
            Ok(socio_de_dni(self.socios, dni))
        }
    }

    /// Listing the members.
    pub open spec fn listar_socios(self, caller: AccountId) -> Result<Seq<Socio>, ErrorClub> {
        if !self.puede_operar(caller) {
            Err(ErrorClub::PermissionDenied)
        } else {
            Ok(self.socios)
        }
    }

    /// The payments of one member, or the whole ledger where no member is named. A
    /// member without payments, registered or not, has the empty history.
    pub open spec fn listar_pagos(self, caller: AccountId, dni: Option<u32>) -> Result<
        Seq<Pago>,
        ErrorClub,
    > {
        if !self.puede_operar(caller) {
            Err(ErrorClub::PermissionDenied)
        } else {
            match dni {
                Some(d) => Ok(historial(self.pagos, d)),
                None => Ok(self.pagos),
            }
        }
    }

    /// The members a summary of payments covers: the named member, or all of them where
    /// none is named.
    pub open spec fn socios_consultados(self, caller: AccountId, dni: Option<u32>) -> Result<
        Seq<Socio>,
        ErrorClub,
    > {
        if !self.puede_operar(caller) {
            Err(ErrorClub::PermissionDenied)
        } else {
            match dni {
                Some(d) => match socio_de_dni(self.socios, d) {
                    Some(socio) => Ok(seq![socio]),
                    None => Err(ErrorClub::NotFound),
                },
                None => Ok(self.socios),
            }
        }
    }

    /// The first payment of a new member of `categoria`: pending, at the category's
    /// price, due ten days from `ahora`.
    pub open spec fn primer_pago(self, ahora: u64, dni: u32, categoria: CategoriasSocios) -> Pago {
        Pago {
            dni,
            monto: self.costos.costo(categoria),
            fecha_venci: (ahora + DIEZ_DIAS) as u64,
            fecha_pago: None,
            bonificado: false,
        }
    }

    /// Registering a member. The caller must be allowed to operate, the identifier new,
    /// the category code known, and the activity code, where one is given, known too.
    /// The member is added with a first pending payment; the first registration ever
    /// also starts the billing calendar.
    pub open spec fn alta(
        self,
        caller: AccountId,
        ahora: u64,
        dni: u32,
        apellido_y_nombre: String,
        id_categoria: u32,
        id_deporte: Option<u32>,
    ) -> Result<(EstadoClub, Pago), ErrorClub> {
        if !self.puede_operar(caller) {
            Err(ErrorClub::PermissionDenied)
        } else if existe_dni(self.socios, dni) {
            Err(ErrorClub::AlreadyExists)
        } else {
            match categoria_de_id(id_categoria) {
                None => Err(ErrorClub::InvalidCategory),
                Some(categoria) => if !id_deporte_valido(id_deporte) {
                    Err(ErrorClub::InvalidActivity)
                } else {
                    let pago = self.primer_pago(ahora, dni, categoria);
                    let socio = Socio {
                        apellido_y_nombre,
                        dni,
                        categoria,
                        deporte: deporte_segun_categoria(
                            categoria,
                            deporte_de_id_opcional(id_deporte),
                        ),
                    };
                    Ok(
                        (
                            EstadoClub {
                                socios: self.socios.push(socio),
                                pagos: self.pagos.push(pago),
                                emision_ultimo_pago: if self.emision_ultimo_pago is None {
                                    Some(ahora)
                                } else {
                                    self.emision_ultimo_pago
                                },
                                ..self
                            },
                            pago,
                        ),
                    )
                },
            }
        }
    }

    /// Settling a payment of `monto` by member `dni`: the first pending payment of that
    /// member with exactly that amount gets `ahora` as its date of settlement. Nothing
    /// else changes.
    pub open spec fn saldar(self, caller: AccountId, ahora: u64, dni: u32, monto: u128) -> Result<
        (EstadoClub, Pago),
        ErrorClub,
    > {
        if !self.puede_operar(caller) {
            Err(ErrorClub::PermissionDenied)
        } else if !existe_dni(self.socios, dni) {
            Err(ErrorClub::NotFound)
        } else {
            match pago_a_saldar(self.pagos, dni, monto) {
                None => Err(ErrorClub::NoMatchingPendingPayment),
                Some(i) => {
                    let pago = self.pagos[i].saldado(ahora);
                    Ok((EstadoClub { pagos: self.pagos.update(i, pago), ..self }, pago))
                },
            }
        }
    }

    /// Whether the next payment of `socio` is discounted.
    pub open spec fn bonifica(self, socio: Socio) -> bool {
        merece_bonificacion(
            self.pagos,
            socio.dni,
            self.costos.pagos_consecutivos_para_beneficio,
        )
    }

    /// Whether the discount cannot be taken off the price that `socio` pays.
    pub open spec fn bonificacion_excesiva(self, socio: Socio) -> bool {
        self.bonifica(socio) && self.costos.costo(socio.categoria) < self.costos.beneficio
    }

    /// The amount of the next monthly payment of `socio`: the price of the category,
    /// less the discount where the member has earned it.
    pub open spec fn monto_mensual(self, socio: Socio) -> int {
        if self.bonifica(socio) {
            self.costos.costo(socio.categoria) - self.costos.beneficio
        } else {
            self.costos.costo(socio.categoria) as int
        }
    }

    /// The monthly payment that a billing at `ahora` creates for `socio`: pending, due
    /// thirty days later, discounted where the member has earned it by the payments on
    /// the ledger before the billing.
    pub open spec fn pago_mensual(self, socio: Socio, ahora: u64) -> Pago {
        Pago {
            dni: socio.dni,
            monto: self.monto_mensual(socio) as u128,
            fecha_venci: (ahora + TREINTA_DIAS) as u64,
            fecha_pago: None,
            bonificado: self.bonifica(socio),
        }
    }

    /// The payments that a billing at `ahora` creates: one per member, in the order of
    /// the registry.
    pub open spec fn pagos_mensuales(self, ahora: u64) -> Seq<Pago> {
        Seq::new(self.socios.len(), |i: int| self.pago_mensual(self.socios[i], ahora))
    }

    /// Whether a billing is due at `ahora`: thirty days or more after the last one.
    pub open spec fn corresponde_emitir(self, ahora: u64) -> bool {
        match self.emision_ultimo_pago {
            Some(fecha) => ahora >= fecha + TREINTA_DIAS,
            None => false,
        }
    }

    /// Billing the month. The caller must be allowed to operate, a member must have been
    /// registered at some time, thirty days must have passed since the last billing, and
    /// no member's discount may exceed the member's price. Then every member gets one
    /// new pending payment and the billing calendar restarts at `ahora`. Where any of
    /// this fails, nothing is billed.
    pub open spec fn emitir(self, caller: AccountId, ahora: u64) -> Result<EstadoClub, ErrorClub> {
        if !self.puede_operar(caller) {
            Err(ErrorClub::PermissionDenied)
        } else if self.emision_ultimo_pago is None {
            Err(ErrorClub::NoBillingYet)
        } else if !self.corresponde_emitir(ahora) {
            Err(ErrorClub::BillingNotDue)
        } else if exists|i: int|
            0 <= i < self.socios.len() && self.bonificacion_excesiva(#[trigger] self.socios[i]) {
            Err(ErrorClub::ArithmeticUnderflow)
        } else {
            Ok(
                EstadoClub {
                    pagos: self.pagos + self.pagos_mensuales(ahora),
                    emision_ultimo_pago: Some(ahora),
                    ..self
                },
            )
        }
    }
}

/// The summary of payments of one member: the member and the amounts of the member's
/// payments, in the order of the ledger.
pub open spec fn es_resumen(socio: Socio, montos: Seq<u128>, pagos: Seq<Pago>) -> bool {
    montos == montos_de_socio(pagos, socio.dni)
}

} // verus!
