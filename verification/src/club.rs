//! The club: its state, who may operate it, its prices, and the queries on its members
//! and payments.

use vstd::prelude::*;
use crate::categorias::CategoriasSocios;
use crate::costos::CostosCategoria;
use crate::cuenta::{posicion_cuenta, AccountId};
use crate::error::ErrorClub;
use crate::libro::{copiar_pagos, montos_pagos_de_socio, pagos_de_socio};
use crate::modelo::{es_cuenta, es_resumen, EstadoClub};
use crate::padron::{buscar_socio, copiar_socios, existe_dni};
use crate::pago::Pago;
use crate::secuencias::{es_primero, lema_primero, lema_sin_primero};
use crate::socio::Socio;

verus! {

/// The club: prices, members, ledger, owner, staff, policy and billing calendar.
#[derive(Debug)]
pub struct ClubSemRust {
    /// Prices and discount terms.
    pub costos: CostosCategoria,
    /// The members, in the order of registration.
    pub socios: Vec<Socio>,
    /// The ledger, in the order in which the payments were created.
    pub pagos: Vec<Pago>,
    /// The owner of the club.
    pub owner: AccountId,
    /// The staff.
    pub permitidos: Vec<AccountId>,
    /// Whether only the owner and the staff may operate.
    pub politica_activada: bool,
    /// The time of the last billing; `None` until the first member is registered.
    pub emision_ultimo_pago: Option<u64>,
}

impl View for ClubSemRust {
    type V = EstadoClub;

    open spec fn view(&self) -> EstadoClub {
        EstadoClub {
            costos: self.costos,
            socios: self.socios@,
            pagos: self.pagos@,
            owner: self.owner,
            permitidos: self.permitidos@,
            politica_activada: self.politica_activada,
            emision_ultimo_pago: self.emision_ultimo_pago,
        }
    }
}

/// Whether an operation that changes the club did what `esperado` says: on success it
/// returned the expected value and left the expected state, on failure it returned the
/// expected error and left the state as it was.
pub open spec fn cumple<T>(
    antes: EstadoClub,
    despues: EstadoClub,
    resultado: Result<T, ErrorClub>,
    esperado: Result<(EstadoClub, T), ErrorClub>,
) -> bool {
    match esperado {
        Ok((estado, valor)) => resultado == Ok::<T, ErrorClub>(valor) && despues == estado,
        Err(e) => resultado == Err::<T, ErrorClub>(e) && despues == antes,
    }
}

/// What an operation that returns `true` on success is expected to do, given the state
/// it is expected to leave.
pub open spec fn con_exito(esperado: Result<EstadoClub, ErrorClub>) -> Result<
    (EstadoClub, bool),
    ErrorClub,
> {
    match esperado {
        Ok(estado) => Ok((estado, true)),
        Err(e) => Err(e),
    }
}

impl ClubSemRust {
    /// A new club owned by `owner`, with the given prices and discount terms: no
    /// members, no payments, no staff, the policy on.
    pub fn new(
        owner: AccountId,
        costo_a: u128,
        costo_b: u128,
        costo_c: u128,
        valor_beneficio: u128,
        pagos_consecutivos_para_beneficio: u8,
    ) -> (club: ClubSemRust)
        ensures
            club@ == EstadoClub::inicial(
                owner,
                CostosCategoria {
                    a: costo_a,
                    b: costo_b,
                    c: costo_c,
                    beneficio: valor_beneficio,
                    pagos_consecutivos_para_beneficio,
                },
            ),
            club@.bien_formado(),
    {
        let costos = CostosCategoria::new(
            costo_a,
            costo_b,
            costo_c,
            valor_beneficio,
            pagos_consecutivos_para_beneficio,
        );
        let club = ClubSemRust {
            costos,
            socios: Vec::new(),
            pagos: Vec::new(),
            owner,
            permitidos: Vec::new(),
            politica_activada: true,
            emision_ultimo_pago: None,
        };
        proof {
            assert(club@.socios =~= Seq::empty());
            assert(club@.pagos =~= Seq::empty());
            assert(club@.permitidos =~= Seq::empty());
        }
        club
    }

    /// Whether `caller` is the owner.
    pub fn es_admin(&self, caller: AccountId) -> (admin: bool)
        ensures
            admin == self@.es_admin(caller),
    {
        caller.es_igual(&self.owner)
    }

    /// Whether `caller` is part of the staff.
    pub fn es_staff(&self, caller: AccountId) -> (staff: bool)
        ensures
            staff == self@.es_staff(caller),
    {
        posicion_cuenta(&self.permitidos, &caller).is_some()
    }

    /// Whether `caller` may operate the club: the owner and the staff always, anyone
    /// while the policy is off.
    pub fn verificar_permisos(&self, caller: AccountId) -> (permitido: bool)
        ensures
            permitido == self@.puede_operar(caller),
    {
        self.es_admin(caller) || self.es_staff(caller) || !self.politica_activada
    }

    /// Whether `caller` may change prices and read the policy.
    pub fn puede_administrar(&self, caller: AccountId) -> (permitido: bool)
        ensures
            permitido == self@.puede_administrar(caller),
    {
        self.es_admin(caller) || self.es_staff(caller)
    }

    /// Hands the club to `nuevo_owner`. Only the owner may.
    pub fn set_owner(
        &mut self,
        caller: AccountId,
        nuevo_owner: AccountId,
    ) -> (resultado: Result<bool, ErrorClub>)
        ensures
            cumple(
                old(self)@,
                final(self)@,
                resultado,
                con_exito(old(self)@.con_owner(caller, nuevo_owner)),
            ),
            old(self)@.bien_formado() ==> final(self)@.bien_formado(),
    {
        if !self.es_admin(caller) {
            return Err(ErrorClub::PermissionDenied);
        }
        self.owner = nuevo_owner;
        Ok(true)
    }

    /// Whether the policy is on. Only the owner and the staff may ask.
    pub fn get_politica_autorizacion(
        &self,
        caller: AccountId,
    ) -> (resultado: Result<bool, ErrorClub>)
        ensures
            resultado == self@.leer_politica(caller),
    {
        if !self.puede_administrar(caller) {
            return Err(ErrorClub::PermissionDenied);
        }
        Ok(self.politica_activada)
    }

    /// Switches the policy on or off and returns its new value. Only the owner may.
    pub fn toggle_politica_autorizacion(
        &mut self,
        caller: AccountId,
    ) -> (resultado: Result<bool, ErrorClub>)
        ensures
            cumple(
                old(self)@,
                final(self)@,
                resultado,
                match old(self)@.con_politica_alternada(caller) {
                    Ok(estado) => Ok((estado, !old(self).politica_activada)),
                    Err(e) => Err(e),
                },
            ),
            old(self)@.bien_formado() ==> final(self)@.bien_formado(),
    {
        if !self.es_admin(caller) {
            return Err(ErrorClub::PermissionDenied);
        }
        self.politica_activada = !self.politica_activada;
        Ok(self.politica_activada)
    }

    /// Adds `nuevo_staff` to the staff. Only the owner may, and only an account that is
    /// not staff yet.
    pub fn agregar_staff(
        &mut self,
        caller: AccountId,
        nuevo_staff: AccountId,
    ) -> (resultado: Result<bool, ErrorClub>)
        ensures
            cumple(
                old(self)@,
                final(self)@,
                resultado,
                con_exito(old(self)@.con_staff(caller, nuevo_staff)),
            ),
            old(self)@.bien_formado() ==> final(self)@.bien_formado(),
    {
        if !self.es_admin(caller) {
            return Err(ErrorClub::PermissionDenied);
        }
        if posicion_cuenta(&self.permitidos, &nuevo_staff).is_some() {
            return Err(ErrorClub::AlreadyStaff);
        }
        self.permitidos.push(nuevo_staff);
        Ok(true)
    }

    /// Takes `quitar` off the staff. Only the owner may, and only an account that is
    /// staff.
    pub fn quitar_staff(
        &mut self,
        caller: AccountId,
        quitar: AccountId,
    ) -> (resultado: Result<bool, ErrorClub>)
        ensures
            cumple(
                old(self)@,
                final(self)@,
                resultado,
                con_exito(old(self)@.sin_staff(caller, quitar)),
            ),
            old(self)@.bien_formado() ==> final(self)@.bien_formado(),
    {
        if !self.es_admin(caller) {
            return Err(ErrorClub::PermissionDenied);
        }
        match posicion_cuenta(&self.permitidos, &quitar) {
            None => {
                proof {
                    lema_sin_primero(self.permitidos@, es_cuenta(quitar));
                }
                Err(ErrorClub::NotStaff)
            },
            Some(pos) => {
                proof {
                    assert(es_primero(self.permitidos@, es_cuenta(quitar), pos as int));
                    lema_primero(self.permitidos@, es_cuenta(quitar), pos as int);
                }
                self.permitidos.remove(pos);
                Ok(true)
            },
        }
    }

    /// Sets the price of the category that `id_categoria` names. Only the owner and the
    /// staff may.
    pub fn actualizar_costos_categoria(
        &mut self,
        caller: AccountId,
        id_categoria: u32,
        nuevo_costo: u128,
    ) -> (resultado: Result<bool, ErrorClub>)
        ensures
            cumple(
                old(self)@,
                final(self)@,
                resultado,
                con_exito(old(self)@.con_costo_categoria(caller, id_categoria, nuevo_costo)),
            ),
            old(self)@.bien_formado() ==> final(self)@.bien_formado(),
    {
        self.actualizar_costos_categoria_priv(caller, id_categoria, nuevo_costo)
    }

    /// Sets the price of the category that `id_categoria` names, after checking the
    /// caller and the code, in that order.
    pub fn actualizar_costos_categoria_priv(
        &mut self,
        caller: AccountId,
        id_categoria: u32,
        nuevo_costo: u128,
    ) -> (resultado: Result<bool, ErrorClub>)
        ensures
            cumple(
                old(self)@,
                final(self)@,
                resultado,
                con_exito(old(self)@.con_costo_categoria(caller, id_categoria, nuevo_costo)),
            ),
            old(self)@.bien_formado() ==> final(self)@.bien_formado(),
    {
        if !self.puede_administrar(caller) {
            return Err(ErrorClub::PermissionDenied);
        }
        match CategoriasSocios::categoria_from_id(&id_categoria) {
            None => Err(ErrorClub::InvalidCategory),
            Some(categoria) => {
                let hecho = self.costos.set_costo(nuevo_costo, &categoria);
                Ok(hecho)
            },
        }
    }

    /// Sets the amount of the discount. Only the owner and the staff may.
    pub fn actualizar_costo_beneficio(
        &mut self,
        caller: AccountId,
        nuevo_costo: u128,
    ) -> (resultado: Result<bool, ErrorClub>)
        ensures
            cumple(
                old(self)@,
                final(self)@,
                resultado,
                con_exito(old(self)@.con_beneficio(caller, nuevo_costo)),
            ),
            old(self)@.bien_formado() ==> final(self)@.bien_formado(),
    {
        if !self.puede_administrar(caller) {
            return Err(ErrorClub::PermissionDenied);
        }
        let hecho = self.costos.set_beneficio(nuevo_costo);
        Ok(hecho)
    }

    /// Sets the number of consecutive payments in time that earn the discount. Only the
    /// owner and the staff may.
    pub fn actualizar_pagos_consecutivos_para_descuento(
        &mut self,
        caller: AccountId,
        nuevo_valor: u8,
    ) -> (resultado: Result<bool, ErrorClub>)
        ensures
            cumple(
                old(self)@,
                final(self)@,
                resultado,
                con_exito(old(self)@.con_racha(caller, nuevo_valor)),
            ),
            old(self)@.bien_formado() ==> final(self)@.bien_formado(),
    {
        if !self.puede_administrar(caller) {
            return Err(ErrorClub::PermissionDenied);
        }
        let hecho = self.costos.set_pagos_consecutivos_para_beneficio(nuevo_valor);
        Ok(hecho)
    }

    /// Whether a member with identifier `dni` is registered. Anyone may ask.
    pub fn existe_socio(&self, dni: u32) -> (existe: bool)
        ensures
            existe == existe_dni(self@.socios, dni),
    {
        buscar_socio(&self.socios, dni).is_some()
    }

    /// A copy of the member with identifier `dni`, or `None` where there is none.
    pub fn get_socio(
        &self,
        caller: AccountId,
        dni: u32,
    ) -> (resultado: Result<Option<Socio>, ErrorClub>)
        ensures
            resultado == self@.consultar_socio(caller, dni),
    {
        if !self.verificar_permisos(caller) {
            return Err(ErrorClub::PermissionDenied);
        }
        match buscar_socio(&self.socios, dni) {
            Some(pos) => Ok(Some(self.socios[pos].clone())),
            None => Ok(None),
        }
    }

    /// A copy of the registry, in the order of registration.
    pub fn get_socios(&self, caller: AccountId) -> (resultado: Result<Vec<Socio>, ErrorClub>)
        ensures
            match resultado {
                Ok(socios) => self@.listar_socios(caller) == Ok::<Seq<Socio>, ErrorClub>(socios@),
                Err(e) => self@.listar_socios(caller) == Err::<Seq<Socio>, ErrorClub>(e),
            },
    {
        if !self.verificar_permisos(caller) {
            return Err(ErrorClub::PermissionDenied);
        }
        Ok(copiar_socios(&self.socios))
    }

    /// The payments of member `dni`, pending and settled, in the order of the ledger; or
    /// a copy of the whole ledger where no member is named. An identifier without
    /// payments gives the empty list.
    pub fn get_pagos_totales(
        &self,
        caller: AccountId,
        dni: Option<u32>,
    ) -> (resultado: Result<Vec<Pago>, ErrorClub>)
        ensures
            match resultado {
                Ok(pagos) => self@.listar_pagos(caller, dni) == Ok::<Seq<Pago>, ErrorClub>(
                    pagos@,
                ),
                Err(e) => self@.listar_pagos(caller, dni) == Err::<Seq<Pago>, ErrorClub>(e),
            },
    {
        if !self.verificar_permisos(caller) {
            return Err(ErrorClub::PermissionDenied);
        }
        match dni {
            Some(d) => Ok(pagos_de_socio(&self.pagos, d)),
            None => Ok(copiar_pagos(&self.pagos)),
        }
    }

    /// A summary of payments: for the named member, or for every member where none is
    /// named, the member together with the amounts of the member's payments in the
    /// order of the ledger. Naming an identifier that is not registered is an error.
    pub fn consulta_de_pagos(
        &self,
        caller: AccountId,
        option_dni: Option<u32>,
    ) -> (resultado: Result<Vec<(Socio, Vec<u128>)>, ErrorClub>)
        ensures
            match resultado {
                Ok(resumen) => {
                    &&& self@.socios_consultados(caller, option_dni) matches Ok(socios)
                    &&& resumen.len() == socios.len()
                    &&& forall|i: int|
                        0 <= i < resumen.len() ==> (#[trigger] resumen[i]).0 == socios[i]
                            && es_resumen(socios[i], resumen[i].1@, self@.pagos)
                },
                Err(e) => self@.socios_consultados(caller, option_dni) == Err::<
                    Seq<Socio>,
                    ErrorClub,
                >(e),
            },
    {
        if !self.verificar_permisos(caller) {
            return Err(ErrorClub::PermissionDenied);
        }
        let mut resumen: Vec<(Socio, Vec<u128>)> = Vec::new();
        match option_dni {
            Some(dni) => {
                match buscar_socio(&self.socios, dni) {
                    Some(pos) => {
                        let montos = montos_pagos_de_socio(&self.pagos, self.socios[pos].dni);
                        resumen.push((self.socios[pos].clone(), montos));
                        Ok(resumen)
                    },
                    None => Err(ErrorClub::NotFound),
                }
            },
            None => {
                let mut i: usize = 0;
                while i < self.socios.len()
                    invariant
                        0 <= i <= self.socios.len(),
                        resumen.len() == i,
                        forall|k: int|
                            0 <= k < i ==> (#[trigger] resumen[k]).0 == self.socios[k]
                                && es_resumen(self.socios[k], resumen[k].1@, self.pagos@),
                    decreases self.socios.len() - i,
                {
                    let montos = montos_pagos_de_socio(&self.pagos, self.socios[i].dni);
                    resumen.push((self.socios[i].clone(), montos));
                    i += 1;
                }
                Ok(resumen)
            },
        }
    }
}

} // verus!
