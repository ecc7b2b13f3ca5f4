//! The reports of the club, for the callers who may operate it.

use vstd::prelude::*;
use crate::categorias::CategoriasSocios;
use crate::club::ClubSemRust;
use crate::cuenta::AccountId;
use crate::error::ErrorClub;
use crate::modelo::EstadoClub;
use crate::reportes::{
    morosos,
    no_morosos_por_actividad,
    recaudacion,
    recaudacion_definida,
    recaudacion_por_categoria,
    socios_morosos,
    socios_no_morosos_por_actividad,
};
use crate::socio::Socio;

verus! {

impl EstadoClub {
    /// The report of the members in arrears at `ahora`.
    pub open spec fn informe_morosos(self, caller: AccountId, ahora: u64) -> Result<
        Seq<Socio>,
        ErrorClub,
    > {
        if !self.puede_operar(caller) {
            Err(ErrorClub::PermissionDenied)
        } else {
            Ok(morosos(self.socios, self.pagos, ahora))
        }
    }

    /// The report of the revenue per category.
    pub open spec fn informe_recaudacion(self, caller: AccountId) -> Result<
        Seq<(CategoriasSocios, u128)>,
        ErrorClub,
    > {
        if !self.puede_operar(caller) {
            Err(ErrorClub::PermissionDenied)
        } else {
            Ok(recaudacion(self.socios, self.pagos))
        }
    }

    /// The report of the members who may take part in an activity and are not in
    /// arrears at `ahora`.
    pub open spec fn informe_actividad(self, caller: AccountId, ahora: u64, id_actividad: u32)
        -> Result<Seq<Socio>, ErrorClub> {
        if !self.puede_operar(caller) {
            Err(ErrorClub::PermissionDenied)
        } else {
            no_morosos_por_actividad(self.socios, self.pagos, ahora, id_actividad)
        }
    }
}

impl ClubSemRust {
    /// The members in arrears at time `ahora`: those with a pending payment past its due
    /// date, each once, in the order in which the ledger first shows such a payment.
    pub fn informe_morosos(
        &self,
        caller: AccountId,
        ahora: u64,
    ) -> (resultado: Result<Vec<Socio>, ErrorClub>)
        ensures
            match resultado {
                Ok(r) => self@.informe_morosos(caller, ahora) == Ok::<Seq<Socio>, ErrorClub>(r@),
                Err(e) => self@.informe_morosos(caller, ahora) == Err::<Seq<Socio>, ErrorClub>(e),
            },
    {
        if !self.verificar_permisos(caller) {
            return Err(ErrorClub::PermissionDenied);
        }
        Ok(socios_morosos(&self.socios, &self.pagos, ahora))
    }

    /// The revenue of the categories A, B and C, in that order: for each, the sum of the
    /// settled payments of its members.
    ///
    /// For a caller who may operate, every settled payment must belong to a member and
    /// each sum must fit in 128 bits.
    pub fn informe_recaudacion(
        &self,
        caller: AccountId,
    ) -> (resultado: Result<Vec<(CategoriasSocios, u128)>, ErrorClub>)
        requires
            self@.puede_operar(caller) ==> recaudacion_definida(self@.socios, self@.pagos),
        ensures
            match resultado {
                Ok(r) => self@.informe_recaudacion(caller) == Ok::<
                    Seq<(CategoriasSocios, u128)>,
                    ErrorClub,
                >(r@),
                Err(e) => self@.informe_recaudacion(caller) == Err::<
                    Seq<(CategoriasSocios, u128)>,
                    ErrorClub,
                >(e),
            },
    {
        if !self.verificar_permisos(caller) {
            return Err(ErrorClub::PermissionDenied);
        }
        Ok(recaudacion_por_categoria(&self.socios, &self.pagos))
    }

    /// The members who may take part in the activity that `id_actividad` names and are
    /// not in arrears at time `ahora`, in the order of the registry.
    ///
    /// Fails where the caller may not operate, and then where the code names no
    /// activity.
    pub fn informe_actividad(
        &self,
        caller: AccountId,
        ahora: u64,
        id_actividad: u32,
    ) -> (resultado: Result<Vec<Socio>, ErrorClub>)
        ensures
            match resultado {
                Ok(r) => self@.informe_actividad(caller, ahora, id_actividad) == Ok::<
                    Seq<Socio>,
                    ErrorClub,
                >(r@),
                Err(e) => self@.informe_actividad(caller, ahora, id_actividad) == Err::<
                    Seq<Socio>,
                    ErrorClub,
                >(e),
            },
    {
        if !self.verificar_permisos(caller) {
            return Err(ErrorClub::PermissionDenied);
        }
        socios_no_morosos_por_actividad(&self.socios, &self.pagos, ahora, id_actividad)
    }
}

} // verus!
