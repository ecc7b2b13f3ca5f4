//! One record of the payment ledger.

use vstd::prelude::*;

verus! {

/// A payment owed or made by a member.
///
/// A payment is pending while `fecha_pago` is `None`, and settled from the moment it
/// holds the time of settlement.
#[derive(Clone, Copy, Debug, PartialEq, Eq, Structural)]
pub struct Pago {
    /// The member the payment belongs to.
    pub dni: u32,
    /// The amount owed.
    pub monto: u128,
    /// The time by which it is due, in milliseconds.
    pub fecha_venci: u64,
    /// The time at which it was settled, if it was.
    pub fecha_pago: Option<u64>,
    /// Whether the discount was taken off the amount.
    pub bonificado: bool,
}

impl Pago {
    /// Whether the payment has not been settled.
    pub open spec fn pendiente(self) -> bool {
        self.fecha_pago is None
    }

    /// Whether the payment is pending and past its due date at time `ahora`.
    pub open spec fn vencido(self, ahora: u64) -> bool {
        self.pendiente() && self.fecha_venci < ahora
    }

    /// Whether the payment counts towards a discount: settled, no later than its due
    /// date, and not itself discounted.
    pub open spec fn pagado_en_termino(self) -> bool {
        match self.fecha_pago {
            Some(fecha) => fecha <= self.fecha_venci && !self.bonificado,
            None => false,
        }
    }

    /// This payment, settled at time `fecha`.
    pub open spec fn saldado(self, fecha: u64) -> Pago {
        Pago { fecha_pago: Some(fecha), ..self }
    }

    /// A payment with the given fields.
    pub fn new(
        dni: u32,
        monto: u128,
        fecha_venci: u64,
        fecha_pago: Option<u64>,
        bonificado: bool,
    ) -> (pago: Pago)
        ensures
            pago == (Pago { dni, monto, fecha_venci, fecha_pago, bonificado }),
    {
        Pago { dni, monto, fecha_venci, fecha_pago, bonificado }
    }

    /// The member the payment belongs to.
    pub fn get_dni_socio(&self) -> (dni: u32)
        ensures
            dni == self.dni,
    {
        self.dni
    }

    /// The amount owed.
    pub fn get_monto(&self) -> (monto: u128)
        ensures
            monto == self.monto,
    {
        self.monto
    }

    /// The due date.
    pub fn get_fecha_venci(&self) -> (fecha: u64)
        ensures
            fecha == self.fecha_venci,
    {
        self.fecha_venci
    }

    /// The time of settlement, if the payment is settled.
    pub fn get_fecha_pago(&self) -> (fecha: Option<u64>)
        ensures
            fecha == self.fecha_pago,
    {
        self.fecha_pago
    }

    /// Settles the payment at time `fecha_pago`; nothing else changes.
    pub fn set_fecha_pago(&mut self, fecha_pago: u64)
        ensures
            *final(self) == old(self).saldado(fecha_pago),
    {
        self.fecha_pago = Some(fecha_pago);
    }

    /// Whether the payment has not been settled.
    pub fn esta_pendiente(&self) -> (pendiente: bool)
        ensures
            pendiente == self.pendiente(),
    {
        self.fecha_pago.is_none()
    }

    /// Whether the payment counts towards a discount.
    pub fn fue_pagado_en_termino(&self) -> (en_termino: bool)
        ensures
            en_termino == self.pagado_en_termino(),
    {
        match self.fecha_pago {
            Some(fecha) => fecha <= self.fecha_venci && !self.bonificado,
            None => false,
        }
    }
}

} // verus!
