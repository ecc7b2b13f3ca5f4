//! Prices per category and the terms of the discount.

use vstd::prelude::*;
use crate::categorias::CategoriasSocios;

verus! {

/// What the club charges: a monthly price per category, the amount of the discount, and
/// the number of consecutive payments in time that earn it.
#[derive(Clone, Copy, Debug, PartialEq, Eq, Structural)]
pub struct CostosCategoria {
    /// Price of category A.
    pub a: u128,
    /// Price of category B.
    pub b: u128,
    /// Price of category C.
    pub c: u128,
    /// Amount taken off a discounted payment.
    pub beneficio: u128,
    /// Consecutive payments in time needed for the discount.
    pub pagos_consecutivos_para_beneficio: u8,
}

impl CostosCategoria {
    /// The price of a category.
    pub open spec fn costo(self, categoria: CategoriasSocios) -> u128 {
        match categoria {
            CategoriasSocios::A => self.a,
            CategoriasSocios::B => self.b,
            CategoriasSocios::C => self.c,
        }
    }

    /// These costs with the price of `categoria` replaced by `nuevo_valor`.
    pub open spec fn con_costo(self, nuevo_valor: u128, categoria: CategoriasSocios) -> CostosCategoria {
        match categoria {
            CategoriasSocios::A => CostosCategoria { a: nuevo_valor, ..self },
            CategoriasSocios::B => CostosCategoria { b: nuevo_valor, ..self },
            CategoriasSocios::C => CostosCategoria { c: nuevo_valor, ..self },
        }
    }

    /// Costs with the given prices and discount terms.
    pub fn new(
        val_a: u128,
        val_b: u128,
        val_c: u128,
        valor_beneficio: u128,
        pagos_consecutivos_para_beneficio: u8,
    ) -> (costos: CostosCategoria)
        ensures
            costos == (CostosCategoria {
                a: val_a,
                b: val_b,
                c: val_c,
                beneficio: valor_beneficio,
                pagos_consecutivos_para_beneficio,
            }),
    {
        CostosCategoria {
            a: val_a,
            b: val_b,
            c: val_c,
            beneficio: valor_beneficio,
            pagos_consecutivos_para_beneficio,
        }
    }

    /// Replaces the price of one category and leaves the rest as it was. Always succeeds.
    pub fn set_costo(&mut self, nuevo_valor: u128, categoria: &CategoriasSocios) -> (hecho: bool)
        ensures
            hecho,
            *final(self) == old(self).con_costo(nuevo_valor, *categoria),
    {
        match categoria {
            CategoriasSocios::A => {
                self.a = nuevo_valor;
            },
            CategoriasSocios::B => {
                self.b = nuevo_valor;
            },
            CategoriasSocios::C => {
                self.c = nuevo_valor;
            },
        }
        true
    }

    /// The price of a category.
    pub fn get_costo(&self, categoria: &CategoriasSocios) -> (costo: u128)
        ensures
            costo == self.costo(*categoria),
    {
        match categoria {
            CategoriasSocios::A => self.a,
            CategoriasSocios::B => self.b,
            CategoriasSocios::C => self.c,
        }
    }

    /// Replaces the amount of the discount. Always succeeds.
    pub fn set_beneficio(&mut self, nuevo_beneficio: u128) -> (hecho: bool)
        ensures
            hecho,
            *final(self) == (CostosCategoria { beneficio: nuevo_beneficio, ..*old(self) }),
    {
        self.beneficio = nuevo_beneficio;
        true
    }

    /// Replaces the number of consecutive payments in time that earn the discount.
    /// Always succeeds.
    pub fn set_pagos_consecutivos_para_beneficio(&mut self, nuevo_valor: u8) -> (hecho: bool)
        ensures
            hecho,
            *final(self) == (CostosCategoria {
                pagos_consecutivos_para_beneficio: nuevo_valor,
                ..*old(self)
            }),
    {
        self.pagos_consecutivos_para_beneficio = nuevo_valor;
        true
    }
}

} // verus!
