//! Conversion of a count of time units into milliseconds.

use vstd::prelude::*;

verus! {

/// Milliseconds in one second.
pub const MILISEGUNDOS_POR_SEGUNDO: u64 = 1000;

/// Seconds in one hour.
pub const SEGUNDOS_POR_HORA: u64 = 3600;

/// Seconds in one day.
pub const SEGUNDOS_POR_DIA: u64 = 86400;

/// Seconds in one week.
pub const SEGUNDOS_POR_SEMANA: u64 = 604800;

/// Seconds in one month of 30.44 days.
pub const SEGUNDOS_POR_MES: u64 = 2629743;

/// Seconds in one year of 365.24 days.
pub const SEGUNDOS_POR_ANIO: u64 = 31556926;

/// The milliseconds in `n` units of `segundos_por_unidad` seconds each.
pub open spec fn milisegundos(n: int, segundos_por_unidad: int) -> int {
    n * 1000 * segundos_por_unidad
}

/// A count of time units that can be read as a number of milliseconds.
///
/// Each method reads `self` as a count of the unit in its name. The count must
/// be small enough for the milliseconds to fit in a `u64`.
pub trait ConversionFecha {
    /// The count that `self` stands for.
    spec fn cantidad(&self) -> int;

    /// `self` seconds, in milliseconds.
    fn from_segundos(&self) -> (ms: u64)
        requires
            0 <= milisegundos(self.cantidad(), 1) <= u64::MAX,
        ensures
            ms == milisegundos(self.cantidad(), 1),
    ;

    /// `self` hours, in milliseconds.
    fn from_horas(&self) -> (ms: u64)
        requires
            0 <= milisegundos(self.cantidad(), 3600) <= u64::MAX,
        ensures
            ms == milisegundos(self.cantidad(), 3600),
    ;

    /// `self` days, in milliseconds.
    fn from_dias(&self) -> (ms: u64)
        requires
            0 <= milisegundos(self.cantidad(), 86400) <= u64::MAX,
        ensures
            ms == milisegundos(self.cantidad(), 86400),
    ;

    /// `self` weeks, in milliseconds.
    fn from_semanas(&self) -> (ms: u64)
        requires
            0 <= milisegundos(self.cantidad(), 604800) <= u64::MAX,
        ensures
            ms == milisegundos(self.cantidad(), 604800),
    ;

    /// `self` months, in milliseconds.
    fn from_meses(&self) -> (ms: u64)
        requires
            0 <= milisegundos(self.cantidad(), 2629743) <= u64::MAX,
        ensures
            ms == milisegundos(self.cantidad(), 2629743),
    ;

    /// `self` years, in milliseconds.
    fn from_anios(&self) -> (ms: u64)
        requires
            0 <= milisegundos(self.cantidad(), 31556926) <= u64::MAX,
        ensures
            ms == milisegundos(self.cantidad(), 31556926),
    ;
}

impl ConversionFecha for u64 {
    open spec fn cantidad(&self) -> int {
        *self as int
    }

    fn from_segundos(&self) -> (ms: u64) {
        *self * MILISEGUNDOS_POR_SEGUNDO
    }

    fn from_horas(&self) -> (ms: u64) {
        assert(*self * 1000 <= *self * 1000 * 3600) by (nonlinear_arith);
        self.from_segundos() * SEGUNDOS_POR_HORA
    }

    fn from_dias(&self) -> (ms: u64) {
        assert(*self * 1000 <= *self * 1000 * 86400) by (nonlinear_arith);
        self.from_segundos() * SEGUNDOS_POR_DIA
    }

    fn from_semanas(&self) -> (ms: u64) {
        assert(*self * 1000 <= *self * 1000 * 604800) by (nonlinear_arith);
        self.from_segundos() * SEGUNDOS_POR_SEMANA
    }

    fn from_meses(&self) -> (ms: u64) {
        assert(*self * 1000 <= *self * 1000 * 2629743) by (nonlinear_arith);
        self.from_segundos() * SEGUNDOS_POR_MES
    }

    fn from_anios(&self) -> (ms: u64) {
        assert(*self * 1000 <= *self * 1000 * 31556926) by (nonlinear_arith);
        self.from_segundos() * SEGUNDOS_POR_ANIO
    }
}

/// Ten days in milliseconds: the term of a member's first payment.
pub const DIEZ_DIAS: u64 = 864000000;

/// Thirty days in milliseconds: the billing period, and the term of a monthly payment.
pub const TREINTA_DIAS: u64 = 2592000000;

/// The two named periods are what the conversion gives for 10 and 30 days.
pub proof fn lema_periodos()
    ensures
        DIEZ_DIAS == milisegundos(10, 86400),
        TREINTA_DIAS == milisegundos(30, 86400),
{
}

} // verus!
