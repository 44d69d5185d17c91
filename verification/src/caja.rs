//! Ciclo de caja: sesión con apertura y **cierre a ciegas**; el sistema calcula
//! y muestra, el humano decide. El corte cerrado es **inmutable**.
//!
//! `esperado = fondo + ventas_efectivo − gastos_autorizados`. Solo el efectivo
//! alimenta el arqueo; transferencia y depósito son informativos. No hay
//! sanción automática: un gasto no autorizado no se resta y por eso **aparece
//! como faltante** por pura aritmética.

use vstd::prelude::*;

use crate::acceso::{resultado_requiere_en, resultado_usuario, ContextoAcceso, Permiso};
use crate::error::ErrorDominio;
use crate::externo::nuevo_id;
use crate::folio::Folio;
use crate::texto::cadena;
use crate::tiempo::Instante;
use crate::unidades::Centavos;

verus! {

#[derive(Debug, Clone, Copy, PartialEq, Eq, Structural)]
pub enum EstadoSesion {
    Abierta,
    Cerrada,
}

/// Ventas del período clasificadas por método de pago.
#[derive(Debug, Clone, Copy, PartialEq, Eq, Structural)]
pub struct ResumenVentas {
    pub efectivo: Centavos,
    pub transferencia: Centavos,
    pub deposito: Centavos,
}

impl ResumenVentas {
    /// Total vendido por los tres métodos.
    pub fn total(&self) -> (r: Centavos)
        requires
            i64::MIN <= self.efectivo.0 + self.transferencia.0 + self.deposito.0 <= i64::MAX,
            i64::MIN <= self.efectivo.0 + self.transferencia.0 <= i64::MAX,
        ensures
            r.0 == self.efectivo.0 + self.transferencia.0 + self.deposito.0,
    {
        self.efectivo.mas(self.transferencia).mas(self.deposito)
    }
}

impl Default for ResumenVentas {
    fn default() -> (r: ResumenVentas)
        ensures
            r.efectivo.0 == 0 && r.transferencia.0 == 0 && r.deposito.0 == 0,
    {
        ResumenVentas {
            efectivo: Centavos::cero(),
            transferencia: Centavos::cero(),
            deposito: Centavos::cero(),
        }
    }
}

/// El efectivo que debe haber en caja al cierre.
pub open spec fn esperado_de(fondo: int, ventas_efectivo: int, gastos_autorizados: int) -> int {
    fondo + ventas_efectivo - gastos_autorizados
}

/// Foto histórica del arqueo al cerrar la sesión. Inmutable.
pub struct Corte {
    pub folio: Folio,
    pub fondo_apertura: Centavos,
    pub ventas: ResumenVentas,
    pub gastos_autorizados: Centavos,
    pub esperado: Centavos,
    pub contado: Centavos,
    /// `contado − esperado`: negativo es faltante, positivo sobrante.
    pub diferencia: Centavos,
}

impl Corte {
    /// Venta neta en efectivo: las ventas cobradas en efectivo (el fondo NO es venta).
    pub fn venta_neta_efectivo(&self) -> (r: Centavos)
        ensures
            r == self.ventas.efectivo,
    {
        self.ventas.efectivo
    }

    pub fn es_faltante(&self) -> (r: bool)
        ensures
            r == (self.diferencia.0 < 0),
    {
        self.diferencia.get() < 0
    }
}

/// Sesión de caja: una por sucursal (un cajero = una caja). Define "el día".
pub struct SesionCaja {
    pub id: u128,
    pub sucursal: u128,
    pub cajero: u128,
    pub fondo_apertura: Centavos,
    pub abierta_en: Instante,
    pub estado: EstadoSesion,
    pub corte: Option<Corte>,
    pub cerrada_en: Option<Instante>,
    pub actualizado: Instante,
}

/// ¿Caben en `i64` el esperado y la diferencia del corte?
pub open spec fn corte_representable(
    fondo: int,
    ventas_efectivo: int,
    gastos_autorizados: int,
    contado: int,
) -> bool {
    &&& i64::MIN <= fondo + ventas_efectivo <= i64::MAX
    &&& i64::MIN <= esperado_de(fondo, ventas_efectivo, gastos_autorizados) <= i64::MAX
    &&& i64::MIN <= contado - esperado_de(fondo, ventas_efectivo, gastos_autorizados)
        <= i64::MAX
}

impl SesionCaja {
    /// Abre la sesión con el fondo autodeclarado. La regla de "a lo sumo una
    /// abierta por sucursal" la hace cumplir el almacenamiento (ve las demás).
    pub fn abrir(ctx: &ContextoAcceso, sucursal: u128, fondo: Centavos, ahora: Instante) -> (r:
        Result<SesionCaja, ErrorDominio>)
        ensures
            resultado_requiere_en(*ctx, Permiso::OperarCaja, sucursal) matches Err(e) ==> r
                == Err::<SesionCaja, ErrorDominio>(e),
            resultado_usuario(ctx.actor) matches Err(e) ==> (resultado_requiere_en(
                *ctx,
                Permiso::OperarCaja,
                sucursal,
            ) is Ok ==> r == Err::<SesionCaja, ErrorDominio>(e)),
            resultado_requiere_en(*ctx, Permiso::OperarCaja, sucursal) is Ok && resultado_usuario(
                ctx.actor,
            ) is Ok && fondo.0 < 0 ==> (r matches Err(ErrorDominio::Invalido(m)) && m@
                == "el fondo de apertura no puede ser negativo"@),
            resultado_usuario(ctx.actor) matches Ok(u) ==> (resultado_requiere_en(
                *ctx,
                Permiso::OperarCaja,
                sucursal,
            ) is Ok && fondo.0 >= 0 ==> (r matches Ok(s) && s.sucursal == sucursal && s.cajero
                == u && s.fondo_apertura == fondo && s.abierta_en == ahora && s.estado
                == EstadoSesion::Abierta && s.corte is None && s.cerrada_en is None
                && s.actualizado == ahora)),
    {
        match ctx.requiere_en(Permiso::OperarCaja, sucursal) {
            Ok(()) => {},
            Err(e) => {
                return Err(e);
            },
        }
        let cajero = match ctx.usuario() {
            Ok(u) => u,
            Err(e) => {
                return Err(e);
            },
        };
        if fondo.get() < 0 {
            return Err(ErrorDominio::Invalido(cadena("el fondo de apertura no puede ser negativo")));
        }
        Ok(
            SesionCaja {
                id: nuevo_id(),
                sucursal,
                cajero,
                fondo_apertura: fondo,
                abierta_en: ahora,
                estado: EstadoSesion::Abierta,
                corte: None,
                cerrada_en: None,
                actualizado: ahora,
            },
        )
    }

    /// Cierra la sesión (corte). El cajero captura solo su efectivo contado; no
    /// se le devuelve el corte (**cierre a ciegas**): para verlo hace falta
    /// `VerConciliacion`. Una sesión cerrada no se re-cierra (inmutable).
    pub fn cerrar(
        &mut self,
        ctx: &ContextoAcceso,
        contado: Centavos,
        ventas: ResumenVentas,
        gastos_autorizados: Centavos,
        folio: Folio,
        ahora: Instante,
    ) -> (r: Result<(), ErrorDominio>)
        requires
            old(self).estado == EstadoSesion::Abierta ==> corte_representable(
                old(self).fondo_apertura.0 as int,
                ventas.efectivo.0 as int,
                gastos_autorizados.0 as int,
                contado.0 as int,
            ),
        ensures
            resultado_requiere_en(*ctx, Permiso::OperarCaja, old(self).sucursal) matches Err(e)
                ==> r == Err::<(), ErrorDominio>(e) && *final(self) == *old(self),
            resultado_requiere_en(*ctx, Permiso::OperarCaja, old(self).sucursal) is Ok && old(self).estado == EstadoSesion::Cerrada ==> (r matches Err(ErrorDominio::TransicionInvalida(m))
                && m@ == "la sesión ya está cerrada"@ && *final(self) == *old(self)),
            resultado_requiere_en(*ctx, Permiso::OperarCaja, old(self).sucursal) is Ok && old(
                self).estado == EstadoSesion::Abierta ==> (r is Ok && final(self).estado
                == EstadoSesion::Cerrada && final(self).cerrada_en == Some(ahora)
                && final(self).actualizado == ahora && final(self).id == old(self).id
                && final(self).sucursal == old(self).sucursal && final(self).cajero == old(
                self).cajero && final(self).fondo_apertura == old(self).fondo_apertura
                && final(self).abierta_en == old(self).abierta_en),
            resultado_requiere_en(*ctx, Permiso::OperarCaja, old(self).sucursal) is Ok && old(
                self).estado == EstadoSesion::Abierta ==> (final(self).corte matches Some(c)
                && c.folio@ == folio@ && c.fondo_apertura == old(self).fondo_apertura && c.ventas
                == ventas && c.gastos_autorizados == gastos_autorizados && c.esperado.0
                == esperado_de(
                old(self).fondo_apertura.0 as int,
                ventas.efectivo.0 as int,
                gastos_autorizados.0 as int,
            ) && c.contado == contado && c.diferencia.0 == contado.0 - c.esperado.0),
    {
        match ctx.requiere_en(Permiso::OperarCaja, self.sucursal) {
            Ok(()) => {},
            Err(e) => {
                return Err(e);
            },
        }
        if self.estado == EstadoSesion::Cerrada {
            return Err(ErrorDominio::TransicionInvalida(cadena("la sesión ya está cerrada")));
        }
        let esperado = self.fondo_apertura.mas(ventas.efectivo).menos(gastos_autorizados);
        let diferencia = contado.menos(esperado);
        self.corte = Some(
            Corte {
                folio,
                fondo_apertura: self.fondo_apertura,
                ventas,
                gastos_autorizados,
                esperado,
                contado,
                diferencia,
            },
        );
        self.estado = EstadoSesion::Cerrada;
        self.cerrada_en = Some(ahora);
        self.actualizado = ahora;
        Ok(())
    }

    /// Revela la conciliación (esperado/diferencia): permiso del administrador,
    /// no del cajero (cierre a ciegas).
    pub fn ver_conciliacion(&self, ctx: &ContextoAcceso) -> (r: Result<&Corte, ErrorDominio>)
        ensures
            resultado_requiere_en(*ctx, Permiso::VerConciliacion, self.sucursal) matches Err(e)
                ==> r == Err::<&Corte, ErrorDominio>(e),
            resultado_requiere_en(*ctx, Permiso::VerConciliacion, self.sucursal) is Ok
                && self.corte is None ==> (r matches Err(ErrorDominio::Regla(m)) && m@
                == "la sesión aún no tiene corte"@),
            self.corte matches Some(c) ==> (resultado_requiere_en(
                *ctx,
                Permiso::VerConciliacion,
                self.sucursal,
            ) is Ok ==> (r matches Ok(v) && *v == c)),
    {
        match ctx.requiere_en(Permiso::VerConciliacion, self.sucursal) {
            Ok(()) => {},
            Err(e) => {
                return Err(e);
            },
        }
        match &self.corte {
            Some(c) => Ok(c),
            None => Err(ErrorDominio::Regla(cadena("la sesión aún no tiene corte"))),
        }
    }
}

} // verus!
