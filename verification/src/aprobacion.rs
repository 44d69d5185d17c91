//! Aprobación **concreta de gastos** con máquina de estados reutilizable.
//!
//! `pendiente → aprobada | rechazada | cancelada`; los tres finales son
//! terminales e inmutables. Autorizar es autoridad administrativa: exige
//! `AutorizarGasto` + alcance sobre la sucursal del gasto (el cajero no lo
//! porta). El solicitante no resuelve lo suyo salvo `AutoaprobarGasto`; cancelar
//! lo hace un aprobador, nunca el solicitante.

use vstd::prelude::*;
use vstd::string::StrSliceExecFns;

use crate::acceso::{resultado_requiere_en, resultado_usuario, ContextoAcceso, Permiso};
use crate::error::ErrorDominio;
use crate::externo::nuevo_id;
use crate::texto::{cadena, recortar, recorte};
use crate::tiempo::Instante;

verus! {

#[derive(Debug, Clone, Copy, PartialEq, Eq, Structural)]
pub enum EstadoAprobacion {
    Pendiente,
    Aprobada,
    Rechazada,
    Cancelada,
}

/// ¿Es un estado final (ya resuelto)?
pub open spec fn terminal(e: EstadoAprobacion) -> bool {
    e != EstadoAprobacion::Pendiente
}

impl EstadoAprobacion {
    pub fn es_terminal(self) -> (r: bool)
        ensures
            r == terminal(self),
    {
        match self {
            EstadoAprobacion::Pendiente => false,
            _ => true,
        }
    }
}

/// Solicitud de aprobación ligada a un gasto y al alcance de su sucursal.
pub struct Aprobacion {
    pub id: u128,
    pub gasto: u128,
    pub sucursal: u128,
    pub solicitante: u128,
    pub estado: EstadoAprobacion,
    pub resolutor: Option<u128>,
    pub resuelto_en: Option<Instante>,
    pub motivo: Option<String>,
    pub actualizado: Instante,
}

/// Quién puede aprobar o rechazar: porta `AutorizarGasto` con alcance sobre la
/// sucursal, es un usuario, y no es el solicitante salvo que porte
/// `AutoaprobarGasto`.
pub open spec fn autoridad_resolver(ctx: ContextoAcceso, a: Aprobacion) -> Result<u128, ErrorDominio> {
    match resultado_requiere_en(ctx, Permiso::AutorizarGasto, a.sucursal) {
        Err(e) => Err(e),
        Ok(_) => match resultado_usuario(ctx.actor) {
            Err(e) => Err(e),
            Ok(u) => if u == a.solicitante && !ctx.permisos@.contains(Permiso::AutoaprobarGasto) {
                Err(ErrorDominio::SegregacionDeDeberes)
            } else {
                Ok(u)
            },
        },
    }
}

/// Quién puede cancelar: como para resolver, pero **nunca** el solicitante.
pub open spec fn autoridad_cancelar(ctx: ContextoAcceso, a: Aprobacion) -> Result<u128, ErrorDominio> {
    match resultado_requiere_en(ctx, Permiso::AutorizarGasto, a.sucursal) {
        Err(e) => Err(e),
        Ok(_) => match resultado_usuario(ctx.actor) {
            Err(e) => Err(e),
            Ok(u) => if u == a.solicitante {
                Err(ErrorDominio::SegregacionDeDeberes)
            } else {
                Ok(u)
            },
        },
    }
}

/// El mensaje con que se rechaza re-resolver una aprobación en estado `e`.
pub open spec fn msj_terminal(e: EstadoAprobacion) -> Seq<char> {
    match e {
        EstadoAprobacion::Pendiente => "la aprobación ya está Pendiente y no se re-resuelve"@,
        EstadoAprobacion::Aprobada => "la aprobación ya está Aprobada y no se re-resuelve"@,
        EstadoAprobacion::Rechazada => "la aprobación ya está Rechazada y no se re-resuelve"@,
        EstadoAprobacion::Cancelada => "la aprobación ya está Cancelada y no se re-resuelve"@,
    }
}

/// Mensaje del rechazo por motivo vacío.
pub open spec fn msj_motivo() -> Seq<char> {
    "el motivo es obligatorio"@
}

/// `b` es `a` resuelta por `resolutor` en `ahora`, en el estado `estado` y con
/// el motivo dado; lo demás queda igual.
pub open spec fn resuelta(
    a: Aprobacion,
    b: Aprobacion,
    estado: EstadoAprobacion,
    resolutor: u128,
    ahora: Instante,
) -> bool {
    &&& b.estado == estado
    &&& b.resolutor == Some(resolutor)
    &&& b.resuelto_en == Some(ahora)
    &&& b.actualizado == ahora
    &&& b.id == a.id
    &&& b.gasto == a.gasto
    &&& b.sucursal == a.sucursal
    &&& b.solicitante == a.solicitante
}

impl Aprobacion {
    /// Nace `pendiente` al registrarse el gasto.
    pub fn pendiente(gasto: u128, sucursal: u128, solicitante: u128, ahora: Instante) -> (r:
        Aprobacion)
        ensures
            r.gasto == gasto,
            r.sucursal == sucursal,
            r.solicitante == solicitante,
            r.estado == EstadoAprobacion::Pendiente,
            r.resolutor is None,
            r.resuelto_en is None,
            r.motivo is None,
            r.actualizado == ahora,
    {
        Aprobacion {
            id: nuevo_id(),
            gasto,
            sucursal,
            solicitante,
            estado: EstadoAprobacion::Pendiente,
            resolutor: None,
            resuelto_en: None,
            motivo: None,
            actualizado: ahora,
        }
    }

    /// Aprueba: el gasto pasa a autorizado (restará en su corte).
    pub fn aprobar(&mut self, ctx: &ContextoAcceso, ahora: Instante) -> (r: Result<(), ErrorDominio>)
        ensures
            autoridad_resolver(*ctx, *old(self)) matches Err(e) ==> r == Err::<(), ErrorDominio>(e)
                && *final(self) == *old(self),
            autoridad_resolver(*ctx, *old(self)) is Ok && terminal(old(self).estado) ==> (r matches Err(
                ErrorDominio::TransicionInvalida(m),
            ) && m@ == msj_terminal(old(self).estado) && *final(self) == *old(self)),
            autoridad_resolver(*ctx, *old(self)) matches Ok(u) ==> (!terminal(old(self).estado) ==> (
            r is Ok && resuelta(*old(self), *final(self), EstadoAprobacion::Aprobada, u, ahora)
                && final(self).motivo is None)),
    {
        let resolutor = match self.autoridad_para_resolver(ctx) {
            Ok(u) => u,
            Err(e) => {
                return Err(e);
            },
        };
        match self.exigir_no_terminal() {
            Ok(()) => {},
            Err(e) => {
                return Err(e);
            },
        }
        self.estado = EstadoAprobacion::Aprobada;
        self.sellar(resolutor, None, ahora);
        Ok(())
    }

    /// Rechaza con motivo obligatorio.
    pub fn rechazar(&mut self, ctx: &ContextoAcceso, motivo: &str, ahora: Instante) -> (r: Result<
        (),
        ErrorDominio,
    >)
        ensures
            autoridad_resolver(*ctx, *old(self)) matches Err(e) ==> r == Err::<(), ErrorDominio>(e)
                && *final(self) == *old(self),
            autoridad_resolver(*ctx, *old(self)) is Ok && terminal(old(self).estado) ==> (r matches Err(
                ErrorDominio::TransicionInvalida(m),
            ) && m@ == msj_terminal(old(self).estado) && *final(self) == *old(self)),
            autoridad_resolver(*ctx, *old(self)) is Ok && !terminal(old(self).estado) && recorte(
                motivo@,
            ).len() == 0 ==> (r matches Err(ErrorDominio::Invalido(m)) && m@ == msj_motivo()
                && *final(self) == *old(self)),
            autoridad_resolver(*ctx, *old(self)) matches Ok(u) ==> (!terminal(old(self).estado)
                && recorte(motivo@).len() != 0 ==> (r is Ok && resuelta(
                *old(self),
                *final(self),
                EstadoAprobacion::Rechazada,
                u,
                ahora,
            ) && (final(self).motivo matches Some(t) && t@ == recorte(motivo@)))),
    {
        let resolutor = match self.autoridad_para_resolver(ctx) {
            Ok(u) => u,
            Err(e) => {
                return Err(e);
            },
        };
        match self.exigir_no_terminal() {
            Ok(()) => {},
            Err(e) => {
                return Err(e);
            },
        }
        let motivo = match Self::motivo_valido(motivo) {
            Ok(m) => m,
            Err(e) => {
                return Err(e);
            },
        };
        self.estado = EstadoAprobacion::Rechazada;
        self.sellar(resolutor, Some(motivo), ahora);
        Ok(())
    }

    /// Cancela (gasto por error) con motivo. La resuelve un aprobador, **nunca**
    /// el solicitante (sin excepción de auto-aprobación).
    pub fn cancelar(&mut self, ctx: &ContextoAcceso, motivo: &str, ahora: Instante) -> (r: Result<
        (),
        ErrorDominio,
    >)
        ensures
            autoridad_cancelar(*ctx, *old(self)) matches Err(e) ==> r == Err::<(), ErrorDominio>(e)
                && *final(self) == *old(self),
            autoridad_cancelar(*ctx, *old(self)) is Ok && terminal(old(self).estado) ==> (r matches Err(
                ErrorDominio::TransicionInvalida(m),
            ) && m@ == msj_terminal(old(self).estado) && *final(self) == *old(self)),
            autoridad_cancelar(*ctx, *old(self)) is Ok && !terminal(old(self).estado) && recorte(
                motivo@,
            ).len() == 0 ==> (r matches Err(ErrorDominio::Invalido(m)) && m@ == msj_motivo()
                && *final(self) == *old(self)),
            autoridad_cancelar(*ctx, *old(self)) matches Ok(u) ==> (!terminal(old(self).estado)
                && recorte(motivo@).len() != 0 ==> (r is Ok && resuelta(
                *old(self),
                *final(self),
                EstadoAprobacion::Cancelada,
                u,
                ahora,
            ) && (final(self).motivo matches Some(t) && t@ == recorte(motivo@)))),
    {
        match ctx.requiere_en(Permiso::AutorizarGasto, self.sucursal) {
            Ok(()) => {},
            Err(e) => {
                return Err(e);
            },
        }
        let resolutor = match ctx.usuario() {
            Ok(u) => u,
            Err(e) => {
                return Err(e);
            },
        };
        if resolutor == self.solicitante {
            return Err(ErrorDominio::SegregacionDeDeberes);
        }
        match self.exigir_no_terminal() {
            Ok(()) => {},
            Err(e) => {
                return Err(e);
            },
        }
        let motivo = match Self::motivo_valido(motivo) {
            Ok(m) => m,
            Err(e) => {
                return Err(e);
            },
        };
        self.estado = EstadoAprobacion::Cancelada;
        self.sellar(resolutor, Some(motivo), ahora);
        Ok(())
    }

    /// ¿El gasto ligado está autorizado?
    pub fn autorizado(&self) -> (r: bool)
        ensures
            r == (self.estado == EstadoAprobacion::Aprobada),
    {
        self.estado == EstadoAprobacion::Aprobada
    }

    /// Comprueba permiso + alcance + segregación de deberes para aprobar/rechazar.
    fn autoridad_para_resolver(&self, ctx: &ContextoAcceso) -> (r: Result<u128, ErrorDominio>)
        ensures
            r == autoridad_resolver(*ctx, *self),
    {
        match ctx.requiere_en(Permiso::AutorizarGasto, self.sucursal) {
            Ok(()) => {},
            Err(e) => {
                return Err(e);
            },
        }
        let resolutor = match ctx.usuario() {
            Ok(u) => u,
            Err(e) => {
                return Err(e);
            },
        };
        if resolutor == self.solicitante && !ctx.tiene(Permiso::AutoaprobarGasto) {
            return Err(ErrorDominio::SegregacionDeDeberes);
        }
        Ok(resolutor)
    }

    fn exigir_no_terminal(&self) -> (r: Result<(), ErrorDominio>)
        ensures
            !terminal(self.estado) ==> r is Ok,
            terminal(self.estado) ==> (r matches Err(ErrorDominio::TransicionInvalida(m)) && m@
                == msj_terminal(self.estado)),
    {
        match self.estado {
            EstadoAprobacion::Pendiente => Ok(()),
            EstadoAprobacion::Aprobada => Err(
                ErrorDominio::TransicionInvalida(
                    cadena("la aprobación ya está Aprobada y no se re-resuelve"),
                ),
            ),
            EstadoAprobacion::Rechazada => Err(
                ErrorDominio::TransicionInvalida(
                    cadena("la aprobación ya está Rechazada y no se re-resuelve"),
                ),
            ),
            EstadoAprobacion::Cancelada => Err(
                ErrorDominio::TransicionInvalida(
                    cadena("la aprobación ya está Cancelada y no se re-resuelve"),
                ),
            ),
        }
    }

    fn motivo_valido(motivo: &str) -> (r: Result<String, ErrorDominio>)
        ensures
            recorte(motivo@).len() == 0 ==> (r matches Err(ErrorDominio::Invalido(m)) && m@
                == msj_motivo()),
            recorte(motivo@).len() != 0 ==> (r matches Ok(t) && t@ == recorte(motivo@)),
    {
        let m = recortar(motivo);
        if m.unicode_len() == 0 {
            return Err(ErrorDominio::Invalido(cadena("el motivo es obligatorio")));
        }
        Ok(cadena(m))
    }

    fn sellar(&mut self, resolutor: u128, motivo: Option<String>, ahora: Instante)
        ensures
            final(self).resolutor == Some(resolutor),
            final(self).resuelto_en == Some(ahora),
            final(self).motivo == motivo,
            final(self).actualizado == ahora,
            final(self).id == old(self).id,
            final(self).gasto == old(self).gasto,
            final(self).sucursal == old(self).sucursal,
            final(self).solicitante == old(self).solicitante,
            final(self).estado == old(self).estado,
    {
        self.resolutor = Some(resolutor);
        self.resuelto_en = Some(ahora);
        self.motivo = motivo;
        self.actualizado = ahora;
    }
}

// ---------------- leyes ----------------

/// El solicitante nunca cancela lo suyo, y sin `AutoaprobarGasto` tampoco lo
/// aprueba ni lo rechaza.
pub proof fn ley_segregacion_de_deberes(ctx: ContextoAcceso, a: Aprobacion)
    requires
        ctx.actor == crate::acceso::Actor::Usuario(a.solicitante),
    ensures
        autoridad_cancelar(ctx, a) is Err,
        !ctx.permisos@.contains(Permiso::AutoaprobarGasto) ==> autoridad_resolver(ctx, a) is Err,
{
}

/// Quien puede cancelar también puede resolver: la autoridad para cancelar es
/// más estricta que la de aprobar o rechazar.
pub proof fn ley_cancelar_mas_estricto(ctx: ContextoAcceso, a: Aprobacion)
    requires
        autoridad_cancelar(ctx, a) is Ok,
    ensures
        autoridad_resolver(ctx, a) == autoridad_cancelar(ctx, a),
{
}

} // verus!
