//! Notificaciones del **sistema a usuarios**: bandeja mínima por sucursal, no
//! bloqueante, con marcar-leída a nivel sucursal. Es un mecanismo distinto del
//! subsistema de autorizaciones (que resuelve solicitudes).

use vstd::prelude::*;
use vstd::string::StrSliceExecFns;

use crate::acceso::{Actor, ContextoAcceso};
use crate::error::ErrorDominio;
use crate::externo::nuevo_id;
use crate::texto::{cadena, recortar, recorte};
use crate::tiempo::Instante;

verus! {

/// Tipo de notificación. Extensible por variante: `PorVencer` la emite el
/// barrido de caducidad y `DiscrepanciaEnvio` la recepción con faltantes.
#[derive(Debug, Clone, Copy, PartialEq, Eq, Structural)]
pub enum TipoNotificacion {
    PorVencer,
    DiscrepanciaEnvio,
}

/// Un aviso operativo dirigido a la bandeja de una sucursal. Se marca leída
/// **por sucursal** (es del local, no correo personal) y nunca se borra.
pub struct Notificacion {
    pub id: u128,
    pub tipo: TipoNotificacion,
    pub mensaje: String,
    pub sucursal: u128,
    pub creado: Instante,
    pub leida_en: Option<Instante>,
    pub actualizado: Instante,
}

/// La notificación tras marcarla leída en `ahora`: si ya lo estaba, igual.
pub open spec fn tras_marcar(n: Notificacion, ahora: Instante) -> Notificacion {
    if n.leida_en is None {
        Notificacion { leida_en: Some(ahora), actualizado: ahora, ..n }
    } else {
        n
    }
}

impl Notificacion {
    /// Emite una notificación: **solo el sistema**; el mensaje (recortado) no
    /// puede estar vacío. Nace no leída.
    pub fn emitir(
        ctx: &ContextoAcceso,
        tipo: TipoNotificacion,
        mensaje: &str,
        sucursal: u128,
        ahora: Instante,
    ) -> (r: Result<Notificacion, ErrorDominio>)
        ensures
            ctx.actor != Actor::Sistema ==> (r matches Err(ErrorDominio::Regla(m)) && m@
                == "solo el sistema emite notificaciones"@),
            ctx.actor == Actor::Sistema && recorte(mensaje@).len() == 0 ==> (r matches Err(
                ErrorDominio::Invalido(m),
            ) && m@ == "el mensaje de la notificación es obligatorio"@),
            ctx.actor == Actor::Sistema && recorte(mensaje@).len() != 0 ==> (r matches Ok(n)
                && n.tipo == tipo && n.mensaje@ == recorte(mensaje@) && n.sucursal == sucursal
                && n.creado == ahora && n.leida_en is None && n.actualizado == ahora),
    {
        if ctx.actor != Actor::Sistema {
            return Err(ErrorDominio::Regla(cadena("solo el sistema emite notificaciones")));
        }
        let m = recortar(mensaje);
        if m.unicode_len() == 0 {
            return Err(
                ErrorDominio::Invalido(cadena("el mensaje de la notificación es obligatorio")),
            );
        }
        Ok(
            Notificacion {
                id: nuevo_id(),
                tipo,
                mensaje: cadena(m),
                sucursal,
                creado: ahora,
                leida_en: None,
                actualizado: ahora,
            },
        )
    }

    /// Marca la notificación como leída. **Idempotente**: una ya leída conserva
    /// su marca de tiempo original.
    pub fn marcar_leida(&mut self, ahora: Instante)
        ensures
            *final(self) == tras_marcar(*old(self), ahora),
    {
        if self.leida_en.is_none() {
            self.leida_en = Some(ahora);
            self.actualizado = ahora;
        }
    }

    pub fn leida(&self) -> (r: bool)
        ensures
            r == self.leida_en is Some,
    {
        self.leida_en.is_some()
    }
}

/// Marcar leída es idempotente: la segunda marca no cambia nada y la primera
/// marca de tiempo se conserva.
pub proof fn ley_marcar_idempotente(n: Notificacion, t1: Instante, t2: Instante)
    ensures
        tras_marcar(tras_marcar(n, t1), t2) == tras_marcar(n, t1),
        tras_marcar(n, t1).leida_en is Some,
        n.leida_en is Some ==> tras_marcar(n, t1).leida_en == n.leida_en,
{
}

} // verus!
