//! Gastos: nacen **no autorizados** y sujetos a aprobación. Su autorización la
//! determina la `Aprobacion` ligada, no un flag propio (fuente única).

use vstd::prelude::*;
use vstd::string::StrSliceExecFns;

use crate::acceso::{resultado_requiere_en, resultado_usuario, ContextoAcceso, Permiso};
use crate::error::ErrorDominio;
use crate::externo::nuevo_id;
use crate::folio::Folio;
use crate::texto::{cadena, recortar, recorte};
use crate::tiempo::Instante;
use crate::unidades::Centavos;

verus! {

/// Un gasto registrado en una sesión de caja. El `folio` (tipo `G`) lo emite el
/// generador de la capa de almacenamiento y se asigna al confirmarse.
pub struct Gasto {
    pub id: u128,
    pub folio: Folio,
    pub monto: Centavos,
    pub concepto: String,
    pub cajero: u128,
    pub sucursal: u128,
    pub sesion: u128,
    pub registrado: Instante,
    pub actualizado: Instante,
}

impl Gasto {
    /// Registra un gasto en la sucursal indicada. Exige `RegistrarGasto` +
    /// alcance; el cajero es el usuario en sesión.
    pub fn registrar(
        ctx: &ContextoAcceso,
        folio: Folio,
        monto: Centavos,
        concepto: &str,
        sucursal: u128,
        sesion: u128,
        ahora: Instante,
    ) -> (r: Result<Gasto, ErrorDominio>)
        ensures
            resultado_requiere_en(*ctx, Permiso::RegistrarGasto, sucursal) matches Err(e) ==> r
                == Err::<Gasto, ErrorDominio>(e),
            resultado_usuario(ctx.actor) matches Err(e) ==> (resultado_requiere_en(
                *ctx,
                Permiso::RegistrarGasto,
                sucursal,
            ) is Ok ==> r == Err::<Gasto, ErrorDominio>(e)),
            resultado_requiere_en(*ctx, Permiso::RegistrarGasto, sucursal) is Ok
                && resultado_usuario(ctx.actor) is Ok && monto.0 <= 0 ==> (r matches Err(
                ErrorDominio::Invalido(m),
            ) && m@ == "el monto del gasto debe ser positivo"@),
            resultado_requiere_en(*ctx, Permiso::RegistrarGasto, sucursal) is Ok
                && resultado_usuario(ctx.actor) is Ok && monto.0 > 0 && recorte(concepto@).len()
                == 0 ==> (r matches Err(ErrorDominio::Invalido(m)) && m@
                == "el concepto del gasto es obligatorio"@),
            resultado_usuario(ctx.actor) matches Ok(u) ==> (resultado_requiere_en(
                *ctx,
                Permiso::RegistrarGasto,
                sucursal,
            ) is Ok && monto.0 > 0 && recorte(concepto@).len() != 0 ==> (r matches Ok(g)
                && g.folio@ == folio@ && g.monto == monto && g.concepto@ == recorte(concepto@)
                && g.cajero == u && g.sucursal == sucursal && g.sesion == sesion && g.registrado
                == ahora && g.actualizado == ahora)),
    {
        match ctx.requiere_en(Permiso::RegistrarGasto, sucursal) {
            Ok(()) => {},
            Err(e) => {
                return Err(e);
            },
        }
        let cajero = match ctx.usuario() {
            Ok(u) => u,
            Err(e) => {
                return Err(e);
            },
        };
        if monto.get() <= 0 {
            return Err(ErrorDominio::Invalido(cadena("el monto del gasto debe ser positivo")));
        }
        let c = recortar(concepto);
        if c.unicode_len() == 0 {
            return Err(ErrorDominio::Invalido(cadena("el concepto del gasto es obligatorio")));
        }
        Ok(
            Gasto {
                id: nuevo_id(),
                folio,
                monto,
                concepto: cadena(c),
                cajero,
                sucursal,
                sesion,
                registrado: ahora,
                actualizado: ahora,
            },
        )
    }
}

} // verus!
