//! Sesión de trabajo: envuelve el `ContextoAcceso` con la **sucursal activa**
//! dentro del alcance y la regla de **cierre por inactividad**.
//!
//! Ambas reglas viven aquí; la cara solo las invoca. La selección de sucursal
//! activa **nunca amplía** el alcance: solo filtra dentro de él.

use vstd::prelude::*;
use vstd::std_specs::btree::group_btree_axioms;
use vstd::std_specs::iter::IteratorSpec;

use crate::acceso::{alcance_cubre, Alcance, ContextoAcceso};
use crate::error::ErrorDominio;
use crate::tiempo::{segundos_de, Instante};

verus! {

broadcast use {vstd::laws_cmp::group_laws_cmp, group_btree_axioms};

/// La sucursal activa que corresponde a un alcance: la única, si hay una sola.
pub open spec fn activa_de(alcance: Alcance) -> Option<u128> {
    match alcance {
        Alcance::Sucursales(s) => if s@.finite() && s@.len() == 1 {
            Some(s@.choose())
        } else {
            None
        },
        Alcance::Todas => None,
    }
}

proof fn lema_unico(s: Set<u128>, x: u128)
    requires
        s.finite(),
        s.len() == 1,
        s.contains(x),
    ensures
        s.choose() == x,
        s == set![x],
{
    let r = s.remove(x);
    assert(r.len() == 0);
    assert(r.finite());
    r.lemma_len0_is_empty();
    assert(s =~= set![x]) by {
        assert forall|y: u128| s.contains(y) implies y == x by {
            if y != x {
                assert(r.contains(y));
            }
        }
    }
    assert(s.contains(s.choose()));
}

/// Sucursal activa que corresponde automáticamente a un alcance: si es una sola
/// sucursal, esa; si son varias o todas, ninguna por defecto (la cara elige).
pub fn activa_automatica(alcance: &Alcance) -> (r: Option<u128>)
    ensures
        r == activa_de(*alcance),
        r matches Some(x) ==> (alcance matches Alcance::Sucursales(s) && s@ == set![x]),
{
    match alcance {
        Alcance::Sucursales(s) => {
            if s.len() == 1 {
                let ghost sq = s.iter().remaining();
                proof {
                    assert(sq.unref().to_set() == s@);
                    vstd::seq_lib::seq_to_set_is_finite(sq.unref());
                }
                for x in it: s.iter()
                    invariant
                        *alcance == Alcance::Sucursales(*s),
                        s@.finite(),
                        s@.len() == 1,
                        sq.unref().to_set() == s@,
                        sq.len() == 1,
                        it.seq() == sq,
                        it.index() == 0,
                {
                    let v = *x;
                    proof {
                        assert(sq.unref()[0] == v);
                        assert(s@.contains(v));
                        lema_unico(s@, v);
                    }
                    return Some(v);
                }
                None
            } else {
                None
            }
        },
        Alcance::Todas => None,
    }
}

/// Sesión viva de un usuario autenticado.
pub struct Sesion {
    pub ctx: ContextoAcceso,
    pub sucursal_activa: Option<u128>,
    pub ultima_actividad: Instante,
}

/// ¿Pasaron más de `max` segundos enteros entre `desde` y `hasta`?
pub open spec fn rebasado(desde: Instante, hasta: Instante, max: int) -> bool {
    segundos_de(hasta@) - segundos_de(desde@) > max
}

impl Sesion {
    /// Inicia la sesión tras el login; la sucursal activa se resuelve del alcance.
    pub fn iniciar(ctx: ContextoAcceso, ahora: Instante) -> (r: Sesion)
        ensures
            r.ctx == ctx,
            r.sucursal_activa == activa_de(ctx.alcance),
            r.ultima_actividad == ahora,
    {
        let sucursal_activa = activa_automatica(&ctx.alcance);
        Sesion { ctx, sucursal_activa, ultima_actividad: ahora }
    }

    /// Marca actividad reciente (reinicia el reloj de inactividad).
    pub fn tocar(&mut self, ahora: Instante)
        ensures
            final(self).ultima_actividad == ahora,
            final(self).ctx == old(self).ctx,
            final(self).sucursal_activa == old(self).sucursal_activa,
    {
        self.ultima_actividad = ahora;
    }

    /// ¿La sesión rebasó el periodo de inactividad? De ser así, la cara hace un
    /// **logout completo** (no hay desbloqueo por PIN).
    pub fn expirada(&self, ahora: Instante, max_inactividad_segundos: i64) -> (r: bool)
        ensures
            r == rebasado(self.ultima_actividad, ahora, max_inactividad_segundos as int),
    {
        let a = ahora.segundos_epoch();
        let b = self.ultima_actividad.segundos_epoch();
        a - b > max_inactividad_segundos
    }

    /// Selecciona la sucursal activa **dentro del alcance**. Rechaza cualquier
    /// sucursal fuera de él: la selección nunca amplía el alcance.
    pub fn seleccionar_sucursal(&mut self, sucursal: u128) -> (r: Result<(), ErrorDominio>)
        ensures
            !alcance_cubre(old(self).ctx.alcance, sucursal) ==> r == Err::<(), ErrorDominio>(
                ErrorDominio::FueraDeAlcance,
            ) && *final(self) == *old(self),
            alcance_cubre(old(self).ctx.alcance, sucursal) ==> r is Ok && final(self).sucursal_activa
                == Some(sucursal) && final(self).ctx == old(self).ctx && final(
                self).ultima_actividad == old(self).ultima_actividad,
    {
        if !self.ctx.alcance.cubre(sucursal) {
            return Err(ErrorDominio::FueraDeAlcance);
        }
        self.sucursal_activa = Some(sucursal);
        Ok(())
    }
}

/// La sucursal activa siempre cae dentro del alcance: la que se resuelve al
/// iniciar y la que se selecciona después.
pub proof fn ley_activa_dentro_del_alcance(alcance: Alcance)
    ensures
        activa_de(alcance) matches Some(x) ==> alcance_cubre(alcance, x),
{
    if let Alcance::Sucursales(s) = alcance {
        if s@.finite() && s@.len() == 1 {
            assert(s@.len() != 0);
            assert(s@.contains(s@.choose()));
        }
    }
}

} // verus!
