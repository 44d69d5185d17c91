//! Envío entre sucursales: documento citable con folio y ciclo
//! `preparado → enviado → recibido` (cancelable antes de enviar), **sin flujo
//! de aprobación**. Un extremo siempre es la matriz. Los efectos de inventario
//! son asimétricos: la matriz jamás postea movimientos.

use std::collections::BTreeMap;

use vstd::prelude::*;
use vstd::std_specs::btree::group_btree_axioms;

use crate::acceso::{resultado_requiere_en, ContextoAcceso, Permiso};
use crate::error::ErrorDominio;
use crate::externo::nuevo_id;
use crate::folio::Folio;
use crate::inventario::{
    cabe_i64, magnitud_de, msj_mezcla, opuesta, suma_cantidades, unidad_cantidad, Cantidad,
    EstadoMovimiento, MovimientoInventario, TipoMovimiento,
};
use crate::sucursal::TipoSucursal;
use crate::texto::cadena;
use crate::tiempo::Instante;

verus! {

broadcast use {vstd::laws_cmp::group_laws_cmp, group_btree_axioms};

/// Estado del envío. `Cancelado` solo se alcanza desde `Preparado` y conserva
/// el folio (sin reutilización).
#[derive(Debug, Clone, Copy, PartialEq, Eq, Structural)]
pub enum EstadoEnvio {
    Preparado,
    Enviado,
    Recibido,
    Cancelado,
}

/// El documento de envío. Su contenido (cajas y etiquetas sueltas) vive ligado
/// por el id del envío en la capa de datos; aquí viven identidad y ciclo.
pub struct Envio {
    pub id: u128,
    pub folio: Folio,
    pub origen: u128,
    pub destino: u128,
    pub estado: EstadoEnvio,
    pub preparado_en: Instante,
    pub enviado_en: Option<Instante>,
    pub recibido_en: Option<Instante>,
    /// Anotación de faltantes al recibir; `None` si la recepción cuadró.
    pub discrepancia: Option<String>,
    pub actualizado: Instante,
}

/// `b` es `a` con otro estado, sellado en `ahora`: identidad, folio y extremos
/// se conservan.
pub open spec fn mismo_documento(a: Envio, b: Envio) -> bool {
    &&& b.id == a.id
    &&& b.folio@ == a.folio@
    &&& b.origen == a.origen
    &&& b.destino == a.destino
    &&& b.preparado_en == a.preparado_en
}

impl Envio {
    /// Prepara un envío. Exige `enviar` + alcance sobre el **origen**, que
    /// origen y destino difieran y que **un extremo sea la matriz**:
    /// matriz→expendio (surtido) o expendio→matriz (devolución).
    pub fn preparar(
        ctx: &ContextoAcceso,
        folio: Folio,
        origen: u128,
        tipo_origen: TipoSucursal,
        destino: u128,
        tipo_destino: TipoSucursal,
        ahora: Instante,
    ) -> (r: Result<Envio, ErrorDominio>)
        ensures
            resultado_requiere_en(*ctx, Permiso::Enviar, origen) matches Err(e) ==> r == Err::<
                Envio,
                ErrorDominio,
            >(e),
            resultado_requiere_en(*ctx, Permiso::Enviar, origen) is Ok && origen == destino ==> (
            r matches Err(ErrorDominio::Regla(m)) && m@
                == "el origen y el destino del envío deben ser distintos"@),
            resultado_requiere_en(*ctx, Permiso::Enviar, origen) is Ok && origen != destino
                && tipo_origen != TipoSucursal::Matriz && tipo_destino != TipoSucursal::Matriz ==> (
            r matches Err(ErrorDominio::Regla(m)) && m@
                == "un extremo del envío debe ser la matriz; no hay traspasos entre expendios"@),
            resultado_requiere_en(*ctx, Permiso::Enviar, origen) is Ok && origen != destino && (
            tipo_origen == TipoSucursal::Matriz || tipo_destino == TipoSucursal::Matriz) ==> (
            r matches Ok(e) && e.folio@ == folio@ && e.origen == origen && e.destino == destino
                && e.estado == EstadoEnvio::Preparado && e.preparado_en == ahora && e.enviado_en
                is None && e.recibido_en is None && e.discrepancia is None && e.actualizado
                == ahora),
    {
        match ctx.requiere_en(Permiso::Enviar, origen) {
            Ok(()) => {},
            Err(e) => {
                return Err(e);
            },
        }
        if origen == destino {
            return Err(
                ErrorDominio::Regla(cadena("el origen y el destino del envío deben ser distintos")),
            );
        }
        if tipo_origen != TipoSucursal::Matriz && tipo_destino != TipoSucursal::Matriz {
            return Err(
                ErrorDominio::Regla(
                    cadena(
                        "un extremo del envío debe ser la matriz; no hay traspasos entre expendios",
                    ),
                ),
            );
        }
        Ok(
            Envio {
                id: nuevo_id(),
                folio,
                origen,
                destino,
                estado: EstadoEnvio::Preparado,
                preparado_en: ahora,
                enviado_en: None,
                recibido_en: None,
                discrepancia: None,
                actualizado: ahora,
            },
        )
    }

    /// Marca el envío como enviado (la mercancía sale físicamente). Solo desde
    /// `preparado`; exige `enviar` + alcance sobre el origen.
    pub fn marcar_enviado(&mut self, ctx: &ContextoAcceso, ahora: Instante) -> (r: Result<
        (),
        ErrorDominio,
    >)
        ensures
            resultado_requiere_en(*ctx, Permiso::Enviar, old(self).origen) matches Err(e) ==> r
                == Err::<(), ErrorDominio>(e) && *final(self) == *old(self),
            resultado_requiere_en(*ctx, Permiso::Enviar, old(self).origen) is Ok && old(self).estado
                != EstadoEnvio::Preparado ==> (r matches Err(ErrorDominio::TransicionInvalida(m))
                && m@ == "solo un envío preparado puede marcarse enviado"@ && *final(self) == *old(
                self)),
            resultado_requiere_en(*ctx, Permiso::Enviar, old(self).origen) is Ok && old(self).estado
                == EstadoEnvio::Preparado ==> r is Ok && final(self).estado == EstadoEnvio::Enviado
                && final(self).enviado_en == Some(ahora) && final(self).actualizado == ahora
                && mismo_documento(*old(self), *final(self)) && final(self).recibido_en == old(
                self).recibido_en && final(self).discrepancia == old(self).discrepancia,
    {
        match ctx.requiere_en(Permiso::Enviar, self.origen) {
            Ok(()) => {},
            Err(e) => {
                return Err(e);
            },
        }
        if self.estado != EstadoEnvio::Preparado {
            return Err(
                ErrorDominio::TransicionInvalida(
                    cadena("solo un envío preparado puede marcarse enviado"),
                ),
            );
        }
        self.estado = EstadoEnvio::Enviado;
        self.enviado_en = Some(ahora);
        self.actualizado = ahora;
        Ok(())
    }

    /// Cancela el envío (solo en `preparado`); el contenido se libera en la
    /// capa de datos. Conserva su folio.
    pub fn cancelar(&mut self, ctx: &ContextoAcceso, ahora: Instante) -> (r: Result<
        (),
        ErrorDominio,
    >)
        ensures
            resultado_requiere_en(*ctx, Permiso::Enviar, old(self).origen) matches Err(e) ==> r
                == Err::<(), ErrorDominio>(e) && *final(self) == *old(self),
            resultado_requiere_en(*ctx, Permiso::Enviar, old(self).origen) is Ok && old(self).estado
                != EstadoEnvio::Preparado ==> (r matches Err(ErrorDominio::TransicionInvalida(m))
                && m@ == "solo un envío preparado puede cancelarse"@ && *final(self) == *old(self)),
            resultado_requiere_en(*ctx, Permiso::Enviar, old(self).origen) is Ok && old(self).estado
                == EstadoEnvio::Preparado ==> r is Ok && final(self).estado == EstadoEnvio::Cancelado
                && final(self).actualizado == ahora && mismo_documento(*old(self), *final(self))
                && final(self).enviado_en == old(self).enviado_en && final(self).recibido_en == old(
                self).recibido_en && final(self).discrepancia == old(self).discrepancia,
    {
        match ctx.requiere_en(Permiso::Enviar, self.origen) {
            Ok(()) => {},
            Err(e) => {
                return Err(e);
            },
        }
        if self.estado != EstadoEnvio::Preparado {
            return Err(
                ErrorDominio::TransicionInvalida(cadena("solo un envío preparado puede cancelarse")),
            );
        }
        self.estado = EstadoEnvio::Cancelado;
        self.actualizado = ahora;
        Ok(())
    }

    /// Marca el envío como recibido, con la anotación de discrepancia si hubo
    /// faltantes. Solo desde `enviado`; exige `recibir` + alcance sobre el
    /// **destino** (no se recibe lo no enviado; no se re-recibe).
    pub fn marcar_recibido(
        &mut self,
        ctx: &ContextoAcceso,
        discrepancia: Option<String>,
        ahora: Instante,
    ) -> (r: Result<(), ErrorDominio>)
        ensures
            resultado_requiere_en(*ctx, Permiso::Recibir, old(self).destino) matches Err(e) ==> r
                == Err::<(), ErrorDominio>(e) && *final(self) == *old(self),
            resultado_requiere_en(*ctx, Permiso::Recibir, old(self).destino) is Ok && old(
                self).estado != EstadoEnvio::Enviado ==> (r matches Err(
                ErrorDominio::TransicionInvalida(m),
            ) && m@ == "solo un envío enviado puede recibirse"@ && *final(self) == *old(self)),
            resultado_requiere_en(*ctx, Permiso::Recibir, old(self).destino) is Ok && old(
                self).estado == EstadoEnvio::Enviado ==> r is Ok && final(self).estado
                == EstadoEnvio::Recibido && final(self).recibido_en == Some(ahora) && final(
                self).discrepancia == discrepancia && final(self).actualizado == ahora
                && mismo_documento(*old(self), *final(self)) && final(self).enviado_en == old(
                self).enviado_en,
    {
        match ctx.requiere_en(Permiso::Recibir, self.destino) {
            Ok(()) => {},
            Err(e) => {
                return Err(e);
            },
        }
        if self.estado != EstadoEnvio::Enviado {
            return Err(
                ErrorDominio::TransicionInvalida(cadena("solo un envío enviado puede recibirse")),
            );
        }
        self.estado = EstadoEnvio::Recibido;
        self.recibido_en = Some(ahora);
        self.discrepancia = discrepancia;
        self.actualizado = ahora;
        Ok(())
    }
}

/// Lo que acumula un producto al recorrer los ítems: `None` si en algún paso
/// se mezclan unidades.
pub open spec fn acumular(items: Seq<(u128, Cantidad)>) -> Option<Map<u128, Cantidad>>
    decreases items.len(),
{
    if items.len() == 0 {
        Some(Map::empty())
    } else {
        match acumular(items.drop_last()) {
            None => None,
            Some(m) => {
                let (p, c) = items.last();
                if m.contains_key(p) {
                    match suma_cantidades(m[p], c) {
                        None => None,
                        Some(s) => Some(m.insert(p, s)),
                    }
                } else {
                    Some(m.insert(p, c))
                }
            },
        }
    }
}

/// Ningún acumulado parcial se sale de `i64`.
pub open spec fn sin_desborde(items: Seq<(u128, Cantidad)>) -> bool
    decreases items.len(),
{
    if items.len() == 0 {
        true
    } else {
        &&& sin_desborde(items.drop_last())
        &&& match acumular(items.drop_last()) {
            Some(m) => m.contains_key(items.last().0) && unidad_cantidad(m[items.last().0])
                == unidad_cantidad(items.last().1) ==> cabe_i64(
                magnitud_de(m[items.last().0]) + magnitud_de(items.last().1),
            ),
            None => true,
        }
    }
}

/// La suma de las magnitudes de los ítems del producto `p`.
pub open spec fn suma_de_producto(items: Seq<(u128, Cantidad)>, p: u128) -> int
    decreases items.len(),
{
    if items.len() == 0 {
        0
    } else {
        suma_de_producto(items.drop_last(), p) + if items.last().0 == p {
            magnitud_de(items.last().1)
        } else {
            0
        }
    }
}

/// Sin ítems del producto, su suma es cero.
proof fn lema_suma_sin_producto(items: Seq<(u128, Cantidad)>, p: u128)
    requires
        forall|i: int| 0 <= i < items.len() ==> (#[trigger] items[i]).0 != p,
    ensures
        suma_de_producto(items, p) == 0,
    decreases items.len(),
{
    if items.len() > 0 {
        assert forall|i: int| 0 <= i < items.drop_last().len() implies (
        #[trigger] items.drop_last()[i]).0 != p by {
            assert(items.drop_last()[i] == items[i]);
        }
        lema_suma_sin_producto(items.drop_last(), p);
        assert(items[items.len() - 1] == items.last());
    }
}

/// Un delta por producto: si el recorrido no mezcla unidades, cada producto
/// que aparece en los ítems (y solo esos) tiene un delta, en la unidad común
/// de todos sus ítems, cuya magnitud es la suma de las de sus ítems: cada
/// caja o etiqueta se suma, ninguna reemplaza a otra.
pub proof fn ley_un_delta_por_producto(items: Seq<(u128, Cantidad)>, p: u128)
    requires
        sin_desborde(items),
        acumular(items) is Some,
    ensures
        ({
            let m = acumular(items)->0;
            &&& m.contains_key(p) <==> (exists|i: int| 0 <= i < items.len() && (#[trigger] items[i]).0 == p)
            &&& m.contains_key(p) ==> magnitud_de(m[p]) == suma_de_producto(items, p)
            &&& m.contains_key(p) ==> forall|i: int|
                0 <= i < items.len() && (#[trigger] items[i]).0 == p ==> unidad_cantidad(items[i].1)
                    == unidad_cantidad(m[p])
        }),
    decreases items.len(),
{
    if items.len() > 0 {
        let previos = items.drop_last();
        let (q, c) = items.last();
        assert(acumular(previos) is Some);
        ley_un_delta_por_producto(previos, p);
        let m0 = acumular(previos)->0;
        let m = acumular(items)->0;
        let n = items.len() - 1;
        assert(items[n] == items.last());
        assert forall|i: int| 0 <= i < n implies #[trigger] items[i] == previos[i] by {}
        if q != p {
            assert(m.contains_key(p) == m0.contains_key(p));
            if m0.contains_key(p) {
                assert(m[p] == m0[p]);
            }
            if exists|i: int| 0 <= i < items.len() && (#[trigger] items[i]).0 == p {
                let i = choose|i: int| 0 <= i < items.len() && (#[trigger] items[i]).0 == p;
                assert(i < n);
                assert(previos[i].0 == p);
            }
            if exists|i: int| 0 <= i < previos.len() && (#[trigger] previos[i]).0 == p {
                let i = choose|i: int| 0 <= i < previos.len() && (#[trigger] previos[i]).0 == p;
                assert(items[i].0 == p);
            }
        } else {
            assert(m.contains_key(p));
            assert(items[n].0 == p);
            if m0.contains_key(p) {
                assert(cabe_i64(magnitud_de(m0[p]) + magnitud_de(c)));
                assert(unidad_cantidad(m0[p]) == unidad_cantidad(c));
            } else {
                assert forall|i: int| 0 <= i < previos.len() implies (#[trigger] previos[i]).0 != p by {
                    if previos[i].0 == p {
                        assert(exists|j: int| 0 <= j < previos.len() && (#[trigger] previos[j]).0 == p);
                    }
                }
                lema_suma_sin_producto(previos, p);
                assert forall|i: int| 0 <= i < items.len() && (#[trigger] items[i]).0 == p implies i == n by {
                    if i < n {
                        assert(previos[i].0 == p);
                    }
                }
            }
        }
    }
}

/// Los ítems de un mismo producto comparten unidad.
pub open spec fn unidad_por_producto(items: Seq<(u128, Cantidad)>) -> bool {
    forall|i: int, j: int|
        0 <= i < items.len() && 0 <= j < items.len() && (#[trigger] items[i]).0 == (
        #[trigger] items[j]).0 ==> unidad_cantidad(items[i].1) == unidad_cantidad(items[j].1)
}

/// Lo acumulado tiene justo los productos de los ítems, cada uno en la unidad
/// de sus ítems.
proof fn lema_unidades_acumuladas(items: Seq<(u128, Cantidad)>)
    ensures
        acumular(items) matches Some(m) ==> (forall|p: u128|
            m.contains_key(p) <==> exists|i: int| 0 <= i < items.len() && (#[trigger] items[i]).0 == p)
            && (forall|i: int|
            0 <= i < items.len() ==> unidad_cantidad((#[trigger] items[i]).1) == unidad_cantidad(
                m[items[i].0],
            )),
    decreases items.len(),
{
    if items.len() > 0 {
        let previos = items.drop_last();
        lema_unidades_acumuladas(previos);
        let n = items.len() - 1;
        assert(items[n] == items.last());
        assert forall|i: int| 0 <= i < n implies #[trigger] items[i] == previos[i] by {}
        if acumular(items) is Some {
            let m0 = acumular(previos)->0;
            let m = acumular(items)->0;
            let q = items.last().0;
            assert forall|p: u128|
                m.contains_key(p) <==> exists|i: int| 0 <= i < items.len() && (#[trigger] items[i]).0
                    == p by {
                if p != q && m.contains_key(p) {
                    let i = choose|i: int| 0 <= i < previos.len() && (#[trigger] previos[i]).0 == p;
                    assert(items[i].0 == p);
                }
                if exists|i: int| 0 <= i < items.len() && (#[trigger] items[i]).0 == p {
                    let i = choose|i: int| 0 <= i < items.len() && (#[trigger] items[i]).0 == p;
                    if i < n {
                        assert(previos[i].0 == p);
                    }
                }
            }
            assert forall|i: int| 0 <= i < items.len() implies unidad_cantidad(
                (#[trigger] items[i]).1,
            ) == unidad_cantidad(m[items[i].0]) by {
                if i < n {
                    assert(previos[i] == items[i]);
                    assert(m0.contains_key(previos[i].0));
                }
            }
        }
    }
}

/// El recorrido solo rechaza mezclar unidades: acumula sin error exactamente
/// cuando los ítems de cada producto comparten unidad.
pub proof fn ley_acumula_si_no_mezcla(items: Seq<(u128, Cantidad)>)
    ensures
        acumular(items) is Some <==> unidad_por_producto(items),
    decreases items.len(),
{
    lema_unidades_acumuladas(items);
    if items.len() > 0 {
        let previos = items.drop_last();
        let n = items.len() - 1;
        assert(items[n] == items.last());
        assert forall|i: int| 0 <= i < n implies #[trigger] items[i] == previos[i] by {}
        ley_acumula_si_no_mezcla(previos);
        lema_unidades_acumuladas(previos);
        if unidad_por_producto(items) {
            assert(unidad_por_producto(previos)) by {
                assert forall|i: int, j: int|
                    0 <= i < previos.len() && 0 <= j < previos.len() && (#[trigger] previos[i]).0 == (
                    #[trigger] previos[j]).0 implies unidad_cantidad(previos[i].1) == unidad_cantidad(
                    previos[j].1,
                ) by {
                    assert(items[i] == previos[i] && items[j] == previos[j]);
                }
            }
            let m0 = acumular(previos)->0;
            let q = items.last().0;
            if m0.contains_key(q) {
                let i = choose|i: int| 0 <= i < previos.len() && (#[trigger] previos[i]).0 == q;
                assert(items[i] == previos[i]);
                assert(unidad_cantidad(items[i].1) == unidad_cantidad(items[n].1));
            }
        }
    }
}

/// Acumula cantidades por producto (etiquetas en gramos, cajas de pieza en
/// unidades) para postear un movimiento por producto. Rechaza mezclar
/// unidades de un mismo producto (imposible por construcción, pero se valida).
pub fn deltas_por_producto(items: &[(u128, Cantidad)]) -> (r: Result<
    BTreeMap<u128, Cantidad>,
    ErrorDominio,
>)
    requires
        sin_desborde(items@),
    ensures
        acumular(items@) matches Some(m) ==> (r matches Ok(d) && d@ == m),
        acumular(items@) is None ==> (r matches Err(ErrorDominio::Regla(t)) && t@ == msj_mezcla()),
        unidad_por_producto(items@) ==> r is Ok,
        !unidad_por_producto(items@) ==> (r matches Err(ErrorDominio::Regla(t)) && t@
            == msj_mezcla()),
        r matches Ok(d) ==> forall|p: u128| #[trigger]
            d@.contains_key(p) ==> magnitud_de(d@[p]) == suma_de_producto(items@, p),
        r matches Ok(d) ==> forall|i: int|
            0 <= i < items@.len() ==> d@.contains_key((#[trigger] items@[i]).0),
{
    proof {
        ley_acumula_si_no_mezcla(items@);
    }
    let mut deltas: BTreeMap<u128, Cantidad> = BTreeMap::new();
    let mut i: usize = 0;
    while i < items.len()
        invariant
            i <= items@.len(),
            sin_desborde(items@),
            acumular(items@.subrange(0, i as int)) == Some(deltas@),
        decreases items@.len() - i,
    {
        let ghost previo = items@.subrange(0, i as int);
        proof {
            lema_prefijo_sin_desborde(items@, i as int + 1);
            assert(items@.subrange(0, i + 1).drop_last() =~= previo);
            assert(items@.subrange(0, i + 1).last() == items@[i as int]);
        }
        let (producto, cantidad) = items[i];
        let nuevo = match deltas.get(&producto) {
            Some(previa) => match previa.sumar(cantidad) {
                Ok(s) => s,
                Err(e) => {
                    proof {
                        lema_none_persiste(items@, i as int + 1);
                        ley_acumula_si_no_mezcla(items@);
                    }
                    return Err(e);
                },
            },
            None => cantidad,
        };
        deltas.insert(producto, nuevo);
        i = i + 1;
    }
    assert(items@.subrange(0, items@.len() as int) =~= items@);
    proof {
        assert forall|p: u128| #[trigger] deltas@.contains_key(p) implies magnitud_de(deltas@[p])
            == suma_de_producto(items@, p) by {
            ley_un_delta_por_producto(items@, p);
        }
        assert forall|i: int| 0 <= i < items@.len() implies deltas@.contains_key(
            (#[trigger] items@[i]).0,
        ) by {
            ley_un_delta_por_producto(items@, items@[i].0);
        }
    }
    Ok(deltas)
}

proof fn lema_prefijo_sin_desborde(items: Seq<(u128, Cantidad)>, k: int)
    requires
        sin_desborde(items),
        0 <= k <= items.len(),
    ensures
        sin_desborde(items.subrange(0, k)),
    decreases items.len() - k,
{
    if k < items.len() {
        lema_prefijo_sin_desborde(items, k + 1);
        assert(items.subrange(0, k + 1).drop_last() =~= items.subrange(0, k));
    } else {
        assert(items.subrange(0, k) =~= items);
    }
}

/// Si un prefijo ya mezcla unidades, todo el recorrido las mezcla.
proof fn lema_none_persiste(items: Seq<(u128, Cantidad)>, k: int)
    requires
        0 <= k <= items.len(),
        acumular(items.subrange(0, k)) is None,
    ensures
        acumular(items) is None,
    decreases items.len() - k,
{
    if k < items.len() {
        assert(items.subrange(0, k + 1).drop_last() =~= items.subrange(0, k));
        lema_none_persiste(items, k + 1);
    } else {
        assert(items.subrange(0, k) =~= items);
    }
}

/// El asiento de **salida** de una devolución al marcarse enviada: delta
/// negativo en el expendio origen, citando el folio del envío. La
/// no-negatividad del saldo la valida quien lo aplica.
pub fn movimiento_salida(
    producto: u128,
    sucursal: u128,
    cantidad: Cantidad,
    folio: &Folio,
    ahora: Instante,
) -> (r: MovimientoInventario)
    requires
        magnitud_de(cantidad) > i64::MIN,
    ensures
        r.producto == producto,
        r.sucursal == sucursal,
        r.tipo == TipoMovimiento::Envio,
        r.delta == opuesta(cantidad),
        r.motivo matches Some(t) && t@ == folio@,
        r.estado == EstadoMovimiento::Aplicado,
        r.registrado == ahora,
        r.actualizado == ahora,
{
    asiento(producto, sucursal, TipoMovimiento::Envio, cantidad.negada(), folio, ahora)
}

/// El asiento de **entrada** al recibir un surtido en un expendio: delta
/// positivo con lo presente, citando el folio del envío.
pub fn movimiento_recepcion(
    producto: u128,
    sucursal: u128,
    cantidad: Cantidad,
    folio: &Folio,
    ahora: Instante,
) -> (r: MovimientoInventario)
    ensures
        r.producto == producto,
        r.sucursal == sucursal,
        r.tipo == TipoMovimiento::Recepcion,
        r.delta == cantidad,
        r.motivo matches Some(t) && t@ == folio@,
        r.estado == EstadoMovimiento::Aplicado,
        r.registrado == ahora,
        r.actualizado == ahora,
{
    asiento(producto, sucursal, TipoMovimiento::Recepcion, cantidad, folio, ahora)
}

fn asiento(
    producto: u128,
    sucursal: u128,
    tipo: TipoMovimiento,
    delta: Cantidad,
    folio: &Folio,
    ahora: Instante,
) -> (r: MovimientoInventario)
    ensures
        r.producto == producto,
        r.sucursal == sucursal,
        r.tipo == tipo,
        r.delta == delta,
        r.motivo matches Some(t) && t@ == folio@,
        r.estado == EstadoMovimiento::Aplicado,
        r.registrado == ahora,
        r.actualizado == ahora,
{
    MovimientoInventario {
        id: nuevo_id(),
        producto,
        sucursal,
        tipo,
        delta,
        motivo: Some(cadena(folio.get())),
        estado: EstadoMovimiento::Aplicado,
        registrado: ahora,
        actualizado: ahora,
    }
}

} // verus!
