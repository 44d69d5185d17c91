//! Inventario: existencia por `producto × sucursal` como ledger de **movimientos**
//! tipados (append-only, reversibles) del que se deriva el saldo.
//!
//! La **cantidad** se expresa en la unidad natural del producto: `pieza` →
//! unidades enteras, `peso_variable` → gramos; el tipo impide mezclarlas. La
//! existencia **nunca es negativa**. El ajuste es **absoluto**: fija la
//! existencia a la cantidad contada.

use vstd::prelude::*;
use vstd::string::StrSliceExecFns;

use crate::acceso::{resultado_requiere_en, ContextoAcceso, Permiso};
use crate::error::ErrorDominio;
use crate::externo::nuevo_id;
use crate::producto::{unidad_de, Producto, UnidadVenta};
use crate::texto::{cadena, recortar, recorte};
use crate::tiempo::Instante;
use crate::unidades::Gramos;

verus! {

/// Cantidad de existencia o de un movimiento, tipada por la unidad del producto.
/// Puede ser negativa (un delta de salida); la **existencia** que resulta no.
#[derive(Debug, Clone, Copy, PartialEq, Eq, Structural)]
pub enum Cantidad {
    /// Producto `pieza`: unidades enteras.
    Unidades(i64),
    /// Producto `peso_variable`: gramos.
    Gramos(Gramos),
}

/// La unidad en que se expresa una cantidad.
pub open spec fn unidad_cantidad(c: Cantidad) -> UnidadVenta {
    match c {
        Cantidad::Unidades(_) => UnidadVenta::Unidad,
        Cantidad::Gramos(_) => UnidadVenta::Kilogramo,
    }
}

/// Magnitud entera con signo (unidades o gramos).
pub open spec fn magnitud_de(c: Cantidad) -> int {
    match c {
        Cantidad::Unidades(n) => n as int,
        Cantidad::Gramos(g) => g.0 as int,
    }
}

/// La cantidad de magnitud `m` en la unidad `u`.
pub open spec fn cantidad_en(u: UnidadVenta, m: int) -> Cantidad {
    match u {
        UnidadVenta::Unidad => Cantidad::Unidades(m as i64),
        UnidadVenta::Kilogramo => Cantidad::Gramos(Gramos(m as i64)),
    }
}

/// ¿Cabe `m` en un `i64`?
pub open spec fn cabe_i64(m: int) -> bool {
    i64::MIN <= m <= i64::MAX
}

/// La cantidad opuesta, misma unidad.
pub open spec fn opuesta(c: Cantidad) -> Cantidad {
    cantidad_en(unidad_cantidad(c), -magnitud_de(c))
}

/// La suma de dos cantidades de la misma unidad; `None` si mezclan unidades.
pub open spec fn suma_cantidades(a: Cantidad, b: Cantidad) -> Option<Cantidad> {
    if unidad_cantidad(a) != unidad_cantidad(b) {
        None
    } else {
        Some(cantidad_en(unidad_cantidad(a), magnitud_de(a) + magnitud_de(b)))
    }
}

/// Mensaje del rechazo por mezcla de unidades.
pub open spec fn msj_mezcla() -> Seq<char> {
    "no se pueden mezclar unidades con gramos en el inventario"@
}

/// Mensaje del rechazo por existencia negativa.
pub open spec fn msj_negativa() -> Seq<char> {
    "la existencia no puede ser negativa"@
}

impl Cantidad {
    /// Cantidad cero en la unidad dada (existencia sin movimientos).
    pub fn cero(unidad: UnidadVenta) -> (r: Cantidad)
        ensures
            r == cantidad_en(unidad, 0),
    {
        match unidad {
            UnidadVenta::Unidad => Cantidad::Unidades(0),
            UnidadVenta::Kilogramo => Cantidad::Gramos(Gramos::cero()),
        }
    }

    /// Construye una cantidad en la unidad dada a partir de su magnitud entera.
    pub fn en(unidad: UnidadVenta, magnitud: i64) -> (r: Cantidad)
        ensures
            r == cantidad_en(unidad, magnitud as int),
            unidad_cantidad(r) == unidad,
            magnitud_de(r) == magnitud,
    {
        match unidad {
            UnidadVenta::Unidad => Cantidad::Unidades(magnitud),
            UnidadVenta::Kilogramo => Cantidad::Gramos(Gramos::new(magnitud)),
        }
    }

    pub fn unidad(self) -> (r: UnidadVenta)
        ensures
            r == unidad_cantidad(self),
    {
        match self {
            Cantidad::Unidades(_) => UnidadVenta::Unidad,
            Cantidad::Gramos(_) => UnidadVenta::Kilogramo,
        }
    }

    /// Magnitud entera con signo (unidades o gramos, según la unidad).
    pub fn magnitud(self) -> (r: i64)
        ensures
            r == magnitud_de(self),
    {
        match self {
            Cantidad::Unidades(n) => n,
            Cantidad::Gramos(g) => g.get(),
        }
    }

    pub fn es_negativa(self) -> (r: bool)
        ensures
            r == (magnitud_de(self) < 0),
    {
        self.magnitud() < 0
    }

    pub fn es_cero(self) -> (r: bool)
        ensures
            r == (magnitud_de(self) == 0),
    {
        self.magnitud() == 0
    }

    /// La cantidad opuesta (para deshacer un movimiento), misma unidad.
    pub fn negada(self) -> (r: Cantidad)
        requires
            magnitud_de(self) > i64::MIN,
        ensures
            r == opuesta(self),
            unidad_cantidad(r) == unidad_cantidad(self),
            magnitud_de(r) == -magnitud_de(self),
    {
        Cantidad::en(self.unidad(), -self.magnitud())
    }

    /// Suma dos cantidades de la **misma unidad**; rechaza mezclar unidades con gramos.
    pub fn sumar(self, otra: Cantidad) -> (r: Result<Cantidad, ErrorDominio>)
        requires
            unidad_cantidad(self) == unidad_cantidad(otra) ==> cabe_i64(
                magnitud_de(self) + magnitud_de(otra),
            ),
        ensures
            suma_cantidades(self, otra) matches Some(s) ==> r == Ok::<Cantidad, ErrorDominio>(s),
            suma_cantidades(self, otra) is None ==> (r matches Err(ErrorDominio::Regla(m)) && m@
                == msj_mezcla()),
    {
        if self.unidad() != otra.unidad() {
            return Err(
                ErrorDominio::Regla(
                    cadena("no se pueden mezclar unidades con gramos en el inventario"),
                ),
            );
        }
        Ok(Cantidad::en(self.unidad(), self.magnitud() + otra.magnitud()))
    }

    /// Resta `otra` de `self` (misma unidad).
    pub fn restar(self, otra: Cantidad) -> (r: Result<Cantidad, ErrorDominio>)
        requires
            magnitud_de(otra) > i64::MIN,
            unidad_cantidad(self) == unidad_cantidad(otra) ==> cabe_i64(
                magnitud_de(self) - magnitud_de(otra),
            ),
        ensures
            unidad_cantidad(self) == unidad_cantidad(otra) ==> r == Ok::<Cantidad, ErrorDominio>(
                cantidad_en(unidad_cantidad(self), magnitud_de(self) - magnitud_de(otra)),
            ),
            unidad_cantidad(self) != unidad_cantidad(otra) ==> (r matches Err(
                ErrorDominio::Regla(m),
            ) && m@ == msj_mezcla()),
    {
        self.sumar(otra.negada())
    }

    /// ¿La cantidad se expresa en la unidad de venta del producto?
    pub fn concuerda_con(self, producto: &Producto) -> (r: bool)
        ensures
            r == (unidad_cantidad(self) == unidad_de(producto.tipo)),
    {
        self.unidad() == producto.unidad_venta()
    }
}

/// Tipo de movimiento. Extensible: `Ajuste` lo postea el conteo manual, `Envio`
/// y `Recepcion` los postea la capacidad de envíos y `Venta` queda reservado
/// para el POS. La **reversión no es un tipo**: es el `EstadoMovimiento` del
/// propio movimiento (toggle, sin apilar copias).
#[derive(Debug, Clone, Copy, PartialEq, Eq, Structural)]
pub enum TipoMovimiento {
    Ajuste,
    Envio,
    Recepcion,
    Venta,
}

/// Estado de un movimiento: aplicado cuenta en el saldo; revertido no.
#[derive(Debug, Clone, Copy, PartialEq, Eq, Structural)]
pub enum EstadoMovimiento {
    Aplicado,
    Revertido,
}

/// El estado contrario.
pub open spec fn estado_alterno(e: EstadoMovimiento) -> EstadoMovimiento {
    match e {
        EstadoMovimiento::Aplicado => EstadoMovimiento::Revertido,
        EstadoMovimiento::Revertido => EstadoMovimiento::Aplicado,
    }
}

/// Un asiento del ledger de inventario. Append-only; su `estado` se togglea al
/// revertir (no se apilan copias). El `delta` lleva signo.
pub struct MovimientoInventario {
    pub id: u128,
    pub producto: u128,
    pub sucursal: u128,
    pub tipo: TipoMovimiento,
    pub delta: Cantidad,
    pub motivo: Option<String>,
    pub estado: EstadoMovimiento,
    pub registrado: Instante,
    pub actualizado: Instante,
}

/// La compensación de saldo que produce alternar la reversión de un movimiento
/// en ese estado y con ese delta.
pub open spec fn compensacion_de(estado: EstadoMovimiento, delta: Cantidad) -> Cantidad {
    match estado {
        EstadoMovimiento::Aplicado => opuesta(delta),
        EstadoMovimiento::Revertido => delta,
    }
}

impl MovimientoInventario {
    /// Construye el movimiento de un **ajuste absoluto**: fija la existencia a
    /// `objetivo` (la cantidad contada). Exige `AjustarInventario` + alcance, que
    /// la unidad concuerde con el producto, que el objetivo no sea negativo y un
    /// motivo no vacío. El `delta` guardado es `objetivo − saldo`.
    pub fn ajuste(
        ctx: &ContextoAcceso,
        producto: &Producto,
        sucursal: u128,
        objetivo: Cantidad,
        saldo_actual: Cantidad,
        motivo: &str,
        ahora: Instante,
    ) -> (r: Result<MovimientoInventario, ErrorDominio>)
        requires
            magnitud_de(objetivo) >= 0 ==> magnitud_de(saldo_actual) > i64::MIN && magnitud_de(
                objetivo,
            ) - magnitud_de(saldo_actual) <= i64::MAX,
        ensures
            resultado_requiere_en(*ctx, Permiso::AjustarInventario, sucursal) matches Err(e)
                ==> r == Err::<MovimientoInventario, ErrorDominio>(e),
            resultado_requiere_en(*ctx, Permiso::AjustarInventario, sucursal) is Ok
                && unidad_cantidad(objetivo) != unidad_de(producto.tipo) ==> (r matches Err(
                ErrorDominio::Regla(m),
            ) && m@ == "la cantidad no está en la unidad del producto"@),
            resultado_requiere_en(*ctx, Permiso::AjustarInventario, sucursal) is Ok
                && unidad_cantidad(objetivo) == unidad_de(producto.tipo) && magnitud_de(objetivo)
                < 0 ==> (r matches Err(ErrorDominio::Regla(m)) && m@ == msj_negativa()),
            resultado_requiere_en(*ctx, Permiso::AjustarInventario, sucursal) is Ok
                && unidad_cantidad(objetivo) == unidad_de(producto.tipo) && magnitud_de(objetivo)
                >= 0 && recorte(motivo@).len() == 0 ==> (r matches Err(ErrorDominio::Invalido(m))
                && m@ == "el motivo del ajuste es obligatorio"@),
            resultado_requiere_en(*ctx, Permiso::AjustarInventario, sucursal) is Ok
                && unidad_cantidad(objetivo) == unidad_de(producto.tipo) && magnitud_de(objetivo)
                >= 0 && recorte(motivo@).len() != 0 && unidad_cantidad(saldo_actual)
                != unidad_cantidad(objetivo) ==> (r matches Err(ErrorDominio::Regla(m)) && m@
                == msj_mezcla()),
            resultado_requiere_en(*ctx, Permiso::AjustarInventario, sucursal) is Ok
                && unidad_cantidad(objetivo) == unidad_de(producto.tipo) && magnitud_de(objetivo)
                >= 0 && recorte(motivo@).len() != 0 && unidad_cantidad(saldo_actual)
                == unidad_cantidad(objetivo) ==> (r matches Ok(mov) && mov.producto == producto.id
                && mov.sucursal == sucursal && mov.tipo == TipoMovimiento::Ajuste && mov.delta
                == cantidad_en(
                unidad_cantidad(objetivo),
                magnitud_de(objetivo) - magnitud_de(saldo_actual),
            ) && (mov.motivo matches Some(t) && t@ == recorte(motivo@)) && mov.estado
                == EstadoMovimiento::Aplicado && mov.registrado == ahora && mov.actualizado
                == ahora),
    {
        match ctx.requiere_en(Permiso::AjustarInventario, sucursal) {
            Ok(()) => {},
            Err(e) => {
                return Err(e);
            },
        }
        if !objetivo.concuerda_con(producto) {
            return Err(
                ErrorDominio::Regla(cadena("la cantidad no está en la unidad del producto")),
            );
        }
        if objetivo.es_negativa() {
            return Err(ErrorDominio::Regla(cadena("la existencia no puede ser negativa")));
        }
        let motivo = recortar(motivo);
        if motivo.unicode_len() == 0 {
            return Err(ErrorDominio::Invalido(cadena("el motivo del ajuste es obligatorio")));
        }
        let delta = match objetivo.restar(saldo_actual) {
            Ok(d) => d,
            Err(e) => {
                return Err(e);
            },
        };
        Ok(
            MovimientoInventario {
                id: nuevo_id(),
                producto: producto.id,
                sucursal,
                tipo: TipoMovimiento::Ajuste,
                delta,
                motivo: Some(cadena(motivo)),
                estado: EstadoMovimiento::Aplicado,
                registrado: ahora,
                actualizado: ahora,
            },
        )
    }

    /// La compensación de saldo que produce alternar la reversión, **sin** mutar:
    /// si está aplicado, quitar su efecto (`−delta`); si revertido, reaplicarlo (`+delta`).
    pub fn compensacion(&self) -> (r: Cantidad)
        requires
            magnitud_de(self.delta) > i64::MIN,
        ensures
            r == compensacion_de(self.estado, self.delta),
    {
        match self.estado {
            EstadoMovimiento::Aplicado => self.delta.negada(),
            EstadoMovimiento::Revertido => self.delta,
        }
    }

    /// Togglea el estado `aplicado ⇄ revertido` (tras validar el saldo). No
    /// duplica la entidad; cada alternancia se audita en la capa de datos.
    pub fn alternar_reversion(&mut self, ahora: Instante)
        ensures
            final(self).estado == estado_alterno(old(self).estado),
            final(self).actualizado == ahora,
            final(self).id == old(self).id,
            final(self).producto == old(self).producto,
            final(self).sucursal == old(self).sucursal,
            final(self).tipo == old(self).tipo,
            final(self).delta == old(self).delta,
            final(self).motivo == old(self).motivo,
            final(self).registrado == old(self).registrado,
    {
        self.estado =
        match self.estado {
            EstadoMovimiento::Aplicado => EstadoMovimiento::Revertido,
            EstadoMovimiento::Revertido => EstadoMovimiento::Aplicado,
        };
        self.actualizado = ahora;
    }
}

/// Existencia de un producto en una sucursal. Su cantidad nunca es negativa.
#[derive(Debug, Clone, Copy, PartialEq, Eq, Structural)]
pub struct Existencia {
    pub producto: u128,
    pub sucursal: u128,
    pub cantidad: Cantidad,
}

/// El resultado de aplicar un delta a una cantidad: la nueva cantidad, o el
/// rechazo (mezcla de unidades, o saldo negativo).
pub open spec fn aplicar_delta(c: Cantidad, delta: Cantidad) -> Option<Cantidad> {
    match suma_cantidades(c, delta) {
        Some(s) => if magnitud_de(s) < 0 {
            None
        } else {
            Some(s)
        },
        None => None,
    }
}

impl Existencia {
    pub fn nueva(producto: u128, sucursal: u128, cantidad: Cantidad) -> (r: Existencia)
        ensures
            r == (Existencia { producto, sucursal, cantidad }),
    {
        Existencia { producto, sucursal, cantidad }
    }

    /// Existencia cero (materialización perezosa).
    pub fn cero(producto: u128, sucursal: u128, unidad: UnidadVenta) -> (r: Existencia)
        ensures
            r == (Existencia { producto, sucursal, cantidad: cantidad_en(unidad, 0) }),
    {
        Existencia::nueva(producto, sucursal, Cantidad::cero(unidad))
    }

    /// Aplica un delta al saldo (misma unidad) y rechaza que quede negativo.
    pub fn aplicar(&self, delta: Cantidad) -> (r: Result<Existencia, ErrorDominio>)
        requires
            unidad_cantidad(self.cantidad) == unidad_cantidad(delta) ==> cabe_i64(
                magnitud_de(self.cantidad) + magnitud_de(delta),
            ),
        ensures
            aplicar_delta(self.cantidad, delta) matches Some(c) ==> r == Ok::<
                Existencia,
                ErrorDominio,
            >(Existencia { cantidad: c, ..*self }),
            suma_cantidades(self.cantidad, delta) is None ==> (r matches Err(
                ErrorDominio::Regla(m),
            ) && m@ == msj_mezcla()),
            suma_cantidades(self.cantidad, delta) is Some && aplicar_delta(self.cantidad, delta)
                is None ==> (r matches Err(ErrorDominio::Regla(m)) && m@ == msj_negativa()),
    {
        let cantidad = match self.cantidad.sumar(delta) {
            Ok(c) => c,
            Err(e) => {
                return Err(e);
            },
        };
        if cantidad.es_negativa() {
            return Err(ErrorDominio::Regla(cadena("la existencia no puede ser negativa")));
        }
        Ok(Existencia { cantidad, ..*self })
    }
}

// ---------------- leyes ----------------

/// Negar dos veces una cantidad la deja igual.
pub proof fn ley_opuesta_involutiva(c: Cantidad)
    requires
        magnitud_de(c) > i64::MIN,
    ensures
        opuesta(opuesta(c)) == c,
        unidad_cantidad(opuesta(c)) == unidad_cantidad(c),
{
}

/// Alternar la reversión dos veces devuelve el estado original, y la
/// compensación de cada alternancia es la opuesta de la anterior: rehacer
/// deshace lo que deshizo la reversión.
pub proof fn ley_reversion_alterna(estado: EstadoMovimiento, delta: Cantidad)
    requires
        magnitud_de(delta) > i64::MIN,
    ensures
        estado_alterno(estado_alterno(estado)) == estado,
        compensacion_de(estado_alterno(estado), delta) == opuesta(compensacion_de(estado, delta)),
{
}

/// El ajuste es absoluto: aplicar a la existencia el delta que calcula el
/// ajuste (`objetivo − saldo`) deja exactamente la cantidad contada.
pub proof fn ley_ajuste_absoluto(saldo: Cantidad, objetivo: Cantidad)
    requires
        unidad_cantidad(saldo) == unidad_cantidad(objetivo),
        magnitud_de(objetivo) >= 0,
        cabe_i64(magnitud_de(objetivo) - magnitud_de(saldo)),
    ensures
        aplicar_delta(
            saldo,
            cantidad_en(unidad_cantidad(objetivo), magnitud_de(objetivo) - magnitud_de(saldo)),
        ) == Some(objetivo),
{
}

/// Revertir un movimiento aplicado devuelve el saldo al que tenía antes de
/// aplicarlo.
pub proof fn ley_revertir_restaura(saldo: Cantidad, delta: Cantidad)
    requires
        magnitud_de(delta) > i64::MIN,
        magnitud_de(saldo) >= 0,
        cabe_i64(magnitud_de(saldo) + magnitud_de(delta)),
        aplicar_delta(saldo, delta) is Some,
    ensures
        aplicar_delta(
            aplicar_delta(saldo, delta)->0,
            compensacion_de(EstadoMovimiento::Aplicado, delta),
        ) == Some(saldo),
{
}

/// El saldo tras aplicar en orden los deltas a `inicial`, si ninguno se rechaza.
pub open spec fn saldo_tras(inicial: Cantidad, deltas: Seq<Cantidad>) -> Option<Cantidad>
    decreases deltas.len(),
{
    if deltas.len() == 0 {
        Some(inicial)
    } else {
        match saldo_tras(inicial, deltas.drop_last()) {
            Some(c) => aplicar_delta(c, deltas.last()),
            None => None,
        }
    }
}

/// La suma de las magnitudes de los deltas.
pub open spec fn suma_magnitudes(deltas: Seq<Cantidad>) -> int
    decreases deltas.len(),
{
    if deltas.len() == 0 {
        0
    } else {
        suma_magnitudes(deltas.drop_last()) + magnitud_de(deltas.last())
    }
}

/// El saldo iguala la suma de los movimientos: desde la existencia cero, si
/// cada delta se aplicó (y ninguna suma parcial desborda un `i64`), todos los
/// deltas están en la unidad de la existencia y el saldo es su suma.
pub proof fn ley_saldo_es_suma(unidad: UnidadVenta, deltas: Seq<Cantidad>)
    requires
        saldo_tras(cantidad_en(unidad, 0), deltas) is Some,
        forall|k: int| 0 <= k <= deltas.len() ==> cabe_i64(#[trigger] suma_magnitudes(deltas.take(k))),
    ensures
        saldo_tras(cantidad_en(unidad, 0), deltas) == Some(cantidad_en(unidad, suma_magnitudes(deltas))),
        forall|i: int| 0 <= i < deltas.len() ==> unidad_cantidad(#[trigger] deltas[i]) == unidad,
    decreases deltas.len(),
{
    assert(deltas.take(deltas.len() as int) =~= deltas);
    if deltas.len() > 0 {
        let previos = deltas.drop_last();
        assert forall|k: int| 0 <= k <= previos.len() implies cabe_i64(
            #[trigger] suma_magnitudes(previos.take(k)),
        ) by {
            assert(previos.take(k) =~= deltas.take(k));
        }
        ley_saldo_es_suma(unidad, previos);
        assert(cabe_i64(suma_magnitudes(deltas.take(previos.len() as int))));
        assert(deltas.take(previos.len() as int) =~= previos);
        assert forall|i: int| 0 <= i < deltas.len() implies unidad_cantidad(#[trigger] deltas[i])
            == unidad by {
            if i < previos.len() {
                assert(previos[i] == deltas[i]);
            }
        }
    }
}

} // verus!
