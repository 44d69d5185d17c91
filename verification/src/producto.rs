//! Catálogo de productos tipado por **unidad de venta**, con **origen** como eje
//! aparte. El tipo y el origen son inmutables tras el alta.

use vstd::prelude::*;
use vstd::string::StrSliceExecFns;

use crate::barcode::Ean13;
use crate::error::ErrorDominio;
use crate::externo::nuevo_id;
use crate::texto::{cadena, concatenar, decimal_con_signo, recortar, recorte, spec_decimal_con_signo};
use crate::tiempo::Instante;
use crate::unidades::Gramos;

verus! {

/// Cómo se cobra el producto.
#[derive(Debug, Clone, Copy, PartialEq, Eq, Structural)]
pub enum TipoProducto {
    /// Por kilogramo: monto = precio/kg × peso real.
    PesoVariable,
    /// Por unidad a precio fijo.
    Pieza,
}

/// De dónde viene el producto (eje independiente del tipo).
#[derive(Debug, Clone, Copy, PartialEq, Eq, Structural)]
pub enum OrigenProducto {
    /// Producido por matriz (acuña su propio barcode).
    Matriz,
    /// Comprado a proveedor externo (trae su GTIN de fábrica).
    Externo,
}

/// Unidad de venta, **derivada** del tipo.
#[derive(Debug, Clone, Copy, PartialEq, Eq, Structural)]
pub enum UnidadVenta {
    Kilogramo,
    Unidad,
}

/// La unidad de venta de cada tipo.
pub open spec fn unidad_de(tipo: TipoProducto) -> UnidadVenta {
    match tipo {
        TipoProducto::PesoVariable => UnidadVenta::Kilogramo,
        TipoProducto::Pieza => UnidadVenta::Unidad,
    }
}

impl TipoProducto {
    /// Unidad de venta derivada del tipo.
    pub fn unidad_venta(self) -> (r: UnidadVenta)
        ensures
            r == unidad_de(self),
    {
        match self {
            TipoProducto::PesoVariable => UnidadVenta::Kilogramo,
            TipoProducto::Pieza => UnidadVenta::Unidad,
        }
    }
}

/// Código de barras de un producto `pieza`, según su origen.
#[derive(Debug, Clone, PartialEq, Eq)]
pub enum CodigoBarras {
    /// GTIN de fábrica (producto comprado).
    Externo(Ean13),
    /// EAN-13 acuñado por matriz (producto producido).
    Matriz(Ean13),
}

/// El origen que declara un código.
pub open spec fn origen_del_codigo(c: CodigoBarras) -> OrigenProducto {
    match c {
        CodigoBarras::Externo(_) => OrigenProducto::Externo,
        CodigoBarras::Matriz(_) => OrigenProducto::Matriz,
    }
}

/// El EAN-13 que lleva un código, sea cual sea su origen.
pub open spec fn ean_del_codigo(c: CodigoBarras) -> Ean13 {
    match c {
        CodigoBarras::Externo(e) => e,
        CodigoBarras::Matriz(e) => e,
    }
}

impl CodigoBarras {
    pub fn ean(&self) -> (r: &Ean13)
        ensures
            *r == ean_del_codigo(*self),
    {
        match self {
            CodigoBarras::Externo(e) => e,
            CodigoBarras::Matriz(e) => e,
        }
    }
}

/// Vida útil de un producto en **meses enteros** positivos; determina la
/// caducidad calculada al etiquetar. Cambiarla no afecta lo ya etiquetado.
#[derive(Debug, Clone, Copy, PartialEq, Eq)]
pub struct VidaUtil {
    meses: i64,
}

impl View for VidaUtil {
    type V = int;

    closed spec fn view(&self) -> int {
        self.meses as int
    }
}

impl VidaUtil {
    #[verifier::type_invariant]
    spec fn positiva(&self) -> bool {
        self.meses > 0
    }

    /// Valida una vida útil: solo enteros positivos de meses.
    pub fn nueva(meses: i64) -> (r: Result<VidaUtil, ErrorDominio>)
        ensures
            meses > 0 ==> (r matches Ok(v) && v@ == meses),
            meses <= 0 ==> (r matches Err(ErrorDominio::Invalido(m)) && m@
                == "la vida útil debe ser un entero positivo de meses: "@ + spec_decimal_con_signo(
                meses as int,
            )),
    {
        if meses <= 0 {
            let n = decimal_con_signo(meses);
            return Err(
                ErrorDominio::Invalido(
                    concatenar("la vida útil debe ser un entero positivo de meses: ", n.as_str()),
                ),
            );
        }
        Ok(VidaUtil { meses })
    }

    pub fn meses(&self) -> (r: i64)
        ensures
            r == self@,
            r > 0,
    {
        proof {
            use_type_invariant(self);
        }
        self.meses
    }
}

impl Default for VidaUtil {
    /// Nueve meses, cuando no se captura.
    fn default() -> (r: VidaUtil)
        ensures
            r@ == 9,
    {
        VidaUtil { meses: 9 }
    }
}

/// Producto del catálogo global. `codigo` solo aplica a `pieza`; `peso_variable`
/// no lleva código de producto (se etiqueta por peso).
pub struct Producto {
    pub id: u128,
    pub nombre: String,
    pub tipo: TipoProducto,
    pub origen: OrigenProducto,
    pub codigo: Option<CodigoBarras>,
    /// Peso de empaque informativo (peso fijo); no interviene en el precio.
    pub peso_empaque: Option<Gramos>,
    /// Vida útil con que se calcula la caducidad al etiquetar.
    pub vida_util: VidaUtil,
    pub activo: bool,
    pub actualizado: Instante,
}

/// La regla cruzada de tipo, origen, código y empaque que incumple un alta (su
/// mensaje), o ninguna. El orden es el de las comprobaciones.
pub open spec fn regla_alta_incumplida(
    tipo: TipoProducto,
    origen: OrigenProducto,
    codigo: Option<CodigoBarras>,
    peso_empaque: Option<Gramos>,
) -> Option<Seq<char>> {
    if tipo == TipoProducto::PesoVariable && peso_empaque is Some {
        Some(
            "el peso de empaque es solo de productos pieza (peso fijo); el peso de un peso-variable se captura por ítem al pesar"@,
        )
    } else if tipo == TipoProducto::PesoVariable && codigo is Some {
        Some("un producto peso-variable no lleva código de barras de producto"@)
    } else if tipo == TipoProducto::Pieza && codigo is None {
        Some("un producto pieza requiere código de barras"@)
    } else if tipo == TipoProducto::Pieza && origen_del_codigo(codigo->0) != origen {
        Some("el origen del código no concuerda con el origen del producto"@)
    } else {
        None
    }
}

/// Un `pieza` aceptado lleva código, y el código declara el origen del
/// producto en ambos sentidos: de fábrica (externo) si y solo si el producto es
/// externo. Un `peso_variable` aceptado no lleva código ni peso de empaque.
pub proof fn ley_codigo_concuerda_con_origen(
    tipo: TipoProducto,
    origen: OrigenProducto,
    codigo: Option<CodigoBarras>,
    peso_empaque: Option<Gramos>,
)
    requires
        regla_alta_incumplida(tipo, origen, codigo, peso_empaque) is None,
    ensures
        tipo == TipoProducto::Pieza ==> (codigo matches Some(c) && ((c is Externo) <==> (origen
            == OrigenProducto::Externo))),
        tipo == TipoProducto::PesoVariable ==> codigo is None && peso_empaque is None,
{
}

impl Producto {
    /// Alta con validación de las reglas cruzadas de tipo/origen/código:
    /// - `PesoVariable` ⇒ sin código y sin peso de empaque (su peso es por-ítem).
    /// - `Pieza` ⇒ con código, cuyo origen concuerda con el del producto.
    pub fn nuevo(
        nombre: &str,
        tipo: TipoProducto,
        origen: OrigenProducto,
        codigo: Option<CodigoBarras>,
        peso_empaque: Option<Gramos>,
        ahora: Instante,
    ) -> (r: Result<Producto, ErrorDominio>)
        ensures
            recorte(nombre@).len() == 0 ==> (r matches Err(ErrorDominio::Invalido(m)) && m@
                == "el nombre del producto es obligatorio"@),
            recorte(nombre@).len() != 0 && regla_alta_incumplida(
                tipo,
                origen,
                codigo,
                peso_empaque,
            ) is Some ==> (r matches Err(ErrorDominio::Regla(m)) && m@ == regla_alta_incumplida(
                tipo,
                origen,
                codigo,
                peso_empaque,
            )->0),
            recorte(nombre@).len() != 0 && regla_alta_incumplida(
                tipo,
                origen,
                codigo,
                peso_empaque,
            ) is None ==> (r matches Ok(p) && p.nombre@ == recorte(nombre@) && p.tipo == tipo
                && p.origen == origen && p.codigo == codigo && p.peso_empaque == peso_empaque
                && p.vida_util@ == 9 && p.activo && p.actualizado == ahora),
            r matches Ok(p) ==> (p.tipo == TipoProducto::Pieza ==> (p.codigo matches Some(c) && ((
            c is Externo) <==> (p.origen == OrigenProducto::Externo)))),
            r matches Ok(p) ==> (p.tipo == TipoProducto::PesoVariable ==> p.codigo is None
                && p.peso_empaque is None),
    {
        let n = recortar(nombre);
        if n.unicode_len() == 0 {
            return Err(ErrorDominio::Invalido(cadena("el nombre del producto es obligatorio")));
        }
        proof {
            reveal_strlit(
                "el peso de empaque es solo de productos pieza (peso fijo); el peso de un peso-variable se captura por ítem al pesar",
            );
        }
        if tipo == TipoProducto::PesoVariable && peso_empaque.is_some() {
            return Err(
                ErrorDominio::Regla(
                    cadena(
                        "el peso de empaque es solo de productos pieza (peso fijo); el peso de un peso-variable se captura por ítem al pesar",
                    ),
                ),
            );
        }
        match &codigo {
            Some(c) => {
                if tipo == TipoProducto::PesoVariable {
                    return Err(
                        ErrorDominio::Regla(
                            cadena(
                                "un producto peso-variable no lleva código de barras de producto",
                            ),
                        ),
                    );
                }
                let concuerda = match (origen, c) {
                    (OrigenProducto::Externo, CodigoBarras::Externo(_)) => true,
                    (OrigenProducto::Matriz, CodigoBarras::Matriz(_)) => true,
                    _ => false,
                };
                if !concuerda {
                    return Err(
                        ErrorDominio::Regla(
                            cadena("el origen del código no concuerda con el origen del producto"),
                        ),
                    );
                }
            },
            None => {
                if tipo == TipoProducto::Pieza {
                    return Err(
                        ErrorDominio::Regla(cadena("un producto pieza requiere código de barras")),
                    );
                }
            },
        }
        Ok(
            Producto {
                id: nuevo_id(),
                nombre: cadena(n),
                tipo,
                origen,
                codigo,
                peso_empaque,
                vida_util: VidaUtil::default(),
                activo: true,
                actualizado: ahora,
            },
        )
    }

    /// Unidad de venta derivada del tipo.
    pub fn unidad_venta(&self) -> (r: UnidadVenta)
        ensures
            r == unidad_de(self.tipo),
    {
        self.tipo.unidad_venta()
    }
}

} // verus!
