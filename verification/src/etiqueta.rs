//! Etiquetado: etiquetas **por-ítem** con identidad propia, caducidad nominal
//! congelada al etiquetar y **cajas** que agrupan lo etiquetado.
//!
//! La caducidad es informativa: **jamás bloquea** operación alguna. La fecha de
//! etiquetado se guarda internamente y nunca se imprime. Etiquetar no mueve
//! inventario: matriz produce sin llevar stock propio.

use vstd::prelude::*;
use vstd::string::{StrSliceExecFns, StringExecFns};

use crate::acceso::{resultado_requiere_en, ContextoAcceso, Permiso};
use crate::barcode::{codigo_etiqueta, Ean13, MODULO_DISCRIMINADOR, PESO_MAXIMO_ETIQUETA};
use crate::error::ErrorDominio;
use crate::externo::nuevo_id;
use crate::producto::{OrigenProducto, Producto, TipoProducto, VidaUtil};
use crate::texto::{
    cadena, concatenar, decimal_con_signo, largo_bytes, palabras, separar_palabras, spec_decimal,
    spec_decimal_con_signo,
};
use crate::tiempo::{
    dia_civil, error_suma_meses, fecha_valida, ley_no_posterior_es_orden_numerico, no_posterior,
    numero_de_fecha, spec_texto_etiqueta, sumar_meses, Fecha, Instante, ZonaHoraria,
};
use crate::unidades::Gramos;

verus! {

/// Estado de una etiqueta o caja. `Vendida` queda reservada para el POS;
/// `Extraviada` la marca la recepción de un envío con faltantes.
#[derive(Debug, Clone, Copy, PartialEq, Eq, Structural)]
pub enum EstadoEtiqueta {
    Activa,
    Vendida,
    Extraviada,
}

/// La caducidad nominal: el día local del etiquetado más la vida útil en meses
/// calendáricos (`None` si el año sale de rango).
pub open spec fn caducidad_de(
    fecha_etiquetado: Instante,
    zona: ZonaHoraria,
    vida_util: VidaUtil,
) -> Option<(int, int, int)> {
    sumar_meses(dia_civil(fecha_etiquetado@, zona@), vida_util@)
}

/// Mayor vida útil, en meses, que la aritmética de fechas admite sumar.
pub open spec fn vida_util_sumable(vida_util: VidaUtil) -> bool {
    vida_util@ <= 239976
}

/// Caducidad nominal: fecha de etiquetado + vida útil en meses calendáricos,
/// con "el día" definido en la zona de la sucursal. El ajuste de fin de mes lo
/// resuelve la aritmética civil (31/05 + 9 → 28/29-02).
pub fn calcular_caducidad(fecha_etiquetado: Instante, zona: &ZonaHoraria, vida_util: VidaUtil) -> (r:
    Result<Fecha, ErrorDominio>)
    requires
        vida_util_sumable(vida_util),
    ensures
        caducidad_de(fecha_etiquetado, *zona, vida_util) matches Some(c) ==> (r matches Ok(f)
            && f@ == c),
        caducidad_de(fecha_etiquetado, *zona, vida_util) is None ==> (r matches Err(
            ErrorDominio::Invalido(m),
        ) && m@ == "caducidad fuera de rango: "@ + error_suma_meses(
            dia_civil(fecha_etiquetado@, zona@),
            vida_util@,
        )),
{
    let dia = fecha_etiquetado.dia_local(zona);
    match dia.sumar_meses(vida_util.meses()) {
        Ok(f) => Ok(f),
        Err(t) => Err(
            ErrorDominio::Invalido(concatenar("caducidad fuera de rango: ", t.as_str())),
        ),
    }
}

/// Fecha de caducidad como se imprime: `DD/MM/AAAA`.
pub fn formatear_caducidad(fecha: Fecha) -> (r: String)
    ensures
        r@ == spec_texto_etiqueta(fecha@),
{
    fecha.texto_etiqueta()
}

/// Contenido imprimible de una etiqueta: **exactamente tres elementos**, de
/// arriba hacia abajo. El tipo mismo no puede portar precio ni fecha de
/// etiquetado: no existen como campos.
pub struct ContenidoEtiqueta {
    pub barcode: String,
    pub nombre: String,
    /// `DD/MM/AAAA`; `None` solo en la caja de un producto externo.
    pub caducidad: Option<String>,
}

/// Un paso del acomodo en líneas: la palabra se suma a la última línea si cabe
/// (con su espacio), abre una segunda línea si aún no hay dos, o se corta ahí.
/// El `bool` dice si ya se cortó.
pub open spec fn acomodar(
    estado: (Seq<Seq<char>>, bool),
    palabra: Seq<char>,
    ancho: int,
) -> (Seq<Seq<char>>, bool) {
    let (lineas, cortado) = estado;
    if cortado {
        estado
    } else if lineas.len() > 0 && largo_bytes(lineas.last()) + 1 + largo_bytes(palabra) <= ancho {
        (lineas.update(lineas.len() - 1, lineas.last() + seq![' '] + palabra), false)
    } else if lineas.len() < 2 {
        (lineas.push(palabra), false)
    } else {
        (lineas, true)
    }
}

/// El acomodo de una secuencia de palabras, de la primera a la última.
pub open spec fn acomodo(palabras: Seq<Seq<char>>, ancho: int) -> (Seq<Seq<char>>, bool)
    decreases palabras.len(),
{
    if palabras.len() == 0 {
        (Seq::empty(), false)
    } else {
        acomodar(acomodo(palabras.drop_last(), ancho), palabras.last(), ancho)
    }
}

/// Las líneas del nombre en un ancho dado.
pub open spec fn lineas_de(nombre: Seq<char>, ancho: int) -> Seq<Seq<char>> {
    acomodo(palabras(nombre), ancho).0
}

impl ContenidoEtiqueta {
    /// El nombre en **hasta dos líneas** del ancho dado (en bytes); lo que no
    /// cabe se trunca (la etiqueta física es de tamaño fijo).
    pub fn lineas_nombre(&self, ancho: usize) -> (r: Vec<String>)
        ensures
            r@.len() == lineas_de(self.nombre@, ancho as int).len(),
            forall|i: int| 0 <= i < r@.len() ==> #[trigger] r@[i]@ == lineas_de(
                self.nombre@,
                ancho as int,
            )[i],
            exists|k: int|
                0 <= k <= palabras(self.nombre@).len() && unir(r@.map_values(|l: String| l@))
                    == unir(#[trigger] palabras(self.nombre@).take(k)),
    {
        let ps = separar_palabras(self.nombre.as_str());
        let ghost todas = palabras(self.nombre@);
        let mut lineas: Vec<String> = Vec::new();
        let mut i: usize = 0;
        while i < ps.len()
            invariant
                i <= ps@.len(),
                todas == palabras(self.nombre@),
                ps@.len() == todas.len(),
                forall|k: int| 0 <= k < ps@.len() ==> #[trigger] ps@[k]@ == todas[k],
                !acomodo(todas.subrange(0, i as int), ancho as int).1,
                lineas@.len() == acomodo(todas.subrange(0, i as int), ancho as int).0.len(),
                forall|k: int|
                    0 <= k < lineas@.len() ==> #[trigger] lineas@[k]@ == acomodo(
                        todas.subrange(0, i as int),
                        ancho as int,
                    ).0[k],
            decreases ps@.len() - i,
        {
            let ghost previo = todas.subrange(0, i as int);
            proof {
                assert(todas.subrange(0, i + 1).drop_last() =~= previo);
                assert(todas.subrange(0, i + 1).last() == todas[i as int]);
            }
            let palabra = ps[i].as_str();
            let n = lineas.len();
            let cabe = if n > 0 {
                let l = lineas[n - 1].as_str().len() as u128;
                l + 1 + (palabra.len() as u128) <= ancho as u128
            } else {
                false
            };
            if cabe {
                let mut ultima = lineas[n - 1].clone();
                ultima.append(" ");
                ultima.append(palabra);
                proof {
                    reveal_strlit(" ");
                }
                lineas.set(n - 1, ultima);
                proof {
                    let nuevo = acomodo(todas.subrange(0, i + 1), ancho as int).0;
                    assert(lineas@.len() == nuevo.len());
                    assert forall|k: int| 0 <= k < lineas@.len() implies #[trigger] lineas@[k]@
                        == nuevo[k] by {
                        if k == n - 1 {
                            assert(lineas@[k]@ =~= nuevo[k]);
                        }
                    }
                }
            } else if n < 2 {
                lineas.push(cadena(palabra));
            } else {
                proof {
                    assert(acomodo(todas.subrange(0, i + 1), ancho as int) == (
                        acomodo(previo, ancho as int).0,
                        true,
                    ));
                    lema_corte_persiste(todas, ancho as int, i as int + 1);
                    ley_lineas_son_un_prefijo(todas, ancho as int);
                    assert(lineas@.map_values(|l: String| l@) =~= acomodo(todas, ancho as int).0);
                }
                return lineas;
            }
            i = i + 1;
        }
        proof {
            assert(todas.subrange(0, todas.len() as int) =~= todas);
            ley_lineas_son_un_prefijo(todas, ancho as int);
            assert(lineas@.map_values(|l: String| l@) =~= acomodo(todas, ancho as int).0);
        }
        lineas
    }
}

/// Una vez cortado, el acomodo ya no cambia.
proof fn lema_corte_persiste(palabras: Seq<Seq<char>>, ancho: int, k: int)
    requires
        0 <= k <= palabras.len(),
        acomodo(palabras.subrange(0, k), ancho).1,
    ensures
        acomodo(palabras, ancho) == acomodo(palabras.subrange(0, k), ancho),
    decreases palabras.len() - k,
{
    if k < palabras.len() {
        assert(palabras.subrange(0, k + 1).drop_last() =~= palabras.subrange(0, k));
        lema_corte_persiste(palabras, ancho, k + 1);
    } else {
        assert(palabras.subrange(0, k) =~= palabras);
    }
}

/// Etiqueta por-ítem de un producto `peso_variable`: identidad propia
/// (discriminador antiduplicado), peso real y caducidad congelada. El barcode
/// carga solo peso + discriminador; el resto vive en este registro.
pub struct Etiqueta {
    pub id: u128,
    pub codigo: Ean13,
    pub discriminador: u64,
    pub producto: u128,
    pub peso: Gramos,
    pub sucursal: u128,
    /// Caja que la agrupa, si ya se cerró una.
    pub caja: Option<u128>,
    /// Interna: **nunca** se imprime.
    pub fecha_etiquetado: Instante,
    pub caducidad: Fecha,
    pub estado: EstadoEtiqueta,
    pub actualizado: Instante,
}

/// Mensaje del rechazo de un producto que no es peso-variable.
pub open spec fn msj_no_por_item() -> Seq<char> {
    "solo los productos peso-variable llevan etiqueta por-ítem; un pieza usa su barcode estable y se registra por caja"@
}

impl Etiqueta {
    /// Etiqueta una pesada. Exige `etiquetar` + alcance, que el producto sea
    /// `peso_variable` (los `pieza` usan su barcode estable) y un peso
    /// codificable; congela la caducidad.
    pub fn nueva(
        ctx: &ContextoAcceso,
        producto: &Producto,
        sucursal: u128,
        zona: &ZonaHoraria,
        peso: Gramos,
        discriminador: u64,
        ahora: Instante,
    ) -> (r: Result<Etiqueta, ErrorDominio>)
        requires
            vida_util_sumable(producto.vida_util),
        ensures
            resultado_requiere_en(*ctx, Permiso::Etiquetar, sucursal) matches Err(e) ==> r == Err::<
                Etiqueta,
                ErrorDominio,
            >(e),
            resultado_requiere_en(*ctx, Permiso::Etiquetar, sucursal) is Ok && producto.tipo
                != TipoProducto::PesoVariable ==> (r matches Err(ErrorDominio::Regla(m)) && m@
                == msj_no_por_item()),
            resultado_requiere_en(*ctx, Permiso::Etiquetar, sucursal) is Ok && producto.tipo
                == TipoProducto::PesoVariable && (peso.0 <= 0 || peso.0 > PESO_MAXIMO_ETIQUETA) ==> (
            r matches Err(ErrorDominio::Invalido(m)) && m@
                == "peso fuera del rango de la etiqueta (1 a 99999 g): "@ + spec_decimal_con_signo(
                peso.0 as int,
            )),
            resultado_requiere_en(*ctx, Permiso::Etiquetar, sucursal) is Ok && producto.tipo
                == TipoProducto::PesoVariable && 0 < peso.0 <= PESO_MAXIMO_ETIQUETA && discriminador
                >= MODULO_DISCRIMINADOR ==> (r matches Err(ErrorDominio::Invalido(m)) && m@
                == "discriminador fuera de rango: "@ + spec_decimal(discriminador as nat)),
            resultado_requiere_en(*ctx, Permiso::Etiquetar, sucursal) is Ok && producto.tipo
                == TipoProducto::PesoVariable && 0 < peso.0 <= PESO_MAXIMO_ETIQUETA && discriminador
                < MODULO_DISCRIMINADOR && caducidad_de(ahora, *zona, producto.vida_util) is None ==> (
            r matches Err(ErrorDominio::Invalido(m)) && m@ == "caducidad fuera de rango: "@
                + error_suma_meses(dia_civil(ahora@, zona@), producto.vida_util@)),
            caducidad_de(ahora, *zona, producto.vida_util) matches Some(c) ==> (resultado_requiere_en(
                *ctx,
                Permiso::Etiquetar,
                sucursal,
            ) is Ok && producto.tipo == TipoProducto::PesoVariable && 0 < peso.0
                <= PESO_MAXIMO_ETIQUETA && discriminador < MODULO_DISCRIMINADOR ==> (r matches Ok(e)
                && e.codigo@ == codigo_etiqueta(discriminador as nat, peso.0 as nat)
                && e.discriminador == discriminador && e.producto == producto.id && e.peso == peso
                && e.sucursal == sucursal && e.caja is None && e.fecha_etiquetado == ahora
                && e.caducidad@ == c && e.estado == EstadoEtiqueta::Activa && e.actualizado
                == ahora)),
    {
        match ctx.requiere_en(Permiso::Etiquetar, sucursal) {
            Ok(()) => {},
            Err(e) => {
                return Err(e);
            },
        }
        if producto.tipo != TipoProducto::PesoVariable {
            return Err(
                ErrorDominio::Regla(
                    cadena(
                        "solo los productos peso-variable llevan etiqueta por-ítem; un pieza usa su barcode estable y se registra por caja",
                    ),
                ),
            );
        }
        let codigo = match Ean13::generar_etiqueta(discriminador, peso) {
            Ok(c) => c,
            Err(e) => {
                return Err(e);
            },
        };
        let caducidad = match calcular_caducidad(ahora, zona, producto.vida_util) {
            Ok(c) => c,
            Err(e) => {
                return Err(e);
            },
        };
        Ok(
            Etiqueta {
                id: nuevo_id(),
                codigo,
                discriminador,
                producto: producto.id,
                peso,
                sucursal,
                caja: None,
                fecha_etiquetado: ahora,
                caducidad,
                estado: EstadoEtiqueta::Activa,
                actualizado: ahora,
            },
        )
    }

    /// Contenido imprimible de la etiqueta: barcode, nombre, caducidad.
    pub fn contenido(&self, nombre_producto: &str) -> (r: ContenidoEtiqueta)
        ensures
            r.barcode@ == self.codigo@,
            r.nombre@ == nombre_producto@,
            r.caducidad matches Some(t) && t@ == spec_texto_etiqueta(self.caducidad@),
    {
        ContenidoEtiqueta {
            barcode: cadena(self.codigo.get()),
            nombre: cadena(nombre_producto),
            caducidad: Some(formatear_caducidad(self.caducidad)),
        }
    }
}

/// Caja que agrupa lo etiquetado: etiquetas por-ítem (`peso_variable`) o una
/// cantidad de unidades idénticas (`pieza`). Es la unidad natural del traslado.
pub struct CajaEtiquetado {
    pub id: u128,
    pub producto: u128,
    pub sucursal: u128,
    /// Unidades contenidas; `None` en una caja de pesadas (sus etiquetas la describen).
    pub cantidad: Option<i64>,
    pub fecha_etiquetado: Instante,
    /// `None` en productos externos: conservan la caducidad de su fábrica.
    pub caducidad: Option<Fecha>,
    pub estado: EstadoEtiqueta,
    pub actualizado: Instante,
}

/// Cómo falla la primera etiqueta impropia desde la posición `i`: `Some(true)`
/// si es de otro producto o sucursal, `Some(false)` si no está activa o ya
/// tiene caja, `None` si todas son propias.
pub open spec fn revision_desde(etiquetas: Seq<Etiqueta>, i: int, producto: u128, sucursal: u128) -> Option<
    bool,
>
    decreases etiquetas.len() - i,
{
    if i < 0 || i >= etiquetas.len() {
        None
    } else if etiquetas[i].producto != producto || etiquetas[i].sucursal != sucursal {
        Some(true)
    } else if etiquetas[i].estado != EstadoEtiqueta::Activa || etiquetas[i].caja is Some {
        Some(false)
    } else {
        revision_desde(etiquetas, i + 1, producto, sucursal)
    }
}

/// `f` es la caducidad más próxima de las etiquetas: la de alguna, y ninguna
/// es anterior.
pub open spec fn es_caducidad_minima(f: (int, int, int), etiquetas: Seq<Etiqueta>) -> bool {
    &&& exists|j: int| 0 <= j < etiquetas.len() && #[trigger] etiquetas[j].caducidad@ == f
    &&& forall|k: int| 0 <= k < etiquetas.len() ==> no_posterior(f, #[trigger] etiquetas[k].caducidad@)
}

/// La caducidad de una caja de pesadas es la más próxima por calendario: de
/// fechas válidas, su número `AAAAMMDD` no pasa del de ninguna de sus
/// etiquetas, y es el de alguna.
pub proof fn ley_caducidad_de_caja_es_la_menor(f: (int, int, int), etiquetas: Seq<Etiqueta>)
    requires
        fecha_valida(f),
        forall|k: int| 0 <= k < etiquetas.len() ==> fecha_valida(#[trigger] etiquetas[k].caducidad@),
        es_caducidad_minima(f, etiquetas),
    ensures
        forall|k: int|
            0 <= k < etiquetas.len() ==> numero_de_fecha(f) <= numero_de_fecha(
                #[trigger] etiquetas[k].caducidad@,
            ),
        exists|j: int| 0 <= j < etiquetas.len() && #[trigger] etiquetas[j].caducidad@ == f,
{
    assert forall|k: int| 0 <= k < etiquetas.len() implies numero_de_fecha(f) <= numero_de_fecha(
        #[trigger] etiquetas[k].caducidad@,
    ) by {
        ley_no_posterior_es_orden_numerico(f, etiquetas[k].caducidad@);
    }
}

impl CajaEtiquetado {
    /// Cierra una caja de pesadas: agrupa etiquetas ya emitidas del **mismo
    /// producto y sucursal**, activas y sin caja previa. Su caducidad es la más
    /// próxima de sus etiquetas (rotación FIFO).
    pub fn cerrar_pesadas(
        ctx: &ContextoAcceso,
        producto: &Producto,
        etiquetas: &[Etiqueta],
        ahora: Instante,
    ) -> (r: Result<CajaEtiquetado, ErrorDominio>)
        ensures
            etiquetas@.len() == 0 ==> (r matches Err(ErrorDominio::Invalido(m)) && m@
                == "una caja de pesadas requiere al menos una etiqueta"@),
            etiquetas@.len() > 0 ==> {
                let suc = etiquetas@[0].sucursal;
                &&& resultado_requiere_en(*ctx, Permiso::Etiquetar, suc) matches Err(e) ==> r
                    == Err::<CajaEtiquetado, ErrorDominio>(e)
                &&& resultado_requiere_en(*ctx, Permiso::Etiquetar, suc) is Ok && producto.tipo
                    != TipoProducto::PesoVariable ==> (r matches Err(ErrorDominio::Regla(m)) && m@
                    == "una caja de pesadas es de un producto peso-variable"@)
                &&& resultado_requiere_en(*ctx, Permiso::Etiquetar, suc) is Ok && producto.tipo
                    == TipoProducto::PesoVariable && revision_desde(etiquetas@, 0, producto.id, suc)
                    == Some(true) ==> (r matches Err(ErrorDominio::Regla(m)) && m@
                    == "todas las etiquetas de la caja deben ser del mismo producto y sucursal"@)
                &&& resultado_requiere_en(*ctx, Permiso::Etiquetar, suc) is Ok && producto.tipo
                    == TipoProducto::PesoVariable && revision_desde(etiquetas@, 0, producto.id, suc)
                    == Some(false) ==> (r matches Err(ErrorDominio::Regla(m)) && m@
                    == "la caja solo agrupa etiquetas activas que no estén ya en otra caja"@)
                &&& resultado_requiere_en(*ctx, Permiso::Etiquetar, suc) is Ok && producto.tipo
                    == TipoProducto::PesoVariable && revision_desde(etiquetas@, 0, producto.id, suc)
                    is None ==> (r matches Ok(c) && c.producto == producto.id && c.sucursal == suc
                    && c.cantidad is None && c.fecha_etiquetado == ahora && (c.caducidad matches Some(
                    f,
                ) && es_caducidad_minima(f@, etiquetas@)) && c.estado == EstadoEtiqueta::Activa
                    && c.actualizado == ahora)
            },
            r matches Ok(c) ==> (c.caducidad matches Some(f) && forall|k: int|
                0 <= k < etiquetas@.len() ==> numero_de_fecha(f@) <= numero_de_fecha(
                    #[trigger] etiquetas@[k].caducidad@,
                )),
    {
        if etiquetas.len() == 0 {
            return Err(
                ErrorDominio::Invalido(cadena("una caja de pesadas requiere al menos una etiqueta")),
            );
        }
        let sucursal = etiquetas[0].sucursal;
        match ctx.requiere_en(Permiso::Etiquetar, sucursal) {
            Ok(()) => {},
            Err(e) => {
                return Err(e);
            },
        }
        if producto.tipo != TipoProducto::PesoVariable {
            return Err(
                ErrorDominio::Regla(cadena("una caja de pesadas es de un producto peso-variable")),
            );
        }
        let mut i: usize = 0;
        while i < etiquetas.len()
            invariant
                i <= etiquetas@.len(),
                sucursal == etiquetas@[0].sucursal,
                resultado_requiere_en(*ctx, Permiso::Etiquetar, sucursal) is Ok,
                producto.tipo == TipoProducto::PesoVariable,
                etiquetas@.len() > 0,
                revision_desde(etiquetas@, 0, producto.id, sucursal) == revision_desde(
                    etiquetas@,
                    i as int,
                    producto.id,
                    sucursal,
                ),
            decreases etiquetas@.len() - i,
        {
            let e = &etiquetas[i];
            if e.producto != producto.id || e.sucursal != sucursal {
                return Err(
                    ErrorDominio::Regla(
                        cadena(
                            "todas las etiquetas de la caja deben ser del mismo producto y sucursal",
                        ),
                    ),
                );
            }
            if e.estado != EstadoEtiqueta::Activa || e.caja.is_some() {
                return Err(
                    ErrorDominio::Regla(
                        cadena("la caja solo agrupa etiquetas activas que no estén ya en otra caja"),
                    ),
                );
            }
            i = i + 1;
        }
        let mut minima = etiquetas[0].caducidad;
        assert(etiquetas@[0].caducidad@ == minima@);
        let mut j: usize = 1;
        while j < etiquetas.len()
            invariant
                1 <= j <= etiquetas@.len(),
                exists|k: int| 0 <= k < j && #[trigger] etiquetas@[k].caducidad@ == minima@,
                forall|k: int| 0 <= k < j ==> no_posterior(minima@, #[trigger] etiquetas@[k].caducidad@),
                forall|k: int|
                    0 <= k < j ==> numero_de_fecha(minima@) <= numero_de_fecha(
                        #[trigger] etiquetas@[k].caducidad@,
                    ),
            decreases etiquetas@.len() - j,
        {
            let c = etiquetas[j].caducidad;
            if !minima.no_posterior_a(&c) {
                minima = c;
            }
            j = j + 1;
        }
        Ok(
            CajaEtiquetado {
                id: nuevo_id(),
                producto: producto.id,
                sucursal,
                cantidad: None,
                fecha_etiquetado: ahora,
                caducidad: Some(minima),
                estado: EstadoEtiqueta::Activa,
                actualizado: ahora,
            },
        )
    }

    /// Cierra una caja de un producto `pieza`: sin pesar y sin etiquetas
    /// por-ítem, solo la **cantidad contenida**. La caducidad impresa aplica
    /// únicamente a lo producido por matriz.
    pub fn cerrar_pieza(
        ctx: &ContextoAcceso,
        producto: &Producto,
        sucursal: u128,
        zona: &ZonaHoraria,
        cantidad: i64,
        ahora: Instante,
    ) -> (r: Result<CajaEtiquetado, ErrorDominio>)
        requires
            producto.origen == OrigenProducto::Matriz ==> vida_util_sumable(producto.vida_util),
        ensures
            resultado_requiere_en(*ctx, Permiso::Etiquetar, sucursal) matches Err(e) ==> r == Err::<
                CajaEtiquetado,
                ErrorDominio,
            >(e),
            resultado_requiere_en(*ctx, Permiso::Etiquetar, sucursal) is Ok && producto.tipo
                != TipoProducto::Pieza ==> (r matches Err(ErrorDominio::Regla(m)) && m@
                == "una caja por cantidad es de un producto pieza; el peso-variable se etiqueta por pesada"@),
            resultado_requiere_en(*ctx, Permiso::Etiquetar, sucursal) is Ok && producto.tipo
                == TipoProducto::Pieza && cantidad <= 0 ==> (r matches Err(ErrorDominio::Invalido(m))
                && m@ == "la cantidad de la caja debe ser positiva: "@ + spec_decimal_con_signo(
                cantidad as int,
            )),
            resultado_requiere_en(*ctx, Permiso::Etiquetar, sucursal) is Ok && producto.tipo
                == TipoProducto::Pieza && cantidad > 0 && producto.origen == OrigenProducto::Matriz
                && caducidad_de(ahora, *zona, producto.vida_util) is None ==> (r matches Err(
                ErrorDominio::Invalido(m),
            ) && m@ == "caducidad fuera de rango: "@ + error_suma_meses(
                dia_civil(ahora@, zona@),
                producto.vida_util@,
            )),
            resultado_requiere_en(*ctx, Permiso::Etiquetar, sucursal) is Ok && producto.tipo
                == TipoProducto::Pieza && cantidad > 0 && (producto.origen == OrigenProducto::Externo
                || caducidad_de(ahora, *zona, producto.vida_util) is Some) ==> (r matches Ok(c)
                && c.producto == producto.id && c.sucursal == sucursal && c.cantidad == Some(
                cantidad,
            ) && c.fecha_etiquetado == ahora && (if producto.origen == OrigenProducto::Matriz {
                c.caducidad matches Some(f) && Some(f@) == caducidad_de(
                    ahora,
                    *zona,
                    producto.vida_util,
                )
            } else {
                c.caducidad is None
            }) && c.estado == EstadoEtiqueta::Activa && c.actualizado == ahora),
    {
        match ctx.requiere_en(Permiso::Etiquetar, sucursal) {
            Ok(()) => {},
            Err(e) => {
                return Err(e);
            },
        }
        if producto.tipo != TipoProducto::Pieza {
            return Err(
                ErrorDominio::Regla(
                    cadena(
                        "una caja por cantidad es de un producto pieza; el peso-variable se etiqueta por pesada",
                    ),
                ),
            );
        }
        if cantidad <= 0 {
            let n = decimal_con_signo(cantidad);
            return Err(
                ErrorDominio::Invalido(
                    concatenar("la cantidad de la caja debe ser positiva: ", n.as_str()),
                ),
            );
        }
        let caducidad = match producto.origen {
            OrigenProducto::Matriz => match calcular_caducidad(ahora, zona, producto.vida_util) {
                Ok(c) => Some(c),
                Err(e) => {
                    return Err(e);
                },
            },
            OrigenProducto::Externo => None,
        };
        Ok(
            CajaEtiquetado {
                id: nuevo_id(),
                producto: producto.id,
                sucursal,
                cantidad: Some(cantidad),
                fecha_etiquetado: ahora,
                caducidad,
                estado: EstadoEtiqueta::Activa,
                actualizado: ahora,
            },
        )
    }

    /// Contenido imprimible de la **etiqueta de caja** de un `pieza`: usa el
    /// barcode estable del producto; sin caducidad si es externo.
    pub fn contenido(&self, nombre_producto: &str, codigo_producto: &Ean13) -> (r: ContenidoEtiqueta)
        ensures
            r.barcode@ == codigo_producto@,
            r.nombre@ == nombre_producto@,
            self.caducidad matches Some(f) ==> (r.caducidad matches Some(t) && t@
                == spec_texto_etiqueta(f@)),
            self.caducidad is None ==> r.caducidad is None,
    {
        ContenidoEtiqueta {
            barcode: cadena(codigo_producto.get()),
            nombre: cadena(nombre_producto),
            caducidad: match self.caducidad {
                Some(f) => Some(formatear_caducidad(f)),
                None => None,
            },
        }
    }
}

// ---------------- leyes ----------------

/// Las palabras escritas una tras otra con un espacio entre cada dos.
pub open spec fn unir(palabras: Seq<Seq<char>>) -> Seq<char>
    decreases palabras.len(),
{
    if palabras.len() == 0 {
        Seq::empty()
    } else if palabras.len() == 1 {
        palabras[0]
    } else {
        unir(palabras.drop_last()) + seq![' '] + palabras.last()
    }
}

/// Alargar la última línea con un espacio y una palabra alarga igual el texto
/// de todas las líneas unidas.
proof fn lema_unir_alarga(lineas: Seq<Seq<char>>, palabra: Seq<char>)
    requires
        lineas.len() > 0,
    ensures
        unir(lineas.update(lineas.len() - 1, lineas.last() + seq![' '] + palabra)) == unir(lineas)
            + seq![' '] + palabra,
{
    let nuevas = lineas.update(lineas.len() - 1, lineas.last() + seq![' '] + palabra);
    assert(nuevas.drop_last() =~= lineas.drop_last());
    if lineas.len() == 1 {
        assert(nuevas[0] == lineas[0] + seq![' '] + palabra);
        assert(unir(nuevas) =~= unir(lineas) + seq![' '] + palabra);
    } else {
        assert(unir(nuevas) =~= unir(lineas) + seq![' '] + palabra);
    }
}

/// Lo que el acomodo mantiene al avanzar: sin corte, las líneas unidas son
/// todas las palabras; con corte, son las primeras `k` y la palabra `k` ya no
/// cabía en la segunda línea.
proof fn lema_acomodo_prefijo(palabras: Seq<Seq<char>>, ancho: int)
    ensures
        acomodo(palabras, ancho).0.len() <= palabras.len(),
        !acomodo(palabras, ancho).1 ==> unir(acomodo(palabras, ancho).0) == unir(palabras),
        !acomodo(palabras, ancho).1 && palabras.len() > 0 ==> acomodo(palabras, ancho).0.len()
            > 0,
        acomodo(palabras, ancho).1 ==> exists|k: int|
            0 <= k < palabras.len() && unir(acomodo(palabras, ancho).0) == unir(palabras.take(k))
                && acomodo(palabras, ancho).0.len() == 2 && largo_bytes(
                acomodo(palabras, ancho).0[1],
            ) + 1 + largo_bytes(#[trigger] palabras[k]) > ancho,
    decreases palabras.len(),
{
    if palabras.len() > 0 {
        let previas = palabras.drop_last();
        let w = palabras.last();
        lema_acomodo_prefijo(previas, ancho);
        ley_dos_lineas(previas, ancho);
        let (lineas, cortado) = acomodo(previas, ancho);
        assert(palabras =~= previas.push(w));
        if cortado {
            let k = choose|k: int|
                0 <= k < previas.len() && unir(lineas) == unir(previas.take(k)) && lineas.len() == 2
                    && largo_bytes(lineas[1]) + 1 + largo_bytes(#[trigger] previas[k]) > ancho;
            assert(previas.take(k) =~= palabras.take(k));
            assert(palabras[k] == previas[k]);
        } else if lineas.len() > 0 && largo_bytes(lineas.last()) + 1 + largo_bytes(w) <= ancho {
            lema_unir_alarga(lineas, w);
            assert(previas.len() > 0);
            assert(unir(palabras) == unir(previas) + seq![' '] + w);
        } else if lineas.len() < 2 {
            if lineas.len() == 0 {
                assert(previas.len() == 0);
                assert(unir(lineas.push(w)) == w);
                assert(unir(palabras) == w);
            } else {
                assert(lineas.push(w).drop_last() =~= lineas);
                assert(unir(lineas.push(w)) == unir(lineas) + seq![' '] + w);
                assert(unir(palabras) == unir(previas) + seq![' '] + w);
            }
        } else {
            let k = previas.len() as int;
            assert(palabras.take(k) =~= previas);
            assert(palabras[k] == w);
            assert(lineas.len() == 2);
        }
    }
}

/// Lo que no cabe se trunca, sin saltar palabras: las líneas, unidas con un
/// espacio, son exactamente las primeras `k` palabras del nombre, en orden; y
/// si no caben todas (`k` menor que su número), hay dos líneas y la palabra
/// `k` no cabía al final de la segunda.
pub proof fn ley_lineas_son_un_prefijo(palabras: Seq<Seq<char>>, ancho: int)
    ensures
        exists|k: int|
            0 <= k <= palabras.len() && unir(acomodo(palabras, ancho).0) == unir(
                #[trigger] palabras.take(k),
            ) && (k < palabras.len() ==> acomodo(palabras, ancho).0.len() == 2 && largo_bytes(
                acomodo(palabras, ancho).0[1],
            ) + 1 + largo_bytes(palabras[k]) > ancho),
{
    lema_acomodo_prefijo(palabras, ancho);
    if !acomodo(palabras, ancho).1 {
        assert(palabras.take(palabras.len() as int) =~= palabras);
    } else {
        let k = choose|k: int|
            0 <= k < palabras.len() && unir(acomodo(palabras, ancho).0) == unir(palabras.take(k))
                && acomodo(palabras, ancho).0.len() == 2 && largo_bytes(acomodo(palabras, ancho).0[1])
                + 1 + largo_bytes(#[trigger] palabras[k]) > ancho;
        assert(unir(acomodo(palabras, ancho).0) == unir(palabras.take(k)));
    }
}

/// El nombre de una etiqueta ocupa a lo sumo dos líneas.
pub proof fn ley_dos_lineas(palabras: Seq<Seq<char>>, ancho: int)
    ensures
        acomodo(palabras, ancho).0.len() <= 2,
    decreases palabras.len(),
{
    if palabras.len() > 0 {
        ley_dos_lineas(palabras.drop_last(), ancho);
    }
}

} // verus!
