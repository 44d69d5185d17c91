//! Textos con que la capa de datos persiste los enumerados del dominio, y su
//! lectura de vuelta. Lo que no se reconoce al leer es un dato corrupto.

use vstd::prelude::*;

use crate::almacen::ErrorAlmacen;
use crate::sucursal::TipoSucursal;
use crate::producto::TipoProducto;
use crate::producto::OrigenProducto;
use crate::precio::Nivel;
use crate::aprobacion::EstadoAprobacion;
use crate::inventario::TipoMovimiento;
use crate::inventario::EstadoMovimiento;
use crate::etiqueta::EstadoEtiqueta;
use crate::notificacion::TipoNotificacion;
use crate::texto::{concatenar, mismo_texto};

verus! {
/// El texto persistido de cada valor de `TipoSucursal`.
pub open spec fn texto_tipo_sucursal(v: TipoSucursal) -> Seq<char> {
    match v {
        TipoSucursal::Matriz => "Matriz"@,
        TipoSucursal::Expendio => "Expendio"@,
    }
}

/// El valor de `TipoSucursal` que denota un texto persistido, si alguno.
pub open spec fn leido_tipo_sucursal(s: Seq<char>) -> Option<TipoSucursal> {
    if s == "Matriz"@ {
        Some(TipoSucursal::Matriz)
    } else if s == "Expendio"@ {
        Some(TipoSucursal::Expendio)
    } else {
        None
    }
}

pub fn tipo_suc_txt(v: TipoSucursal) -> (r: &'static str)
    ensures
        r@ == texto_tipo_sucursal(v),
{
    match v {
        TipoSucursal::Matriz => "Matriz",
        TipoSucursal::Expendio => "Expendio",
    }
}

pub fn tipo_suc_de(s: &str) -> (r: Result<TipoSucursal, ErrorAlmacen>)
    ensures
        leido_tipo_sucursal(s@) matches Some(v) ==> r == Ok::<TipoSucursal, ErrorAlmacen>(v),
        leido_tipo_sucursal(s@) is None ==> (r matches Err(ErrorAlmacen::Corrupto(m)) && m@
            == "tipo de sucursal desconocido: "@ + s@),
{
    if mismo_texto(s, "Matriz") {
        return Ok(TipoSucursal::Matriz);
    }
    if mismo_texto(s, "Expendio") {
        return Ok(TipoSucursal::Expendio);
    }
    Err(ErrorAlmacen::Corrupto(concatenar("tipo de sucursal desconocido: ", s)))
}

/// Lo que se escribe de un `TipoSucursal` se lee de vuelta como el mismo valor, y
/// un texto que se lee como un valor es exactamente el texto de ese valor.
pub proof fn ley_ida_vuelta_tipo_sucursal(v: TipoSucursal, s: Seq<char>)
    ensures
        leido_tipo_sucursal(texto_tipo_sucursal(v)) == Some(v),
        leido_tipo_sucursal(s) == Some(v) ==> texto_tipo_sucursal(v) == s,
{
    reveal_strlit("Matriz");
    reveal_strlit("Expendio");
    assert("Matriz"@.len() != "Expendio"@.len());
}

/// El texto persistido de cada valor de `TipoProducto`.
pub open spec fn texto_tipo_producto(v: TipoProducto) -> Seq<char> {
    match v {
        TipoProducto::PesoVariable => "PesoVariable"@,
        TipoProducto::Pieza => "Pieza"@,
    }
}

/// El valor de `TipoProducto` que denota un texto persistido, si alguno.
pub open spec fn leido_tipo_producto(s: Seq<char>) -> Option<TipoProducto> {
    if s == "PesoVariable"@ {
        Some(TipoProducto::PesoVariable)
    } else if s == "Pieza"@ {
        Some(TipoProducto::Pieza)
    } else {
        None
    }
}

pub fn tipo_prod_txt(v: TipoProducto) -> (r: &'static str)
    ensures
        r@ == texto_tipo_producto(v),
{
    match v {
        TipoProducto::PesoVariable => "PesoVariable",
        TipoProducto::Pieza => "Pieza",
    }
}

pub fn tipo_prod_de(s: &str) -> (r: Result<TipoProducto, ErrorAlmacen>)
    ensures
        leido_tipo_producto(s@) matches Some(v) ==> r == Ok::<TipoProducto, ErrorAlmacen>(v),
        leido_tipo_producto(s@) is None ==> (r matches Err(ErrorAlmacen::Corrupto(m)) && m@
            == "tipo de producto desconocido: "@ + s@),
{
    if mismo_texto(s, "PesoVariable") {
        return Ok(TipoProducto::PesoVariable);
    }
    if mismo_texto(s, "Pieza") {
        return Ok(TipoProducto::Pieza);
    }
    Err(ErrorAlmacen::Corrupto(concatenar("tipo de producto desconocido: ", s)))
}

/// Lo que se escribe de un `TipoProducto` se lee de vuelta como el mismo valor, y
/// un texto que se lee como un valor es exactamente el texto de ese valor.
pub proof fn ley_ida_vuelta_tipo_producto(v: TipoProducto, s: Seq<char>)
    ensures
        leido_tipo_producto(texto_tipo_producto(v)) == Some(v),
        leido_tipo_producto(s) == Some(v) ==> texto_tipo_producto(v) == s,
{
    reveal_strlit("PesoVariable");
    reveal_strlit("Pieza");
    assert("PesoVariable"@.len() != "Pieza"@.len());
}

/// El texto persistido de cada valor de `OrigenProducto`.
pub open spec fn texto_origen(v: OrigenProducto) -> Seq<char> {
    match v {
        OrigenProducto::Matriz => "Matriz"@,
        OrigenProducto::Externo => "Externo"@,
    }
}

/// El valor de `OrigenProducto` que denota un texto persistido, si alguno.
pub open spec fn leido_origen(s: Seq<char>) -> Option<OrigenProducto> {
    if s == "Matriz"@ {
        Some(OrigenProducto::Matriz)
    } else if s == "Externo"@ {
        Some(OrigenProducto::Externo)
    } else {
        None
    }
}

pub fn origen_txt(v: OrigenProducto) -> (r: &'static str)
    ensures
        r@ == texto_origen(v),
{
    match v {
        OrigenProducto::Matriz => "Matriz",
        OrigenProducto::Externo => "Externo",
    }
}

pub fn origen_de(s: &str) -> (r: Result<OrigenProducto, ErrorAlmacen>)
    ensures
        leido_origen(s@) matches Some(v) ==> r == Ok::<OrigenProducto, ErrorAlmacen>(v),
        leido_origen(s@) is None ==> (r matches Err(ErrorAlmacen::Corrupto(m)) && m@
            == "origen desconocido: "@ + s@),
{
    if mismo_texto(s, "Matriz") {
        return Ok(OrigenProducto::Matriz);
    }
    if mismo_texto(s, "Externo") {
        return Ok(OrigenProducto::Externo);
    }
    Err(ErrorAlmacen::Corrupto(concatenar("origen desconocido: ", s)))
}

/// Lo que se escribe de un `OrigenProducto` se lee de vuelta como el mismo valor, y
/// un texto que se lee como un valor es exactamente el texto de ese valor.
pub proof fn ley_ida_vuelta_origen(v: OrigenProducto, s: Seq<char>)
    ensures
        leido_origen(texto_origen(v)) == Some(v),
        leido_origen(s) == Some(v) ==> texto_origen(v) == s,
{
    reveal_strlit("Matriz");
    reveal_strlit("Externo");
    assert("Matriz"@.len() != "Externo"@.len());
}

/// El texto persistido de cada valor de `Nivel`.
pub open spec fn texto_nivel(v: Nivel) -> Seq<char> {
    match v {
        Nivel::Menudeo => "Menudeo"@,
        Nivel::MedioMayoreo => "MedioMayoreo"@,
        Nivel::Mayoreo => "Mayoreo"@,
    }
}

/// El valor de `Nivel` que denota un texto persistido, si alguno.
pub open spec fn leido_nivel(s: Seq<char>) -> Option<Nivel> {
    if s == "Menudeo"@ {
        Some(Nivel::Menudeo)
    } else if s == "MedioMayoreo"@ {
        Some(Nivel::MedioMayoreo)
    } else if s == "Mayoreo"@ {
        Some(Nivel::Mayoreo)
    } else {
        None
    }
}

pub fn nivel_txt(v: Nivel) -> (r: &'static str)
    ensures
        r@ == texto_nivel(v),
{
    match v {
        Nivel::Menudeo => "Menudeo",
        Nivel::MedioMayoreo => "MedioMayoreo",
        Nivel::Mayoreo => "Mayoreo",
    }
}

pub fn nivel_de(s: &str) -> (r: Result<Nivel, ErrorAlmacen>)
    ensures
        leido_nivel(s@) matches Some(v) ==> r == Ok::<Nivel, ErrorAlmacen>(v),
        leido_nivel(s@) is None ==> (r matches Err(ErrorAlmacen::Corrupto(m)) && m@
            == "nivel desconocido: "@ + s@),
{
    if mismo_texto(s, "Menudeo") {
        return Ok(Nivel::Menudeo);
    }
    if mismo_texto(s, "MedioMayoreo") {
        return Ok(Nivel::MedioMayoreo);
    }
    if mismo_texto(s, "Mayoreo") {
        return Ok(Nivel::Mayoreo);
    }
    Err(ErrorAlmacen::Corrupto(concatenar("nivel desconocido: ", s)))
}

/// Lo que se escribe de un `Nivel` se lee de vuelta como el mismo valor, y
/// un texto que se lee como un valor es exactamente el texto de ese valor.
pub proof fn ley_ida_vuelta_nivel(v: Nivel, s: Seq<char>)
    ensures
        leido_nivel(texto_nivel(v)) == Some(v),
        leido_nivel(s) == Some(v) ==> texto_nivel(v) == s,
{
    reveal_strlit("Menudeo");
    reveal_strlit("MedioMayoreo");
    reveal_strlit("Mayoreo");
    assert("Menudeo"@.len() != "MedioMayoreo"@.len());
    assert("Menudeo"@[1] != "Mayoreo"@[1]);
    assert("MedioMayoreo"@.len() != "Mayoreo"@.len());
}

/// El texto persistido de cada valor de `EstadoAprobacion`.
pub open spec fn texto_estado_aprobacion(v: EstadoAprobacion) -> Seq<char> {
    match v {
        EstadoAprobacion::Pendiente => "Pendiente"@,
        EstadoAprobacion::Aprobada => "Aprobada"@,
        EstadoAprobacion::Rechazada => "Rechazada"@,
        EstadoAprobacion::Cancelada => "Cancelada"@,
    }
}

/// El valor de `EstadoAprobacion` que denota un texto persistido, si alguno.
pub open spec fn leido_estado_aprobacion(s: Seq<char>) -> Option<EstadoAprobacion> {
    if s == "Pendiente"@ {
        Some(EstadoAprobacion::Pendiente)
    } else if s == "Aprobada"@ {
        Some(EstadoAprobacion::Aprobada)
    } else if s == "Rechazada"@ {
        Some(EstadoAprobacion::Rechazada)
    } else if s == "Cancelada"@ {
        Some(EstadoAprobacion::Cancelada)
    } else {
        None
    }
}

pub fn estado_aprob_txt(v: EstadoAprobacion) -> (r: &'static str)
    ensures
        r@ == texto_estado_aprobacion(v),
{
    match v {
        EstadoAprobacion::Pendiente => "Pendiente",
        EstadoAprobacion::Aprobada => "Aprobada",
        EstadoAprobacion::Rechazada => "Rechazada",
        EstadoAprobacion::Cancelada => "Cancelada",
    }
}

pub fn estado_aprob_de(s: &str) -> (r: Result<EstadoAprobacion, ErrorAlmacen>)
    ensures
        leido_estado_aprobacion(s@) matches Some(v) ==> r == Ok::<EstadoAprobacion, ErrorAlmacen>(v),
        leido_estado_aprobacion(s@) is None ==> (r matches Err(ErrorAlmacen::Corrupto(m)) && m@
            == "estado de aprobación desconocido: "@ + s@),
{
    if mismo_texto(s, "Pendiente") {
        return Ok(EstadoAprobacion::Pendiente);
    }
    if mismo_texto(s, "Aprobada") {
        return Ok(EstadoAprobacion::Aprobada);
    }
    if mismo_texto(s, "Rechazada") {
        return Ok(EstadoAprobacion::Rechazada);
    }
    if mismo_texto(s, "Cancelada") {
        return Ok(EstadoAprobacion::Cancelada);
    }
    Err(ErrorAlmacen::Corrupto(concatenar("estado de aprobación desconocido: ", s)))
}

/// Lo que se escribe de un `EstadoAprobacion` se lee de vuelta como el mismo valor, y
/// un texto que se lee como un valor es exactamente el texto de ese valor.
pub proof fn ley_ida_vuelta_estado_aprobacion(v: EstadoAprobacion, s: Seq<char>)
    ensures
        leido_estado_aprobacion(texto_estado_aprobacion(v)) == Some(v),
        leido_estado_aprobacion(s) == Some(v) ==> texto_estado_aprobacion(v) == s,
{
    reveal_strlit("Pendiente");
    reveal_strlit("Aprobada");
    reveal_strlit("Rechazada");
    reveal_strlit("Cancelada");
    assert("Pendiente"@.len() != "Aprobada"@.len());
    assert("Pendiente"@[0] != "Rechazada"@[0]);
    assert("Pendiente"@[0] != "Cancelada"@[0]);
    assert("Aprobada"@.len() != "Rechazada"@.len());
    assert("Aprobada"@.len() != "Cancelada"@.len());
    assert("Rechazada"@[0] != "Cancelada"@[0]);
}

/// El texto persistido de cada valor de `TipoMovimiento`.
pub open spec fn texto_tipo_movimiento(v: TipoMovimiento) -> Seq<char> {
    match v {
        TipoMovimiento::Ajuste => "Ajuste"@,
        TipoMovimiento::Envio => "Envio"@,
        TipoMovimiento::Recepcion => "Recepcion"@,
        TipoMovimiento::Venta => "Venta"@,
    }
}

/// El valor de `TipoMovimiento` que denota un texto persistido, si alguno.
pub open spec fn leido_tipo_movimiento(s: Seq<char>) -> Option<TipoMovimiento> {
    if s == "Ajuste"@ {
        Some(TipoMovimiento::Ajuste)
    } else if s == "Envio"@ {
        Some(TipoMovimiento::Envio)
    } else if s == "Recepcion"@ {
        Some(TipoMovimiento::Recepcion)
    } else if s == "Venta"@ {
        Some(TipoMovimiento::Venta)
    } else {
        None
    }
}

pub fn tipo_mov_txt(v: TipoMovimiento) -> (r: &'static str)
    ensures
        r@ == texto_tipo_movimiento(v),
{
    match v {
        TipoMovimiento::Ajuste => "Ajuste",
        TipoMovimiento::Envio => "Envio",
        TipoMovimiento::Recepcion => "Recepcion",
        TipoMovimiento::Venta => "Venta",
    }
}

pub fn tipo_mov_de(s: &str) -> (r: Result<TipoMovimiento, ErrorAlmacen>)
    ensures
        leido_tipo_movimiento(s@) matches Some(v) ==> r == Ok::<TipoMovimiento, ErrorAlmacen>(v),
        leido_tipo_movimiento(s@) is None ==> (r matches Err(ErrorAlmacen::Corrupto(m)) && m@
            == "tipo de movimiento desconocido: "@ + s@),
{
    if mismo_texto(s, "Ajuste") {
        return Ok(TipoMovimiento::Ajuste);
    }
    if mismo_texto(s, "Envio") {
        return Ok(TipoMovimiento::Envio);
    }
    if mismo_texto(s, "Recepcion") {
        return Ok(TipoMovimiento::Recepcion);
    }
    if mismo_texto(s, "Venta") {
        return Ok(TipoMovimiento::Venta);
    }
    Err(ErrorAlmacen::Corrupto(concatenar("tipo de movimiento desconocido: ", s)))
}

/// Lo que se escribe de un `TipoMovimiento` se lee de vuelta como el mismo valor, y
/// un texto que se lee como un valor es exactamente el texto de ese valor.
pub proof fn ley_ida_vuelta_tipo_movimiento(v: TipoMovimiento, s: Seq<char>)
    ensures
        leido_tipo_movimiento(texto_tipo_movimiento(v)) == Some(v),
        leido_tipo_movimiento(s) == Some(v) ==> texto_tipo_movimiento(v) == s,
{
    reveal_strlit("Ajuste");
    reveal_strlit("Envio");
    reveal_strlit("Recepcion");
    reveal_strlit("Venta");
    assert("Ajuste"@.len() != "Envio"@.len());
    assert("Ajuste"@.len() != "Recepcion"@.len());
    assert("Ajuste"@.len() != "Venta"@.len());
    assert("Envio"@.len() != "Recepcion"@.len());
    assert("Envio"@[0] != "Venta"@[0]);
    assert("Recepcion"@.len() != "Venta"@.len());
}

/// El texto persistido de cada valor de `EstadoMovimiento`.
pub open spec fn texto_estado_movimiento(v: EstadoMovimiento) -> Seq<char> {
    match v {
        EstadoMovimiento::Aplicado => "Aplicado"@,
        EstadoMovimiento::Revertido => "Revertido"@,
    }
}

/// El valor de `EstadoMovimiento` que denota un texto persistido, si alguno.
pub open spec fn leido_estado_movimiento(s: Seq<char>) -> Option<EstadoMovimiento> {
    if s == "Aplicado"@ {
        Some(EstadoMovimiento::Aplicado)
    } else if s == "Revertido"@ {
        Some(EstadoMovimiento::Revertido)
    } else {
        None
    }
}

pub fn estado_mov_txt(v: EstadoMovimiento) -> (r: &'static str)
    ensures
        r@ == texto_estado_movimiento(v),
{
    match v {
        EstadoMovimiento::Aplicado => "Aplicado",
        EstadoMovimiento::Revertido => "Revertido",
    }
}

pub fn estado_mov_de(s: &str) -> (r: Result<EstadoMovimiento, ErrorAlmacen>)
    ensures
        leido_estado_movimiento(s@) matches Some(v) ==> r == Ok::<EstadoMovimiento, ErrorAlmacen>(v),
        leido_estado_movimiento(s@) is None ==> (r matches Err(ErrorAlmacen::Corrupto(m)) && m@
            == "estado de movimiento desconocido: "@ + s@),
{
    if mismo_texto(s, "Aplicado") {
        return Ok(EstadoMovimiento::Aplicado);
    }
    if mismo_texto(s, "Revertido") {
        return Ok(EstadoMovimiento::Revertido);
    }
    Err(ErrorAlmacen::Corrupto(concatenar("estado de movimiento desconocido: ", s)))
}

/// Lo que se escribe de un `EstadoMovimiento` se lee de vuelta como el mismo valor, y
/// un texto que se lee como un valor es exactamente el texto de ese valor.
pub proof fn ley_ida_vuelta_estado_movimiento(v: EstadoMovimiento, s: Seq<char>)
    ensures
        leido_estado_movimiento(texto_estado_movimiento(v)) == Some(v),
        leido_estado_movimiento(s) == Some(v) ==> texto_estado_movimiento(v) == s,
{
    reveal_strlit("Aplicado");
    reveal_strlit("Revertido");
    assert("Aplicado"@.len() != "Revertido"@.len());
}

/// El texto persistido de cada valor de `EstadoEtiqueta`.
pub open spec fn texto_estado_etiqueta(v: EstadoEtiqueta) -> Seq<char> {
    match v {
        EstadoEtiqueta::Activa => "Activa"@,
        EstadoEtiqueta::Vendida => "Vendida"@,
        EstadoEtiqueta::Extraviada => "Extraviada"@,
    }
}

/// El valor de `EstadoEtiqueta` que denota un texto persistido, si alguno.
pub open spec fn leido_estado_etiqueta(s: Seq<char>) -> Option<EstadoEtiqueta> {
    if s == "Activa"@ {
        Some(EstadoEtiqueta::Activa)
    } else if s == "Vendida"@ {
        Some(EstadoEtiqueta::Vendida)
    } else if s == "Extraviada"@ {
        Some(EstadoEtiqueta::Extraviada)
    } else {
        None
    }
}

pub fn estado_eti_txt(v: EstadoEtiqueta) -> (r: &'static str)
    ensures
        r@ == texto_estado_etiqueta(v),
{
    match v {
        EstadoEtiqueta::Activa => "Activa",
        EstadoEtiqueta::Vendida => "Vendida",
        EstadoEtiqueta::Extraviada => "Extraviada",
    }
}

pub fn estado_eti_de(s: &str) -> (r: Result<EstadoEtiqueta, ErrorAlmacen>)
    ensures
        leido_estado_etiqueta(s@) matches Some(v) ==> r == Ok::<EstadoEtiqueta, ErrorAlmacen>(v),
        leido_estado_etiqueta(s@) is None ==> (r matches Err(ErrorAlmacen::Corrupto(m)) && m@
            == "estado de etiqueta desconocido: "@ + s@),
{
    if mismo_texto(s, "Activa") {
        return Ok(EstadoEtiqueta::Activa);
    }
    if mismo_texto(s, "Vendida") {
        return Ok(EstadoEtiqueta::Vendida);
    }
    if mismo_texto(s, "Extraviada") {
        return Ok(EstadoEtiqueta::Extraviada);
    }
    Err(ErrorAlmacen::Corrupto(concatenar("estado de etiqueta desconocido: ", s)))
}

/// Lo que se escribe de un `EstadoEtiqueta` se lee de vuelta como el mismo valor, y
/// un texto que se lee como un valor es exactamente el texto de ese valor.
pub proof fn ley_ida_vuelta_estado_etiqueta(v: EstadoEtiqueta, s: Seq<char>)
    ensures
        leido_estado_etiqueta(texto_estado_etiqueta(v)) == Some(v),
        leido_estado_etiqueta(s) == Some(v) ==> texto_estado_etiqueta(v) == s,
{
    reveal_strlit("Activa");
    reveal_strlit("Vendida");
    reveal_strlit("Extraviada");
    assert("Activa"@.len() != "Vendida"@.len());
    assert("Activa"@.len() != "Extraviada"@.len());
    assert("Vendida"@.len() != "Extraviada"@.len());
}

/// El texto persistido de cada valor de `TipoNotificacion`.
pub open spec fn texto_tipo_notificacion(v: TipoNotificacion) -> Seq<char> {
    match v {
        TipoNotificacion::PorVencer => "PorVencer"@,
        TipoNotificacion::DiscrepanciaEnvio => "DiscrepanciaEnvio"@,
    }
}

/// El valor de `TipoNotificacion` que denota un texto persistido, si alguno.
pub open spec fn leido_tipo_notificacion(s: Seq<char>) -> Option<TipoNotificacion> {
    if s == "PorVencer"@ {
        Some(TipoNotificacion::PorVencer)
    } else if s == "DiscrepanciaEnvio"@ {
        Some(TipoNotificacion::DiscrepanciaEnvio)
    } else {
        None
    }
}

pub fn tipo_notif_txt(v: TipoNotificacion) -> (r: &'static str)
    ensures
        r@ == texto_tipo_notificacion(v),
{
    match v {
        TipoNotificacion::PorVencer => "PorVencer",
        TipoNotificacion::DiscrepanciaEnvio => "DiscrepanciaEnvio",
    }
}

pub fn tipo_notif_de(s: &str) -> (r: Result<TipoNotificacion, ErrorAlmacen>)
    ensures
        leido_tipo_notificacion(s@) matches Some(v) ==> r == Ok::<TipoNotificacion, ErrorAlmacen>(v),
        leido_tipo_notificacion(s@) is None ==> (r matches Err(ErrorAlmacen::Corrupto(m)) && m@
            == "tipo de notificación desconocido: "@ + s@),
{
    if mismo_texto(s, "PorVencer") {
        return Ok(TipoNotificacion::PorVencer);
    }
    if mismo_texto(s, "DiscrepanciaEnvio") {
        return Ok(TipoNotificacion::DiscrepanciaEnvio);
    }
    Err(ErrorAlmacen::Corrupto(concatenar("tipo de notificación desconocido: ", s)))
}

/// Lo que se escribe de un `TipoNotificacion` se lee de vuelta como el mismo valor, y
/// un texto que se lee como un valor es exactamente el texto de ese valor.
pub proof fn ley_ida_vuelta_tipo_notificacion(v: TipoNotificacion, s: Seq<char>)
    ensures
        leido_tipo_notificacion(texto_tipo_notificacion(v)) == Some(v),
        leido_tipo_notificacion(s) == Some(v) ==> texto_tipo_notificacion(v) == s,
{
    reveal_strlit("PorVencer");
    reveal_strlit("DiscrepanciaEnvio");
    assert("PorVencer"@.len() != "DiscrepanciaEnvio"@.len());
}

} // verus!
