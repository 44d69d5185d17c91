use toypos::acceso::{Actor, Alcance, ConjuntoPermisos, ContextoAcceso, Permiso};
use toypos::barcode::{Ean13, PREFIJO_MATRIZ};
use toypos::envio::{deltas_por_producto, movimiento_recepcion, movimiento_salida, Envio, EstadoEnvio};
use toypos::error::ErrorDominio;
use toypos::etiqueta::{
    calcular_caducidad, formatear_caducidad, CajaEtiquetado, ContenidoEtiqueta, EstadoEtiqueta, Etiqueta,
};
use toypos::folio::{Folio, TipoDocumento};
use toypos::inventario::{Cantidad, TipoMovimiento};
use toypos::producto::{CodigoBarras, OrigenProducto, Producto, TipoProducto, VidaUtil};
use toypos::sucursal::{CodigoSucursal, TipoSucursal};
use toypos::tiempo::{Fecha, Instante, ZonaHoraria};
use toypos::unidades::Gramos;

fn nuevo_id() -> u128 {
    uuid::Uuid::new_v4().as_u128()
}

fn instante(rfc: &str) -> Instante {
    Instante::desde_timestamp(rfc.parse::<jiff::Timestamp>().unwrap().as_nanosecond())
}

fn zona() -> ZonaHoraria {
    ZonaHoraria::nueva("America/Mexico_City").unwrap()
}

fn ctx_con(permisos: &[Permiso], sucursal: u128) -> ContextoAcceso {
    ContextoAcceso::nuevo(
        Actor::Usuario(nuevo_id()),
        ConjuntoPermisos::desde(permisos),
        Alcance::de(&[sucursal]),
    )
}

fn ctx(sucursal: u128) -> ContextoAcceso {
    ctx_con(&[Permiso::Etiquetar], sucursal)
}

fn peso_variable() -> Producto {
    Producto::nuevo(
        "tripa de pollo",
        TipoProducto::PesoVariable,
        OrigenProducto::Matriz,
        None,
        None,
        Instante::ahora(),
    )
    .unwrap()
}

fn pieza(origen: OrigenProducto) -> Producto {
    let codigo = match origen {
        OrigenProducto::Matriz => {
            CodigoBarras::Matriz(Ean13::generar_matriz(PREFIJO_MATRIZ, 7).unwrap())
        }
        OrigenProducto::Externo => CodigoBarras::Externo(Ean13::parse("7501059224827").unwrap()),
    };
    Producto::nuevo("queso 500 g", TipoProducto::Pieza, origen, Some(codigo), None, Instante::ahora())
        .unwrap()
}

// -------- caducidad --------

#[test]
fn caducidad_default_nueve_meses() {
    let cad = calcular_caducidad(instante("2026-01-13T18:00:00Z"), &zona(), VidaUtil::default()).unwrap();
    assert_eq!(cad.texto_iso(), "2026-10-13");
}

#[test]
fn caducidad_fin_de_mes_se_ajusta() {
    let cad = calcular_caducidad(instante("2026-05-31T18:00:00Z"), &zona(), VidaUtil::default()).unwrap();
    assert_eq!(cad.texto_iso(), "2027-02-28");
    let cad = calcular_caducidad(instante("2027-05-31T18:00:00Z"), &zona(), VidaUtil::default()).unwrap();
    assert_eq!(cad.texto_iso(), "2028-02-29");
}

#[test]
fn caducidad_usa_el_dia_de_la_zona() {
    let cad = calcular_caducidad(instante("2026-01-01T05:30:00Z"), &zona(), VidaUtil::default()).unwrap();
    assert_eq!(cad.texto_iso(), "2026-09-30");
}

#[test]
fn caducidad_fuera_de_rango_se_reporta() {
    let r = calcular_caducidad(instante("9999-06-01T18:00:00Z"), &zona(), VidaUtil::nueva(12).unwrap());
    match r {
        Err(ErrorDominio::Invalido(m)) => assert!(m.starts_with("caducidad fuera de rango: ")),
        _ => panic!("se esperaba el rechazo de una caducidad fuera de rango"),
    }
}

#[test]
fn fechas_se_formatean_y_ordenan() {
    let f = Fecha::nueva(2026, 10, 3).unwrap();
    assert_eq!(formatear_caducidad(f), "03/10/2026");
    assert_eq!(f.texto_iso(), "2026-10-03");
    assert!(Fecha::nueva(2027, 2, 29).is_none());
    assert!(Fecha::nueva(2028, 2, 29).is_some());
    let g = Fecha::nueva(2026, 12, 31).unwrap();
    assert!(f.no_posterior_a(&g));
    assert!(!g.no_posterior_a(&f));
    assert_eq!(g.sumar_dias(5).unwrap().texto_iso(), "2027-01-05");
    assert_eq!(g.sumar_meses(2).unwrap().texto_iso(), "2027-02-28");
}

// -------- etiqueta por-ítem --------

#[test]
fn pesadas_identicas_dan_etiquetas_distintas() {
    let p = peso_variable();
    let suc = nuevo_id();
    let c = ctx(suc);
    let ahora = instante("2026-01-13T18:00:00Z");
    let a = Etiqueta::nueva(&c, &p, suc, &zona(), Gramos::new(1250), 1, ahora).unwrap();
    let b = Etiqueta::nueva(&c, &p, suc, &zona(), Gramos::new(1250), 2, ahora).unwrap();
    assert_ne!(a.codigo, b.codigo);
    assert_ne!(a.discriminador, b.discriminador);
}

#[test]
fn etiqueta_congela_caducidad_y_exige_permiso() {
    let p = peso_variable();
    let suc = nuevo_id();
    let ahora = instante("2026-01-13T18:00:00Z");
    let e = Etiqueta::nueva(&ctx(suc), &p, suc, &zona(), Gramos::new(800), 3, ahora).unwrap();
    assert_eq!(e.caducidad.texto_iso(), "2026-10-13");
    assert_eq!(e.estado, EstadoEtiqueta::Activa);
    let sin = ctx_con(&[Permiso::Vender], suc);
    assert!(Etiqueta::nueva(&sin, &p, suc, &zona(), Gramos::new(800), 4, ahora).is_err());
}

#[test]
fn pieza_no_lleva_etiqueta_por_item() {
    let p = pieza(OrigenProducto::Externo);
    let suc = nuevo_id();
    let r = Etiqueta::nueva(&ctx(suc), &p, suc, &zona(), Gramos::new(500), 1, Instante::ahora());
    assert!(r.is_err());
}

#[test]
fn contenido_tres_elementos_sin_precio_ni_fecha() {
    let p = peso_variable();
    let suc = nuevo_id();
    let ahora = instante("2026-01-13T18:00:00Z");
    let e = Etiqueta::nueva(&ctx(suc), &p, suc, &zona(), Gramos::new(1250), 9, ahora).unwrap();
    let contenido = e.contenido(&p.nombre);
    assert_eq!(contenido.barcode, e.codigo.get());
    assert_eq!(contenido.nombre, "tripa de pollo");
    assert_eq!(contenido.caducidad.as_deref(), Some("13/10/2026"));
}

#[test]
fn nombre_en_maximo_dos_lineas() {
    let contenido = ContenidoEtiqueta {
        barcode: "x".into(),
        nombre: "pechuga de pollo aplanada extra grande premium".into(),
        caducidad: None,
    };
    let lineas = contenido.lineas_nombre(16);
    assert!(lineas.len() <= 2);
    assert_eq!(lineas[0], "pechuga de pollo");
}

#[test]
fn lineas_cuentan_bytes_y_cortan_en_la_tercera() {
    let contenido = ContenidoEtiqueta {
        barcode: "x".into(),
        nombre: "ñoño uno dos tres".into(),
        caducidad: None,
    };
    // "ñoño" ocupa 6 bytes: "ñoño uno" son 10 y no cabe en 9.
    assert_eq!(contenido.lineas_nombre(9), vec!["ñoño".to_string(), "uno dos".to_string()]);
    assert_eq!(contenido.lineas_nombre(100), vec!["ñoño uno dos tres".to_string()]);
    let vacio = ContenidoEtiqueta { barcode: "x".into(), nombre: "   ".into(), caducidad: None };
    assert!(vacio.lineas_nombre(10).is_empty());
}

// -------- cajas --------

#[test]
fn caja_de_pesadas_agrupa_y_toma_la_caducidad_mas_proxima() {
    let p = peso_variable();
    let suc = nuevo_id();
    let c = ctx(suc);
    let e1 = Etiqueta::nueva(&c, &p, suc, &zona(), Gramos::new(900), 1, instante("2026-01-13T18:00:00Z")).unwrap();
    let e2 = Etiqueta::nueva(&c, &p, suc, &zona(), Gramos::new(1100), 2, instante("2026-01-15T18:00:00Z")).unwrap();
    let caja = CajaEtiquetado::cerrar_pesadas(&c, &p, &[e1, e2], instante("2026-01-15T19:00:00Z")).unwrap();
    assert_eq!(caja.cantidad, None);
    assert_eq!(caja.caducidad.unwrap().texto_iso(), "2026-10-13");
}

#[test]
fn caja_vacia_o_mezclada_se_rechaza() {
    let p = peso_variable();
    let suc = nuevo_id();
    let c = ctx(suc);
    assert!(CajaEtiquetado::cerrar_pesadas(&c, &p, &[], Instante::ahora()).is_err());
    let otro = peso_variable();
    let e = Etiqueta::nueva(&c, &otro, suc, &zona(), Gramos::new(500), 1, Instante::ahora()).unwrap();
    assert!(CajaEtiquetado::cerrar_pesadas(&c, &p, &[e], Instante::ahora()).is_err());
}

#[test]
fn caja_rechaza_etiquetas_ya_encajadas() {
    let p = peso_variable();
    let suc = nuevo_id();
    let c = ctx(suc);
    let mut e = Etiqueta::nueva(&c, &p, suc, &zona(), Gramos::new(500), 1, Instante::ahora()).unwrap();
    e.caja = Some(nuevo_id());
    let r = CajaEtiquetado::cerrar_pesadas(&c, &p, &[e], Instante::ahora());
    assert_eq!(
        r.err(),
        Some(ErrorDominio::Regla(
            "la caja solo agrupa etiquetas activas que no estén ya en otra caja".to_string()
        ))
    );
}

#[test]
fn caja_de_pieza_matriz_lleva_caducidad_y_de_externo_no() {
    let suc = nuevo_id();
    let c = ctx(suc);
    let ahora = instante("2026-01-13T18:00:00Z");
    let matriz = pieza(OrigenProducto::Matriz);
    let caja = CajaEtiquetado::cerrar_pieza(&c, &matriz, suc, &zona(), 24, ahora).unwrap();
    assert_eq!(caja.cantidad, Some(24));
    assert!(caja.caducidad.is_some());
    let contenido = caja.contenido(&matriz.nombre, matriz.codigo.as_ref().unwrap().ean());
    assert_eq!(contenido.caducidad.as_deref(), Some("13/10/2026"));

    let externo = pieza(OrigenProducto::Externo);
    let caja = CajaEtiquetado::cerrar_pieza(&c, &externo, suc, &zona(), 12, ahora).unwrap();
    assert_eq!(caja.caducidad, None);
    let contenido = caja.contenido(&externo.nombre, externo.codigo.as_ref().unwrap().ean());
    assert_eq!(contenido.caducidad, None);
}

#[test]
fn caja_de_pieza_externa_no_mira_la_vida_util() {
    let suc = nuevo_id();
    let c = ctx(suc);
    let mut externo = pieza(OrigenProducto::Externo);
    externo.vida_util = VidaUtil::nueva(500_000).unwrap();
    let caja = CajaEtiquetado::cerrar_pieza(&c, &externo, suc, &zona(), 6, Instante::ahora()).unwrap();
    assert_eq!(caja.caducidad, None);
    assert_eq!(caja.cantidad, Some(6));
}

#[test]
fn caja_de_pieza_rechaza_cantidad_no_positiva() {
    let suc = nuevo_id();
    let c = ctx(suc);
    let p = pieza(OrigenProducto::Matriz);
    assert!(CajaEtiquetado::cerrar_pieza(&c, &p, suc, &zona(), 0, Instante::ahora()).is_err());
    assert_eq!(
        CajaEtiquetado::cerrar_pieza(&c, &p, suc, &zona(), -3, Instante::ahora()).err(),
        Some(ErrorDominio::Invalido("la cantidad de la caja debe ser positiva: -3".to_string()))
    );
}

// -------- envíos --------

fn folio() -> Folio {
    Folio::componer(&CodigoSucursal::nueva("MAT").unwrap(), TipoDocumento::Envio, 1)
}

fn ctx_env(permisos: &[Permiso], sucursal: u128) -> ContextoAcceso {
    ctx_con(permisos, sucursal)
}

fn preparado(origen: u128, destino: u128) -> Envio {
    Envio::preparar(
        &ctx_env(&[Permiso::Enviar], origen),
        folio(),
        origen,
        TipoSucursal::Matriz,
        destino,
        TipoSucursal::Expendio,
        Instante::ahora(),
    )
    .unwrap()
}

#[test]
fn surtido_y_devolucion_validos_lateral_rechazado() {
    let m = nuevo_id();
    let e = nuevo_id();
    let c = ctx_env(&[Permiso::Enviar], m);
    assert!(Envio::preparar(&c, folio(), m, TipoSucursal::Matriz, e, TipoSucursal::Expendio, Instante::ahora()).is_ok());
    let c = ctx_env(&[Permiso::Enviar], e);
    assert!(Envio::preparar(&c, folio(), e, TipoSucursal::Expendio, m, TipoSucursal::Matriz, Instante::ahora()).is_ok());
    let otro = nuevo_id();
    assert!(Envio::preparar(&c, folio(), e, TipoSucursal::Expendio, otro, TipoSucursal::Expendio, Instante::ahora())
        .is_err());
    let c = ctx_env(&[Permiso::Enviar], m);
    assert!(Envio::preparar(&c, folio(), m, TipoSucursal::Matriz, m, TipoSucursal::Matriz, Instante::ahora()).is_err());
}

#[test]
fn preparar_exige_permiso_sobre_el_origen() {
    let m = nuevo_id();
    let e = nuevo_id();
    let c = ctx_env(&[Permiso::Enviar], e);
    assert!(Envio::preparar(&c, folio(), m, TipoSucursal::Matriz, e, TipoSucursal::Expendio, Instante::ahora()).is_err());
    let sin = ctx_env(&[Permiso::Vender], m);
    assert!(Envio::preparar(&sin, folio(), m, TipoSucursal::Matriz, e, TipoSucursal::Expendio, Instante::ahora())
        .is_err());
}

#[test]
fn ciclo_completo_y_transiciones_invalidas() {
    let m = nuevo_id();
    let e = nuevo_id();
    let mut envio = preparado(m, e);
    let c_origen = ctx_env(&[Permiso::Enviar], m);
    let c_destino = ctx_env(&[Permiso::Recibir], e);
    assert!(envio.marcar_recibido(&c_destino, None, Instante::ahora()).is_err());
    envio.marcar_enviado(&c_origen, Instante::ahora()).unwrap();
    assert_eq!(envio.estado, EstadoEnvio::Enviado);
    assert!(envio.cancelar(&c_origen, Instante::ahora()).is_err());
    assert!(envio.marcar_recibido(&c_origen, None, Instante::ahora()).is_err());
    envio.marcar_recibido(&c_destino, None, Instante::ahora()).unwrap();
    assert_eq!(envio.estado, EstadoEnvio::Recibido);
    assert!(envio.recibido_en.is_some() && envio.discrepancia.is_none());
    assert!(envio.marcar_recibido(&c_destino, None, Instante::ahora()).is_err());
}

#[test]
fn cancelar_solo_preparado_y_conserva_folio() {
    let m = nuevo_id();
    let e = nuevo_id();
    let mut envio = preparado(m, e);
    let c = ctx_env(&[Permiso::Enviar], m);
    envio.cancelar(&c, Instante::ahora()).unwrap();
    assert_eq!(envio.estado, EstadoEnvio::Cancelado);
    assert_eq!(envio.folio.get(), "MATE1");
}

#[test]
fn deltas_acumulan_por_producto() {
    let a = nuevo_id();
    let b = nuevo_id();
    let deltas = deltas_por_producto(&[
        (a, Cantidad::Gramos(Gramos::new(900))),
        (b, Cantidad::Unidades(24)),
        (a, Cantidad::Gramos(Gramos::new(1100))),
    ])
    .unwrap();
    assert_eq!(deltas[&a], Cantidad::Gramos(Gramos::new(2000)));
    assert_eq!(deltas[&b], Cantidad::Unidades(24));
}

#[test]
fn deltas_rechazan_unidades_mezcladas_de_un_producto() {
    let a = nuevo_id();
    let r = deltas_por_producto(&[(a, Cantidad::Unidades(2)), (a, Cantidad::Gramos(Gramos::new(5)))]);
    assert_eq!(
        r.err(),
        Some(ErrorDominio::Regla("no se pueden mezclar unidades con gramos en el inventario".to_string()))
    );
}

#[test]
fn asientos_citan_el_folio_y_firman_el_delta() {
    let prod = nuevo_id();
    let suc = nuevo_id();
    let f = folio();
    let salida = movimiento_salida(prod, suc, Cantidad::Unidades(24), &f, Instante::ahora());
    assert_eq!(salida.tipo, TipoMovimiento::Envio);
    assert_eq!(salida.delta, Cantidad::Unidades(-24));
    assert_eq!(salida.motivo.as_deref(), Some("MATE1"));
    let entrada = movimiento_recepcion(prod, suc, Cantidad::Gramos(Gramos::new(2500)), &f, Instante::ahora());
    assert_eq!(entrada.tipo, TipoMovimiento::Recepcion);
    assert_eq!(entrada.delta, Cantidad::Gramos(Gramos::new(2500)));
}

#[test]
fn recepcion_con_faltantes_anota_la_discrepancia() {
    let m = nuevo_id();
    let e = nuevo_id();
    let mut envio = preparado(m, e);
    envio.marcar_enviado(&ctx_env(&[Permiso::Enviar], m), Instante::ahora()).unwrap();
    envio
        .marcar_recibido(&ctx_env(&[Permiso::Recibir], e), Some("faltó 1 caja".to_string()), Instante::ahora())
        .unwrap();
    assert_eq!(envio.discrepancia.as_deref(), Some("faltó 1 caja"));
    assert_eq!(envio.folio.get(), "MATE1");
}
