use toypos::acceso::{Actor, Alcance, ConjuntoPermisos, ContextoAcceso, Permiso};
use toypos::almacen::{
    ajustar_existencia, alertas_de_barrido, alertas_por_vencer, autenticar, candidato_discriminador, clave_grupo_por_vencer,
    cerrar_sesion_registrada, conciliacion_registrada, detalle_ajuste, detalle_alta_sucursal, detalle_caja_pesadas,
    detalle_caja_pieza, detalle_copia, detalle_reversion, detalle_vida_util, exigir_afectadas, exigir_alcance,
    exigir_barrido_del_sistema, exigir_matriz_unica, exigir_pesadas, exigir_puede_autorizar, exigir_sin_sesion_abierta,
    exigir_sistema_vacio, existencia_o_cero, gastos_autorizados, limite_por_vencer, marcar_leida_autorizada,
    mensaje_pesadas_por_vencer, mensaje_piezas_por_vencer, operacion_precio, preparar_producto, preparar_sucursal,
    preparar_usuario, registrar_gasto_con_aprobacion, resolver_aprobacion, revertir_movimiento, todos_los_permisos,
    validar_copia_precios, validar_precio, validar_renombre, validar_sesion_de_gasto, vendible_producto, AltaCodigo,
    BorradorProducto, ErrorAlmacen, GrupoPorVencer, Resolucion,
};
use toypos::aprobacion::{Aprobacion, EstadoAprobacion};
use toypos::barcode::Ean13;
use toypos::caja::ResumenVentas;
use toypos::codec::{
    estado_aprob_de, estado_aprob_txt, estado_eti_de, estado_eti_txt, estado_mov_de, estado_mov_txt, nivel_de,
    nivel_txt, origen_de, origen_txt, tipo_mov_de, tipo_mov_txt, tipo_notif_de, tipo_notif_txt, tipo_prod_de,
    tipo_prod_txt, tipo_suc_de, tipo_suc_txt,
};
use toypos::error::ErrorDominio;
use toypos::etiqueta::EstadoEtiqueta;
use toypos::folio::{Folio, TipoDocumento};
use toypos::inventario::{Cantidad, EstadoMovimiento, MovimientoInventario, TipoMovimiento};
use toypos::notificacion::{Notificacion, TipoNotificacion};
use toypos::precio::Nivel;
use toypos::producto::{OrigenProducto, Producto, TipoProducto, UnidadVenta, VidaUtil};
use toypos::sucursal::{CodigoSucursal, TipoSucursal};
use toypos::tiempo::{Instante, ZonaHoraria};
use toypos::unidades::{Centavos, Gramos};
use toypos::usuario::Credencial;

fn nuevo_id() -> u128 {
    uuid::Uuid::new_v4().as_u128()
}

fn ctx_de(usuario: u128, permisos: &[Permiso], sucursal: u128) -> ContextoAcceso {
    ContextoAcceso::nuevo(Actor::Usuario(usuario), ConjuntoPermisos::desde(permisos), Alcance::de(&[sucursal]))
}

fn instante(rfc: &str) -> Instante {
    Instante::desde_timestamp(rfc.parse::<jiff::Timestamp>().unwrap().as_nanosecond())
}

fn es_conflicto(r: &ErrorAlmacen, esperado: &str) -> bool {
    matches!(r, ErrorAlmacen::Conflicto(m) if m == esperado)
}

fn es_dominio(r: &ErrorAlmacen, esperado: &ErrorDominio) -> bool {
    matches!(r, ErrorAlmacen::Dominio(e) if e == esperado)
}

// -------- textos persistidos --------

#[test]
fn textos_persistidos_ida_y_vuelta() {
    for t in [TipoSucursal::Matriz, TipoSucursal::Expendio] {
        assert_eq!(tipo_suc_de(tipo_suc_txt(t)).unwrap(), t);
    }
    for t in [TipoProducto::PesoVariable, TipoProducto::Pieza] {
        assert_eq!(tipo_prod_de(tipo_prod_txt(t)).unwrap(), t);
    }
    for o in [OrigenProducto::Matriz, OrigenProducto::Externo] {
        assert_eq!(origen_de(origen_txt(o)).unwrap(), o);
    }
    for n in Nivel::todos() {
        assert_eq!(nivel_de(nivel_txt(n)).unwrap(), n);
    }
    for e in [
        EstadoAprobacion::Pendiente,
        EstadoAprobacion::Aprobada,
        EstadoAprobacion::Rechazada,
        EstadoAprobacion::Cancelada,
    ] {
        assert_eq!(estado_aprob_de(estado_aprob_txt(e)).unwrap(), e);
    }
    for t in [TipoMovimiento::Ajuste, TipoMovimiento::Envio, TipoMovimiento::Recepcion, TipoMovimiento::Venta] {
        assert_eq!(tipo_mov_de(tipo_mov_txt(t)).unwrap(), t);
    }
    for e in [EstadoMovimiento::Aplicado, EstadoMovimiento::Revertido] {
        assert_eq!(estado_mov_de(estado_mov_txt(e)).unwrap(), e);
    }
    for e in [EstadoEtiqueta::Activa, EstadoEtiqueta::Vendida, EstadoEtiqueta::Extraviada] {
        assert_eq!(estado_eti_de(estado_eti_txt(e)).unwrap(), e);
    }
    for t in [TipoNotificacion::PorVencer, TipoNotificacion::DiscrepanciaEnvio] {
        assert_eq!(tipo_notif_de(tipo_notif_txt(t)).unwrap(), t);
    }
    assert_eq!(nivel_txt(Nivel::MedioMayoreo), "MedioMayoreo");
    assert_eq!(tipo_prod_txt(TipoProducto::PesoVariable), "PesoVariable");
}

#[test]
fn texto_desconocido_es_dato_corrupto() {
    assert!(matches!(tipo_suc_de("Bodega"), Err(ErrorAlmacen::Corrupto(m)) if m == "tipo de sucursal desconocido: Bodega"));
    assert!(matches!(nivel_de("menudeo"), Err(ErrorAlmacen::Corrupto(m)) if m == "nivel desconocido: menudeo"));
    assert!(matches!(
        estado_aprob_de(""),
        Err(ErrorAlmacen::Corrupto(m)) if m == "estado de aprobación desconocido: "
    ));
}

// -------- organización --------

#[test]
fn arranque_y_matriz_unica() {
    assert!(exigir_sistema_vacio(0).is_ok());
    assert!(es_conflicto(&exigir_sistema_vacio(1).unwrap_err(), "el sistema ya está inicializado"));
    assert!(exigir_matriz_unica(TipoSucursal::Matriz, 0).is_ok());
    assert!(exigir_matriz_unica(TipoSucursal::Expendio, 1).is_ok());
    assert!(es_conflicto(&exigir_matriz_unica(TipoSucursal::Matriz, 1).unwrap_err(), "ya existe una sucursal matriz"));
    let todos = todos_los_permisos();
    assert_eq!(todos.len(), 17);
    assert!(todos.contains(&Permiso::Recibir));
}

#[test]
fn alta_y_renombre_de_sucursal() {
    let sistema = ContextoAcceso::sistema();
    let s = preparar_sucursal(
        &sistema,
        TipoSucursal::Matriz,
        CodigoSucursal::nueva("mat").unwrap(),
        " Matriz ",
        ZonaHoraria::default(),
        Instante::ahora(),
    )
    .unwrap();
    assert_eq!(s.nombre, "Matriz");
    assert_eq!(detalle_alta_sucursal(&s), "Matriz MAT");
    let sin = ctx_de(nuevo_id(), &[], nuevo_id());
    let r = preparar_sucursal(
        &sin,
        TipoSucursal::Expendio,
        CodigoSucursal::nueva("SRO").unwrap(),
        "Santa Rosa",
        ZonaHoraria::default(),
        Instante::ahora(),
    );
    assert!(es_dominio(&r.err().unwrap(), &ErrorDominio::PermisoDenegado(Permiso::GestionarSucursales)));
    assert_eq!(validar_renombre(&sistema, "  Centro ").unwrap(), "Centro");
    assert!(es_dominio(
        &validar_renombre(&sistema, "  ").unwrap_err(),
        &ErrorDominio::Invalido("el nombre de la sucursal es obligatorio".to_string())
    ));
}

#[test]
fn alcance_y_bajas_logicas() {
    let a = nuevo_id();
    let c = ctx_de(nuevo_id(), &[], a);
    assert!(exigir_alcance(&c, a).is_ok());
    assert!(es_dominio(&exigir_alcance(&c, nuevo_id()).unwrap_err(), &ErrorDominio::FueraDeAlcance));
    assert!(exigir_afectadas(1, "usuario", 5).is_ok());
    assert!(matches!(
        exigir_afectadas(0, "usuario", 5),
        Err(ErrorAlmacen::NoEncontrado(m)) if m == "usuario activo 00000000-0000-0000-0000-000000000005"
    ));
}

#[test]
fn autenticacion_une_los_permisos_de_los_roles() {
    let cred = Credencial::nueva("clave").unwrap();
    let id = nuevo_id();
    let ctx = autenticar(
        id,
        cred.hash().to_string(),
        Alcance::Todas,
        "clave",
        &[vec![Permiso::Vender], vec![Permiso::EditarPrecio, Permiso::Vender]],
    )
    .unwrap();
    assert_eq!(ctx.actor, Actor::Usuario(id));
    assert!(ctx.tiene(Permiso::Vender));
    assert!(ctx.tiene(Permiso::EditarPrecio));
    assert!(!ctx.tiene(Permiso::Etiquetar));
    let r = autenticar(id, cred.hash().to_string(), Alcance::Todas, "otra", &[]);
    assert!(matches!(r, Err(ErrorAlmacen::NoEncontrado(m)) if m == "credenciales inválidas"));
}

#[test]
fn alta_de_usuario_hashea_y_exige_permiso() {
    let sistema = ContextoAcceso::sistema();
    let u = preparar_usuario(&sistema, "ana", "clave", &[7, 8], Alcance::Todas, Instante::ahora()).unwrap();
    assert!(u.credencial.verificar("clave"));
    assert_eq!(u.roles, vec![7, 8]);
    let sin = ctx_de(nuevo_id(), &[], nuevo_id());
    let r = preparar_usuario(&sin, "ana", "clave", &[], Alcance::Todas, Instante::ahora());
    assert!(es_dominio(&r.err().unwrap(), &ErrorDominio::PermisoDenegado(Permiso::GestionarUsuarios)));
}

// -------- catálogo y precios --------

fn borrador(codigo: AltaCodigo, tipo: TipoProducto, origen: OrigenProducto) -> BorradorProducto {
    BorradorProducto {
        nombre: "queso".to_string(),
        tipo,
        origen,
        codigo,
        peso_empaque: None,
        vida_util: Some(VidaUtil::nueva(6).unwrap()),
    }
}

#[test]
fn alta_de_producto_acuna_el_barcode_de_matriz() {
    let sistema = ContextoAcceso::sistema();
    let p = preparar_producto(
        &sistema,
        borrador(AltaCodigo::GenerarMatriz, TipoProducto::Pieza, OrigenProducto::Matriz),
        7,
        Instante::ahora(),
    )
    .unwrap();
    assert_eq!(p.codigo.as_ref().unwrap().ean().get(), "2000000000077");
    assert_eq!(p.vida_util.meses(), 6);
    let r = preparar_producto(
        &sistema,
        borrador(AltaCodigo::GenerarMatriz, TipoProducto::Pieza, OrigenProducto::Matriz),
        1_000_000_000,
        Instante::ahora(),
    );
    assert!(es_dominio(
        &r.err().unwrap(),
        &ErrorDominio::Invalido("secuencia 1000000000 excede el espacio del prefijo 200".to_string())
    ));
    let gtin = Ean13::parse("7501059224827").unwrap();
    let r = preparar_producto(
        &sistema,
        borrador(AltaCodigo::Externo(gtin), TipoProducto::Pieza, OrigenProducto::Matriz),
        0,
        Instante::ahora(),
    );
    assert!(es_dominio(
        &r.err().unwrap(),
        &ErrorDominio::Regla("el origen del código no concuerda con el origen del producto".to_string())
    ));
    let mut b = borrador(AltaCodigo::Ninguno, TipoProducto::PesoVariable, OrigenProducto::Matriz);
    b.vida_util = None;
    let p = preparar_producto(&sistema, b, 0, Instante::ahora()).unwrap();
    assert_eq!(p.vida_util.meses(), 9);
    assert!(p.codigo.is_none());
}

#[test]
fn precios_validan_permiso_monto_y_copia() {
    let suc = nuevo_id();
    let otra = nuevo_id();
    let c = ctx_de(nuevo_id(), &[Permiso::EditarPrecio], suc);
    assert!(validar_precio(&c, suc, Centavos::new(100)).is_ok());
    assert!(es_dominio(
        &validar_precio(&c, suc, Centavos::new(-1)).unwrap_err(),
        &ErrorDominio::Invalido("el precio no puede ser negativo".to_string())
    ));
    assert!(es_dominio(&validar_precio(&c, otra, Centavos::new(1)).unwrap_err(), &ErrorDominio::FueraDeAlcance));
    assert!(es_dominio(&validar_copia_precios(&c, otra, suc).unwrap_err(), &ErrorDominio::FueraDeAlcance));
    assert!(validar_copia_precios(&c, suc, suc).is_ok());
    assert_eq!(operacion_precio(Some(5)), "Modificar");
    assert_eq!(operacion_precio(None), "Crear");
    assert_eq!(detalle_copia(3), "3 precios");
    assert_eq!(detalle_vida_util(6), "vida_util 6");
}

#[test]
fn producto_inactivo_no_se_vende() {
    let niveles = [Nivel::Menudeo, Nivel::Mayoreo];
    assert!(vendible_producto(true, &niveles, Nivel::Mayoreo));
    assert!(!vendible_producto(false, &niveles, Nivel::Mayoreo));
    assert!(!vendible_producto(true, &[Nivel::Mayoreo], Nivel::Mayoreo));
}

// -------- caja --------

#[test]
fn una_sesion_abierta_y_gasto_contra_la_abierta_de_su_sucursal() {
    assert!(exigir_sin_sesion_abierta(0).is_ok());
    assert!(es_conflicto(
        &exigir_sin_sesion_abierta(1).unwrap_err(),
        "ya hay una sesión abierta en la sucursal; ciérrala primero"
    ));
    let suc = nuevo_id();
    assert!(validar_sesion_de_gasto(suc, "Abierta", suc).is_ok());
    assert!(es_dominio(
        &validar_sesion_de_gasto(nuevo_id(), "Abierta", suc).unwrap_err(),
        &ErrorDominio::Regla("la sesión no pertenece a la sucursal del gasto".to_string())
    ));
    assert!(es_dominio(
        &validar_sesion_de_gasto(suc, "Cerrada", suc).unwrap_err(),
        &ErrorDominio::Regla("la sesión ya cerró; el gasto se registra contra la sesión abierta".to_string())
    ));
}

#[test]
fn gasto_nace_con_aprobacion_pendiente_del_cajero() {
    let suc = nuevo_id();
    let cajero = nuevo_id();
    let c = ctx_de(cajero, &[Permiso::RegistrarGasto], suc);
    let folio = Folio::componer(&CodigoSucursal::nueva("SRO").unwrap(), TipoDocumento::Gasto, 1);
    let (g, a) =
        registrar_gasto_con_aprobacion(&c, folio, Centavos::new(2000), "luz", suc, nuevo_id(), Instante::ahora()).unwrap();
    assert_eq!(a.gasto, g.id);
    assert_eq!(a.solicitante, cajero);
    assert_eq!(a.estado, EstadoAprobacion::Pendiente);
    assert_eq!(toypos::almacen::detalle_gasto(&g), "SROG1 20.00");
}

#[test]
fn solo_los_gastos_aprobados_restan() {
    let total = gastos_autorizados(&[
        (Centavos::new(1000), EstadoAprobacion::Aprobada),
        (Centavos::new(500), EstadoAprobacion::Pendiente),
        (Centavos::new(200), EstadoAprobacion::Aprobada),
        (Centavos::new(50), EstadoAprobacion::Rechazada),
    ]);
    assert_eq!(total, Centavos::new(1200));
    assert_eq!(gastos_autorizados(&[]), Centavos::cero());
}

#[test]
fn cierre_de_sesion_registrada_y_conciliacion() {
    let suc = nuevo_id();
    let c = ctx_de(nuevo_id(), &[Permiso::OperarCaja, Permiso::VerConciliacion], suc);
    let folio = || Folio::componer(&CodigoSucursal::nueva("SNJ").unwrap(), TipoDocumento::Corte, 3);
    let ventas = ResumenVentas { efectivo: Centavos::new(8000), ..ResumenVentas::default() };
    let s = cerrar_sesion_registrada(
        &c,
        1,
        suc,
        2,
        Centavos::new(500),
        Instante::ahora(),
        "Abierta",
        Centavos::new(7000),
        ventas,
        Centavos::new(1200),
        folio(),
        Instante::ahora(),
    )
    .unwrap();
    let corte = s.corte.unwrap();
    assert_eq!(corte.esperado, Centavos::new(7300));
    assert_eq!(corte.diferencia, Centavos::new(-300));
    let r = cerrar_sesion_registrada(
        &c,
        1,
        suc,
        2,
        Centavos::new(500),
        Instante::ahora(),
        "Cerrada",
        Centavos::new(7000),
        ventas,
        Centavos::new(1200),
        folio(),
        Instante::ahora(),
    );
    assert!(es_dominio(
        &r.err().unwrap(),
        &ErrorDominio::TransicionInvalida("la sesión ya está cerrada".to_string())
    ));
    let r = conciliacion_registrada(&c, suc, "Abierta", corte);
    assert!(es_dominio(
        &r.err().unwrap(),
        &ErrorDominio::Regla("la sesión aún no tiene corte".to_string())
    ));
}

#[test]
fn cola_de_aprobaciones_y_resolucion() {
    let sin = ctx_de(nuevo_id(), &[], nuevo_id());
    assert!(es_dominio(
        &exigir_puede_autorizar(&sin).unwrap_err(),
        &ErrorDominio::PermisoDenegado(Permiso::AutorizarGasto)
    ));
    let suc = nuevo_id();
    let admin = ctx_de(nuevo_id(), &[Permiso::AutorizarGasto], suc);
    assert!(exigir_puede_autorizar(&admin).is_ok());
    let mut ap = Aprobacion::pendiente(nuevo_id(), suc, nuevo_id(), Instante::ahora());
    assert!(resolver_aprobacion(&mut ap, &admin, Resolucion::Rechazar, " ", Instante::ahora()).is_err());
    assert_eq!(ap.estado, EstadoAprobacion::Pendiente);
    resolver_aprobacion(&mut ap, &admin, Resolucion::Aprobar, "", Instante::ahora()).unwrap();
    assert_eq!(ap.estado, EstadoAprobacion::Aprobada);
    assert!(resolver_aprobacion(&mut ap, &admin, Resolucion::Cancelar, "tarde", Instante::ahora()).is_err());
}

#[test]
fn resolucion_deja_resolutor_momento_y_motivo() {
    let suc = nuevo_id();
    let admin_id = nuevo_id();
    let admin = ctx_de(admin_id, &[Permiso::AutorizarGasto], suc);
    let t = instante("2025-03-01T10:00:00Z");
    let mut rechazo = Aprobacion::pendiente(nuevo_id(), suc, nuevo_id(), Instante::ahora());
    resolver_aprobacion(&mut rechazo, &admin, Resolucion::Rechazar, "  sin ticket ", t).unwrap();
    assert_eq!(rechazo.estado, EstadoAprobacion::Rechazada);
    assert_eq!(rechazo.resolutor, Some(admin_id));
    assert_eq!(rechazo.resuelto_en, Some(t));
    assert_eq!(rechazo.motivo.as_deref(), Some("sin ticket"));
    let mut cancelada = Aprobacion::pendiente(nuevo_id(), suc, nuevo_id(), Instante::ahora());
    resolver_aprobacion(&mut cancelada, &admin, Resolucion::Cancelar, "duplicado", t).unwrap();
    assert_eq!(cancelada.estado, EstadoAprobacion::Cancelada);
    assert_eq!(cancelada.motivo.as_deref(), Some("duplicado"));
    let mut aprobada = Aprobacion::pendiente(nuevo_id(), suc, nuevo_id(), Instante::ahora());
    resolver_aprobacion(&mut aprobada, &admin, Resolucion::Aprobar, "ignorado", t).unwrap();
    assert_eq!(aprobada.motivo, None);
    assert_eq!(aprobada.resuelto_en, Some(t));
    // el solicitante nunca cancela lo suyo
    let propio = Aprobacion::pendiente(nuevo_id(), suc, admin_id, Instante::ahora());
    let mut copia = propio;
    let r = resolver_aprobacion(&mut copia, &admin, Resolucion::Cancelar, "error", t);
    assert!(es_dominio(&r.unwrap_err(), &ErrorDominio::SegregacionDeDeberes));
    assert_eq!(copia.estado, EstadoAprobacion::Pendiente);
}

// -------- inventario --------

fn producto_pieza() -> Producto {
    Producto::nuevo(
        "clavos",
        TipoProducto::Pieza,
        OrigenProducto::Externo,
        Some(toypos::producto::CodigoBarras::Externo(Ean13::parse("7501059224827").unwrap())),
        None,
        Instante::ahora(),
    )
    .unwrap()
}

#[test]
fn ajuste_fija_el_saldo_al_objetivo() {
    let suc = nuevo_id();
    let c = ctx_de(nuevo_id(), &[Permiso::AjustarInventario], suc);
    let p = producto_pieza();
    let (mov, nuevo) =
        ajustar_existencia(&c, &p, suc, Cantidad::Unidades(4), Cantidad::Unidades(10), "merma", Instante::ahora())
            .unwrap();
    assert_eq!(nuevo, 4);
    assert_eq!(mov.delta, Cantidad::Unidades(-6));
    assert_eq!(existencia_o_cero(UnidadVenta::Unidad, None), Cantidad::Unidades(0));
    assert_eq!(existencia_o_cero(UnidadVenta::Kilogramo, Some(70)), Cantidad::Gramos(Gramos::new(70)));
    assert_eq!(detalle_ajuste(4, 1, &mov.motivo), "4 (suc 00000000-0000-0000-0000-000000000001; merma)");
}

#[test]
fn reversion_ida_vuelta_y_no_negativa() {
    let suc = nuevo_id();
    let c = ctx_de(nuevo_id(), &[Permiso::AjustarInventario], suc);
    let p = producto_pieza();
    // saldo 10 → ajuste a 15 (delta +5)
    let (mut mov, _) =
        ajustar_existencia(&c, &p, suc, Cantidad::Unidades(15), Cantidad::Unidades(10), "conteo", Instante::ahora())
            .unwrap();
    let e = revertir_movimiento(&c, &mut mov, Cantidad::Unidades(15), Instante::ahora()).unwrap();
    assert_eq!(e.cantidad, Cantidad::Unidades(10));
    assert_eq!(mov.estado, EstadoMovimiento::Revertido);
    assert_eq!(mov.tipo, TipoMovimiento::Ajuste);
    assert_eq!(mov.sucursal, suc);
    assert_eq!(mov.producto, p.id);
    assert_eq!(mov.motivo.as_deref(), Some("conteo"));
    let e = revertir_movimiento(&c, &mut mov, e.cantidad, Instante::ahora()).unwrap();
    assert_eq!(e.cantidad, Cantidad::Unidades(15));
    assert_eq!(mov.estado, EstadoMovimiento::Aplicado);
    // con saldo 3, deshacer el +5 dejaría -2: se rechaza y el movimiento no cambia
    assert!(revertir_movimiento(&c, &mut mov, Cantidad::Unidades(3), Instante::ahora()).is_err());
    assert_eq!(mov.estado, EstadoMovimiento::Aplicado);
    assert_eq!(detalle_reversion(10, EstadoMovimiento::Revertido, 2), "10 (Revertido mov 00000000-0000-0000-0000-000000000002)");
}

#[test]
fn revertir_solo_exige_que_quepa_la_compensacion() {
    let suc = nuevo_id();
    let c = ctx_de(nuevo_id(), &[Permiso::AjustarInventario], suc);
    let p = producto_pieza();
    let grande: i64 = 5_000_000_000_000_000_000;
    // saldo 5e18 → ajuste a 1e19 no cabe; se ajusta de 0 a 5e18 (delta +5e18)
    let (mut mov, _) =
        ajustar_existencia(&c, &p, suc, Cantidad::Unidades(grande), Cantidad::Unidades(0), "conteo", Instante::ahora())
            .unwrap();
    // revertir sobre un saldo de 5e18: saldo − delta = 0 cabe, aunque saldo + delta no cabría
    let e = revertir_movimiento(&c, &mut mov, Cantidad::Unidades(grande), Instante::ahora()).unwrap();
    assert_eq!(e.cantidad, Cantidad::Unidades(0));
}

#[test]
fn solo_se_revierten_ajustes() {
    let suc = nuevo_id();
    let c = ctx_de(nuevo_id(), &[Permiso::AjustarInventario], suc);
    let f = Folio::desde_texto("MATE1".to_string());
    let mut mov: MovimientoInventario =
        toypos::envio::movimiento_recepcion(1, suc, Cantidad::Unidades(3), &f, Instante::ahora());
    let r = revertir_movimiento(&c, &mut mov, Cantidad::Unidades(3), Instante::ahora());
    assert!(es_dominio(
        &r.err().unwrap(),
        &ErrorDominio::Regla("en esta capa solo se revierten movimientos de ajuste".to_string())
    ));
}

// -------- etiquetado y alertas --------

#[test]
fn discriminador_y_detalles_de_etiquetado() {
    assert_eq!(candidato_discriminador(100_007), 7);
    assert_eq!(candidato_discriminador(42), 42);
    assert!(exigir_pesadas(&[Gramos::new(1)]).is_ok());
    assert!(es_dominio(
        &exigir_pesadas(&[]).unwrap_err(),
        &ErrorDominio::Invalido("no hay pesadas que etiquetar".to_string())
    ));
    assert_eq!(detalle_caja_pesadas(2), "2 etiquetas");
    assert_eq!(detalle_caja_pieza(24), "24 pzas");
}

#[test]
fn alerta_por_vencer_textos_y_limite() {
    let usuario = ctx_de(nuevo_id(), &[], nuevo_id());
    assert!(es_dominio(
        &exigir_barrido_del_sistema(&usuario).unwrap_err(),
        &ErrorDominio::Regla("el barrido por vencer es una operación del sistema".to_string())
    ));
    assert!(exigir_barrido_del_sistema(&ContextoAcceso::sistema()).is_ok());
    let zona = ZonaHoraria::nueva("America/Mexico_City").unwrap();
    assert_eq!(limite_por_vencer(instante("2026-01-01T05:30:00Z"), &zona).unwrap(), "2026-01-05");
    assert_eq!(limite_por_vencer(instante("2026-02-26T18:00:00Z"), &zona).unwrap(), "2026-03-03");
    assert_eq!(
        mensaje_pesadas_por_vencer(3, 2750, "pollo", "Santa Rosa"),
        "3 etiquetas (2.750 kg) de pollo por vencer en Santa Rosa"
    );
    assert_eq!(mensaje_piezas_por_vencer(40, "queso", "Centro"), "40 pzas queso por vencer en Centro");
    assert_eq!(
        clave_grupo_por_vencer(1, 2, "2026-10-13"),
        "por_vencer:00000000-0000-0000-0000-000000000001:00000000-0000-0000-0000-000000000002:2026-10-13"
    );
}

#[test]
fn alerta_va_a_ambas_bandejas_una_sola_vez() {
    let sistema = ContextoAcceso::sistema();
    let v = alertas_por_vencer(&sistema, false, "3 pzas queso por vencer en Centro", 10, 20, Instante::ahora()).unwrap();
    assert_eq!(v.len(), 2);
    assert_eq!(v[0].sucursal, 10);
    assert_eq!(v[1].sucursal, 20);
    assert!(v.iter().all(|n| n.tipo == TipoNotificacion::PorVencer && !n.leida()));
    let v = alertas_por_vencer(&sistema, true, "3 pzas queso por vencer en Centro", 10, 20, Instante::ahora()).unwrap();
    assert!(v.is_empty());
}

fn grupo(clave: &str, mensaje: &str, sucursal: u128) -> GrupoPorVencer {
    GrupoPorVencer { clave: clave.to_string(), mensaje: mensaje.to_string(), sucursal }
}

#[test]
fn barrido_notifica_cada_lote_una_vez() {
    let sistema = ContextoAcceso::sistema();
    let grupos = vec![
        grupo("por_vencer:a", " 3 pzas queso ", 10),
        grupo("por_vencer:b", "2 pesadas jamón", 11),
        grupo("por_vencer:a", "otra vez el mismo lote", 10),
        grupo("por_vencer:c", "ya avisado", 12),
    ];
    let v = alertas_de_barrido(&sistema, vec!["por_vencer:c".to_string()], &grupos, 99, Instante::ahora())
        .unwrap();
    let resumen: Vec<(&str, u128, &str)> = v.iter().map(|(c, n)| (c.as_str(), n.sucursal, n.mensaje.as_str())).collect();
    assert_eq!(
        resumen,
        vec![
            ("por_vencer:a", 10, "3 pzas queso"),
            ("por_vencer:a", 99, "3 pzas queso"),
            ("por_vencer:b", 11, "2 pesadas jamón"),
            ("por_vencer:b", 99, "2 pesadas jamón"),
        ]
    );
    assert!(v.iter().all(|(_, n)| n.tipo == TipoNotificacion::PorVencer && !n.leida()));
    // repetir el barrido con lo ya notificado no emite nada
    let mut ya: Vec<String> = v.iter().map(|(c, _)| c.clone()).collect();
    ya.push("por_vencer:c".to_string());
    assert!(alertas_de_barrido(&sistema, ya, &grupos, 99, Instante::ahora()).unwrap().is_empty());
    // un usuario no barre
    let usuario = ctx_de(nuevo_id(), &[], 10);
    assert!(alertas_de_barrido(&usuario, Vec::new(), &grupos, 99, Instante::ahora()).is_err());
}

#[test]
fn marcar_leida_exige_permiso_y_es_idempotente() {
    let suc = nuevo_id();
    let mut n =
        Notificacion::emitir(&ContextoAcceso::sistema(), TipoNotificacion::PorVencer, "aviso", suc, Instante::ahora())
            .unwrap();
    let sin = ctx_de(nuevo_id(), &[], suc);
    assert!(marcar_leida_autorizada(&sin, &mut n, Instante::ahora()).is_err());
    assert!(!n.leida());
    let con = ctx_de(nuevo_id(), &[Permiso::VerNotificaciones], suc);
    let t1 = Instante::ahora();
    assert!(marcar_leida_autorizada(&con, &mut n, t1).unwrap());
    assert!(!marcar_leida_autorizada(&con, &mut n, Instante::ahora()).unwrap());
    assert_eq!(n.leida_en, Some(t1));
}
