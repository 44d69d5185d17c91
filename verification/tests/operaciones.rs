use toypos::acceso::{Actor, Alcance, ConjuntoPermisos, ContextoAcceso, Permiso};
use toypos::aprobacion::{Aprobacion, EstadoAprobacion};
use toypos::caja::{ResumenVentas, SesionCaja};
use toypos::error::ErrorDominio;
use toypos::folio::{Folio, TipoDocumento};
use toypos::gasto::Gasto;
use toypos::inventario::{Cantidad, EstadoMovimiento, Existencia, MovimientoInventario, TipoMovimiento};
use toypos::notificacion::{Notificacion, TipoNotificacion};
use toypos::producto::{CodigoBarras, OrigenProducto, Producto, TipoProducto, UnidadVenta};
use toypos::sesion::{activa_automatica, Sesion};
use toypos::sucursal::CodigoSucursal;
use toypos::barcode::Ean13;
use toypos::tiempo::Instante;
use toypos::unidades::{Centavos, Gramos};
use toypos::usuario::{permisos_efectivos, Credencial, Rol, Usuario};

fn nuevo_id() -> u128 {
    uuid::Uuid::new_v4().as_u128()
}

fn ctx_de(usuario: u128, permisos: &[Permiso], sucursal: u128) -> ContextoAcceso {
    ContextoAcceso::nuevo(
        Actor::Usuario(usuario),
        ConjuntoPermisos::desde(permisos),
        Alcance::de(&[sucursal]),
    )
}

fn ctx(permisos: &[Permiso], sucursal: u128) -> ContextoAcceso {
    ctx_de(nuevo_id(), permisos, sucursal)
}

fn instante(rfc: &str) -> Instante {
    Instante::desde_timestamp(rfc.parse::<jiff::Timestamp>().unwrap().as_nanosecond())
}

// -------- aprobación --------

#[test]
fn aprobar_registra_autoria_y_es_terminal() {
    let suc = nuevo_id();
    let cajero = nuevo_id();
    let admin = nuevo_id();
    let mut ap = Aprobacion::pendiente(nuevo_id(), suc, cajero, Instante::ahora());
    ap.aprobar(&ctx_de(admin, &[Permiso::AutorizarGasto], suc), Instante::ahora()).unwrap();
    assert_eq!(ap.estado, EstadoAprobacion::Aprobada);
    assert_eq!(ap.resolutor, Some(admin));
    assert!(ap.autorizado());
    assert!(ap.rechazar(&ctx_de(admin, &[Permiso::AutorizarGasto], suc), "x", Instante::ahora()).is_err());
}

#[test]
fn rechazo_requiere_motivo() {
    let suc = nuevo_id();
    let mut ap = Aprobacion::pendiente(nuevo_id(), suc, nuevo_id(), Instante::ahora());
    let c = ctx(&[Permiso::AutorizarGasto], suc);
    assert!(ap.rechazar(&c, "   ", Instante::ahora()).is_err());
    ap.rechazar(&c, "fuera de política", Instante::ahora()).unwrap();
    assert_eq!(ap.estado, EstadoAprobacion::Rechazada);
    assert_eq!(ap.motivo.as_deref(), Some("fuera de política"));
}

#[test]
fn cajero_no_autoriza() {
    let suc = nuevo_id();
    let cajero = nuevo_id();
    let mut ap = Aprobacion::pendiente(nuevo_id(), suc, cajero, Instante::ahora());
    let c = ctx_de(cajero, &[Permiso::RegistrarGasto], suc);
    assert!(ap.aprobar(&c, Instante::ahora()).is_err());
}

#[test]
fn segregacion_de_deberes() {
    let suc = nuevo_id();
    let solicitante = nuevo_id();
    let mut ap = Aprobacion::pendiente(nuevo_id(), suc, solicitante, Instante::ahora());
    let c = ctx_de(solicitante, &[Permiso::AutorizarGasto], suc);
    assert_eq!(ap.aprobar(&c, Instante::ahora()), Err(ErrorDominio::SegregacionDeDeberes));
    let c2 = ctx_de(solicitante, &[Permiso::AutorizarGasto, Permiso::AutoaprobarGasto], suc);
    assert!(ap.aprobar(&c2, Instante::ahora()).is_ok());
}

#[test]
fn cancelar_lo_hace_un_aprobador_no_el_solicitante() {
    let suc = nuevo_id();
    let solicitante = nuevo_id();
    let mut ap = Aprobacion::pendiente(nuevo_id(), suc, solicitante, Instante::ahora());
    let propio = ctx_de(solicitante, &[Permiso::AutorizarGasto, Permiso::AutoaprobarGasto], suc);
    assert_eq!(
        ap.cancelar(&propio, "error", Instante::ahora()),
        Err(ErrorDominio::SegregacionDeDeberes)
    );
    let admin = ctx(&[Permiso::AutorizarGasto], suc);
    ap.cancelar(&admin, "gasto por error", Instante::ahora()).unwrap();
    assert_eq!(ap.estado, EstadoAprobacion::Cancelada);
}

#[test]
fn no_se_cancela_una_ya_resuelta() {
    let suc = nuevo_id();
    let mut ap = Aprobacion::pendiente(nuevo_id(), suc, nuevo_id(), Instante::ahora());
    let admin = ctx(&[Permiso::AutorizarGasto], suc);
    ap.aprobar(&admin, Instante::ahora()).unwrap();
    assert!(ap.cancelar(&admin, "tarde", Instante::ahora()).is_err());
}

#[test]
fn terminal_no_cambia_y_dice_su_estado() {
    let suc = nuevo_id();
    let mut ap = Aprobacion::pendiente(nuevo_id(), suc, nuevo_id(), Instante::ahora());
    let admin = ctx(&[Permiso::AutorizarGasto], suc);
    ap.rechazar(&admin, " tarde ", Instante::ahora()).unwrap();
    let resolutor = ap.resolutor;
    assert_eq!(
        ap.aprobar(&admin, Instante::ahora()),
        Err(ErrorDominio::TransicionInvalida(
            "la aprobación ya está Rechazada y no se re-resuelve".to_string()
        ))
    );
    assert_eq!(ap.estado, EstadoAprobacion::Rechazada);
    assert_eq!(ap.resolutor, resolutor);
    assert_eq!(ap.motivo.as_deref(), Some("tarde"));
    assert!(EstadoAprobacion::Cancelada.es_terminal());
    assert!(!EstadoAprobacion::Pendiente.es_terminal());
}

// -------- caja --------

fn folio_corte() -> Folio {
    Folio::componer(&CodigoSucursal::nueva("SNJ").unwrap(), TipoDocumento::Corte, 56)
}

fn sin_ventas() -> ResumenVentas {
    ResumenVentas::default()
}

#[test]
fn esperado_y_venta_neta() {
    let suc = nuevo_id();
    let c = ctx(&[Permiso::OperarCaja, Permiso::VerConciliacion], suc);
    let mut s = SesionCaja::abrir(&c, suc, Centavos::de_pesos(500, 0), Instante::ahora()).unwrap();
    let ventas = ResumenVentas { efectivo: Centavos::de_pesos(8000, 0), ..sin_ventas() };
    s.cerrar(&c, Centavos::de_pesos(7300, 0), ventas, Centavos::de_pesos(1200, 0), folio_corte(), Instante::ahora())
        .unwrap();
    let corte = s.ver_conciliacion(&c).unwrap();
    assert_eq!(corte.esperado, Centavos::de_pesos(7300, 0));
    assert_eq!(corte.venta_neta_efectivo(), Centavos::de_pesos(8000, 0));
    assert_eq!(corte.diferencia, Centavos::cero());
}

#[test]
fn transferencia_no_entra_al_arqueo() {
    let suc = nuevo_id();
    let c = ctx(&[Permiso::OperarCaja, Permiso::VerConciliacion], suc);
    let mut s = SesionCaja::abrir(&c, suc, Centavos::cero(), Instante::ahora()).unwrap();
    let ventas = ResumenVentas {
        efectivo: Centavos::de_pesos(8000, 0),
        transferencia: Centavos::de_pesos(3000, 0),
        deposito: Centavos::cero(),
    };
    s.cerrar(&c, Centavos::de_pesos(8000, 0), ventas, Centavos::cero(), folio_corte(), Instante::ahora())
        .unwrap();
    let corte = s.ver_conciliacion(&c).unwrap();
    assert_eq!(corte.ventas.total(), Centavos::de_pesos(11000, 0));
    assert_eq!(corte.esperado, Centavos::de_pesos(8000, 0));
}

#[test]
fn faltante_sin_sancion() {
    let suc = nuevo_id();
    let c = ctx(&[Permiso::OperarCaja, Permiso::VerConciliacion], suc);
    let mut s = SesionCaja::abrir(&c, suc, Centavos::cero(), Instante::ahora()).unwrap();
    let ventas = ResumenVentas { efectivo: Centavos::de_pesos(7300, 0), ..sin_ventas() };
    s.cerrar(&c, Centavos::de_pesos(7250, 0), ventas, Centavos::cero(), folio_corte(), Instante::ahora())
        .unwrap();
    let corte = s.ver_conciliacion(&c).unwrap();
    assert!(corte.es_faltante());
    assert_eq!(corte.diferencia, Centavos::de_pesos(-50, 0));
}

#[test]
fn cajero_no_ve_conciliacion() {
    let suc = nuevo_id();
    let cajero = ctx(&[Permiso::OperarCaja], suc);
    let mut s = SesionCaja::abrir(&cajero, suc, Centavos::cero(), Instante::ahora()).unwrap();
    s.cerrar(&cajero, Centavos::de_pesos(100, 0), sin_ventas(), Centavos::cero(), folio_corte(), Instante::ahora())
        .unwrap();
    assert!(s.ver_conciliacion(&cajero).is_err());
}

#[test]
fn corte_cerrado_es_inmutable() {
    let suc = nuevo_id();
    let c = ctx(&[Permiso::OperarCaja], suc);
    let mut s = SesionCaja::abrir(&c, suc, Centavos::cero(), Instante::ahora()).unwrap();
    s.cerrar(&c, Centavos::cero(), sin_ventas(), Centavos::cero(), folio_corte(), Instante::ahora()).unwrap();
    assert!(s
        .cerrar(&c, Centavos::cero(), sin_ventas(), Centavos::cero(), folio_corte(), Instante::ahora())
        .is_err());
}

#[test]
fn apertura_rechaza_fondo_negativo_y_al_sistema() {
    let suc = nuevo_id();
    let c = ctx(&[Permiso::OperarCaja], suc);
    assert_eq!(
        SesionCaja::abrir(&c, suc, Centavos::new(-1), Instante::ahora()).err(),
        Some(ErrorDominio::Invalido("el fondo de apertura no puede ser negativo".to_string()))
    );
    assert_eq!(
        SesionCaja::abrir(&ContextoAcceso::sistema(), suc, Centavos::cero(), Instante::ahora()).err(),
        Some(ErrorDominio::RequiereUsuario)
    );
}

// -------- gasto --------

fn folio_gasto() -> Folio {
    Folio::componer(&CodigoSucursal::nueva("SRO").unwrap(), TipoDocumento::Gasto, 204)
}

#[test]
fn registrar_exige_permiso() {
    let suc = nuevo_id();
    let sin = ctx(&[Permiso::Vender], suc);
    assert!(Gasto::registrar(&sin, folio_gasto(), Centavos::de_pesos(2000, 0), "publicidad", suc, nuevo_id(), Instante::ahora())
        .is_err());
}

#[test]
fn registrar_valido() {
    let suc = nuevo_id();
    let c = ctx(&[Permiso::RegistrarGasto], suc);
    let g = Gasto::registrar(&c, folio_gasto(), Centavos::de_pesos(2000, 0), "publicidad", suc, nuevo_id(), Instante::ahora())
        .unwrap();
    assert_eq!(g.monto, Centavos::de_pesos(2000, 0));
    assert_eq!(g.folio.get(), "SROG204");
}

#[test]
fn monto_no_positivo_se_rechaza() {
    let suc = nuevo_id();
    let c = ctx(&[Permiso::RegistrarGasto], suc);
    assert!(Gasto::registrar(&c, folio_gasto(), Centavos::cero(), "x", suc, nuevo_id(), Instante::ahora()).is_err());
}

// -------- inventario --------

fn producto_pieza() -> Producto {
    Producto::nuevo(
        "clavos",
        TipoProducto::Pieza,
        OrigenProducto::Externo,
        Some(CodigoBarras::Externo(Ean13::parse("7501059224827").unwrap())),
        None,
        Instante::ahora(),
    )
    .unwrap()
}

#[test]
fn no_se_mezclan_unidades_con_gramos() {
    let r = Cantidad::Unidades(3).sumar(Cantidad::Gramos(Gramos::new(500)));
    assert!(r.is_err());
}

#[test]
fn cero_deriva_de_la_unidad() {
    assert_eq!(Cantidad::cero(UnidadVenta::Unidad), Cantidad::Unidades(0));
    assert_eq!(Cantidad::cero(UnidadVenta::Kilogramo), Cantidad::Gramos(Gramos::cero()));
}

#[test]
fn ajuste_absoluto_calcula_el_delta() {
    let p = producto_pieza();
    let suc = nuevo_id();
    let c = ctx(&[Permiso::AjustarInventario], suc);
    let m = MovimientoInventario::ajuste(&c, &p, suc, Cantidad::Unidades(15), Cantidad::Unidades(10), "conteo", Instante::ahora())
        .unwrap();
    assert_eq!(m.delta, Cantidad::Unidades(5));
    assert_eq!(m.tipo, TipoMovimiento::Ajuste);
}

#[test]
fn ajuste_exige_permiso_motivo_y_no_negativo() {
    let p = producto_pieza();
    let suc = nuevo_id();
    let sin = ctx(&[Permiso::Vender], suc);
    assert!(MovimientoInventario::ajuste(&sin, &p, suc, Cantidad::Unidades(5), Cantidad::Unidades(0), "x", Instante::ahora())
        .is_err());
    let con = ctx(&[Permiso::AjustarInventario], suc);
    assert!(MovimientoInventario::ajuste(&con, &p, suc, Cantidad::Unidades(5), Cantidad::Unidades(0), "  ", Instante::ahora())
        .is_err());
    assert!(MovimientoInventario::ajuste(&con, &p, suc, Cantidad::Unidades(-1), Cantidad::Unidades(0), "x", Instante::ahora())
        .is_err());
    assert!(MovimientoInventario::ajuste(
        &con,
        &p,
        suc,
        Cantidad::Gramos(Gramos::new(500)),
        Cantidad::Unidades(0),
        "x",
        Instante::ahora()
    )
    .is_err());
}

#[test]
fn existencia_no_puede_quedar_negativa() {
    let e = Existencia::nueva(nuevo_id(), nuevo_id(), Cantidad::Unidades(10));
    assert!(e.aplicar(Cantidad::Unidades(-12)).is_err());
    assert_eq!(e.aplicar(Cantidad::Unidades(-3)).unwrap().cantidad, Cantidad::Unidades(7));
}

#[test]
fn saldo_iguala_la_suma_de_los_movimientos() {
    let deltas = [Gramos::new(1200), Gramos::new(-450), Gramos::new(300), Gramos::new(-1050)];
    let mut e = Existencia::cero(1, 2, UnidadVenta::Kilogramo);
    let mut suma: i64 = 0;
    for d in deltas {
        e = e.aplicar(Cantidad::Gramos(d)).unwrap();
        suma += d.get();
    }
    assert_eq!(e.cantidad, Cantidad::Gramos(Gramos::new(suma)));
    assert_eq!(e.cantidad, Cantidad::Gramos(Gramos::new(0)));
}

#[test]
fn reversion_alterna_y_compensa_sin_duplicar() {
    let suc = nuevo_id();
    let c = ctx(&[Permiso::AjustarInventario], suc);
    let p = producto_pieza();
    let mut m = MovimientoInventario::ajuste(&c, &p, suc, Cantidad::Unidades(15), Cantidad::Unidades(10), "conteo", Instante::ahora())
        .unwrap();
    assert_eq!(m.compensacion(), Cantidad::Unidades(-5));
    m.alternar_reversion(Instante::ahora());
    assert_eq!(m.estado, EstadoMovimiento::Revertido);
    assert_eq!(m.compensacion(), Cantidad::Unidades(5));
    m.alternar_reversion(Instante::ahora());
    assert_eq!(m.estado, EstadoMovimiento::Aplicado);
}

#[test]
fn cantidades_opuestas_y_resta() {
    let g = Cantidad::Gramos(Gramos::new(750));
    assert_eq!(g.negada(), Cantidad::Gramos(Gramos::new(-750)));
    assert_eq!(g.negada().negada(), g);
    assert_eq!(Cantidad::Unidades(10).restar(Cantidad::Unidades(4)), Ok(Cantidad::Unidades(6)));
    assert_eq!(
        Cantidad::Unidades(1).sumar(Cantidad::Gramos(Gramos::new(1))),
        Err(ErrorDominio::Regla("no se pueden mezclar unidades con gramos en el inventario".to_string()))
    );
    assert_eq!(Cantidad::en(UnidadVenta::Kilogramo, 9).magnitud(), 9);
    assert!(Cantidad::Unidades(0).es_cero());
    assert!(Cantidad::Unidades(-1).es_negativa());
    assert_eq!(Existencia::cero(1, 2, UnidadVenta::Unidad).cantidad, Cantidad::Unidades(0));
}

// -------- notificación --------

#[test]
fn solo_el_sistema_emite() {
    let usuario = ContextoAcceso::nuevo(Actor::Usuario(nuevo_id()), ConjuntoPermisos::vacio(), Alcance::Todas);
    assert!(Notificacion::emitir(&usuario, TipoNotificacion::PorVencer, "x", nuevo_id(), Instante::ahora()).is_err());
    assert!(Notificacion::emitir(
        &ContextoAcceso::sistema(),
        TipoNotificacion::PorVencer,
        "40 pzas por vencer",
        nuevo_id(),
        Instante::ahora()
    )
    .is_ok());
}

#[test]
fn mensaje_vacio_se_rechaza() {
    let r = Notificacion::emitir(&ContextoAcceso::sistema(), TipoNotificacion::PorVencer, "   ", nuevo_id(), Instante::ahora());
    assert!(r.is_err());
}

#[test]
fn marcar_leida_es_idempotente_y_conserva_la_marca() {
    let mut n = Notificacion::emitir(&ContextoAcceso::sistema(), TipoNotificacion::PorVencer, "aviso", nuevo_id(), Instante::ahora())
        .unwrap();
    assert!(!n.leida());
    let t1 = Instante::ahora();
    n.marcar_leida(t1);
    assert_eq!(n.leida_en, Some(t1));
    n.marcar_leida(Instante::ahora());
    assert_eq!(n.leida_en, Some(t1));
}

// -------- sesión --------

#[test]
fn alcance_de_una_activa_automatica() {
    let a = nuevo_id();
    let s = Sesion::iniciar(ctx(&[], a), Instante::ahora());
    assert_eq!(s.sucursal_activa, Some(a));
}

#[test]
fn alcance_multiple_no_elige_por_defecto() {
    let c = ContextoAcceso::nuevo(
        Actor::Usuario(nuevo_id()),
        ConjuntoPermisos::vacio(),
        Alcance::de(&[nuevo_id(), nuevo_id()]),
    );
    let s = Sesion::iniciar(c, Instante::ahora());
    assert_eq!(s.sucursal_activa, None);
    assert_eq!(activa_automatica(&Alcance::Todas), None);
}

#[test]
fn seleccionar_fuera_de_alcance_se_rechaza() {
    let a = nuevo_id();
    let mut s = Sesion::iniciar(ctx(&[], a), Instante::ahora());
    assert_eq!(s.seleccionar_sucursal(nuevo_id()), Err(ErrorDominio::FueraDeAlcance));
    assert!(s.seleccionar_sucursal(a).is_ok());
}

#[test]
fn expira_por_inactividad() {
    let t0 = instante("2026-01-01T10:00:00Z");
    let c = ContextoAcceso::nuevo(Actor::Usuario(nuevo_id()), ConjuntoPermisos::vacio(), Alcance::Todas);
    let mut s = Sesion::iniciar(c, t0);
    let t_poco = instante("2026-01-01T10:04:00Z");
    let t_mucho = instante("2026-01-01T10:06:00Z");
    assert!(!s.expirada(t_poco, 300));
    assert!(s.expirada(t_mucho, 300));
    s.tocar(t_poco);
    assert!(!s.expirada(t_mucho, 300));
}

// -------- usuario --------

#[test]
fn credencial_hashea_y_verifica() {
    let c = Credencial::nueva("secreta123").unwrap();
    assert_ne!(c.hash(), "secreta123");
    assert!(c.verificar("secreta123"));
    assert!(!c.verificar("otra"));
    let r = Credencial::desde_hash(c.hash().to_string());
    assert!(r.verificar("secreta123"));
    assert_eq!(
        Credencial::nueva("abc").err(),
        Some(ErrorDominio::Invalido("la contraseña es demasiado corta".to_string()))
    );
    assert!(!Credencial::desde_hash("no es phc".to_string()).verificar("x"));
}

#[test]
fn permisos_efectivos_son_union_de_roles() {
    let ahora = Instante::ahora();
    let cajero = Rol::nuevo("cajero", &[Permiso::Vender, Permiso::RegistrarGasto], ahora).unwrap();
    let precios = Rol::nuevo("precios", &[Permiso::EditarPrecio], ahora).unwrap();
    let u = Usuario::nuevo(
        "ana",
        Credencial::nueva("clave").unwrap(),
        vec![cajero.id, precios.id],
        Alcance::Todas,
        ahora,
    )
    .unwrap();
    let efectivos = permisos_efectivos(&u, &[cajero, precios]);
    assert!(efectivos.contiene(Permiso::Vender));
    assert!(efectivos.contiene(Permiso::EditarPrecio));
    assert!(efectivos.contiene(Permiso::RegistrarGasto));
}

#[test]
fn roles_inactivos_o_ajenos_no_aportan() {
    let ahora = Instante::ahora();
    let mut inactivo = Rol::nuevo("viejo", &[Permiso::AutorizarGasto], ahora).unwrap();
    inactivo.activo = false;
    let ajeno = Rol::nuevo("ajeno", &[Permiso::Etiquetar], ahora).unwrap();
    let mut propio = Rol::nuevo("propio", &[Permiso::Vender], ahora).unwrap();
    propio.agregar_permiso(Permiso::OperarCaja, ahora);
    propio.quitar_permiso(Permiso::Vender, ahora);
    let u = Usuario::nuevo(" beto ", Credencial::nueva("clave").unwrap(), vec![inactivo.id, propio.id], Alcance::Todas, ahora)
        .unwrap();
    assert_eq!(u.usuario, "beto");
    let efectivos = permisos_efectivos(&u, &[inactivo, ajeno, propio]);
    assert!(efectivos.contiene(Permiso::OperarCaja));
    assert!(!efectivos.contiene(Permiso::Vender));
    assert!(!efectivos.contiene(Permiso::AutorizarGasto));
    assert!(!efectivos.contiene(Permiso::Etiquetar));
    assert!(Rol::nuevo("   ", &[], ahora).is_err());
    assert!(Usuario::nuevo("", Credencial::nueva("clave").unwrap(), vec![], Alcance::Todas, ahora).is_err());
}
