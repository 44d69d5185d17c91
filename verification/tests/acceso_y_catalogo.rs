use toypos::acceso::{Actor, Alcance, ClasePermiso, ConjuntoPermisos, ContextoAcceso, Permiso};
use toypos::barcode::{Ean13, PREFIJO_MATRIZ};
use toypos::error::ErrorDominio;
use toypos::folio::{Folio, TipoDocumento};
use toypos::precio::{esta_congelado, vendible, Nivel};
use toypos::producto::{CodigoBarras, OrigenProducto, Producto, TipoProducto, UnidadVenta, VidaUtil};
use toypos::sucursal::CodigoSucursal;
use toypos::tiempo::{Instante, ZonaHoraria, ZONA_POR_DEFECTO};
use toypos::unidades::{Centavos, Gramos};

fn nuevo_id() -> u128 {
    uuid::Uuid::new_v4().as_u128()
}

fn ctx(permisos: &[Permiso], alcance: Alcance) -> ContextoAcceso {
    ContextoAcceso::nuevo(Actor::Usuario(nuevo_id()), ConjuntoPermisos::desde(permisos), alcance)
}

fn instante(rfc: &str) -> Instante {
    Instante::desde_timestamp(rfc.parse::<jiff::Timestamp>().unwrap().as_nanosecond())
}

// -------- acceso --------

#[test]
fn clase_de_permisos() {
    assert_eq!(Permiso::Vender.clase(), ClasePermiso::PorSucursal);
    assert_eq!(Permiso::AutoaprobarGasto.clase(), ClasePermiso::DeSistema);
    assert_eq!(Permiso::GestionarRoles.clase(), ClasePermiso::DeSistema);
}

#[test]
fn por_sucursal_requiere_permiso_y_alcance() {
    let a = nuevo_id();
    let b = nuevo_id();
    let c = ctx(&[Permiso::Vender], Alcance::de(&[a]));
    assert!(c.requiere_en(Permiso::Vender, a).is_ok());
    assert_eq!(c.requiere_en(Permiso::Vender, b), Err(ErrorDominio::FueraDeAlcance));
    assert_eq!(
        c.requiere_en(Permiso::EditarPrecio, a),
        Err(ErrorDominio::PermisoDenegado(Permiso::EditarPrecio))
    );
}

#[test]
fn alcance_todas_no_concede_permisos() {
    let c = ctx(&[], Alcance::Todas);
    assert_eq!(
        c.requiere_en(Permiso::AutorizarGasto, nuevo_id()),
        Err(ErrorDominio::PermisoDenegado(Permiso::AutorizarGasto))
    );
}

#[test]
fn de_sistema_no_mira_sucursal() {
    let c = ctx(&[Permiso::GestionarRoles], Alcance::de(&[]));
    assert!(c.requiere(Permiso::GestionarRoles).is_ok());
}

#[test]
fn sistema_tiene_todo() {
    let s = ContextoAcceso::sistema();
    assert!(s.requiere(Permiso::GestionarProductos).is_ok());
    assert!(s.requiere_en(Permiso::Vender, nuevo_id()).is_ok());
    assert!(s.usuario().is_err());
}

#[test]
fn textos_de_actor_permiso_y_error() {
    assert_eq!(Actor::Sistema.texto(), "sistema");
    let id = 0x0123_4567_89ab_cdef_0011_2233_4455_6677u128;
    assert_eq!(Actor::Usuario(id).texto(), "usuario:01234567-89ab-cdef-0011-223344556677");
    assert_eq!(Permiso::VerConciliacion.texto(), "VerConciliacion");
    assert_eq!(
        ErrorDominio::PermisoDenegado(Permiso::Enviar).mensaje(),
        "permiso denegado: falta `Enviar`"
    );
    assert_eq!(ErrorDominio::Regla("x".to_string()).mensaje(), "regla violada: x");
    assert_eq!(ErrorDominio::Invalido("y".to_string()).mensaje(), "dato inválido: y");
}

#[test]
fn conjunto_de_permisos_sin_repetidos() {
    let mut c = ConjuntoPermisos::desde(&[Permiso::Vender, Permiso::Vender, Permiso::Etiquetar]);
    assert_eq!(c.a_vec().len(), 2);
    c.insertar(Permiso::Vender);
    assert_eq!(c.a_vec().len(), 2);
    c.quitar(Permiso::Vender);
    assert!(!c.contiene(Permiso::Vender));
    assert!(c.contiene(Permiso::Etiquetar));
}

// -------- barcode --------

#[test]
fn valida_gtin_externo_real() {
    assert!(Ean13::parse("7501059224827").is_ok());
}

#[test]
fn rechaza_verificador_incorrecto() {
    assert!(Ean13::parse("7501059224820").is_err());
}

#[test]
fn rechaza_longitud_y_no_digitos() {
    assert!(Ean13::parse("12345").is_err());
    assert!(Ean13::parse("75010592248AB").is_err());
}

#[test]
fn genera_matriz_decodable_y_con_prefijo() {
    let a = Ean13::generar_matriz(PREFIJO_MATRIZ, 1).unwrap();
    assert_eq!(a.get().len(), 13);
    assert!(a.get().starts_with(PREFIJO_MATRIZ));
    assert!(Ean13::parse(a.get()).is_ok());
}

#[test]
fn secuencias_distintas_dan_codigos_distintos() {
    let a = Ean13::generar_matriz(PREFIJO_MATRIZ, 1).unwrap();
    let b = Ean13::generar_matriz(PREFIJO_MATRIZ, 2).unwrap();
    assert_ne!(a, b);
}

#[test]
fn secuencia_fuera_de_rango_se_rechaza() {
    assert!(Ean13::generar_matriz("200", 1_000_000_000).is_err());
}

#[test]
fn generar_matriz_valor_exacto_y_mensajes() {
    // 200 000000007 → suma ponderada 2 + 3·7 = 23 → verificador 7
    assert_eq!(Ean13::generar_matriz("200", 7).unwrap().get(), "2000000000077");
    assert_eq!(
        Ean13::generar_matriz("2a0", 1),
        Err(ErrorDominio::Invalido("prefijo interno inválido: 2a0".to_string()))
    );
    assert_eq!(
        Ean13::generar_matriz("200", 1_000_000_000),
        Err(ErrorDominio::Invalido(
            "secuencia 1000000000 excede el espacio del prefijo 200".to_string()
        ))
    );
    assert_eq!(
        Ean13::parse("7501059224820"),
        Err(ErrorDominio::Invalido("dígito verificador inválido en 7501059224820".to_string()))
    );
    assert_eq!(
        Ean13::parse("12345"),
        Err(ErrorDominio::Invalido("EAN-13 debe ser 13 dígitos: 12345".to_string()))
    );
}

#[test]
fn etiqueta_por_item_codifica_discriminador_y_peso() {
    let e = Ean13::generar_etiqueta(42, Gramos::new(1250)).unwrap();
    assert_eq!(&e.get()[..12], "210004201250");
    assert!(Ean13::parse(e.get()).is_ok());
    assert!(Ean13::generar_etiqueta(1, Gramos::new(0)).is_err());
    assert!(Ean13::generar_etiqueta(1, Gramos::new(100_000)).is_err());
    assert_eq!(
        Ean13::generar_etiqueta(100_000, Gramos::new(5)),
        Err(ErrorDominio::Invalido("discriminador fuera de rango: 100000".to_string()))
    );
}

#[test]
fn permisos_salen_en_orden_del_catalogo() {
    let c = ConjuntoPermisos::desde(&[Permiso::GestionarRoles, Permiso::Vender, Permiso::Recibir, Permiso::Vender]);
    assert_eq!(c.a_vec(), vec![Permiso::Vender, Permiso::Recibir, Permiso::GestionarRoles]);
}

// -------- folio --------

#[test]
fn compone_folio_sin_separadores() {
    let cod = CodigoSucursal::nueva("SNJ").unwrap();
    assert_eq!(Folio::componer(&cod, TipoDocumento::Corte, 56).get(), "SNJC56");
    assert_eq!(Folio::componer(&cod, TipoDocumento::Gasto, 204).get(), "SNJG204");
    assert_eq!(Folio::componer(&cod, TipoDocumento::Nota, 13280).get(), "SNJN13280");
}

#[test]
fn folio_de_envio_usa_la_letra_e() {
    let cod = CodigoSucursal::nueva("MAT").unwrap();
    assert_eq!(TipoDocumento::Envio.letra(), 'E');
    assert_eq!(Folio::componer(&cod, TipoDocumento::Envio, 1).get(), "MATE1");
    assert_eq!(Folio::desde_texto("SROG9".to_string()).get(), "SROG9");
}

#[test]
fn folios_de_codigos_que_terminan_en_digito_no_chocan() {
    // "S1" + C + 23 y "S1C2" + C + 3 se distinguen por la posición de la última letra.
    let corto = CodigoSucursal::nueva("S1").unwrap();
    let largo = CodigoSucursal::nueva("S1C2").unwrap();
    let a = Folio::componer(&corto, TipoDocumento::Corte, 23);
    let b = Folio::componer(&largo, TipoDocumento::Corte, 3);
    assert_eq!(a.get(), "S1C23");
    assert_eq!(b.get(), "S1C2C3");
    assert_ne!(a.get(), b.get());
    let c = Folio::componer(&corto, TipoDocumento::Gasto, 23);
    assert_ne!(a.get(), c.get());
}

// -------- precio --------

#[test]
fn sin_menudeo_esta_congelado() {
    let solo_mayoreo = [Nivel::Mayoreo];
    assert!(esta_congelado(&solo_mayoreo));
    assert!(!vendible(&solo_mayoreo, Nivel::Mayoreo));
}

#[test]
fn con_menudeo_se_descongela() {
    let con_menudeo = [Nivel::Menudeo, Nivel::Mayoreo];
    assert!(!esta_congelado(&con_menudeo));
    assert!(vendible(&con_menudeo, Nivel::Menudeo));
    assert!(vendible(&con_menudeo, Nivel::Mayoreo));
    assert!(!vendible(&con_menudeo, Nivel::MedioMayoreo));
}

#[test]
fn sin_niveles_esta_congelado() {
    assert!(esta_congelado(&[]));
    assert_eq!(Nivel::todos(), [Nivel::Menudeo, Nivel::MedioMayoreo, Nivel::Mayoreo]);
}

// -------- producto --------

#[test]
fn peso_variable_sin_codigo_y_unidad_kg() {
    let p = Producto::nuevo(
        "pollo",
        TipoProducto::PesoVariable,
        OrigenProducto::Matriz,
        None,
        None,
        Instante::ahora(),
    )
    .unwrap();
    assert_eq!(p.unidad_venta(), UnidadVenta::Kilogramo);
}

#[test]
fn peso_variable_con_codigo_se_rechaza() {
    let ean = Ean13::parse("7501059224827").unwrap();
    let r = Producto::nuevo(
        "pollo",
        TipoProducto::PesoVariable,
        OrigenProducto::Externo,
        Some(CodigoBarras::Externo(ean)),
        None,
        Instante::ahora(),
    );
    assert!(r.is_err());
}

#[test]
fn peso_variable_con_peso_empaque_se_rechaza() {
    let r = Producto::nuevo(
        "pollo",
        TipoProducto::PesoVariable,
        OrigenProducto::Matriz,
        None,
        Some(Gramos::new(500)),
        Instante::ahora(),
    );
    assert!(r.is_err());
}

#[test]
fn pieza_externa_lleva_gtin() {
    let ean = Ean13::parse("7501059224827").unwrap();
    let p = Producto::nuevo(
        "Nescafé",
        TipoProducto::Pieza,
        OrigenProducto::Externo,
        Some(CodigoBarras::Externo(ean)),
        None,
        Instante::ahora(),
    )
    .unwrap();
    assert_eq!(p.unidad_venta(), UnidadVenta::Unidad);
}

#[test]
fn pieza_matriz_peso_fijo_informativo() {
    let ean = Ean13::generar_matriz(PREFIJO_MATRIZ, 7).unwrap();
    let p = Producto::nuevo(
        "queso 500 g",
        TipoProducto::Pieza,
        OrigenProducto::Matriz,
        Some(CodigoBarras::Matriz(ean)),
        Some(Gramos::new(500)),
        Instante::ahora(),
    )
    .unwrap();
    assert_eq!(p.peso_empaque, Some(Gramos::new(500)));
}

#[test]
fn pieza_con_origen_de_codigo_discordante_se_rechaza() {
    let ean = Ean13::parse("7501059224827").unwrap();
    let r = Producto::nuevo(
        "x",
        TipoProducto::Pieza,
        OrigenProducto::Matriz,
        Some(CodigoBarras::Externo(ean)),
        None,
        Instante::ahora(),
    );
    assert!(r.is_err());
}

#[test]
fn producto_mensajes_y_vida_util_por_defecto() {
    let r = Producto::nuevo("  ", TipoProducto::PesoVariable, OrigenProducto::Matriz, None, None, Instante::ahora());
    assert_eq!(
        r.err(),
        Some(ErrorDominio::Invalido("el nombre del producto es obligatorio".to_string()))
    );
    let r = Producto::nuevo("x", TipoProducto::Pieza, OrigenProducto::Matriz, None, None, Instante::ahora());
    assert_eq!(
        r.err(),
        Some(ErrorDominio::Regla("un producto pieza requiere código de barras".to_string()))
    );
    let p = Producto::nuevo(" pollo ", TipoProducto::PesoVariable, OrigenProducto::Matriz, None, None, Instante::ahora())
        .unwrap();
    assert_eq!(p.nombre, "pollo");
    assert_eq!(p.vida_util.meses(), 9);
    assert!(p.activo);
    assert_eq!(VidaUtil::default().meses(), 9);
    assert_eq!(VidaUtil::nueva(6).unwrap().meses(), 6);
    assert_eq!(
        VidaUtil::nueva(0).err(),
        Some(ErrorDominio::Invalido("la vida útil debe ser un entero positivo de meses: 0".to_string()))
    );
    assert!(VidaUtil::nueva(-3).is_err());
}

#[test]
fn codigo_de_barras_expone_su_ean() {
    let ean = Ean13::parse("7501059224827").unwrap();
    let c = CodigoBarras::Externo(ean.clone());
    assert_eq!(c.ean().get(), "7501059224827");
    assert_eq!(TipoProducto::Pieza.unidad_venta(), UnidadVenta::Unidad);
}

// -------- sucursal --------

// El código se normaliza recortando y pasando a mayúsculas: "snj" es "SNJ".
#[test]
fn codigo_normaliza_a_mayusculas() {
    assert_eq!(CodigoSucursal::nueva("snj").unwrap().get(), "SNJ");
}

#[test]
fn codigo_aceptado_solo_lleva_mayusculas_y_digitos() {
    assert_eq!(CodigoSucursal::nueva("  sNj1 ").unwrap().get(), "SNJ1");
    assert_eq!(CodigoSucursal::nueva("t0l").unwrap().get(), "T0L");
    let c = CodigoSucursal::nueva("ab").unwrap();
    assert!(c.get().chars().all(|ch| ch.is_ascii_digit() || ch.is_ascii_uppercase()));
}

#[test]
fn codigo_rechaza_longitud_y_simbolos() {
    assert!(CodigoSucursal::nueva("S").is_err());
    assert!(CodigoSucursal::nueva("SANJUAN").is_err());
    assert!(CodigoSucursal::nueva("S-J").is_err());
}

#[test]
fn codigos_distintos_para_nombres_parecidos() {
    assert_ne!(CodigoSucursal::nueva("SRO").unwrap(), CodigoSucursal::nueva("SRI").unwrap());
}

#[test]
fn codigo_recorta_espacios_y_reporta_la_entrada() {
    assert_eq!(CodigoSucursal::nueva("  sro ").unwrap().get(), "SRO");
    assert_eq!(
        CodigoSucursal::nueva("S-J"),
        Err(ErrorDominio::Invalido(
            "código de sucursal inválido (2–4 alfanuméricos): S-J".to_string()
        ))
    );
}

// -------- tiempo --------

#[test]
fn zona_valida_y_default() {
    assert!(ZonaHoraria::nueva("America/Mexico_City").is_ok());
    assert_eq!(ZonaHoraria::default().iana(), ZONA_POR_DEFECTO);
}

#[test]
fn zona_invalida_se_rechaza() {
    assert!(ZonaHoraria::nueva("Marte/Olympus").is_err());
}

#[test]
fn dia_local_usa_la_zona_de_la_sucursal() {
    let inst = instante("2026-01-01T05:30:00Z");
    let zona = ZonaHoraria::nueva("America/Mexico_City").unwrap();
    assert_eq!(inst.dia_local(&zona).texto_iso(), "2025-12-31");
}

#[test]
fn instante_ida_y_vuelta_y_texto() {
    let i = instante("2026-01-13T18:00:00Z");
    assert_eq!(Instante::desde_timestamp(i.timestamp()), i);
    assert_eq!(i.texto(), "2026-01-13T18:00:00Z");
    assert_eq!(i.segundos_epoch(), 1_768_327_200);
}

// -------- unidades --------

#[test]
fn importe_por_peso_redondea_medio_arriba() {
    let precio = Centavos::de_pesos(100, 0);
    assert_eq!(precio.importe_por_peso(Gramos::new(125)), Centavos::de_pesos(12, 50));
}

#[test]
fn importe_por_peso_redondeo_hacia_arriba_en_medio() {
    let precio = Centavos::new(1500);
    assert_eq!(precio.importe_por_peso(Gramos::new(1)), Centavos::new(2));
}

#[test]
fn display_centavos() {
    assert_eq!(Centavos::de_pesos(12, 40).texto(), "12.40");
    assert_eq!(Centavos::new(5).texto(), "0.05");
    assert_eq!(Centavos::new(-50).texto(), "-0.50");
}

#[test]
fn suma_de_lineas() {
    let total = Centavos::suma(&[Centavos::new(1240), Centavos::new(500)]);
    assert_eq!(total, Centavos::new(1740));
}

#[test]
fn gramos_se_muestran_en_kilos() {
    assert_eq!(Gramos::new(1250).texto(), "1.250 kg");
    assert_eq!(Gramos::new(5).texto(), "0.005 kg");
    assert_eq!(Gramos::new(2000) + Gramos::new(500), Gramos::new(2500));
    assert_eq!(Centavos::new(700) - Centavos::new(1000), Centavos::new(-300));
    assert_eq!(Centavos::default(), Centavos::cero());
}
