//! Las decisiones de la capa de datos: lo que cada operación del almacén
//! comprueba, calcula y escribe, separado de la lectura y escritura en SQLite
//! que hace quien la conduce. Aquí se aplican el aislamiento por alcance, las
//! reglas de colección (matriz única, una sesión abierta por sucursal) y se
//! arman los textos de la bitácora y de las alertas.

use vstd::prelude::*;
use vstd::string::{StrSliceExecFns, StringExecFns};

use crate::acceso::{
    alcance_cubre, resultado_requiere, resultado_requiere_en, Actor, Alcance, ContextoAcceso,
    ConjuntoPermisos, Permiso,
};
use crate::aprobacion::{Aprobacion, EstadoAprobacion};
use crate::barcode::{codigo_matriz, pow10, Ean13, MODULO_DISCRIMINADOR, PREFIJO_MATRIZ};
use crate::caja::{corte_representable, Corte, EstadoSesion, ResumenVentas, SesionCaja};
use crate::error::ErrorDominio;
use crate::etiqueta::Etiqueta;
use crate::externo::{error_uuid, escribir_uuid, leer_uuid, texto_uuid, uuid_leido};
use crate::folio::Folio;
use crate::gasto::Gasto;
use crate::inventario::{
    aplicar_delta, cabe_i64, cantidad_en, compensacion_de, estado_alterno, magnitud_de,
    unidad_cantidad, Cantidad, Existencia, MovimientoInventario, TipoMovimiento,
};
use crate::notificacion::{Notificacion, TipoNotificacion};
use crate::precio::{tiene_nivel, vendible, Nivel};
use crate::producto::{
    origen_del_codigo, regla_alta_incumplida, unidad_de, CodigoBarras, OrigenProducto, Producto,
    TipoProducto, VidaUtil,
};
use crate::sucursal::{CodigoSucursal, Sucursal, TipoSucursal};
use crate::texto::{
    a_mayusculas, cadena, concatenar, decimal, decimal_con_signo, mayusculas, mismo_texto,
    recortar, recorte, spec_decimal, spec_decimal_con_signo,
};
use crate::tiempo::{
    dia_civil, error_fecha, error_instante, error_suma_dias, fecha_leida, fecha_valida, instante_leido,
    nanos_validos, spec_texto_iso, sumar_dias, texto_rfc3339, Fecha, Instante, ZonaHoraria,
};
use crate::unidades::{spec_texto_centavos, spec_texto_gramos, Centavos, Gramos};
use crate::usuario::{verifica_argon2, Credencial, Rol, Usuario};

verus! {

/// El error del motor de base de datos; se transporta sin mirarlo.
#[verifier::external_type_specification]
#[verifier::external_body]
pub struct ExErrorSqlx(sqlx::Error);

/// Falla de una operación del almacén.
#[derive(Debug)]
pub enum ErrorAlmacen {
    /// Una regla o comprobación de acceso del dominio falló.
    Dominio(ErrorDominio),
    /// Falla del motor SQLite.
    Sqlx(sqlx::Error),
    /// Violación de un invariante de la colección (unicidad, matriz única, etc.).
    Conflicto(String),
    /// La entidad referida no existe (o quedó fuera del alcance).
    NoEncontrado(String),
    /// Datos corruptos o inconsistentes al leer de la base.
    Corrupto(String),
}

impl From<ErrorDominio> for ErrorAlmacen {
    fn from(e: ErrorDominio) -> (r: ErrorAlmacen) {
        ErrorAlmacen::Dominio(e)
    }
}

impl vstd::std_specs::convert::FromSpecImpl<ErrorDominio> for ErrorAlmacen {
    open spec fn obeys_from_spec() -> bool {
        true
    }

    open spec fn from_spec(e: ErrorDominio) -> ErrorAlmacen {
        ErrorAlmacen::Dominio(e)
    }
}

/// Eleva un error del dominio a error del almacén.
pub open spec fn del_dominio(r: Result<(), ErrorDominio>) -> Result<(), ErrorAlmacen> {
    match r {
        Ok(()) => Ok(()),
        Err(e) => Err(ErrorAlmacen::Dominio(e)),
    }
}

fn exigir(r: Result<(), ErrorDominio>) -> (s: Result<(), ErrorAlmacen>)
    ensures
        s == del_dominio(r),
{
    match r {
        Ok(()) => Ok(()),
        Err(e) => Err(ErrorAlmacen::Dominio(e)),
    }
}

/// La operación toca una sucursal: el alcance del actor debe cubrirla.
pub fn exigir_alcance(ctx: &ContextoAcceso, sucursal: u128) -> (r: Result<(), ErrorAlmacen>)
    ensures
        alcance_cubre(ctx.alcance, sucursal) ==> r is Ok,
        !alcance_cubre(ctx.alcance, sucursal) ==> r == Err::<(), ErrorAlmacen>(
            ErrorAlmacen::Dominio(ErrorDominio::FueraDeAlcance),
        ),
{
    if ctx.alcance.cubre(sucursal) {
        Ok(())
    } else {
        Err(ErrorAlmacen::Dominio(ErrorDominio::FueraDeAlcance))
    }
}

/// Todos los permisos del catálogo: los recibe el administrador inicial.
pub fn todos_los_permisos() -> (r: Vec<Permiso>)
    ensures
        forall|p: Permiso| #[trigger] r@.contains(p),
        r@.no_duplicates(),
{
    let sistema = ContextoAcceso::sistema();
    let r = sistema.permisos.a_vec();
    assert forall|p: Permiso| #[trigger] r@.contains(p) by {
        assert(sistema.permisos@.contains(p));
        assert(r@.to_set().contains(p));
    }
    r
}

/// El arranque solo procede sobre un sistema sin sucursales.
pub fn exigir_sistema_vacio(sucursales_existentes: usize) -> (r: Result<(), ErrorAlmacen>)
    ensures
        sucursales_existentes == 0 ==> r is Ok,
        sucursales_existentes > 0 ==> (r matches Err(ErrorAlmacen::Conflicto(m)) && m@
            == "el sistema ya está inicializado"@),
{
    if sucursales_existentes > 0 {
        return Err(ErrorAlmacen::Conflicto(cadena("el sistema ya está inicializado")));
    }
    Ok(())
}

/// Alta de una sucursal: exige `GestionarSucursales` y un nombre.
pub fn preparar_sucursal(
    ctx: &ContextoAcceso,
    tipo: TipoSucursal,
    codigo: CodigoSucursal,
    nombre: &str,
    zona: ZonaHoraria,
    ahora: Instante,
) -> (r: Result<Sucursal, ErrorAlmacen>)
    ensures
        resultado_requiere(*ctx, Permiso::GestionarSucursales) matches Err(e) ==> r == Err::<
            Sucursal,
            ErrorAlmacen,
        >(ErrorAlmacen::Dominio(e)),
        resultado_requiere(*ctx, Permiso::GestionarSucursales) is Ok && recorte(nombre@).len()
            == 0 ==> (r matches Err(ErrorAlmacen::Dominio(ErrorDominio::Invalido(m))) && m@
            == "el nombre de la sucursal es obligatorio"@),
        resultado_requiere(*ctx, Permiso::GestionarSucursales) is Ok && recorte(nombre@).len()
            != 0 ==> (r matches Ok(s) && s.tipo == tipo && s.codigo@ == codigo@ && s.nombre@
            == recorte(nombre@) && s.zona@ == zona@ && s.activo && s.actualizado == ahora),
{
    match exigir(ctx.requiere(Permiso::GestionarSucursales)) {
        Ok(()) => {},
        Err(e) => {
            return Err(e);
        },
    }
    match Sucursal::nueva(tipo, codigo, nombre, zona, ahora) {
        Ok(s) => Ok(s),
        Err(e) => Err(ErrorAlmacen::Dominio(e)),
    }
}

/// ¿Se admite el alta de una sucursal de `tipo` cuando ya hay
/// `matrices_existentes` matrices? Otra matriz, no si ya hay una.
pub open spec fn alta_admitida(tipo: TipoSucursal, matrices_existentes: int) -> bool {
    !(tipo == TipoSucursal::Matriz && matrices_existentes > 0)
}

/// Cuántas matrices hay entre las sucursales de esos tipos.
pub open spec fn matrices(tipos: Seq<TipoSucursal>) -> nat
    decreases tipos.len(),
{
    if tipos.len() == 0 {
        0
    } else {
        matrices(tipos.drop_last()) + if tipos.last() == TipoSucursal::Matriz {
            1nat
        } else {
            0nat
        }
    }
}

/// A lo sumo una matriz: dar de alta otra cuando ya hay una es un conflicto.
pub fn exigir_matriz_unica(tipo: TipoSucursal, matrices_existentes: i64) -> (r: Result<
    (),
    ErrorAlmacen,
>)
    ensures
        !alta_admitida(tipo, matrices_existentes as int) ==> (r matches Err(
            ErrorAlmacen::Conflicto(m),
        ) && m@ == "ya existe una sucursal matriz"@),
        alta_admitida(tipo, matrices_existentes as int) ==> r is Ok,
{
    if tipo == TipoSucursal::Matriz && matrices_existentes > 0 {
        return Err(ErrorAlmacen::Conflicto(cadena("ya existe una sucursal matriz")));
    }
    Ok(())
}

/// Matriz única: si cada alta, en orden, se admitió contando las matrices
/// dadas de alta antes que ella, entre todas las sucursales hay a lo sumo una
/// matriz.
pub proof fn ley_a_lo_sumo_una_matriz(tipos: Seq<TipoSucursal>)
    requires
        forall|i: int|
            0 <= i < tipos.len() ==> alta_admitida(
                #[trigger] tipos[i],
                matrices(tipos.take(i)) as int,
            ),
    ensures
        matrices(tipos) <= 1,
    decreases tipos.len(),
{
    if tipos.len() > 0 {
        let previos = tipos.drop_last();
        assert forall|i: int| 0 <= i < previos.len() implies alta_admitida(
            #[trigger] previos[i],
            matrices(previos.take(i)) as int,
        ) by {
            assert(previos.take(i) =~= tipos.take(i));
            assert(previos[i] == tipos[i]);
        }
        ley_a_lo_sumo_una_matriz(previos);
        let k = previos.len() as int;
        assert(tipos.take(k) =~= previos);
        assert(alta_admitida(tipos[k], matrices(tipos.take(k)) as int));
    }
}

/// Lo que la bitácora registra del alta de una sucursal: tipo y código.
pub fn detalle_alta_sucursal(s: &Sucursal) -> (r: String)
    ensures
        r@ == crate::codec::texto_tipo_sucursal(s.tipo) + " "@ + s.codigo@,
{
    let mut r = cadena(crate::codec::tipo_suc_txt(s.tipo));
    r.append(" ");
    r.append(s.codigo.get());
    r
}

/// El código con que se busca una sucursal: en mayúsculas, como se guardan.
pub fn codigo_buscado(codigo: &str) -> (r: String)
    ensures
        r@ == mayusculas(codigo@),
{
    a_mayusculas(codigo)
}

/// De las sucursales leídas, las que el alcance deja ver, en el mismo orden.
pub fn sucursales_visibles(ctx: &ContextoAcceso, leidas: Vec<Sucursal>) -> (r: Vec<Sucursal>)
    ensures
        r@.len() <= leidas@.len(),
        forall|i: int| 0 <= i < r@.len() ==> alcance_cubre(ctx.alcance, #[trigger] r@[i].id),
        r@.map_values(|s: Sucursal| s.id) == leidas@.map_values(|s: Sucursal| s.id).filter(
            |id: u128| alcance_cubre(ctx.alcance, id),
        ),
{
    let mut r: Vec<Sucursal> = Vec::new();
    let mut resto = leidas;
    let ghost original = resto@;
    let mut i: usize = 0;
    let n = resto.len();
    let ghost ids = original.map_values(|s: Sucursal| s.id);
    while resto.len() > 0
        invariant
            i <= n,
            ids == original.map_values(|s: Sucursal| s.id),
            resto@.len() + i == n,
            n == original.len(),
            resto@ == original.subrange(i as int, n as int),
            r@.len() <= i,
            forall|k: int| 0 <= k < r@.len() ==> alcance_cubre(ctx.alcance, #[trigger] r@[k].id),
            r@.map_values(|s: Sucursal| s.id) == ids.subrange(0, i as int).filter(
                |id: u128| alcance_cubre(ctx.alcance, id),
            ),
        decreases resto@.len(),
    {
        let s = resto.remove(0);
        proof {
            assert(s == original[i as int]);
            assert(ids[i as int] == s.id);
            assert(ids.subrange(0, i + 1) =~= ids.subrange(0, i as int).push(s.id));
            ids.subrange(0, i as int).lemma_filter_push(s.id, |id: u128| alcance_cubre(ctx.alcance, id));
        }
        if ctx.alcance.cubre(s.id) {
            r.push(s);
            proof {
                assert(r@.map_values(|s: Sucursal| s.id) =~= ids.subrange(0, i + 1).filter(
                    |id: u128| alcance_cubre(ctx.alcance, id),
                ));
            }
        } else {
            proof {
                assert(r@.map_values(|s: Sucursal| s.id) =~= ids.subrange(0, i + 1).filter(
                    |id: u128| alcance_cubre(ctx.alcance, id),
                ));
            }
        }
        i = i + 1;
    }
    proof {
        assert(ids.subrange(0, n as int) =~= ids);
    }
    r
}

/// Renombrar una sucursal exige `GestionarSucursales` y un nombre no vacío;
/// devuelve el nombre recortado. El código no se toca.
pub fn validar_renombre(ctx: &ContextoAcceso, nuevo_nombre: &str) -> (r: Result<
    String,
    ErrorAlmacen,
>)
    ensures
        resultado_requiere(*ctx, Permiso::GestionarSucursales) matches Err(e) ==> r == Err::<
            String,
            ErrorAlmacen,
        >(ErrorAlmacen::Dominio(e)),
        resultado_requiere(*ctx, Permiso::GestionarSucursales) is Ok && recorte(
            nuevo_nombre@,
        ).len() == 0 ==> (r matches Err(ErrorAlmacen::Dominio(ErrorDominio::Invalido(m))) && m@
            == "el nombre de la sucursal es obligatorio"@),
        resultado_requiere(*ctx, Permiso::GestionarSucursales) is Ok && recorte(
            nuevo_nombre@,
        ).len() != 0 ==> (r matches Ok(n) && n@ == recorte(nuevo_nombre@)),
{
    match exigir(ctx.requiere(Permiso::GestionarSucursales)) {
        Ok(()) => {},
        Err(e) => {
            return Err(e);
        },
    }
    let n = recortar(nuevo_nombre);
    if n.unicode_len() == 0 {
        return Err(
            ErrorAlmacen::Dominio(
                ErrorDominio::Invalido(cadena("el nombre de la sucursal es obligatorio")),
            ),
        );
    }
    Ok(cadena(n))
}

/// Alta de un rol: exige `GestionarRoles`.
pub fn preparar_rol(ctx: &ContextoAcceso, nombre: &str, permisos: &[Permiso], ahora: Instante) -> (r:
    Result<Rol, ErrorAlmacen>)
    ensures
        resultado_requiere(*ctx, Permiso::GestionarRoles) matches Err(e) ==> r == Err::<
            Rol,
            ErrorAlmacen,
        >(ErrorAlmacen::Dominio(e)),
        resultado_requiere(*ctx, Permiso::GestionarRoles) is Ok && recorte(nombre@).len() == 0 ==> (
        r matches Err(ErrorAlmacen::Dominio(ErrorDominio::Invalido(m))) && m@
            == "el nombre del rol es obligatorio"@),
        resultado_requiere(*ctx, Permiso::GestionarRoles) is Ok && recorte(nombre@).len() != 0 ==> (
        r matches Ok(rol) && rol.nombre@ == recorte(nombre@) && rol.permisos@
            == permisos@.to_set() && rol.activo && rol.actualizado == ahora),
{
    match exigir(ctx.requiere(Permiso::GestionarRoles)) {
        Ok(()) => {},
        Err(e) => {
            return Err(e);
        },
    }
    match Rol::nuevo(nombre, permisos, ahora) {
        Ok(r) => Ok(r),
        Err(e) => Err(ErrorAlmacen::Dominio(e)),
    }
}

/// Edición en caliente de un rol: agrega o quita un permiso del conjunto
/// guardado. Exige `GestionarRoles`; sin él, el conjunto queda igual.
pub fn editar_permisos_rol(
    ctx: &ContextoAcceso,
    permisos: &mut ConjuntoPermisos,
    permiso: Permiso,
    agregar: bool,
) -> (r: Result<(), ErrorAlmacen>)
    ensures
        r == del_dominio(resultado_requiere(*ctx, Permiso::GestionarRoles)),
        r is Err ==> final(permisos)@ == old(permisos)@,
        r is Ok && agregar ==> final(permisos)@ == old(permisos)@.insert(permiso),
        r is Ok && !agregar ==> final(permisos)@ == old(permisos)@.remove(permiso),
{
    match exigir(ctx.requiere(Permiso::GestionarRoles)) {
        Ok(()) => {},
        Err(e) => {
            return Err(e);
        },
    }
    if agregar {
        permisos.insertar(permiso);
    } else {
        permisos.quitar(permiso);
    }
    Ok(())
}

/// Alta de un usuario: exige `GestionarUsuarios`, hashea la contraseña y
/// valida el nombre.
pub fn preparar_usuario(
    ctx: &ContextoAcceso,
    usuario: &str,
    contrasena: &str,
    roles: &[u128],
    alcance: Alcance,
    ahora: Instante,
) -> (r: Result<Usuario, ErrorAlmacen>)
    ensures
        resultado_requiere(*ctx, Permiso::GestionarUsuarios) matches Err(e) ==> r == Err::<
            Usuario,
            ErrorAlmacen,
        >(ErrorAlmacen::Dominio(e)),
        r matches Ok(u) ==> resultado_requiere(*ctx, Permiso::GestionarUsuarios) is Ok
            && verifica_argon2(u.credencial@, contrasena@) && u.usuario@ == recorte(usuario@)
            && recorte(usuario@).len() != 0 && u.roles@ == roles@ && u.alcance == alcance
            && u.activo && u.actualizado == ahora,
        resultado_requiere(*ctx, Permiso::GestionarUsuarios) is Ok && crate::texto::largo_bytes(
            contrasena@,
        ) < 4 ==> (r matches Err(ErrorAlmacen::Dominio(ErrorDominio::Invalido(m))) && m@
            == "la contraseña es demasiado corta"@),
        resultado_requiere(*ctx, Permiso::GestionarUsuarios) is Ok && 4 <= crate::texto::largo_bytes(
            contrasena@,
        ) <= crate::usuario::largo_max_argon2() && recorte(usuario@).len() == 0 ==> (r matches Err(
            ErrorAlmacen::Dominio(ErrorDominio::Invalido(m)),
        ) && m@ == "el nombre de usuario es obligatorio"@),
        resultado_requiere(*ctx, Permiso::GestionarUsuarios) is Ok && 4 <= crate::texto::largo_bytes(
            contrasena@,
        ) <= crate::usuario::largo_max_argon2() && recorte(usuario@).len() != 0 ==> r is Ok,
{
    match exigir(ctx.requiere(Permiso::GestionarUsuarios)) {
        Ok(()) => {},
        Err(e) => {
            return Err(e);
        },
    }
    let cred = match Credencial::nueva(contrasena) {
        Ok(c) => c,
        Err(e) => {
            return Err(ErrorAlmacen::Dominio(e));
        },
    };
    let mut lista: Vec<u128> = Vec::new();
    let mut i: usize = 0;
    while i < roles.len()
        invariant
            i <= roles@.len(),
            lista@ == roles@.subrange(0, i as int),
        decreases roles@.len() - i,
    {
        lista.push(roles[i]);
        proof {
            assert(roles@.subrange(0, i + 1) =~= roles@.subrange(0, i as int).push(roles@[i as int]));
        }
        i = i + 1;
    }
    proof {
        assert(roles@.subrange(0, roles@.len() as int) =~= roles@);
    }
    match Usuario::nuevo(usuario, cred, lista, alcance, ahora) {
        Ok(u) => Ok(u),
        Err(e) => Err(ErrorAlmacen::Dominio(e)),
    }
}

/// Una baja lógica que no afectó ninguna fila: no había tal entidad activa.
pub fn exigir_afectadas(afectadas: u64, entidad: &str, id: u128) -> (r: Result<(), ErrorAlmacen>)
    ensures
        afectadas > 0 ==> r is Ok,
        afectadas == 0 ==> (r matches Err(ErrorAlmacen::NoEncontrado(m)) && m@ == entidad@
            + " activo "@ + texto_uuid(id as nat)),
{
    if afectadas == 0 {
        let mut m = cadena(entidad);
        m.append(" activo ");
        let u = escribir_uuid(id);
        m.append(u.as_str());
        return Err(ErrorAlmacen::NoEncontrado(m));
    }
    Ok(())
}

/// El error de un inicio de sesión fallido: no dice si falló el usuario o la
/// contraseña.
pub fn credenciales_invalidas() -> (r: ErrorAlmacen)
    ensures
        r matches ErrorAlmacen::NoEncontrado(m) && m@ == "credenciales inválidas"@,
{
    ErrorAlmacen::NoEncontrado(cadena("credenciales inválidas"))
}

/// La unión de varias listas de permisos.
pub open spec fn union_listas(listas: Seq<Vec<Permiso>>) -> Set<Permiso> {
    Set::new(|p: Permiso| exists|i: int| 0 <= i < listas.len() && (#[trigger] listas[i])@.contains(p))
}

/// Autenticación: el hash guardado debe verificar la contraseña; entonces el
/// contexto es el del usuario, con su alcance y la unión de los permisos de
/// sus roles activos.
pub fn autenticar(
    id: u128,
    hash: String,
    alcance: Alcance,
    contrasena: &str,
    permisos_de_roles: &[Vec<Permiso>],
) -> (r: Result<ContextoAcceso, ErrorAlmacen>)
    ensures
        !verifica_argon2(hash@, contrasena@) ==> (r matches Err(ErrorAlmacen::NoEncontrado(m))
            && m@ == "credenciales inválidas"@),
        verifica_argon2(hash@, contrasena@) ==> (r matches Ok(c) && c.actor == Actor::Usuario(id)
            && c.alcance == alcance && c.permisos@ == union_listas(permisos_de_roles@)),
{
    if !Credencial::desde_hash(hash).verificar(contrasena) {
        return Err(credenciales_invalidas());
    }
    let mut permisos = ConjuntoPermisos::vacio();
    let mut i: usize = 0;
    while i < permisos_de_roles.len()
        invariant
            i <= permisos_de_roles@.len(),
            permisos@ == union_listas(permisos_de_roles@.subrange(0, i as int)),
        decreases permisos_de_roles@.len() - i,
    {
        let lista = &permisos_de_roles[i];
        let ghost antes = permisos@;
        let mut j: usize = 0;
        while j < lista.len()
            invariant
                j <= lista@.len(),
                permisos@ == antes + lista@.subrange(0, j as int).to_set(),
            decreases lista@.len() - j,
        {
            permisos.insertar(lista[j]);
            proof {
                assert(lista@.subrange(0, j + 1) =~= lista@.subrange(0, j as int).push(
                    lista@[j as int],
                ));
                lista@.subrange(0, j as int).lemma_push_to_set_commute(lista@[j as int]);
            }
            j = j + 1;
        }
        proof {
            assert(lista@.subrange(0, lista@.len() as int) =~= lista@);
            let pre = permisos_de_roles@.subrange(0, i as int);
            let post = permisos_de_roles@.subrange(0, i + 1);
            assert(union_listas(post) =~= antes + lista@.to_set()) by {
                assert forall|p: Permiso| union_listas(post).contains(p) implies #[trigger] (antes
                    + lista@.to_set()).contains(p) by {
                    let w = choose|k: int| 0 <= k < post.len() && (#[trigger] post[k])@.contains(p);
                    if w < i {
                        assert(pre[w] == post[w]);
                    }
                }
                assert forall|p: Permiso| #[trigger]
                    (antes + lista@.to_set()).contains(p) implies union_listas(post).contains(p) by {
                    if antes.contains(p) {
                        let w = choose|k: int| 0 <= k < pre.len() && (#[trigger] pre[k])@.contains(p);
                        assert(pre[w] == post[w]);
                    } else {
                        assert(post[i as int] == *lista);
                    }
                }
            }
        }
        i = i + 1;
    }
    proof {
        assert(permisos_de_roles@.subrange(0, permisos_de_roles@.len() as int) =~= permisos_de_roles@);
    }
    Ok(ContextoAcceso::nuevo(Actor::Usuario(id), permisos, alcance))
}

// ---------------- catálogo ----------------

/// Cómo se resuelve el código de barras al dar de alta un producto.
pub enum AltaCodigo {
    /// `peso_variable`: sin código de producto.
    Ninguno,
    /// `pieza` comprada: GTIN de fábrica.
    Externo(Ean13),
    /// `pieza` producida por matriz: el sistema acuña el EAN-13.
    GenerarMatriz,
}

/// Datos para dar de alta un producto en el catálogo global.
pub struct BorradorProducto {
    pub nombre: String,
    pub tipo: TipoProducto,
    pub origen: OrigenProducto,
    pub codigo: AltaCodigo,
    pub peso_empaque: Option<Gramos>,
    /// Vida útil en meses; `None` = la de por defecto (9).
    pub vida_util: Option<VidaUtil>,
}

/// La regla cruzada que incumple un borrador, decidida solo por la forma de su
/// código (ninguno, externo o de matriz).
pub open spec fn regla_borrador(b: BorradorProducto) -> Option<Seq<char>> {
    let tiene_codigo = !(b.codigo is Ninguno);
    let origen_codigo = if b.codigo is Externo {
        OrigenProducto::Externo
    } else {
        OrigenProducto::Matriz
    };
    if b.tipo == TipoProducto::PesoVariable && b.peso_empaque is Some {
        Some(
            "el peso de empaque es solo de productos pieza (peso fijo); el peso de un peso-variable se captura por ítem al pesar"@,
        )
    } else if b.tipo == TipoProducto::PesoVariable && tiene_codigo {
        Some("un producto peso-variable no lleva código de barras de producto"@)
    } else if b.tipo == TipoProducto::Pieza && !tiene_codigo {
        Some("un producto pieza requiere código de barras"@)
    } else if b.tipo == TipoProducto::Pieza && origen_codigo != b.origen {
        Some("el origen del código no concuerda con el origen del producto"@)
    } else {
        None
    }
}

/// Un borrador `pieza` admitido trae código, y ese código declara el origen
/// del producto en ambos sentidos: un GTIN externo si y solo si el producto es
/// externo (uno de matriz lo acuña el sistema).
pub proof fn ley_borrador_codigo_concuerda(b: BorradorProducto)
    requires
        regla_borrador(b) is None,
    ensures
        b.tipo == TipoProducto::Pieza ==> !(b.codigo is Ninguno) && ((b.codigo is Externo) <==> (
        b.origen == OrigenProducto::Externo)),
        b.tipo == TipoProducto::PesoVariable ==> b.codigo is Ninguno && b.peso_empaque is None,
{
}

/// El espacio de secuencias de los barcodes de matriz: nueve dígitos.
pub open spec fn secuencia_cabe(secuencia: u64) -> bool {
    secuencia < 1000000000
}

proof fn lema_prefijo_matriz()
    ensures
        crate::barcode::prefijo_valido("200"@),
        pow10((12 - "200"@.len()) as nat) == 1000000000,
{
    reveal_strlit("200");
    assert(crate::texto::es_digito("200"@[0]));
    assert(crate::texto::es_digito("200"@[1]));
    assert(crate::texto::es_digito("200"@[2]));
    assert(pow10(9) == 1000000000) by {
        reveal_with_fuel(pow10, 10);
    }
}

/// Alta de un producto: exige `GestionarProductos`; acuña el EAN-13 de matriz
/// con `secuencia` si el borrador lo pide (la secuencia no se mira en otro
/// caso), valida las reglas del catálogo y aplica la vida útil capturada.
pub fn preparar_producto(ctx: &ContextoAcceso, b: BorradorProducto, secuencia: u64, ahora: Instante) -> (r:
    Result<Producto, ErrorAlmacen>)
    ensures
        resultado_requiere(*ctx, Permiso::GestionarProductos) matches Err(e) ==> r == Err::<
            Producto,
            ErrorAlmacen,
        >(ErrorAlmacen::Dominio(e)),
        resultado_requiere(*ctx, Permiso::GestionarProductos) is Ok && b.codigo is GenerarMatriz
            && !secuencia_cabe(secuencia) ==> (r matches Err(
            ErrorAlmacen::Dominio(ErrorDominio::Invalido(m)),
        ) && m@ == "secuencia "@ + spec_decimal(secuencia as nat)
            + " excede el espacio del prefijo "@ + "200"@),
        resultado_requiere(*ctx, Permiso::GestionarProductos) is Ok && !(b.codigo is GenerarMatriz
            && !secuencia_cabe(secuencia)) && recorte(b.nombre@).len() == 0 ==> (r matches Err(
            ErrorAlmacen::Dominio(ErrorDominio::Invalido(m)),
        ) && m@ == "el nombre del producto es obligatorio"@),
        resultado_requiere(*ctx, Permiso::GestionarProductos) is Ok && !(b.codigo is GenerarMatriz
            && !secuencia_cabe(secuencia)) && recorte(b.nombre@).len() != 0 && regla_borrador(b)
            is Some ==> (r matches Err(ErrorAlmacen::Dominio(ErrorDominio::Regla(m))) && m@
            == regla_borrador(b)->0),
        r matches Ok(p) ==> resultado_requiere(*ctx, Permiso::GestionarProductos) is Ok
            && recorte(b.nombre@).len() != 0 && regla_borrador(b) is None && p.nombre@ == recorte(
            b.nombre@,
        ) && p.tipo == b.tipo && p.origen == b.origen && p.peso_empaque == b.peso_empaque
            && p.activo && p.actualizado == ahora && (match b.vida_util {
            Some(v) => p.vida_util == v,
            None => p.vida_util@ == 9,
        }) && (match b.codigo {
            AltaCodigo::Ninguno => p.codigo is None,
            AltaCodigo::Externo(e) => p.codigo == Some(CodigoBarras::Externo(e)),
            AltaCodigo::GenerarMatriz => secuencia_cabe(secuencia) && (p.codigo matches Some(
                CodigoBarras::Matriz(e),
            ) && e@ == codigo_matriz("200"@, secuencia as nat)),
        }),
        resultado_requiere(*ctx, Permiso::GestionarProductos) is Ok && !(b.codigo is GenerarMatriz
            && !secuencia_cabe(secuencia)) && recorte(b.nombre@).len() != 0 && regla_borrador(b)
            is None ==> r is Ok,
        r matches Ok(p) ==> (p.tipo == TipoProducto::Pieza ==> (p.codigo matches Some(c) && ((
        c is Externo) <==> (p.origen == OrigenProducto::Externo)))),
{
    match exigir(ctx.requiere(Permiso::GestionarProductos)) {
        Ok(()) => {},
        Err(e) => {
            return Err(e);
        },
    }
    let BorradorProducto { nombre, tipo, origen, codigo, peso_empaque, vida_util } = b;
    proof {
        lema_prefijo_matriz();
    }
    let codigo = match codigo {
        AltaCodigo::Ninguno => None,
        AltaCodigo::Externo(ean) => Some(CodigoBarras::Externo(ean)),
        AltaCodigo::GenerarMatriz => {
            match Ean13::generar_matriz("200", secuencia) {
                Ok(ean) => Some(CodigoBarras::Matriz(ean)),
                Err(e) => {
                    return Err(ErrorAlmacen::Dominio(e));
                },
            }
        },
    };
    let mut p = match Producto::nuevo(nombre.as_str(), tipo, origen, codigo, peso_empaque, ahora) {
        Ok(p) => p,
        Err(e) => {
            return Err(ErrorAlmacen::Dominio(e));
        },
    };
    match vida_util {
        Some(v) => {
            p.vida_util = v;
        },
        None => {},
    }
    Ok(p)
}

/// El origen con que se guarda el código de un producto.
pub fn origen_del_codigo_txt(c: &CodigoBarras) -> (r: &'static str)
    ensures
        r@ == crate::codec::texto_origen(origen_del_codigo(*c)),
{
    match c {
        CodigoBarras::Externo(_) => "Externo",
        CodigoBarras::Matriz(_) => "Matriz",
    }
}

/// Editar la vida útil exige `GestionarProductos`.
pub fn validar_vida_util(ctx: &ContextoAcceso) -> (r: Result<(), ErrorAlmacen>)
    ensures
        r == del_dominio(resultado_requiere(*ctx, Permiso::GestionarProductos)),
{
    exigir(ctx.requiere(Permiso::GestionarProductos))
}

/// Cómo registra la bitácora una vida útil: `vida_util {meses}`.
pub fn detalle_vida_util(meses: i64) -> (r: String)
    ensures
        r@ == "vida_util "@ + spec_decimal_con_signo(meses as int),
{
    let n = decimal_con_signo(meses);
    concatenar("vida_util ", n.as_str())
}

// ---------------- precios ----------------

/// Fijar un precio exige `EditarPrecio` con alcance sobre la sucursal, y un
/// monto no negativo.
pub fn validar_precio(ctx: &ContextoAcceso, sucursal: u128, monto: Centavos) -> (r: Result<
    (),
    ErrorAlmacen,
>)
    ensures
        resultado_requiere_en(*ctx, Permiso::EditarPrecio, sucursal) matches Err(e) ==> r == Err::<
            (),
            ErrorAlmacen,
        >(ErrorAlmacen::Dominio(e)),
        resultado_requiere_en(*ctx, Permiso::EditarPrecio, sucursal) is Ok && monto.0 < 0 ==> (
        r matches Err(ErrorAlmacen::Dominio(ErrorDominio::Invalido(m))) && m@
            == "el precio no puede ser negativo"@),
        resultado_requiere_en(*ctx, Permiso::EditarPrecio, sucursal) is Ok && monto.0 >= 0 ==> r
            is Ok,
{
    match exigir(ctx.requiere_en(Permiso::EditarPrecio, sucursal)) {
        Ok(()) => {},
        Err(e) => {
            return Err(e);
        },
    }
    if monto.get() < 0 {
        return Err(
            ErrorAlmacen::Dominio(ErrorDominio::Invalido(cadena("el precio no puede ser negativo"))),
        );
    }
    Ok(())
}

/// La operación que la bitácora registra al fijar un precio: modificar si ya
/// había uno, crear si no.
pub fn operacion_precio(anterior: Option<i64>) -> (r: &'static str)
    ensures
        anterior is Some ==> r@ == "Modificar"@,
        anterior is None ==> r@ == "Crear"@,
{
    if anterior.is_some() {
        "Modificar"
    } else {
        "Crear"
    }
}

/// Copiar precios exige `EditarPrecio` sobre el destino y alcance sobre el origen.
pub fn validar_copia_precios(ctx: &ContextoAcceso, origen: u128, destino: u128) -> (r: Result<
    (),
    ErrorAlmacen,
>)
    ensures
        resultado_requiere_en(*ctx, Permiso::EditarPrecio, destino) matches Err(e) ==> r == Err::<
            (),
            ErrorAlmacen,
        >(ErrorAlmacen::Dominio(e)),
        resultado_requiere_en(*ctx, Permiso::EditarPrecio, destino) is Ok && !alcance_cubre(
            ctx.alcance,
            origen,
        ) ==> r == Err::<(), ErrorAlmacen>(ErrorAlmacen::Dominio(ErrorDominio::FueraDeAlcance)),
        resultado_requiere_en(*ctx, Permiso::EditarPrecio, destino) is Ok && alcance_cubre(
            ctx.alcance,
            origen,
        ) ==> r is Ok,
{
    match exigir(ctx.requiere_en(Permiso::EditarPrecio, destino)) {
        Ok(()) => {},
        Err(e) => {
            return Err(e);
        },
    }
    exigir_alcance(ctx, origen)
}

/// Cómo registra la bitácora una copia: `{n} precios`.
pub fn detalle_copia(copiadas: u64) -> (r: String)
    ensures
        r@ == spec_decimal(copiadas as nat) + " precios"@,
{
    let mut r = decimal(copiadas);
    r.append(" precios");
    r
}

/// ¿Se vende el producto en ese nivel? Un producto inactivo no se vende
/// aunque conserve precios; uno activo, según sus niveles con precio.
pub fn vendible_producto(activo: bool, niveles_con_precio: &[Nivel], nivel: Nivel) -> (r: bool)
    ensures
        r == (activo && tiene_nivel(niveles_con_precio@, Nivel::Menudeo) && tiene_nivel(
            niveles_con_precio@,
            nivel,
        )),
{
    if !activo {
        return false;
    }
    vendible(niveles_con_precio, nivel)
}

// ---------------- caja ----------------

/// ¿Se admite abrir una sesión donde ya hay `abiertas` sesiones abiertas?
pub open spec fn apertura_admitida(abiertas: int) -> bool {
    abiertas <= 0
}

/// Cuántas sesiones quedan abiertas en `sucursal` tras la serie de aperturas
/// (`true`) y cierres (`false`), cada uno en su sucursal.
pub open spec fn abiertas_en(eventos: Seq<(u128, bool)>, sucursal: u128) -> int
    decreases eventos.len(),
{
    if eventos.len() == 0 {
        0
    } else {
        let (s, abre) = eventos.last();
        abiertas_en(eventos.drop_last(), sucursal) + if s != sucursal {
            0int
        } else if abre {
            1int
        } else {
            -1int
        }
    }
}

/// A lo sumo una sesión abierta por sucursal.
pub fn exigir_sin_sesion_abierta(abiertas: i64) -> (r: Result<(), ErrorAlmacen>)
    ensures
        !apertura_admitida(abiertas as int) ==> (r matches Err(ErrorAlmacen::Conflicto(m)) && m@
            == "ya hay una sesión abierta en la sucursal; ciérrala primero"@),
        apertura_admitida(abiertas as int) ==> r is Ok,
{
    if abiertas > 0 {
        return Err(
            ErrorAlmacen::Conflicto(
                cadena("ya hay una sesión abierta en la sucursal; ciérrala primero"),
            ),
        );
    }
    Ok(())
}

/// Una sesión abierta por sucursal: si cada apertura se admitió contando las
/// sesiones abiertas de su sucursal en ese momento, y cada cierre fue de una
/// sesión abierta (una cerrada no se re-cierra), cada sucursal tiene en todo
/// momento cero o una sesión abierta.
pub proof fn ley_una_sesion_abierta(eventos: Seq<(u128, bool)>, sucursal: u128)
    requires
        forall|i: int|
            0 <= i < eventos.len() ==> (#[trigger] eventos[i]).1 ==> apertura_admitida(
                abiertas_en(eventos.take(i), eventos[i].0),
            ),
        forall|i: int|
            0 <= i < eventos.len() ==> !(#[trigger] eventos[i]).1 ==> abiertas_en(
                eventos.take(i),
                eventos[i].0,
            ) >= 1,
    ensures
        0 <= abiertas_en(eventos, sucursal) <= 1,
    decreases eventos.len(),
{
    if eventos.len() > 0 {
        let previos = eventos.drop_last();
        assert forall|i: int| 0 <= i < previos.len() && (#[trigger] previos[i]).1 implies apertura_admitida(
            abiertas_en(previos.take(i), previos[i].0),
        ) by {
            assert(previos.take(i) =~= eventos.take(i));
            assert(previos[i] == eventos[i]);
        }
        assert forall|i: int| 0 <= i < previos.len() && !(#[trigger] previos[i]).1 implies abiertas_en(
            previos.take(i),
            previos[i].0,
        ) >= 1 by {
            assert(previos.take(i) =~= eventos.take(i));
            assert(previos[i] == eventos[i]);
        }
        ley_una_sesion_abierta(previos, sucursal);
        let k = previos.len() as int;
        assert(eventos.take(k) =~= previos);
        let e = eventos[k];
        if e.0 == sucursal {
            ley_una_sesion_abierta(previos, e.0);
        }
    }
}

/// Un gasto se registra contra la sesión **abierta de su sucursal**: la sesión
/// leída (su sucursal y su estado guardado) debe cumplir ambas cosas.
pub fn validar_sesion_de_gasto(sesion_sucursal: u128, estado: &str, sucursal: u128) -> (r: Result<
    (),
    ErrorAlmacen,
>)
    ensures
        sesion_sucursal != sucursal ==> (r matches Err(ErrorAlmacen::Dominio(ErrorDominio::Regla(m)))
            && m@ == "la sesión no pertenece a la sucursal del gasto"@),
        sesion_sucursal == sucursal && estado@ != "Abierta"@ ==> (r matches Err(
            ErrorAlmacen::Dominio(ErrorDominio::Regla(m)),
        ) && m@ == "la sesión ya cerró; el gasto se registra contra la sesión abierta"@),
        sesion_sucursal == sucursal && estado@ == "Abierta"@ ==> r is Ok,
{
    if sesion_sucursal != sucursal {
        return Err(
            ErrorAlmacen::Dominio(
                ErrorDominio::Regla(cadena("la sesión no pertenece a la sucursal del gasto")),
            ),
        );
    }
    if !mismo_texto(estado, "Abierta") {
        return Err(
            ErrorAlmacen::Dominio(
                ErrorDominio::Regla(
                    cadena("la sesión ya cerró; el gasto se registra contra la sesión abierta"),
                ),
            ),
        );
    }
    Ok(())
}

/// Registra el gasto y la aprobación pendiente que lo acompaña, solicitada por
/// su cajero.
pub fn registrar_gasto_con_aprobacion(
    ctx: &ContextoAcceso,
    folio: Folio,
    monto: Centavos,
    concepto: &str,
    sucursal: u128,
    sesion: u128,
    ahora: Instante,
) -> (r: Result<(Gasto, Aprobacion), ErrorAlmacen>)
    ensures
        resultado_requiere_en(*ctx, Permiso::RegistrarGasto, sucursal) matches Err(e) ==> r
            == Err::<(Gasto, Aprobacion), ErrorAlmacen>(ErrorAlmacen::Dominio(e)),
        r matches Ok((g, a)) ==> g.folio@ == folio@ && g.monto == monto && g.concepto@ == recorte(
            concepto@,
        ) && g.sucursal == sucursal && g.sesion == sesion && g.registrado == ahora && ctx.actor
            == Actor::Usuario(g.cajero) && monto.0 > 0 && a.gasto == g.id && a.sucursal == sucursal
            && a.solicitante == g.cajero && a.estado == EstadoAprobacion::Pendiente && a.resolutor
            is None && a.actualizado == ahora,
        resultado_requiere_en(*ctx, Permiso::RegistrarGasto, sucursal) is Ok && ctx.actor
            is Usuario && monto.0 > 0 && recorte(concepto@).len() != 0 ==> r is Ok,
        r matches Err(e) ==> e is Dominio,
{
    let g = match Gasto::registrar(ctx, folio, monto, concepto, sucursal, sesion, ahora) {
        Ok(g) => g,
        Err(e) => {
            return Err(ErrorAlmacen::Dominio(e));
        },
    };
    let a = Aprobacion::pendiente(g.id, sucursal, g.cajero, ahora);
    Ok((g, a))
}

/// Cómo registra la bitácora un gasto: `{folio} {monto}`.
pub fn detalle_gasto(g: &Gasto) -> (r: String)
    requires
        g.monto.0 > i64::MIN,
    ensures
        r@ == g.folio@ + " "@ + spec_texto_centavos(g.monto.0 as int),
{
    let mut r = cadena(g.folio.get());
    r.append(" ");
    let m = g.monto.texto();
    r.append(m.as_str());
    r
}

/// La suma de los montos de los gastos aprobados de la lista.
pub open spec fn suma_aprobados(gastos: Seq<(Centavos, EstadoAprobacion)>) -> int
    decreases gastos.len(),
{
    if gastos.len() == 0 {
        0
    } else {
        suma_aprobados(gastos.drop_last()) + if gastos.last().1 == EstadoAprobacion::Aprobada {
            gastos.last().0.0 as int
        } else {
            0
        }
    }
}

/// Los montos de los gastos cuya aprobación quedó `Aprobada`, en orden.
pub open spec fn montos_aprobados(gastos: Seq<(Centavos, EstadoAprobacion)>) -> Seq<Centavos> {
    gastos.filter(|g: (Centavos, EstadoAprobacion)| g.1 == EstadoAprobacion::Aprobada).map_values(
        |g: (Centavos, EstadoAprobacion)| g.0,
    )
}

/// Solo los gastos aprobados restan: el total autorizado es la suma de los
/// montos de los gastos en estado `Aprobada`; uno pendiente, rechazado o
/// cancelado no suma nada.
pub proof fn ley_solo_aprobados_suman(gastos: Seq<(Centavos, EstadoAprobacion)>)
    ensures
        suma_aprobados(gastos) == crate::unidades::suma_centavos(montos_aprobados(gastos)),
    decreases gastos.len(),
{
    if gastos.len() > 0 {
        let previos = gastos.drop_last();
        let g = gastos.last();
        ley_solo_aprobados_suman(previos);
        let pred = |x: (Centavos, EstadoAprobacion)| x.1 == EstadoAprobacion::Aprobada;
        assert(gastos =~= previos.push(g));
        previos.lemma_filter_push(g, pred);
        if g.1 == EstadoAprobacion::Aprobada {
            assert(montos_aprobados(gastos) =~= montos_aprobados(previos).push(g.0));
            assert(montos_aprobados(gastos).drop_last() =~= montos_aprobados(previos));
        } else {
            assert(montos_aprobados(gastos) =~= montos_aprobados(previos));
        }
    }
}

/// Lo que restan del esperado los gastos de una sesión: solo los aprobados.
pub fn gastos_autorizados(gastos: &[(Centavos, EstadoAprobacion)]) -> (r: Centavos)
    requires
        forall|k: int|
            0 <= k <= gastos@.len() ==> i64::MIN <= #[trigger] suma_aprobados(gastos@.subrange(0, k))
                <= i64::MAX,
    ensures
        r.0 == suma_aprobados(gastos@),
        r.0 == crate::unidades::suma_centavos(montos_aprobados(gastos@)),
{
    proof {
        ley_solo_aprobados_suman(gastos@);
    }
    let mut total: i64 = 0;
    let mut i: usize = 0;
    while i < gastos.len()
        invariant
            i <= gastos@.len(),
            total == suma_aprobados(gastos@.subrange(0, i as int)),
            forall|k: int|
                0 <= k <= gastos@.len() ==> i64::MIN <= #[trigger] suma_aprobados(
                    gastos@.subrange(0, k),
                ) <= i64::MAX,
        decreases gastos@.len() - i,
    {
        let (monto, estado) = gastos[i];
        proof {
            assert(gastos@.subrange(0, i + 1).drop_last() =~= gastos@.subrange(0, i as int));
            assert(gastos@.subrange(0, i + 1).last() == gastos@[i as int]);
            assert(i64::MIN <= suma_aprobados(gastos@.subrange(0, i + 1)) <= i64::MAX);
        }
        if estado == EstadoAprobacion::Aprobada {
            total = total + monto.0;
        }
        i = i + 1;
    }
    proof {
        assert(gastos@.subrange(0, gastos@.len() as int) =~= gastos@);
    }
    Centavos::new(total)
}

/// Cierra una sesión leída de la base. Una ya cerrada no se re-cierra; si no,
/// se arma abierta con lo guardado y se cierra con el dominio (permiso, corte
/// con los gastos autorizados).
pub fn cerrar_sesion_registrada(
    ctx: &ContextoAcceso,
    id: u128,
    sucursal: u128,
    cajero: u128,
    fondo: Centavos,
    abierta_en: Instante,
    estado: &str,
    contado: Centavos,
    ventas: ResumenVentas,
    autorizados: Centavos,
    folio: Folio,
    ahora: Instante,
) -> (r: Result<SesionCaja, ErrorAlmacen>)
    requires
        estado@ != "Cerrada"@ ==> corte_representable(
            fondo.0 as int,
            ventas.efectivo.0 as int,
            autorizados.0 as int,
            contado.0 as int,
        ),
    ensures
        estado@ == "Cerrada"@ ==> (r matches Err(
            ErrorAlmacen::Dominio(ErrorDominio::TransicionInvalida(m)),
        ) && m@ == "la sesión ya está cerrada"@),
        resultado_requiere_en(*ctx, Permiso::OperarCaja, sucursal) matches Err(e) ==> (estado@
            != "Cerrada"@ ==> r == Err::<SesionCaja, ErrorAlmacen>(ErrorAlmacen::Dominio(e))),
        estado@ != "Cerrada"@ && resultado_requiere_en(*ctx, Permiso::OperarCaja, sucursal) is Ok
            ==> (r matches Ok(s) && s.id == id && s.sucursal == sucursal && s.cajero == cajero
            && s.fondo_apertura == fondo && s.abierta_en == abierta_en && s.estado
            == EstadoSesion::Cerrada && s.cerrada_en == Some(ahora) && (s.corte matches Some(c)
            && c.folio@ == folio@ && c.ventas == ventas && c.gastos_autorizados == autorizados
            && c.contado == contado && c.esperado.0 == fondo.0 + ventas.efectivo.0 - autorizados.0
            && c.diferencia.0 == contado.0 - c.esperado.0)),
{
    if mismo_texto(estado, "Cerrada") {
        return Err(
            ErrorAlmacen::Dominio(ErrorDominio::TransicionInvalida(cadena("la sesión ya está cerrada"))),
        );
    }
    let mut s = SesionCaja {
        id,
        sucursal,
        cajero,
        fondo_apertura: fondo,
        abierta_en,
        estado: EstadoSesion::Abierta,
        corte: None,
        cerrada_en: None,
        actualizado: ahora,
    };
    match s.cerrar(ctx, contado, ventas, autorizados, folio, ahora) {
        Ok(()) => Ok(s),
        Err(e) => Err(ErrorAlmacen::Dominio(e)),
    }
}

/// Revela el corte guardado de una sesión: exige `VerConciliacion` sobre su
/// sucursal y que la sesión esté cerrada.
pub fn conciliacion_registrada(ctx: &ContextoAcceso, sucursal: u128, estado: &str, corte: Corte) -> (r:
    Result<Corte, ErrorAlmacen>)
    ensures
        resultado_requiere_en(*ctx, Permiso::VerConciliacion, sucursal) matches Err(e) ==> r
            == Err::<Corte, ErrorAlmacen>(ErrorAlmacen::Dominio(e)),
        resultado_requiere_en(*ctx, Permiso::VerConciliacion, sucursal) is Ok && estado@
            != "Cerrada"@ ==> (r matches Err(ErrorAlmacen::Dominio(ErrorDominio::Regla(m))) && m@
            == "la sesión aún no tiene corte"@),
        resultado_requiere_en(*ctx, Permiso::VerConciliacion, sucursal) is Ok && estado@
            == "Cerrada"@ ==> r == Ok::<Corte, ErrorAlmacen>(corte),
{
    match exigir(ctx.requiere_en(Permiso::VerConciliacion, sucursal)) {
        Ok(()) => {},
        Err(e) => {
            return Err(e);
        },
    }
    if !mismo_texto(estado, "Cerrada") {
        return Err(
            ErrorAlmacen::Dominio(ErrorDominio::Regla(cadena("la sesión aún no tiene corte"))),
        );
    }
    Ok(corte)
}

/// Ver la cola de aprobaciones exige portar `AutorizarGasto`.
pub fn exigir_puede_autorizar(ctx: &ContextoAcceso) -> (r: Result<(), ErrorAlmacen>)
    ensures
        ctx.permisos@.contains(Permiso::AutorizarGasto) ==> r is Ok,
        !ctx.permisos@.contains(Permiso::AutorizarGasto) ==> r == Err::<(), ErrorAlmacen>(
            ErrorAlmacen::Dominio(ErrorDominio::PermisoDenegado(Permiso::AutorizarGasto)),
        ),
{
    if !ctx.tiene(Permiso::AutorizarGasto) {
        return Err(ErrorAlmacen::Dominio(ErrorDominio::PermisoDenegado(Permiso::AutorizarGasto)));
    }
    Ok(())
}

/// De las aprobaciones leídas, las de sucursales que el alcance cubre, en el
/// mismo orden.
pub fn aprobaciones_visibles(ctx: &ContextoAcceso, leidas: Vec<Aprobacion>) -> (r: Vec<Aprobacion>)
    ensures
        r@.len() <= leidas@.len(),
        forall|i: int| 0 <= i < r@.len() ==> alcance_cubre(ctx.alcance, #[trigger] r@[i].sucursal),
        r@.map_values(|a: Aprobacion| a.id) == leidas@.filter(
            |a: Aprobacion| alcance_cubre(ctx.alcance, a.sucursal),
        ).map_values(|a: Aprobacion| a.id),
{
    let mut r: Vec<Aprobacion> = Vec::new();
    let mut resto = leidas;
    let ghost original = resto@;
    let mut i: usize = 0;
    let n = resto.len();
    while resto.len() > 0
        invariant
            i <= n,
            resto@.len() + i == n,
            n == original.len(),
            resto@ == original.subrange(i as int, n as int),
            r@.len() <= i,
            forall|k: int| 0 <= k < r@.len() ==> alcance_cubre(ctx.alcance, #[trigger] r@[k].sucursal),
            r@ == original.subrange(0, i as int).filter(
                |a: Aprobacion| alcance_cubre(ctx.alcance, a.sucursal),
            ),
        decreases resto@.len(),
    {
        let a = resto.remove(0);
        proof {
            assert(a == original[i as int]);
            assert(original.subrange(0, i + 1) =~= original.subrange(0, i as int).push(a));
            original.subrange(0, i as int).lemma_filter_push(
                a,
                |a: Aprobacion| alcance_cubre(ctx.alcance, a.sucursal),
            );
        }
        if ctx.alcance.cubre(a.sucursal) {
            r.push(a);
        }
        i = i + 1;
    }
    proof {
        assert(original.subrange(0, n as int) =~= original);
    }
    r
}

/// Cómo se resuelve una aprobación.
pub enum Resolucion {
    Aprobar,
    Rechazar,
    Cancelar,
}

/// La autoridad que exige cada resolución: cancelar es más estricto.
pub open spec fn autoridad_para(resolucion: Resolucion, ctx: ContextoAcceso, a: Aprobacion) -> Result<
    u128,
    ErrorDominio,
> {
    match resolucion {
        Resolucion::Cancelar => crate::aprobacion::autoridad_cancelar(ctx, a),
        _ => crate::aprobacion::autoridad_resolver(ctx, a),
    }
}

/// El estado final al que lleva cada resolución.
pub open spec fn estado_resuelto(resolucion: Resolucion) -> EstadoAprobacion {
    match resolucion {
        Resolucion::Aprobar => EstadoAprobacion::Aprobada,
        Resolucion::Rechazar => EstadoAprobacion::Rechazada,
        Resolucion::Cancelar => EstadoAprobacion::Cancelada,
    }
}

/// Rechazar y cancelar llevan motivo obligatorio; aprobar, ninguno.
pub open spec fn lleva_motivo(resolucion: Resolucion) -> bool {
    !(resolucion is Aprobar)
}

/// Aplica a la aprobación leída la transición pedida (con su motivo cuando
/// lo lleva), con las reglas del dominio. Si falla, la aprobación queda igual;
/// si procede, queda resuelta por el actor en `ahora`, con el motivo recortado
/// (o sin motivo al aprobar).
pub fn resolver_aprobacion(
    ap: &mut Aprobacion,
    ctx: &ContextoAcceso,
    resolucion: Resolucion,
    motivo: &str,
    ahora: Instante,
) -> (r: Result<(), ErrorAlmacen>)
    ensures
        r is Err ==> *final(ap) == *old(ap),
        autoridad_para(resolucion, *ctx, *old(ap)) matches Err(e) ==> r == Err::<(), ErrorAlmacen>(
            ErrorAlmacen::Dominio(e),
        ),
        autoridad_para(resolucion, *ctx, *old(ap)) is Ok && crate::aprobacion::terminal(
            old(ap).estado,
        ) ==> (r matches Err(ErrorAlmacen::Dominio(ErrorDominio::TransicionInvalida(m))) && m@
            == crate::aprobacion::msj_terminal(old(ap).estado)),
        autoridad_para(resolucion, *ctx, *old(ap)) is Ok && !crate::aprobacion::terminal(
            old(ap).estado,
        ) && lleva_motivo(resolucion) && recorte(motivo@).len() == 0 ==> (r matches Err(
            ErrorAlmacen::Dominio(ErrorDominio::Invalido(m)),
        ) && m@ == crate::aprobacion::msj_motivo()),
        autoridad_para(resolucion, *ctx, *old(ap)) matches Ok(u) ==> (!crate::aprobacion::terminal(
            old(ap).estado,
        ) && (!lleva_motivo(resolucion) || recorte(motivo@).len() != 0) ==> (r is Ok
            && crate::aprobacion::resuelta(*old(ap), *final(ap), estado_resuelto(resolucion), u, ahora)
            && (if lleva_motivo(resolucion) {
            final(ap).motivo matches Some(t) && t@ == recorte(motivo@)
        } else {
            final(ap).motivo is None
        }))),
{
    let resultado = match resolucion {
        Resolucion::Aprobar => ap.aprobar(ctx, ahora),
        Resolucion::Rechazar => ap.rechazar(ctx, motivo, ahora),
        Resolucion::Cancelar => ap.cancelar(ctx, motivo, ahora),
    };
    match resultado {
        Ok(()) => Ok(()),
        Err(e) => Err(ErrorAlmacen::Dominio(e)),
    }
}

// ---------------- inventario ----------------

/// ¿Procede el ajuste? Permiso y alcance, unidad del producto, objetivo no
/// negativo, motivo, y saldo en la misma unidad.
pub open spec fn ajuste_admitido(
    ctx: ContextoAcceso,
    producto: Producto,
    sucursal: u128,
    objetivo: Cantidad,
    saldo: Cantidad,
    motivo: Seq<char>,
) -> bool {
    &&& resultado_requiere_en(ctx, Permiso::AjustarInventario, sucursal) is Ok
    &&& unidad_cantidad(objetivo) == unidad_de(producto.tipo)
    &&& magnitud_de(objetivo) >= 0
    &&& recorte(motivo).len() != 0
    &&& unidad_cantidad(saldo) == unidad_cantidad(objetivo)
}

/// El ajuste absoluto sobre el saldo guardado: el movimiento que lo registra y
/// el nuevo saldo, que **es** el objetivo contado.
pub fn ajustar_existencia(
    ctx: &ContextoAcceso,
    producto: &Producto,
    sucursal: u128,
    objetivo: Cantidad,
    saldo: Cantidad,
    motivo: &str,
    ahora: Instante,
) -> (r: Result<(MovimientoInventario, i64), ErrorAlmacen>)
    requires
        magnitud_de(objetivo) >= 0 ==> magnitud_de(saldo) > i64::MIN && magnitud_de(objetivo)
            - magnitud_de(saldo) <= i64::MAX,
    ensures
        ajuste_admitido(*ctx, *producto, sucursal, objetivo, saldo, motivo@) ==> (r matches Ok(
            (m, nuevo),
        ) && nuevo == magnitud_de(objetivo) && m.producto == producto.id && m.sucursal == sucursal
            && m.tipo == TipoMovimiento::Ajuste && m.delta == cantidad_en(
            unidad_cantidad(objetivo),
            magnitud_de(objetivo) - magnitud_de(saldo),
        ) && aplicar_delta(saldo, m.delta) == Some(objetivo)),
        !ajuste_admitido(*ctx, *producto, sucursal, objetivo, saldo, motivo@) ==> (r matches Err(
            e,
        ) && e is Dominio),
        resultado_requiere_en(*ctx, Permiso::AjustarInventario, sucursal) matches Err(e) ==> r
            == Err::<(MovimientoInventario, i64), ErrorAlmacen>(ErrorAlmacen::Dominio(e)),
{
    let m = match MovimientoInventario::ajuste(
        ctx,
        producto,
        sucursal,
        objetivo,
        saldo,
        motivo,
        ahora,
    ) {
        Ok(m) => m,
        Err(e) => {
            return Err(ErrorAlmacen::Dominio(e));
        },
    };
    proof {
        crate::inventario::ley_ajuste_absoluto(saldo, objetivo);
    }
    Ok((m, objetivo.magnitud()))
}

/// La existencia guardada, o cero en la unidad del producto si aún no hay
/// fila (materialización perezosa).
pub fn existencia_o_cero(unidad: crate::producto::UnidadVenta, guardada: Option<i64>) -> (r:
    Cantidad)
    ensures
        guardada matches Some(n) ==> r == cantidad_en(unidad, n as int),
        guardada is None ==> r == cantidad_en(unidad, 0),
{
    match guardada {
        Some(n) => Cantidad::en(unidad, n),
        None => Cantidad::cero(unidad),
    }
}

/// Alterna la reversión de un movimiento leído: exige `AjustarInventario` con
/// alcance sobre su sucursal, que sea un ajuste, y que la compensación no deje
/// la existencia negativa. Devuelve la existencia resultante; si algo falla,
/// el movimiento queda igual.
pub fn revertir_movimiento(
    ctx: &ContextoAcceso,
    mov: &mut MovimientoInventario,
    saldo: Cantidad,
    ahora: Instante,
) -> (r: Result<Existencia, ErrorAlmacen>)
    requires
        magnitud_de(old(mov).delta) > i64::MIN,
        unidad_cantidad(saldo) == unidad_cantidad(old(mov).delta) ==> cabe_i64(
            magnitud_de(saldo) + magnitud_de(compensacion_de(old(mov).estado, old(mov).delta)),
        ),
    ensures
        r is Err ==> *final(mov) == *old(mov),
        r is Ok ==> *final(mov) == revertido_en(*old(mov), ahora),
        resultado_requiere_en(*ctx, Permiso::AjustarInventario, old(mov).sucursal) matches Err(e)
            ==> r == Err::<Existencia, ErrorAlmacen>(ErrorAlmacen::Dominio(e)),
        resultado_requiere_en(*ctx, Permiso::AjustarInventario, old(mov).sucursal) is Ok && old(
            mov).tipo != TipoMovimiento::Ajuste ==> (r matches Err(
            ErrorAlmacen::Dominio(ErrorDominio::Regla(m)),
        ) && m@ == "en esta capa solo se revierten movimientos de ajuste"@),
        resultado_requiere_en(*ctx, Permiso::AjustarInventario, old(mov).sucursal) is Ok && old(
            mov).tipo == TipoMovimiento::Ajuste && aplicar_delta(
            saldo,
            compensacion_de(old(mov).estado, old(mov).delta),
        ) is None ==> (r matches Err(e) && e is Dominio),
        r matches Ok(e) ==> resultado_requiere_en(*ctx, Permiso::AjustarInventario, old(mov).sucursal)
            is Ok && old(mov).tipo == TipoMovimiento::Ajuste && Some(e.cantidad) == aplicar_delta(
            saldo,
            compensacion_de(old(mov).estado, old(mov).delta),
        ) && e.producto == old(mov).producto && e.sucursal == old(mov).sucursal && final(mov).estado
            == estado_alterno(old(mov).estado) && final(mov).actualizado == ahora && final(mov).delta
            == old(mov).delta && final(mov).id == old(mov).id,
        resultado_requiere_en(*ctx, Permiso::AjustarInventario, old(mov).sucursal) is Ok && old(
            mov).tipo == TipoMovimiento::Ajuste && aplicar_delta(
            saldo,
            compensacion_de(old(mov).estado, old(mov).delta),
        ) is Some ==> r is Ok,
{
    match exigir(ctx.requiere_en(Permiso::AjustarInventario, mov.sucursal)) {
        Ok(()) => {},
        Err(e) => {
            return Err(e);
        },
    }
    if mov.tipo != TipoMovimiento::Ajuste {
        return Err(
            ErrorAlmacen::Dominio(
                ErrorDominio::Regla(cadena("en esta capa solo se revierten movimientos de ajuste")),
            ),
        );
    }
    let compensacion = mov.compensacion();
    let nueva = match Existencia::nueva(mov.producto, mov.sucursal, saldo).aplicar(compensacion) {
        Ok(e) => e,
        Err(e) => {
            return Err(ErrorAlmacen::Dominio(e));
        },
    };
    mov.alternar_reversion(ahora);
    Ok(nueva)
}

/// Revertir y luego rehacer un movimiento devuelve la existencia a la de
/// partida (si nada la dejó negativa en el camino).
pub proof fn ley_reversion_ida_vuelta(
    saldo: Cantidad,
    estado: crate::inventario::EstadoMovimiento,
    delta: Cantidad,
)
    requires
        magnitud_de(saldo) >= 0,
        magnitud_de(delta) > i64::MIN,
        cabe_i64(magnitud_de(saldo) + magnitud_de(compensacion_de(estado, delta))),
        aplicar_delta(saldo, compensacion_de(estado, delta)) is Some,
    ensures
        aplicar_delta(
            aplicar_delta(saldo, compensacion_de(estado, delta))->0,
            compensacion_de(estado_alterno(estado), delta),
        ) == Some(saldo),
{
}

/// El movimiento tras una reversión en `ahora`: mismo asiento, estado alterno.
pub open spec fn revertido_en(m: MovimientoInventario, ahora: Instante) -> MovimientoInventario {
    MovimientoInventario { estado: estado_alterno(m.estado), actualizado: ahora, ..m }
}

/// Revertir dos veces seguidas es posible y deshace la primera: la segunda
/// reversión cabe en `i64` y procede, deja el movimiento como estaba (salvo su
/// sello de actualización) y la existencia en la de partida.
pub proof fn ley_doble_reversion(
    m: MovimientoInventario,
    saldo: Cantidad,
    t1: Instante,
    t2: Instante,
)
    requires
        magnitud_de(saldo) >= 0,
        magnitud_de(m.delta) > i64::MIN,
        cabe_i64(magnitud_de(saldo) + magnitud_de(compensacion_de(m.estado, m.delta))),
        aplicar_delta(saldo, compensacion_de(m.estado, m.delta)) is Some,
    ensures
        ({
            let m1 = revertido_en(m, t1);
            let s1 = aplicar_delta(saldo, compensacion_de(m.estado, m.delta))->0;
            &&& magnitud_de(m1.delta) > i64::MIN
            &&& unidad_cantidad(s1) == unidad_cantidad(m1.delta)
            &&& cabe_i64(magnitud_de(s1) + magnitud_de(compensacion_de(m1.estado, m1.delta)))
            &&& aplicar_delta(s1, compensacion_de(m1.estado, m1.delta)) == Some(saldo)
            &&& revertido_en(m1, t2) == (MovimientoInventario { actualizado: t2, ..m })
        }),
{
    ley_reversion_ida_vuelta(saldo, m.estado, m.delta);
}

/// La suma de los deltas de los movimientos aplicados (los revertidos no
/// cuentan), dados como (estado, delta).
pub open spec fn suma_aplicados(movs: Seq<(crate::inventario::EstadoMovimiento, Cantidad)>) -> int
    decreases movs.len(),
{
    if movs.len() == 0 {
        0
    } else {
        suma_aplicados(movs.drop_last()) + if movs.last().0
            == crate::inventario::EstadoMovimiento::Aplicado {
            magnitud_de(movs.last().1)
        } else {
            0
        }
    }
}

/// Alternar el estado del movimiento `i` cambia la suma de los aplicados en
/// exactamente su compensación.
proof fn lema_alternar_suma(movs: Seq<(crate::inventario::EstadoMovimiento, Cantidad)>, i: int)
    requires
        0 <= i < movs.len(),
        magnitud_de(movs[i].1) > i64::MIN,
    ensures
        suma_aplicados(movs.update(i, (estado_alterno(movs[i].0), movs[i].1))) == suma_aplicados(
            movs,
        ) + magnitud_de(compensacion_de(movs[i].0, movs[i].1)),
    decreases movs.len(),
{
    let nuevos = movs.update(i, (estado_alterno(movs[i].0), movs[i].1));
    if i == movs.len() - 1 {
        assert(nuevos.drop_last() =~= movs.drop_last());
    } else {
        lema_alternar_suma(movs.drop_last(), i);
        assert(nuevos.drop_last() =~= movs.drop_last().update(
            i,
            (estado_alterno(movs[i].0), movs[i].1),
        ));
        assert(nuevos.last() == movs.last());
    }
}

/// La existencia sigue siendo la suma de los movimientos aplicados tras una
/// reversión: si el saldo guardado era esa suma y la reversión del movimiento
/// `i` dejó la existencia `nueva` (la que devuelve `revertir_movimiento`), la
/// nueva existencia es la suma con ese movimiento alternado.
pub proof fn ley_reversion_conserva_saldo(
    movs: Seq<(crate::inventario::EstadoMovimiento, Cantidad)>,
    i: int,
    saldo: Cantidad,
    nueva: Cantidad,
)
    requires
        0 <= i < movs.len(),
        magnitud_de(movs[i].1) > i64::MIN,
        magnitud_de(saldo) == suma_aplicados(movs),
        cabe_i64(magnitud_de(saldo) + magnitud_de(compensacion_de(movs[i].0, movs[i].1))),
        aplicar_delta(saldo, compensacion_de(movs[i].0, movs[i].1)) == Some(nueva),
    ensures
        magnitud_de(nueva) == suma_aplicados(
            movs.update(i, (estado_alterno(movs[i].0), movs[i].1)),
        ),
{
    lema_alternar_suma(movs, i);
}

/// Cómo registra la bitácora un ajuste: `{objetivo} (suc {sucursal}; {motivo})`.
pub fn detalle_ajuste(objetivo: i64, sucursal: u128, motivo: &Option<String>) -> (r: String)
    ensures
        r@ == spec_decimal_con_signo(objetivo as int) + " (suc "@ + texto_uuid(sucursal as nat)
            + "; "@ + (match motivo {
            Some(m) => m@,
            None => Seq::<char>::empty(),
        }) + ")"@,
{
    let mut r = decimal_con_signo(objetivo);
    r.append(" (suc ");
    let u = escribir_uuid(sucursal);
    r.append(u.as_str());
    r.append("; ");
    match motivo {
        Some(m) => r.append(m.as_str()),
        None => {},
    }
    r.append(")");
    proof {
        reveal_strlit("");
    }
    r
}

/// Cómo registra la bitácora una reversión: `{saldo} ({estado} mov {id})`.
pub fn detalle_reversion(
    nueva: i64,
    estado: crate::inventario::EstadoMovimiento,
    movimiento: u128,
) -> (r: String)
    ensures
        r@ == spec_decimal_con_signo(nueva as int) + " ("@ + crate::codec::texto_estado_movimiento(
            estado,
        ) + " mov "@ + texto_uuid(movimiento as nat) + ")"@,
{
    let mut r = decimal_con_signo(nueva);
    r.append(" (");
    r.append(crate::codec::estado_mov_txt(estado));
    r.append(" mov ");
    let u = escribir_uuid(movimiento);
    r.append(u.as_str());
    r.append(")");
    r
}

// ---------------- etiquetado ----------------

/// Cuántas veces se busca un discriminador libre antes de reportar que no hay.
pub const INTENTOS_DISCRIMINADOR: u64 = 10000;

/// El discriminador candidato que da el valor crudo de la secuencia: módulo 10⁵.
pub fn candidato_discriminador(crudo: i64) -> (r: u64)
    ensures
        r == (crudo as u64) % 100000,
        r < MODULO_DISCRIMINADOR,
{
    (crudo as u64) % MODULO_DISCRIMINADOR
}

/// El error de quien agota los intentos sin hallar un discriminador libre.
pub fn sin_discriminador_libre() -> (r: ErrorAlmacen)
    ensures
        r matches ErrorAlmacen::Conflicto(m) && m@ == "sin discriminadores libres para etiquetas"@,
{
    ErrorAlmacen::Conflicto(cadena("sin discriminadores libres para etiquetas"))
}

/// Etiquetar exige al menos una pesada.
pub fn exigir_pesadas(pesos: &[Gramos]) -> (r: Result<(), ErrorAlmacen>)
    ensures
        pesos@.len() == 0 ==> (r matches Err(ErrorAlmacen::Dominio(ErrorDominio::Invalido(m)))
            && m@ == "no hay pesadas que etiquetar"@),
        pesos@.len() > 0 ==> r is Ok,
{
    if pesos.len() == 0 {
        return Err(
            ErrorAlmacen::Dominio(ErrorDominio::Invalido(cadena("no hay pesadas que etiquetar"))),
        );
    }
    Ok(())
}

/// El producto de una caja de pesadas: el de su primera etiqueta.
pub fn producto_de_caja(etiquetas: &[Etiqueta]) -> (r: Result<u128, ErrorAlmacen>)
    ensures
        etiquetas@.len() == 0 ==> (r matches Err(ErrorAlmacen::Dominio(ErrorDominio::Invalido(m)))
            && m@ == "la caja no tiene etiquetas"@),
        etiquetas@.len() > 0 ==> r == Ok::<u128, ErrorAlmacen>(etiquetas@[0].producto),
{
    if etiquetas.len() == 0 {
        return Err(
            ErrorAlmacen::Dominio(ErrorDominio::Invalido(cadena("la caja no tiene etiquetas"))),
        );
    }
    Ok(etiquetas[0].producto)
}

/// Cómo registra la bitácora una etiqueta: `{código} {peso}`.
pub fn detalle_etiqueta(e: &Etiqueta) -> (r: String)
    requires
        e.peso.0 > i64::MIN,
    ensures
        r@ == e.codigo@ + " "@ + spec_texto_gramos(e.peso.0 as int),
{
    let mut r = cadena(e.codigo.get());
    r.append(" ");
    let p = e.peso.texto();
    r.append(p.as_str());
    r
}

/// Cómo registra la bitácora una caja de pesadas: `{n} etiquetas`.
pub fn detalle_caja_pesadas(n: u64) -> (r: String)
    ensures
        r@ == spec_decimal(n as nat) + " etiquetas"@,
{
    let mut r = decimal(n);
    r.append(" etiquetas");
    r
}

/// Cómo registra la bitácora una caja de pieza: `{n} pzas`.
pub fn detalle_caja_pieza(cantidad: i64) -> (r: String)
    ensures
        r@ == spec_decimal_con_signo(cantidad as int) + " pzas"@,
{
    let mut r = decimal_con_signo(cantidad);
    r.append(" pzas");
    r
}

/// Días de anticipación de la alerta "por vencer".
pub const DIAS_ALERTA_POR_VENCER: i64 = 5;

/// El barrido por vencer es una operación del sistema.
pub fn exigir_barrido_del_sistema(ctx: &ContextoAcceso) -> (r: Result<(), ErrorAlmacen>)
    ensures
        ctx.actor == Actor::Sistema ==> r is Ok,
        ctx.actor != Actor::Sistema ==> (r matches Err(
            ErrorAlmacen::Dominio(ErrorDominio::Regla(m)),
        ) && m@ == "el barrido por vencer es una operación del sistema"@),
{
    if ctx.actor != Actor::Sistema {
        return Err(
            ErrorAlmacen::Dominio(
                ErrorDominio::Regla(cadena("el barrido por vencer es una operación del sistema")),
            ),
        );
    }
    Ok(())
}

/// La fecha tope de la ventana "por vencer" de una sucursal, como se guardan
/// las caducidades (`AAAA-MM-DD`): su día local de referencia más cinco días.
/// Lo ya vencido también cae en la ventana.
pub fn limite_por_vencer(referencia: Instante, zona: &ZonaHoraria) -> (r: Result<
    String,
    ErrorAlmacen,
>)
    ensures
        sumar_dias(dia_civil(referencia@, zona@), 5) matches Some(f) ==> (r matches Ok(t) && t@
            == spec_texto_iso(f)),
        sumar_dias(dia_civil(referencia@, zona@), 5) is None ==> (r matches Err(
            ErrorAlmacen::Corrupto(m),
        ) && m@ == error_suma_dias(dia_civil(referencia@, zona@), 5)),
{
    let dia = referencia.dia_local(zona);
    match dia.sumar_dias(DIAS_ALERTA_POR_VENCER) {
        Ok(f) => Ok(f.texto_iso()),
        Err(t) => Err(ErrorAlmacen::Corrupto(t)),
    }
}

/// El aviso de un grupo de pesadas por vencer:
/// `{n} etiquetas ({peso}) de {producto} por vencer en {sucursal}`.
pub fn mensaje_pesadas_por_vencer(n: i64, peso: i64, producto: &str, sucursal: &str) -> (r: String)
    requires
        peso > i64::MIN,
    ensures
        r@ == spec_decimal_con_signo(n as int) + " etiquetas ("@ + spec_texto_gramos(peso as int)
            + ") de "@ + producto@ + " por vencer en "@ + sucursal@,
{
    let mut r = decimal_con_signo(n);
    r.append(" etiquetas (");
    let g = Gramos::new(peso).texto();
    r.append(g.as_str());
    r.append(") de ");
    r.append(producto);
    r.append(" por vencer en ");
    r.append(sucursal);
    r
}

/// El aviso de un grupo de cajas de pieza por vencer:
/// `{n} pzas {producto} por vencer en {sucursal}`.
pub fn mensaje_piezas_por_vencer(n: i64, producto: &str, sucursal: &str) -> (r: String)
    ensures
        r@ == spec_decimal_con_signo(n as int) + " pzas "@ + producto@ + " por vencer en "@
            + sucursal@,
{
    let mut r = decimal_con_signo(n);
    r.append(" pzas ");
    r.append(producto);
    r.append(" por vencer en ");
    r.append(sucursal);
    r
}

/// La clave de un grupo de alerta: producto, sucursal y la caducidad más
/// próxima del lote. El mismo lote no se re-notifica; uno nuevo sí.
pub open spec fn clave_grupo(producto: u128, sucursal: u128, caducidad_min: Seq<char>) -> Seq<
    char,
> {
    "por_vencer:"@ + texto_uuid(producto as nat) + ":"@ + texto_uuid(sucursal as nat) + ":"@
        + caducidad_min
}

pub fn clave_grupo_por_vencer(producto: u128, sucursal: u128, caducidad_min: &str) -> (r: String)
    ensures
        r@ == clave_grupo(producto, sucursal, caducidad_min@),
{
    let mut r = cadena("por_vencer:");
    let p = escribir_uuid(producto);
    r.append(p.as_str());
    r.append(":");
    let s = escribir_uuid(sucursal);
    r.append(s.as_str());
    r.append(":");
    r.append(caducidad_min);
    r
}

/// Cuántas alertas deja un grupo: ninguna si ya se notificó, dos si no (la
/// sucursal afectada y la matriz).
pub open spec fn alertas_emitidas(ya_notificado: bool) -> nat {
    if ya_notificado {
        0
    } else {
        2
    }
}

/// Lo que un barrido emite y deja notificado. Cada grupo es (clave, mensaje,
/// sucursal afectada); se recorren en orden, y uno cuya clave ya tiene
/// notificación (de antes, o de un grupo anterior del mismo barrido) no emite
/// nada; si no, emite la alerta a la sucursal y a la matriz, y su clave queda
/// notificada. Cada alerta emitida es (clave, sucursal destino, mensaje).
pub open spec fn plan_barrido(
    notificados: Set<Seq<char>>,
    grupos: Seq<(Seq<char>, Seq<char>, u128)>,
    matriz: u128,
) -> (Seq<(Seq<char>, u128, Seq<char>)>, Set<Seq<char>>)
    decreases grupos.len(),
{
    if grupos.len() == 0 {
        (Seq::empty(), notificados)
    } else {
        let (v, k) = plan_barrido(notificados, grupos.drop_last(), matriz);
        let (c, m, s) = grupos.last();
        if k.contains(c) {
            (v, k)
        } else {
            (v + seq![(c, s, recorte(m)), (c, matriz, recorte(m))], k.insert(c))
        }
    }
}

/// Las claves de los grupos, en orden.
pub open spec fn claves(grupos: Seq<(Seq<char>, Seq<char>, u128)>) -> Seq<Seq<char>> {
    grupos.map_values(|g: (Seq<char>, Seq<char>, u128)| g.0)
}

/// Un barrido deja notificadas todas las claves de sus grupos.
proof fn lema_barrido_notifica(
    notificados: Set<Seq<char>>,
    grupos: Seq<(Seq<char>, Seq<char>, u128)>,
    matriz: u128,
)
    ensures
        plan_barrido(notificados, grupos, matriz).1 == notificados + claves(grupos).to_set(),
    decreases grupos.len(),
{
    if grupos.len() > 0 {
        let previos = grupos.drop_last();
        lema_barrido_notifica(notificados, previos, matriz);
        assert(claves(grupos) =~= claves(previos).push(grupos.last().0));
        claves(previos).lemma_push_to_set_commute(grupos.last().0);
        assert(plan_barrido(notificados, grupos, matriz).1 =~= notificados + claves(
            grupos,
        ).to_set());
    }
}

/// Un barrido cuyos grupos ya están todos notificados no emite nada y no
/// cambia lo notificado.
proof fn lema_barrido_vacio(
    notificados: Set<Seq<char>>,
    grupos: Seq<(Seq<char>, Seq<char>, u128)>,
    matriz: u128,
)
    requires
        claves(grupos).to_set().subset_of(notificados),
    ensures
        plan_barrido(notificados, grupos, matriz).0.len() == 0,
        plan_barrido(notificados, grupos, matriz).1 == notificados,
    decreases grupos.len(),
{
    if grupos.len() > 0 {
        let previos = grupos.drop_last();
        assert(claves(grupos) =~= claves(previos).push(grupos.last().0));
        assert(claves(previos).to_set().subset_of(notificados)) by {
            assert forall|g: Seq<char>| claves(previos).to_set().contains(g) implies notificados.contains(
                g,
            ) by {
                let i = choose|i: int| 0 <= i < claves(previos).len() && claves(previos)[i] == g;
                assert(claves(grupos)[i] == g);
                assert(claves(grupos).to_set().contains(g));
            }
        }
        lema_barrido_vacio(notificados, previos, matriz);
        assert(claves(grupos).to_set().contains(grupos.last().0)) by {
            assert(claves(grupos)[grupos.len() - 1] == grupos.last().0);
        }
    }
}

/// Un lote ya notificado no se re-notifica: repetir un barrido sobre los
/// mismos grupos, cuando entre tanto solo se marcaron notificaciones como
/// leídas (lo que no borra ninguna), no emite ninguna alerta.
pub proof fn ley_barrido_no_renotifica(
    notificados: Set<Seq<char>>,
    grupos: Seq<(Seq<char>, Seq<char>, u128)>,
    matriz: u128,
)
    ensures
        plan_barrido(notificados, grupos, matriz).1 == notificados + claves(grupos).to_set(),
        plan_barrido(plan_barrido(notificados, grupos, matriz).1, grupos, matriz).0.len() == 0,
{
    lema_barrido_notifica(notificados, grupos, matriz);
    lema_barrido_vacio(plan_barrido(notificados, grupos, matriz).1, grupos, matriz);
}

/// Un grupo por vencer: la clave del lote, el texto de su alerta y la
/// sucursal afectada.
pub struct GrupoPorVencer {
    pub clave: String,
    pub mensaje: String,
    pub sucursal: u128,
}

/// Los grupos como (clave, mensaje, sucursal).
pub open spec fn vista_grupos(grupos: Seq<GrupoPorVencer>) -> Seq<(Seq<char>, Seq<char>, u128)> {
    grupos.map_values(|g: GrupoPorVencer| (g.clave@, g.mensaje@, g.sucursal))
}

/// Los textos de una lista, como conjunto.
pub open spec fn textos(v: Seq<String>) -> Set<Seq<char>> {
    v.map_values(|x: String| x@).to_set()
}

/// Las alertas emitidas como (clave, sucursal destino, mensaje).
pub open spec fn emitidas(v: Seq<(String, Notificacion)>) -> Seq<(Seq<char>, u128, Seq<char>)> {
    v.map_values(|x: (String, Notificacion)| (x.0@, x.1.sucursal, x.1.mensaje@))
}

/// ¿Está `s` entre los textos de `v`?
fn contiene_texto(v: &Vec<String>, s: &str) -> (r: bool)
    ensures
        r == textos(v@).contains(s@),
{
    let mut i: usize = 0;
    while i < v.len()
        invariant
            i <= v@.len(),
            forall|j: int| 0 <= j < i ==> v@[j]@ != s@,
        decreases v@.len() - i,
    {
        if mismo_texto(v[i].as_str(), s) {
            proof {
                assert(v@.map_values(|x: String| x@)[i as int] == s@);
            }
            return true;
        }
        i = i + 1;
    }
    proof {
        let w = v@.map_values(|x: String| x@);
        if textos(v@).contains(s@) {
            assert(w.contains(s@));
            let j = choose|j: int| 0 <= j < w.len() && #[trigger] w[j] == s@;
            assert(v@[j]@ == s@);
        }
    }
    false
}

/// El barrido de alertas por vencer sobre los grupos leídos, partiendo de las
/// claves que ya tienen notificación: emite exactamente lo que dice
/// `plan_barrido`, cada alerta con su clave, de tipo `PorVencer` y sin leer.
/// Procede siempre que actúe el sistema y cada grupo traiga mensaje.
pub fn alertas_de_barrido(
    ctx: &ContextoAcceso,
    notificados: Vec<String>,
    grupos: &[GrupoPorVencer],
    matriz: u128,
    ahora: Instante,
) -> (r: Result<Vec<(String, Notificacion)>, ErrorAlmacen>)
    ensures
        r matches Ok(v) ==> emitidas(v@) == plan_barrido(
            textos(notificados@),
            vista_grupos(grupos@),
            matriz,
        ).0,
        r matches Ok(v) ==> forall|i: int|
            0 <= i < v@.len() ==> (#[trigger] v@[i]).1.tipo == TipoNotificacion::PorVencer
                && v@[i].1.leida_en is None,
        ctx.actor == Actor::Sistema && (forall|i: int|
            0 <= i < grupos@.len() ==> recorte((#[trigger] grupos@[i]).mensaje@).len() != 0)
            ==> r is Ok,
        r matches Err(e) ==> e is Dominio,
{
    let ghost inicial = textos(notificados@);
    let ghost todos = vista_grupos(grupos@);
    let mut vistos = notificados;
    let mut salida: Vec<(String, Notificacion)> = Vec::new();
    let mut i: usize = 0;
    proof {
        assert(todos.take(0) =~= Seq::<(Seq<char>, Seq<char>, u128)>::empty());
        assert(emitidas(salida@) =~= Seq::<(Seq<char>, u128, Seq<char>)>::empty());
    }
    while i < grupos.len()
        invariant
            i <= grupos@.len(),
            inicial == textos(notificados@),
            todos == vista_grupos(grupos@),
            plan_barrido(inicial, todos.take(i as int), matriz) == (emitidas(salida@), textos(
                vistos@,
            )),
            forall|k: int|
                0 <= k < salida@.len() ==> (#[trigger] salida@[k]).1.tipo
                    == TipoNotificacion::PorVencer && salida@[k].1.leida_en is None,
        decreases grupos@.len() - i,
    {
        let g = &grupos[i];
        let ghost antes_salida = salida@;
        let ghost antes_vistos = vistos@;
        proof {
            assert(todos.take(i + 1).drop_last() =~= todos.take(i as int));
            assert(todos.take(i + 1).last() == (g.clave@, g.mensaje@, g.sucursal));
        }
        let ya = contiene_texto(&vistos, g.clave.as_str());
        let mut alertas = match alertas_por_vencer(
            ctx,
            ya,
            g.mensaje.as_str(),
            g.sucursal,
            matriz,
            ahora,
        ) {
            Ok(a) => a,
            Err(e) => {
                return Err(e);
            },
        };
        if !ya {
            let a = alertas.remove(0);
            let b = alertas.remove(0);
            salida.push((cadena(g.clave.as_str()), a));
            salida.push((cadena(g.clave.as_str()), b));
            vistos.push(cadena(g.clave.as_str()));
            proof {
                assert(emitidas(salida@) =~= emitidas(antes_salida) + seq![
                    (g.clave@, g.sucursal, recorte(g.mensaje@)),
                    (g.clave@, matriz, recorte(g.mensaje@)),
                ]);
                assert(vistos@.map_values(|x: String| x@) =~= antes_vistos.map_values(
                    |x: String| x@,
                ).push(g.clave@));
                antes_vistos.map_values(|x: String| x@).lemma_push_to_set_commute(g.clave@);
                assert forall|k: int| 0 <= k < salida@.len() implies (#[trigger] salida@[k]).1.tipo
                    == TipoNotificacion::PorVencer && salida@[k].1.leida_en is None by {
                    if k < antes_salida.len() {
                        assert(salida@[k] == antes_salida[k]);
                    }
                }
            }
        }
        i = i + 1;
    }
    proof {
        assert(todos.take(grupos@.len() as int) =~= todos);
    }
    Ok(salida)
}

/// Las alertas de un grupo por vencer: ninguna si el grupo ya se notificó; si
/// no, la misma alerta a **ambas** bandejas, la de la sucursal afectada y la
/// de la matriz, en ese orden.
pub fn alertas_por_vencer(
    ctx: &ContextoAcceso,
    ya_notificado: bool,
    mensaje: &str,
    sucursal: u128,
    matriz: u128,
    ahora: Instante,
) -> (r: Result<Vec<Notificacion>, ErrorAlmacen>)
    ensures
        r matches Ok(v) ==> v@.len() == alertas_emitidas(ya_notificado),
        ya_notificado ==> (r matches Ok(v) && v@.len() == 0),
        !ya_notificado && ctx.actor == Actor::Sistema && recorte(mensaje@).len() != 0 ==> (r matches Ok(
            v,
        ) && v@.len() == 2 && v@[0].sucursal == sucursal && v@[1].sucursal == matriz && v@[0].tipo
            == TipoNotificacion::PorVencer && v@[1].tipo == TipoNotificacion::PorVencer
            && v@[0].mensaje@ == recorte(mensaje@) && v@[1].mensaje@ == recorte(mensaje@)
            && v@[0].leida_en is None && v@[1].leida_en is None),
        !ya_notificado && !(ctx.actor == Actor::Sistema && recorte(mensaje@).len() != 0) ==> (
        r matches Err(e) && e is Dominio),
{
    let mut v: Vec<Notificacion> = Vec::new();
    if ya_notificado {
        return Ok(v);
    }
    match Notificacion::emitir(ctx, TipoNotificacion::PorVencer, mensaje, sucursal, ahora) {
        Ok(n) => v.push(n),
        Err(e) => {
            return Err(ErrorAlmacen::Dominio(e));
        },
    }
    match Notificacion::emitir(ctx, TipoNotificacion::PorVencer, mensaje, matriz, ahora) {
        Ok(n) => v.push(n),
        Err(e) => {
            return Err(ErrorAlmacen::Dominio(e));
        },
    }
    Ok(v)
}

// ---------------- notificaciones ----------------

/// Marca leída una notificación leída de la base: exige `VerNotificaciones`
/// sobre su sucursal. Devuelve si cambió algo: una ya leída conserva su marca
/// y no falla.
pub fn marcar_leida_autorizada(ctx: &ContextoAcceso, n: &mut Notificacion, ahora: Instante) -> (r:
    Result<bool, ErrorAlmacen>)
    ensures
        resultado_requiere_en(*ctx, Permiso::VerNotificaciones, old(n).sucursal) matches Err(e)
            ==> r == Err::<bool, ErrorAlmacen>(ErrorAlmacen::Dominio(e)) && *final(n) == *old(n),
        resultado_requiere_en(*ctx, Permiso::VerNotificaciones, old(n).sucursal) is Ok ==> (
        r == Ok::<bool, ErrorAlmacen>(old(n).leida_en is None) && *final(n)
            == crate::notificacion::tras_marcar(*old(n), ahora)),
{
    match exigir(ctx.requiere_en(Permiso::VerNotificaciones, n.sucursal)) {
        Ok(()) => {},
        Err(e) => {
            return Err(e);
        },
    }
    if n.leida() {
        return Ok(false);
    }
    n.marcar_leida(ahora);
    Ok(true)
}

// ---------------- textos de identificadores, instantes y fechas ----------------

/// Cómo se guarda un identificador: UUID con guiones.
pub fn uuid_txt(id: u128) -> (r: String)
    ensures
        r@ == texto_uuid(id as nat),
{
    escribir_uuid(id)
}

/// Lee un identificador guardado; lo que no es un UUID es un dato corrupto.
pub fn uuid_de(s: &str) -> (r: Result<u128, ErrorAlmacen>)
    ensures
        r matches Ok(n) ==> uuid_leido(s@) == Some(n),
        uuid_leido(s@) is None ==> (r matches Err(ErrorAlmacen::Corrupto(m)) && m@ == error_uuid(
            s@,
        )),
        forall|n: u128| #[trigger] texto_uuid(n as nat) == s@ ==> (r matches Ok(m) && m == n),
{
    let r = leer_uuid(s);
    proof {
        assert forall|n: u128| #[trigger] texto_uuid(n as nat) == s@ implies (r matches Ok(m) && m
            == n) by {
            assert(exists|k: u128| s@ == texto_uuid(k as nat));
        }
    }
    match r {
        Ok(n) => Ok(n),
        Err(t) => Err(ErrorAlmacen::Corrupto(t)),
    }
}

/// Cómo se guarda un instante: RFC 3339 en UTC.
pub fn inst_txt(i: Instante) -> (r: String)
    ensures
        r@ == texto_rfc3339(i@),
{
    i.texto()
}

/// Lee un instante guardado; lo que no es RFC 3339 es un dato corrupto.
pub fn inst_de(s: &str) -> (r: Result<Instante, ErrorAlmacen>)
    ensures
        r matches Ok(i) ==> instante_leido(s@) == Some(i@),
        instante_leido(s@) is None ==> (r matches Err(ErrorAlmacen::Corrupto(m)) && m@
            == error_instante(s@)),
        forall|n: int| nanos_validos(n) && #[trigger] texto_rfc3339(n) == s@ ==> (r matches Ok(i)
            && i@ == n),
{
    match Instante::leer(s) {
        Ok(i) => Ok(i),
        Err(t) => Err(ErrorAlmacen::Corrupto(t)),
    }
}

/// Lee una fecha guardada (`AAAA-MM-DD`); lo demás es un dato corrupto.
pub fn fecha_de(s: &str) -> (r: Result<Fecha, ErrorAlmacen>)
    ensures
        r matches Ok(f) ==> fecha_leida(s@) == Some(f@),
        fecha_leida(s@) is None ==> (r matches Err(ErrorAlmacen::Corrupto(m)) && m@ == error_fecha(
            s@,
        )),
        forall|f: (int, int, int)| fecha_valida(f) && #[trigger] spec_texto_iso(f) == s@ ==> (
        r matches Ok(g) && g@ == f),
{
    match Fecha::leer(s) {
        Ok(f) => Ok(f),
        Err(t) => Err(ErrorAlmacen::Corrupto(t)),
    }
}

/// El código de barras guardado de un producto: el texto se valida como
/// EAN-13 y su origen es el del producto.
pub fn codigo_guardado(codigo: Option<&str>, origen: OrigenProducto) -> (r: Result<
    Option<CodigoBarras>,
    ErrorAlmacen,
>)
    ensures
        codigo is None ==> (r matches Ok(c) && c is None),
        codigo matches Some(t) ==> (crate::barcode::es_ean13(t@) ==> (r matches Ok(Some(c))
            && origen_del_codigo(c) == origen && crate::producto::ean_del_codigo(c)@ == t@)),
        codigo matches Some(t) ==> (!crate::barcode::es_ean13(t@) ==> (r matches Err(e)
            && e is Dominio)),
{
    match codigo {
        None => Ok(None),
        Some(t) => {
            let ean = match Ean13::parse(t) {
                Ok(e) => e,
                Err(e) => {
                    return Err(ErrorAlmacen::Dominio(e));
                },
            };
            match origen {
                OrigenProducto::Externo => Ok(Some(CodigoBarras::Externo(ean))),
                OrigenProducto::Matriz => Ok(Some(CodigoBarras::Matriz(ean))),
            }
        },
    }
}

} // verus!
