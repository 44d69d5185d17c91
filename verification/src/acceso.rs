//! Acceso: dos ejes ortogonales — **permiso** (*qué*) y **alcance** (*dónde*) — y
//! el `ContextoAcceso` que cada operación exige.
//!
//! El chequeo es `tiene(permiso) ∧ alcance_cubre(sucursal)` para permisos
//! por-sucursal, y solo `tiene(permiso)` para los de-sistema.

use std::collections::BTreeSet;

use vstd::prelude::*;
use vstd::string::StrSliceExecFns;

use crate::error::ErrorDominio;
use crate::externo::{escribir_uuid, texto_uuid};
use crate::texto::{cadena, concatenar};

verus! {

broadcast use vstd::laws_cmp::group_laws_cmp;

/// Quién ejecuta una operación: un usuario (por su identificador) o el propio
/// sistema, de modo que ninguna escritura quede sin atribuir.
#[derive(Debug, Clone, Copy, PartialEq, Eq, Structural)]
pub enum Actor {
    Usuario(u128),
    Sistema,
}

/// Cómo se escribe un actor en la bitácora: `usuario:{id}` o `sistema`.
pub open spec fn texto_actor(a: Actor) -> Seq<char> {
    match a {
        Actor::Usuario(id) => "usuario:"@ + texto_uuid(id as nat),
        Actor::Sistema => "sistema"@,
    }
}

impl Actor {
    /// El actor como se escribe en la bitácora.
    pub fn texto(&self) -> (r: String)
        ensures
            r@ == texto_actor(*self),
    {
        match self {
            Actor::Usuario(id) => {
                let u = escribir_uuid(*id);
                concatenar("usuario:", u.as_str())
            },
            Actor::Sistema => cadena("sistema"),
        }
    }
}

/// Cómo se evalúa un permiso.
#[derive(Debug, Clone, Copy, PartialEq, Eq, Structural)]
pub enum ClasePermiso {
    /// Requiere alcance sobre una sucursal objetivo.
    PorSucursal,
    /// Acción global; basta portar el permiso.
    DeSistema,
}

/// Catálogo de permisos atómicos (nivel capacidad).
#[derive(Debug, Clone, Copy, PartialEq, Eq, Structural)]
pub enum Permiso {
    // -- por-sucursal --
    Vender,
    EditarPrecio,
    RegistrarGasto,
    AutorizarGasto,
    OperarCaja,
    VerConciliacion,
    AjustarInventario,
    VerInventario,
    Etiquetar,
    VerNotificaciones,
    Enviar,
    Recibir,
    // -- de-sistema --
    AutoaprobarGasto,
    GestionarUsuarios,
    GestionarRoles,
    GestionarSucursales,
    GestionarProductos,
}

/// La clase de cada permiso.
pub open spec fn clase_de(p: Permiso) -> ClasePermiso {
    match p {
        Permiso::AutoaprobarGasto | Permiso::GestionarUsuarios | Permiso::GestionarRoles
        | Permiso::GestionarSucursales | Permiso::GestionarProductos => ClasePermiso::DeSistema,
        _ => ClasePermiso::PorSucursal,
    }
}

/// El nombre de cada permiso, como se muestra.
pub open spec fn nombre_permiso(p: Permiso) -> Seq<char> {
    match p {
        Permiso::Vender => "Vender"@,
        Permiso::EditarPrecio => "EditarPrecio"@,
        Permiso::RegistrarGasto => "RegistrarGasto"@,
        Permiso::AutorizarGasto => "AutorizarGasto"@,
        Permiso::OperarCaja => "OperarCaja"@,
        Permiso::VerConciliacion => "VerConciliacion"@,
        Permiso::AjustarInventario => "AjustarInventario"@,
        Permiso::VerInventario => "VerInventario"@,
        Permiso::Etiquetar => "Etiquetar"@,
        Permiso::VerNotificaciones => "VerNotificaciones"@,
        Permiso::Enviar => "Enviar"@,
        Permiso::Recibir => "Recibir"@,
        Permiso::AutoaprobarGasto => "AutoaprobarGasto"@,
        Permiso::GestionarUsuarios => "GestionarUsuarios"@,
        Permiso::GestionarRoles => "GestionarRoles"@,
        Permiso::GestionarSucursales => "GestionarSucursales"@,
        Permiso::GestionarProductos => "GestionarProductos"@,
    }
}

impl Permiso {
    /// El nombre del permiso, como se muestra.
    pub fn texto(self) -> (r: &'static str)
        ensures
            r@ == nombre_permiso(self),
    {
        match self {
            Permiso::Vender => "Vender",
            Permiso::EditarPrecio => "EditarPrecio",
            Permiso::RegistrarGasto => "RegistrarGasto",
            Permiso::AutorizarGasto => "AutorizarGasto",
            Permiso::OperarCaja => "OperarCaja",
            Permiso::VerConciliacion => "VerConciliacion",
            Permiso::AjustarInventario => "AjustarInventario",
            Permiso::VerInventario => "VerInventario",
            Permiso::Etiquetar => "Etiquetar",
            Permiso::VerNotificaciones => "VerNotificaciones",
            Permiso::Enviar => "Enviar",
            Permiso::Recibir => "Recibir",
            Permiso::AutoaprobarGasto => "AutoaprobarGasto",
            Permiso::GestionarUsuarios => "GestionarUsuarios",
            Permiso::GestionarRoles => "GestionarRoles",
            Permiso::GestionarSucursales => "GestionarSucursales",
            Permiso::GestionarProductos => "GestionarProductos",
        }
    }

    pub fn clase(self) -> (r: ClasePermiso)
        ensures
            r == clase_de(self),
    {
        match self {
            Permiso::Vender | Permiso::EditarPrecio | Permiso::RegistrarGasto
            | Permiso::AutorizarGasto | Permiso::OperarCaja | Permiso::VerConciliacion
            | Permiso::AjustarInventario | Permiso::VerInventario | Permiso::Etiquetar
            | Permiso::VerNotificaciones | Permiso::Enviar | Permiso::Recibir => {
                ClasePermiso::PorSucursal
            },
            Permiso::AutoaprobarGasto | Permiso::GestionarUsuarios | Permiso::GestionarRoles
            | Permiso::GestionarSucursales | Permiso::GestionarProductos => {
                ClasePermiso::DeSistema
            },
        }
    }
}

/// Todos los permisos del catálogo, en orden de declaración.
pub open spec fn lista_permisos() -> Seq<Permiso> {
    seq![
        Permiso::Vender,
        Permiso::EditarPrecio,
        Permiso::RegistrarGasto,
        Permiso::AutorizarGasto,
        Permiso::OperarCaja,
        Permiso::VerConciliacion,
        Permiso::AjustarInventario,
        Permiso::VerInventario,
        Permiso::Etiquetar,
        Permiso::VerNotificaciones,
        Permiso::Enviar,
        Permiso::Recibir,
        Permiso::AutoaprobarGasto,
        Permiso::GestionarUsuarios,
        Permiso::GestionarRoles,
        Permiso::GestionarSucursales,
        Permiso::GestionarProductos,
    ]
}

/// La posición de cada permiso en el catálogo, en orden de declaración.
pub open spec fn orden_permiso(p: Permiso) -> int {
    match p {
        Permiso::Vender => 0,
        Permiso::EditarPrecio => 1,
        Permiso::RegistrarGasto => 2,
        Permiso::AutorizarGasto => 3,
        Permiso::OperarCaja => 4,
        Permiso::VerConciliacion => 5,
        Permiso::AjustarInventario => 6,
        Permiso::VerInventario => 7,
        Permiso::Etiquetar => 8,
        Permiso::VerNotificaciones => 9,
        Permiso::Enviar => 10,
        Permiso::Recibir => 11,
        Permiso::AutoaprobarGasto => 12,
        Permiso::GestionarUsuarios => 13,
        Permiso::GestionarRoles => 14,
        Permiso::GestionarSucursales => 15,
        Permiso::GestionarProductos => 16,
    }
}

/// El catálogo lista cada permiso una vez, en la posición que da `orden_permiso`.
proof fn lema_orden_catalogo()
    ensures
        lista_permisos().len() == 17,
        forall|k: int| 0 <= k < 17 ==> orden_permiso(#[trigger] lista_permisos()[k]) == k,
        forall|p: Permiso| lista_permisos()[#[trigger] orden_permiso(p)] == p,
        forall|p: Permiso| 0 <= #[trigger] orden_permiso(p) < 17,
{
    let l = lista_permisos();
    assert forall|k: int| 0 <= k < 17 implies orden_permiso(#[trigger] l[k]) == k by {
        if k == 0 {
        } else if k == 1 {
        } else if k == 2 {
        } else if k == 3 {
        } else if k == 4 {
        } else if k == 5 {
        } else if k == 6 {
        } else if k == 7 {
        } else if k == 8 {
        } else if k == 9 {
        } else if k == 10 {
        } else if k == 11 {
        } else if k == 12 {
        } else if k == 13 {
        } else if k == 14 {
        } else if k == 15 {
        } else {
            assert(k == 16);
        }
    }
    assert forall|p: Permiso| l[#[trigger] orden_permiso(p)] == p by {
        let k = orden_permiso(p);
        assert(0 <= k < 17);
        assert(orden_permiso(l[k]) == k);
        match p {
            Permiso::Vender => assert(l[0] == p),
            Permiso::EditarPrecio => assert(l[1] == p),
            Permiso::RegistrarGasto => assert(l[2] == p),
            Permiso::AutorizarGasto => assert(l[3] == p),
            Permiso::OperarCaja => assert(l[4] == p),
            Permiso::VerConciliacion => assert(l[5] == p),
            Permiso::AjustarInventario => assert(l[6] == p),
            Permiso::VerInventario => assert(l[7] == p),
            Permiso::Etiquetar => assert(l[8] == p),
            Permiso::VerNotificaciones => assert(l[9] == p),
            Permiso::Enviar => assert(l[10] == p),
            Permiso::Recibir => assert(l[11] == p),
            Permiso::AutoaprobarGasto => assert(l[12] == p),
            Permiso::GestionarUsuarios => assert(l[13] == p),
            Permiso::GestionarRoles => assert(l[14] == p),
            Permiso::GestionarSucursales => assert(l[15] == p),
            Permiso::GestionarProductos => assert(l[16] == p),
        }
    }
}

/// El catálogo completo, en orden de declaración.
fn catalogo_permisos() -> (r: [Permiso; 17])
    ensures
        r@ == lista_permisos(),
{
    let todos = [
        Permiso::Vender,
        Permiso::EditarPrecio,
        Permiso::RegistrarGasto,
        Permiso::AutorizarGasto,
        Permiso::OperarCaja,
        Permiso::VerConciliacion,
        Permiso::AjustarInventario,
        Permiso::VerInventario,
        Permiso::Etiquetar,
        Permiso::VerNotificaciones,
        Permiso::Enviar,
        Permiso::Recibir,
        Permiso::AutoaprobarGasto,
        Permiso::GestionarUsuarios,
        Permiso::GestionarRoles,
        Permiso::GestionarSucursales,
        Permiso::GestionarProductos,
    ];
    assert(todos@ == lista_permisos());
    todos
}

/// Conjunto de permisos (una "bolsa plana"). Sin repetidos.
pub struct ConjuntoPermisos {
    elementos: Vec<Permiso>,
}

impl View for ConjuntoPermisos {
    type V = Set<Permiso>;

    closed spec fn view(&self) -> Set<Permiso> {
        self.elementos@.to_set()
    }
}

impl ConjuntoPermisos {
    #[verifier::type_invariant]
    spec fn sin_repetidos(&self) -> bool {
        self.elementos@.no_duplicates()
    }

    /// El conjunto vacío.
    pub fn vacio() -> (r: ConjuntoPermisos)
        ensures
            r@ == Set::<Permiso>::empty(),
    {
        let r = ConjuntoPermisos { elementos: Vec::new() };
        assert(r.elementos@.to_set() =~= Set::<Permiso>::empty());
        r
    }

    /// ¿Contiene el permiso?
    pub fn contiene(&self, p: Permiso) -> (r: bool)
        ensures
            r == self@.contains(p),
    {
        let mut i: usize = 0;
        while i < self.elementos.len()
            invariant
                i <= self.elementos@.len(),
                forall|j: int| 0 <= j < i ==> self.elementos@[j] != p,
            decreases self.elementos@.len() - i,
        {
            if self.elementos[i] == p {
                assert(self.elementos@.to_set().contains(p)) by {
                    assert(self.elementos@.contains(p));
                }
                return true;
            }
            i = i + 1;
        }
        assert(!self.elementos@.contains(p));
        false
    }

    /// Agrega el permiso (sin efecto si ya estaba).
    pub fn insertar(&mut self, p: Permiso)
        ensures
            final(self)@ == old(self)@.insert(p),
    {
        proof {
            use_type_invariant(&*self);
        }
        if !self.contiene(p) {
            let ghost antes = self.elementos@;
            let mut v: Vec<Permiso> = Vec::new();
            std::mem::swap(&mut v, &mut self.elementos);
            v.push(p);
            assert(v@ == antes.push(p));
            assert(v@.no_duplicates());
            self.elementos = v;
            assert(self.elementos@.to_set() =~= antes.to_set().insert(p)) by {
                assert forall|x: Permiso| self.elementos@.contains(x) <==> (antes.contains(x) || x
                    == p) by {
                    if self.elementos@.contains(x) {
                        let k = choose|k: int|
                            0 <= k < self.elementos@.len() && self.elementos@[k] == x;
                        if k < antes.len() {
                            assert(antes[k] == x);
                        }
                    }
                    if antes.contains(x) {
                        let k = choose|k: int| 0 <= k < antes.len() && antes[k] == x;
                        assert(self.elementos@[k] == x);
                    }
                    if x == p {
                        assert(self.elementos@[antes.len() as int] == x);
                    }
                }
            }
        } else {
            assert(self@ =~= self@.insert(p));
        }
    }

    /// Quita el permiso (sin efecto si no estaba).
    pub fn quitar(&mut self, p: Permiso)
        ensures
            final(self)@ == old(self)@.remove(p),
    {
        proof {
            use_type_invariant(&*self);
        }
        let ghost antes = self.elementos@;
        let mut nuevos: Vec<Permiso> = Vec::new();
        let mut i: usize = 0;
        while i < self.elementos.len()
            invariant
                i <= self.elementos@.len(),
                self.elementos@ == antes,
                antes.no_duplicates(),
                nuevos@.no_duplicates(),
                forall|x: Permiso|
                    nuevos@.contains(x) <==> (x != p && exists|j: int|
                        0 <= j < i && #[trigger] antes[j] == x),
            decreases self.elementos@.len() - i,
        {
            let x = self.elementos[i];
            if x != p {
                let ghost previos = nuevos@;
                assert(!previos.contains(x)) by {
                    if previos.contains(x) {
                        let j = choose|j: int| 0 <= j < i && antes[j] == x;
                        assert(antes[j] == antes[i as int]);
                    }
                }
                nuevos.push(x);
                assert forall|y: Permiso|
                    nuevos@.contains(y) <==> (y != p && exists|j: int|
                        0 <= j < i + 1 && #[trigger] antes[j] == y) by {
                    if nuevos@.contains(y) {
                        let k = choose|k: int| 0 <= k < nuevos@.len() && nuevos@[k] == y;
                        if k < previos.len() {
                            assert(previos.contains(y));
                        } else {
                            assert(antes[i as int] == y);
                        }
                    }
                    if y != p && exists|j: int| 0 <= j < i + 1 && #[trigger] antes[j] == y {
                        let j = choose|j: int| 0 <= j < i + 1 && #[trigger] antes[j] == y;
                        if j < i {
                            assert(previos.contains(y));
                            let k = choose|k: int| 0 <= k < previos.len() && previos[k] == y;
                            assert(nuevos@[k] == y);
                        } else {
                            assert(nuevos@[previos.len() as int] == y);
                        }
                    }
                }
            } else {
                assert forall|y: Permiso|
                    nuevos@.contains(y) <==> (y != p && exists|j: int|
                        0 <= j < i + 1 && #[trigger] antes[j] == y) by {
                    if y != p && exists|j: int| 0 <= j < i + 1 && #[trigger] antes[j] == y {
                        let j = choose|j: int| 0 <= j < i + 1 && #[trigger] antes[j] == y;
                        assert(j < i);
                    }
                }
            }
            i = i + 1;
        }
        assert(nuevos@.to_set() =~= antes.to_set().remove(p)) by {
            assert forall|y: Permiso| nuevos@.contains(y) <==> (antes.contains(y) && y != p) by {
                if antes.contains(y) && y != p {
                    let j = choose|j: int| 0 <= j < antes.len() && antes[j] == y;
                    assert(antes[j] == y);
                }
            }
        }
        self.elementos = nuevos;
    }

    /// Construye el conjunto con los permisos de la lista.
    pub fn desde(ps: &[Permiso]) -> (r: ConjuntoPermisos)
        ensures
            r@ == ps@.to_set(),
    {
        let mut r = ConjuntoPermisos::vacio();
        let mut i: usize = 0;
        while i < ps.len()
            invariant
                i <= ps@.len(),
                r@ == ps@.subrange(0, i as int).to_set(),
            decreases ps@.len() - i,
        {
            let ghost previo = r@;
            r.insertar(ps[i]);
            assert(ps@.subrange(0, i + 1).to_set() =~= previo.insert(ps@[i as int])) by {
                assert(ps@.subrange(0, i + 1) =~= ps@.subrange(0, i as int).push(ps@[i as int]));
                ps@.subrange(0, i as int).lemma_push_to_set_commute(ps@[i as int]);
            }
            i = i + 1;
        }
        assert(ps@.subrange(0, ps@.len() as int) =~= ps@);
        r
    }

    /// Los permisos del conjunto, sin repetidos y en el orden del catálogo
    /// (el de declaración, que es el que sigue `Ord`).
    pub fn a_vec(&self) -> (r: Vec<Permiso>)
        ensures
            r@.to_set() == self@,
            r@.no_duplicates(),
            forall|i: int, j: int|
                0 <= i < j < r@.len() ==> orden_permiso(#[trigger] r@[i]) < orden_permiso(
                    #[trigger] r@[j],
                ),
    {
        let todos = catalogo_permisos();
        proof {
            lema_orden_catalogo();
        }
        let mut r: Vec<Permiso> = Vec::new();
        let mut k: usize = 0;
        while k < 17
            invariant
                k <= 17,
                todos@ == lista_permisos(),
                lista_permisos().len() == 17,
                forall|q: int| 0 <= q < 17 ==> orden_permiso(#[trigger] lista_permisos()[q]) == q,
                forall|p: Permiso| lista_permisos()[#[trigger] orden_permiso(p)] == p,
                forall|p: Permiso| 0 <= #[trigger] orden_permiso(p) < 17,
                forall|i: int| 0 <= i < r@.len() ==> orden_permiso(#[trigger] r@[i]) < k,
                forall|i: int, j: int|
                    0 <= i < j < r@.len() ==> orden_permiso(#[trigger] r@[i]) < orden_permiso(
                        #[trigger] r@[j],
                    ),
                forall|p: Permiso| #[trigger]
                    r@.contains(p) <==> (self@.contains(p) && orden_permiso(p) < k),
            decreases 17 - k,
        {
            let p = todos[k];
            assert(orden_permiso(p) == k);
            let ghost antes = r@;
            if self.contiene(p) {
                r.push(p);
                assert forall|x: Permiso| #[trigger]
                    r@.contains(x) <==> (self@.contains(x) && orden_permiso(x) < k + 1) by {
                    if r@.contains(x) {
                        let w = choose|w: int| 0 <= w < r@.len() && r@[w] == x;
                        if w < antes.len() {
                            assert(antes[w] == x);
                            assert(antes.contains(x));
                        }
                    }
                    if self@.contains(x) && orden_permiso(x) < k + 1 {
                        if orden_permiso(x) < k {
                            assert(antes.contains(x));
                            let w = choose|w: int| 0 <= w < antes.len() && antes[w] == x;
                            assert(r@[w] == x);
                        } else {
                            assert(x == lista_permisos()[k as int]);
                            assert(r@[antes.len() as int] == x);
                        }
                    }
                }
            } else {
                assert forall|x: Permiso| #[trigger]
                    r@.contains(x) <==> (self@.contains(x) && orden_permiso(x) < k + 1) by {
                    if self@.contains(x) && orden_permiso(x) == k {
                        assert(x == lista_permisos()[k as int]);
                    }
                }
            }
            k = k + 1;
        }
        proof {
            assert(r@.to_set() =~= self@) by {
                assert forall|x: Permiso| r@.to_set().contains(x) <==> self@.contains(x) by {
                    assert(r@.contains(x) <==> (self@.contains(x) && orden_permiso(x) < 17));
                }
            }
            assert forall|i: int, j: int| 0 <= i < r@.len() && 0 <= j < r@.len() && i != j implies r@[i]
                != r@[j] by {
                if i < j {
                    assert(orden_permiso(r@[i]) < orden_permiso(r@[j]));
                } else {
                    assert(orden_permiso(r@[j]) < orden_permiso(r@[i]));
                }
            }
        }
        r
    }
}

/// Conjunto de sucursales sobre las que opera un usuario: varias (por
/// identificador), o **todas** (nivel matriz). No concede permisos por sí mismo.
#[derive(Debug, Clone, PartialEq, Eq)]
pub enum Alcance {
    Todas,
    Sucursales(BTreeSet<u128>),
}

/// ¿El alcance cubre la sucursal?
pub open spec fn alcance_cubre(a: Alcance, sucursal: u128) -> bool {
    match a {
        Alcance::Todas => true,
        Alcance::Sucursales(s) => s@.contains(sucursal),
    }
}

impl Alcance {
    /// Alcance sobre exactamente las sucursales de la lista.
    pub fn de(sucursales: &[u128]) -> (r: Alcance)
        ensures
            r matches Alcance::Sucursales(s) && s@ == sucursales@.to_set(),
    {
        let mut s: BTreeSet<u128> = BTreeSet::new();
        let mut i: usize = 0;
        while i < sucursales.len()
            invariant
                i <= sucursales@.len(),
                s@ == sucursales@.subrange(0, i as int).to_set(),
            decreases sucursales@.len() - i,
        {
            let ghost previo = s@;
            s.insert(sucursales[i]);
            assert(sucursales@.subrange(0, i + 1).to_set() =~= previo.insert(sucursales@[i as int]))
                by {
                assert(sucursales@.subrange(0, i + 1) =~= sucursales@.subrange(0, i as int).push(
                    sucursales@[i as int],
                ));
                sucursales@.subrange(0, i as int).lemma_push_to_set_commute(sucursales@[i as int]);
            }
            i = i + 1;
        }
        assert(sucursales@.subrange(0, sucursales@.len() as int) =~= sucursales@);
        Alcance::Sucursales(s)
    }

    pub fn cubre(&self, sucursal: u128) -> (r: bool)
        ensures
            r == alcance_cubre(*self, sucursal),
    {
        match self {
            Alcance::Todas => true,
            Alcance::Sucursales(s) => s.contains(&sucursal),
        }
    }
}

/// Reja que cada operación exige: quién actúa, con qué permisos y sobre qué
/// alcance.
pub struct ContextoAcceso {
    pub actor: Actor,
    pub permisos: ConjuntoPermisos,
    pub alcance: Alcance,
}

/// El resultado de exigir un permiso de-sistema.
pub open spec fn resultado_requiere(ctx: ContextoAcceso, p: Permiso) -> Result<(), ErrorDominio> {
    if ctx.permisos@.contains(p) {
        Ok(())
    } else {
        Err(ErrorDominio::PermisoDenegado(p))
    }
}

/// El resultado de exigir un permiso por-sucursal sobre `sucursal`: primero el
/// permiso, luego el alcance.
pub open spec fn resultado_requiere_en(ctx: ContextoAcceso, p: Permiso, sucursal: u128) -> Result<
    (),
    ErrorDominio,
> {
    if !ctx.permisos@.contains(p) {
        Err(ErrorDominio::PermisoDenegado(p))
    } else if !alcance_cubre(ctx.alcance, sucursal) {
        Err(ErrorDominio::FueraDeAlcance)
    } else {
        Ok(())
    }
}

/// El usuario en sesión, o el error de quien no es usuario.
pub open spec fn resultado_usuario(actor: Actor) -> Result<u128, ErrorDominio> {
    match actor {
        Actor::Usuario(id) => Ok(id),
        Actor::Sistema => Err(ErrorDominio::RequiereUsuario),
    }
}

impl ContextoAcceso {
    pub fn nuevo(actor: Actor, permisos: ConjuntoPermisos, alcance: Alcance) -> (r: ContextoAcceso)
        ensures
            r.actor == actor,
            r.permisos@ == permisos@,
            r.alcance == alcance,
    {
        ContextoAcceso { actor, permisos, alcance }
    }

    /// Contexto del `sistema`: todos los permisos y alcance total.
    pub fn sistema() -> (r: ContextoAcceso)
        ensures
            r.actor == Actor::Sistema,
            r.alcance == Alcance::Todas,
            forall|p: Permiso| #[trigger] r.permisos@.contains(p),
    {
        let todos = [
            Permiso::Vender,
            Permiso::EditarPrecio,
            Permiso::RegistrarGasto,
            Permiso::AutorizarGasto,
            Permiso::OperarCaja,
            Permiso::VerConciliacion,
            Permiso::AjustarInventario,
            Permiso::VerInventario,
            Permiso::Etiquetar,
            Permiso::VerNotificaciones,
            Permiso::Enviar,
            Permiso::Recibir,
            Permiso::AutoaprobarGasto,
            Permiso::GestionarUsuarios,
            Permiso::GestionarRoles,
            Permiso::GestionarSucursales,
            Permiso::GestionarProductos,
        ];
        let permisos = ConjuntoPermisos::desde(&todos);
        assert forall|p: Permiso| #[trigger] permisos@.contains(p) by {
            assert(todos@ == lista_permisos());
            match p {
                Permiso::Vender => assert(todos@[0] == p),
                Permiso::EditarPrecio => assert(todos@[1] == p),
                Permiso::RegistrarGasto => assert(todos@[2] == p),
                Permiso::AutorizarGasto => assert(todos@[3] == p),
                Permiso::OperarCaja => assert(todos@[4] == p),
                Permiso::VerConciliacion => assert(todos@[5] == p),
                Permiso::AjustarInventario => assert(todos@[6] == p),
                Permiso::VerInventario => assert(todos@[7] == p),
                Permiso::Etiquetar => assert(todos@[8] == p),
                Permiso::VerNotificaciones => assert(todos@[9] == p),
                Permiso::Enviar => assert(todos@[10] == p),
                Permiso::Recibir => assert(todos@[11] == p),
                Permiso::AutoaprobarGasto => assert(todos@[12] == p),
                Permiso::GestionarUsuarios => assert(todos@[13] == p),
                Permiso::GestionarRoles => assert(todos@[14] == p),
                Permiso::GestionarSucursales => assert(todos@[15] == p),
                Permiso::GestionarProductos => assert(todos@[16] == p),
            }
        }
        ContextoAcceso { actor: Actor::Sistema, permisos, alcance: Alcance::Todas }
    }

    pub fn tiene(&self, permiso: Permiso) -> (r: bool)
        ensures
            r == self.permisos@.contains(permiso),
    {
        self.permisos.contiene(permiso)
    }

    /// El id del usuario en sesión, o error si el actor es el `sistema`.
    pub fn usuario(&self) -> (r: Result<u128, ErrorDominio>)
        ensures
            r == resultado_usuario(self.actor),
    {
        match self.actor {
            Actor::Usuario(id) => Ok(id),
            Actor::Sistema => Err(ErrorDominio::RequiereUsuario),
        }
    }

    /// Exige un permiso **de-sistema**.
    pub fn requiere(&self, permiso: Permiso) -> (r: Result<(), ErrorDominio>)
        requires
            clase_de(permiso) == ClasePermiso::DeSistema,
        ensures
            r == resultado_requiere(*self, permiso),
    {
        if self.tiene(permiso) {
            Ok(())
        } else {
            Err(ErrorDominio::PermisoDenegado(permiso))
        }
    }

    /// Exige un permiso **por-sucursal**: portarlo y que el alcance cubra la sucursal.
    pub fn requiere_en(&self, permiso: Permiso, sucursal: u128) -> (r: Result<(), ErrorDominio>)
        requires
            clase_de(permiso) == ClasePermiso::PorSucursal,
        ensures
            r == resultado_requiere_en(*self, permiso, sucursal),
    {
        if !self.tiene(permiso) {
            return Err(ErrorDominio::PermisoDenegado(permiso));
        }
        if !self.alcance.cubre(sucursal) {
            return Err(ErrorDominio::FueraDeAlcance);
        }
        Ok(())
    }
}

} // verus!
