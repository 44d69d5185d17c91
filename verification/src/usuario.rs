//! Usuarios, credenciales y roles componibles.
//!
//! La credencial es uniforme: usuario + contraseña **hasheada** (argon2), nunca
//! en texto plano, validable localmente sin red. Los roles son bundles
//! editables de permisos atómicos; los permisos efectivos del usuario son la
//! **unión** de los de sus roles activos. El **alcance** es del usuario, aparte
//! de los roles.

use argon2::password_hash::{PasswordHash, PasswordHasher, PasswordVerifier, SaltString};
use argon2::Argon2;
use rand_core::OsRng;
use vstd::prelude::*;
use vstd::string::StrSliceExecFns;

use crate::acceso::{Alcance, ConjuntoPermisos, Permiso};
use crate::error::ErrorDominio;
use crate::externo::nuevo_id;
use crate::texto::{cadena, concatenar, largo_bytes, recortar, recorte};
use crate::tiempo::Instante;

verus! {

/// ¿Acepta argon2 (parámetros por defecto) la contraseña `contrasena` contra la
/// cadena PHC `phc`? Falso también si `phc` no es una cadena PHC válida.
pub uninterp spec fn verifica_argon2(phc: Seq<char>, contrasena: Seq<char>) -> bool;

/// El mayor largo en bytes de contraseña que argon2 acepta (`MAX_PWD_LEN`).
pub open spec fn largo_max_argon2() -> int {
    0xFFFF_FFFF
}

/// Deriva con `Argon2::default().hash_password` el hash de la contraseña con
/// una sal nueva de `SaltString::generate(&mut OsRng)`, y lo escribe como
/// cadena PHC. La sal es aleatoria, así que del hash solo se afirma lo que
/// vale para toda sal: que la misma biblioteca lo acepta al verificar esa
/// contraseña. Con los parámetros por defecto y una sal de 16 bytes, la única
/// comprobación que puede fallar es el largo de la contraseña
/// (`verify_inputs`: más de `MAX_PWD_LEN` bytes es `PwdTooLong`); del texto del
/// error no se afirma nada.
#[verifier::external_body]
fn hashear_argon2(contrasena: &str) -> (r: Result<String, String>)
    ensures
        r matches Ok(phc) ==> verifica_argon2(phc@, contrasena@),
        largo_bytes(contrasena@) <= largo_max_argon2() <==> r is Ok,
{
    let salt = SaltString::generate(&mut OsRng);
    match Argon2::default().hash_password(contrasena.as_bytes(), &salt) {
        Ok(h) => Ok(h.to_string()),
        Err(e) => Err(e.to_string()),
    }
}

/// Analiza `phc` con `PasswordHash::new` y verifica la contraseña con
/// `Argon2::default().verify_password`; un `phc` que no se analiza no verifica.
#[verifier::external_body]
fn verificar_argon2(phc: &str, contrasena: &str) -> (r: bool)
    ensures
        r == verifica_argon2(phc@, contrasena@),
{
    match PasswordHash::new(phc) {
        Ok(parsed) => Argon2::default().verify_password(contrasena.as_bytes(), &parsed).is_ok(),
        Err(_) => false,
    }
}

/// Credencial hasheada (cadena PHC de argon2). Nunca guarda la contraseña en claro.
#[derive(Debug, PartialEq, Eq)]
pub struct Credencial {
    phc: String,
}

impl View for Credencial {
    type V = Seq<char>;

    closed spec fn view(&self) -> Seq<char> {
        self.phc@
    }
}

impl Clone for Credencial {
    fn clone(&self) -> (r: Credencial)
        ensures
            r@ == self@,
    {
        Credencial { phc: self.phc.clone() }
    }
}

impl Credencial {
    /// Deriva el hash argon2 de una contraseña de al menos cuatro bytes. El
    /// hash obtenido verifica la misma contraseña.
    pub fn nueva(contrasena: &str) -> (r: Result<Credencial, ErrorDominio>)
        ensures
            largo_bytes(contrasena@) < 4 ==> (r matches Err(ErrorDominio::Invalido(m)) && m@
                == "la contraseña es demasiado corta"@),
            r matches Ok(c) ==> largo_bytes(contrasena@) >= 4 && verifica_argon2(c@, contrasena@),
            4 <= largo_bytes(contrasena@) <= largo_max_argon2() ==> r is Ok,
            largo_bytes(contrasena@) > largo_max_argon2() ==> (r matches Err(
                ErrorDominio::Invalido(m),
            ) && m@.take(34) == "no se pudo hashear la contraseña: "@),
            r matches Err(e) ==> (e matches ErrorDominio::Invalido(_)),
    {
        if contrasena.len() < 4 {
            return Err(ErrorDominio::Invalido(cadena("la contraseña es demasiado corta")));
        }
        match hashear_argon2(contrasena) {
            Ok(phc) => Ok(Credencial { phc }),
            Err(t) => {
                let m = concatenar("no se pudo hashear la contraseña: ", t.as_str());
                proof {
                    reveal_strlit("no se pudo hashear la contraseña: ");
                    assert(m@.take(34) =~= "no se pudo hashear la contraseña: "@);
                }
                Err(ErrorDominio::Invalido(m))
            },
        }
    }

    /// Reconstruye desde el hash persistido (sin re-hashear).
    pub fn desde_hash(phc: String) -> (r: Credencial)
        ensures
            r@ == phc@,
    {
        Credencial { phc }
    }

    pub fn hash(&self) -> (r: &str)
        ensures
            r@ == self@,
    {
        self.phc.as_str()
    }

    /// Verifica una contraseña contra el hash almacenado.
    pub fn verificar(&self, contrasena: &str) -> (r: bool)
        ensures
            r == verifica_argon2(self@, contrasena@),
    {
        verificar_argon2(self.phc.as_str(), contrasena)
    }
}

/// Rol: conjunto editable de permisos, sin catálogo cerrado. Editarlo en
/// caliente afecta a quienes ya lo tienen asignado.
pub struct Rol {
    pub id: u128,
    pub nombre: String,
    pub permisos: ConjuntoPermisos,
    pub activo: bool,
    pub actualizado: Instante,
}

impl Rol {
    /// Alta de un rol: el nombre (recortado) es obligatorio; nace activo.
    pub fn nuevo(nombre: &str, permisos: &[Permiso], ahora: Instante) -> (r: Result<
        Rol,
        ErrorDominio,
    >)
        ensures
            recorte(nombre@).len() == 0 ==> (r matches Err(ErrorDominio::Invalido(m)) && m@
                == "el nombre del rol es obligatorio"@),
            recorte(nombre@).len() != 0 ==> (r matches Ok(rol) && rol.nombre@ == recorte(nombre@)
                && rol.permisos@ == permisos@.to_set() && rol.activo && rol.actualizado == ahora),
    {
        let n = recortar(nombre);
        if n.unicode_len() == 0 {
            return Err(ErrorDominio::Invalido(cadena("el nombre del rol es obligatorio")));
        }
        Ok(
            Rol {
                id: nuevo_id(),
                nombre: cadena(n),
                permisos: ConjuntoPermisos::desde(permisos),
                activo: true,
                actualizado: ahora,
            },
        )
    }

    pub fn agregar_permiso(&mut self, permiso: Permiso, ahora: Instante)
        ensures
            final(self).permisos@ == old(self).permisos@.insert(permiso),
            final(self).actualizado == ahora,
            final(self).id == old(self).id,
            final(self).nombre == old(self).nombre,
            final(self).activo == old(self).activo,
    {
        self.permisos.insertar(permiso);
        self.actualizado = ahora;
    }

    pub fn quitar_permiso(&mut self, permiso: Permiso, ahora: Instante)
        ensures
            final(self).permisos@ == old(self).permisos@.remove(permiso),
            final(self).actualizado == ahora,
            final(self).id == old(self).id,
            final(self).nombre == old(self).nombre,
            final(self).activo == old(self).activo,
    {
        self.permisos.quitar(permiso);
        self.actualizado = ahora;
    }
}

/// Usuario del sistema. Su alcance vive aquí (no en los roles).
pub struct Usuario {
    pub id: u128,
    pub usuario: String,
    pub credencial: Credencial,
    pub roles: Vec<u128>,
    pub alcance: Alcance,
    pub activo: bool,
    pub actualizado: Instante,
}

impl Usuario {
    /// Alta de un usuario: el nombre (recortado) es obligatorio; nace activo.
    pub fn nuevo(
        usuario: &str,
        credencial: Credencial,
        roles: Vec<u128>,
        alcance: Alcance,
        ahora: Instante,
    ) -> (r: Result<Usuario, ErrorDominio>)
        ensures
            recorte(usuario@).len() == 0 ==> (r matches Err(ErrorDominio::Invalido(m)) && m@
                == "el nombre de usuario es obligatorio"@),
            recorte(usuario@).len() != 0 ==> (r matches Ok(u) && u.usuario@ == recorte(usuario@)
                && u.credencial@ == credencial@ && u.roles@ == roles@ && u.alcance == alcance
                && u.activo && u.actualizado == ahora),
    {
        let n = recortar(usuario);
        if n.unicode_len() == 0 {
            return Err(ErrorDominio::Invalido(cadena("el nombre de usuario es obligatorio")));
        }
        Ok(
            Usuario {
                id: nuevo_id(),
                usuario: cadena(n),
                credencial,
                roles,
                alcance,
                activo: true,
                actualizado: ahora,
            },
        )
    }
}

/// ¿Cuenta el rol `r` para el usuario? Está activo y asignado.
pub open spec fn rol_vigente(roles_usuario: Seq<u128>, r: Rol) -> bool {
    r.activo && roles_usuario.contains(r.id)
}

/// Los permisos que aportan los roles vigentes de la lista.
pub open spec fn union_permisos(roles_usuario: Seq<u128>, roles: Seq<Rol>) -> Set<Permiso> {
    Set::new(
        |p: Permiso|
            exists|i: int|
                0 <= i < roles.len() && rol_vigente(roles_usuario, #[trigger] roles[i])
                    && roles[i].permisos@.contains(p),
    )
}

fn asignado(roles_usuario: &Vec<u128>, id: u128) -> (r: bool)
    ensures
        r == roles_usuario@.contains(id),
{
    let mut i: usize = 0;
    while i < roles_usuario.len()
        invariant
            i <= roles_usuario@.len(),
            forall|k: int| 0 <= k < i ==> roles_usuario@[k] != id,
        decreases roles_usuario@.len() - i,
    {
        if roles_usuario[i] == id {
            assert(roles_usuario@[i as int] == id);
            return true;
        }
        i = i + 1;
    }
    false
}

/// Permisos efectivos = unión de los permisos de los roles activos del usuario.
pub fn permisos_efectivos(usuario: &Usuario, roles: &[Rol]) -> (r: ConjuntoPermisos)
    ensures
        r@ == union_permisos(usuario.roles@, roles@),
{
    let mut efectivos = ConjuntoPermisos::vacio();
    let mut i: usize = 0;
    while i < roles.len()
        invariant
            i <= roles@.len(),
            efectivos@ == union_permisos(usuario.roles@, roles@.subrange(0, i as int)),
        decreases roles@.len() - i,
    {
        let rol = &roles[i];
        let ghost antes = efectivos@;
        if rol.activo && asignado(&usuario.roles, rol.id) {
            let lista = rol.permisos.a_vec();
            let mut j: usize = 0;
            while j < lista.len()
                invariant
                    j <= lista@.len(),
                    lista@.to_set() == rol.permisos@,
                    efectivos@ == antes + lista@.subrange(0, j as int).to_set(),
                decreases lista@.len() - j,
            {
                let ghost previo = efectivos@;
                efectivos.insertar(lista[j]);
                proof {
                    assert(lista@.subrange(0, j + 1) =~= lista@.subrange(0, j as int).push(
                        lista@[j as int],
                    ));
                    lista@.subrange(0, j as int).lemma_push_to_set_commute(lista@[j as int]);
                    assert(efectivos@ =~= antes + lista@.subrange(0, j + 1).to_set());
                }
                j = j + 1;
            }
            proof {
                assert(lista@.subrange(0, lista@.len() as int) =~= lista@);
                assert(union_permisos(usuario.roles@, roles@.subrange(0, i + 1)) =~= antes
                    + rol.permisos@) by {
                    assert forall|p: Permiso|
                        union_permisos(usuario.roles@, roles@.subrange(0, i + 1)).contains(
                            p,
                        ) implies #[trigger] (antes + rol.permisos@).contains(p) by {
                        let w = choose|k: int|
                            0 <= k < i + 1 && rol_vigente(
                                usuario.roles@,
                                #[trigger] roles@.subrange(0, i + 1)[k],
                            ) && roles@.subrange(0, i + 1)[k].permisos@.contains(p);
                        if w < i {
                            assert(roles@.subrange(0, i as int)[w] == roles@.subrange(0, i + 1)[w]);
                        }
                    }
                    assert forall|p: Permiso| #[trigger]
                        (antes + rol.permisos@).contains(p) implies union_permisos(
                        usuario.roles@,
                        roles@.subrange(0, i + 1),
                    ).contains(p) by {
                        if antes.contains(p) {
                            let w = choose|k: int|
                                0 <= k < i && rol_vigente(
                                    usuario.roles@,
                                    #[trigger] roles@.subrange(0, i as int)[k],
                                ) && roles@.subrange(0, i as int)[k].permisos@.contains(p);
                            assert(roles@.subrange(0, i as int)[w] == roles@.subrange(0, i + 1)[w]);
                        } else {
                            assert(roles@.subrange(0, i + 1)[i as int] == *rol);
                        }
                    }
                }
            }
        } else {
            proof {
                assert(union_permisos(usuario.roles@, roles@.subrange(0, i + 1)) =~= antes) by {
                    assert forall|p: Permiso|
                        union_permisos(usuario.roles@, roles@.subrange(0, i + 1)).contains(
                            p,
                        ) implies #[trigger] antes.contains(p) by {
                        let w = choose|k: int|
                            0 <= k < i + 1 && rol_vigente(
                                usuario.roles@,
                                #[trigger] roles@.subrange(0, i + 1)[k],
                            ) && roles@.subrange(0, i + 1)[k].permisos@.contains(p);
                        assert(w != i);
                        assert(roles@.subrange(0, i as int)[w] == roles@.subrange(0, i + 1)[w]);
                    }
                    assert forall|p: Permiso| #[trigger] antes.contains(p) implies union_permisos(
                        usuario.roles@,
                        roles@.subrange(0, i + 1),
                    ).contains(p) by {
                        let w = choose|k: int|
                            0 <= k < i && rol_vigente(
                                usuario.roles@,
                                #[trigger] roles@.subrange(0, i as int)[k],
                            ) && roles@.subrange(0, i as int)[k].permisos@.contains(p);
                        assert(roles@.subrange(0, i as int)[w] == roles@.subrange(0, i + 1)[w]);
                    }
                }
            }
        }
        i = i + 1;
    }
    proof {
        assert(roles@.subrange(0, roles@.len() as int) =~= roles@);
    }
    efectivos
}

} // verus!
