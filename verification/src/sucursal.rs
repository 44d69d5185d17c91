//! Sucursales: `matriz` (única) o `expendio`, con **código** corto inmutable que
//! prefija sus folios, y **zona horaria** IANA.

use vstd::prelude::*;
use vstd::string::StrSliceExecFns;

use crate::error::ErrorDominio;
use crate::externo::nuevo_id;
use crate::texto::{
    a_mayusculas, cadena, concatenar, lema_recorte_ascii, mayuscula_ascii, mayusculas, recortar,
    recorte, solo_alfanumericos, todos_alfanumericos, todos_ascii, todos_mayusculas_o_digitos,
};
use crate::tiempo::{Instante, ZonaHoraria};

verus! {

#[derive(Debug, Clone, Copy, PartialEq, Eq, Structural)]
pub enum TipoSucursal {
    Matriz,
    Expendio,
}

/// Un código de sucursal válido: 2–4 letras o dígitos ASCII.
pub open spec fn codigo_valido(c: Seq<char>) -> bool {
    2 <= c.len() <= 4 && todos_alfanumericos(c)
}

/// El código que resulta de normalizar la entrada: sin espacio en los
/// extremos y en mayúsculas.
pub open spec fn codigo_normalizado(entrada: Seq<char>) -> Seq<char> {
    mayusculas(recorte(entrada))
}

/// Código de sucursal: 2–4 alfanuméricos en mayúsculas, **único e inmutable**,
/// asignado al alta. Prefija los folios.
#[derive(Debug, PartialEq, Eq)]
pub struct CodigoSucursal {
    codigo: String,
}

impl View for CodigoSucursal {
    type V = Seq<char>;

    closed spec fn view(&self) -> Seq<char> {
        self.codigo@
    }
}

impl CodigoSucursal {
    #[verifier::type_invariant]
    spec fn bien_formado(&self) -> bool {
        codigo_valido(self.codigo@)
    }

    /// Normaliza (recorta y pasa a mayúsculas) y valida el código.
    pub fn nueva(codigo: &str) -> (r: Result<CodigoSucursal, ErrorDominio>)
        ensures
            codigo_valido(codigo_normalizado(codigo@)) ==> (r matches Ok(c) && c@
                == codigo_normalizado(codigo@)),
            !codigo_valido(codigo_normalizado(codigo@)) ==> (r matches Err(
                ErrorDominio::Invalido(m),
            ) && m@ == "código de sucursal inválido (2–4 alfanuméricos): "@ + codigo@),
            todos_ascii(codigo@) ==> codigo_normalizado(codigo@) == recorte(codigo@).map_values(
                |c: char| mayuscula_ascii(c),
            ),
            r matches Ok(c) ==> todos_mayusculas_o_digitos(c@),
    {
        let t = recortar(codigo);
        proof {
            if todos_ascii(codigo@) {
                lema_recorte_ascii(codigo@);
            }
        }
        let c = a_mayusculas(t);
        let largo = c.as_str().unicode_len();
        let ok = 2 <= largo && largo <= 4 && solo_alfanumericos(c.as_str());
        if !ok {
            return Err(
                ErrorDominio::Invalido(
                    concatenar("código de sucursal inválido (2–4 alfanuméricos): ", codigo),
                ),
            );
        }
        proof {
            assert forall|i: int| 0 <= i < c@.len() implies ('0' <= #[trigger] c@[i] && c@[i]
                <= '9') || ('A' <= c@[i] && c@[i] <= 'Z') by {
                assert(crate::texto::es_alfanumerico_ascii(c@[i]));
                assert(!crate::texto::es_minuscula_ascii(c@[i]));
            }
        }
        Ok(CodigoSucursal { codigo: c })
    }

    pub fn get(&self) -> (r: &str)
        ensures
            r@ == self@,
            codigo_valido(r@),
    {
        proof {
            use_type_invariant(self);
        }
        self.codigo.as_str()
    }
}

impl Clone for CodigoSucursal {
    fn clone(&self) -> (r: CodigoSucursal)
        ensures
            r@ == self@,
    {
        proof {
            use_type_invariant(self);
        }
        CodigoSucursal { codigo: self.codigo.clone() }
    }
}

/// Una sucursal. La unicidad de la matriz y del código son invariantes de la
/// colección y se verifican contra el resto de las sucursales.
pub struct Sucursal {
    pub id: u128,
    pub tipo: TipoSucursal,
    pub codigo: CodigoSucursal,
    pub nombre: String,
    pub zona: ZonaHoraria,
    pub activo: bool,
    pub actualizado: Instante,
}

impl Sucursal {
    /// Alta: el nombre (recortado) es obligatorio; nace activa.
    pub fn nueva(
        tipo: TipoSucursal,
        codigo: CodigoSucursal,
        nombre: &str,
        zona: ZonaHoraria,
        ahora: Instante,
    ) -> (r: Result<Sucursal, ErrorDominio>)
        ensures
            recorte(nombre@).len() == 0 ==> (r matches Err(ErrorDominio::Invalido(m)) && m@
                == "el nombre de la sucursal es obligatorio"@),
            recorte(nombre@).len() != 0 ==> (r matches Ok(s) && s.tipo == tipo && s.codigo@
                == codigo@ && s.nombre@ == recorte(nombre@) && s.zona@ == zona@ && s.activo
                && s.actualizado == ahora),
    {
        let n = recortar(nombre);
        if n.unicode_len() == 0 {
            return Err(ErrorDominio::Invalido(cadena("el nombre de la sucursal es obligatorio")));
        }
        Ok(
            Sucursal {
                id: nuevo_id(),
                tipo,
                codigo,
                nombre: cadena(n),
                zona,
                activo: true,
                actualizado: ahora,
            },
        )
    }
}

} // verus!
