//! Errores del dominio.

use vstd::prelude::*;
use vstd::string::StringExecFns;

use crate::acceso::{nombre_permiso, Permiso};
use crate::texto::{cadena, concatenar};

verus! {

/// Falla de una regla de negocio o de una comprobación de acceso.
#[derive(Debug, Clone, PartialEq, Eq)]
pub enum ErrorDominio {
    /// El actor no porta el permiso requerido.
    PermisoDenegado(Permiso),
    /// El alcance del actor no cubre la sucursal objetivo.
    FueraDeAlcance,
    /// La operación exige un usuario en sesión (no el actor `sistema`).
    RequiereUsuario,
    /// Transición de estado no permitida.
    TransicionInvalida(String),
    /// El solicitante no puede resolver su propia solicitud.
    SegregacionDeDeberes,
    /// Dato de entrada inválido (formato, rango, etc.).
    Invalido(String),
    /// Regla de negocio violada.
    Regla(String),
}

/// El mensaje de cada error, como se muestra al usuario.
pub open spec fn mensaje_de(e: ErrorDominio) -> Seq<char> {
    match e {
        ErrorDominio::PermisoDenegado(p) => "permiso denegado: falta `"@ + nombre_permiso(p) + "`"@,
        ErrorDominio::FueraDeAlcance => "fuera de alcance: la operación toca una sucursal que no está en tu alcance"@,
        ErrorDominio::RequiereUsuario => "se requiere un usuario en sesión para esta operación"@,
        ErrorDominio::TransicionInvalida(m) => "transición inválida: "@ + m@,
        ErrorDominio::SegregacionDeDeberes => "segregación de deberes: no puedes resolver tu propia solicitud"@,
        ErrorDominio::Invalido(m) => "dato inválido: "@ + m@,
        ErrorDominio::Regla(m) => "regla violada: "@ + m@,
    }
}

impl ErrorDominio {
    /// El mensaje del error, como se muestra al usuario.
    pub fn mensaje(&self) -> (r: String)
        ensures
            r@ == mensaje_de(*self),
    {
        match self {
            ErrorDominio::PermisoDenegado(p) => {
                let mut r = cadena("permiso denegado: falta `");
                r.append(p.texto());
                r.append("`");
                r
            },
            ErrorDominio::FueraDeAlcance => cadena(
                "fuera de alcance: la operación toca una sucursal que no está en tu alcance",
            ),
            ErrorDominio::RequiereUsuario => cadena(
                "se requiere un usuario en sesión para esta operación",
            ),
            ErrorDominio::TransicionInvalida(m) => concatenar("transición inválida: ", m.as_str()),
            ErrorDominio::SegregacionDeDeberes => cadena(
                "segregación de deberes: no puedes resolver tu propia solicitud",
            ),
            ErrorDominio::Invalido(m) => concatenar("dato inválido: ", m.as_str()),
            ErrorDominio::Regla(m) => concatenar("regla violada: ", m.as_str()),
        }
    }
}

} // verus!
