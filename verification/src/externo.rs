//! Puntos de contacto con crates externas. Cada función aquí es de confianza:
//! su contrato se asume y se documenta contra la fuente de la crate.

use vstd::prelude::*;

verus! {

/// Llama a `uuid::Uuid::new_v4` y devuelve sus 128 bits (`as_u128`). El valor es
/// aleatorio: no se afirma nada de él.
#[verifier::external_body]
pub(crate) fn nuevo_id() -> (r: u128) {
    uuid::Uuid::new_v4().as_u128()
}

/// El dígito hexadecimal en minúscula de `d` (0–15).
pub open spec fn hex_digito(d: int) -> char {
    if d < 10 {
        (d + 48) as char
    } else {
        (d - 10 + 97) as char
    }
}

/// Los `k` dígitos hexadecimales de menor peso de `n`, el más significativo
/// primero (con ceros a la izquierda).
pub open spec fn hex_ancho(n: nat, k: nat) -> Seq<char>
    decreases k,
{
    if k == 0 {
        Seq::empty()
    } else {
        hex_ancho(n / 16, (k - 1) as nat).push(hex_digito((n % 16) as int))
    }
}

/// Un identificador de 128 bits escrito como UUID con guiones: 32 dígitos
/// hexadecimales en minúscula, agrupados 8-4-4-4-12.
pub open spec fn texto_uuid(n: nat) -> Seq<char> {
    let h = hex_ancho(n, 32);
    h.subrange(0, 8) + seq!['-'] + h.subrange(8, 12) + seq!['-'] + h.subrange(12, 16) + seq!['-']
        + h.subrange(16, 20) + seq!['-'] + h.subrange(20, 32)
}

/// `uuid::Uuid::from_u128(id).to_string()`: el `Display` de un UUID es su
/// forma con guiones en minúscula (`fmt::LowerHex` sobre `as_hyphenated`, que
/// escribe los 16 bytes en orden big-endian).
#[verifier::external_body]
pub(crate) fn escribir_uuid(id: u128) -> (r: String)
    ensures
        r@ == texto_uuid(id as nat),
{
    uuid::Uuid::from_u128(id).to_string()
}

/// El identificador que denota un texto según `uuid::Uuid::parse_str`, si
/// alguno (acepta varias formas: con guiones, simple, entre llaves, URN).
pub uninterp spec fn uuid_leido(s: Seq<char>) -> Option<u128>;

/// El texto del error con que `uuid::Uuid::parse_str` rechaza `s`.
pub uninterp spec fn error_uuid(s: Seq<char>) -> Seq<char>;

/// `uuid::Uuid::parse_str(s)` y sus 128 bits (`as_u128`), o el texto del
/// error. La forma con guiones que escribe `escribir_uuid` se lee de vuelta
/// como el mismo identificador (es una de las formas que el analizador acepta,
/// y el orden de bytes es el mismo en ambas direcciones).
#[verifier::external_body]
pub(crate) fn leer_uuid(s: &str) -> (r: Result<u128, String>)
    ensures
        r matches Ok(n) ==> uuid_leido(s@) == Some(n),
        r matches Err(t) ==> uuid_leido(s@) is None && t@ == error_uuid(s@),
        (exists|n: u128| s@ == texto_uuid(n as nat)) ==> (r matches Ok(m) && forall|n: u128|
            s@ == texto_uuid(n as nat) ==> n == m),
{
    match uuid::Uuid::parse_str(s) {
        Ok(u) => Ok(u.as_u128()),
        Err(e) => Err(e.to_string()),
    }
}

} // verus!
