//! Utilidades de texto verificadas: concatenación, escritura decimal y
//! relleno con ceros.

use vstd::prelude::*;
use vstd::string::{StrSliceExecFns, StringExecFns};

verus! {

/// Copia una cadena a un `String` propio.
pub fn cadena(s: &str) -> (r: String)
    ensures
        r@ == s@,
{
    String::from_str(s)
}

/// Largo en bytes UTF-8 de un texto, como lo cuenta `str::len`.
pub open spec fn largo_bytes(s: Seq<char>) -> int {
    (vstd::utf8::encode_utf8(s).len() as usize) as int
}

/// `a` seguido de `b`.
pub fn concatenar(a: &str, b: &str) -> (r: String)
    ensures
        r@ == a@ + b@,
{
    let mut r = String::from_str(a);
    r.append(b);
    r
}

/// El carácter del dígito decimal `d` (`0 ≤ d < 10`).
pub open spec fn caracter_digito(d: int) -> char {
    (d + 48) as char
}

/// ¿Es `c` un dígito ASCII `0`–`9`?
pub open spec fn es_digito(c: char) -> bool {
    '0' <= c && c <= '9'
}

/// El valor del dígito ASCII `c`.
pub open spec fn valor_digito(c: char) -> int {
    (c as int) - 48
}

/// Escritura decimal (sin signo, sin ceros a la izquierda) de `n`.
pub open spec fn spec_decimal(n: nat) -> Seq<char>
    decreases n,
{
    if n < 10 {
        seq![caracter_digito(n as int)]
    } else {
        spec_decimal(n / 10).push(caracter_digito((n % 10) as int))
    }
}

/// Escritura decimal con signo `-` para los negativos.
pub open spec fn spec_decimal_con_signo(n: int) -> Seq<char> {
    if n < 0 {
        seq!['-'] + spec_decimal((-n) as nat)
    } else {
        spec_decimal(n as nat)
    }
}

/// `k` ceros.
pub open spec fn ceros(k: nat) -> Seq<char> {
    Seq::new(k, |_i: int| '0')
}

/// La escritura decimal de `n` rellenada con ceros a la izquierda hasta `ancho`.
pub open spec fn spec_decimal_ancho(n: nat, ancho: nat) -> Seq<char> {
    let d = spec_decimal(n);
    if d.len() < ancho {
        ceros((ancho - d.len()) as nat) + d
    } else {
        d
    }
}

/// El texto de un solo dígito.
pub fn digito(d: u64) -> (r: &'static str)
    requires
        d < 10,
    ensures
        r@ == seq![caracter_digito(d as int)],
{
    proof {
        reveal_strlit("0");
        reveal_strlit("1");
        reveal_strlit("2");
        reveal_strlit("3");
        reveal_strlit("4");
        reveal_strlit("5");
        reveal_strlit("6");
        reveal_strlit("7");
        reveal_strlit("8");
        reveal_strlit("9");
    }
    match d {
        0 => "0",
        1 => "1",
        2 => "2",
        3 => "3",
        4 => "4",
        5 => "5",
        6 => "6",
        7 => "7",
        8 => "8",
        _ => "9",
    }
}

/// Escritura decimal de un natural.
pub fn decimal(n: u64) -> (r: String)
    ensures
        r@ == spec_decimal(n as nat),
    decreases n,
{
    if n < 10 {
        cadena(digito(n))
    } else {
        let mut r = decimal(n / 10);
        r.append(digito(n % 10));
        r
    }
}

/// Escritura decimal de un entero con signo.
pub fn decimal_con_signo(n: i64) -> (r: String)
    ensures
        r@ == spec_decimal_con_signo(n as int),
{
    if n < 0 {
        let magnitud = (0i128 - n as i128) as u64;
        let mut r = cadena("-");
        proof {
            reveal_strlit("-");
        }
        let d = decimal(magnitud);
        r.append(d.as_str());
        r
    } else {
        decimal(n as u64)
    }
}

/// `k` ceros como texto.
pub fn texto_ceros(k: usize) -> (r: String)
    ensures
        r@ == ceros(k as nat),
{
    let mut r = String::new();
    let mut i: usize = 0;
    proof {
        reveal_strlit("0");
    }
    while i < k
        invariant
            i <= k,
            r@ == ceros(i as nat),
        decreases k - i,
    {
        proof {
            reveal_strlit("0");
        }
        r.append("0");
        assert(r@ =~= ceros((i + 1) as nat));
        i = i + 1;
    }
    r
}

/// Escritura decimal rellenada con ceros a la izquierda hasta `ancho` caracteres.
pub fn decimal_ancho(n: u64, ancho: usize) -> (r: String)
    ensures
        r@ == spec_decimal_ancho(n as nat, ancho as nat),
{
    let d = decimal(n);
    let largo = d.as_str().unicode_len();
    if largo < ancho {
        let mut r = texto_ceros(ancho - largo);
        r.append(d.as_str());
        r
    } else {
        d
    }
}

/// ¿Es `c` espacio en blanco según la propiedad Unicode `White_Space`?
pub open spec fn es_espacio(c: char) -> bool {
    let n = c as int;
    ||| 0x09 <= n <= 0x0D
    ||| n == 0x20
    ||| n == 0x85
    ||| n == 0xA0
    ||| n == 0x1680
    ||| 0x2000 <= n <= 0x200A
    ||| n == 0x2028
    ||| n == 0x2029
    ||| n == 0x202F
    ||| n == 0x205F
    ||| n == 0x3000
}

/// El texto sin el espacio en blanco inicial.
pub open spec fn sin_espacio_inicial(s: Seq<char>) -> Seq<char>
    decreases s.len(),
{
    if s.len() > 0 && es_espacio(s[0]) {
        sin_espacio_inicial(s.drop_first())
    } else {
        s
    }
}

/// El texto sin el espacio en blanco final.
pub open spec fn sin_espacio_final(s: Seq<char>) -> Seq<char>
    decreases s.len(),
{
    if s.len() > 0 && es_espacio(s.last()) {
        sin_espacio_final(s.drop_last())
    } else {
        s
    }
}

/// El texto sin el espacio en blanco inicial ni final, como lo deja `str::trim`.
pub open spec fn recorte(s: Seq<char>) -> Seq<char> {
    sin_espacio_final(sin_espacio_inicial(s))
}

/// Las palabras del texto, en orden: los tramos máximos sin espacio en
/// blanco, como las entrega `str::split_whitespace`. Se leen de derecha a
/// izquierda: un carácter que no es espacio abre palabra nueva si lo sigue un
/// espacio o el final, y si no, se antepone a la palabra que sigue.
pub open spec fn palabras(s: Seq<char>) -> Seq<Seq<char>>
    decreases s.len(),
{
    if s.len() == 0 {
        Seq::empty()
    } else {
        let resto = palabras(s.drop_first());
        if es_espacio(s[0]) {
            resto
        } else if s.len() > 1 && !es_espacio(s[1]) && resto.len() > 0 {
            resto.update(0, seq![s[0]] + resto[0])
        } else {
            seq![seq![s[0]]] + resto
        }
    }
}

/// ¿Son ASCII todos los caracteres?
pub open spec fn todos_ascii(s: Seq<char>) -> bool {
    forall|i: int| 0 <= i < s.len() ==> (#[trigger] s[i] as int) < 128
}

/// ¿Son todos los caracteres dígitos o letras mayúsculas ASCII?
pub open spec fn todos_mayusculas_o_digitos(s: Seq<char>) -> bool {
    forall|i: int|
        0 <= i < s.len() ==> ('0' <= #[trigger] s[i] && s[i] <= '9') || ('A' <= s[i] && s[i]
            <= 'Z')
}

/// Quitar espacio de los extremos de un texto ASCII deja un texto ASCII.
pub proof fn lema_recorte_ascii(s: Seq<char>)
    requires
        todos_ascii(s),
    ensures
        todos_ascii(sin_espacio_inicial(s)),
        todos_ascii(recorte(s)),
{
    lema_inicial_ascii(s);
    lema_final_ascii(sin_espacio_inicial(s));
}

proof fn lema_inicial_ascii(s: Seq<char>)
    requires
        todos_ascii(s),
    ensures
        todos_ascii(sin_espacio_inicial(s)),
    decreases s.len(),
{
    if s.len() > 0 && es_espacio(s[0]) {
        assert(todos_ascii(s.drop_first())) by {
            assert forall|i: int| 0 <= i < s.drop_first().len() implies (#[trigger] s.drop_first()[i]
                as int) < 128 by {
                assert(s.drop_first()[i] == s[i + 1]);
            }
        }
        lema_inicial_ascii(s.drop_first());
    }
}

proof fn lema_final_ascii(s: Seq<char>)
    requires
        todos_ascii(s),
    ensures
        todos_ascii(sin_espacio_final(s)),
    decreases s.len(),
{
    if s.len() > 0 && es_espacio(s.last()) {
        assert(todos_ascii(s.drop_last())) by {
            assert forall|i: int| 0 <= i < s.drop_last().len() implies (#[trigger] s.drop_last()[i]
                as int) < 128 by {
                assert(s.drop_last()[i] == s[i]);
            }
        }
        lema_final_ascii(s.drop_last());
    }
}

/// La mayúscula de un carácter ASCII: `a`–`z` pasan a `A`–`Z`; los demás quedan.
pub open spec fn mayuscula_ascii(c: char) -> char {
    if 'a' <= c && c <= 'z' {
        ((c as int) - 32) as char
    } else {
        c
    }
}

/// El texto en mayúsculas, como lo deja `str::to_uppercase` (mapeo Unicode
/// completo, que puede cambiar el largo).
pub uninterp spec fn mayusculas(s: Seq<char>) -> Seq<char>;

/// `str::trim`: quita el espacio en blanco (`White_Space`) inicial y final.
#[verifier::external_body]
pub(crate) fn recortar(s: &str) -> (r: &str)
    ensures
        r@ == recorte(s@),
{
    s.trim()
}

/// ¿Es `c` una letra minúscula ASCII?
pub open spec fn es_minuscula_ascii(c: char) -> bool {
    'a' <= c && c <= 'z'
}

/// `str::to_uppercase`. Su resultado se nombra con `mayusculas`; de un texto
/// todo ASCII, la documentación fija el resultado carácter a carácter. Cada
/// carácter del resultado sale de la correspondencia a mayúsculas de la base
/// Unicode (`UnicodeData.txt` y `SpecialCasing.txt`), o es el mismo carácter si
/// no tiene; ninguna de esas correspondencias da una minúscula ASCII, y las
/// minúsculas ASCII sí tienen la suya, así que el resultado no lleva ninguna.
#[verifier::external_body]
pub(crate) fn a_mayusculas(s: &str) -> (r: String)
    ensures
        r@ == mayusculas(s@),
        todos_ascii(s@) ==> r@ == s@.map_values(|c: char| mayuscula_ascii(c)),
        forall|i: int| 0 <= i < r@.len() ==> !es_minuscula_ascii(#[trigger] r@[i]),
{
    s.to_uppercase()
}

/// `str::split_whitespace`, cada palabra copiada a un `String`.
#[verifier::external_body]
pub(crate) fn separar_palabras(s: &str) -> (r: Vec<String>)
    ensures
        r@.len() == palabras(s@).len(),
        forall|i: int| 0 <= i < r@.len() ==> #[trigger] r@[i]@ == palabras(s@)[i],
{
    s.split_whitespace().map(|p| p.to_string()).collect()
}

/// ¿Es `c` una letra o dígito ASCII (`char::is_ascii_alphanumeric`)?
pub open spec fn es_alfanumerico_ascii(c: char) -> bool {
    ('0' <= c && c <= '9') || ('A' <= c && c <= 'Z') || ('a' <= c && c <= 'z')
}

/// ¿Todos los caracteres cumplen `es_digito`?
pub open spec fn todos_digitos(s: Seq<char>) -> bool {
    forall|i: int| 0 <= i < s.len() ==> #[trigger] es_digito(s[i])
}

/// ¿Todos los caracteres son letras o dígitos ASCII?
pub open spec fn todos_alfanumericos(s: Seq<char>) -> bool {
    forall|i: int| 0 <= i < s.len() ==> #[trigger] es_alfanumerico_ascii(s[i])
}

/// Comprueba `todos_digitos` recorriendo el texto.
pub fn solo_digitos(s: &str) -> (r: bool)
    ensures
        r == todos_digitos(s@),
{
    let n = s.unicode_len();
    let mut i: usize = 0;
    while i < n
        invariant
            n == s@.len(),
            i <= n,
            forall|j: int| 0 <= j < i ==> #[trigger] es_digito(s@[j]),
        decreases n - i,
    {
        let c = s.get_char(i);
        if !('0' <= c && c <= '9') {
            assert(!es_digito(s@[i as int]));
            return false;
        }
        i = i + 1;
    }
    true
}

/// Comprueba `todos_alfanumericos` recorriendo el texto.
pub fn solo_alfanumericos(s: &str) -> (r: bool)
    ensures
        r == todos_alfanumericos(s@),
{
    let n = s.unicode_len();
    let mut i: usize = 0;
    while i < n
        invariant
            n == s@.len(),
            i <= n,
            forall|j: int| 0 <= j < i ==> #[trigger] es_alfanumerico_ascii(s@[j]),
        decreases n - i,
    {
        let c = s.get_char(i);
        if !(('0' <= c && c <= '9') || ('A' <= c && c <= 'Z') || ('a' <= c && c <= 'z')) {
            assert(!es_alfanumerico_ascii(s@[i as int]));
            return false;
        }
        i = i + 1;
    }
    true
}

/// Igualdad de textos, carácter a carácter.
pub fn mismo_texto(a: &str, b: &str) -> (r: bool)
    ensures
        r == (a@ == b@),
{
    let n = a.unicode_len();
    let m = b.unicode_len();
    if n != m {
        return false;
    }
    let mut i: usize = 0;
    while i < n
        invariant
            n == a@.len(),
            n == b@.len(),
            i <= n,
            forall|j: int| 0 <= j < i ==> a@[j] == b@[j],
        decreases n - i,
    {
        if a.get_char(i) != b.get_char(i) {
            return false;
        }
        i = i + 1;
    }
    assert(a@ =~= b@);
    true
}

} // verus!
