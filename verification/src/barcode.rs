//! Código de barras EAN-13: valida GTIN externos, **genera** el barcode estable
//! de los productos de la matriz y el barcode **por-ítem** de las etiquetas de
//! peso variable.
//!
//! El de producto usa un prefijo interno de circulación restringida (`200`) que
//! no colisiona con GTIN comerciales; el por-ítem usa su propio prefijo (`21`)
//! seguido del discriminador (5 dígitos) y del peso en gramos (5 dígitos).

use vstd::prelude::*;
use vstd::string::{StrSliceExecFns, StringExecFns};

use crate::error::ErrorDominio;
use crate::texto::{
    caracter_digito, cadena, ceros, concatenar, decimal, decimal_ancho, digito, es_digito,
    solo_digitos, spec_decimal, spec_decimal_ancho, todos_digitos, valor_digito,
};
use crate::unidades::Gramos;

verus! {

/// Prefijo interno de los barcodes de producto acuñados por la matriz.
pub const PREFIJO_MATRIZ: &'static str = "200";

/// Prefijo de los barcodes por-ítem de las etiquetas de peso variable.
pub const PREFIJO_ETIQUETA: &'static str = "21";

/// Los discriminadores por-ítem viven módulo 10⁵ (cinco dígitos).
pub const MODULO_DISCRIMINADOR: u64 = 100000;

/// Mayor peso codificable en una etiqueta por-ítem, en gramos.
pub const PESO_MAXIMO_ETIQUETA: i64 = 99999;

/// 10 elevado a `k`.
pub open spec fn pow10(k: nat) -> nat
    decreases k,
{
    if k == 0 {
        1
    } else {
        10 * pow10((k - 1) as nat)
    }
}

/// Peso de la posición `i` (0-indexada desde la izquierda): 1 en las pares, 3
/// en las impares.
pub open spec fn peso_posicion(i: int) -> int {
    if i % 2 == 0 {
        1
    } else {
        3
    }
}

/// Suma ponderada de los dígitos.
pub open spec fn suma_ponderada(d: Seq<int>) -> int
    decreases d.len(),
{
    if d.len() == 0 {
        0
    } else {
        suma_ponderada(d.drop_last()) + d.last() * peso_posicion(d.len() - 1)
    }
}

/// El dígito verificador EAN-13 de los dígitos dados.
pub open spec fn verificador_de(d: Seq<int>) -> int {
    (10 - suma_ponderada(d) % 10) % 10
}

/// Los valores numéricos de los caracteres.
pub open spec fn valores(s: Seq<char>) -> Seq<int> {
    s.map_values(|c: char| valor_digito(c))
}

/// ¿Es un EAN-13 válido? 13 dígitos y verificador correcto.
pub open spec fn es_ean13(s: Seq<char>) -> bool {
    &&& s.len() == 13
    &&& todos_digitos(s)
    &&& valor_digito(s[12]) == verificador_de(valores(s.subrange(0, 12)))
}

/// Los doce primeros dígitos seguidos de su verificador.
pub open spec fn con_verificador(base: Seq<char>) -> Seq<char> {
    base.push(caracter_digito(verificador_de(valores(base))))
}

/// ¿Es un prefijo interno aceptable? 1 a 11 dígitos.
pub open spec fn prefijo_valido(p: Seq<char>) -> bool {
    0 < p.len() < 12 && todos_digitos(p)
}

/// El barcode de matriz para un prefijo válido y una secuencia que cabe.
pub open spec fn codigo_matriz(prefijo: Seq<char>, secuencia: nat) -> Seq<char> {
    con_verificador(prefijo + spec_decimal_ancho(secuencia, (12 - prefijo.len()) as nat))
}

/// El barcode por-ítem de una pesada.
pub open spec fn codigo_etiqueta(discriminador: nat, gramos: nat) -> Seq<char> {
    con_verificador(seq!['2', '1'] + spec_decimal_ancho(discriminador, 5) + spec_decimal_ancho(
        gramos,
        5,
    ))
}

/// El valor decimal de una secuencia de dígitos (con ceros a la izquierda o no).
pub open spec fn valor_decimal(s: Seq<char>) -> int
    decreases s.len(),
{
    if s.len() == 0 {
        0
    } else {
        valor_decimal(s.drop_last()) * 10 + valor_digito(s.last())
    }
}

/// Un EAN-13 válido (13 dígitos, dígito verificador correcto).
#[derive(Debug, PartialEq, Eq)]
pub struct Ean13 {
    codigo: String,
}

impl View for Ean13 {
    type V = Seq<char>;

    closed spec fn view(&self) -> Seq<char> {
        self.codigo@
    }
}

impl Clone for Ean13 {
    fn clone(&self) -> (r: Ean13)
        ensures
            r@ == self@,
    {
        proof {
            use_type_invariant(self);
        }
        Ean13 { codigo: self.codigo.clone() }
    }
}

// ---------------- lemas sobre la escritura decimal ----------------

proof fn lema_digito(d: int)
    requires
        0 <= d < 10,
    ensures
        es_digito(caracter_digito(d)),
        valor_digito(caracter_digito(d)) == d,
{
}

/// La escritura decimal consta de dígitos y se lee de vuelta como el número.
pub proof fn lema_decimal(n: nat)
    ensures
        todos_digitos(spec_decimal(n)),
        valor_decimal(spec_decimal(n)) == n,
        spec_decimal(n).len() >= 1,
    decreases n,
{
    if n < 10 {
        lema_digito(n as int);
        let s = spec_decimal(n);
        assert(s.drop_last() =~= Seq::<char>::empty());
        assert(valor_decimal(s.drop_last()) == 0);
        assert(s.last() == caracter_digito(n as int));
    } else {
        lema_decimal(n / 10);
        lema_digito((n % 10) as int);
        let s = spec_decimal(n);
        assert(s.drop_last() =~= spec_decimal(n / 10));
        assert(s.last() == caracter_digito((n % 10) as int));
        assert(valor_decimal(s) == valor_decimal(s.drop_last()) * 10 + valor_digito(s.last()));
        assert(n == (n / 10) * 10 + n % 10);
        assert forall|i: int| 0 <= i < s.len() implies #[trigger] es_digito(s[i]) by {
            if i < s.len() - 1 {
                assert(s[i] == spec_decimal(n / 10)[i]);
            }
        }
    }
}

/// Si `n < 10^w` (con `w ≥ 1`), su escritura decimal cabe en `w` dígitos.
pub proof fn lema_largo_decimal(n: nat, w: nat)
    requires
        w >= 1,
        n < pow10(w),
    ensures
        spec_decimal(n).len() <= w,
    decreases n,
{
    if n >= 10 {
        assert(w >= 2) by {
            if w == 1 {
                assert(pow10(1) == 10 * pow10(0));
            }
        }
        assert(pow10(w) == 10 * pow10((w - 1) as nat));
        assert(n / 10 < pow10((w - 1) as nat));
        lema_largo_decimal(n / 10, (w - 1) as nat);
    }
}

/// Los ceros a la izquierda no cambian el valor.
pub proof fn lema_ceros_delante(k: nat, s: Seq<char>)
    ensures
        valor_decimal(ceros(k) + s) == valor_decimal(s),
    decreases s.len(),
{
    if s.len() == 0 {
        lema_valor_ceros(k);
        assert(ceros(k) + s =~= ceros(k));
    } else {
        lema_ceros_delante(k, s.drop_last());
        assert((ceros(k) + s).drop_last() =~= ceros(k) + s.drop_last());
        assert((ceros(k) + s).last() == s.last());
    }
}

proof fn lema_valor_ceros(k: nat)
    ensures
        valor_decimal(ceros(k)) == 0,
    decreases k,
{
    if k > 0 {
        assert(ceros(k).drop_last() =~= ceros((k - 1) as nat));
        lema_valor_ceros((k - 1) as nat);
    }
}

/// La escritura rellenada a `w` dígitos tiene exactamente `w` dígitos y se lee
/// de vuelta como el número, si `1 ≤ w` y `n < 10^w`.
pub proof fn lema_decimal_ancho(n: nat, w: nat)
    requires
        w >= 1,
        n < pow10(w),
    ensures
        spec_decimal_ancho(n, w).len() == w,
        todos_digitos(spec_decimal_ancho(n, w)),
        valor_decimal(spec_decimal_ancho(n, w)) == n,
{
    lema_decimal(n);
    lema_largo_decimal(n, w);
    let d = spec_decimal(n);
    if d.len() < w {
        let k = (w - d.len()) as nat;
        lema_ceros_delante(k, d);
        let t = ceros(k) + d;
        assert forall|i: int| 0 <= i < t.len() implies #[trigger] es_digito(t[i]) by {
            if i >= k {
                assert(t[i] == d[i - k]);
            }
        }
    }
}

/// Concatenar dígitos: el valor de `a + b` es `valor(a)·10^|b| + valor(b)`.
pub proof fn lema_valor_concat(a: Seq<char>, b: Seq<char>)
    ensures
        valor_decimal(a + b) == valor_decimal(a) * pow10(b.len()) + valor_decimal(b),
    decreases b.len(),
{
    if b.len() == 0 {
        assert(a + b =~= a);
        assert(pow10(0) == 1);
        assert(valor_decimal(b) == 0);
        assert(valor_decimal(a) * 1 == valor_decimal(a));
    } else {
        lema_valor_concat(a, b.drop_last());
        assert((a + b).drop_last() =~= a + b.drop_last());
        assert((a + b).last() == b.last());
        let k = b.drop_last().len();
        assert(pow10(b.len()) == 10 * pow10(k));
        let va = valor_decimal(a);
        let pk = pow10(k);
        let vb = valor_decimal(b.drop_last());
        assert(valor_decimal(a + b) == valor_decimal(a + b.drop_last()) * 10 + valor_digito(
            b.last(),
        ));
        assert(valor_decimal(b) == vb * 10 + valor_digito(b.last()));
        assert((va * pk + vb) * 10 == va * (10 * pk) + vb * 10) by (nonlinear_arith);
        assert(valor_decimal(a + b.drop_last()) == va * pk + vb);
        assert(valor_decimal(a) * pow10(b.len()) == va * (10 * pk));
    }
}

/// Agregar el verificador a 12 dígitos da un EAN-13 válido.
pub proof fn lema_con_verificador(base: Seq<char>)
    requires
        base.len() == 12,
        todos_digitos(base),
    ensures
        es_ean13(con_verificador(base)),
        con_verificador(base).subrange(0, 12) == base,
{
    let v = verificador_de(valores(base));
    assert(0 <= v < 10);
    lema_digito(v);
    let s = con_verificador(base);
    assert(s.subrange(0, 12) =~= base);
    assert forall|k: int| 0 <= k < s.len() implies #[trigger] es_digito(s[k]) by {
        if k < 12 {
            assert(s[k] == base[k]);
        }
    }
}

// ---------------- ejecución ----------------

/// Los valores de los dígitos de un texto de dígitos.
fn digitos(s: &str) -> (r: Vec<u8>)
    requires
        todos_digitos(s@),
    ensures
        r@.len() == s@.len(),
        forall|i: int| 0 <= i < s@.len() ==> #[trigger] r@[i] as int == valor_digito(s@[i]),
        forall|i: int| 0 <= i < s@.len() ==> #[trigger] r@[i] < 10,
{
    let n = s.unicode_len();
    let mut r: Vec<u8> = Vec::new();
    let mut i: usize = 0;
    while i < n
        invariant
            n == s@.len(),
            i <= n,
            todos_digitos(s@),
            r@.len() == i,
            forall|j: int| 0 <= j < i ==> #[trigger] r@[j] as int == valor_digito(s@[j]),
            forall|j: int| 0 <= j < i ==> #[trigger] r@[j] < 10,
        decreases n - i,
    {
        let c = s.get_char(i);
        assert(es_digito(s@[i as int]));
        let d = (c as u32 - 48) as u8;
        r.push(d);
        i = i + 1;
    }
    r
}

/// La suma ponderada de unos valores `u8` vistos como enteros.
pub open spec fn como_enteros(d: Seq<u8>) -> Seq<int> {
    d.map_values(|x: u8| x as int)
}

/// Dígito verificador EAN-13: posiciones impares (1-indexadas desde la
/// izquierda) pesan 1, las pares pesan 3.
fn verificador(primeros: &[u8]) -> (r: u8)
    requires
        primeros@.len() <= 1000,
        forall|i: int| 0 <= i < primeros@.len() ==> #[trigger] primeros@[i] < 10,
    ensures
        r as int == verificador_de(como_enteros(primeros@)),
        r < 10,
{
    let mut suma: u32 = 0;
    let mut i: usize = 0;
    while i < primeros.len()
        invariant
            i <= primeros@.len(),
            primeros@.len() <= 1000,
            forall|j: int| 0 <= j < primeros@.len() ==> #[trigger] primeros@[j] < 10,
            suma as int == suma_ponderada(como_enteros(primeros@.subrange(0, i as int))),
            suma <= 27 * i,
        decreases primeros@.len() - i,
    {
        let d = primeros[i] as u32;
        let w: u32 = if i % 2 == 0 {
            1
        } else {
            3
        };
        assert(como_enteros(primeros@.subrange(0, i + 1)).drop_last() =~= como_enteros(
            primeros@.subrange(0, i as int),
        ));
        assert(d * w <= 27) by (nonlinear_arith)
            requires
                d < 10,
                w <= 3,
        ;
        suma = suma + d * w;
        i = i + 1;
    }
    assert(primeros@.subrange(0, primeros@.len() as int) =~= primeros@);
    ((10 - (suma % 10)) % 10) as u8
}

impl Ean13 {
    #[verifier::type_invariant]
    spec fn bien_formado(&self) -> bool {
        es_ean13(self.codigo@)
    }

    /// Valida una cadena como EAN-13 (longitud, dígitos y verificador).
    pub fn parse(codigo: &str) -> (r: Result<Ean13, ErrorDominio>)
        ensures
            es_ean13(codigo@) ==> (r matches Ok(e) && e@ == codigo@),
            !(codigo@.len() == 13 && todos_digitos(codigo@)) ==> (r matches Err(
                ErrorDominio::Invalido(m),
            ) && m@ == "EAN-13 debe ser 13 dígitos: "@ + codigo@),
            (codigo@.len() == 13 && todos_digitos(codigo@) && !es_ean13(codigo@)) ==> (r matches Err(
                ErrorDominio::Invalido(m),
            ) && m@ == "dígito verificador inválido en "@ + codigo@),
    {
        if codigo.unicode_len() != 13 || !solo_digitos(codigo) {
            return Err(ErrorDominio::Invalido(concatenar("EAN-13 debe ser 13 dígitos: ", codigo)));
        }
        let d = digitos(codigo);
        let primeros = slice_primeros(&d, 12);
        let esperado = verificador(primeros.as_slice());
        proof {
            assert(como_enteros(primeros@) =~= valores(codigo@.subrange(0, 12)));
        }
        if d[12] != esperado {
            return Err(
                ErrorDominio::Invalido(concatenar("dígito verificador inválido en ", codigo)),
            );
        }
        Ok(Ean13 { codigo: cadena(codigo) })
    }

    /// Genera el EAN-13 de un producto de matriz a partir de una **secuencia
    /// interna** única: prefijo, secuencia rellenada con ceros hasta completar
    /// doce dígitos, y verificador.
    pub fn generar_matriz(prefijo: &str, secuencia: u64) -> (r: Result<Ean13, ErrorDominio>)
        ensures
            !prefijo_valido(prefijo@) ==> (r matches Err(ErrorDominio::Invalido(m)) && m@
                == "prefijo interno inválido: "@ + prefijo@),
            prefijo_valido(prefijo@) && secuencia >= pow10((12 - prefijo@.len()) as nat) ==> (
            r matches Err(ErrorDominio::Invalido(m)) && m@ == "secuencia "@ + spec_decimal(
                secuencia as nat,
            ) + " excede el espacio del prefijo "@ + prefijo@),
            prefijo_valido(prefijo@) && secuencia < pow10((12 - prefijo@.len()) as nat) ==> (
            r matches Ok(e) && e@ == codigo_matriz(prefijo@, secuencia as nat)),
    {
        let largo = prefijo.unicode_len();
        if largo == 0 || largo >= 12 || !solo_digitos(prefijo) {
            return Err(ErrorDominio::Invalido(concatenar("prefijo interno inválido: ", prefijo)));
        }
        let cuerpo_len = 12 - largo;
        let max = potencia10(cuerpo_len);
        if secuencia >= max {
            let mut m = cadena("secuencia ");
            let n = decimal(secuencia);
            m.append(n.as_str());
            m.append(" excede el espacio del prefijo ");
            m.append(prefijo);
            return Err(ErrorDominio::Invalido(m));
        }
        let cuerpo = decimal_ancho(secuencia, cuerpo_len);
        let base = concatenar(prefijo, cuerpo.as_str());
        proof {
            lema_decimal_ancho(secuencia as nat, cuerpo_len as nat);
            lema_concat_digitos(prefijo@, spec_decimal_ancho(secuencia as nat, cuerpo_len as nat));
        }
        Ok(Ean13::con_verificador(base))
    }

    /// Genera el EAN-13 **por-ítem** de una pesada: prefijo `21`, discriminador
    /// (5 dígitos), peso en gramos (5 dígitos) y verificador. El peso debe ser
    /// positivo y caber en cinco dígitos; el discriminador, en cinco.
    pub fn generar_etiqueta(discriminador: u64, peso: Gramos) -> (r: Result<Ean13, ErrorDominio>)
        ensures
            (peso.0 <= 0 || peso.0 > PESO_MAXIMO_ETIQUETA) ==> (r matches Err(
                ErrorDominio::Invalido(m),
            ) && m@ == "peso fuera del rango de la etiqueta (1 a 99999 g): "@
                + crate::texto::spec_decimal_con_signo(peso.0 as int)),
            (0 < peso.0 <= PESO_MAXIMO_ETIQUETA && discriminador >= MODULO_DISCRIMINADOR) ==> (
            r matches Err(ErrorDominio::Invalido(m)) && m@
                == "discriminador fuera de rango: "@ + spec_decimal(discriminador as nat)),
            (0 < peso.0 <= PESO_MAXIMO_ETIQUETA && discriminador < MODULO_DISCRIMINADOR) ==> (
            r matches Ok(e) && e@ == codigo_etiqueta(discriminador as nat, peso.0 as nat)),
    {
        if peso.0 <= 0 || peso.0 > PESO_MAXIMO_ETIQUETA {
            let n = crate::texto::decimal_con_signo(peso.0);
            return Err(
                ErrorDominio::Invalido(
                    concatenar("peso fuera del rango de la etiqueta (1 a 99999 g): ", n.as_str()),
                ),
            );
        }
        if discriminador >= MODULO_DISCRIMINADOR {
            let n = decimal(discriminador);
            return Err(
                ErrorDominio::Invalido(concatenar("discriminador fuera de rango: ", n.as_str())),
            );
        }
        let mut base = cadena("21");
        proof {
            reveal_strlit("21");
        }
        let ghost p0 = base@;
        let d = decimal_ancho(discriminador, 5);
        base.append(d.as_str());
        let ghost p1 = base@;
        let g = decimal_ancho(peso.0 as u64, 5);
        base.append(g.as_str());
        proof {
            assert(p0 =~= seq!['2', '1']);
            assert(pow10(5) == 100000) by { reveal_with_fuel(pow10, 6); }
            lema_decimal_ancho(discriminador as nat, 5);
            lema_decimal_ancho(peso.0 as nat, 5);
            let p = seq!['2', '1'];
            assert(todos_digitos(p)) by {
                assert(es_digito(p[0]) && es_digito(p[1]));
            }
            let a = spec_decimal_ancho(discriminador as nat, 5);
            let b = spec_decimal_ancho(peso.0 as nat, 5);
            lema_concat_digitos(p, a);
            lema_concat_digitos(p + a, b);
        }
        Ok(Ean13::con_verificador(base))
    }

    /// Completa doce dígitos con su verificador.
    fn con_verificador(base: String) -> (r: Ean13)
        requires
            base@.len() == 12,
            todos_digitos(base@),
        ensures
            r@ == con_verificador(base@),
    {
        let d = digitos(base.as_str());
        let v = verificador(d.as_slice());
        proof {
            assert(como_enteros(d@) =~= valores(base@));
            lema_con_verificador(base@);
        }
        let mut codigo = base;
        codigo.append(digito(v as u64));
        assert(codigo@ =~= con_verificador(base@));
        Ean13 { codigo }
    }

    pub fn get(&self) -> (r: &str)
        ensures
            r@ == self@,
            es_ean13(r@),
    {
        proof {
            use_type_invariant(self);
        }
        self.codigo.as_str()
    }
}

/// Concatenar dos textos de dígitos da un texto de dígitos.
proof fn lema_concat_digitos(a: Seq<char>, b: Seq<char>)
    requires
        todos_digitos(a),
        todos_digitos(b),
    ensures
        todos_digitos(a + b),
{
    assert forall|k: int| 0 <= k < (a + b).len() implies #[trigger] es_digito((a + b)[k]) by {
        if k < a.len() {
            assert((a + b)[k] == a[k]);
        } else {
            assert((a + b)[k] == b[k - a.len()]);
        }
    }
}

/// Los primeros `k` elementos.
fn slice_primeros(v: &Vec<u8>, k: usize) -> (r: Vec<u8>)
    requires
        k <= v@.len(),
    ensures
        r@ == v@.subrange(0, k as int),
{
    let mut r: Vec<u8> = Vec::new();
    let mut i: usize = 0;
    while i < k
        invariant
            k <= v@.len(),
            i <= k,
            r@ == v@.subrange(0, i as int),
        decreases k - i,
    {
        r.push(v[i]);
        assert(r@ =~= v@.subrange(0, i + 1));
        i = i + 1;
    }
    r
}

/// `10^k` para `k ≤ 19`.
fn potencia10(k: usize) -> (r: u64)
    requires
        k <= 19,
    ensures
        r == pow10(k as nat),
{
    let mut r: u64 = 1;
    let mut i: usize = 0;
    while i < k
        invariant
            i <= k,
            k <= 19,
            r == pow10(i as nat),
        decreases k - i,
    {
        proof {
            lema_pow10_cota(i as nat);
        }
        r = r * 10;
        i = i + 1;
    }
    r
}

proof fn lema_pow10_monotona(k: nat, j: nat)
    requires
        k <= j,
    ensures
        pow10(k) <= pow10(j),
    decreases j,
{
    if k < j {
        lema_pow10_monotona(k, (j - 1) as nat);
    }
}

proof fn lema_pow10_cota(k: nat)
    requires
        k < 19,
    ensures
        pow10(k) * 10 <= u64::MAX,
        pow10(k + 1) == pow10(k) * 10,
{
    lema_pow10_monotona(k, 18);
    assert(pow10(18) == 1000000000000000000nat) by {
        reveal_with_fuel(pow10, 19);
    }
}

// ---------------- leyes ----------------

/// Todo barcode de matriz generado se valida como EAN-13 legítimo y conserva su
/// prefijo.
pub proof fn ley_matriz_decodable(prefijo: Seq<char>, secuencia: nat)
    requires
        prefijo_valido(prefijo),
        secuencia < pow10((12 - prefijo.len()) as nat),
    ensures
        es_ean13(codigo_matriz(prefijo, secuencia)),
        codigo_matriz(prefijo, secuencia).subrange(0, prefijo.len() as int) == prefijo,
{
    let w = (12 - prefijo.len()) as nat;
    lema_decimal_ancho(secuencia, w);
    lema_concat_digitos(prefijo, spec_decimal_ancho(secuencia, w));
    let base = prefijo + spec_decimal_ancho(secuencia, w);
    lema_con_verificador(base);
    assert(codigo_matriz(prefijo, secuencia).subrange(0, prefijo.len() as int) =~= prefijo) by {
        assert(codigo_matriz(prefijo, secuencia).subrange(0, 12) == base);
    }
}

/// Con un mismo prefijo, secuencias distintas dan barcodes distintos (la
/// secuencia se lee de vuelta del cuerpo del código).
pub proof fn ley_matriz_unico(prefijo: Seq<char>, s1: nat, s2: nat)
    requires
        prefijo_valido(prefijo),
        s1 < pow10((12 - prefijo.len()) as nat),
        s2 < pow10((12 - prefijo.len()) as nat),
        s1 != s2,
    ensures
        codigo_matriz(prefijo, s1) != codigo_matriz(prefijo, s2),
{
    let w = (12 - prefijo.len()) as nat;
    lema_decimal_ancho(s1, w);
    lema_decimal_ancho(s2, w);
    let c1 = codigo_matriz(prefijo, s1);
    let c2 = codigo_matriz(prefijo, s2);
    assert(c1.subrange(prefijo.len() as int, 12) =~= spec_decimal_ancho(s1, w));
    assert(c2.subrange(prefijo.len() as int, 12) =~= spec_decimal_ancho(s2, w));
}

/// El barcode por-ítem es un EAN-13 válido, porta el prefijo `21`, y su
/// discriminador y su peso se leen de vuelta de las posiciones 2–6 y 7–11.
pub proof fn ley_etiqueta_decodable(discriminador: nat, gramos: nat)
    requires
        discriminador < 100000,
        0 < gramos <= 99999,
    ensures
        es_ean13(codigo_etiqueta(discriminador, gramos)),
        codigo_etiqueta(discriminador, gramos).subrange(0, 2) == seq!['2', '1'],
        valor_decimal(codigo_etiqueta(discriminador, gramos).subrange(2, 7)) == discriminador,
        valor_decimal(codigo_etiqueta(discriminador, gramos).subrange(7, 12)) == gramos,
{
    assert(pow10(5) == 100000) by { reveal_with_fuel(pow10, 6); }
    lema_decimal_ancho(discriminador, 5);
    lema_decimal_ancho(gramos, 5);
    let p = seq!['2', '1'];
    assert(todos_digitos(p)) by {
        assert(es_digito(p[0]) && es_digito(p[1]));
    }
    let a = spec_decimal_ancho(discriminador, 5);
    let b = spec_decimal_ancho(gramos, 5);
    lema_concat_digitos(p, a);
    lema_concat_digitos(p + a, b);
    let base = p + a + b;
    lema_con_verificador(base);
    let c = codigo_etiqueta(discriminador, gramos);
    assert(c.subrange(0, 12) == base);
    assert(c.subrange(0, 2) =~= p);
    assert(c.subrange(2, 7) =~= a);
    assert(c.subrange(7, 12) =~= b);
}

/// Pesadas idénticas con discriminadores distintos dan barcodes distintos.
pub proof fn ley_etiqueta_unica(d1: nat, d2: nat, gramos: nat)
    requires
        d1 < 100000,
        d2 < 100000,
        d1 != d2,
        0 < gramos <= 99999,
    ensures
        codigo_etiqueta(d1, gramos) != codigo_etiqueta(d2, gramos),
{
    ley_etiqueta_decodable(d1, gramos);
    ley_etiqueta_decodable(d2, gramos);
}

} // verus!
