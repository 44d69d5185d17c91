//! Tiempo: instante en **UTC capturado en el nodo**; la zona local solo sirve
//! para presentar y para definir "el día". Las zonas son identificadores IANA.

use vstd::prelude::*;
use vstd::string::StringExecFns;

use crate::error::ErrorDominio;
use crate::texto::{cadena, concatenar, decimal_ancho, spec_decimal_ancho};
use crate::unidades::div_trunc;

verus! {

/// Zona horaria por defecto de una sucursal.
pub const ZONA_POR_DEFECTO: &'static str = "America/Mexico_City";

/// Menor instante representable, en nanosegundos desde la época UNIX.
pub open spec fn nanos_min() -> int {
    -377705023201000000000
}

/// Mayor instante representable, en nanosegundos desde la época UNIX.
pub open spec fn nanos_max() -> int {
    253402207200999999999
}

pub open spec fn nanos_validos(n: int) -> bool {
    nanos_min() <= n <= nanos_max()
}

/// Instante en UTC, con precisión de nanosegundos.
#[derive(Debug, Clone, Copy, PartialEq, Eq, Structural)]
pub struct Instante {
    nanos: i128,
}

impl View for Instante {
    type V = int;

    closed spec fn view(&self) -> int {
        self.nanos as int
    }
}

/// Los segundos enteros (truncados hacia cero) de un instante en nanosegundos.
pub open spec fn segundos_de(nanos: int) -> int {
    div_trunc(nanos, 1_000_000_000)
}

/// El día civil local (año, mes, día) del instante `nanos` en la zona IANA
/// `iana`, según la base de zonas que viaja dentro del binario; si la zona no
/// existe, en UTC.
pub uninterp spec fn dia_civil(nanos: int, iana: Seq<char>) -> (int, int, int);

/// ¿Existe la zona IANA `iana` en la base de zonas que viaja dentro del binario?
pub uninterp spec fn es_zona_iana(iana: Seq<char>) -> bool;

/// El instante `nanos` escrito en RFC 3339 (UTC, con la fracción de segundo
/// que haga falta), como lo escribe la crate de tiempo.
pub uninterp spec fn texto_rfc3339(nanos: int) -> Seq<char>;

/// Lee el reloj del nodo (`jiff::Timestamp::now`). Se afirma solo que el valor
/// cae en el rango de instantes representables (un `Timestamp` siempre lo está).
#[verifier::external_body]
fn reloj_nanos() -> (r: i128)
    ensures
        nanos_validos(r as int),
{
    jiff::Timestamp::now().as_nanosecond()
}

/// Escribe el instante con el `Display` de `jiff::Timestamp`.
#[verifier::external_body]
fn escribir_rfc3339(nanos: i128) -> (r: String)
    requires
        nanos_validos(nanos as int),
    ensures
        r@ == texto_rfc3339(nanos as int),
{
    jiff::Timestamp::from_nanosecond(nanos).unwrap().to_string()
}

/// El instante, en nanosegundos, que denota un texto según el `FromStr` de
/// `jiff::Timestamp`, si alguno.
pub uninterp spec fn instante_leido(s: Seq<char>) -> Option<int>;

/// El texto del error con que `jiff::Timestamp` rechaza leer `s`.
pub uninterp spec fn error_instante(s: Seq<char>) -> Seq<char>;

/// Lee un instante con el `FromStr` de `jiff::Timestamp` (sus nanosegundos), o
/// el texto del error. Un `Timestamp` siempre cae en el rango representable, y
/// lo que escribe su `Display` se lee de vuelta como el mismo instante.
#[verifier::external_body]
fn leer_rfc3339(s: &str) -> (r: Result<i128, String>)
    ensures
        r matches Ok(n) ==> nanos_validos(n as int) && instante_leido(s@) == Some(n as int),
        r matches Err(t) ==> instante_leido(s@) is None && t@ == error_instante(s@),
        (exists|n: i128| nanos_validos(n as int) && s@ == texto_rfc3339(n as int)) ==> (r matches Ok(
            m,
        ) && forall|n: i128| nanos_validos(n as int) && s@ == texto_rfc3339(n as int) ==> n == m),
{
    match s.parse::<jiff::Timestamp>() {
        Ok(t) => Ok(t.as_nanosecond()),
        Err(e) => Err(e.to_string()),
    }
}

/// La fecha civil que denota un texto según el `FromStr` de
/// `jiff::civil::Date`, si alguna.
pub uninterp spec fn fecha_leida(s: Seq<char>) -> Option<(int, int, int)>;

/// El texto del error con que `jiff::civil::Date` rechaza leer `s`.
pub uninterp spec fn error_fecha(s: Seq<char>) -> Seq<char>;

/// `jiff::tz::TimeZone::get` con la base de zonas embebida: ¿existe la zona?
#[verifier::external_body]
fn zona_existe(iana: &str) -> (r: bool)
    ensures
        r == es_zona_iana(iana@),
{
    jiff::tz::TimeZone::get(iana).is_ok()
}

/// El día civil del instante en la zona (`Timestamp::to_zoned(tz).date()`),
/// con la zona resuelta por `TimeZone::get` y UTC si no existe. Un `Date` de
/// jiff siempre es una fecha válida, que es lo que exige `Fecha`.
#[verifier::external_body]
fn dia_en_zona(nanos: i128, iana: &str) -> (r: Fecha)
    requires
        nanos_validos(nanos as int),
    ensures
        r@ == dia_civil(nanos as int, iana@),
{
    let tz = jiff::tz::TimeZone::get(iana).unwrap_or(jiff::tz::TimeZone::UTC);
    let d = jiff::Timestamp::from_nanosecond(nanos).unwrap().to_zoned(tz).date();
    Fecha { anio: d.year(), mes: d.month(), dia: d.day() }
}

impl Instante {
    #[verifier::type_invariant]
    spec fn en_rango(&self) -> bool {
        nanos_validos(self.nanos as int)
    }

    /// Captura el instante actual **en el nodo**.
    pub fn ahora() -> (r: Instante)
        ensures
            nanos_validos(r@),
    {
        Instante { nanos: reloj_nanos() }
    }

    /// Los nanosegundos desde la época UNIX.
    pub fn timestamp(self) -> (r: i128)
        ensures
            r == self@,
            nanos_validos(r as int),
    {
        proof {
            use_type_invariant(&self);
        }
        self.nanos
    }

    /// El instante a `nanos` nanosegundos de la época UNIX.
    pub fn desde_timestamp(nanos: i128) -> (r: Instante)
        requires
            nanos_validos(nanos as int),
        ensures
            r@ == nanos,
    {
        Instante { nanos }
    }

    /// Segundos enteros transcurridos desde la época UNIX (truncados hacia cero).
    pub fn segundos_epoch(self) -> (r: i64)
        ensures
            r == segundos_de(self@),
            -400000000000 <= r <= 300000000000,
    {
        proof {
            use_type_invariant(&self);
        }
        (self.nanos / 1_000_000_000) as i64
    }

    /// Lee un instante escrito en RFC 3339; si no se puede, el texto del error.
    pub fn leer(s: &str) -> (r: Result<Instante, String>)
        ensures
            r matches Ok(i) ==> instante_leido(s@) == Some(i@),
            r matches Err(t) ==> instante_leido(s@) is None && t@ == error_instante(s@),
            forall|n: int| nanos_validos(n) && #[trigger] texto_rfc3339(n) == s@ ==> (r matches Ok(i)
                && i@ == n),
    {
        match leer_rfc3339(s) {
            Ok(n) => Ok(Instante { nanos: n }),
            Err(t) => Err(t),
        }
    }

    /// El **día natural local** de la sucursal.
    pub fn dia_local(self, zona: &ZonaHoraria) -> (r: Fecha)
        ensures
            r@ == dia_civil(self@, zona@),
    {
        proof {
            use_type_invariant(&self);
        }
        dia_en_zona(self.nanos, zona.iana.as_str())
    }

    /// El instante en RFC 3339.
    pub fn texto(self) -> (r: String)
        ensures
            r@ == texto_rfc3339(self@),
    {
        proof {
            use_type_invariant(&self);
        }
        escribir_rfc3339(self.nanos)
    }
}

/// Zona horaria de una sucursal (identificador IANA).
#[derive(Debug, Clone, PartialEq, Eq)]
pub struct ZonaHoraria {
    iana: String,
}

impl View for ZonaHoraria {
    type V = Seq<char>;

    closed spec fn view(&self) -> Seq<char> {
        self.iana@
    }
}

impl ZonaHoraria {
    /// Valida el identificador IANA contra la base de zonas.
    pub fn nueva(iana: &str) -> (r: Result<ZonaHoraria, ErrorDominio>)
        ensures
            es_zona_iana(iana@) ==> (r matches Ok(z) && z@ == iana@),
            !es_zona_iana(iana@) ==> (r matches Err(ErrorDominio::Invalido(m)) && m@
                == "zona horaria IANA desconocida: "@ + iana@),
    {
        if !zona_existe(iana) {
            return Err(ErrorDominio::Invalido(concatenar("zona horaria IANA desconocida: ", iana)));
        }
        Ok(ZonaHoraria { iana: cadena(iana) })
    }

    pub fn iana(&self) -> (r: &str)
        ensures
            r@ == self@,
    {
        self.iana.as_str()
    }
}

impl Default for ZonaHoraria {
    fn default() -> (r: ZonaHoraria)
        ensures
            r@ == ZONA_POR_DEFECTO@,
    {
        ZonaHoraria { iana: cadena(ZONA_POR_DEFECTO) }
    }
}

/// ¿Es bisiesto el año (calendario gregoriano proléptico)?
pub open spec fn es_bisiesto(anio: int) -> bool {
    anio % 4 == 0 && (anio % 100 != 0 || anio % 400 == 0)
}

/// Días del mes `mes` (1–12) del año `anio`.
pub open spec fn dias_del_mes(anio: int, mes: int) -> int {
    if mes == 2 {
        if es_bisiesto(anio) {
            29
        } else {
            28
        }
    } else if mes == 4 || mes == 6 || mes == 9 || mes == 11 {
        30
    } else {
        31
    }
}

/// Una fecha civil con año en `-9999..=9999`, mes `1..=12` y día existente.
pub open spec fn fecha_valida(f: (int, int, int)) -> bool {
    &&& -9999 <= f.0 <= 9999
    &&& 1 <= f.1 <= 12
    &&& 1 <= f.2 <= dias_del_mes(f.0, f.1)
}

/// Suma `meses` calendáricos: el mes y el año avanzan y el día se recorta al
/// último del mes destino si no existe; `None` si el año sale de rango.
pub open spec fn sumar_meses(f: (int, int, int), meses: int) -> Option<(int, int, int)> {
    let total = f.1 - 1 + meses;
    let anio = f.0 + total / 12;
    let mes = total % 12 + 1;
    if -9999 <= anio <= 9999 {
        let tope = dias_del_mes(anio, mes);
        Some((anio, mes, if f.2 <= tope { f.2 } else { tope }))
    } else {
        None
    }
}

/// `a` no es posterior a `b` (orden cronológico).
pub open spec fn no_posterior(a: (int, int, int), b: (int, int, int)) -> bool {
    a.0 < b.0 || (a.0 == b.0 && (a.1 < b.1 || (a.1 == b.1 && a.2 <= b.2)))
}

/// El texto ISO 8601 de una fecha: `AAAA-MM-DD` (años negativos con `-00`
/// delante del año a cuatro dígitos).
pub open spec fn spec_texto_iso(f: (int, int, int)) -> Seq<char> {
    let signo = if f.0 < 0 { seq!['-', '0', '0'] } else { Seq::<char>::empty() };
    let abs = if f.0 < 0 { -f.0 } else { f.0 };
    signo + spec_decimal_ancho(abs as nat, 4) + seq!['-'] + spec_decimal_ancho(f.1 as nat, 2) + seq![
        '-',
    ] + spec_decimal_ancho(f.2 as nat, 2)
}

/// Una fecha como se imprime en la etiqueta: `DD/MM/AAAA`.
pub open spec fn spec_texto_etiqueta(f: (int, int, int)) -> Seq<char> {
    spec_decimal_ancho(f.2 as nat, 2) + seq!['/'] + spec_decimal_ancho(f.1 as nat, 2) + seq!['/']
        + spec_decimal_ancho_con_signo(f.0, 4)
}

/// Ancho mínimo con signo, como `{:04}` de Rust: el signo cuenta en el ancho.
pub open spec fn spec_decimal_ancho_con_signo(n: int, ancho: nat) -> Seq<char> {
    if n < 0 {
        seq!['-'] + spec_decimal_ancho((-n) as nat, (if ancho >= 1 { ancho - 1 } else { 0 }) as nat)
    } else {
        spec_decimal_ancho(n as nat, ancho)
    }
}

/// Fecha civil.
#[derive(Debug, Clone, Copy, PartialEq, Eq, Structural)]
pub struct Fecha {
    anio: i16,
    mes: i8,
    dia: i8,
}

impl View for Fecha {
    type V = (int, int, int);

    closed spec fn view(&self) -> (int, int, int) {
        (self.anio as int, self.mes as int, self.dia as int)
    }
}

/// El texto del error con que la crate de tiempo rechaza sumar `meses` meses a
/// `fecha` (su `Display`).
pub uninterp spec fn error_suma_meses(fecha: (int, int, int), meses: int) -> Seq<char>;

/// `jiff::civil::Date::checked_add` con un `Span` de `meses` meses: el mes
/// avanza con acarreo de año, el día se recorta al último del mes destino, y
/// es error si el año resultante sale de `-9999..=9999` (así lo calcula
/// `checked_add_span` en la fuente, y así lo muestran sus ejemplos); el error
/// se devuelve escrito. `Span::months` entra en pánico fuera de
/// `-239976..=239976`.
#[verifier::external_body]
fn sumar_meses_jiff(f: Fecha, meses: i64) -> (r: Result<Fecha, String>)
    requires
        -239976 <= meses <= 239976,
    ensures
        r matches Ok(g) ==> sumar_meses(f@, meses as int) == Some(g@),
        r matches Err(t) ==> sumar_meses(f@, meses as int) is None && t@ == error_suma_meses(
            f@,
            meses as int,
        ),
{
    let d = jiff::civil::Date::new(f.anio, f.mes, f.dia).unwrap();
    match d.checked_add(jiff::Span::new().months(meses)) {
        Ok(g) => Ok(Fecha { anio: g.year(), mes: g.month(), dia: g.day() }),
        Err(e) => Err(e.to_string()),
    }
}

/// Lee una fecha con el `FromStr` de `jiff::civil::Date`, o el texto del
/// error. Un `Date` siempre es una fecha válida, y lo que escribe su `Display`
/// (`AAAA-MM-DD`) se lee de vuelta como la misma fecha.
#[verifier::external_body]
fn leer_fecha_iso(s: &str) -> (r: Result<Fecha, String>)
    ensures
        r matches Ok(f) ==> fecha_leida(s@) == Some(f@),
        r matches Err(t) ==> fecha_leida(s@) is None && t@ == error_fecha(s@),
        (exists|f: (int, int, int)| fecha_valida(f) && s@ == spec_texto_iso(f)) ==> (r matches Ok(
            g,
        ) && forall|f: (int, int, int)| fecha_valida(f) && s@ == spec_texto_iso(f) ==> f == g@),
{
    match s.parse::<jiff::civil::Date>() {
        Ok(d) => Ok(Fecha { anio: d.year(), mes: d.month(), dia: d.day() }),
        Err(e) => Err(e.to_string()),
    }
}

/// El día siguiente en el calendario.
pub open spec fn dia_siguiente(f: (int, int, int)) -> (int, int, int) {
    if f.2 < dias_del_mes(f.0, f.1) {
        (f.0, f.1, f.2 + 1)
    } else if f.1 < 12 {
        (f.0, f.1 + 1, 1)
    } else {
        (f.0 + 1, 1, 1)
    }
}

/// Suma `dias` días de calendario; `None` si el año pasa de 9999.
pub open spec fn sumar_dias(f: (int, int, int), dias: nat) -> Option<(int, int, int)>
    decreases dias,
{
    if dias == 0 {
        Some(f)
    } else {
        match sumar_dias(f, (dias - 1) as nat) {
            Some(g) => if dia_siguiente(g).0 <= 9999 {
                Some(dia_siguiente(g))
            } else {
                None
            },
            None => None,
        }
    }
}

/// El texto del error con que la crate de tiempo rechaza sumar `dias` días a
/// `fecha` (su `Display`).
pub uninterp spec fn error_suma_dias(fecha: (int, int, int), dias: int) -> Seq<char>;

/// `jiff::civil::Date::checked_add` con un `Span` de `dias` días: avanza día a
/// día por el calendario gregoriano y es error si el año pasa de 9999; el
/// error se devuelve escrito. `Span::days` entra en pánico fuera de
/// `-7304484..=7304484`.
#[verifier::external_body]
fn sumar_dias_jiff(f: Fecha, dias: i64) -> (r: Result<Fecha, String>)
    requires
        0 <= dias <= 7304484,
    ensures
        r matches Ok(g) ==> sumar_dias(f@, dias as nat) == Some(g@),
        r matches Err(t) ==> sumar_dias(f@, dias as nat) is None && t@ == error_suma_dias(
            f@,
            dias as int,
        ),
{
    let d = jiff::civil::Date::new(f.anio, f.mes, f.dia).unwrap();
    match d.checked_add(jiff::Span::new().days(dias)) {
        Ok(g) => Ok(Fecha { anio: g.year(), mes: g.month(), dia: g.day() }),
        Err(e) => Err(e.to_string()),
    }
}

/// Una fecha escrita como el número `AAAAMMDD` (con el signo del año).
pub open spec fn numero_de_fecha(f: (int, int, int)) -> int {
    f.0 * 10000 + f.1 * 100 + f.2
}

/// El orden de `no_posterior` es el de los números `AAAAMMDD`: entre fechas
/// válidas, `a` no es posterior a `b` exactamente cuando el número de `a` no
/// pasa del de `b` (el día cuenta dentro del mismo mes).
pub proof fn ley_no_posterior_es_orden_numerico(a: (int, int, int), b: (int, int, int))
    requires
        fecha_valida(a),
        fecha_valida(b),
    ensures
        no_posterior(a, b) <==> numero_de_fecha(a) <= numero_de_fecha(b),
{
}

/// El día siguiente de una fecha válida es posterior a ella, y válido si el
/// año no pasa de 9999.
proof fn lema_dia_siguiente(f: (int, int, int))
    requires
        fecha_valida(f),
    ensures
        numero_de_fecha(f) < numero_de_fecha(dia_siguiente(f)),
        dia_siguiente(f).0 <= 9999 ==> fecha_valida(dia_siguiente(f)),
{
}

/// Sumar días avanza en el calendario y da fechas válidas.
proof fn lema_sumar_dias_avanza(f: (int, int, int), dias: nat)
    requires
        fecha_valida(f),
        sumar_dias(f, dias) is Some,
    ensures
        fecha_valida(sumar_dias(f, dias)->0),
        numero_de_fecha(f) + (if dias > 0 { 1int } else { 0int }) <= numero_de_fecha(
            sumar_dias(f, dias)->0,
        ),
    decreases dias,
{
    if dias > 0 {
        lema_sumar_dias_avanza(f, (dias - 1) as nat);
        let g = sumar_dias(f, (dias - 1) as nat)->0;
        lema_dia_siguiente(g);
    }
}

/// `no_posterior` es el orden cronológico: una fecha no es posterior a la que
/// resulta de sumarle días, y la que resulta de sumarle al menos un día es
/// posterior a ella (nunca "no posterior").
pub proof fn ley_no_posterior_es_cronologico(f: (int, int, int), dias: nat)
    requires
        fecha_valida(f),
        sumar_dias(f, dias) is Some,
    ensures
        no_posterior(f, sumar_dias(f, dias)->0),
        dias > 0 ==> !no_posterior(sumar_dias(f, dias)->0, f),
{
    lema_sumar_dias_avanza(f, dias);
    ley_no_posterior_es_orden_numerico(f, sumar_dias(f, dias)->0);
    ley_no_posterior_es_orden_numerico(sumar_dias(f, dias)->0, f);
}

impl Fecha {
    #[verifier::type_invariant]
    spec fn valida(&self) -> bool {
        fecha_valida(self@)
    }

    /// Construye la fecha si existe.
    pub fn nueva(anio: i16, mes: i8, dia: i8) -> (r: Option<Fecha>)
        ensures
            fecha_valida((anio as int, mes as int, dia as int)) <==> r is Some,
            r matches Some(f) ==> f@ == (anio as int, mes as int, dia as int),
    {
        if anio < -9999 || anio > 9999 || mes < 1 || mes > 12 || dia < 1 {
            return None;
        }
        let bisiesto = anio % 4 == 0 && (anio % 100 != 0 || anio % 400 == 0);
        let tope: i8 = if mes == 2 {
            if bisiesto {
                29
            } else {
                28
            }
        } else if mes == 4 || mes == 6 || mes == 9 || mes == 11 {
            30
        } else {
            31
        };
        assert(bisiesto == es_bisiesto(anio as int));
        if dia > tope {
            return None;
        }
        Some(Fecha { anio, mes, dia })
    }

    pub fn anio(&self) -> (r: i16)
        ensures
            r == self@.0,
    {
        self.anio
    }

    pub fn mes(&self) -> (r: i8)
        ensures
            r == self@.1,
    {
        self.mes
    }

    pub fn dia(&self) -> (r: i8)
        ensures
            r == self@.2,
    {
        self.dia
    }

    /// Suma meses calendáricos; si el año sale de rango, el texto del error.
    pub fn sumar_meses(self, meses: i64) -> (r: Result<Fecha, String>)
        requires
            -239976 <= meses <= 239976,
        ensures
            r matches Ok(g) ==> sumar_meses(self@, meses as int) == Some(g@),
            r matches Err(t) ==> sumar_meses(self@, meses as int) is None && t@
                == error_suma_meses(self@, meses as int),
    {
        sumar_meses_jiff(self, meses)
    }

    /// Lee una fecha `AAAA-MM-DD`; si no se puede, el texto del error.
    pub fn leer(s: &str) -> (r: Result<Fecha, String>)
        ensures
            r matches Ok(f) ==> fecha_leida(s@) == Some(f@),
            r matches Err(t) ==> fecha_leida(s@) is None && t@ == error_fecha(s@),
            forall|f: (int, int, int)| fecha_valida(f) && #[trigger] spec_texto_iso(f) == s@ ==> (
            r matches Ok(g) && g@ == f),
    {
        leer_fecha_iso(s)
    }

    /// Suma días de calendario; si el año pasa de 9999, el texto del error.
    pub fn sumar_dias(self, dias: i64) -> (r: Result<Fecha, String>)
        requires
            0 <= dias <= 7304484,
        ensures
            r matches Ok(g) ==> sumar_dias(self@, dias as nat) == Some(g@),
            r matches Err(t) ==> sumar_dias(self@, dias as nat) is None && t@ == error_suma_dias(
                self@,
                dias as int,
            ),
    {
        sumar_dias_jiff(self, dias)
    }

    /// `self` no es posterior a `otra`.
    pub fn no_posterior_a(&self, otra: &Fecha) -> (r: bool)
        ensures
            r == no_posterior(self@, otra@),
            r == (numero_de_fecha(self@) <= numero_de_fecha(otra@)),
    {
        proof {
            use_type_invariant(self);
            use_type_invariant(otra);
            ley_no_posterior_es_orden_numerico(self@, otra@);
        }
        self.anio < otra.anio || (self.anio == otra.anio && (self.mes < otra.mes || (self.mes
            == otra.mes && self.dia <= otra.dia)))
    }

    /// `AAAA-MM-DD`.
    pub fn texto_iso(&self) -> (r: String)
        ensures
            r@ == spec_texto_iso(self@),
    {
        proof {
            use_type_invariant(self);
            reveal_strlit("-00");
            reveal_strlit("-");
        }
        let mut r = if self.anio < 0 { cadena("-00") } else { String::new() };
        let abs: i64 = if self.anio < 0 { -(self.anio as i64) } else { self.anio as i64 };
        let a = decimal_ancho(abs as u64, 4);
        r.append(a.as_str());
        r.append("-");
        let m = decimal_ancho(self.mes as u64, 2);
        r.append(m.as_str());
        r.append("-");
        let d = decimal_ancho(self.dia as u64, 2);
        r.append(d.as_str());
        r
    }

    /// `DD/MM/AAAA`, como se imprime la caducidad.
    pub fn texto_etiqueta(&self) -> (r: String)
        ensures
            r@ == spec_texto_etiqueta(self@),
    {
        proof {
            use_type_invariant(self);
            reveal_strlit("/");
            reveal_strlit("-");
        }
        let mut r = decimal_ancho(self.dia as u64, 2);
        r.append("/");
        let m = decimal_ancho(self.mes as u64, 2);
        r.append(m.as_str());
        r.append("/");
        if self.anio < 0 {
            r.append("-");
            let a = decimal_ancho((-(self.anio as i64)) as u64, 3);
            r.append(a.as_str());
        } else {
            let a = decimal_ancho(self.anio as u64, 4);
            r.append(a.as_str());
        }
        r
    }
}

} // verus!
