//! Folio de documentos: identificador humano `{código_sucursal}{tipo}{consecutivo}`
//! todo junto, sin separadores (p. ej. `SNJC56`), aparte del identificador técnico.

use vstd::prelude::*;
use vstd::string::StringExecFns;

use crate::barcode::{lema_decimal, valor_decimal};
use crate::sucursal::CodigoSucursal;
use crate::texto::{cadena, decimal, es_digito, spec_decimal};

verus! {

/// Tipo de documento foliable; cada tipo lleva una letra.
#[derive(Debug, Clone, Copy, PartialEq, Eq, Structural)]
pub enum TipoDocumento {
    Corte,
    Nota,
    Gasto,
    Envio,
}

/// La letra de cada tipo de documento.
pub open spec fn letra_de(t: TipoDocumento) -> char {
    match t {
        TipoDocumento::Corte => 'C',
        TipoDocumento::Nota => 'N',
        TipoDocumento::Gasto => 'G',
        TipoDocumento::Envio => 'E',
    }
}

/// El texto de un folio compuesto.
pub open spec fn spec_folio(codigo: Seq<char>, tipo: TipoDocumento, consecutivo: nat) -> Seq<char> {
    codigo + seq![letra_de(tipo)] + spec_decimal(consecutivo)
}

impl TipoDocumento {
    pub fn letra(self) -> (r: char)
        ensures
            r == letra_de(self),
    {
        match self {
            TipoDocumento::Corte => 'C',
            TipoDocumento::Nota => 'N',
            TipoDocumento::Gasto => 'G',
            TipoDocumento::Envio => 'E',
        }
    }

    /// La letra como texto.
    pub fn letra_texto(self) -> (r: &'static str)
        ensures
            r@ == seq![letra_de(self)],
    {
        proof {
            reveal_strlit("C");
            reveal_strlit("N");
            reveal_strlit("G");
            reveal_strlit("E");
        }
        match self {
            TipoDocumento::Corte => "C",
            TipoDocumento::Nota => "N",
            TipoDocumento::Gasto => "G",
            TipoDocumento::Envio => "E",
        }
    }
}

/// Folio legible ya compuesto.
#[derive(Debug, Clone, PartialEq, Eq)]
pub struct Folio {
    texto: String,
}

impl View for Folio {
    type V = Seq<char>;

    closed spec fn view(&self) -> Seq<char> {
        self.texto@
    }
}

impl Folio {
    /// Compone `{código}{letra}{consecutivo}` sin separadores.
    pub fn componer(codigo: &CodigoSucursal, tipo: TipoDocumento, consecutivo: u64) -> (r: Folio)
        ensures
            r@ == spec_folio(codigo@, tipo, consecutivo as nat),
    {
        let mut t = cadena(codigo.get());
        t.append(tipo.letra_texto());
        let n = decimal(consecutivo);
        t.append(n.as_str());
        Folio { texto: t }
    }

    /// Rehidrata un folio ya emitido desde su texto persistido.
    pub fn desde_texto(texto: String) -> (r: Folio)
        ensures
            r@ == texto@,
    {
        Folio { texto }
    }

    pub fn get(&self) -> (r: &str)
        ensures
            r@ == self@,
    {
        self.texto.as_str()
    }
}

/// Dos folios iguales vienen del mismo código, del mismo tipo y del mismo
/// consecutivo: la letra del tipo es el último carácter que no es dígito, así
/// que el texto se parte sin ambigüedad.
pub proof fn ley_folio_inyectivo(
    c1: Seq<char>,
    t1: TipoDocumento,
    n1: nat,
    c2: Seq<char>,
    t2: TipoDocumento,
    n2: nat,
)
    requires
        spec_folio(c1, t1, n1) == spec_folio(c2, t2, n2),
    ensures
        c1 == c2,
        t1 == t2,
        n1 == n2,
{
    let d1 = spec_decimal(n1);
    let d2 = spec_decimal(n2);
    lema_decimal(n1);
    lema_decimal(n2);
    let s = spec_folio(c1, t1, n1);
    assert(s == c1 + seq![letra_de(t1)] + d1);
    assert(s == c2 + seq![letra_de(t2)] + d2);
    assert(!es_digito(letra_de(t1)) && !es_digito(letra_de(t2)));
    if d1.len() < d2.len() {
        let p = c1.len() as int;
        assert(s[p] == letra_de(t1));
        assert(s[p] == d2[p - c2.len() - 1]);
        assert(es_digito(d2[p - c2.len() - 1]));
    } else if d2.len() < d1.len() {
        let p = c2.len() as int;
        assert(s[p] == letra_de(t2));
        assert(s[p] == d1[p - c1.len() - 1]);
        assert(es_digito(d1[p - c1.len() - 1]));
    }
    assert(c1.len() == c2.len());
    assert(c1 =~= s.subrange(0, c1.len() as int));
    assert(c2 =~= s.subrange(0, c2.len() as int));
    assert(s[c1.len() as int] == letra_de(t1));
    assert(s[c2.len() as int] == letra_de(t2));
    assert(d1 =~= s.subrange(c1.len() as int + 1, s.len() as int));
    assert(d2 =~= s.subrange(c2.len() as int + 1, s.len() as int));
}

} // verus!
