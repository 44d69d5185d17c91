//! Unidades enteras extremo a extremo — nunca `float`.
//!
//! - Dinero en **centavos** (2 decimales).
//! - Peso en **gramos** (3 decimales de kg).

use vstd::prelude::*;
use vstd::string::StringExecFns;

use crate::texto::{cadena, decimal, decimal_ancho, decimal_con_signo, spec_decimal, spec_decimal_ancho, spec_decimal_con_signo};

verus! {

/// Importe monetario entero en **centavos**.
#[derive(Debug, Clone, Copy, PartialEq, Eq, Structural, PartialOrd, Ord, Hash)]
pub struct Centavos(pub i64);

/// Importe por peso: `precio/kg × gramos ÷ 1000` redondeado a centavos medio
/// hacia arriba (valores no negativos).
pub open spec fn spec_importe_por_peso(precio_kg: int, gramos: int) -> int {
    (precio_kg * gramos + 500) / 1000
}

/// Suma de una lista de importes.
pub open spec fn suma_centavos(lineas: Seq<Centavos>) -> int
    decreases lineas.len(),
{
    if lineas.len() == 0 {
        0
    } else {
        suma_centavos(lineas.drop_last()) + lineas.last().0
    }
}

/// División entera truncada hacia cero, como la de Rust.
pub open spec fn div_trunc(a: int, b: int) -> int {
    if a >= 0 {
        a / b
    } else {
        -((-a) / b)
    }
}

/// Texto de un importe: signo, pesos, punto y dos dígitos de centavos.
pub open spec fn spec_texto_centavos(c: int) -> Seq<char> {
    let abs = if c < 0 { -c } else { c };
    let signo = if c < 0 { seq!['-'] } else { Seq::<char>::empty() };
    signo + spec_decimal((abs / 100) as nat) + seq!['.'] + spec_decimal_ancho((abs % 100) as nat, 2)
}

/// Texto de un peso: kilogramos (truncados hacia cero), punto, tres dígitos de
/// gramos y ` kg`.
pub open spec fn spec_texto_gramos(g: int) -> Seq<char> {
    let abs = if g < 0 { -g } else { g };
    spec_decimal_con_signo(div_trunc(g, 1000)) + seq!['.'] + spec_decimal_ancho((abs % 1000) as nat, 3)
        + seq![' ', 'k', 'g']
}

impl Centavos {
    /// Cero centavos.
    pub fn cero() -> (r: Centavos)
        ensures
            r.0 == 0,
    {
        Centavos(0)
    }

    pub fn new(centavos: i64) -> (r: Centavos)
        ensures
            r.0 == centavos,
    {
        Centavos(centavos)
    }

    /// Construye desde pesos y centavos (p. ej. `de_pesos(12, 40)` = $12.40).
    pub fn de_pesos(pesos: i64, centavos: i64) -> (r: Centavos)
        requires
            i64::MIN <= pesos * 100 <= i64::MAX,
            i64::MIN <= pesos * 100 + centavos <= i64::MAX,
        ensures
            r.0 == pesos * 100 + centavos,
    {
        Centavos(pesos * 100 + centavos)
    }

    pub fn get(self) -> (r: i64)
        ensures
            r == self.0,
    {
        self.0
    }

    /// Importe de una venta por peso: `precio/kg × gramos ÷ 1000`, redondeado a
    /// centavos **medio hacia arriba**. `self` es el precio por kilogramo.
    pub fn importe_por_peso(self, peso: Gramos) -> (r: Centavos)
        requires
            self.0 >= 0,
            peso.0 >= 0,
            self.0 * peso.0 + 500 <= i64::MAX,
        ensures
            r.0 == spec_importe_por_peso(self.0 as int, peso.0 as int),
    {
        proof {
            assert(self.0 * peso.0 >= 0) by (nonlinear_arith)
                requires
                    self.0 >= 0,
                    peso.0 >= 0,
            ;
        }
        let bruto = self.0 * peso.0;
        Centavos((bruto + 500) / 1000)
    }

    /// `self + otro`.
    pub fn mas(self, otro: Centavos) -> (r: Centavos)
        requires
            i64::MIN <= self.0 + otro.0 <= i64::MAX,
        ensures
            r.0 == self.0 + otro.0,
    {
        Centavos(self.0 + otro.0)
    }

    /// `self − otro`.
    pub fn menos(self, otro: Centavos) -> (r: Centavos)
        requires
            i64::MIN <= self.0 - otro.0 <= i64::MAX,
        ensures
            r.0 == self.0 - otro.0,
    {
        Centavos(self.0 - otro.0)
    }

    /// El total de varias líneas ya redondeadas.
    pub fn suma(lineas: &[Centavos]) -> (r: Centavos)
        requires
            forall|k: int|
                0 <= k <= lineas@.len() ==> i64::MIN <= #[trigger] suma_centavos(
                    lineas@.subrange(0, k),
                ) <= i64::MAX,
        ensures
            r.0 == suma_centavos(lineas@),
    {
        let mut total: i64 = 0;
        let mut i: usize = 0;
        assert(lineas@.subrange(0, 0) =~= Seq::<Centavos>::empty());
        while i < lineas.len()
            invariant
                i <= lineas@.len(),
                total == suma_centavos(lineas@.subrange(0, i as int)),
                forall|k: int|
                    0 <= k <= lineas@.len() ==> i64::MIN <= #[trigger] suma_centavos(
                        lineas@.subrange(0, k),
                    ) <= i64::MAX,
            decreases lineas@.len() - i,
        {
            assert(lineas@.subrange(0, i + 1).drop_last() =~= lineas@.subrange(0, i as int));
            assert(suma_centavos(lineas@.subrange(0, i + 1)) == total + lineas@[i as int].0);
            total = total + lineas[i].0;
            i = i + 1;
        }
        assert(lineas@.subrange(0, lineas@.len() as int) =~= lineas@);
        Centavos(total)
    }

    /// El importe como texto: `12.40`, `0.05`, `-0.50`.
    pub fn texto(&self) -> (r: String)
        requires
            self.0 > i64::MIN,
        ensures
            r@ == spec_texto_centavos(self.0 as int),
    {
        let abs: i64 = if self.0 < 0 { -self.0 } else { self.0 };
        let mut r = if self.0 < 0 { cadena("-") } else { String::new() };
        proof {
            reveal_strlit("-");
            reveal_strlit(".");
        }
        let pesos = decimal((abs / 100) as u64);
        r.append(pesos.as_str());
        r.append(".");
        let cent = decimal_ancho((abs % 100) as u64, 2);
        r.append(cent.as_str());
        r
    }
}

impl core::ops::Add for Centavos {
    type Output = Centavos;

    fn add(self, otro: Centavos) -> (r: Centavos) {
        Centavos(self.0 + otro.0)
    }
}

impl vstd::std_specs::ops::AddSpecImpl for Centavos {
    open spec fn obeys_add_spec() -> bool {
        true
    }

    open spec fn add_req(self, otro: Centavos) -> bool {
        i64::MIN <= self.0 + otro.0 <= i64::MAX
    }

    open spec fn add_spec(self, otro: Centavos) -> Centavos {
        Centavos((self.0 + otro.0) as i64)
    }
}

impl core::ops::Sub for Centavos {
    type Output = Centavos;

    fn sub(self, otro: Centavos) -> (r: Centavos) {
        Centavos(self.0 - otro.0)
    }
}

impl vstd::std_specs::ops::SubSpecImpl for Centavos {
    open spec fn obeys_sub_spec() -> bool {
        true
    }

    open spec fn sub_req(self, otro: Centavos) -> bool {
        i64::MIN <= self.0 - otro.0 <= i64::MAX
    }

    open spec fn sub_spec(self, otro: Centavos) -> Centavos {
        Centavos((self.0 - otro.0) as i64)
    }
}

impl Default for Centavos {
    fn default() -> (r: Centavos)
        ensures
            r.0 == 0,
    {
        Centavos(0)
    }
}

/// Peso entero en **gramos** (= 3 decimales de kilogramo).
#[derive(Debug, Clone, Copy, PartialEq, Eq, Structural, PartialOrd, Ord, Hash)]
pub struct Gramos(pub i64);

impl Gramos {
    /// Cero gramos.
    pub fn cero() -> (r: Gramos)
        ensures
            r.0 == 0,
    {
        Gramos(0)
    }

    pub fn new(gramos: i64) -> (r: Gramos)
        ensures
            r.0 == gramos,
    {
        Gramos(gramos)
    }

    pub fn get(self) -> (r: i64)
        ensures
            r == self.0,
    {
        self.0
    }

    /// El peso como texto: `1.250 kg`.
    pub fn texto(&self) -> (r: String)
        requires
            self.0 > i64::MIN,
        ensures
            r@ == spec_texto_gramos(self.0 as int),
    {
        let kg = decimal_con_signo(self.0 / 1000);
        let abs: i64 = if self.0 < 0 { -self.0 } else { self.0 };
        let mut r = kg;
        proof {
            reveal_strlit(".");
            reveal_strlit(" kg");
        }
        r.append(".");
        let g = decimal_ancho((abs % 1000) as u64, 3);
        r.append(g.as_str());
        r.append(" kg");
        r
    }
}

impl core::ops::Add for Gramos {
    type Output = Gramos;

    fn add(self, otro: Gramos) -> (r: Gramos) {
        Gramos(self.0 + otro.0)
    }
}

impl vstd::std_specs::ops::AddSpecImpl for Gramos {
    open spec fn obeys_add_spec() -> bool {
        true
    }

    open spec fn add_req(self, otro: Gramos) -> bool {
        i64::MIN <= self.0 + otro.0 <= i64::MAX
    }

    open spec fn add_spec(self, otro: Gramos) -> Gramos {
        Gramos((self.0 + otro.0) as i64)
    }
}

} // verus!
