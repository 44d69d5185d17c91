//! Precios por `producto × sucursal × nivel`. "Congelado" es un estado
//! **derivado** de la ausencia de precio de menudeo vigente, no un flag.

use vstd::prelude::*;

use crate::tiempo::Instante;
use crate::unidades::Centavos;

verus! {

/// Nivel de precio.
#[derive(Debug, Clone, Copy, PartialEq, Eq, Structural, PartialOrd, Ord, Hash)]
pub enum Nivel {
    Menudeo,
    MedioMayoreo,
    Mayoreo,
}

impl Nivel {
    /// Los tres niveles, del menudeo al mayoreo.
    pub fn todos() -> (r: [Nivel; 3])
        ensures
            r@ == seq![Nivel::Menudeo, Nivel::MedioMayoreo, Nivel::Mayoreo],
    {
        [Nivel::Menudeo, Nivel::MedioMayoreo, Nivel::Mayoreo]
    }
}

/// Precio vigente para una combinación. A lo sumo uno por `(producto, sucursal,
/// nivel)`; la tabla se sobrescribe (el historial se reconstruye de la bitácora).
pub struct Precio {
    pub producto: u128,
    pub sucursal: u128,
    pub nivel: Nivel,
    pub monto: Centavos,
    pub actualizado: Instante,
}

/// ¿Figura el nivel entre los niveles con precio?
pub open spec fn tiene_nivel(niveles: Seq<Nivel>, nivel: Nivel) -> bool {
    niveles.contains(nivel)
}

fn contiene(niveles: &[Nivel], nivel: Nivel) -> (r: bool)
    ensures
        r == tiene_nivel(niveles@, nivel),
{
    let mut i: usize = 0;
    while i < niveles.len()
        invariant
            i <= niveles@.len(),
            forall|j: int| 0 <= j < i ==> niveles@[j] != nivel,
        decreases niveles@.len() - i,
    {
        if niveles[i] == nivel {
            return true;
        }
        i = i + 1;
    }
    false
}

/// ¿El producto está **congelado** (no vendible) en la sucursal? Lo está cuando
/// carece de precio de menudeo vigente (piso menudeo).
pub fn esta_congelado(niveles_con_precio: &[Nivel]) -> (r: bool)
    ensures
        r == !tiene_nivel(niveles_con_precio@, Nivel::Menudeo),
{
    !contiene(niveles_con_precio, Nivel::Menudeo)
}

/// ¿Se puede vender en ese nivel? Hay precio para el nivel y no está congelado.
pub fn vendible(niveles_con_precio: &[Nivel], nivel: Nivel) -> (r: bool)
    ensures
        r == (tiene_nivel(niveles_con_precio@, Nivel::Menudeo) && tiene_nivel(
            niveles_con_precio@,
            nivel,
        )),
{
    !esta_congelado(niveles_con_precio) && contiene(niveles_con_precio, nivel)
}

/// Un producto congelado no es vendible en ningún nivel; uno que no lo está es
/// vendible exactamente en los niveles con precio.
pub proof fn ley_congelado_no_vendible(niveles: Seq<Nivel>, nivel: Nivel)
    ensures
        !tiene_nivel(niveles, Nivel::Menudeo) ==> !(tiene_nivel(niveles, Nivel::Menudeo)
            && tiene_nivel(niveles, nivel)),
        tiene_nivel(niveles, Nivel::Menudeo) ==> ((tiene_nivel(niveles, Nivel::Menudeo)
            && tiene_nivel(niveles, nivel)) == tiene_nivel(niveles, nivel)),
{
}

} // verus!
