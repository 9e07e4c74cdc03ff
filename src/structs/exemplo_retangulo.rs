//! A área de um retângulo em três versões: variáveis soltas, tupla e struct.

use vstd::prelude::*;

verus! {

/// A área a partir de duas variáveis soltas. O produto precisa caber em `u32`.
pub fn area_v1(width: u32, height: u32) -> (r: u32)
    requires
        width * height <= u32::MAX,
    ensures
        r == width * height,
{
    width * height
}

/// A área a partir de uma tupla (largura, altura).
pub fn area_v2(dimensions: (u32, u32)) -> (r: u32)
    requires
        dimensions.0 * dimensions.1 <= u32::MAX,
    ensures
        r == dimensions.0 * dimensions.1,
{
    dimensions.0 * dimensions.1
}

/// Um retângulo com campos nomeados.
#[derive(Debug, Clone, Copy, PartialEq, Eq, Structural)]
pub struct Rectangle {
    pub width: u32,
    pub height: u32,
}

/// A área de um retângulo emprestado: ler os campos não move o valor.
pub fn area_v3(rectangle: &Rectangle) -> (r: u32)
    requires
        rectangle.width * rectangle.height <= u32::MAX,
    ensures
        r == rectangle.width * rectangle.height,
{
    rectangle.width * rectangle.height
}

/// A área de 30 por 50 com variáveis soltas.
pub fn com_variaveis_soltas() -> (r: u32)
    ensures
        r == 1500,
{
    let width1: u32 = 30;
    let height1: u32 = 50;
    area_v1(width1, height1)
}

/// A área de 30 por 50 com uma tupla.
pub fn com_tuplas() -> (r: u32)
    ensures
        r == 1500,
{
    let rect1: (u32, u32) = (30, 50);
    area_v2(rect1)
}

/// A área de 30 por 50 com uma struct, que segue válida depois do empréstimo.
pub fn com_structs() -> (r: (u32, Rectangle))
    ensures
        r == (1500u32, Rectangle { width: 30, height: 50 }),
{
    let rect1 = Rectangle { width: 30, height: 50 };
    let area = area_v3(&rect1);
    (area, rect1)
}

} // verus!
