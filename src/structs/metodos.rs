//! Métodos e funções associadas de um retângulo, em blocos `impl`.

use vstd::prelude::*;

verus! {

/// Um retângulo de lados inteiros.
#[derive(Debug, Clone, Copy, PartialEq, Eq, Structural)]
pub struct Rectangle {
    pub width: u32,
    pub height: u32,
}

impl Rectangle {
    /// A área, lida por referência. O produto precisa caber em `u32`.
    pub fn area(&self) -> (r: u32)
        requires
            self.width * self.height <= u32::MAX,
        ensures
            r == self.width * self.height,
    {
        self.width * self.height
    }

    /// Dobra os dois lados, no próprio retângulo.
    pub fn double_size(&mut self)
        requires
            2 * old(self).width <= u32::MAX,
            2 * old(self).height <= u32::MAX,
        ensures
            final(self).width == 2 * old(self).width,
            final(self).height == 2 * old(self).height,
    {
        self.width *= 2;
        self.height *= 2;
    }

    /// Consome o retângulo e devolve o quadrado com o maior dos dois lados.
    pub fn into_square(self) -> (r: Rectangle)
        ensures
            r.width == r.height,
            r.width == if self.width >= self.height {
                self.width
            } else {
                self.height
            },
    {
        let side = self.width.max(self.height);
        Rectangle { width: side, height: side }
    }

    /// Se a largura não é zero; o método tem o nome do campo.
    pub fn width(&self) -> (r: bool)
        ensures
            r == (self.width > 0),
    {
        self.width > 0
    }

    /// Se o outro retângulo cabe neste, com folga nos dois lados.
    pub fn can_hold(&self, other: &Rectangle) -> (r: bool)
        ensures
            r == (self.width > other.width && self.height > other.height),
    {
        self.width > other.width && self.height > other.height
    }

    /// Um retângulo com a largura e a altura dadas.
    pub fn new(width: u32, height: u32) -> (r: Self)
        ensures
            r == (Rectangle { width, height }),
    {
        Self { width, height }
    }

    /// Um quadrado de lado `size`.
    pub fn square(size: u32) -> (r: Self)
        ensures
            r == (Rectangle { width: size, height: size }),
    {
        Self { width: size, height: size }
    }
}

impl Rectangle {
    /// O perímetro. A soma dos quatro lados precisa caber em `u32`.
    pub fn perimeter(&self) -> (r: u32)
        requires
            2 * (self.width + self.height) <= u32::MAX,
        ensures
            r == 2 * (self.width + self.height),
    {
        2 * (self.width + self.height)
    }
}

impl Rectangle {
    /// Se os dois lados são iguais.
    pub fn is_square(&self) -> (r: bool)
        ensures
            r == (self.width == self.height),
    {
        self.width == self.height
    }
}

/// A área de um retângulo de 30 por 50, pela sintaxe de método.
pub fn metodo_basico() -> (r: u32)
    ensures
        r == 1500,
{
    let rect = Rectangle { width: 30, height: 50 };
    rect.area()
}

/// As três formas de `self` num retângulo de 10 por 20: a área lida, o
/// retângulo dobrado e o quadrado em que ele se transforma.
pub fn tipos_de_self() -> (r: (u32, Rectangle, Rectangle))
    ensures
        r == (200u32, Rectangle { width: 20, height: 40 }, Rectangle { width: 20, height: 20 }),
{
    let rect1 = Rectangle::new(10, 20);
    let area = rect1.area();
    let mut rect2 = Rectangle::new(10, 20);
    rect2.double_size();
    let rect3 = Rectangle::new(10, 20);
    let square = rect3.into_square();
    (area, rect2, square)
}

/// O método `width()` e o campo `width` de um retângulo de 30 por 50.
pub fn metodo_mesmo_nome_campo() -> (r: (bool, u32))
    ensures
        r == (true, 30u32),
{
    let rect = Rectangle::new(30, 50);
    (rect.width(), rect.width)
}

/// Se um retângulo de 30 por 50 contém um de 10 por 40 e um de 60 por 45.
pub fn metodos_com_parametros() -> (r: (bool, bool))
    ensures
        r == (true, false),
{
    let rect1 = Rectangle::new(30, 50);
    let rect2 = Rectangle::new(10, 40);
    let rect3 = Rectangle::new(60, 45);
    (rect1.can_hold(&rect2), rect1.can_hold(&rect3))
}

/// Os dois construtores: um retângulo de 30 por 50 e um quadrado de lado 25.
pub fn associated_functions() -> (r: (Rectangle, Rectangle))
    ensures
        r == (Rectangle { width: 30, height: 50 }, Rectangle { width: 25, height: 25 }),
{
    let rect1 = Rectangle::new(30, 50);
    let square = Rectangle::square(25);
    (rect1, square)
}

} // verus!
