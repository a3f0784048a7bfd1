//! Screens made of components that draw themselves.
use vstd::prelude::*;

verus! {

/// Something that can be drawn on a screen.
pub trait Draw {
    fn draw(&self);
}

/// A screen: any mix of drawable components.
pub struct Screen {
    pub components: Vec<Box<dyn Draw>>,
}

impl Screen {
    /// Draws every component, in order.
    pub fn run(&self) {
        let mut i: usize = 0;
        while i < self.components.len()
            invariant
                i <= self.components@.len(),
            decreases self.components@.len() - i,
        {
            self.components[i].draw();
            i += 1;
        }
    }
}

/// A clickable button.
pub struct Button {
    pub width: u32,
    pub height: u32,
    pub label: String,
}

impl Draw for Button {
    fn draw(&self) {
    }
}

/// A drop-down list of options.
pub struct SelectBox {
    width: u32,
    height: u32,
    options: Vec<String>,
}

impl SelectBox {
    /// A select box of the given size offering `options`.
    pub fn new(width: u32, height: u32, options: Vec<String>) -> (r: SelectBox)
        ensures
            r.width() == width,
            r.height() == height,
            r.options() == options@,
    {
        SelectBox { width, height, options }
    }

    /// The box's width.
    pub closed spec fn width(&self) -> u32 {
        self.width
    }

    /// The box's height.
    pub closed spec fn height(&self) -> u32 {
        self.height
    }

    /// The options offered, in order.
    pub closed spec fn options(&self) -> Seq<String> {
        self.options@
    }
}

impl Draw for SelectBox {
    fn draw(&self) {
    }
}

} // verus!
