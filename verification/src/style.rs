//! Plain values of the toolkit's styling: layouts, coordinate arrays, property values.

use vstd::prelude::*;

verus! {

/// The themes that can be chosen.
#[derive(Debug, Clone, Copy, PartialEq, Eq, Structural)]
pub enum Themes {
    Pretty,
}

/// A layout, held as the number under which the toolkit registered it.
#[derive(Debug, Clone, Copy)]
pub struct Layout {
    pub inner: u16,
}

impl Layout {
    /// The flex layout, given the number under which the toolkit registered it.
    pub fn flex(registered: u16) -> (layout: Self)
        ensures
            layout.inner == registered,
    {
        Layout { inner: registered }
    }

    /// The grid layout, given the number under which the toolkit registered it.
    pub fn grid(registered: u16) -> (layout: Self)
        ensures
            layout.inner == registered,
    {
        Layout { inner: registered }
    }

    /// The number under which the toolkit knows this layout.
    pub fn raw(&self) -> (inner: u16)
        ensures
            inner == self.inner,
    {
        self.inner
    }
}

/// A coordinate array of `N` entries, followed in memory by one closing entry.
#[derive(Debug, Clone, Copy)]
pub struct CoordDesc<const N: usize> {
    pub inner: [i16; N],
    pub tail: i16,
}

impl<const N: usize> CoordDesc<N> {
    /// The array with the given entries. A grid template is closed by
    /// `template_last`, the entry by which the toolkit knows the end of one; any
    /// other array is closed by zero.
    pub fn from_values(values: [i16; N], is_grid: bool, template_last: i16) -> (desc: Self)
        ensures
            desc.inner == values,
            desc.tail == (if is_grid {
                template_last
            } else {
                0i16
            }),
    {
        CoordDesc {
            inner: values,
            tail: if is_grid {
                template_last
            } else {
                0
            },
        }
    }

    /// Returns the values contained.
    pub fn values(&self) -> (values: [i16; N])
        ensures
            values == self.inner,
    {
        self.inner
    }
}

/// The value of a style property. A colour and an opacity are held by their raw numbers.
#[derive(Debug, Clone, Copy, PartialEq, Eq, Structural)]
pub enum StyleValues {
    Num(i32),
    Color(u32),
    Opacity(u32),
    Nothing,
}

impl StyleValues {
    /// Whether a value is there.
    pub fn is_some(&self) -> (some: bool)
        ensures
            some == !(*self is Nothing),
    {
        match self {
            StyleValues::Nothing => false,
            _ => true,
        }
    }
}

} // verus!
