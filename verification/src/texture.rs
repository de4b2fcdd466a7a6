use vstd::prelude::*;

verus! {

/// The size of a texture in one, two or three dimensions.
#[derive(Debug, Clone, Copy, PartialEq, Eq, Structural)]
pub enum TextureDimensions {
    D3(u32, u32, u32),
    D2(u32, u32),
    D1(u32),
}

/// Width, height, and depth or number of layers.
#[derive(Debug, Clone, Copy, PartialEq, Eq, Structural)]
pub struct Extent {
    pub width: u32,
    pub height: u32,
    pub depth_or_array_layers: u32,
}

impl TextureDimensions {
    /// The size of a 3D texture.
    pub fn new_3d(width: u32, height: u32, depth: u32) -> (res: TextureDimensions)
        ensures
            res == TextureDimensions::D3(width, height, depth),
    {
        TextureDimensions::D3(width, height, depth)
    }

    /// The size of a 2D texture.
    pub fn new_2d(width: u32, height: u32) -> (res: TextureDimensions)
        ensures
            res == TextureDimensions::D2(width, height),
    {
        TextureDimensions::D2(width, height)
    }

    /// The size of a 1D texture.
    pub fn new_1d(width: u32) -> (res: TextureDimensions)
        ensures
            res == TextureDimensions::D1(width),
    {
        TextureDimensions::D1(width)
    }

    /// The extent in all three directions: a direction that the texture does
    /// not have is one unit deep.
    pub open spec fn extent(self) -> Extent {
        match self {
            TextureDimensions::D3(width, height, depth) => Extent {
                width,
                height,
                depth_or_array_layers: depth,
            },
            TextureDimensions::D2(width, height) => Extent {
                width,
                height,
                depth_or_array_layers: 1,
            },
            TextureDimensions::D1(width) => Extent { width, height: 1, depth_or_array_layers: 1 },
        }
    }

    /// The number of dimensions.
    pub fn dimension_count(&self) -> (res: u8)
        ensures
            res == match *self {
                TextureDimensions::D3(_, _, _) => 3u8,
                TextureDimensions::D2(_, _) => 2u8,
                TextureDimensions::D1(_) => 1u8,
            },
    {
        match self {
            TextureDimensions::D3(_, _, _) => 3,
            TextureDimensions::D2(_, _) => 2,
            TextureDimensions::D1(_) => 1,
        }
    }

    /// Builds the extent of the texture.
    pub fn build(self) -> (res: Extent)
        ensures
            res == self.extent(),
    {
        match self {
            TextureDimensions::D3(width, height, depth) => Extent {
                width,
                height,
                depth_or_array_layers: depth,
            },
            TextureDimensions::D2(width, height) => Extent {
                width,
                height,
                depth_or_array_layers: 1,
            },
            TextureDimensions::D1(width) => Extent { width, height: 1, depth_or_array_layers: 1 },
        }
    }
}

} // verus!
