use vstd::prelude::*;

verus! {

/// The mathematical picture of a grayscale image: `rows[y][x]` is the luma
/// of the pixel at column `x` and row `y`.
#[verifier::ext_equal]
pub ghost struct Raster {
    pub width: nat,
    pub height: nat,
    pub rows: Seq<Seq<u8>>,
}

impl Raster {
    /// Every row has `width` pixels and there are `height` rows.
    pub open spec fn wf(self) -> bool {
        &&& self.rows.len() == self.height
        &&& forall|y: int| 0 <= y < self.height ==> (#[trigger] self.rows[y]).len() == self.width
    }

    pub open spec fn at(self, x: int, y: int) -> u8 {
        self.rows[y][x]
    }

    /// The raster of the given size whose pixel `(x, y)` is `f(x, y)`.
    pub open spec fn from_fn(width: nat, height: nat, f: spec_fn(int, int) -> u8) -> Raster {
        Raster {
            width,
            height,
            rows: Seq::new(height, |y: int| Seq::new(width, |x: int| f(x, y))),
        }
    }
}

/// An axis-aligned rectangle in pixel coordinates.
#[derive(Clone, Copy, Debug, PartialEq, Eq, Structural)]
pub struct Rect {
    pub x: u32,
    pub y: u32,
    pub width: u32,
    pub height: u32,
}

impl Rect {
    /// The rectangle lies inside an image of the given size.
    pub open spec fn within(self, width: int, height: int) -> bool {
        &&& self.x + self.width <= width
        &&& self.y + self.height <= height
    }

    /// The pixel `(px, py)` belongs to the rectangle.
    pub open spec fn contains(self, px: int, py: int) -> bool {
        &&& self.x <= px < self.x + self.width
        &&& self.y <= py < self.y + self.height
    }
}

/// The part of `r` that `rect` covers, as an image of its own.
pub open spec fn crop_spec(r: Raster, rect: Rect) -> Raster {
    Raster::from_fn(
        rect.width as nat,
        rect.height as nat,
        |x: int, y: int| r.at(rect.x + x, rect.y + y),
    )
}

/// An owned 8-bit grayscale image, stored as a vector of rows.
pub struct LumaImage {
    pub width: u32,
    pub height: u32,
    pub rows: Vec<Vec<u8>>,
}

impl View for LumaImage {
    type V = Raster;

    open spec fn view(&self) -> Raster {
        Raster {
            width: self.width as nat,
            height: self.height as nat,
            rows: self.rows@.map_values(|row: Vec<u8>| row@),
        }
    }
}

impl LumaImage {
    /// The rows agree with the stated width and height.
    pub open spec fn wf(&self) -> bool {
        self@.wf()
    }

    pub fn width(&self) -> (r: u32)
        ensures
            r == self.width,
    {
        self.width
    }

    pub fn height(&self) -> (r: u32)
        ensures
            r == self.height,
    {
        self.height
    }

    /// An image of the given size with every pixel set to `value`.
    pub fn filled(width: u32, height: u32, value: u8) -> (r: Self)
        ensures
            r.wf(),
            r@ == Raster::from_fn(width as nat, height as nat, |x: int, y: int| value),
    {
        let mut rows: Vec<Vec<u8>> = Vec::new();
        let mut y: u32 = 0;
        while y < height
            invariant
                y <= height,
                rows@.len() == y,
                forall|j: int| 0 <= j < y ==> (#[trigger] rows@[j])@ == Seq::new(width as nat, |x: int| value),
            decreases height - y,
        {
            let mut row: Vec<u8> = Vec::new();
            let mut x: u32 = 0;
            while x < width
                invariant
                    x <= width,
                    row@.len() == x,
                    forall|i: int| 0 <= i < x ==> row@[i] == value,
                decreases width - x,
            {
                row.push(value);
                x += 1;
            }
            assert(row@ =~= Seq::new(width as nat, |x: int| value));
            rows.push(row);
            y += 1;
        }
        let r = LumaImage { width, height, rows };
        assert(r@ =~~= Raster::from_fn(width as nat, height as nat, |x: int, y: int| value));
        r
    }

    /// Builds an image from rows of pixels; `None` unless every row holds
    /// exactly `width` pixels and the number of rows fits in a `u32`.
    pub fn from_rows(width: u32, rows: Vec<Vec<u8>>) -> (r: Option<Self>)
        ensures
            r.is_some() <==> (rows@.len() <= u32::MAX && forall|y: int|
                0 <= y < rows@.len() ==> (#[trigger] rows@[y])@.len() == width),
            r matches Some(img) ==> img.wf() && img.width == width && img.rows@ == rows@,
    {
        if rows.len() > u32::MAX as usize {
            return None;
        }
        let mut y: usize = 0;
        while y < rows.len()
            invariant
                y <= rows@.len(),
                forall|j: int| 0 <= j < y ==> (#[trigger] rows@[j])@.len() == width,
            decreases rows@.len() - y,
        {
            if rows[y].len() != width as usize {
                return None;
            }
            y += 1;
        }
        let height = rows.len() as u32;
        Some(LumaImage { width, height, rows })
    }

    /// The luma of the pixel at column `x` and row `y`.
    pub fn get_pixel(&self, x: u32, y: u32) -> (r: u8)
        requires
            self.wf(),
            x < self.width,
            y < self.height,
        ensures
            r == self@.at(x as int, y as int),
    {
        assert(self@.rows[y as int].len() == self.width);
        self.rows[y as usize][x as usize]
    }

    /// An owned copy of the part of the image that `rect` covers.
    pub fn crop_to(&self, rect: Rect) -> (r: LumaImage)
        requires
            self.wf(),
            rect.within(self.width as int, self.height as int),
        ensures
            r.wf(),
            r@ == crop_spec(self@, rect),
    {
        let mut rows: Vec<Vec<u8>> = Vec::new();
        let mut j: u32 = 0;
        while j < rect.height
            invariant
                self.wf(),
                rect.within(self.width as int, self.height as int),
                j <= rect.height,
                rows@.len() == j,
                forall|k: int| 0 <= k < j ==> (#[trigger] rows@[k])@
                    == crop_spec(self@, rect).rows[k],
            decreases rect.height - j,
        {
            let src = &self.rows[(rect.y + j) as usize];
            let mut row: Vec<u8> = Vec::new();
            let mut i: u32 = 0;
            while i < rect.width
                invariant
                    self.wf(),
                    rect.within(self.width as int, self.height as int),
                    j < rect.height,
                    src@ == self@.rows[rect.y + j],
                    i <= rect.width,
                    row@.len() == i,
                    forall|k: int| 0 <= k < i ==> row@[k] == self@.at(rect.x + k, rect.y + j),
                decreases rect.width - i,
            {
                row.push(src[(rect.x + i) as usize]);
                i += 1;
            }
            assert(row@ =~= crop_spec(self@, rect).rows[j as int]);
            rows.push(row);
            j += 1;
        }
        let r = LumaImage { width: rect.width, height: rect.height, rows };
        assert(r@ =~~= crop_spec(self@, rect));
        r
    }
}

} // verus!
