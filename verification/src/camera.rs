//! The camera: its parameters, the quantities derived from them, and the
//! image it puts out.
//!
//! A camera is either waiting, with its parameters alone, or ready, with
//! the quantities derived from them. Changing a parameter makes it wait
//! again.

use crate::color::{color_line, decimal, push_color, push_decimal, Rgb};
use crate::error::ConfigError;
use crate::scalar::Scalar;
use crate::vec3::{Point3, Vec3, ONE_BITS};
use vstd::prelude::*;

verus! {

/// Bit pattern of `90.0`, the default vertical field of view in degrees.
pub const DEFAULT_VFOV_BITS: u64 = 0x4056_8000_0000_0000u64;

/// Bit pattern of `10.0`, the default focus distance.
pub const DEFAULT_FOCUS_BITS: u64 = 0x4024_0000_0000_0000u64;

/// Bit pattern of `-1.0`.
pub const MINUS_ONE_BITS: u64 = 0xbff0_0000_0000_0000u64;

/// What is derived from a camera's parameters.
#[derive(Clone, Copy, Debug)]
pub struct Frame {
    /// Rows of the image, at least 1.
    pub image_height: i32,
    /// The weight of one sample: 1 over the samples per pixel.
    pub pixel_samples_scale: Scalar,
    pub center: Point3,
    /// Where the centre of the first pixel lies.
    pub pixel00_loc: Point3,
    /// From one pixel to the next in a row.
    pub pixel_delta_u: Vec3,
    /// From one row to the next.
    pub pixel_delta_v: Vec3,
    /// The camera's basis: right, up, and against the view.
    pub u: Vec3,
    pub v: Vec3,
    pub w: Vec3,
    pub defocus_disk_u: Vec3,
    pub defocus_disk_v: Vec3,
}

pub struct Camera {
    pub aspect_ratio: Scalar,
    pub image_width: i32,
    pub samples_per_pixel: i32,
    pub max_depth: i32,
    pub vfov: Scalar,
    pub lookfrom: Point3,
    pub lookat: Point3,
    pub vup: Vec3,
    pub defocus_angle: Scalar,
    pub focus_dist: Scalar,
    pub frame: Option<Frame>,
}

/// The first lines of the image's text: `P3`, width and height, and 255.
pub open spec fn header(width: int, height: int) -> Seq<char> {
    seq!['P', '3', '\n'] + decimal(width) + seq![' '] + decimal(height) + seq![
        '\n',
        '2',
        '5',
        '5',
        '\n',
    ]
}

/// The lines of the first `n` pixels of a row, from left to right.
pub open spec fn row_text(row: Seq<Rgb>, n: nat) -> Seq<char>
    decreases n,
{
    if n == 0 {
        Seq::empty()
    } else {
        row_text(row, (n - 1) as nat) + color_line(row[n - 1])
    }
}

/// The lines of the first `n` rows, from top to bottom.
pub open spec fn rows_text(rows: Seq<Vec<Rgb>>, n: nat) -> Seq<char>
    decreases n,
{
    if n == 0 {
        Seq::empty()
    } else {
        rows_text(rows, (n - 1) as nat) + row_text(rows[n - 1]@, rows[n - 1]@.len())
    }
}

/// The number of pixels in a row: the width, or none where it is negative.
pub open spec fn row_len(width: int) -> int {
    if width < 0 {
        0
    } else {
        width
    }
}

/// There is one row for each line of the image, each as long as the image
/// is wide.
pub open spec fn shape_matches(rows: Seq<Vec<Rgb>>, width: int, height: int) -> bool {
    &&& rows.len() == height
    &&& forall|j: int| 0 <= j < rows.len() ==> (#[trigger] rows[j])@.len() == row_len(width)
}

impl Frame {
    /// The frame with at least one row.
    pub open spec fn clamped(self) -> Frame {
        Frame { image_height: if self.image_height < 1 { 1 } else { self.image_height }, ..self }
    }
}

impl Camera {
    /// The camera with one parameter changed waits again.
    pub open spec fn waiting(self) -> Camera {
        Camera { frame: None, ..self }
    }

    pub open spec fn is_ready_spec(self) -> bool {
        self.frame is Some
    }

    /// A ready camera has samples to weigh and at least one row.
    pub open spec fn wf(self) -> bool {
        self.frame matches Some(f) ==> self.samples_per_pixel > 0 && f.image_height >= 1
    }

    pub fn new() -> (c: Camera)
        ensures
            c.aspect_ratio.bits == ONE_BITS,
            c.image_width == 100,
            c.samples_per_pixel == 500,
            c.max_depth == 10,
            c.vfov.bits == DEFAULT_VFOV_BITS,
            c.lookfrom == Vec3::origin(),
            c.lookat == (Vec3 { e: [Scalar { bits: 0 }, Scalar { bits: 0 }, Scalar { bits: MINUS_ONE_BITS }] }),
            c.vup == (Vec3 { e: [Scalar { bits: 0 }, Scalar { bits: ONE_BITS }, Scalar { bits: 0 }] }),
            c.defocus_angle.bits == 0,
            c.focus_dist.bits == DEFAULT_FOCUS_BITS,
            !c.is_ready_spec(),
            c.wf(),
    {
        let zero = Scalar::zero();
        let one = Scalar::from_bits(ONE_BITS);
        let lookfrom = Vec3::new(zero, zero, zero);
        let lookat = Vec3::new(zero, zero, Scalar::from_bits(MINUS_ONE_BITS));
        let vup = Vec3::new(zero, one, zero);
        proof {
            assert(lookfrom.e =~= Vec3::origin().e);
            assert(lookat.e =~= [Scalar { bits: 0 }, Scalar { bits: 0 }, Scalar { bits: MINUS_ONE_BITS }]);
            assert(vup.e =~= [Scalar { bits: 0 }, Scalar { bits: ONE_BITS }, Scalar { bits: 0 }]);
        }
        Camera {
            aspect_ratio: one,
            image_width: 100,
            samples_per_pixel: 500,
            max_depth: 10,
            vfov: Scalar::from_bits(DEFAULT_VFOV_BITS),
            lookfrom,
            lookat,
            vup,
            defocus_angle: zero,
            focus_dist: Scalar::from_bits(DEFAULT_FOCUS_BITS),
            frame: None,
        }
    }

    pub fn with_aspect_ratio(self, aspect_ratio: Scalar) -> (c: Camera)
        ensures
            c == (Camera { aspect_ratio, ..self.waiting() }),
    {
        let mut c = self;
        c.aspect_ratio = aspect_ratio;
        c.frame = None;
        c
    }

    pub fn with_max_depth(self, max_depth: i32) -> (c: Camera)
        ensures
            c == (Camera { max_depth, ..self.waiting() }),
    {
        let mut c = self;
        c.max_depth = max_depth;
        c.frame = None;
        c
    }

    /// Refuses a number of samples that is not above zero.
    pub fn with_samples_per_pixel(self, samples_per_pixel: i32) -> (r: Result<Camera, ConfigError>)
        ensures
            samples_per_pixel > 0 <==> r is Ok,
            r matches Ok(c) ==> c == (Camera { samples_per_pixel, ..self.waiting() }),
            r matches Err(e) ==> e == ConfigError::NoSamples,
    {
        if samples_per_pixel <= 0 {
            return Err(ConfigError::NoSamples);
        }
        let mut c = self;
        c.samples_per_pixel = samples_per_pixel;
        c.frame = None;
        Ok(c)
    }

    pub fn with_image_width(self, image_width: i32) -> (c: Camera)
        ensures
            c == (Camera { image_width, ..self.waiting() }),
    {
        let mut c = self;
        c.image_width = image_width;
        c.frame = None;
        c
    }

    pub fn with_vfov(self, vfov: Scalar) -> (c: Camera)
        ensures
            c == (Camera { vfov, ..self.waiting() }),
    {
        let mut c = self;
        c.vfov = vfov;
        c.frame = None;
        c
    }

    pub fn with_lookfrom(self, lookfrom: Point3) -> (c: Camera)
        ensures
            c == (Camera { lookfrom, ..self.waiting() }),
    {
        let mut c = self;
        c.lookfrom = lookfrom;
        c.frame = None;
        c
    }

    pub fn with_lookat(self, lookat: Point3) -> (c: Camera)
        ensures
            c == (Camera { lookat, ..self.waiting() }),
    {
        let mut c = self;
        c.lookat = lookat;
        c.frame = None;
        c
    }

    pub fn with_vup(self, vup: Vec3) -> (c: Camera)
        ensures
            c == (Camera { vup, ..self.waiting() }),
    {
        let mut c = self;
        c.vup = vup;
        c.frame = None;
        c
    }

    pub fn with_defocus_angle(self, defocus_angle: Scalar) -> (c: Camera)
        ensures
            c == (Camera { defocus_angle, ..self.waiting() }),
    {
        let mut c = self;
        c.defocus_angle = defocus_angle;
        c.frame = None;
        c
    }

    pub fn with_focus_dist(self, focus_dist: Scalar) -> (c: Camera)
        ensures
            c == (Camera { focus_dist, ..self.waiting() }),
    {
        let mut c = self;
        c.focus_dist = focus_dist;
        c.frame = None;
        c
    }

    pub fn set_aspect_ratio(&mut self, aspect_ratio: Scalar)
        ensures
            *final(self) == (Camera { aspect_ratio, ..old(self).waiting() }),
    {
        self.aspect_ratio = aspect_ratio;
        self.frame = None;
    }

    pub fn set_image_width(&mut self, image_width: i32)
        ensures
            *final(self) == (Camera { image_width, ..old(self).waiting() }),
    {
        self.image_width = image_width;
        self.frame = None;
    }

    pub fn is_ready(&self) -> (b: bool)
        ensures
            b == self.is_ready_spec(),
    {
        self.frame.is_some()
    }

    /// Makes the camera ready with the quantities derived from its
    /// parameters, the height raised to 1 where it is less. Refuses a camera
    /// without samples, which then waits.
    pub fn initialize(&mut self, derived: Frame) -> (r: Result<Frame, ConfigError>)
        ensures
            old(self).samples_per_pixel > 0 <==> r is Ok,
            r matches Ok(f) ==> f == derived.clamped() && *final(self) == (Camera {
                frame: Some(f),
                ..*old(self)
            }),
            r matches Err(e) ==> e == ConfigError::NoSamples && *final(self) == old(self).waiting(),
            final(self).wf(),
    {
        if self.samples_per_pixel <= 0 {
            self.frame = None;
            return Err(ConfigError::NoSamples);
        }
        let mut f = derived;
        if f.image_height < 1 {
            f.image_height = 1;
        }
        self.frame = Some(f);
        Ok(f)
    }

    /// Whether rays start at a single point: the defocus angle is zero or
    /// less.
    pub open spec fn pinhole_spec(self) -> bool {
        self.defocus_angle.le_spec(Scalar { bits: 0 })
    }

    pub fn pinhole(&self) -> (b: bool)
        ensures
            b == self.pinhole_spec(),
    {
        self.defocus_angle.le(Scalar::zero())
    }

    /// Where a ray starts when no point of the defocus disk is needed to
    /// say so: at the camera's centre, where the defocus angle is zero or
    /// less. Otherwise a point is to be drawn for `ray_origin`.
    pub fn origin_without_draw(&self) -> (origin: Option<Point3>)
        requires
            self.is_ready_spec(),
        ensures
            origin == if self.pinhole_spec() {
                Some(self.frame->Some_0.center)
            } else {
                None
            },
    {
        if self.pinhole() {
            match self.frame {
                Some(f) => Some(f.center),
                None => None,
            }
        } else {
            None
        }
    }

    /// Where a ray starts: at the camera's centre where the defocus angle
    /// is zero or less, else at `disk_sample`, a point drawn from the
    /// defocus disk.
    pub fn ray_origin(&self, disk_sample: Point3) -> (origin: Point3)
        requires
            self.is_ready_spec(),
        ensures
            origin == if self.pinhole_spec() {
                self.frame->Some_0.center
            } else {
                disk_sample
            },
    {
        if self.pinhole() {
            match self.frame {
                Some(f) => f.center,
                None => disk_sample,
            }
        } else {
            disk_sample
        }
    }

    /// Whether `rows` has the shape of the image.
    pub fn fits(rows: &Vec<Vec<Rgb>>, width: i32, height: i32) -> (b: bool)
        ensures
            b == shape_matches(rows@, width as int, height as int),
    {
        if height < 0 || rows.len() != height as usize {
            return false;
        }
        let want: usize = if width < 0 { 0 } else { width as usize };
        let mut j: usize = 0;
        while j < rows.len()
            invariant
                j <= rows@.len(),
                want == row_len(width as int),
                forall|k: int| 0 <= k < j ==> (#[trigger] rows@[k])@.len() == want,
            decreases rows@.len() - j,
        {
            if rows[j].len() != want {
                return false;
            }
            j += 1;
        }
        true
    }

    /// Makes the camera ready and puts out the image as text: the header,
    /// then one line for each pixel, the rows from top to bottom and each
    /// row from left to right. `rows` holds the pixels that were sampled for
    /// this camera.
    pub fn render(&mut self, derived: Frame, rows: &Vec<Vec<Rgb>>) -> (r: Result<String, ConfigError>)
        ensures
            final(self).wf(),
            old(self).samples_per_pixel <= 0 ==> r == Err::<String, ConfigError>(ConfigError::NoSamples)
                && *final(self) == old(self).waiting(),
            old(self).samples_per_pixel > 0 ==> *final(self) == (Camera {
                frame: Some(derived.clamped()),
                ..*old(self)
            }),
            old(self).samples_per_pixel > 0 && !shape_matches(
                rows@,
                old(self).image_width as int,
                derived.clamped().image_height as int,
            ) ==> r == Err::<String, ConfigError>(ConfigError::ShapeMismatch),
            old(self).samples_per_pixel > 0 && shape_matches(
                rows@,
                old(self).image_width as int,
                derived.clamped().image_height as int,
            ) ==> r is Ok && r->Ok_0@ == header(
                old(self).image_width as int,
                derived.clamped().image_height as int,
            ) + rows_text(rows@, rows@.len()),
    {
        let f = match self.initialize(derived) {
            Ok(f) => f,
            Err(e) => {
                return Err(e);
            },
        };
        if !Self::fits(rows, self.image_width, f.image_height) {
            return Err(ConfigError::ShapeMismatch);
        }
        let mut out = String::new();
        proof {
            reveal_strlit("P3\n");
            reveal_strlit(" ");
            reveal_strlit("\n255\n");
        }
        out.append("P3\n");
        push_decimal(&mut out, self.image_width);
        out.append(" ");
        push_decimal(&mut out, f.image_height);
        out.append("\n255\n");
        let ghost head = header(self.image_width as int, f.image_height as int);
        assert(out@ =~= head);
        let mut j: usize = 0;
        while j < rows.len()
            invariant
                j <= rows@.len(),
                out@ == head + rows_text(rows@, j as nat),
            decreases rows@.len() - j,
        {
            let row = &rows[j];
            let ghost before = out@;
            let mut i: usize = 0;
            while i < row.len()
                invariant
                    i <= row@.len(),
                    out@ == before + row_text(row@, i as nat),
                decreases row@.len() - i,
            {
                push_color(&mut out, row[i]);
                i += 1;
                assert(out@ =~= before + row_text(row@, i as nat));
            }
            j += 1;
            assert(out@ =~= head + rows_text(rows@, j as nat));
        }
        Ok(out)
    }
}

/// The line of the pixel in row `j` and column `i` follows the header and
/// the lines of all pixels of the rows above it and of those to its left in
/// its row: the pixels come out row by row.
pub proof fn lemma_row_major(rows: Seq<Vec<Rgb>>, j: int, i: int)
    requires
        0 <= j < rows.len(),
        0 <= i < rows[j]@.len(),
    ensures
        (rows_text(rows, j as nat) + row_text(rows[j]@, i as nat) + color_line(
            rows[j]@[i],
        )).is_prefix_of(rows_text(rows, rows.len())),
{
    lemma_row_prefix(rows[j]@, (i + 1) as nat, rows[j]@.len());
    lemma_rows_prefix(rows, (j + 1) as nat, rows.len());
    let a = rows_text(rows, j as nat);
    let b = row_text(rows[j]@, (i + 1) as nat);
    let full = row_text(rows[j]@, rows[j]@.len());
    assert(b =~= row_text(rows[j]@, i as nat) + color_line(rows[j]@[i]));
    assert((a + b).is_prefix_of(a + full));
    assert(a + b =~= a + row_text(rows[j]@, i as nat) + color_line(rows[j]@[i]));
}

proof fn lemma_row_prefix(row: Seq<Rgb>, k: nat, n: nat)
    requires
        k <= n,
    ensures
        row_text(row, k).is_prefix_of(row_text(row, n)),
    decreases n,
{
    if k < n {
        lemma_row_prefix(row, k, (n - 1) as nat);
    }
}

proof fn lemma_rows_prefix(rows: Seq<Vec<Rgb>>, k: nat, n: nat)
    requires
        k <= n,
    ensures
        rows_text(rows, k).is_prefix_of(rows_text(rows, n)),
    decreases n,
{
    if k < n {
        lemma_rows_prefix(rows, k, (n - 1) as nat);
    }
}

} // verus!
