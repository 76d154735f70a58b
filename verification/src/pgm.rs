//! Raw grayscale image output.
//!
//! A decoded frame's primary plane is persisted as a binary PGM file: a
//! three-line ASCII header (`P5`, `<width> <height>`, `255`) followed by
//! `height` rows of `width` bytes each.  The plane buffer stores rows at a
//! `stride` that may exceed `width`; the padding bytes past `width` are
//! discarded, not written.  This module builds the exact bytes of such a
//! file, and the name of the output file for a given frame number.

use vstd::prelude::*;

verus! {

/// The decimal digits of `n`, most significant first, as ASCII bytes.
pub open spec fn decimal_digits(n: nat) -> Seq<u8>
    decreases n,
{
    if n < 10 {
        seq![(48 + n) as u8]
    } else {
        decimal_digits(n / 10) + seq![(48 + n % 10) as u8]
    }
}

/// Renders `n` in ASCII decimal.
pub fn u64_digits(n: u64) -> (r: Vec<u8>)
    ensures
        r@ == decimal_digits(n as nat),
    decreases n,
{
    if n < 10 {
        let mut r: Vec<u8> = Vec::new();
        r.push(48 + (n as u8));
        assert(r@ =~= decimal_digits(n as nat));
        r
    } else {
        let mut r = u64_digits(n / 10);
        r.push(48 + ((n % 10) as u8));
        assert(r@ =~= decimal_digits(n as nat));
        r
    }
}

/// The header of a PGM file for a `width` by `height` image:
/// `P5\n<width> <height>\n255\n`.
pub open spec fn pgm_header(width: nat, height: nat) -> Seq<u8> {
    seq![80u8, 53u8, 10u8] + decimal_digits(width) + seq![32u8] + decimal_digits(height)
        + seq![10u8, 50u8, 53u8, 53u8, 10u8]
}

/// The first `width` bytes of each of the first `height` rows of `plane`,
/// concatenated; row `i` starts at byte `i * stride`.
pub open spec fn packed_rows(plane: Seq<u8>, stride: nat, width: nat, height: nat) -> Seq<u8>
    decreases height,
{
    if height == 0 {
        Seq::empty()
    } else {
        packed_rows(plane, stride, width, (height - 1) as nat) + plane.subrange(
            ((height - 1) * stride) as int,
            ((height - 1) * stride + width) as int,
        )
    }
}

/// The whole PGM file for one frame: header, then the packed pixel rows.
pub open spec fn pgm_image(plane: Seq<u8>, stride: nat, width: nat, height: nat) -> Seq<u8> {
    pgm_header(width, height) + packed_rows(plane, stride, width, height)
}

/// Every row the image reads lies inside the plane buffer.
pub open spec fn rows_in_bounds(plane_len: nat, stride: nat, width: nat, height: nat) -> bool {
    height > 0 ==> (height - 1) * stride + width <= plane_len
}

/// A bound that admits `h2` rows admits any smaller number of rows.
pub proof fn lemma_rows_in_bounds_mono(plane_len: nat, stride: nat, width: nat, h1: nat, h2: nat)
    requires
        h1 <= h2,
        rows_in_bounds(plane_len, stride, width, h2),
    ensures
        rows_in_bounds(plane_len, stride, width, h1),
{
    if 0 < h1 {
        assert((h1 - 1) * stride <= (h2 - 1) * stride) by (nonlinear_arith)
            requires
                1 <= h1 <= h2,
                stride >= 0,
        ;
    }
}

/// The packed pixel data of a `width` by `height` image holds exactly
/// `width * height` bytes.
pub proof fn lemma_packed_rows_len(plane: Seq<u8>, stride: nat, width: nat, height: nat)
    requires
        rows_in_bounds(plane.len(), stride, width, height),
    ensures
        packed_rows(plane, stride, width, height).len() == width * height,
    decreases height,
{
    if height > 0 {
        let h1 = (height - 1) as nat;
        lemma_rows_in_bounds_mono(plane.len(), stride, width, h1, height);
        lemma_packed_rows_len(plane, stride, width, h1);
        assert(0 <= h1 * stride) by (nonlinear_arith)
            requires
                h1 >= 0,
                stride >= 0,
        ;
        let row = plane.subrange((h1 * stride) as int, (h1 * stride + width) as int);
        assert(h1 * stride + width <= plane.len());
        assert(row.len() == width);
        assert(packed_rows(plane, stride, width, height) == packed_rows(plane, stride, width, h1)
            + row);
        assert(packed_rows(plane, stride, width, height).len() == width * h1 + width);
        assert(width * h1 + width == width * height) by (nonlinear_arith)
            requires
                h1 == height - 1,
                height >= 1,
        ;
    } else {
        assert(width * height == 0) by (nonlinear_arith)
            requires
                height == 0,
        ;
    }
}

/// Byte `j` of row `i` of the packed pixel data is byte `i * stride + j` of
/// the plane buffer.
pub proof fn lemma_packed_rows_index(
    plane: Seq<u8>,
    stride: nat,
    width: nat,
    height: nat,
    i: nat,
    j: nat,
)
    requires
        rows_in_bounds(plane.len(), stride, width, height),
        i < height,
        j < width,
    ensures
        packed_rows(plane, stride, width, height)[(i * width + j) as int] == plane[(i * stride
            + j) as int],
    decreases height,
{
    let h1 = (height - 1) as nat;
    lemma_rows_in_bounds_mono(plane.len(), stride, width, h1, height);
    lemma_packed_rows_len(plane, stride, width, h1);
    assert(0 <= h1 * stride) by (nonlinear_arith)
        requires
            h1 >= 0,
            stride >= 0,
    ;
    if i == h1 {
        assert(i * width + j - h1 * width == j);
        assert(packed_rows(plane, stride, width, height)[(i * width + j) as int] == plane.subrange(
            (h1 * stride) as int,
            (h1 * stride + width) as int,
        )[j as int]);
    } else {
        assert(i * width + j < h1 * width) by (nonlinear_arith)
            requires
                i < h1,
                j < width,
        ;
        lemma_packed_rows_index(plane, stride, width, h1, i, j);
    }
}

/// The size of the PGM file is the header size plus one byte per pixel.
pub proof fn lemma_pgm_image_len(plane: Seq<u8>, stride: nat, width: nat, height: nat)
    requires
        rows_in_bounds(plane.len(), stride, width, height),
    ensures
        pgm_image(plane, stride, width, height).len() == pgm_header(width, height).len() + width
            * height,
{
    lemma_packed_rows_len(plane, stride, width, height);
}

/// Row `i` of the PGM file's pixel data equals plane bytes
/// `[i * stride, i * stride + width)`: the stride padding is discarded.
pub proof fn lemma_pgm_image_row(plane: Seq<u8>, stride: nat, width: nat, height: nat, i: nat)
    requires
        rows_in_bounds(plane.len(), stride, width, height),
        i < height,
    ensures
        pgm_image(plane, stride, width, height).subrange(
            (pgm_header(width, height).len() + i * width) as int,
            (pgm_header(width, height).len() + i * width + width) as int,
        ) =~= plane.subrange((i * stride) as int, (i * stride + width) as int),
{
    let hlen = pgm_header(width, height).len();
    let img = pgm_image(plane, stride, width, height);
    lemma_packed_rows_len(plane, stride, width, height);
    assert(0 <= i * width && i * width + width <= height * width) by (nonlinear_arith)
        requires
            0 <= i < height,
            width >= 0,
    ;
    assert(i * stride <= (height - 1) * stride) by (nonlinear_arith)
        requires
            0 <= i <= height - 1,
            stride >= 0,
    ;
    let lhs = img.subrange((hlen + i * width) as int, (hlen + i * width + width) as int);
    let rhs = plane.subrange((i * stride) as int, (i * stride + width) as int);
    assert forall|j: int| 0 <= j < width implies (#[trigger] lhs[j]) == rhs[j] by {
        lemma_packed_rows_index(plane, stride, width, height, i, j as nat);
        assert(lhs[j] == img[hlen + i * width + j]);
        assert(rhs[j] == plane[i * stride + j]);
    }
    assert(lhs =~= rhs);
}

/// Builds the bytes of the PGM file for one frame: the header for a `width`
/// by `height` image, then, for each of the first `height` rows of `plane`,
/// the first `width` bytes of that row (rows start every `stride` bytes).
pub fn pgm_encode(plane: &Vec<u8>, stride: usize, width: usize, height: usize) -> (out: Vec<u8>)
    requires
        rows_in_bounds(plane@.len(), stride as nat, width as nat, height as nat),
    ensures
        out@ == pgm_image(plane@, stride as nat, width as nat, height as nat),
{
    let mut out: Vec<u8> = Vec::new();
    out.push(80);
    out.push(53);
    out.push(10);
    let mut wd = u64_digits(width as u64);
    out.append(&mut wd);
    out.push(32);
    let mut hd = u64_digits(height as u64);
    out.append(&mut hd);
    out.push(10);
    out.push(50);
    out.push(53);
    out.push(53);
    out.push(10);
    assert(out@ =~= pgm_header(width as nat, height as nat));

    let ghost header = pgm_header(width as nat, height as nat);
    let plane_len: usize = plane.len();
    let mut i: usize = 0;
    while i < height
        invariant
            i <= height,
            plane_len == plane@.len(),
            rows_in_bounds(plane@.len(), stride as nat, width as nat, height as nat),
            out@ == header + packed_rows(plane@, stride as nat, width as nat, i as nat),
            header == pgm_header(width as nat, height as nat),
        decreases height - i,
    {
        assert(i * stride <= (height - 1) * stride) by (nonlinear_arith)
            requires
                0 <= i <= height - 1,
                stride >= 0,
        ;
        assert(i * stride + width <= plane@.len());
        let row_start: usize = i * stride;
        let mut j: usize = 0;
        while j < width
            invariant
                j <= width,
                row_start == i * stride,
                plane_len == plane@.len(),
                row_start + width <= plane_len,
                out@ == header + packed_rows(plane@, stride as nat, width as nat, i as nat)
                    + plane@.subrange(row_start as int, row_start + j),
            decreases width - j,
        {
            out.push(plane[row_start + j]);
            assert(plane@.subrange(row_start as int, row_start + j) + seq![plane@[row_start + j]]
                =~= plane@.subrange(row_start as int, row_start + j + 1));
            j += 1;
        }
        assert(header + packed_rows(plane@, stride as nat, width as nat, i as nat)
            + plane@.subrange(row_start as int, row_start + width) =~= header + packed_rows(
            plane@,
            stride as nat,
            width as nat,
            (i + 1) as nat,
        ));
        i += 1;
    }
    out
}

/// The name of the output file for frame `index`: the configured prefix,
/// the decimal frame number, and the `.pgm` extension.
pub open spec fn frame_name(prefix: Seq<u8>, index: nat) -> Seq<u8> {
    prefix + decimal_digits(index) + seq![46u8, 112u8, 103u8, 109u8]
}

/// Builds the output file name for frame `index` from the configured prefix.
pub fn frame_file_name(prefix: &Vec<u8>, index: u64) -> (name: Vec<u8>)
    ensures
        name@ == frame_name(prefix@, index as nat),
{
    let mut name: Vec<u8> = Vec::new();
    let mut i: usize = 0;
    while i < prefix.len()
        invariant
            i <= prefix@.len(),
            name@ == prefix@.subrange(0, i as int),
        decreases prefix@.len() - i,
    {
        name.push(prefix[i]);
        assert(prefix@.subrange(0, i as int) + seq![prefix@[i as int]] =~= prefix@.subrange(
            0,
            i + 1,
        ));
        i += 1;
    }
    assert(name@ =~= prefix@);
    let mut d = u64_digits(index);
    name.append(&mut d);
    name.push(46);
    name.push(112);
    name.push(103);
    name.push(109);
    assert(name@ =~= frame_name(prefix@, index as nat));
    name
}

} // verus!
