//! The stages that only move texels, on plain memory.
//!
//! Every texel of the base cubemap is a copy of one texel of the source
//! image. Which one is decided outside, where directions are turned into
//! longitude and latitude; here the texels are numbered, the source
//! coordinates are held to the image, and the copy is made.
//!
//! The sharpest level of the specular cubemap is a mirror: every texel of
//! it is a copy of the texel of the base that lies along its direction.

use vstd::prelude::*;
use crate::pipelines::sky::error::{InvalidInputError, StageError};
use crate::pipelines::sky::face::{
    lemma_components, lemma_locate_texel_direction, lemma_texel_direction_value, CubeFace, Texel,
    FACE_COUNT,
};
use crate::pipelines::sky::plan::SOURCE_BYTES_PER_TEXEL;
use crate::pipelines::sky::{EnvironmentImage, SkyRenderer};

verus! {

/// Number of texels of a cubemap with faces of `size` by `size` texels.
pub open spec fn texel_count(size: nat) -> nat {
    FACE_COUNT as nat * size * size
}

/// Position of a texel in the memory of a cubemap with faces of `size`
/// by `size` texels: layer by layer, each layer row by row.
pub open spec fn spec_texel_index(texel: Texel, size: nat) -> nat {
    ((texel.face.spec_index() * size + texel.y) * size + texel.x) as nat
}

/// The texel at position `index` in the memory of a cubemap with faces of
/// `size` by `size` texels.
pub open spec fn spec_texel_at(index: nat, size: nat) -> Texel
    recommends
        size > 0,
        index < texel_count(size),
{
    Texel {
        face: CubeFace::spec_from_index(index / (size * size))->0,
        x: (index % size) as u32,
        y: ((index / size) % size) as u32,
    }
}

/// `coordinate` held to an axis of `size` texels: a coordinate before the
/// first texel reads the first, one behind the last reads the last.
pub open spec fn clamped(coordinate: int, size: nat) -> nat
    recommends
        size > 0,
{
    if coordinate < 0 {
        0
    } else if coordinate >= size {
        (size - 1) as nat
    } else {
        coordinate as nat
    }
}

/// Position of the first byte of the source texel that `pixel`, a column
/// and a row, stands for in an image of `width` by `height` texels.
pub open spec fn spec_source_offset(width: nat, height: nat, pixel: (i64, i64)) -> nat {
    (clamped(pixel.1 as int, height) * width + clamped(pixel.0 as int, width))
        * SOURCE_BYTES_PER_TEXEL as nat
}

/// The memory of the cubemap whose texel `k` is the source texel that
/// `pixels[k]` stands for.
pub open spec fn spec_project(data: Seq<u8>, width: nat, height: nat, pixels: Seq<(i64, i64)>) -> Seq<
    u8,
> {
    Seq::new(
        pixels.len() * SOURCE_BYTES_PER_TEXEL as nat,
        |i: int|
            data[spec_source_offset(width, height, pixels[i / (SOURCE_BYTES_PER_TEXEL as int)]) + i
                % (SOURCE_BYTES_PER_TEXEL as int)],
    )
}

/// Why the projection of `image` onto faces of `dst_size` texels through
/// a list of `pixel_count` source pixels cannot be made, if it cannot.
pub open spec fn spec_project_error(
    image: &EnvironmentImage,
    dst_size: u32,
    pixel_count: nat,
) -> Option<StageError> {
    match SkyRenderer::spec_projection_error(image, dst_size) {
        Some(error) => Some(error),
        None => if pixel_count != texel_count(dst_size as nat) {
            Some(StageError::InvalidInput(InvalidInputError::LookupSizeMismatch))
        } else {
            None
        },
    }
}

/// Position of a texel in the memory of a cubemap with faces of `size`
/// by `size` texels; `None` where the texel lies outside its face or the
/// position does not fit the machine's addresses.
pub fn texel_index(texel: Texel, size: u32) -> (index: Option<usize>)
    ensures
        index is Some <==> texel.x < size && texel.y < size && spec_texel_index(texel, size as nat)
            <= usize::MAX,
        index is Some ==> index->0 == spec_texel_index(texel, size as nat) && index->0
            < texel_count(size as nat),
{
    if texel.x >= size || texel.y >= size {
        return None;
    }
    let face: u128 = texel.face.index() as u128;
    let n: u128 = size as u128;
    assert(0 <= face * n + texel.y < 6 * n) by (nonlinear_arith)
        requires
            0 <= face < 6,
            0 <= texel.y < n,
    ;
    assert(0 <= (face * n + texel.y) * n + texel.x < 6 * n * n <= 6 * 0x1_0000_0000
        * 0x1_0000_0000) by (nonlinear_arith)
        requires
            0 <= face * n + texel.y < 6 * n,
            0 <= texel.x < n,
            n <= 0x1_0000_0000,
    ;
    let index: u128 = (face * n + texel.y as u128) * n + texel.x as u128;
    if index > usize::MAX as u128 {
        None
    } else {
        Some(index as usize)
    }
}

/// The texel at position `index` in the memory of a cubemap with faces of
/// `size` by `size` texels; `None` from the number of texels on.
pub fn texel_at(index: usize, size: u32) -> (texel: Option<Texel>)
    ensures
        texel is Some <==> index < texel_count(size as nat),
        texel is Some ==> texel->0 == spec_texel_at(index as nat, size as nat) && texel->0.x < size
            && texel->0.y < size && spec_texel_index(texel->0, size as nat) == index,
{
    if size == 0 {
        assert(texel_count(0) == 0) by (nonlinear_arith);
        return None;
    }
    let n: u128 = size as u128;
    assert(0 < n * n <= 0xffff_ffff * 0xffff_ffff) by (nonlinear_arith)
        requires
            0 < n <= 0xffff_ffff,
    ;
    let area: u128 = n * n;
    let layer: u128 = (index as u128) / area;
    proof {
        let i = index as int;
        let a = area as int;
        vstd::arithmetic::div_mod::lemma_fundamental_div_mod(i, a);
        vstd::arithmetic::div_mod::lemma_fundamental_div_mod(i, n as int);
        vstd::arithmetic::div_mod::lemma_fundamental_div_mod(i / (n as int), n as int);
        vstd::arithmetic::div_mod::lemma_div_denominator(i, n as int, n as int);
        vstd::arithmetic::div_mod::lemma_mod_bound(i, n as int);
        vstd::arithmetic::div_mod::lemma_mod_bound(i / (n as int), n as int);
        vstd::arithmetic::div_mod::lemma_mod_bound(i, a);
        assert(texel_count(size as nat) == 6 * a) by (nonlinear_arith)
            requires
                texel_count(size as nat) == 6 * (size as nat) * (size as nat),
                a == size * size,
        ;
        assert((i / a < 6) <==> (i < 6 * a)) by (nonlinear_arith)
            requires
                i == a * (i / a) + i % a,
                0 <= i % a < a,
        ;
        let x = i % (n as int);
        let row = i / (n as int);
        let y = row % (n as int);
        let f = i / a;
        assert((f * n + y) * n + x == i) by (nonlinear_arith)
            requires
                i == n * row + x,
                row == n * (row / (n as int)) + y,
                row / (n as int) == f,
        ;
    }
    if layer >= 6 {
        return None;
    }
    match CubeFace::from_index(layer as u32) {
        Some(face) => {
            let x: u32 = ((index as u128) % n) as u32;
            let y: u32 = (((index as u128) / n) % n) as u32;
            Some(Texel { face, x, y })
        },
        None => None,
    }
}

/// `coordinate` held to an axis of `size` texels.
fn clamp_to(coordinate: i64, size: u32) -> (index: usize)
    requires
        size > 0,
    ensures
        index == clamped(coordinate as int, size as nat),
        index < size,
{
    if coordinate < 0 {
        0
    } else if coordinate >= size as i64 {
        (size - 1) as usize
    } else {
        coordinate as usize
    }
}

/// Projects `image` onto a cubemap with faces of `dst_size` by `dst_size`
/// texels, in memory: texel `k` of the result, in the order of
/// `texel_index`, is a copy of the source texel in column
/// `source_pixels[k].0` and row `source_pixels[k].1`, each held to the
/// image. No texel is filtered or blended. Fails on an image without
/// texels, on a buffer that does not match the image, on a destination
/// without texels, and on a list that does not name one source pixel for
/// every texel of the destination.
pub fn project_texels(image: &EnvironmentImage, dst_size: u32, source_pixels: &[(i64, i64)]) -> (cubemap:
    Result<Vec<u8>, StageError>)
    ensures
        cubemap is Err <==> spec_project_error(image, dst_size, source_pixels@.len()) is Some,
        cubemap is Err ==> cubemap->Err_0 == spec_project_error(
            image,
            dst_size,
            source_pixels@.len(),
        )->0,
        cubemap is Ok ==> cubemap->Ok_0@ == spec_project(
            image.data@,
            image.width as nat,
            image.height as nat,
            source_pixels@,
        ),
{
    match EnvironmentImage::check(image.width, image.height, image.data.len()) {
        Some(error) => {
            return Err(StageError::InvalidInput(error));
        },
        None => {},
    }
    if dst_size == 0 {
        return Err(StageError::InvalidInput(InvalidInputError::ZeroDestinationSize));
    }
    let n: u128 = dst_size as u128;
    assert(6 * n * n <= 6 * 0xffff_ffff * 0xffff_ffff) by (nonlinear_arith)
        requires
            0 < n <= 0xffff_ffff,
    ;
    assert(texel_count(dst_size as nat) == 6 * n * n) by (nonlinear_arith)
        requires
            texel_count(dst_size as nat) == 6 * (dst_size as nat) * (dst_size as nat),
            n == dst_size,
    ;
    if source_pixels.len() as u128 != 6 * n * n {
        return Err(StageError::InvalidInput(InvalidInputError::LookupSizeMismatch));
    }
    let width: usize = image.width as usize;
    let height: usize = image.height as usize;
    let count: usize = source_pixels.len();
    let length: usize = image.data.len();
    let ghost w = image.width as nat;
    let ghost h = image.height as nat;
    let mut cubemap: Vec<u8> = Vec::new();
    let mut k: usize = 0;
    while k < count
        invariant
            k <= count == source_pixels@.len(),
            width == w == image.width,
            height == h == image.height,
            w > 0,
            h > 0,
            image.data@.len() == w * h * 16 == length,
            SOURCE_BYTES_PER_TEXEL == 16,
            cubemap@.len() == k * 16,
            forall|i: int|
                0 <= i < k * 16 ==> cubemap@[i] == image.data@[spec_source_offset(
                    w,
                    h,
                    source_pixels@[i / 16],
                ) + i % 16],
        decreases count - k,
    {
        let pixel = source_pixels[k];
        let column: usize = clamp_to(pixel.0, image.width);
        let row: usize = clamp_to(pixel.1, image.height);
        assert(0 <= row * w <= row * w + column < w * h && (row * w + column) * 16 + 16 <= w * h
            * 16) by (nonlinear_arith)
            requires
                0 <= row < h,
                0 <= column < w,
        ;
        let offset: usize = (row * width + column) * 16;
        assert(offset == spec_source_offset(w, h, pixel));
        let mut byte: usize = 0;
        while byte < 16
            invariant
                byte <= 16,
                k < count == source_pixels@.len(),
                pixel == source_pixels@[k as int],
                offset == spec_source_offset(w, h, pixel),
                offset + 16 <= image.data@.len(),
                cubemap@.len() == k * 16 + byte,
                forall|i: int|
                    0 <= i < k * 16 + byte ==> cubemap@[i] == image.data@[spec_source_offset(
                        w,
                        h,
                        source_pixels@[i / 16],
                    ) + i % 16],
            decreases 16 - byte,
        {
            cubemap.push(image.data[offset + byte]);
            byte = byte + 1;
        }
        k = k + 1;
    }
    Ok(cubemap)
}

/// Position in the memory of the base, a cubemap with faces of
/// `base_size` texels, of the texel that lies along the direction of the
/// texel at position `k` of a cubemap with faces of `dst_size` texels.
pub open spec fn spec_mirror_source(k: nat, base_size: u32, dst_size: u32) -> nat {
    let texel = spec_texel_at(k, dst_size as nat);
    let direction = texel.face.spec_texel_direction(
        texel.x as int,
        texel.y as int,
        dst_size as int,
    );
    spec_texel_index(CubeFace::spec_locate(direction, base_size)->0, base_size as nat)
}

/// The memory of the mirror level: texel `k` is the texel of `base` at
/// `spec_mirror_source(k)`.
pub open spec fn spec_mirror(base: Seq<u8>, base_size: u32, dst_size: u32) -> Seq<u8> {
    Seq::new(
        texel_count(dst_size as nat) * SOURCE_BYTES_PER_TEXEL as nat,
        |i: int|
            base[spec_mirror_source((i / 16) as nat, base_size, dst_size) * 16 + i % 16],
    )
}

/// Why the mirror level of `dst_size` texels a side cannot be made from
/// `base_len` bytes of a base of `base_size` texels a side, if it cannot.
pub open spec fn spec_mirror_error(base_len: nat, base_size: u32, dst_size: u32) -> Option<
    StageError,
> {
    if base_size == 0 || base_len != texel_count(base_size as nat) * SOURCE_BYTES_PER_TEXEL {
        Some(StageError::InvalidInput(InvalidInputError::NotACubemap))
    } else if dst_size == 0 {
        Some(StageError::InvalidInput(InvalidInputError::ZeroDestinationSize))
    } else if texel_count(dst_size as nat) * SOURCE_BYTES_PER_TEXEL > usize::MAX {
        Some(StageError::InvalidInput(InvalidInputError::DestinationTooLarge))
    } else {
        None
    }
}

/// Bytes of a cubemap with faces of `size` by `size` texels.
fn cubemap_bytes(size: u32) -> (bytes: u128)
    ensures
        bytes == texel_count(size as nat) * SOURCE_BYTES_PER_TEXEL,
{
    let n: u128 = size as u128;
    assert(6 * n * n * 16 <= 6 * 0xffff_ffff * 0xffff_ffff * 16 && 0 <= 6 * n * n) by (nonlinear_arith)
        requires
            0 <= n <= 0xffff_ffff,
    ;
    assert(texel_count(size as nat) == 6 * n * n) by (nonlinear_arith)
        requires
            texel_count(size as nat) == 6 * (size as nat) * (size as nat),
            n == size,
    ;
    6 * n * n * 16
}

/// Prefilters, in memory, the base cubemap `base` with faces of
/// `base_size` texels into the mirror level of a specular cubemap with
/// faces of `dst_size` texels: every texel is a copy of the texel of the
/// base that a lookup along its direction reads. Fails where `base` is not
/// the memory of six faces of `base_size` texels, and where the
/// destination has no texels or does not fit in memory.
pub fn mirror_texels(base: &[u8], base_size: u32, dst_size: u32) -> (level: Result<
    Vec<u8>,
    StageError,
>)
    ensures
        level is Err <==> spec_mirror_error(base@.len(), base_size, dst_size) is Some,
        level is Err ==> level->Err_0 == spec_mirror_error(base@.len(), base_size, dst_size)->0,
        level is Ok ==> level->Ok_0@ == spec_mirror(base@, base_size, dst_size),
{
    let length: usize = base.len();
    if base_size == 0 || length as u128 != cubemap_bytes(base_size) {
        return Err(StageError::InvalidInput(InvalidInputError::NotACubemap));
    }
    if dst_size == 0 {
        return Err(StageError::InvalidInput(InvalidInputError::ZeroDestinationSize));
    }
    let bytes: u128 = cubemap_bytes(dst_size);
    if bytes > usize::MAX as u128 {
        return Err(StageError::InvalidInput(InvalidInputError::DestinationTooLarge));
    }
    let count: usize = (bytes / 16) as usize;
    let mut level: Vec<u8> = Vec::new();
    let mut k: usize = 0;
    while k < count
        invariant
            k <= count == texel_count(dst_size as nat),
            base_size > 0,
            dst_size > 0,
            base@.len() == length == texel_count(base_size as nat) * 16,
            level@.len() == k * 16,
            forall|i: int|
                0 <= i < k * 16 ==> level@[i] == base@[spec_mirror_source(
                    (i / 16) as nat,
                    base_size,
                    dst_size,
                ) * 16 + i % 16],
        decreases count - k,
    {
        let source: usize = mirror_source(k, base_size, dst_size);
        let offset: usize = source * 16;
        let mut byte: usize = 0;
        while byte < 16
            invariant
                byte <= 16,
                k < count,
                source == spec_mirror_source(k as nat, base_size, dst_size),
                offset == source * 16,
                offset + 16 <= base@.len(),
                level@.len() == k * 16 + byte,
                forall|i: int|
                    0 <= i < k * 16 + byte ==> level@[i] == base@[spec_mirror_source(
                        (i / 16) as nat,
                        base_size,
                        dst_size,
                    ) * 16 + i % 16],
            decreases 16 - byte,
        {
            level.push(base[offset + byte]);
            byte = byte + 1;
        }
        k = k + 1;
    }
    Ok(level)
}

/// Position in the base of the texel that the texel at position `k` of
/// the mirror level copies.
fn mirror_source(k: usize, base_size: u32, dst_size: u32) -> (source: usize)
    requires
        base_size > 0,
        k < texel_count(dst_size as nat),
        texel_count(base_size as nat) <= usize::MAX,
    ensures
        source == spec_mirror_source(k as nat, base_size, dst_size),
        source < texel_count(base_size as nat),
{
    let texel = match texel_at(k, dst_size) {
        Some(texel) => texel,
        None => Texel { face: CubeFace::PositiveX, x: 0, y: 0 },
    };
    proof {
        lemma_texel_direction_value(texel.face, texel.x as int, texel.y as int, dst_size as int);
    }
    let hit = match texel.face.texel_direction(texel.x, texel.y, dst_size) {
        Some(direction) => CubeFace::locate(direction, base_size),
        None => None,
    };
    match hit {
        Some(hit) => {
            proof {
                lemma_texel_index_round_trip(hit, base_size as nat);
            }
            match texel_index(hit, base_size) {
                Some(source) => source,
                None => 0,
            }
        },
        None => 0,
    }
}

/// Positions and texels correspond one to one: the position of a texel
/// on its face is below the number of texels, and the texel at that
/// position is the texel itself.
pub proof fn lemma_texel_index_round_trip(texel: Texel, size: nat)
    requires
        texel.x < size,
        texel.y < size,
    ensures
        spec_texel_index(texel, size) < texel_count(size),
        spec_texel_at(spec_texel_index(texel, size), size) == texel,
{
    let f = texel.face.spec_index() as int;
    let n = size as int;
    let x = texel.x as int;
    let y = texel.y as int;
    let row = f * n + y;
    let i = row * n + x;
    crate::pipelines::sky::face::lemma_index_round_trip(texel.face, 0);
    assert(i < 6 * n * n && 0 <= row && 0 <= i) by (nonlinear_arith)
        requires
            0 <= f < 6,
            0 <= y < n,
            0 <= x < n,
            row == f * n + y,
            i == row * n + x,
    ;
    assert(texel_count(size) == 6 * n * n) by (nonlinear_arith)
        requires
            texel_count(size) == 6 * size * size,
            n == size,
    ;
    vstd::arithmetic::div_mod::lemma_fundamental_div_mod_converse(i, n, row, x);
    vstd::arithmetic::div_mod::lemma_fundamental_div_mod_converse(row, n, f, y);
    vstd::arithmetic::div_mod::lemma_div_denominator(i, n, n);
    assert(i / (n * n) == f);
    assert(spec_texel_index(texel, size) == i);
}

/// Every byte that the projection reads lies inside the source image,
/// whatever source pixels it is given.
pub proof fn lemma_project_reads_inside(width: nat, height: nat, pixel: (i64, i64), byte: nat)
    requires
        width > 0,
        height > 0,
        byte < SOURCE_BYTES_PER_TEXEL,
    ensures
        clamped(pixel.0 as int, width) < width,
        clamped(pixel.1 as int, height) < height,
        spec_source_offset(width, height, pixel) + byte < width * height * SOURCE_BYTES_PER_TEXEL,
{
    let row = clamped(pixel.1 as int, height);
    let column = clamped(pixel.0 as int, width);
    assert((row * width + column) * 16 + 16 <= width * height * 16) by (nonlinear_arith)
        requires
            0 <= row < height,
            0 <= column < width,
    ;
}

/// The projection of an image whose texels all hold the bytes `colour`
/// is a cubemap whose texels all hold the bytes `colour`, whatever source
/// pixels it is given.
pub proof fn lemma_project_constant(
    data: Seq<u8>,
    width: nat,
    height: nat,
    pixels: Seq<(i64, i64)>,
    colour: Seq<u8>,
)
    requires
        width > 0,
        height > 0,
        data.len() == width * height * SOURCE_BYTES_PER_TEXEL,
        colour.len() == SOURCE_BYTES_PER_TEXEL,
        forall|i: int| 0 <= i < data.len() ==> #[trigger] data[i] == colour[i % 16],
    ensures
        spec_project(data, width, height, pixels).len() == pixels.len() * SOURCE_BYTES_PER_TEXEL,
        forall|i: int|
            0 <= i < pixels.len() * 16 ==> #[trigger] spec_project(data, width, height, pixels)[i]
                == colour[i % 16],
{
    let out = spec_project(data, width, height, pixels);
    assert forall|i: int| 0 <= i < pixels.len() * 16 implies #[trigger] out[i] == colour[i
        % 16] by {
        let k = i / 16;
        let b = i % 16;
        lemma_project_reads_inside(width, height, pixels[k], b as nat);
        let offset = spec_source_offset(width, height, pixels[k]) as int;
        assert(offset % 16 == 0) by (nonlinear_arith)
            requires
                offset == (clamped(pixels[k].1 as int, height) * width + clamped(
                    pixels[k].0 as int,
                    width,
                )) * 16,
        ;
        assert((offset + b) % 16 == b);
        assert(out[i] == data[offset + b]);
    }
}

/// Every texel of the mirror level is a copy of a texel of the base.
pub proof fn lemma_mirror_reads_inside(k: nat, base_size: u32, dst_size: u32)
    requires
        base_size > 0,
        k < texel_count(dst_size as nat),
    ensures
        spec_mirror_source(k, base_size, dst_size) < texel_count(base_size as nat),
{
    let n = dst_size as int;
    let a = n * n;
    assert(dst_size > 0) by (nonlinear_arith)
        requires
            k < texel_count(dst_size as nat),
            texel_count(dst_size as nat) == 6 * (dst_size as nat) * (dst_size as nat),
    ;
    assert(a > 0 && texel_count(dst_size as nat) == 6 * a) by (nonlinear_arith)
        requires
            n > 0,
            a == n * n,
            texel_count(dst_size as nat) == 6 * (dst_size as nat) * (dst_size as nat),
            n == dst_size,
    ;
    vstd::arithmetic::div_mod::lemma_fundamental_div_mod(k as int, a);
    vstd::arithmetic::div_mod::lemma_mod_bound(k as int, a);
    assert(k as int / a < 6) by (nonlinear_arith)
        requires
            k == a * (k as int / a) + k as int % a,
            0 <= k as int % a < a,
            k < 6 * a,
    ;
    vstd::arithmetic::div_mod::lemma_mod_bound(k as int, n);
    vstd::arithmetic::div_mod::lemma_mod_bound(k as int / n, n);
    let texel = spec_texel_at(k, dst_size as nat);
    let direction = texel.face.spec_texel_direction(texel.x as int, texel.y as int, n);
    lemma_texel_direction_value(texel.face, texel.x as int, texel.y as int, n);
    crate::pipelines::sky::face::lemma_covering_total(direction);
    let hit = CubeFace::spec_locate(direction, base_size)->0;
    let face = hit.face;
    lemma_components(face, direction);
    let f = crate::pipelines::sky::face::dot(face.spec_forward(), direction);
    lemma_coordinate_bound(crate::pipelines::sky::face::dot(face.spec_right(), direction), f, base_size as nat);
    lemma_coordinate_bound(crate::pipelines::sky::face::dot(face.spec_up(), direction), f, base_size as nat);
    lemma_texel_index_round_trip(hit, base_size as nat);
}

/// A texel coordinate lies on the face.
proof fn lemma_coordinate_bound(along: int, forward: int, size: nat)
    requires
        size > 0,
        forward > 0,
        -forward <= along,
    ensures
        crate::pipelines::sky::face::texel_coordinate(along, forward, size) < size,
{
    assert(((along + forward) * size) / (2 * forward) >= 0) by (nonlinear_arith)
        requires
            along + forward >= 0,
            size > 0,
            forward > 0,
    ;
}

/// The mirror level of the size of the base reproduces the base: every
/// texel off the first row and column of its face is the texel of the
/// base at the same place. (The directions of the first row and column
/// lie on the edge shared with a neighbouring face, whose texel may be
/// read instead.)
pub proof fn lemma_mirror_reproduces_base(base: Seq<u8>, size: u32, texel: Texel, byte: int)
    requires
        1 <= texel.x < size,
        1 <= texel.y < size,
        0 <= byte < 16,
        base.len() == texel_count(size as nat) * SOURCE_BYTES_PER_TEXEL,
    ensures
        spec_texel_index(texel, size as nat) < texel_count(size as nat),
        spec_mirror(base, size, size)[spec_texel_index(texel, size as nat) * 16 + byte]
            == base[spec_texel_index(texel, size as nat) * 16 + byte],
{
    let k = spec_texel_index(texel, size as nat);
    lemma_texel_index_round_trip(texel, size as nat);
    lemma_locate_texel_direction(texel.face, texel.x, texel.y, size);
    assert(spec_mirror_source(k, size, size) == k);
    let i = k * 16 + byte;
    assert(i / 16 == k && i % 16 == byte);
}

/// The mirror level of a base whose texels all hold the bytes `colour`
/// holds the bytes `colour` in all of its texels.
pub proof fn lemma_mirror_constant(base: Seq<u8>, base_size: u32, dst_size: u32, colour: Seq<u8>)
    requires
        base_size > 0,
        base.len() == texel_count(base_size as nat) * SOURCE_BYTES_PER_TEXEL,
        colour.len() == SOURCE_BYTES_PER_TEXEL,
        forall|i: int| 0 <= i < base.len() ==> #[trigger] base[i] == colour[i % 16],
    ensures
        forall|i: int|
            0 <= i < texel_count(dst_size as nat) * 16 ==> #[trigger] spec_mirror(
                base,
                base_size,
                dst_size,
            )[i] == colour[i % 16],
{
    let out = spec_mirror(base, base_size, dst_size);
    assert forall|i: int| 0 <= i < texel_count(dst_size as nat) * 16 implies #[trigger] out[i]
        == colour[i % 16] by {
        let k = (i / 16) as nat;
        lemma_mirror_reads_inside(k, base_size, dst_size);
        let source = spec_mirror_source(k, base_size, dst_size) as int;
        assert((source * 16 + i % 16) % 16 == i % 16);
        assert(out[i] == base[source * 16 + i % 16]);
    }
}

} // verus!
