use vstd::prelude::*;

verus! {

/// The sizes, in pixels, of the images in the icon file of the Windows executable.
pub open spec fn icon_sizes() -> Seq<u32> {
    seq![16u32, 24, 32, 48, 64, 128, 256]
}

/// A 16-bit value as two bytes, least significant first.
pub open spec fn le16(v: nat) -> Seq<u8> {
    seq![(v % 256) as u8, ((v / 256) % 256) as u8]
}

/// A 32-bit value as four bytes, least significant first.
pub open spec fn le32(v: nat) -> Seq<u8> {
    seq![
        (v % 256) as u8,
        ((v / 256) % 256) as u8,
        ((v / 65536) % 256) as u8,
        ((v / 16777216) % 256) as u8,
    ]
}

/// The bytes of one row of the transparency mask: one bit per pixel, rounded up to
/// whole 32-bit words.
pub open spec fn mask_stride(size: nat) -> nat {
    ((size + 31) / 32) * 4
}

/// The header of a device-independent bitmap of `size` by `size` pixels, 32 bits each,
/// whose recorded height counts the colour rows and the mask rows.
pub open spec fn dib_header(size: nat) -> Seq<u8> {
    le32(40) + le32(size) + le32(2 * size) + le16(1) + le16(32) + le32(0) + le32(
        4 * size * size + mask_stride(size) * size,
    ) + Seq::new(16, |i: int| 0u8)
}

/// Row `y` of an RGBA drawing `size` pixels wide, in BGRA order.
pub open spec fn bgra_row(size: nat, rgba: Seq<u8>, y: nat) -> Seq<u8> {
    Seq::new(
        4 * size,
        |b: int|
            {
                let o = (y * size + b / 4) * 4;
                if b % 4 == 0 {
                    rgba[o + 2]
                } else if b % 4 == 1 {
                    rgba[o + 1]
                } else if b % 4 == 2 {
                    rgba[o]
                } else {
                    rgba[o + 3]
                }
            },
    )
}

/// The first `n` colour rows of the bitmap: the drawing's rows from the bottom up.
pub open spec fn bgra_rows(size: nat, rgba: Seq<u8>, n: nat) -> Seq<u8>
    decreases n,
{
    if n == 0 || n > size {
        Seq::empty()
    } else {
        bgra_rows(size, rgba, (n - 1) as nat) + bgra_row(size, rgba, (size - n) as nat)
    }
}

/// Whether the pixel at `x`, `y` of the drawing is mostly transparent.
pub open spec fn transparent(size: nat, rgba: Seq<u8>, y: nat, x: nat) -> bool {
    rgba[((y * size + x) * 4 + 3) as int] < 128
}

/// Byte `i` of the mask row `y`, built from its first `k` bits: the bit of a pixel,
/// counted from the most significant, is set when the pixel is mostly transparent.
pub open spec fn mask_byte(size: nat, rgba: Seq<u8>, y: nat, i: nat, k: nat) -> u8
    decreases k,
{
    if k == 0 {
        0
    } else {
        let prev = mask_byte(size, rgba, y, i, (k - 1) as nat);
        let x = 8 * i + k - 1;
        if x < size && transparent(size, rgba, y, x as nat) {
            prev | (128u8 >> ((k - 1) as u8))
        } else {
            prev
        }
    }
}

/// Mask row `y` of the drawing.
pub open spec fn mask_row(size: nat, rgba: Seq<u8>, y: nat) -> Seq<u8> {
    Seq::new(mask_stride(size), |i: int| mask_byte(size, rgba, y, i as nat, 8))
}

/// The first `n` mask rows of the bitmap, from the bottom up.
pub open spec fn mask_rows(size: nat, rgba: Seq<u8>, n: nat) -> Seq<u8>
    decreases n,
{
    if n == 0 || n > size {
        Seq::empty()
    } else {
        mask_rows(size, rgba, (n - 1) as nat) + mask_row(size, rgba, (size - n) as nat)
    }
}

/// The bitmap that an icon file holds for an RGBA drawing `size` pixels wide: the
/// header, the colour rows and the mask rows, bottom up.
pub open spec fn spec_dib_image(size: nat, rgba: Seq<u8>) -> Seq<u8> {
    dib_header(size) + bgra_rows(size, rgba, size) + mask_rows(size, rgba, size)
}

fn push_u16(out: &mut Vec<u8>, v: u16)
    ensures
        final(out)@ == old(out)@ + le16(v as nat),
{
    out.push((v % 256) as u8);
    out.push((v / 256) as u8);
    assert(final(out)@ =~= old(out)@ + le16(v as nat));
}

fn push_u32(out: &mut Vec<u8>, v: u32)
    ensures
        final(out)@ == old(out)@ + le32(v as nat),
{
    out.push((v % 256) as u8);
    out.push(((v / 256) % 256) as u8);
    out.push(((v / 65536) % 256) as u8);
    out.push((v / 16777216) as u8);
    assert(final(out)@ =~= old(out)@ + le32(v as nat));
}

proof fn lemma_pixel_in_drawing(size: nat, y: nat, x: nat)
    requires
        y < size,
        x < size,
    ensures
        (y * size + x) * 4 + 3 < 4 * size * size,
        y * size + x < size * size,
{
    assert(y * size + x < size * size) by (nonlinear_arith)
        requires
            y < size,
            x < size,
    ;
    assert((y * size + x) * 4 + 3 < 4 * size * size) by (nonlinear_arith)
        requires
            y * size + x < size * size,
    ;
}

fn push_bgra_row(image: &mut Vec<u8>, size: u32, rgba: &Vec<u8>, y: u32)
    requires
        y < size,
        rgba@.len() == 4 * size * size,
        4 * size * size <= u32::MAX,
    ensures
        final(image)@ == old(image)@ + bgra_row(size as nat, rgba@, y as nat),
{
    let ghost before = image@;
    let ghost row = bgra_row(size as nat, rgba@, y as nat);
    let mut x: u32 = 0;
    while x < size
        invariant
            y < size,
            x <= size,
            rgba@.len() == 4 * size * size,
            4 * size * size <= u32::MAX,
            row == bgra_row(size as nat, rgba@, y as nat),
            image@ == before + row.take(4 * x),
        decreases size - x,
    {
        proof {
            lemma_pixel_in_drawing(size as nat, y as nat, x as nat);
        }
        let offset = ((y * size + x) * 4) as usize;
        image.push(rgba[offset + 2]);
        image.push(rgba[offset + 1]);
        image.push(rgba[offset]);
        image.push(rgba[offset + 3]);
        proof {
            let b = 4 * x as int;
            assert(b / 4 == x && (b + 1) / 4 == x && (b + 2) / 4 == x && (b + 3) / 4 == x);
            assert(b % 4 == 0 && (b + 1) % 4 == 1 && (b + 2) % 4 == 2 && (b + 3) % 4 == 3);
            assert(image@ =~= before + row.take(4 * (x + 1)));
        }
        x = x + 1;
    }
    assert(row.take(4 * size) =~= row);
}

fn push_mask_row(image: &mut Vec<u8>, size: u32, rgba: &Vec<u8>, y: u32)
    requires
        y < size,
        rgba@.len() == 4 * size * size,
        4 * size * size + mask_stride(size as nat) * size <= u32::MAX,
    ensures
        final(image)@ == old(image)@ + mask_row(size as nat, rgba@, y as nat),
{
    let ghost before = image@;
    let ghost row = mask_row(size as nat, rgba@, y as nat);
    assert(size < 65536) by (nonlinear_arith)
        requires
            4 * size * size <= u32::MAX,
    ;
    let stride: u32 = (size + 31) / 32 * 4;
    let mut i: u32 = 0;
    while i < stride
        invariant
            y < size,
            i <= stride,
            stride == mask_stride(size as nat),
            rgba@.len() == 4 * size * size,
            4 * size * size <= u32::MAX,
            row == mask_row(size as nat, rgba@, y as nat),
            image@ == before + row.take(i as int),
        decreases stride - i,
    {
        let mut value: u8 = 0;
        let mut k: u8 = 0;
        while k < 8
            invariant
                y < size,
                i < stride,
                stride == mask_stride(size as nat),
                k <= 8,
                rgba@.len() == 4 * size * size,
                4 * size * size <= u32::MAX,
                value == mask_byte(size as nat, rgba@, y as nat, i as nat, k as nat),
            decreases 8 - k,
        {
            assert(8 * i + k < 8 * stride);
            let x: u32 = 8 * i + k as u32;
            if x < size {
                proof {
                    lemma_pixel_in_drawing(size as nat, y as nat, x as nat);
                }
                if rgba[((y * size + x) * 4 + 3) as usize] < 128 {
                    value = value | (128u8 >> k);
                }
            }
            k = k + 1;
        }
        image.push(value);
        proof {
            assert(image@ =~= before + row.take(i + 1));
        }
        i = i + 1;
    }
    assert(row.take(stride as int) =~= row);
}

/// The bitmap that an icon file holds for an RGBA drawing `size` pixels wide.
pub fn dib_image(size: u32, rgba: &Vec<u8>) -> (r: Vec<u8>)
    requires
        rgba@.len() == 4 * size * size,
        4 * size * size + mask_stride(size as nat) * size <= u32::MAX,
    ensures
        r@ == spec_dib_image(size as nat, rgba@),
{
    assert(size < 65536) by (nonlinear_arith)
        requires
            4 * size * size <= u32::MAX,
    ;
    let stride: u32 = (size + 31) / 32 * 4;
    assert(size * size * 4 == 4 * size * size) by (nonlinear_arith);
    assert(size * size <= 4 * size * size) by (nonlinear_arith);
    let bitmap_bytes: u32 = size * size * 4;
    let mask_bytes: u32 = stride * size;
    let mut image: Vec<u8> = Vec::new();
    push_u32(&mut image, 40);
    push_u32(&mut image, size);
    push_u32(&mut image, size * 2);
    push_u16(&mut image, 1);
    push_u16(&mut image, 32);
    push_u32(&mut image, 0);
    push_u32(&mut image, bitmap_bytes + mask_bytes);
    let ghost fixed = image@;
    let mut z: usize = 0;
    while z < 16
        invariant
            z <= 16,
            image@ == fixed + Seq::new(z as nat, |i: int| 0u8),
        decreases 16 - z,
    {
        image.push(0);
        proof {
            assert(image@ =~= fixed + Seq::new((z + 1) as nat, |i: int| 0u8));
        }
        z = z + 1;
    }
    let ghost header = image@;
    assert(header =~= dib_header(size as nat));
    let mut n: u32 = 0;
    while n < size
        invariant
            n <= size,
            rgba@.len() == 4 * size * size,
            4 * size * size + mask_stride(size as nat) * size <= u32::MAX,
            image@ == header + bgra_rows(size as nat, rgba@, n as nat),
        decreases size - n,
    {
        push_bgra_row(&mut image, size, rgba, size - 1 - n);
        proof {
            assert(image@ =~= header + bgra_rows(size as nat, rgba@, (n + 1) as nat));
        }
        n = n + 1;
    }
    let ghost colours = image@;
    let mut m: u32 = 0;
    while m < size
        invariant
            m <= size,
            rgba@.len() == 4 * size * size,
            4 * size * size + mask_stride(size as nat) * size <= u32::MAX,
            image@ == colours + mask_rows(size as nat, rgba@, m as nat),
        decreases size - m,
    {
        push_mask_row(&mut image, size, rgba, size - 1 - m);
        proof {
            assert(image@ =~= colours + mask_rows(size as nat, rgba@, (m + 1) as nat));
        }
        m = m + 1;
    }
    image
}

proof fn lemma_row_lengths(size: nat, rgba: Seq<u8>, n: nat)
    requires
        n <= size,
    ensures
        bgra_rows(size, rgba, n).len() == n * (4 * size),
        mask_rows(size, rgba, n).len() == n * mask_stride(size),
    decreases n,
{
    if n > 0 {
        let m = (n - 1) as nat;
        let w = 4 * size;
        let stride = mask_stride(size);
        lemma_row_lengths(size, rgba, m);
        assert(m * w + w == n * w) by (nonlinear_arith)
            requires
                m + 1 == n,
        ;
        assert(m * stride + stride == n * stride) by (nonlinear_arith)
            requires
                m + 1 == n,
        ;
        assert(bgra_rows(size, rgba, n) == bgra_rows(size, rgba, m) + bgra_row(
            size,
            rgba,
            (size - n) as nat,
        ));
        assert(bgra_row(size, rgba, (size - n) as nat).len() == w);
    } else {
        assert(0 * (4 * size) == 0);
    }
}

/// The length of the bitmap of a drawing `size` pixels wide: the header, four bytes a
/// pixel, and the mask rows.
pub proof fn lemma_dib_image_length(size: nat, rgba: Seq<u8>)
    ensures
        spec_dib_image(size, rgba).len() == 40 + 4 * size * size + mask_stride(size) * size,
{
    lemma_row_lengths(size, rgba, size);
    assert(size * (4 * size) == 4 * size * size) by (nonlinear_arith);
    assert(size * mask_stride(size) == mask_stride(size) * size) by (nonlinear_arith);
}

/// The byte that an icon directory gives for a width or height: 256 is written as 0.
pub open spec fn dimension_byte(size: nat) -> u8 {
    if size == 256 {
        0
    } else {
        size as u8
    }
}

/// The directory entry of a square 32-bit image of `len` bytes at `offset`.
pub open spec fn dir_entry(size: nat, len: nat, offset: nat) -> Seq<u8> {
    seq![dimension_byte(size), dimension_byte(size), 0u8, 0u8] + le16(1) + le16(32) + le32(len)
        + le32(offset)
}

/// The bytes of a list of images, one after the other.
pub open spec fn concat_images(images: Seq<Seq<u8>>) -> Seq<u8>
    decreases images.len(),
{
    if images.len() == 0 {
        Seq::empty()
    } else {
        concat_images(images.drop_last()) + images.last()
    }
}

/// Where image `i` starts in an icon file: after the header, the directory and the
/// images before it.
pub open spec fn image_offset(images: Seq<Seq<u8>>, i: int) -> nat {
    6 + 16 * images.len() + concat_images(images.take(i)).len()
}

/// The first `n` entries of the directory of an icon file.
pub open spec fn directory(sizes: Seq<u32>, images: Seq<Seq<u8>>, n: nat) -> Seq<u8>
    decreases n,
{
    if n == 0 || n > images.len() {
        Seq::empty()
    } else {
        directory(sizes, images, (n - 1) as nat) + dir_entry(
            sizes[n - 1] as nat,
            images[n - 1].len(),
            image_offset(images, n - 1),
        )
    }
}

/// An icon file: the header (reserved, type icon, image count), one directory entry per
/// image, then the images.
pub open spec fn spec_ico_file(sizes: Seq<u32>, images: Seq<Seq<u8>>) -> Seq<u8> {
    le16(0) + le16(1) + le16(images.len()) + directory(sizes, images, images.len())
        + concat_images(images)
}

/// The byte sequences of a list of byte vectors.
pub open spec fn byte_views(images: Seq<Vec<u8>>) -> Seq<Seq<u8>> {
    images.map_values(|v: Vec<u8>| v@)
}

/// An icon file holding square 32-bit images of the given sizes.
pub fn ico_file(sizes: &Vec<u32>, images: &Vec<Vec<u8>>) -> (r: Vec<u8>)
    requires
        sizes@.len() == images@.len(),
        images@.len() <= 0xffff,
        forall|i: int| 0 <= i < sizes@.len() ==> #[trigger] sizes@[i] <= 256,
        6 + 16 * images@.len() + concat_images(byte_views(images@)).len() <= u32::MAX,
    ensures
        r@ == spec_ico_file(sizes@, byte_views(images@)),
{
    let ghost views = byte_views(images@);
    let count = images.len();
    let mut output: Vec<u8> = Vec::new();
    push_u16(&mut output, 0);
    push_u16(&mut output, 1);
    push_u16(&mut output, count as u16);
    let ghost head = output@;
    let mut next_offset: u32 = (6 + count * 16) as u32;
    let mut i: usize = 0;
    proof {
        assert(views.take(0) =~= Seq::<Seq<u8>>::empty());
    }
    while i < count
        invariant
            count == images@.len(),
            sizes@.len() == count,
            views == byte_views(images@),
            i <= count,
            forall|j: int| 0 <= j < sizes@.len() ==> #[trigger] sizes@[j] <= 256,
            6 + 16 * count + concat_images(views).len() <= u32::MAX,
            next_offset == image_offset(views, i as int),
            output@ == head + directory(sizes@, views, i as nat),
        decreases count - i,
    {
        let size = sizes[i];
        let len = images[i].len();
        proof {
            lemma_concat_prefix_length(views, i as int + 1);
            assert(views.take(i + 1).drop_last() =~= views.take(i as int));
            assert(views.take(i + 1).last() == views[i as int]);
        }
        let dimension: u8 = if size == 256 {
            0
        } else {
            size as u8
        };
        output.push(dimension);
        output.push(dimension);
        output.push(0);
        output.push(0);
        push_u16(&mut output, 1);
        push_u16(&mut output, 32);
        push_u32(&mut output, len as u32);
        push_u32(&mut output, next_offset);
        proof {
            assert(output@ =~= head + directory(sizes@, views, (i + 1) as nat));
        }
        next_offset = next_offset + len as u32;
        i = i + 1;
    }
    let ghost listed = output@;
    let mut k: usize = 0;
    proof {
        assert(concat_images(views.take(0)) =~= Seq::<u8>::empty());
    }
    while k < count
        invariant
            count == images@.len(),
            views == byte_views(images@),
            k <= count,
            output@ == listed + concat_images(views.take(k as int)),
        decreases count - k,
    {
        let ghost before = output@;
        let mut b: usize = 0;
        while b < images[k].len()
            invariant
                k < count,
                count == images@.len(),
                b <= images@[k as int]@.len(),
                output@ == before + images@[k as int]@.take(b as int),
            decreases images@[k as int]@.len() - b,
        {
            output.push(images[k][b]);
            proof {
                assert(output@ =~= before + images@[k as int]@.take(b + 1));
            }
            b = b + 1;
        }
        proof {
            assert(images@[k as int]@.take(b as int) =~= images@[k as int]@);
            assert(views.take(k + 1).drop_last() =~= views.take(k as int));
            assert(output@ =~= listed + concat_images(views.take(k + 1)));
        }
        k = k + 1;
    }
    proof {
        assert(views.take(count as int) =~= views);
        assert(output@ =~= spec_ico_file(sizes@, views));
    }
    output
}

proof fn lemma_concat_prefix_length(images: Seq<Seq<u8>>, n: int)
    requires
        0 <= n <= images.len(),
    ensures
        concat_images(images.take(n)).len() <= concat_images(images).len(),
        n > 0 ==> concat_images(images.take(n)).len() == concat_images(images.take(n - 1)).len()
            + images[n - 1].len(),
    decreases images.len() - n,
{
    if n > 0 {
        assert(images.take(n).drop_last() =~= images.take(n - 1));
    }
    if n < images.len() {
        lemma_concat_prefix_length(images, n + 1);
        assert(images.take(n + 1).drop_last() =~= images.take(n));
    } else {
        assert(images.take(n) =~= images);
    }
}

proof fn lemma_concat_length_bound(images: Seq<Seq<u8>>, most: nat)
    requires
        forall|i: int| 0 <= i < images.len() ==> (#[trigger] images[i]).len() <= most,
    ensures
        concat_images(images).len() <= images.len() * most,
    decreases images.len(),
{
    if images.len() > 0 {
        let rest = images.drop_last();
        assert forall|i: int| 0 <= i < rest.len() implies (#[trigger] rest[i]).len() <= most by {
            assert(rest[i] == images[i]);
        }
        lemma_concat_length_bound(rest, most);
        let n = images.len();
        assert(rest.len() * most + most == n * most) by (nonlinear_arith)
            requires
                rest.len() + 1 == n,
        ;
    }
}

proof fn lemma_small_drawing_fits(size: u32)
    requires
        size <= 256,
    ensures
        4 * size * size + mask_stride(size as nat) * size <= 270336,
{
    let stride = mask_stride(size as nat);
    assert(stride <= 32);
    assert(4 * size * size <= 262144) by (nonlinear_arith)
        requires
            size <= 256,
    ;
    assert(stride * size <= 8192) by (nonlinear_arith)
        requires
            size <= 256,
            stride <= 32,
    ;
}

/// The bitmaps of the drawings, one for each icon size.
pub open spec fn icon_images(drawings: Seq<Vec<u8>>) -> Seq<Seq<u8>> {
    Seq::new(7, |i: int| spec_dib_image(icon_sizes()[i] as nat, drawings[i]@))
}

/// The icon file of the Windows executable: a bitmap for each of the icon sizes, 16 to
/// 256 pixels, from RGBA drawings given in the order of the sizes.
pub fn windows_icon(drawings: &Vec<Vec<u8>>) -> (r: Vec<u8>)
    requires
        drawings@.len() == 7,
        forall|i: int|
            0 <= i < 7 ==> (#[trigger] drawings@[i])@.len() == 4 * icon_sizes()[i] * icon_sizes()[i],
    ensures
        r@ == spec_ico_file(icon_sizes(), icon_images(drawings@)),
{
    let sizes: Vec<u32> = vec![16, 24, 32, 48, 64, 128, 256];
    assert(sizes@ =~= icon_sizes());
    let mut images: Vec<Vec<u8>> = Vec::new();
    let mut i: usize = 0;
    while i < 7
        invariant
            sizes@ == icon_sizes(),
            drawings@.len() == 7,
            forall|j: int|
                0 <= j < 7 ==> (#[trigger] drawings@[j])@.len() == 4 * icon_sizes()[j]
                    * icon_sizes()[j],
            i <= 7,
            images@.len() == i,
            forall|j: int|
                0 <= j < i ==> (#[trigger] images@[j])@ == spec_dib_image(
                    icon_sizes()[j] as nat,
                    drawings@[j]@,
                ),
        decreases 7 - i,
    {
        let size = sizes[i];
        proof {
            assert(size <= 256);
            lemma_small_drawing_fits(size);
        }
        images.push(dib_image(size, &drawings[i]));
        i = i + 1;
    }
    proof {
        let views = byte_views(images@);
        assert(views =~= icon_images(drawings@));
        assert forall|j: int| 0 <= j < views.len() implies (#[trigger] views[j]).len() <= 270376 by {
            lemma_dib_image_length(icon_sizes()[j] as nat, drawings@[j]@);
            lemma_small_drawing_fits(icon_sizes()[j]);
        }
        lemma_concat_length_bound(views, 270376);
    }
    ico_file(&sizes, &images)
}

proof fn lemma_directory_entries(sizes: Seq<u32>, images: Seq<Seq<u8>>, n: nat, i: int)
    requires
        n <= images.len(),
        0 <= i < n,
    ensures
        directory(sizes, images, n).len() == 16 * n,
        directory(sizes, images, n).subrange(16 * i, 16 * i + 16) == dir_entry(
            sizes[i] as nat,
            images[i].len(),
            image_offset(images, i),
        ),
    decreases n,
{
    let prev = directory(sizes, images, (n - 1) as nat);
    if i < n - 1 {
        lemma_directory_entries(sizes, images, (n - 1) as nat, i);
        assert(directory(sizes, images, n).subrange(16 * i, 16 * i + 16) =~= prev.subrange(
            16 * i,
            16 * i + 16,
        ));
    } else {
        lemma_directory_length(sizes, images, (n - 1) as nat);
        assert(directory(sizes, images, n).subrange(16 * i, 16 * i + 16) =~= dir_entry(
            sizes[i] as nat,
            images[i].len(),
            image_offset(images, i),
        ));
    }
}

proof fn lemma_directory_length(sizes: Seq<u32>, images: Seq<Seq<u8>>, n: nat)
    requires
        n <= images.len(),
    ensures
        directory(sizes, images, n).len() == 16 * n,
    decreases n,
{
    if n > 0 {
        lemma_directory_length(sizes, images, (n - 1) as nat);
    }
}

proof fn lemma_concat_holds_image(images: Seq<Seq<u8>>, i: int)
    requires
        0 <= i < images.len(),
    ensures
        concat_images(images).subrange(
            concat_images(images.take(i)).len() as int,
            (concat_images(images.take(i)).len() + images[i].len()) as int,
        ) == images[i],
    decreases images.len(),
{
    let rest = images.drop_last();
    if i == images.len() - 1 {
        assert(images.take(i) =~= rest);
    } else {
        assert(rest.take(i) =~= images.take(i));
        assert(rest[i] == images[i]);
        lemma_concat_holds_image(rest, i);
        lemma_concat_prefix_length(rest, i + 1);
        lemma_concat_prefix_length(rest, i);
        assert(rest.take(i + 1).drop_last() =~= rest.take(i));
        assert(concat_images(images).subrange(
            concat_images(images.take(i)).len() as int,
            (concat_images(images.take(i)).len() + images[i].len()) as int,
        ) =~= concat_images(rest).subrange(
            concat_images(rest.take(i)).len() as int,
            (concat_images(rest.take(i)).len() + rest[i].len()) as int,
        ));
    }
}

/// Each directory entry of an icon file gives the size, length and offset of its image,
/// and the bytes at that offset are the image.
pub proof fn lemma_entries_locate_images(sizes: Seq<u32>, images: Seq<Seq<u8>>, i: int)
    requires
        sizes.len() == images.len(),
        images.len() <= 0xffff,
        0 <= i < images.len(),
    ensures
        spec_ico_file(sizes, images).subrange(6 + 16 * i, 6 + 16 * i + 16) == dir_entry(
            sizes[i] as nat,
            images[i].len(),
            image_offset(images, i),
        ),
        image_offset(images, i) + images[i].len() <= spec_ico_file(sizes, images).len(),
        spec_ico_file(sizes, images).subrange(
            image_offset(images, i) as int,
            (image_offset(images, i) + images[i].len()) as int,
        ) == images[i],
{
    let file = spec_ico_file(sizes, images);
    let n = images.len();
    let head = le16(0) + le16(1) + le16(n);
    let dir = directory(sizes, images, n);
    lemma_directory_entries(sizes, images, n, i);
    lemma_concat_holds_image(images, i);
    lemma_concat_prefix_length(images, i + 1);
    lemma_concat_prefix_length(images, i);
    assert(file == head + dir + concat_images(images));
    assert(file.subrange(6 + 16 * i, 6 + 16 * i + 16) =~= dir.subrange(16 * i, 16 * i + 16));
    let start = concat_images(images.take(i)).len() as int;
    assert(file.subrange(
        image_offset(images, i) as int,
        (image_offset(images, i) + images[i].len()) as int,
    ) =~= concat_images(images).subrange(start, start + images[i].len()));
}

/// Every bitmap of the executable's icon begins with the 40-byte header length.
pub proof fn lemma_icon_images_begin_with_header(drawings: Seq<Vec<u8>>, i: int)
    requires
        0 <= i < 7,
    ensures
        icon_images(drawings)[i].subrange(0, 4) == le32(40),
        icon_images(drawings)[i].len() > 40,
{
    let size = icon_sizes()[i] as nat;
    lemma_dib_image_length(size, drawings[i]@);
    assert(icon_images(drawings)[i].subrange(0, 4) =~= le32(40));
}

} // verus!
