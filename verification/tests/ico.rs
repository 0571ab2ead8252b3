use a_simple_autoclicker::ico::{dib_image, ico_file, windows_icon};

/// An opaque disc on a transparent square, `size` pixels wide, as RGBA bytes.
fn disc(size: u32) -> Vec<u8> {
    let mut rgba = Vec::new();
    let centre = size as i64;
    for y in 0..size as i64 {
        for x in 0..size as i64 {
            let dx = 2 * x + 1 - centre;
            let dy = 2 * y + 1 - centre;
            let inside = dx * dx + dy * dy <= centre * centre;
            rgba.extend_from_slice(&[200, 30, 40, if inside { 255 } else { 0 }]);
        }
    }
    rgba
}

fn drawings() -> Vec<Vec<u8>> {
    [16u32, 24, 32, 48, 64, 128, 256].iter().map(|size| disc(*size)).collect()
}

#[test]
fn generated_ico_contains_valid_image_ranges() {
    let icon = windows_icon(&drawings());
    assert_eq!(&icon[..6], &[0, 0, 1, 0, 7, 0]);

    for index in 0..7usize {
        let entry = 6 + index * 16;
        let length = u32::from_le_bytes(icon[entry + 8..entry + 12].try_into().unwrap());
        let offset = u32::from_le_bytes(icon[entry + 12..entry + 16].try_into().unwrap());
        assert!(length > 40);
        assert!(offset as usize + length as usize <= icon.len());
        assert_eq!(&icon[offset as usize..offset as usize + 4], &[40, 0, 0, 0]);
    }
}

#[test]
fn icon_entries_give_sizes_and_place_images_in_order() {
    let icon = windows_icon(&drawings());
    let widths: Vec<u8> = (0..7).map(|index| icon[6 + index * 16]).collect();
    assert_eq!(widths, vec![16, 24, 32, 48, 64, 128, 0]);
    assert_eq!(&icon[6 + 4..6 + 8], &[1, 0, 32, 0]);
    let first_offset = u32::from_le_bytes(icon[6 + 12..6 + 16].try_into().unwrap());
    assert_eq!(first_offset, 6 + 7 * 16);
    let first_length = u32::from_le_bytes(icon[6 + 8..6 + 12].try_into().unwrap());
    let second_offset = u32::from_le_bytes(icon[22 + 12..22 + 16].try_into().unwrap());
    assert_eq!(second_offset, first_offset + first_length);
    assert_eq!(first_length, 40 + 16 * 16 * 4 + 4 * 16);
}

#[test]
fn bitmaps_are_bottom_up_bgra_with_a_transparency_mask() {
    // Two by two: top row red then transparent green, bottom row blue then white.
    let rgba = vec![255, 0, 0, 255, 0, 255, 0, 0, 0, 0, 255, 255, 255, 255, 255, 255];
    let image = dib_image(2, &rgba);
    assert_eq!(image.len(), 40 + 16 + 8);
    assert_eq!(&image[..4], &[40, 0, 0, 0]);
    assert_eq!(&image[4..8], &[2, 0, 0, 0]);
    assert_eq!(&image[8..12], &[4, 0, 0, 0]);
    assert_eq!(&image[12..16], &[1, 0, 32, 0]);
    assert_eq!(&image[20..24], &[24, 0, 0, 0]);
    assert_eq!(&image[40..56], &[255, 0, 0, 255, 255, 255, 255, 255, 0, 0, 255, 255, 0, 255, 0, 0]);
    assert_eq!(&image[56..], &[0, 0, 0, 0, 0b0100_0000, 0, 0, 0]);
}

#[test]
fn an_empty_icon_file_has_only_its_header() {
    assert_eq!(ico_file(&vec![], &vec![]), vec![0, 0, 1, 0, 0, 0]);
}
