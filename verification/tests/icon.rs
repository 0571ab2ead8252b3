use a_simple_autoclicker::icon::{app_icon, argb_from_rgba};
use a_simple_autoclicker::tray::{toggle_label, tray_pixmap, tray_title, TrayCommand};

fn pixel(rgba: &[u8], x: usize, y: usize) -> &[u8] {
    let offset = (y * 32 + x) * 4;
    &rgba[offset..offset + 4]
}

#[test]
fn app_icon_is_a_disc_with_a_white_mark() {
    let (rgba, width, height) = app_icon(false);
    assert_eq!((width, height), (32, 32));
    assert_eq!(rgba.len(), 32 * 32 * 4);
    assert_eq!(pixel(&rgba, 0, 0), &[0, 0, 0, 0]);
    assert_eq!(pixel(&rgba, 31, 31), &[0, 0, 0, 0]);
    assert_eq!(pixel(&rgba, 15, 15), &[255, 255, 255, 255]);
    assert_eq!(pixel(&rgba, 5, 15), &[28, 126, 224, 255]);
    let (active, _, _) = app_icon(true);
    assert_eq!(pixel(&active, 5, 15), &[224, 42, 42, 255]);
    assert_eq!(pixel(&active, 15, 15), &[255, 255, 255, 255]);
}

#[test]
fn tray_pixels_are_argb() {
    let rgba = vec![1, 2, 3, 4, 5, 6, 7, 8, 9];
    assert_eq!(argb_from_rgba(&rgba), vec![4, 1, 2, 3, 8, 5, 6, 7]);
    assert_eq!(argb_from_rgba(&vec![]), Vec::<u8>::new());
}

#[test]
fn tray_texts_follow_the_engine() {
    assert_eq!(tray_title(true), "A Simple Autoclicker — Clicking");
    assert_eq!(tray_title(false), "A Simple Autoclicker");
    assert_eq!(toggle_label(true), "Stop clicking");
    assert_eq!(toggle_label(false), "Start clicking");
    assert_ne!(TrayCommand::ShowWindow, TrayCommand::Quit);
}

#[test]
fn tray_pixmaps_are_square_argb() {
    let rgba = vec![1, 2, 3, 4, 5, 6, 7, 8, 9, 10, 11, 12, 13, 14, 15, 16];
    let pixmap = tray_pixmap(2, &rgba);
    assert_eq!((pixmap.width, pixmap.height), (2, 2));
    assert_eq!(pixmap.data, vec![4, 1, 2, 3, 8, 5, 6, 7, 12, 9, 10, 11, 16, 13, 14, 15]);
}
