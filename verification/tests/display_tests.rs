use scrap::backend::Action;
use scrap::display::Display;
use scrap::display::OutputDescriptor;
use scrap::display::Rotation;

fn descriptor(left: i32, top: i32, right: i32, bottom: i32) -> OutputDescriptor {
    OutputDescriptor { left, top, right, bottom, rotation: 0, name: [0u16; 32] }
}

fn display_with(desc: OutputDescriptor) -> Display {
    Display { output: 11, adapter: 7, desc }
}

#[test]
fn width_and_height_come_from_the_bounds() {
    let d = display_with(descriptor(100, 200, 1380, 1224));
    assert_eq!(d.width(), 1280);
    assert_eq!(d.height(), 1024);
}

#[test]
fn width_and_height_are_non_negative_for_degenerate_bounds() {
    let d = display_with(descriptor(-50, -20, -50, -20));
    assert_eq!(d.width(), 0);
    assert_eq!(d.height(), 0);
}

#[test]
fn rotation_codes_decode() {
    let mut desc = descriptor(0, 0, 1, 1);
    desc.rotation = 0;
    assert_eq!(display_with(desc).rotation(), Rotation::Unspecified);
    desc.rotation = 1;
    assert_eq!(display_with(desc).rotation(), Rotation::Identity);
    desc.rotation = 2;
    assert_eq!(display_with(desc).rotation(), Rotation::Rotate90);
    desc.rotation = 3;
    assert_eq!(display_with(desc).rotation(), Rotation::Rotate180);
    desc.rotation = 4;
    assert_eq!(display_with(desc).rotation(), Rotation::Rotate270);
    desc.rotation = 7;
    assert_eq!(display_with(desc).rotation(), Rotation::Unspecified);
}

#[test]
fn name_stops_at_the_first_terminator() {
    let mut desc = descriptor(0, 0, 1, 1);
    let text = "DISPLAY1";
    for (i, b) in text.bytes().enumerate() {
        desc.name[i] = b as u16;
    }
    // Units after the first terminator must not leak into the name.
    desc.name[9] = 'X' as u16;
    let d = display_with(desc);
    let name = d.name();
    assert_eq!(name.len(), 8);
    let expected: Vec<u16> = text.bytes().map(|b| b as u16).collect();
    assert_eq!(name, expected);
}

#[test]
fn name_without_terminator_fills_the_capacity() {
    let mut desc = descriptor(0, 0, 1, 1);
    for i in 0..32 {
        desc.name[i] = 'a' as u16;
    }
    let d = display_with(desc);
    let name = d.name();
    assert_eq!(name.len(), 32);
    assert!(name.iter().all(|&u| u == 'a' as u16));
}

#[test]
fn name_is_empty_when_the_first_unit_terminates() {
    let d = display_with(descriptor(0, 0, 1, 1));
    assert_eq!(d.name().len(), 0);
}

#[test]
fn dropping_a_display_releases_output_then_adapter() {
    let d = display_with(descriptor(0, 0, 1, 1));
    let acts = d.release_actions();
    assert_eq!(
        acts,
        vec![
            Action::ReleaseDuplicableOutput { output: 11 },
            Action::ReleaseAdapter { adapter: 7 },
        ]
    );
}
