use smart_prtscr::frame::{RawScreenshot, SelectionBounds, ValidationError};

fn numbered_frame(width: u32, height: u32) -> RawScreenshot {
    let mut data = Vec::new();
    for y in 0..height {
        for x in 0..width {
            data.push(x as u8);
            data.push(y as u8);
            data.push((x + y) as u8);
            data.push(255);
        }
    }
    RawScreenshot::from_raw(width, height, data).unwrap()
}

fn pixel(frame: &RawScreenshot, x: u32, y: u32) -> [u8; 4] {
    let at = ((y * frame.width + x) * 4) as usize;
    [frame.data[at], frame.data[at + 1], frame.data[at + 2], frame.data[at + 3]]
}

#[test]
fn from_raw_accepts_exact_length_only() {
    assert!(RawScreenshot::from_raw(2, 3, vec![0; 24]).is_some());
    assert!(RawScreenshot::from_raw(2, 3, vec![0; 23]).is_none());
    assert!(RawScreenshot::from_raw(2, 3, vec![0; 25]).is_none());
    assert!(RawScreenshot::from_raw(2, 3, vec![0; 28]).is_none());
    assert!(RawScreenshot::from_raw(0, 7, Vec::new()).is_some());
}

#[test]
fn is_well_formed_follows_the_length() {
    let good = RawScreenshot { data: vec![0; 16], width: 2, height: 2 };
    let bad = RawScreenshot { data: vec![0; 12], width: 2, height: 2 };
    assert!(good.is_well_formed());
    assert!(!bad.is_well_formed());
}

#[test]
fn crop_yields_the_requested_rectangle() {
    let frame = numbered_frame(7, 5);
    let rect = SelectionBounds { x: 2, y: 1, width: 4, height: 3 };
    let out = frame.crop(&rect).unwrap();
    assert_eq!((out.width, out.height), (4, 3));
    assert_eq!(out.data.len(), 4 * 3 * 4);
    for j in 0..3 {
        for i in 0..4 {
            assert_eq!(pixel(&out, i, j), pixel(&frame, 2 + i, 1 + j));
        }
    }
    assert_eq!(pixel(&out, 0, 0), [2, 1, 3, 255]);
    assert_eq!(pixel(&out, 3, 2), [5, 3, 8, 255]);
}

#[test]
fn crop_of_the_whole_frame_is_the_frame() {
    let frame = numbered_frame(6, 4);
    let rect = SelectionBounds { x: 0, y: 0, width: 6, height: 4 };
    let out = frame.crop(&rect).unwrap();
    assert_eq!(out.width, 6);
    assert_eq!(out.height, 4);
    assert_eq!(out.data, frame.data);
}

#[test]
fn crop_of_one_pixel_in_the_last_corner() {
    let frame = numbered_frame(6, 4);
    let rect = SelectionBounds { x: 5, y: 3, width: 1, height: 1 };
    let out = frame.crop(&rect).unwrap();
    assert_eq!(out.data, vec![5, 3, 8, 255]);
}

#[test]
fn crop_beyond_the_right_edge_is_refused() {
    let frame = RawScreenshot::from_raw(200, 200, vec![7; 200 * 200 * 4]).unwrap();
    let rect = SelectionBounds { x: 190, y: 0, width: 20, height: 20 };
    assert_eq!(frame.crop(&rect).err(), Some(ValidationError::InvalidRegion));
}

#[test]
fn crop_refuses_every_violation() {
    let frame = numbered_frame(10, 10);
    let cases = [
        SelectionBounds { x: -1, y: 0, width: 5, height: 5 },
        SelectionBounds { x: 0, y: -1, width: 5, height: 5 },
        SelectionBounds { x: 0, y: 0, width: 0, height: 5 },
        SelectionBounds { x: 0, y: 0, width: 5, height: 0 },
        SelectionBounds { x: 0, y: 0, width: -3, height: 5 },
        SelectionBounds { x: 0, y: 0, width: 11, height: 5 },
        SelectionBounds { x: 0, y: 6, width: 5, height: 5 },
        SelectionBounds { x: i32::MAX, y: 0, width: i32::MAX, height: 1 },
    ];
    for rect in cases.iter() {
        assert!(!rect.is_inside(10, 10));
        assert_eq!(frame.crop(rect).err(), Some(ValidationError::InvalidRegion));
    }
    let touching = SelectionBounds { x: 5, y: 5, width: 5, height: 5 };
    assert!(touching.is_inside(10, 10));
    assert!(frame.crop(&touching).is_ok());
}
