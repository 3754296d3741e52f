use facial::error::FaceError;
use facial::geometry::{to_location, to_point, to_rectangle, EnginePoint, Location, Point, Rectangle};
use facial::matrix::{decode, PixelMatrix};
use facial::registry::{ModelSlot, SlotAction, SlotEvent, SlotState};
use facial::session::{EncodingRequest, Facial, JsFacial, DEFAULT_JITTERS};

fn png_of_rgb(width: u32, height: u32, raw: Vec<u8>) -> Vec<u8> {
    let img = image::RgbImage::from_raw(width, height, raw).unwrap();
    let mut out = std::io::Cursor::new(Vec::new());
    img.write_to(&mut out, image::ImageFormat::Png).unwrap();
    out.into_inner()
}

fn png_of_rgba(width: u32, height: u32, raw: Vec<u8>) -> Vec<u8> {
    let img = image::RgbaImage::from_raw(width, height, raw).unwrap();
    let mut out = std::io::Cursor::new(Vec::new());
    img.write_to(&mut out, image::ImageFormat::Png).unwrap();
    out.into_inner()
}

#[test]
fn rectangle_widens_each_coordinate() {
    let l = Location { left: 1, top: 2, right: 3, bottom: 4 };
    assert_eq!(to_rectangle(&l), Rectangle { left: 1, top: 2, right: 3, bottom: 4 });
    let big = Location { left: u32::MAX, top: 0, right: u32::MAX, bottom: 7 };
    assert_eq!(
        to_rectangle(&big),
        Rectangle { left: 4294967295, top: 0, right: 4294967295, bottom: 7 }
    );
}

#[test]
fn location_narrows_in_range_rectangle() {
    let r = Rectangle { left: 305, top: 113, right: 520, bottom: 328 };
    assert_eq!(to_location(&r), Ok(Location { left: 305, top: 113, right: 520, bottom: 328 }));
}

#[test]
fn location_rejects_negative_coordinate() {
    let r = Rectangle { left: -5, top: 10, right: 100, bottom: 120 };
    assert_eq!(to_location(&r), Err(FaceError::GeometryRange));
    let r = Rectangle { left: 5, top: 10, right: 100, bottom: -1 };
    assert_eq!(to_location(&r), Err(FaceError::GeometryRange));
}

#[test]
fn location_rejects_too_large_coordinate() {
    let r = Rectangle { left: 0, top: 0, right: 4294967296, bottom: 1 };
    assert_eq!(to_location(&r), Err(FaceError::GeometryRange));
    let r = Rectangle { left: 0, top: 0, right: 4294967295, bottom: 1 };
    assert_eq!(to_location(&r), Ok(Location { left: 0, top: 0, right: 4294967295, bottom: 1 }));
}

#[test]
fn location_round_trip_is_lossless() {
    for l in [
        Location { left: 0, top: 0, right: 0, bottom: 0 },
        Location { left: 10, top: 20, right: 5, bottom: 1 },
        Location { left: u32::MAX, top: u32::MAX, right: u32::MAX, bottom: u32::MAX },
    ] {
        assert_eq!(to_location(&to_rectangle(&l)), Ok(l));
    }
}

#[test]
fn point_conversion() {
    assert_eq!(to_point(EnginePoint { x: 42, y: 7 }), Ok(Point { x: 42, y: 7 }));
    assert_eq!(to_point(EnginePoint { x: 42, y: -1000 }), Err(FaceError::GeometryRange));
    assert_eq!(to_point(EnginePoint { x: 4294967296, y: 0 }), Err(FaceError::GeometryRange));
}

#[test]
fn decode_empty_buffer_fails() {
    assert!(matches!(decode(&[]), Err(FaceError::Decode)));
    assert!(matches!(JsFacial::from_image(&[]), Err(FaceError::Decode)));
}

#[test]
fn decode_garbage_fails() {
    assert!(matches!(decode(b"not an image at all"), Err(FaceError::Decode)));
}

#[test]
fn decode_truncated_png_fails() {
    let png = png_of_rgb(4, 4, vec![9u8; 48]);
    let cut = &png[..png.len() / 2];
    assert!(matches!(decode(cut), Err(FaceError::Decode)));
}

#[test]
fn decode_png_gives_its_pixels() {
    let raw: Vec<u8> = (0u8..18).collect();
    let png = png_of_rgb(3, 2, raw.clone());
    let m = decode(&png).unwrap();
    assert_eq!(m.width(), 3);
    assert_eq!(m.height(), 2);
    assert_eq!(m.pixels(), &raw);
}

#[test]
fn decode_drops_alpha() {
    let raw: Vec<u8> = vec![1, 2, 3, 255, 4, 5, 6, 128];
    let png = png_of_rgba(2, 1, raw);
    let m = decode(&png).unwrap();
    assert_eq!(m.width(), 2);
    assert_eq!(m.height(), 1);
    assert_eq!(m.pixels(), &vec![1, 2, 3, 4, 5, 6]);
}

#[test]
fn from_rgb8_checks_shape() {
    assert!(matches!(PixelMatrix::from_rgb8(None), Err(FaceError::Decode)));
    assert!(matches!(PixelMatrix::from_rgb8(Some((0, 0, vec![]))), Err(FaceError::Decode)));
    assert!(matches!(PixelMatrix::from_rgb8(Some((0, 5, vec![]))), Err(FaceError::Decode)));
    assert!(matches!(PixelMatrix::from_rgb8(Some((2, 2, vec![0; 11]))), Err(FaceError::Decode)));
    assert!(matches!(PixelMatrix::from_rgb8(Some((2, 2, vec![0; 13]))), Err(FaceError::Decode)));
    let m = PixelMatrix::from_rgb8(Some((2, 2, vec![7; 12]))).unwrap();
    assert_eq!((m.width(), m.height(), m.pixels().len()), (2, 2, 12));
}

#[test]
fn session_owns_decoded_matrix() {
    let raw: Vec<u8> = (100u8..112).collect();
    let png = png_of_rgb(2, 2, raw.clone());
    let s = JsFacial::from_image(&png).unwrap();
    assert_eq!(s.matrix().width(), 2);
    assert_eq!(s.matrix().height(), 2);
    assert_eq!(s.matrix().pixels(), &raw);
    let m = PixelMatrix::from_rgb8(Some((1, 1, vec![1, 2, 3]))).unwrap();
    let f = Facial::new(m);
    assert_eq!(f.matrix.pixels(), &vec![1, 2, 3]);
}

#[test]
fn locations_keep_detector_order() {
    let detected = vec![
        Rectangle { left: 305, top: 113, right: 520, bottom: 328 },
        Rectangle { left: 1, top: 2, right: 30, bottom: 40 },
    ];
    let locs = JsFacial::locations(&detected).unwrap();
    assert_eq!(
        locs,
        vec![
            Location { left: 305, top: 113, right: 520, bottom: 328 },
            Location { left: 1, top: 2, right: 30, bottom: 40 },
        ]
    );
    assert_eq!(JsFacial::locations(&vec![]), Ok(vec![]));
}

#[test]
fn locations_are_the_same_every_time() {
    let detected = vec![Rectangle { left: 3, top: 4, right: 50, bottom: 60 }];
    let first = JsFacial::locations(&detected).unwrap();
    for _ in 0..3 {
        assert_eq!(JsFacial::locations(&detected).unwrap(), first);
    }
}

#[test]
fn locations_reject_face_off_the_edge() {
    let detected = vec![
        Rectangle { left: 1, top: 2, right: 30, bottom: 40 },
        Rectangle { left: -12, top: 2, right: 30, bottom: 40 },
    ];
    assert_eq!(JsFacial::locations(&detected), Err(FaceError::GeometryRange));
}

#[test]
fn landmarks_one_sequence_per_location_in_order() {
    let locs = vec![
        Location { left: 0, top: 0, right: 10, bottom: 10 },
        Location { left: 20, top: 30, right: 40, bottom: 50 },
        Location { left: 5, top: 5, right: 5, bottom: 5 },
    ];
    let rects = JsFacial::landmark_rectangles(&locs);
    assert_eq!(
        rects,
        vec![
            Rectangle { left: 0, top: 0, right: 10, bottom: 10 },
            Rectangle { left: 20, top: 30, right: 40, bottom: 50 },
            Rectangle { left: 5, top: 5, right: 5, bottom: 5 },
        ]
    );
    let predicted: Vec<Vec<EnginePoint>> = rects
        .iter()
        .map(|r| vec![EnginePoint { x: r.left, y: r.top }, EnginePoint { x: r.right, y: r.bottom }])
        .collect();
    let lm = JsFacial::landmarks(&predicted).unwrap();
    assert_eq!(lm.len(), locs.len());
    assert_eq!(lm[0], vec![Point { x: 0, y: 0 }, Point { x: 10, y: 10 }]);
    assert_eq!(lm[1], vec![Point { x: 20, y: 30 }, Point { x: 40, y: 50 }]);
    assert_eq!(lm[2], vec![Point { x: 5, y: 5 }, Point { x: 5, y: 5 }]);
}

#[test]
fn landmarks_empty_and_range_error() {
    assert_eq!(JsFacial::landmarks(&vec![]), Ok(vec![]));
    assert_eq!(JsFacial::landmarks(&vec![vec![]]), Ok(vec![vec![]]));
    let predicted = vec![vec![EnginePoint { x: 1, y: 1 }], vec![EnginePoint { x: 3, y: -2 }]];
    assert_eq!(JsFacial::landmarks(&predicted), Err(FaceError::GeometryRange));
}

#[test]
fn encoding_request_uses_default_jitters() {
    let l = Location { left: 1, top: 2, right: 3, bottom: 4 };
    assert_eq!(DEFAULT_JITTERS, 0);
    assert_eq!(
        JsFacial::encoding_request(&l, None),
        EncodingRequest { rectangle: Rectangle { left: 1, top: 2, right: 3, bottom: 4 }, jitters: 0 }
    );
    assert_eq!(JsFacial::encoding_request(&l, Some(10)).jitters, 10);
}

#[test]
fn encoding_request_far_outside_image_is_well_typed() {
    let l = Location { left: 4000000000, top: 4000000000, right: u32::MAX, bottom: u32::MAX };
    let req = JsFacial::encoding_request(&l, Some(1));
    assert_eq!(req.rectangle.right, 4294967295);
    assert_eq!(req.jitters, 1);
}

#[test]
fn encodings_takes_first_or_fails() {
    let produced: Vec<Vec<f64>> = vec![vec![0.5, 0.25], vec![1.0]];
    assert_eq!(JsFacial::encodings(produced), Ok(vec![0.5, 0.25]));
    let none: Vec<Vec<f64>> = vec![];
    assert_eq!(JsFacial::encodings(none), Err(FaceError::NoEncoding));
}

#[test]
fn slot_loads_once_then_hands() {
    let mut slot = ModelSlot::new();
    assert_eq!(slot.state(), SlotState::Empty);
    assert_eq!(slot.step(SlotEvent::Access), SlotAction::StartLoad);
    assert_eq!(slot.step(SlotEvent::Access), SlotAction::Wait);
    assert_eq!(slot.step(SlotEvent::Access), SlotAction::Wait);
    assert_eq!(slot.step(SlotEvent::Loaded), SlotAction::Hand);
    assert_eq!(slot.state(), SlotState::Ready);
    for _ in 0..4 {
        assert_eq!(slot.step(SlotEvent::Access), SlotAction::Hand);
    }
    assert_eq!(slot.step(SlotEvent::LoadFailed), SlotAction::Ignore);
    assert_eq!(slot.state(), SlotState::Ready);
}

#[test]
fn slot_failure_is_permanent() {
    let mut slot = ModelSlot::new();
    assert_eq!(slot.step(SlotEvent::Loaded), SlotAction::Ignore);
    assert_eq!(slot.state(), SlotState::Empty);
    assert_eq!(slot.step(SlotEvent::Access), SlotAction::StartLoad);
    assert_eq!(slot.step(SlotEvent::LoadFailed), SlotAction::ReportFailure);
    for _ in 0..3 {
        assert_eq!(slot.step(SlotEvent::Access), SlotAction::ReportFailure);
    }
    assert_eq!(slot.step(SlotEvent::Loaded), SlotAction::Ignore);
    assert_eq!(slot.state(), SlotState::Failed);
}

#[test]
fn slot_counts_one_load_over_many_accesses() {
    let mut slot = ModelSlot::new();
    let mut loads = 0;
    for i in 0..20 {
        let a = slot.step(SlotEvent::Access);
        if a == SlotAction::StartLoad {
            loads += 1;
        }
        if i == 5 {
            slot.step(SlotEvent::Loaded);
        }
    }
    assert_eq!(loads, 1);
    assert_eq!(FaceError::ModelLoad, FaceError::ModelLoad);
    assert_ne!(FaceError::InvalidEncoding, FaceError::Decode);
}
