use webp_batch::buffer::PixelBuffer;

#[test]
fn buffer_takes_four_samples_for_each_pixel() {
    let buffer = PixelBuffer::new(2, 3, vec![0; 24]).unwrap();
    assert_eq!(buffer.width, 2);
    assert_eq!(buffer.height, 3);
    assert_eq!(buffer.samples.len(), 24);
    assert!(buffer.is_well_formed());
}

#[test]
fn buffer_refuses_a_wrong_number_of_samples() {
    assert!(PixelBuffer::new(2, 3, vec![0; 23]).is_none());
    assert!(PixelBuffer::new(2, 3, vec![0; 25]).is_none());
    assert!(PixelBuffer::new(2, 3, vec![0; 18]).is_none());
}

#[test]
fn buffer_refuses_an_image_without_pixels() {
    assert!(PixelBuffer::new(0, 3, Vec::new()).is_none());
    assert!(PixelBuffer::new(3, 0, Vec::new()).is_none());
    assert!(PixelBuffer::new(0, 0, Vec::new()).is_none());
}

#[test]
fn buffer_built_by_hand_is_checked() {
    let broken = PixelBuffer { width: 1, height: 1, samples: vec![1, 2, 3] };
    assert!(!broken.is_well_formed());
    let sound = PixelBuffer { width: 1, height: 1, samples: vec![1, 2, 3, 4] };
    assert!(sound.is_well_formed());
}

#[test]
fn rgb_samples_drop_every_alpha() {
    let buffer = PixelBuffer::new(2, 1, vec![1, 2, 3, 4, 5, 6, 7, 8]).unwrap();
    assert_eq!(buffer.rgb_samples(), vec![1, 2, 3, 5, 6, 7]);
}

#[test]
fn rgb_samples_of_an_image_without_pixels_are_none() {
    let empty = PixelBuffer { width: 0, height: 4, samples: Vec::new() };
    assert!(empty.rgb_samples().is_empty());
}
