use warbler_grass::packer::{pack_square, texture_side};

#[test]
fn side_for_empty_input_is_one() {
    assert_eq!(texture_side(0), 1);
}

#[test]
fn side_is_minimal_for_perfect_squares() {
    assert_eq!(texture_side(1), 1);
    assert_eq!(texture_side(4), 2);
    assert_eq!(texture_side(9), 3);
    assert_eq!(texture_side(16), 4);
}

#[test]
fn side_for_ten_is_four() {
    assert_eq!(texture_side(10), 4);
}

#[test]
fn side_for_hundred_is_ten() {
    assert_eq!(texture_side(100), 10);
}

#[test]
fn side_rounds_up_between_squares() {
    assert_eq!(texture_side(2), 2);
    assert_eq!(texture_side(5), 3);
    assert_eq!(texture_side(17), 5);
}

#[test]
fn pack_keeps_the_input_and_zero_pads_the_remainder() {
    let data = vec![5u32, 6, 7, 8, 9, 10, 11, 12, 13, 14];
    let (side, texels) = pack_square(&data);
    assert_eq!(side, 4);
    assert_eq!(texels.len(), 16);
    assert_eq!(&texels[..10], &data[..]);
    assert!(texels[10..].iter().all(|&t| t == 0));
}

#[test]
fn pack_of_empty_input_yields_a_valid_one_by_one_texture() {
    let data: Vec<u32> = Vec::new();
    let (side, texels) = pack_square(&data);
    assert_eq!(side, 1);
    assert_eq!(texels, vec![0u32]);
}

#[test]
fn pack_of_a_perfect_square_needs_no_padding() {
    let data = vec![1u32, 2, 3, 4];
    let (side, texels) = pack_square(&data);
    assert_eq!(side, 2);
    assert_eq!(texels, data);
}
