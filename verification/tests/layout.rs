use basisu::{ContainerLayout, ImageLevelInfo};

fn level(width: u32, height: u32) -> Option<ImageLevelInfo> {
    Some(ImageLevelInfo { width, height })
}

fn two_images() -> ContainerLayout {
    let first = vec![level(16, 8), level(8, 4), level(4, 4)];
    let second = vec![level(32, 32)];
    ContainerLayout::new(vec![first, second]).unwrap()
}

#[test]
fn empty_layout_has_no_images() {
    let layout = ContainerLayout::empty();
    assert_eq!(layout.total_images(), 0);
    assert_eq!(layout.total_image_levels(0), 0);
    assert_eq!(layout.level_info(0, 0), None);
}

#[test]
fn layout_of_no_rows_is_empty() {
    let layout = ContainerLayout::new(Vec::new()).unwrap();
    assert_eq!(layout.total_images(), 0);
}

#[test]
fn layout_counts_images_and_levels() {
    let layout = two_images();
    assert_eq!(layout.total_images(), 2);
    assert_eq!(layout.total_image_levels(0), 3);
    assert_eq!(layout.total_image_levels(1), 1);
}

#[test]
fn image_past_the_end_has_zero_levels() {
    let layout = two_images();
    assert_eq!(layout.total_image_levels(2), 0);
    assert_eq!(layout.total_image_levels(3), 0);
    assert_eq!(layout.total_image_levels(u32::MAX), 0);
}

#[test]
fn level_info_gives_the_size_of_each_level() {
    let layout = two_images();
    assert_eq!(layout.level_info(0, 0), Some(ImageLevelInfo { width: 16, height: 8 }));
    assert_eq!(layout.level_info(0, 1), Some(ImageLevelInfo { width: 8, height: 4 }));
    assert_eq!(layout.level_info(0, 2), Some(ImageLevelInfo { width: 4, height: 4 }));
    assert_eq!(layout.level_info(1, 0), Some(ImageLevelInfo { width: 32, height: 32 }));
}

#[test]
fn level_info_is_none_outside_the_table() {
    let layout = two_images();
    assert_eq!(layout.level_info(0, 3), None);
    assert_eq!(layout.level_info(1, 1), None);
    assert_eq!(layout.level_info(2, 0), None);
    assert_eq!(layout.level_info(u32::MAX, u32::MAX), None);
}

#[test]
fn level_without_size_is_counted_but_has_no_info() {
    let layout = ContainerLayout::new(vec![vec![level(8, 8), None, level(2, 2)]]).unwrap();
    assert_eq!(layout.total_image_levels(0), 3);
    assert_eq!(layout.level_info(0, 0), Some(ImageLevelInfo { width: 8, height: 8 }));
    assert_eq!(layout.level_info(0, 1), None);
    assert_eq!(layout.level_info(0, 2), Some(ImageLevelInfo { width: 2, height: 2 }));
}

#[test]
fn image_without_levels_is_counted() {
    let layout = ContainerLayout::new(vec![Vec::new(), vec![level(4, 4)]]).unwrap();
    assert_eq!(layout.total_images(), 2);
    assert_eq!(layout.total_image_levels(0), 0);
    assert_eq!(layout.total_image_levels(1), 1);
    assert_eq!(layout.level_info(0, 0), None);
}

#[test]
fn levels_with_info_are_as_many_as_the_level_count() {
    let layout = two_images();
    for image_index in 0..4u32 {
        let mut with_info: u32 = 0;
        for level_index in 0..8u32 {
            if layout.level_info(image_index, level_index).is_some() {
                with_info += 1;
                assert!(level_index < layout.total_image_levels(image_index));
            }
        }
        assert_eq!(with_info, layout.total_image_levels(image_index));
        if image_index < layout.total_images() {
            assert!(layout.total_image_levels(image_index) >= 1);
        } else {
            assert_eq!(layout.total_image_levels(image_index), 0);
        }
    }
}
