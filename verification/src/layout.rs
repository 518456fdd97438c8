//! The images and mip levels of a container, as the codec found them.

use vstd::prelude::*;
use vstd::set_lib::{lemma_int_range, set_int_range};
use crate::error::BasisError;

verus! {

/// Size of one mip level in pixels.
#[derive(Clone, Copy, Debug, PartialEq, Eq)]
pub struct ImageLevelInfo {
    pub width: u32,
    pub height: u32,
}

/// Whether the image and level counts of `layout` can each be told in 32
/// bits, as the codec tells them.
pub open spec fn layout_fits(layout: Seq<Seq<Option<ImageLevelInfo>>>) -> bool {
    &&& layout.len() <= u32::MAX
    &&& forall|i: int| 0 <= i < layout.len() ==> (#[trigger] layout[i]).len() <= u32::MAX
}

/// Number of images in `layout`.
pub open spec fn image_count(layout: Seq<Seq<Option<ImageLevelInfo>>>) -> nat {
    layout.len()
}

/// Number of levels of the image at `image_index`; zero where there is no
/// such image.
pub open spec fn level_count(layout: Seq<Seq<Option<ImageLevelInfo>>>, image_index: int) -> nat {
    if 0 <= image_index < layout.len() {
        layout[image_index].len()
    } else {
        0
    }
}

/// Size of the level at `level_index` of the image at `image_index`, where
/// the pair names a level whose size is known.
pub open spec fn level_at(
    layout: Seq<Seq<Option<ImageLevelInfo>>>,
    image_index: int,
    level_index: int,
) -> Option<ImageLevelInfo> {
    if 0 <= image_index < layout.len() && 0 <= level_index < layout[image_index].len() {
        layout[image_index][level_index]
    } else {
        None
    }
}

/// Answer to a query for the dimensions of one level: width and height, or
/// `InvalidArgument` where the index pair names no level of known size.
pub open spec fn level_dimensions_of(
    layout: Seq<Seq<Option<ImageLevelInfo>>>,
    image_index: int,
    level_index: int,
) -> Result<(u32, u32), BasisError> {
    match level_at(layout, image_index, level_index) {
        Some(info) => Ok((info.width, info.height)),
        None => Err(BasisError::InvalidArgument),
    }
}

/// Whether the image at `image_index` exists, has at least one level, and has
/// a size for every level that is counted for it.
pub open spec fn image_is_complete(
    layout: Seq<Seq<Option<ImageLevelInfo>>>,
    image_index: int,
) -> bool {
    &&& 0 <= image_index < layout.len()
    &&& layout[image_index].len() >= 1
    &&& forall|l: int|
        0 <= l < layout[image_index].len() ==> (#[trigger] layout[image_index][l]) is Some
}

/// The rows of a table of levels, one sequence for each image.
pub open spec fn rows_of(images: Seq<Vec<Option<ImageLevelInfo>>>) -> Seq<
    Seq<Option<ImageLevelInfo>>,
> {
    Seq::new(images.len(), |i: int| images[i]@)
}

/// What the codec found in a container that it agreed to open: one row for
/// each image, and in a row one entry for each level that the codec counts
/// for that image. An entry is `None` where the codec counts the level but
/// could not tell its size.
///
/// The bytes of a bound container cannot change, so what the codec found
/// when it was started holds for as long as the container stays bound.
pub struct ContainerLayout {
    images: Vec<Vec<Option<ImageLevelInfo>>>,
}

impl ContainerLayout {
    /// The table as sequences: `self@[i][l]` is the entry for level `l` of
    /// image `i`.
    pub closed spec fn view(&self) -> Seq<Seq<Option<ImageLevelInfo>>> {
        rows_of(self.images@)
    }

    #[verifier::type_invariant]
    spec fn counts_fit(&self) -> bool {
        layout_fits(self@)
    }

    /// The layout of a container without images.
    pub fn empty() -> (layout: ContainerLayout)
        ensures
            layout@ == Seq::<Seq<Option<ImageLevelInfo>>>::empty(),
    {
        let layout = ContainerLayout { images: Vec::new() };
        assert(layout@ =~= Seq::<Seq<Option<ImageLevelInfo>>>::empty());
        layout
    }

    /// Takes a table of levels, one row for each image. `None` where the
    /// number of images, or the number of levels of some image, cannot be
    /// told in 32 bits.
    pub fn new(images: Vec<Vec<Option<ImageLevelInfo>>>) -> (layout: Option<ContainerLayout>)
        ensures
            layout is Some <==> layout_fits(rows_of(images@)),
            layout matches Some(table) ==> table@ == rows_of(images@),
    {
        if images.len() > u32::MAX as usize {
            return None;
        }
        let mut i: usize = 0;
        while i < images.len()
            invariant
                i <= images.len(),
                images.len() <= u32::MAX,
                forall|k: int| 0 <= k < i ==> (#[trigger] rows_of(images@)[k]).len() <= u32::MAX,
            decreases images.len() - i,
        {
            if images[i].len() > u32::MAX as usize {
                assert(rows_of(images@)[i as int].len() > u32::MAX);
                return None;
            }
            i += 1;
        }
        Some(ContainerLayout { images })
    }

    /// Number of images in the container.
    pub fn total_images(&self) -> (count: u32)
        ensures
            count == image_count(self@),
    {
        proof {
            use_type_invariant(self);
        }
        self.images.len() as u32
    }

    /// Number of levels of the image at `image_index`; zero where the
    /// container has no such image.
    pub fn total_image_levels(&self, image_index: u32) -> (count: u32)
        ensures
            count == level_count(self@, image_index as int),
    {
        proof {
            use_type_invariant(self);
        }
        if (image_index as usize) < self.images.len() {
            assert(self@[image_index as int] == self.images@[image_index as int]@);
            self.images[image_index as usize].len() as u32
        } else {
            0
        }
    }

    /// Size of the level at `level_index` of the image at `image_index`, or
    /// `None` where the pair names no level of known size.
    pub fn level_info(&self, image_index: u32, level_index: u32) -> (info: Option<ImageLevelInfo>)
        ensures
            info == level_at(self@, image_index as int, level_index as int),
    {
        if (image_index as usize) < self.images.len() {
            assert(self@[image_index as int] == self.images@[image_index as int]@);
            let levels = &self.images[image_index as usize];
            if (level_index as usize) < levels.len() {
                return levels[level_index as usize];
            }
        }
        None
    }
}

/// An image index at or past the number of images has no levels, and no
/// level index gives it dimensions.
pub proof fn lemma_absent_image_has_no_levels(
    layout: Seq<Seq<Option<ImageLevelInfo>>>,
    image_index: u32,
)
    requires
        image_index >= image_count(layout),
    ensures
        level_count(layout, image_index as int) == 0,
        forall|level_index: u32| #[trigger]
            level_dimensions_of(layout, image_index as int, level_index as int) == Err::<
                (u32, u32),
                BasisError,
            >(BasisError::InvalidArgument),
{
}

/// An image that is complete has at least one level, a query for dimensions
/// succeeds on exactly the level indices below its level count, and so the
/// levels with dimensions are as many as the count.
pub proof fn lemma_level_count_matches_dimensions(
    layout: Seq<Seq<Option<ImageLevelInfo>>>,
    image_index: u32,
)
    requires
        image_index < image_count(layout),
        image_is_complete(layout, image_index as int),
    ensures
        level_count(layout, image_index as int) >= 1,
        forall|level_index: int| #[trigger]
            level_dimensions_of(layout, image_index as int, level_index) is Ok <==> 0
                <= level_index < level_count(layout, image_index as int),
        Set::new(
            |level_index: int| level_dimensions_of(layout, image_index as int, level_index) is Ok,
        ).len() == level_count(layout, image_index as int),
{
    let count = level_count(layout, image_index as int);
    let with_dimensions = Set::new(
        |level_index: int| level_dimensions_of(layout, image_index as int, level_index) is Ok,
    );
    assert forall|level_index: int| #[trigger]
        level_dimensions_of(layout, image_index as int, level_index) is Ok <==> 0 <= level_index
            < count by {
        if 0 <= level_index < count {
            assert(layout[image_index as int][level_index] is Some);
        }
    }
    assert(with_dimensions =~= set_int_range(0, count as int));
    lemma_int_range(0, count as int);
}

} // verus!
