//! A transcoding session, the handle that binds it to one container, and
//! the request that sizes an output buffer for the codec.

use vstd::arithmetic::div_mod::{
    lemma_fundamental_div_mod, lemma_mod_bound, lemma_mod_multiples_basic,
};
use vstd::prelude::*;
use crate::error::BasisError;
use crate::format::{lemma_format_geometry, OutputFormat};
use crate::layout::{
    image_count, level_count, level_dimensions_of, ContainerLayout, ImageLevelInfo,
};

verus! {

/// A transcoding session. It stands for one instance of the codec and
/// remembers what that instance is set up for: the layout of the container
/// that it was last started on, empty before the first start.
pub struct BasisTranscoder {
    layout: ContainerLayout,
}

/// A session while it is bound to one container. The handle borrows the
/// session exclusively and the container's bytes for as long as it lives;
/// every query about images and levels, and every transcode, goes through
/// it.
pub struct BasisFileTranscoder<'a> {
    transcoder: &'a mut BasisTranscoder,
    data: &'a [u8],
}

/// All that the codec needs to transcode one level: the container with its
/// length, the level, and the part of the caller's buffer that holds whole
/// blocks, with their number.
pub struct TranscodeRequest<'a, 'b> {
    /// The bytes of the container.
    pub data: &'a [u8],
    /// Length of `data`.
    pub data_len: u32,
    /// The image to transcode from.
    pub image_index: u32,
    /// The mip level of that image.
    pub level_index: u32,
    /// The leading whole blocks of the caller's buffer. The codec writes
    /// here and nowhere else.
    pub output: &'b mut [u8],
    /// Number of blocks, or of pixels for a raster format, that `output`
    /// holds.
    pub output_size_blocks: u32,
    /// The format to transcode to.
    pub output_format: OutputFormat,
}

/// Length in bytes of the whole blocks of `format` that fit into a buffer
/// of `len` bytes.
pub open spec fn whole_blocks_len(len: nat, format: OutputFormat) -> nat {
    (len / format.spec_bytes_per_block() as nat) * format.spec_bytes_per_block() as nat
}

/// The whole blocks of a buffer never reach past its end, leave less than one
/// block over, and are all of the buffer where its length is a multiple of
/// the block size.
pub proof fn lemma_whole_blocks_len(len: nat, format: OutputFormat)
    ensures
        whole_blocks_len(len, format) <= len,
        len - whole_blocks_len(len, format) < format.spec_bytes_per_block(),
        whole_blocks_len(len, format) % format.spec_bytes_per_block() as nat == 0,
        len % format.spec_bytes_per_block() as nat == 0 ==> whole_blocks_len(len, format) == len,
{
    let block_bytes = format.spec_bytes_per_block() as int;
    lemma_format_geometry(format);
    lemma_fundamental_div_mod(len as int, block_bytes);
    lemma_mod_bound(len as int, block_bytes);
    lemma_mod_multiples_basic(len as int / block_bytes, block_bytes);
    assert((len as int / block_bytes) * block_bytes == block_bytes * (len as int / block_bytes))
        by (nonlinear_arith);
}

impl BasisTranscoder {
    /// Layout of the container that the session was last started on.
    pub closed spec fn layout(&self) -> Seq<Seq<Option<ImageLevelInfo>>> {
        self.layout@
    }

    /// A session that has not been started on any container.
    pub fn new() -> (session: BasisTranscoder)
        ensures
            session.layout() == Seq::<Seq<Option<ImageLevelInfo>>>::empty(),
    {
        BasisTranscoder { layout: ContainerLayout::empty() }
    }

    /// Binds the session to the container `data`, given the codec's answer
    /// to being started on it: `None` where the codec refused the container,
    /// else the layout that it found.
    ///
    /// A refusal is `InvalidFileContents` and leaves the session as it was.
    /// Otherwise the handle answers from the reported layout, which the
    /// session keeps.
    ///
    /// The codec takes the length of a container as a 32-bit number, so
    /// `data` must be no longer than that.
    pub fn start_transcoding<'a>(
        &'a mut self,
        data: &'a [u8],
        report: Option<ContainerLayout>,
    ) -> (res: Result<BasisFileTranscoder<'a>, BasisError>)
        requires
            data@.len() <= u32::MAX,
        ensures
            report matches Some(found) ==> (res matches Ok(handle) && handle.layout() == found@
                && handle.data() == data@ && *final(self) == *final(handle.session())),
            report is None ==> (res matches Err(e) && e == BasisError::InvalidFileContents
                && *final(self) == *old(self)),
    {
        match report {
            None => Err(BasisError::InvalidFileContents),
            Some(found) => {
                self.layout = found;
                Ok(BasisFileTranscoder { transcoder: self, data })
            },
        }
    }
}

impl<'a> BasisFileTranscoder<'a> {
    /// Layout of the bound container.
    pub closed spec fn layout(&self) -> Seq<Seq<Option<ImageLevelInfo>>> {
        (*self.transcoder).layout@
    }

    /// The session that the handle has borrowed.
    pub closed spec fn session(&self) -> &'a mut BasisTranscoder {
        self.transcoder
    }

    /// Bytes of the bound container.
    pub closed spec fn data(&self) -> Seq<u8> {
        self.data@
    }

    /// Once a handle is dropped, its session holds the layout that the
    /// handle answered from.
    pub proof fn lemma_released_session_keeps_layout(self)
        requires
            has_resolved(self),
        ensures
            final(self.session()).layout() == self.layout(),
    {
    }

    #[verifier::type_invariant]
    spec fn length_fits(&self) -> bool {
        self.data@.len() <= u32::MAX
    }

    /// Number of images in the bound container.
    pub fn get_total_images(&self) -> (count: u32)
        ensures
            count == image_count(self.layout()),
    {
        self.transcoder.layout.total_images()
    }

    /// Number of levels of the image at `image_index`; zero where the
    /// container has no such image.
    pub fn get_total_image_levels(&self, image_index: u32) -> (count: u32)
        ensures
            count == level_count(self.layout(), image_index as int),
    {
        self.transcoder.layout.total_image_levels(image_index)
    }

    /// Width and height of the level at `level_index` of the image at
    /// `image_index`, or `InvalidArgument` where the pair names no level of
    /// known size.
    pub fn level_dimensions(&self, image_index: u32, level_index: u32) -> (res: Result<
        (u32, u32),
        BasisError,
    >)
        ensures
            res == level_dimensions_of(self.layout(), image_index as int, level_index as int),
    {
        match self.transcoder.layout.level_info(image_index, level_index) {
            Some(info) => Ok((info.width, info.height)),
            None => Err(BasisError::InvalidArgument),
        }
    }

    /// Prepares the transcoding of one level into `output`.
    ///
    /// The capacity handed to the codec is the number of whole blocks of
    /// `output_format` that fit into `output`, by integer division, and the
    /// request lends the codec those blocks only: bytes of `output` past the
    /// last whole block keep their values whatever is written through the
    /// request.
    ///
    /// The codec takes the capacity as a 32-bit number, so `output` must
    /// hold no more blocks than that.
    pub fn transcode_image_level<'b>(
        &self,
        image_index: u32,
        level_index: u32,
        output: &'b mut [u8],
        output_format: OutputFormat,
    ) -> (request: TranscodeRequest<'a, 'b>)
        requires
            old(output)@.len() / output_format.spec_bytes_per_block() as nat <= u32::MAX,
        ensures
            request.data@ == self.data(),
            request.data_len == self.data().len(),
            request.image_index == image_index,
            request.level_index == level_index,
            request.output_format == output_format,
            request.output_size_blocks == old(output)@.len()
                / output_format.spec_bytes_per_block() as nat,
            request.output@ == old(output)@.subrange(
                0,
                whole_blocks_len(old(output)@.len(), output_format) as int,
            ),
            request.output@.len() == request.output_size_blocks
                * output_format.spec_bytes_per_block(),
            final(output)@ == final(request.output)@ + old(output)@.subrange(
                whole_blocks_len(old(output)@.len(), output_format) as int,
                old(output)@.len() as int,
            ),
    {
        proof {
            use_type_invariant(self);
        }
        let block_bytes: usize = output_format.bytes_per_block() as usize;
        let blocks: usize = output.len() / block_bytes;
        assert(blocks * block_bytes <= output@.len()) by (nonlinear_arith)
            requires
                block_bytes > 0,
                blocks == output@.len() / block_bytes as nat,
        ;
        let (whole, _rest) = output.split_at_mut(blocks * block_bytes);
        TranscodeRequest {
            data: self.data,
            data_len: self.data.len() as u32,
            image_index,
            level_index,
            output: whole,
            output_size_blocks: blocks as u32,
            output_format,
        }
    }
}

impl<'a, 'b> TranscodeRequest<'a, 'b> {
    /// Closes the request with the codec's answer: success where it
    /// transcoded the level, `InvalidFileContents` where it reported failure
    /// of any kind.
    pub fn finish(self, transcoded: bool) -> (res: Result<(), BasisError>)
        ensures
            final(self.output)@ == old(self.output)@,
            transcoded ==> res == Ok::<(), BasisError>(()),
            !transcoded ==> res == Err::<(), BasisError>(BasisError::InvalidFileContents),
    {
        if transcoded {
            Ok(())
        } else {
            Err(BasisError::InvalidFileContents)
        }
    }
}

} // verus!
