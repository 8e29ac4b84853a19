//! Decoding one frame of a compressed video stream: the order of the stages,
//! and the raster image made of the decoded RGB plane.

use vstd::prelude::*;
use crate::raster::{image_len, PixelFormat, RasterImage};

verus! {

/// The stages of decoding one frame, in the order they run.
#[derive(Clone, Copy, Debug, PartialEq, Eq, Structural)]
pub enum DecodeStage {
    OpenContainer,
    LocateVideoStream,
    InitDecoder,
    SubmitPacket,
    ReceiveFrame,
    ConvertPixelFormat,
    Flush,
    BuildImage,
}

/// A failed decode, naming the stage that failed.
#[derive(Clone, Copy, Debug, PartialEq, Eq, Structural)]
pub struct DecodeError {
    pub stage: DecodeStage,
}

/// The stage that follows `stage`, `None` once the image is built. The pixel
/// format conversion runs only where the received frame is not RGB already.
pub open spec fn stage_after(stage: DecodeStage, frame_is_rgb: bool) -> Option<DecodeStage> {
    match stage {
        DecodeStage::OpenContainer => Some(DecodeStage::LocateVideoStream),
        DecodeStage::LocateVideoStream => Some(DecodeStage::InitDecoder),
        DecodeStage::InitDecoder => Some(DecodeStage::SubmitPacket),
        DecodeStage::SubmitPacket => Some(DecodeStage::ReceiveFrame),
        DecodeStage::ReceiveFrame => if frame_is_rgb {
            Some(DecodeStage::Flush)
        } else {
            Some(DecodeStage::ConvertPixelFormat)
        },
        DecodeStage::ConvertPixelFormat => Some(DecodeStage::Flush),
        DecodeStage::Flush => Some(DecodeStage::BuildImage),
        DecodeStage::BuildImage => None,
    }
}

/// The whole run of stages of one decode.
pub open spec fn decode_run(frame_is_rgb: bool) -> Seq<DecodeStage> {
    let head = seq![
        DecodeStage::OpenContainer,
        DecodeStage::LocateVideoStream,
        DecodeStage::InitDecoder,
        DecodeStage::SubmitPacket,
        DecodeStage::ReceiveFrame,
    ];
    let tail = seq![DecodeStage::Flush, DecodeStage::BuildImage];
    if frame_is_rgb {
        head + tail
    } else {
        head + seq![DecodeStage::ConvertPixelFormat] + tail
    }
}

/// The stage a decode starts with.
pub fn first_stage() -> (r: DecodeStage)
    ensures
        r == decode_run(true)[0],
        r == decode_run(false)[0],
{
    DecodeStage::OpenContainer
}

/// The stage to run after `stage`; `None` once the image is built.
pub fn next_stage(stage: DecodeStage, frame_is_rgb: bool) -> (r: Option<DecodeStage>)
    ensures
        r == stage_after(stage, frame_is_rgb),
{
    match stage {
        DecodeStage::OpenContainer => Some(DecodeStage::LocateVideoStream),
        DecodeStage::LocateVideoStream => Some(DecodeStage::InitDecoder),
        DecodeStage::InitDecoder => Some(DecodeStage::SubmitPacket),
        DecodeStage::SubmitPacket => Some(DecodeStage::ReceiveFrame),
        DecodeStage::ReceiveFrame => if frame_is_rgb {
            Some(DecodeStage::Flush)
        } else {
            Some(DecodeStage::ConvertPixelFormat)
        },
        DecodeStage::ConvertPixelFormat => Some(DecodeStage::Flush),
        DecodeStage::Flush => Some(DecodeStage::BuildImage),
        DecodeStage::BuildImage => None,
    }
}

/// One decode submits the whole input as one packet and receives one frame:
/// stepping from the first stage walks `decode_run` to its end, and that run
/// holds each of those two stages once. Whatever further frames the input
/// encodes, only the first is decoded.
pub proof fn lemma_first_frame_only(frame_is_rgb: bool)
    ensures
        decode_run(frame_is_rgb)[0] == DecodeStage::OpenContainer,
        forall|i: int|
            0 <= i < decode_run(frame_is_rgb).len() - 1 ==> stage_after(
                #[trigger] decode_run(frame_is_rgb)[i],
                frame_is_rgb,
            ) == Some(decode_run(frame_is_rgb)[i + 1]),
        stage_after(decode_run(frame_is_rgb).last(), frame_is_rgb).is_none(),
        forall|i: int|
            0 <= i < decode_run(frame_is_rgb).len() ==> (#[trigger] decode_run(frame_is_rgb)[i]
                == DecodeStage::ReceiveFrame <==> i == 4),
        forall|i: int|
            0 <= i < decode_run(frame_is_rgb).len() ==> (#[trigger] decode_run(frame_is_rgb)[i]
                == DecodeStage::SubmitPacket <==> i == 3),
{
    let run = decode_run(frame_is_rgb);
    if frame_is_rgb {
        assert(run =~= seq![
            DecodeStage::OpenContainer,
            DecodeStage::LocateVideoStream,
            DecodeStage::InitDecoder,
            DecodeStage::SubmitPacket,
            DecodeStage::ReceiveFrame,
            DecodeStage::Flush,
            DecodeStage::BuildImage,
        ]);
    } else {
        assert(run =~= seq![
            DecodeStage::OpenContainer,
            DecodeStage::LocateVideoStream,
            DecodeStage::InitDecoder,
            DecodeStage::SubmitPacket,
            DecodeStage::ReceiveFrame,
            DecodeStage::ConvertPixelFormat,
            DecodeStage::Flush,
            DecodeStage::BuildImage,
        ]);
    }
}

/// The image of a decoded frame from its RGB plane. A plane shorter than
/// `width` x `height` RGB pixels fails at the image-building stage; a longer
/// one is cut to that length.
pub fn frame_to_image(width: u32, height: u32, plane: Vec<u8>) -> (r: Result<
    RasterImage,
    DecodeError,
>)
    ensures
        r.is_ok() <==> image_len(width, height, PixelFormat::Rgb8) <= plane@.len(),
        r matches Ok(img) ==> {
            &&& img.wf()
            &&& img.width == width
            &&& img.height == height
            &&& img.format == PixelFormat::Rgb8
            &&& img.data@.len() == image_len(width, height, PixelFormat::Rgb8)
            &&& img.data@ == plane@.subrange(0, image_len(width, height, PixelFormat::Rgb8))
        },
        r matches Err(e) ==> e.stage == DecodeStage::BuildImage,
{
    match RasterImage::from_raw(width, height, PixelFormat::Rgb8, plane) {
        Some(img) => Ok(img),
        None => Err(DecodeError { stage: DecodeStage::BuildImage }),
    }
}

} // verus!
