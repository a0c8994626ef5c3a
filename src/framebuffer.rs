use vstd::prelude::*;

verus! {

/// Bytes in one pixel record.
pub const BYTES_PER_PIXEL: u64 = 4;

/// The number of bytes in a whole frame of `width` by `height` pixels.
pub open spec fn frame_len(width: u16, height: u16) -> int {
    width as int * height as int * BYTES_PER_PIXEL as int
}

/// Why a byte buffer cannot be read as a frame.
#[derive(Clone, Copy, Debug, PartialEq, Eq, Structural)]
pub enum FrameError {
    /// The length is not a multiple of the pixel size.
    PartialPixel { len: usize },
    /// The length does not match the frame's dimensions.
    SizeMismatch { width: u16, height: u16, len: usize },
}

/// The check a byte buffer must pass to be read as a `width` by `height` frame.
pub open spec fn frame_check(len: int, width: u16, height: u16) -> Result<(), FrameError> {
    if len % (BYTES_PER_PIXEL as int) != 0 {
        Err(FrameError::PartialPixel { len: len as usize })
    } else if len != frame_len(width, height) {
        Err(FrameError::SizeMismatch { width, height, len: len as usize })
    } else {
        Ok(())
    }
}

fn check_frame(len: usize, width: u16, height: u16) -> (r: Result<(), FrameError>)
    ensures
        r == frame_check(len as int, width, height),
{
    proof {
        assert(width as u64 * height as u64 <= 65535u64 * 65535u64) by (nonlinear_arith)
            requires
                width <= 65535,
                height <= 65535,
        ;
    }
    let expected: u64 = width as u64 * height as u64 * BYTES_PER_PIXEL;
    if len as u64 % BYTES_PER_PIXEL != 0 {
        Err(FrameError::PartialPixel { len })
    } else if len as u64 != expected {
        Err(FrameError::SizeMismatch { width, height, len })
    } else {
        Ok(())
    }
}

/// The slot through which the session hands its newest frame to the renderer.
/// When an image is present it holds exactly `width * height` pixels.
pub struct RDPSharedFramebuffer {
    pub image: Option<Vec<u8>>,
    pub height: u16,
    pub width: u16,
}

impl Default for RDPSharedFramebuffer {
    fn default() -> (r: Self)
        ensures
            r.image.is_none() && r.width == 0 && r.height == 0,
    {
        RDPSharedFramebuffer { image: None, height: 0, width: 0 }
    }
}

/// The slot after a publish: a frame of the right size replaces what was
/// there; any other leaves the slot unchanged.
pub open spec fn published(
    slot: (Option<Seq<u8>>, u16, u16),
    width: u16,
    height: u16,
    image: Seq<u8>,
) -> (Option<Seq<u8>>, u16, u16) {
    if frame_check(image.len() as int, width, height) is Ok {
        (Some(image), width, height)
    } else {
        slot
    }
}

impl View for RDPSharedFramebuffer {
    type V = (Option<Seq<u8>>, u16, u16);

    /// The image held, if any, with the width and height.
    open spec fn view(&self) -> (Option<Seq<u8>>, u16, u16) {
        (
            match self.image {
                Some(v) => Some(v@),
                None => None,
            },
            self.width,
            self.height,
        )
    }
}

impl RDPSharedFramebuffer {
    pub open spec fn wf(&self) -> bool {
        self@.0 is Some ==> frame_check(
            self@.0.unwrap().len() as int,
            self.width,
            self.height,
        ) is Ok
    }

    /// Replaces the slot's contents with a new frame, which the slot then owns.
    /// A frame whose length does not match its dimensions is refused.
    pub fn publish(&mut self, width: u16, height: u16, image: Vec<u8>) -> (r: Result<(), FrameError>)
        ensures
            r == frame_check(image@.len() as int, width, height),
            final(self)@ == published(
                old(self)@,
                width,
                height,
                image@,
            ),
            old(self).wf() ==> final(self).wf(),
    {
        match check_frame(image.len(), width, height) {
            Ok(()) => {
                self.image = Some(image);
                self.width = width;
                self.height = height;
                Ok(())
            },
            Err(e) => Err(e),
        }
    }

    /// Takes the newest frame out of the slot, leaving it empty; every frame
    /// published before it and not taken is gone.
    pub fn take_latest(&mut self) -> (r: Option<Vec<u8>>)
        ensures
            match r {
                Some(v) => old(self)@.0 == Some(v@),
                None => old(self)@.0 is None,
            },
            final(self)@ == (None::<Seq<u8>>, old(self).width, old(self).height),
    {
        self.image.take()
    }
}

/// Frames published one after another before the consumer reads are
/// coalesced: after three whole frames the slot holds the third, complete, with
/// its own dimensions, and nothing of the first two.
pub proof fn lemma_latest_frame_wins(
    slot: (Option<Seq<u8>>, u16, u16),
    w1: u16,
    h1: u16,
    i1: Seq<u8>,
    w2: u16,
    h2: u16,
    i2: Seq<u8>,
    w3: u16,
    h3: u16,
    i3: Seq<u8>,
)
    requires
        frame_check(i1.len() as int, w1, h1) is Ok,
        frame_check(i2.len() as int, w2, h2) is Ok,
        frame_check(i3.len() as int, w3, h3) is Ok,
    ensures
        published(published(published(slot, w1, h1, i1), w2, h2, i2), w3, h3, i3) == (
            Some(i3),
            w3,
            h3,
        ),
        i3.len() == frame_len(w3, h3),
{
}

/// Reads a frame's bytes as 4-byte pixel records, in order, after checking
/// that the bytes are whole pixels and exactly fill the frame.
pub fn pixel_records(bytes: &Vec<u8>, width: u16, height: u16) -> (r: Result<Vec<[u8; 4]>, FrameError>)
    ensures
        match frame_check(bytes@.len() as int, width, height) {
            Ok(()) => r is Ok,
            Err(e) => r == Err::<Vec<[u8; 4]>, FrameError>(e),
        },
        r is Ok ==> ({
            let px = r.unwrap()@;
            &&& px.len() == width as int * height as int
            &&& forall|i: int|
                0 <= i < px.len() ==> #[trigger] px[i]@ == bytes@.subrange(4 * i, 4 * i + 4)
        }),
{
    match check_frame(bytes.len(), width, height) {
        Ok(()) => {},
        Err(e) => {
            return Err(e);
        },
    }
    let len: usize = bytes.len();
    let n: usize = len / 4;
    assert(4 * n == len);
    let mut px: Vec<[u8; 4]> = Vec::with_capacity(n);
    let mut i: usize = 0;
    while i < n
        invariant
            4 * n == len,
            len == bytes@.len(),
            i <= n,
            px@.len() == i,
            forall|j: int| 0 <= j < i ==> #[trigger] px@[j]@ == bytes@.subrange(4 * j, 4 * j + 4),
        decreases n - i,
    {
        let b = 4 * i;
        let rec: [u8; 4] = [bytes[b], bytes[b + 1], bytes[b + 2], bytes[b + 3]];
        proof {
            assert(rec@ =~= bytes@.subrange(4 * i as int, 4 * i as int + 4));
        }
        px.push(rec);
        i = i + 1;
    }
    Ok(px)
}

} // verus!
