//! Devices and the per-device scheduling protocol.
//!
//! A [`Device`] owns one hardware stream's metadata — index, pixel format,
//! frame geometry — together with the handle of the externally owned
//! presentable image and the working half of the frame's double buffer.
//! The working half is moved into the single in-flight unit of work by
//! [`Device::spawn_work`] and moved back by one of the reap methods, so no
//! two units can ever hold it at once.
//!
//! [`Input`] is the capture role: its reap swaps the freshly decoded working
//! half with the presentable image. [`Output`] is the playback role: its
//! reap copies the presentable image into the working half, to be encoded by
//! the next unit of work.

use vstd::prelude::*;

verus! {

/// Why a device operation failed. The only steady-state failure is an I/O
/// error from the underlying hardware stream; it aborts the current unit of
/// work without touching any shared buffer, and the next cycle retries.
#[derive(Clone, Copy, Debug, PartialEq, Eq, Structural)]
pub enum Error {
    /// The hardware video device was unavailable or a blocking stream call
    /// failed (disconnect, timeout, format mismatch).
    Io,
}

/// Pixel format tag and frame geometry. A format is copied from an input
/// device to a paired output device to make the pair format-compatible.
#[derive(Clone, Copy)]
pub struct Format {
    /// Four-byte pixel format code, e.g. "YUYV".
    pub fourcc: [u8; 4],
    /// Frame width in pixels.
    pub width: u32,
    /// Frame height in pixels.
    pub height: u32,
}

impl Format {
    /// Bytes of one unpacked four-channel frame: width times height times
    /// four channels.
    pub open spec fn frame_bytes(self) -> int {
        self.width * self.height * 4
    }

    /// A fresh frame of this geometry filled with the neutral placeholder,
    /// opaque white: every channel of every pixel at full value.
    pub fn white_frame(&self) -> (v: Vec<u8>)
        requires
            self.frame_bytes() <= u32::MAX as int,
        ensures
            v@.len() == self.frame_bytes(),
            forall|i: int| 0 <= i < v@.len() ==> v@[i] == 255u8,
    {
        let len = self.frame_len();
        white_bytes(len)
    }

    /// The frame byte count as a machine size.
    pub fn frame_len(&self) -> (n: usize)
        requires
            self.frame_bytes() <= u32::MAX as int,
        ensures
            n == self.frame_bytes(),
    {
        let wh: u64 = (self.width as u64) * (self.height as u64);
        (wh * 4) as usize
    }
}

/// A buffer of `len` placeholder bytes, opaque white.
fn white_bytes(len: usize) -> (v: Vec<u8>)
    ensures
        v@.len() == len,
        forall|i: int| 0 <= i < v@.len() ==> v@[i] == 255u8,
{
    let mut v: Vec<u8> = Vec::new();
    let mut i: usize = 0;
    while i < len
        invariant
            i <= len,
            v@.len() == i,
            forall|j: int| 0 <= j < v@.len() ==> v@[j] == 255u8,
        decreases len - i,
    {
        v.push(255);
        i = i + 1;
    }
    v
}

/// What one spawned unit of work needs from its device: the format tag that
/// selects the conversion, and the byte count of the presentable image that
/// bounds how much the conversion may write.
pub struct WorkOrder {
    /// Four-byte pixel format code of the device.
    pub fourcc: [u8; 4],
    /// Byte size of the externally owned presentable image.
    pub max_len: usize,
}

/// Handle to one hardware video node plus the working half of its double
/// buffer. `H` is the externally owned presentable image's opaque handle
/// type; this crate only stores and returns it.
pub struct Device<H> {
    id: usize,
    format: Format,
    image: H,
    size: usize,
    working: Vec<u8>,
    in_flight: bool,
}

impl<H> Device<H> {
    /// The device's index.
    pub closed spec fn id_spec(&self) -> usize {
        self.id
    }

    /// The device's pixel format and geometry.
    pub closed spec fn format_spec(&self) -> Format {
        self.format
    }

    /// The handle of the externally owned presentable image.
    pub closed spec fn image_spec(&self) -> H {
        self.image
    }

    /// The bytes of the working half of the double buffer. While a unit of
    /// work is in flight the working half is in that unit's hands and this
    /// view is empty.
    pub closed spec fn working_view(&self) -> Seq<u8> {
        self.working@
    }

    /// Whether a unit of work is currently in flight for this device.
    pub closed spec fn in_flight(&self) -> bool {
        self.in_flight
    }

    /// The fixed byte length of each half of the double buffer.
    pub closed spec fn frame_len(&self) -> int {
        self.size as int
    }

    /// Well-formedness: the buffer length is the one derived from the
    /// format's geometry, and the working half is held by the device exactly
    /// when no unit of work is in flight.
    pub closed spec fn wf(&self) -> bool {
        &&& self.size == self.format.frame_bytes()
        &&& self.format.frame_bytes() <= u32::MAX as int
        &&& self.in_flight ==> self.working@.len() == 0
        &&& !self.in_flight ==> self.working@.len() == self.size
    }

    fn new(id: usize, image: H, format: Format) -> (d: Self)
        requires
            format.frame_bytes() <= u32::MAX as int,
        ensures
            d.wf(),
            !d.in_flight(),
            d.id_spec() == id,
            d.format_spec() == format,
            d.image_spec() == image,
            d.frame_len() == format.frame_bytes(),
            d.working_view().len() == format.frame_bytes(),
            forall|i: int| 0 <= i < d.working_view().len() ==> d.working_view()[i] == 255u8,
    {
        let size = format.frame_len();
        let working = white_bytes(size);
        Device { id, format, image, size, working, in_flight: false }
    }

    /// The device's index.
    pub fn id(&self) -> (r: usize)
        ensures
            r == self.id_spec(),
    {
        self.id
    }

    /// The device's pixel format and geometry.
    pub fn format(&self) -> (r: Format)
        ensures
            r == self.format_spec(),
    {
        self.format
    }

    /// The handle of the externally owned presentable image.
    pub fn image(&self) -> (r: &H)
        ensures
            r == self.image_spec(),
    {
        &self.image
    }

    /// The frame geometry as width and height.
    pub fn size(&self) -> (r: (u32, u32))
        ensures
            r.0 == self.format_spec().width,
            r.1 == self.format_spec().height,
    {
        (self.format.width, self.format.height)
    }

    /// Spawn phase for this device. Issues a unit of work — the format tag,
    /// the write bound taken from the presentable image's geometry, and the
    /// working half of the double buffer, moved into the unit's exclusive
    /// ownership — exactly when the device is idle and its image is present.
    /// A device whose previous unit is still in flight is left untouched, so
    /// at most one unit ever exists per device; a device whose image handle
    /// has gone stale is skipped for this cycle.
    pub fn spawn_work(&mut self, image_dims: Option<(u32, u32)>) -> (work: Option<
        (WorkOrder, Vec<u8>),
    >)
        requires
            old(self).wf(),
            image_dims matches Some(dims) ==> dims.0 * dims.1 * 4 <= u32::MAX,
        ensures
            final(self).wf(),
            (work is Some) == (!old(self).in_flight() && image_dims is Some),
            old(self).in_flight() || image_dims is None ==> *final(self) == *old(self),
            final(self).id_spec() == old(self).id_spec(),
            final(self).format_spec() == old(self).format_spec(),
            final(self).image_spec() == old(self).image_spec(),
            final(self).frame_len() == old(self).frame_len(),
            work matches Some((order, buf)) ==> {
                &&& final(self).in_flight()
                &&& buf@ == old(self).working_view()
                &&& order.fourcc == old(self).format_spec().fourcc
                &&& image_dims matches Some(dims) ==> order.max_len == dims.0 * dims.1 * 4
            },
    {
        match image_dims {
            None => None,
            Some((w, h)) => {
                if self.in_flight {
                    None
                } else {
                    let mut buf: Vec<u8> = Vec::new();
                    core::mem::swap(&mut self.working, &mut buf);
                    self.in_flight = true;
                    let max_len = (w * h * 4) as usize;
                    Some((WorkOrder { fourcc: self.format.fourcc, max_len }, buf))
                }
            },
        }
    }

    /// Capture-side reap: the completed unit hands back the working half,
    /// now holding the decoded frame, and it is swapped with the presentable
    /// image — the decoded frame becomes presentable, the previous
    /// presentable bytes become the next working half. The device returns
    /// to idle.
    pub fn reap_swap(&mut self, done: Vec<u8>, image: &mut Vec<u8>)
        requires
            old(self).wf(),
            old(self).in_flight(),
            done@.len() == old(self).frame_len(),
            old(image)@.len() == old(self).frame_len(),
        ensures
            final(self).wf(),
            !final(self).in_flight(),
            final(image)@ == done@,
            final(self).working_view() == old(image)@,
            final(self).id_spec() == old(self).id_spec(),
            final(self).format_spec() == old(self).format_spec(),
            final(self).image_spec() == old(self).image_spec(),
            final(self).frame_len() == old(self).frame_len(),
    {
        let mut buf = done;
        core::mem::swap(image, &mut buf);
        self.working = buf;
        self.in_flight = false;
    }

    /// Playback-side reap: the presentable image's bytes are copied into the
    /// working half, to be encoded by the next unit of work. The device
    /// returns to idle.
    pub fn reap_copy(&mut self, image: &Vec<u8>)
        requires
            old(self).wf(),
            old(self).in_flight(),
            image@.len() == old(self).frame_len(),
        ensures
            final(self).wf(),
            !final(self).in_flight(),
            final(self).working_view() == image@,
            final(self).id_spec() == old(self).id_spec(),
            final(self).format_spec() == old(self).format_spec(),
            final(self).image_spec() == old(self).image_spec(),
            final(self).frame_len() == old(self).frame_len(),
    {
        let mut buf: Vec<u8> = Vec::new();
        let mut i: usize = 0;
        while i < image.len()
            invariant
                i <= image@.len(),
                buf@ == image@.subrange(0, i as int),
            decreases image@.len() - i,
        {
            buf.push(image[i]);
            i = i + 1;
        }
        proof {
            assert(buf@ =~= image@);
        }
        self.working = buf;
        self.in_flight = false;
    }

    /// Reap after a failed unit of work: the unit aborted on a stream error
    /// without converting anything, so the working half comes back as it
    /// went out and the presentable image is not touched — a disconnected
    /// device freezes at its last successfully converted frame. The device
    /// returns to idle and the next spawn phase retries.
    pub fn reap_abort(&mut self, done: Vec<u8>)
        requires
            old(self).wf(),
            old(self).in_flight(),
            done@.len() == old(self).frame_len(),
        ensures
            final(self).wf(),
            !final(self).in_flight(),
            final(self).working_view() == done@,
            final(self).id_spec() == old(self).id_spec(),
            final(self).format_spec() == old(self).format_spec(),
            final(self).image_spec() == old(self).image_spec(),
            final(self).frame_len() == old(self).frame_len(),
    {
        self.working = done;
        self.in_flight = false;
    }
}

/// A capture device: frames are pulled from the hardware stream, decoded
/// into the working half, and swapped into the presentable image.
pub struct Input<H>(pub Device<H>);

impl<H> Input<H> {
    /// Builds the capture side around an already opened stream: the caller
    /// discovers the device's format and geometry, allocates the presentable
    /// image (see [`Format::white_frame`]) in the external store, and hands
    /// its handle in. The working half starts as the same neutral white.
    pub fn new(device_id: usize, image: H, format: Format) -> (d: Self)
        requires
            format.frame_bytes() <= u32::MAX as int,
        ensures
            d.0.wf(),
            !d.0.in_flight(),
            d.0.id_spec() == device_id,
            d.0.format_spec() == format,
            d.0.image_spec() == image,
            d.0.frame_len() == format.frame_bytes(),
            d.0.working_view().len() == format.frame_bytes(),
            forall|i: int| 0 <= i < d.0.working_view().len() ==> d.0.working_view()[i] == 255u8,
    {
        Input(Device::new(device_id, image, format))
    }

    /// A fresh presentable buffer of this device's geometry, pre-filled with
    /// the neutral placeholder, for the caller to register as a further
    /// image of the same stream.
    pub fn clone_image(&self) -> (v: Vec<u8>)
        requires
            self.0.wf(),
        ensures
            v@.len() == self.0.frame_len(),
            forall|i: int| 0 <= i < v@.len() ==> v@[i] == 255u8,
    {
        let f = self.0.format();
        f.white_frame()
    }

    /// Handle of the externally owned presentable image.
    pub fn image(&self) -> (r: &H)
        ensures
            r == self.0.image_spec(),
    {
        self.0.image()
    }

    /// Index of the hardware video device.
    pub fn id(&self) -> (r: usize)
        ensures
            r == self.0.id_spec(),
    {
        self.0.id()
    }

    /// The device's pixel format and geometry, to be copied to a paired
    /// output device.
    pub fn format(&self) -> (r: Format)
        ensures
            r == self.0.format_spec(),
    {
        self.0.format()
    }

    /// The frame geometry as width and height.
    pub fn size(&self) -> (r: (u32, u32))
        ensures
            r.0 == self.0.format_spec().width,
            r.1 == self.0.format_spec().height,
    {
        self.0.size()
    }
}

/// A playback device: the presentable image is copied into the working
/// half at reap time and encoded into the hardware stream by the next unit
/// of work.
pub struct Output<H>(pub Device<H>);

impl<H> Output<H> {
    /// Builds the playback side: the caller sets the hardware format from
    /// `format` (typically copied from a paired [`Input`]), opens the output
    /// stream, and hands in the handle of the externally owned presentable
    /// image to encode from.
    pub fn new(device_id: usize, image: H, format: Format) -> (d: Self)
        requires
            format.frame_bytes() <= u32::MAX as int,
        ensures
            d.0.wf(),
            !d.0.in_flight(),
            d.0.id_spec() == device_id,
            d.0.format_spec() == format,
            d.0.image_spec() == image,
            d.0.frame_len() == format.frame_bytes(),
            d.0.working_view().len() == format.frame_bytes(),
            forall|i: int| 0 <= i < d.0.working_view().len() ==> d.0.working_view()[i] == 255u8,
    {
        Output(Device::new(device_id, image, format))
    }

    /// Handle of the externally owned presentable image.
    pub fn image(&self) -> (r: &H)
        ensures
            r == self.0.image_spec(),
    {
        self.0.image()
    }

    /// Index of the hardware video device.
    pub fn id(&self) -> (r: usize)
        ensures
            r == self.0.id_spec(),
    {
        self.0.id()
    }

    /// The device's pixel format and geometry.
    pub fn format(&self) -> (r: Format)
        ensures
            r == self.0.format_spec(),
    {
        self.0.format()
    }

    /// The frame geometry as width and height.
    pub fn size(&self) -> (r: (u32, u32))
        ensures
            r.0 == self.0.format_spec().width,
            r.1 == self.0.format_spec().height,
    {
        self.0.size()
    }
}

} // verus!
