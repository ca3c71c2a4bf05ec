//! The encoder. The search for the configurations it can be built from
//! starts at [`available`].
//!
//! An encoder stands for one native encoder of one backend. Each operation
//! on it comes in two halves with a native call between them: the first
//! half says which call to make, the second takes what the call gave back.
//! While the native `encode` runs, the backend hands over finished frames
//! through [`Encoder::callback`].

pub use crate::vram::search::available;

use crate::vram::inner::{EncodeCalls, EntryPoint};
use crate::vram::text::{decimal, decimal_text, signed_decimal, signed_decimal_text};
use crate::vram::EncodeContext;
use vstd::prelude::*;
use vstd::slice::slice_to_vec;
use vstd::string::StringExecFns;

verus! {

/// Why no encoder was built.
#[derive(Clone, Copy, Debug, PartialEq, Eq, Hash)]
pub enum ConstructionError {
    /// The width or the height is odd. No backend was asked.
    InvalidGeometry,
    /// The backend gave back no encoder.
    BackendRejected,
}

/// The status with which a backend failed to encode, as it gave it.
#[derive(Clone, Copy, Debug, PartialEq, Eq, Hash)]
pub struct EncodeError {
    pub code: i32,
}

/// One encoded frame. The bytes are the encoder's own copy.
#[derive(Debug, PartialEq, Eq)]
pub struct EncodeFrame {
    pub data: Vec<u8>,
    pub pts: i64,
    pub key: i32,
}

/// A frame as a mathematical value.
pub struct EncodeFrameView {
    pub data: Seq<u8>,
    pub pts: i64,
    pub key: i32,
}

impl View for EncodeFrame {
    type V = EncodeFrameView;

    open spec fn view(&self) -> EncodeFrameView {
        EncodeFrameView { data: self.data@, pts: self.pts, key: self.key }
    }
}

/// The line that describes a frame of `len` bytes with key flag `key`.
pub open spec fn frame_text(len: nat, key: int) -> Seq<char> {
    "encode len:"@ + decimal(len) + ", key:"@ + signed_decimal(key)
}

impl EncodeFrame {
    /// Whether the frame can be decoded without the frames before it.
    pub fn is_keyframe(&self) -> (r: bool)
        ensures
            r == (self.key != 0),
    {
        self.key != 0
    }

    /// The frame in one line: the length of its data and its key flag.
    pub fn to_string(&self) -> (text: String)
        ensures
            text@ == frame_text(self.data@.len(), self.key as int),
    {
        let len = decimal_text(self.data.len() as u64);
        let key = signed_decimal_text(self.key as i64);
        String::from_str("encode len:").concat(len.as_str()).concat(", key:").concat(key.as_str())
    }
}

/// The frames of `frames` as mathematical values.
pub open spec fn frame_views(frames: Seq<EncodeFrame>) -> Seq<EncodeFrameView> {
    frames.map_values(|frame: EncodeFrame| frame@)
}

/// The native call that builds an encoder.
#[derive(Clone, Copy, Debug, PartialEq, Eq, Hash)]
pub struct NewCall {
    pub entry: EntryPoint,
    /// The caller's device handle, or 0 for none.
    pub device: usize,
    pub luid: i64,
    pub api: i32,
    /// The format, as the backends number it.
    pub data_format: i32,
    pub width: i32,
    pub height: i32,
    pub kbitrate: i32,
    pub framerate: i32,
    pub gop: i32,
}

/// The native call that encodes one input frame.
#[derive(Clone, Copy, Debug, PartialEq, Eq, Hash)]
pub struct EncodeCall {
    pub entry: EntryPoint,
    pub codec: usize,
    /// The input frame's handle.
    pub tex: usize,
    /// The time the backend may take, in milliseconds.
    pub ms: i64,
}

/// The native call that changes one setting of a running encoder.
#[derive(Clone, Copy, Debug, PartialEq, Eq, Hash)]
pub struct ControlCall {
    pub entry: EntryPoint,
    pub codec: usize,
    pub value: i32,
}

/// The native call that releases an encoder.
#[derive(Clone, Copy, Debug, PartialEq, Eq, Hash)]
pub struct DestroyCall {
    pub entry: EntryPoint,
    pub codec: usize,
}

/// The native call that builds the encoder `ctx` describes.
pub open spec fn new_call(ctx: EncodeContext) -> NewCall {
    NewCall {
        entry: EncodeCalls::of(ctx.f.driver).new,
        device: match ctx.d.device {
            Some(device) => device,
            None => 0,
        },
        luid: ctx.f.luid,
        api: ctx.f.api,
        data_format: ctx.f.data_format.spec_code(),
        width: ctx.d.width,
        height: ctx.d.height,
        kbitrate: ctx.d.kbitrate,
        framerate: ctx.d.framerate,
        gop: ctx.d.gop,
    }
}

/// What a backend's status means for a setting: zero is success, anything
/// else is the error, unchanged.
pub open spec fn spec_control_result(status: i32) -> Result<(), i32> {
    if status == 0 {
        Ok(())
    } else {
        Err(status)
    }
}

/// Reads the status that a native `set_bitrate` or `set_framerate` gave.
#[verifier::when_used_as_spec(spec_control_result)]
pub fn control_result(status: i32) -> (r: Result<(), i32>)
    ensures
        r == spec_control_result(status),
{
    match status {
        0 => Ok(()),
        err => Err(err),
    }
}

/// A configuration that passed the library's own test and waits for the
/// backend to build its encoder.
pub struct PendingEncoder {
    ctx: EncodeContext,
    calls: EncodeCalls,
}

/// What ties an encoder to its backend.
struct Session {
    calls: EncodeCalls,
    codec: usize,
    ctx: EncodeContext,
}

/// A running encoder.
pub struct Encoder {
    session: Session,
    frames: Vec<EncodeFrame>,
}

/// An encoder as a mathematical value.
pub struct EncoderView {
    /// The configuration the encoder was built from.
    pub ctx: EncodeContext,
    /// The native functions of its backend.
    pub calls: EncodeCalls,
    /// The backend's handle of the native encoder.
    pub codec: usize,
    /// The frames handed over since the last `encode` began.
    pub frames: Seq<EncodeFrameView>,
}

impl EncoderView {
    /// What holds of every encoder: its dimensions are even, its handle is
    /// not null, and its native functions are those of its own backend.
    pub open spec fn valid(self) -> bool {
        &&& self.ctx.d.spec_has_even_size()
        &&& self.codec != 0
        &&& self.calls == EncodeCalls::of(self.ctx.f.driver)
    }

    /// The encoder with its frames dropped.
    pub open spec fn cleared(self) -> EncoderView {
        EncoderView { frames: Seq::empty(), ..self }
    }

    /// The encoder with one more frame.
    pub open spec fn delivered(self, frame: EncodeFrameView) -> EncoderView {
        EncoderView { frames: self.frames.push(frame), ..self }
    }

    /// The encoder holding `frames` and nothing else.
    pub open spec fn holding(self, frames: Seq<EncodeFrameView>) -> EncoderView {
        EncoderView { frames, ..self }
    }

    /// The encoder after one whole encoding: it was cleared, and then the
    /// backend handed over `frames`, one by one.
    pub open spec fn after_encode(self, frames: Seq<EncodeFrameView>) -> EncoderView
        decreases frames.len(),
    {
        if frames.len() == 0 {
            self.cleared()
        } else {
            self.after_encode(frames.drop_last()).delivered(frames.last())
        }
    }
}

impl PendingEncoder {
    #[verifier::type_invariant]
    spec fn inv(&self) -> bool {
        &&& self.ctx.d.spec_has_even_size()
        &&& self.calls == EncodeCalls::of(self.ctx.f.driver)
    }

    /// The configuration that waits.
    pub closed spec fn ctx(&self) -> EncodeContext {
        self.ctx
    }

    /// The native call to make now.
    pub fn call(&self) -> (call: NewCall)
        ensures
            call == new_call(self.ctx()),
            self.ctx().d.spec_has_even_size(),
    {
        proof {
            use_type_invariant(self);
        }
        NewCall {
            entry: self.calls.new,
            device: match self.ctx.d.device {
                Some(device) => device,
                None => 0,
            },
            luid: self.ctx.f.luid,
            api: self.ctx.f.api,
            data_format: self.ctx.f.data_format.code(),
            width: self.ctx.d.width,
            height: self.ctx.d.height,
            kbitrate: self.ctx.d.kbitrate,
            framerate: self.ctx.d.framerate,
            gop: self.ctx.d.gop,
        }
    }

    /// Takes the handle that the native call gave back, 0 for null.
    ///
    /// A null handle is a rejection. Any other becomes the encoder's, with
    /// no frames yet.
    pub fn complete(self, codec: usize) -> (r: Result<Encoder, ConstructionError>)
        ensures
            codec == 0 ==> r == Err::<Encoder, ConstructionError>(
                ConstructionError::BackendRejected,
            ),
            codec != 0 ==> r is Ok && r->Ok_0@ == (EncoderView {
                ctx: self.ctx(),
                calls: EncodeCalls::of(self.ctx().f.driver),
                codec,
                frames: Seq::empty(),
            }) && r->Ok_0@.valid(),
    {
        proof {
            use_type_invariant(&self);
        }
        if codec == 0 {
            return Err(ConstructionError::BackendRejected);
        }
        let frames: Vec<EncodeFrame> = Vec::new();
        assert(frame_views(frames@) == Seq::<EncodeFrameView>::empty());
        Ok(Encoder { session: Session { calls: self.calls, codec, ctx: self.ctx }, frames })
    }
}

impl Session {
    #[verifier::type_invariant]
    spec fn inv(&self) -> bool {
        &&& self.ctx.d.spec_has_even_size()
        &&& self.codec != 0
        &&& self.calls == EncodeCalls::of(self.ctx.f.driver)
    }
}

impl View for Encoder {
    type V = EncoderView;

    closed spec fn view(&self) -> EncoderView {
        EncoderView {
            ctx: self.session.ctx,
            calls: self.session.calls,
            codec: self.session.codec,
            frames: frame_views(self.frames@),
        }
    }
}

impl Encoder {
    /// Begins the construction of an encoder for `ctx`.
    ///
    /// With an odd width or height this fails at once, and nothing exists
    /// with which a backend could be asked. Otherwise the result names the
    /// native call to make and waits for its answer.
    pub fn new(ctx: EncodeContext) -> (r: Result<PendingEncoder, ConstructionError>)
        ensures
            !ctx.d.spec_has_even_size() ==> r == Err::<PendingEncoder, ConstructionError>(
                ConstructionError::InvalidGeometry,
            ),
            ctx.d.spec_has_even_size() ==> r is Ok && r->Ok_0.ctx() == ctx,
    {
        if !ctx.d.has_even_size() {
            return Err(ConstructionError::InvalidGeometry);
        }
        Ok(PendingEncoder { ctx, calls: EncodeCalls::for_driver(ctx.f.driver) })
    }

    /// The configuration the encoder was built from.
    pub fn ctx(&self) -> (ctx: &EncodeContext)
        ensures
            *ctx == self@.ctx,
            self@.valid(),
    {
        proof {
            use_type_invariant(&self.session);
        }
        &self.session.ctx
    }

    /// Begins the encoding of the input frame `tex`: drops the frames of
    /// the encoding before, and names the native call to make.
    pub fn encode(&mut self, tex: usize, ms: i64) -> (call: EncodeCall)
        ensures
            final(self)@ == old(self)@.cleared(),
            final(self)@.valid(),
            call == (EncodeCall {
                entry: old(self)@.calls.encode,
                codec: old(self)@.codec,
                tex,
                ms,
            }),
    {
        proof {
            use_type_invariant(&self.session);
        }
        self.frames.clear();
        assert(frame_views(self.frames@) == Seq::<EncodeFrameView>::empty());
        EncodeCall { entry: self.session.calls.encode, codec: self.session.codec, tex, ms }
    }

    /// Takes one finished frame from the backend, copying its bytes.
    ///
    /// The backend calls this from inside the native `encode`, once for
    /// each frame and in the order of its output.
    pub fn callback(&mut self, data: &[u8], key: i32, pts: i64)
        ensures
            final(self)@ == old(self)@.delivered(EncodeFrameView { data: data@, pts, key }),
            final(self)@.valid(),
    {
        proof {
            use_type_invariant(&self.session);
        }
        let frame = EncodeFrame { data: slice_to_vec(data), pts, key };
        self.frames.push(frame);
        assert(frame_views(self.frames@) == frame_views(old(self).frames@).push(frame@));
    }

    /// Takes the status that the native `encode` gave back.
    ///
    /// A status other than zero is the error, unchanged. With zero the
    /// result is the encoder's own buffer, holding the frames handed over
    /// since [`Encoder::encode`], in the order in which they came; what
    /// the caller leaves in it stays until the next encoding begins.
    pub fn encoded(&mut self, status: i32) -> (r: Result<&mut Vec<EncodeFrame>, EncodeError>)
        ensures
            status != 0 ==> r == Err::<&mut Vec<EncodeFrame>, EncodeError>(
                EncodeError { code: status },
            ) && final(self)@ == old(self)@,
            status == 0 ==> r is Ok && frame_views(r->Ok_0@) == old(self)@.frames && final(self)@
                == old(self)@.holding(frame_views(final(r->Ok_0)@)),
            final(self)@.valid(),
    {
        proof {
            use_type_invariant(&self.session);
        }
        if status != 0 {
            Err(EncodeError { code: status })
        } else {
            Ok(&mut self.frames)
        }
    }

    /// The frames handed over since the last encoding began.
    pub fn frames(&self) -> (frames: &Vec<EncodeFrame>)
        ensures
            frame_views(frames@) == self@.frames,
    {
        &self.frames
    }

    /// Names the native call that sets the bit rate to `kbs` kilobits per
    /// second. The value goes to the backend as it is, and the encoder
    /// stays as it is, its frames too.
    pub fn set_bitrate(&mut self, kbs: i32) -> (call: ControlCall)
        ensures
            call == (ControlCall {
                entry: old(self)@.calls.set_bitrate,
                codec: old(self)@.codec,
                value: kbs,
            }),
            final(self)@ == old(self)@,
            final(self)@.valid(),
    {
        proof {
            use_type_invariant(&self.session);
        }
        ControlCall { entry: self.session.calls.set_bitrate, codec: self.session.codec, value: kbs }
    }

    /// Names the native call that sets the frame rate. The value goes to
    /// the backend as it is, and the encoder stays as it is, its frames
    /// too.
    pub fn set_framerate(&mut self, framerate: i32) -> (call: ControlCall)
        ensures
            call == (ControlCall {
                entry: old(self)@.calls.set_framerate,
                codec: old(self)@.codec,
                value: framerate,
            }),
            final(self)@ == old(self)@,
            final(self)@.valid(),
    {
        proof {
            use_type_invariant(&self.session);
        }
        ControlCall {
            entry: self.session.calls.set_framerate,
            codec: self.session.codec,
            value: framerate,
        }
    }

    /// Ends the encoder and names the native call that releases its
    /// handle. The frames still held go with it.
    pub fn destroy(self) -> (call: DestroyCall)
        ensures
            call == (DestroyCall { entry: self@.calls.destroy, codec: self@.codec }),
            self@.valid(),
    {
        proof {
            use_type_invariant(&self.session);
        }
        DestroyCall { entry: self.session.calls.destroy, codec: self.session.codec }
    }
}

/// After a whole encoding the encoder holds the frames that the backend
/// handed over during it, in their order, and nothing else; the rest of
/// the encoder is as it was.
pub proof fn lemma_encode_holds_what_came(encoder: EncoderView, frames: Seq<EncodeFrameView>)
    ensures
        encoder.after_encode(frames) == encoder.holding(frames),
        encoder.valid() ==> encoder.after_encode(frames).valid(),
    decreases frames.len(),
{
    if frames.len() > 0 {
        lemma_encode_holds_what_came(encoder, frames.drop_last());
        assert(frames.drop_last().push(frames.last()) == frames);
    } else {
        assert(frames == Seq::<EncodeFrameView>::empty());
    }
}

/// Of two encodings in a row on one encoder, the second leaves the frames
/// of the second only: none of the first is still there.
pub proof fn lemma_encode_drops_earlier_frames(
    encoder: EncoderView,
    first: Seq<EncodeFrameView>,
    second: Seq<EncodeFrameView>,
)
    ensures
        encoder.after_encode(first).after_encode(second).frames == second,
        encoder.after_encode(first).after_encode(second) == encoder.after_encode(second),
{
    lemma_encode_holds_what_came(encoder, first);
    lemma_encode_holds_what_came(encoder, second);
    lemma_encode_holds_what_came(encoder.after_encode(first), second);
}

} // verus!
