//! The cipher context: its state machine and the negotiation of its parameters.
use crate::error::{cvt, outcome, succeeded, CryptoError, Report};
use libc::c_int;
use vstd::prelude::*;

verus! {

/// The largest value of the primitive's `int` parameters.
pub const C_INT_MAX: usize = 0x7fff_ffff;

/// The direction in which a context processes data.
#[derive(Clone, Copy, Debug, PartialEq, Eq, Structural)]
pub enum Mode {
    Encrypt,
    Decrypt,
}

impl Mode {
    /// The `enc` flag of the primitive's init call: 1 to encrypt, 0 to decrypt.
    pub fn as_raw(self) -> (r: c_int)
        ensures
            r == (if self == Mode::Encrypt { 1 as c_int } else { 0 as c_int }),
    {
        match self {
            Mode::Encrypt => 1,
            Mode::Decrypt => 0,
        }
    }
}

/// Where a context stands in its lifecycle.
#[derive(Clone, Copy, Debug, PartialEq, Eq, Structural)]
pub enum Phase {
    Fresh,
    Initialized,
    Finalized,
}

/// A cipher descriptor as the algorithm catalog reports it. A raw length that is
/// not positive means "not applicable": no fixed block size, no IV, no tag.
#[derive(Clone, Copy, Debug, PartialEq, Eq, Structural)]
pub struct Cipher {
    /// The algorithm's identity in the catalog.
    pub nid: c_int,
    pub block_size: c_int,
    /// The default key length.
    pub key_len: c_int,
    /// The default IV length.
    pub iv_len: c_int,
    /// The default tag length; positive exactly for AEAD algorithms.
    pub tag_len: c_int,
}

/// The primitive's convention for lengths: a positive count is a length,
/// anything else means "not applicable".
pub open spec fn length_of(raw: c_int) -> Option<usize> {
    if raw > 0 {
        Some(raw as usize)
    } else {
        None
    }
}

/// Reads a raw length reported by the primitive.
pub fn positive_length(raw: c_int) -> (r: Option<usize>)
    ensures
        r == length_of(raw),
{
    if raw > 0 {
        Some(raw as usize)
    } else {
        None
    }
}

/// Converts a length to the primitive's `int`.
pub fn to_c_int(len: usize) -> (r: c_int)
    requires
        len <= C_INT_MAX,
    ensures
        r as int == len as int,
{
    len as c_int
}

impl Cipher {
    pub open spec fn is_aead(self) -> bool {
        self.tag_len > 0
    }
}

/// An operation on a context, described by what decides whether it may be made.
/// A call that a context does not permit is a defect of the caller: it must not
/// reach the primitive.
#[derive(Clone, Copy, Debug, PartialEq, Eq, Structural)]
pub enum Call {
    /// Binds `cipher` (or keeps the bound algorithm) with a key and an IV of
    /// the given lengths, where supplied.
    Init { cipher: Option<Cipher>, key_len: Option<usize>, iv_len: Option<usize>, mode: Mode },
    /// A read of the block size or of a negotiated length.
    Query,
    SetKeyLength { len: usize },
    SetIvLength { len: usize },
    SetTagLength { len: usize },
    /// A read of the computed tag into a buffer of `len` bytes.
    Tag { len: usize },
    /// Supplies an expected tag of `len` bytes.
    SetTag { len: usize },
    SetPadding,
    SetDataLen { len: usize },
    /// Feeds `input_len` bytes, with an output buffer of `output_len` bytes or none.
    Update { input_len: usize, output_len: Option<usize> },
    Finalize { output_len: usize },
}

pub open spec fn copied(c: Option<&Cipher>) -> Option<Cipher> {
    match c {
        Some(c) => Some(*c),
        None => None,
    }
}

pub open spec fn len_of(b: Option<&[u8]>) -> Option<usize> {
    match b {
        Some(b) => Some(b@.len() as usize),
        None => None,
    }
}

/// The abstract state of a context.
pub struct CtxModel {
    /// The bound algorithm; absent only before the first initialization.
    pub cipher: Option<Cipher>,
    pub mode: Mode,
    pub phase: Phase,
    /// The negotiated key, IV and tag lengths, as raw values.
    pub key_len: c_int,
    pub iv_len: c_int,
    pub tag_len: c_int,
    pub padding: bool,
    /// Whether a key, an IV, an expected tag have been supplied.
    pub key_set: bool,
    pub iv_set: bool,
    pub tag_set: bool,
    /// The total message length declared ahead of the data, if any.
    pub data_len: Option<usize>,
    /// Whether an update has fed data since the last initialization.
    pub started: bool,
}

impl CtxModel {
    /// A context is bound to an algorithm exactly when it has left `Fresh`.
    pub open spec fn wf(self) -> bool {
        (self.phase == Phase::Fresh) == self.cipher.is_none()
    }

    pub open spec fn fresh() -> CtxModel {
        CtxModel {
            cipher: None,
            mode: Mode::Encrypt,
            phase: Phase::Fresh,
            key_len: 0,
            iv_len: 0,
            tag_len: 0,
            padding: true,
            key_set: false,
            iv_set: false,
            tag_set: false,
            data_len: None,
            started: false,
        }
    }

    pub open spec fn is_aead(self) -> bool {
        self.cipher.unwrap().is_aead()
    }

    pub open spec fn block_size(self) -> Option<usize> {
        length_of(self.cipher.unwrap().block_size)
    }

    pub open spec fn key_length(self) -> Option<usize> {
        length_of(self.key_len)
    }

    pub open spec fn iv_length(self) -> Option<usize> {
        length_of(self.iv_len)
    }

    pub open spec fn tag_length(self) -> Option<usize> {
        length_of(self.tag_len)
    }

    /// The bytes of headroom that an update's output buffer needs beyond its
    /// input: one block, where blocks are longer than one byte.
    pub open spec fn headroom(self) -> nat {
        match self.block_size() {
            Some(b) => if b > 1 { b as nat } else { 0 },
            None => 0,
        }
    }

    /// The key length that an initialization with `cipher` expects.
    pub open spec fn init_key_length(self, cipher: Option<Cipher>) -> Option<usize> {
        match cipher {
            Some(c) => length_of(c.key_len),
            None => self.key_length(),
        }
    }

    /// The IV length that an initialization with `cipher` expects.
    pub open spec fn init_iv_length(self, cipher: Option<Cipher>) -> Option<usize> {
        match cipher {
            Some(c) => length_of(c.iv_len),
            None => self.iv_length(),
        }
    }

    /// Whether the context, in this state, permits `call`.
    pub open spec fn permits(self, call: Call) -> bool {
        &&& self.wf()
        &&& match call {
            Call::Init { cipher, key_len, iv_len, mode } => {
                &&& self.phase != Phase::Finalized
                &&& (cipher.is_some() || (self.cipher.is_some() && mode == self.mode))
                &&& (key_len.is_some() && self.init_key_length(cipher).is_some())
                    ==> key_len == self.init_key_length(cipher)
                &&& (iv_len.is_some() && self.init_iv_length(cipher).is_some())
                    ==> iv_len == self.init_iv_length(cipher)
            },
            Call::Query => self.cipher.is_some(),
            Call::SetKeyLength { len } => {
                &&& self.phase == Phase::Initialized
                &&& !self.key_set
                &&& len <= C_INT_MAX
            },
            Call::SetIvLength { len } => {
                &&& self.phase == Phase::Initialized
                &&& !self.iv_set
                &&& len <= C_INT_MAX
            },
            Call::SetTagLength { len } => {
                &&& self.phase == Phase::Initialized
                &&& (self.mode == Mode::Decrypt ==> !self.started)
                &&& len <= C_INT_MAX
            },
            Call::Tag { len } => {
                &&& self.phase == Phase::Finalized
                &&& self.mode == Mode::Encrypt
                &&& self.tag_length() == Some(len)
            },
            Call::SetTag { len } => {
                &&& self.phase == Phase::Initialized
                &&& self.mode == Mode::Decrypt
                &&& self.is_aead()
                &&& len <= C_INT_MAX
            },
            Call::SetPadding => self.phase == Phase::Initialized,
            Call::SetDataLen { len } => {
                &&& self.phase == Phase::Initialized
                &&& self.data_len.is_none()
                &&& !self.started
                &&& len <= C_INT_MAX
            },
            Call::Update { input_len, output_len } => {
                &&& self.phase == Phase::Initialized
                &&& input_len <= C_INT_MAX
                &&& output_len.is_some() ==> output_len.unwrap() >= input_len + self.headroom()
            },
            Call::Finalize { output_len } => {
                &&& self.phase == Phase::Initialized
                &&& output_len >= self.headroom()
            },
        }
    }

    /// The state after a successful initialization.
    pub open spec fn after_init(self, cipher: Option<Cipher>, has_key: bool, has_iv: bool, mode: Mode) -> CtxModel {
        match cipher {
            Some(c) => CtxModel {
                cipher: Some(c),
                mode,
                phase: Phase::Initialized,
                key_len: c.key_len,
                iv_len: c.iv_len,
                tag_len: c.tag_len,
                padding: self.padding,
                key_set: has_key,
                iv_set: has_iv,
                tag_set: false,
                data_len: None,
                started: false,
            },
            None => CtxModel {
                mode,
                phase: Phase::Initialized,
                key_set: self.key_set || has_key,
                iv_set: self.iv_set || has_iv,
                data_len: None,
                started: false,
                ..self
            },
        }
    }

    /// The state after a successful update: data has started.
    pub open spec fn after_update(self) -> CtxModel {
        CtxModel { started: true, ..self }
    }

    /// The state after finalization, which ends the context's use whatever
    /// its outcome.
    pub open spec fn after_finalize(self) -> CtxModel {
        CtxModel { phase: Phase::Finalized, ..self }
    }

    /// What finalization returns, given the primitive's report. For AEAD
    /// decryption, any failure, and a missing expected tag, is an
    /// authentication failure.
    pub open spec fn finalize_result(self, report: Report) -> Result<usize, CryptoError> {
        if self.mode == Mode::Decrypt && self.is_aead() {
            if self.tag_set && succeeded(report) {
                Ok(report.written as usize)
            } else {
                Err(CryptoError::AuthenticationFailure)
            }
        } else {
            outcome(report, report.written as usize)
        }
    }

    /// The same four lengths, read together.
    pub open spec fn metadata(self) -> (Option<usize>, Option<usize>, Option<usize>, Option<usize>) {
        (self.block_size(), self.key_length(), self.iv_length(), self.tag_length())
    }
}

/// A cipher context. It is driven through `init`, any number of `update`s and
/// one `finalize`; each of these takes the primitive's report of the call.
pub struct CipherCtx {
    cipher: Option<Cipher>,
    mode: Mode,
    phase: Phase,
    key_len: c_int,
    iv_len: c_int,
    tag_len: c_int,
    padding: bool,
    key_set: bool,
    iv_set: bool,
    tag_set: bool,
    data_len: Option<usize>,
    started: bool,
}

impl View for CipherCtx {
    type V = CtxModel;

    closed spec fn view(&self) -> CtxModel {
        CtxModel {
            cipher: self.cipher,
            mode: self.mode,
            phase: self.phase,
            key_len: self.key_len,
            iv_len: self.iv_len,
            tag_len: self.tag_len,
            padding: self.padding,
            key_set: self.key_set,
            iv_set: self.iv_set,
            tag_set: self.tag_set,
            data_len: self.data_len,
            started: self.started,
        }
    }
}

impl CipherCtx {
    /// An empty context: no algorithm bound, padding on.
    pub fn new() -> (r: CipherCtx)
        ensures
            r@ == CtxModel::fresh(),
            r@.wf(),
    {
        CipherCtx {
            cipher: None,
            mode: Mode::Encrypt,
            phase: Phase::Fresh,
            key_len: 0,
            iv_len: 0,
            tag_len: 0,
            padding: true,
            key_set: false,
            iv_set: false,
            tag_set: false,
            data_len: None,
            started: false,
        }
    }

    /// The phase the context is in.
    pub fn phase(&self) -> (r: Phase)
        ensures
            r == self@.phase,
    {
        self.phase
    }

    /// The algorithm bound to the context, if any.
    pub fn cipher(&self) -> (r: Option<Cipher>)
        ensures
            r == self@.cipher,
    {
        self.cipher
    }

    /// The block size of the bound algorithm; `None` where it has none.
    pub fn block_size(&self) -> (r: Option<usize>)
        requires
            self@.cipher.is_some(),
        ensures
            r == self@.block_size(),
    {
        match self.cipher {
            Some(c) => positive_length(c.block_size),
            None => None,
        }
    }

    /// The negotiated key length; `None` where it is variable.
    pub fn key_length(&self) -> (r: Option<usize>)
        requires
            self@.cipher.is_some(),
        ensures
            r == self@.key_length(),
    {
        positive_length(self.key_len)
    }

    /// The negotiated IV length; `None` where the algorithm takes no IV.
    pub fn iv_length(&self) -> (r: Option<usize>)
        requires
            self@.cipher.is_some(),
        ensures
            r == self@.iv_length(),
    {
        positive_length(self.iv_len)
    }

    /// The negotiated tag length; `None` where the algorithm is not AEAD.
    pub fn tag_length(&self) -> (r: Option<usize>)
        requires
            self@.cipher.is_some(),
        ensures
            r == self@.tag_length(),
    {
        positive_length(self.tag_len)
    }
}

impl CipherCtx {
    /// Whether the context permits `call`. A caller tests this before it makes
    /// the call on the primitive; a call that is refused is a defect.
    pub fn permits(&self, call: &Call) -> (r: bool)
        requires
            self@.wf(),
        ensures
            r == self@.permits(*call),
    {
        match *call {
            Call::Init { cipher, key_len, iv_len, mode } => {
                if self.phase == Phase::Finalized {
                    return false;
                }
                let (want_key, want_iv) = match cipher {
                    Some(c) => (positive_length(c.key_len), positive_length(c.iv_len)),
                    None => {
                        if self.cipher.is_none() || mode != self.mode {
                            return false;
                        }
                        (positive_length(self.key_len), positive_length(self.iv_len))
                    },
                };
                let key_ok = match (key_len, want_key) {
                    (Some(k), Some(w)) => k == w,
                    _ => true,
                };
                let iv_ok = match (iv_len, want_iv) {
                    (Some(v), Some(w)) => v == w,
                    _ => true,
                };
                key_ok && iv_ok
            },
            Call::Query => self.cipher.is_some(),
            Call::SetKeyLength { len } => {
                self.phase == Phase::Initialized && !self.key_set && len <= C_INT_MAX
            },
            Call::SetIvLength { len } => {
                self.phase == Phase::Initialized && !self.iv_set && len <= C_INT_MAX
            },
            Call::SetTagLength { len } => {
                self.phase == Phase::Initialized && (self.mode == Mode::Encrypt || !self.started)
                    && len <= C_INT_MAX
            },
            Call::Tag { len } => {
                let tag_ok = match positive_length(self.tag_len) {
                    Some(t) => t == len,
                    None => false,
                };
                self.phase == Phase::Finalized && self.mode == Mode::Encrypt && tag_ok
            },
            Call::SetTag { len } => {
                let aead = match self.cipher {
                    Some(c) => c.tag_len > 0,
                    None => false,
                };
                self.phase == Phase::Initialized && self.mode == Mode::Decrypt && aead && len
                    <= C_INT_MAX
            },
            Call::SetPadding => self.phase == Phase::Initialized,
            Call::SetDataLen { len } => {
                self.phase == Phase::Initialized && self.data_len.is_none() && !self.started && len
                    <= C_INT_MAX
            },
            Call::Update { input_len, output_len } => {
                if self.phase != Phase::Initialized || input_len > C_INT_MAX {
                    return false;
                }
                match output_len {
                    Some(o) => o >= input_len && o - input_len >= self.headroom(),
                    None => true,
                }
            },
            Call::Finalize { output_len } => {
                self.phase == Phase::Initialized && output_len >= self.headroom()
            },
        }
    }

    /// The headroom that an update's output buffer needs beyond its input.
    fn headroom(&self) -> (r: usize)
        requires
            self@.wf(),
            self@.cipher.is_some(),
        ensures
            r as nat == self@.headroom(),
    {
        match self.block_size() {
            Some(b) => if b > 1 { b } else { 0 },
            None => 0,
        }
    }

    /// Records an initialization of the primitive with `type_` (or with the
    /// bound algorithm), an optional key and IV, and a direction.
    ///
    /// With a new algorithm the negotiated lengths return to its defaults;
    /// either way the buffering state of the message starts over.
    pub fn init(
        &mut self,
        type_: Option<&Cipher>,
        key: Option<&[u8]>,
        iv: Option<&[u8]>,
        mode: Mode,
        report: Report,
    ) -> (r: Result<(), CryptoError>)
        requires
            old(self)@.permits(
                (Call::Init { cipher: copied(type_), key_len: len_of(key), iv_len: len_of(iv), mode }),
            ),
        ensures
            r == outcome(report, ()),
            final(self)@ == (if succeeded(report) {
                old(self)@.after_init(copied(type_), key.is_some(), iv.is_some(), mode)
            } else {
                old(self)@
            }),
            final(self)@.wf(),
    {
        match cvt(report) {
            Err(e) => Err(e),
            Ok(_) => {
                match type_ {
                    Some(c) => {
                        self.cipher = Some(*c);
                        self.key_len = c.key_len;
                        self.iv_len = c.iv_len;
                        self.tag_len = c.tag_len;
                        self.key_set = key.is_some();
                        self.iv_set = iv.is_some();
                        self.tag_set = false;
                    },
                    None => {
                        self.key_set = self.key_set || key.is_some();
                        self.iv_set = self.iv_set || iv.is_some();
                    },
                }
                self.mode = mode;
                self.phase = Phase::Initialized;
                self.data_len = None;
                self.started = false;
                Ok(())
            },
        }
    }
}

impl CipherCtx {
    /// Records one update of the primitive: `input` fed in, with `output` to
    /// receive what it produced, or with no output for associated data.
    /// On success, returns the number of bytes that the primitive wrote.
    pub fn update(&mut self, input: &[u8], output: Option<&[u8]>, report: Report) -> (r: Result<
        usize,
        CryptoError,
    >)
        requires
            old(self)@.permits(
                (Call::Update { input_len: input@.len() as usize, output_len: len_of(output) }),
            ),
        ensures
            r == outcome(report, report.written as usize),
            final(self)@ == (if succeeded(report) {
                old(self)@.after_update()
            } else {
                old(self)@
            }),
            final(self)@.wf(),
    {
        let written = report.written;
        match cvt(report) {
            Err(e) => Err(e),
            Ok(_) => {
                self.started = true;
                Ok(written as usize)
            },
        }
    }

    /// Records the flush of the primitive's last block into `output`, which ends
    /// the context's use. For AEAD decryption the message is accepted only if an
    /// expected tag was supplied and the primitive verified it; otherwise the
    /// result is an authentication failure and `output` is cleared, so that no
    /// unauthenticated plaintext is left in it.
    pub fn finalize(&mut self, output: &mut [u8], report: Report) -> (r: Result<usize, CryptoError>)
        requires
            old(self)@.permits((Call::Finalize { output_len: old(output)@.len() as usize })),
        ensures
            r == old(self)@.finalize_result(report),
            final(self)@ == old(self)@.after_finalize(),
            final(self)@.wf(),
            r == Err::<usize, CryptoError>(CryptoError::AuthenticationFailure) ==> final(output)@
                == Seq::new(old(output)@.len(), |i: int| 0u8),
            r != Err::<usize, CryptoError>(CryptoError::AuthenticationFailure) ==> final(output)@
                == old(output)@,
    {
        let authenticated = match self.cipher {
            Some(c) => c.tag_len > 0 && self.mode == Mode::Decrypt,
            None => false,
        };
        self.phase = Phase::Finalized;
        if authenticated && !(self.tag_set && report.rc > 0) {
            let mut i: usize = 0;
            while i < output.len()
                invariant
                    i <= output@.len(),
                    output@.len() == old(output)@.len(),
                    forall|j: int| 0 <= j < i ==> output@[j] == 0u8,
                decreases output@.len() - i,
            {
                output[i] = 0;
                i += 1;
            }
            assert(output@ =~= Seq::new(old(output)@.len(), |i: int| 0u8));
            return Err(CryptoError::AuthenticationFailure);
        }
        let written = report.written;
        match cvt(report) {
            Err(e) => Err(e),
            Ok(_) => Ok(written as usize),
        }
    }

    /// Records the declaration, ahead of the data, of the message's total length
    /// `len`, which some AEAD modes require.
    pub fn set_data_len(&mut self, len: usize, report: Report) -> (r: Result<(), CryptoError>)
        requires
            old(self)@.permits((Call::SetDataLen { len })),
        ensures
            r == outcome(report, ()),
            final(self)@ == (if succeeded(report) {
                CtxModel { data_len: Some(len), ..old(self)@ }
            } else {
                old(self)@
            }),
            final(self)@.wf(),
    {
        match cvt(report) {
            Err(e) => Err(e),
            Ok(_) => {
                self.data_len = Some(len);
                Ok(())
            },
        }
    }
}

impl CipherCtx {
    /// Records an override of the key length to `len`, for algorithms whose key
    /// length is variable. It must come before a key is supplied.
    pub fn set_key_length(&mut self, len: usize, report: Report) -> (r: Result<(), CryptoError>)
        requires
            old(self)@.permits((Call::SetKeyLength { len })),
        ensures
            r == outcome(report, ()),
            final(self)@ == (if succeeded(report) {
                CtxModel { key_len: len as c_int, ..old(self)@ }
            } else {
                old(self)@
            }),
            final(self)@.wf(),
    {
        let raw = to_c_int(len);
        match cvt(report) {
            Err(e) => Err(e),
            Ok(_) => {
                self.key_len = raw;
                Ok(())
            },
        }
    }

    /// Records an override of the IV length to `len`, an AEAD control. It must
    /// come before an IV is supplied.
    pub fn set_iv_length(&mut self, len: usize, report: Report) -> (r: Result<(), CryptoError>)
        requires
            old(self)@.permits((Call::SetIvLength { len })),
        ensures
            r == outcome(report, ()),
            final(self)@ == (if succeeded(report) {
                CtxModel { iv_len: len as c_int, ..old(self)@ }
            } else {
                old(self)@
            }),
            final(self)@.wf(),
    {
        let raw = to_c_int(len);
        match cvt(report) {
            Err(e) => Err(e),
            Ok(_) => {
                self.iv_len = raw;
                Ok(())
            },
        }
    }

    /// Records an override of the tag length to `len`. When decrypting it must
    /// come before any data is fed.
    pub fn set_tag_length(&mut self, len: usize, report: Report) -> (r: Result<(), CryptoError>)
        requires
            old(self)@.permits((Call::SetTagLength { len })),
        ensures
            r == outcome(report, ()),
            final(self)@ == (if succeeded(report) {
                CtxModel { tag_len: len as c_int, ..old(self)@ }
            } else {
                old(self)@
            }),
            final(self)@.wf(),
    {
        let raw = to_c_int(len);
        match cvt(report) {
            Err(e) => Err(e),
            Ok(_) => {
                self.tag_len = raw;
                Ok(())
            },
        }
    }

    /// Records the supply of the expected tag `tag` for AEAD decryption; the
    /// negotiated tag length becomes its length.
    pub fn set_tag(&mut self, tag: &[u8], report: Report) -> (r: Result<(), CryptoError>)
        requires
            old(self)@.permits((Call::SetTag { len: tag@.len() as usize })),
        ensures
            r == outcome(report, ()),
            final(self)@ == (if succeeded(report) {
                CtxModel { tag_len: tag@.len() as c_int, tag_set: true, ..old(self)@ }
            } else {
                old(self)@
            }),
            final(self)@.wf(),
    {
        let raw = to_c_int(tag.len());
        match cvt(report) {
            Err(e) => Err(e),
            Ok(_) => {
                self.tag_len = raw;
                self.tag_set = true;
                Ok(())
            },
        }
    }

    /// Records the read of the computed tag into `tag`, after encryption was
    /// finalized. The buffer holds exactly the negotiated tag length.
    pub fn tag(&self, tag: &[u8], report: Report) -> (r: Result<(), CryptoError>)
        requires
            self@.permits((Call::Tag { len: tag@.len() as usize })),
        ensures
            r == outcome(report, ()),
    {
        match cvt(report) {
            Err(e) => Err(e),
            Ok(_) => Ok(()),
        }
    }

    /// Turns block padding on or off.
    pub fn set_padding(&mut self, padding: bool)
        requires
            old(self)@.permits(Call::SetPadding),
        ensures
            final(self)@ == (CtxModel { padding, ..old(self)@ }),
            final(self)@.wf(),
    {
        self.padding = padding;
    }

    /// Whether block padding is on.
    pub fn padding(&self) -> (r: bool)
        ensures
            r == self@.padding,
    {
        self.padding
    }
}

} // verus!
