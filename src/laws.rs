//! Laws of the context's state machine, stated over its model.
use crate::ctx::{Call, Cipher, CtxModel, Mode, Phase};
use crate::error::{succeeded, CryptoError, Report};
use vstd::prelude::*;

verus! {

/// The block size and the negotiated lengths do not change under updates,
/// finalization, a change of padding or a declaration of the data length: read
/// again after any of these, they give the same values.
pub proof fn lemma_metadata_stable(m: CtxModel, padding: bool, len: usize)
    requires
        m.wf(),
        m.cipher.is_some(),
    ensures
        m.after_update().metadata() == m.metadata(),
        m.after_finalize().metadata() == m.metadata(),
        (CtxModel { padding, ..m }).metadata() == m.metadata(),
        (CtxModel { data_len: Some(len), ..m }).metadata() == m.metadata(),
{
}

/// AEAD decryption accepts a message only when an expected tag was supplied and
/// the primitive verified it; every other outcome, whatever the primitive
/// reported, is an authentication failure.
pub proof fn lemma_aead_decrypt_accepts_only_verified(m: CtxModel, report: Report)
    requires
        m.wf(),
        m.cipher.is_some(),
        m.mode == Mode::Decrypt,
        m.is_aead(),
    ensures
        m.finalize_result(report) is Ok <==> (m.tag_set && succeeded(report)),
        !(m.finalize_result(report) is Ok) ==> m.finalize_result(report)
            == Err::<usize, CryptoError>(CryptoError::AuthenticationFailure),
{
}

/// An update whose output buffer is shorter than its input plus one block of
/// headroom is never permitted, so it never reaches the primitive.
pub proof fn lemma_undersized_update_refused(m: CtxModel, input_len: usize, output_len: usize)
    requires
        output_len < input_len + m.headroom(),
    ensures
        !m.permits((Call::Update { input_len, output_len: Some(output_len) })),
{
}

/// A context that was just initialized may be finalized at once, with no update
/// in between, into a buffer of one block.
pub proof fn lemma_finalize_right_after_init(
    m: CtxModel,
    cipher: Option<Cipher>,
    key_len: Option<usize>,
    iv_len: Option<usize>,
    mode: Mode,
    output_len: usize,
)
    requires
        m.permits((Call::Init { cipher, key_len, iv_len, mode })),
        output_len >= m.after_init(cipher, key_len.is_some(), iv_len.is_some(), mode).headroom(),
    ensures
        m.after_init(cipher, key_len.is_some(), iv_len.is_some(), mode).permits(
            (Call::Finalize { output_len }),
        ),
        m.after_init(cipher, key_len.is_some(), iv_len.is_some(), mode).phase == Phase::Initialized,
{
}

/// What the engine tracks of a message does not depend on how it was split:
/// after several successful updates the context is in the state that one
/// update leaves.
pub proof fn lemma_update_state_split_alike(m: CtxModel)
    ensures
        m.after_update().after_update() == m.after_update(),
{
}

/// The rank of a phase in the lifecycle.
pub open spec fn phase_rank(p: Phase) -> nat {
    match p {
        Phase::Fresh => 0,
        Phase::Initialized => 1,
        Phase::Finalized => 2,
    }
}

/// The lifecycle only moves forward: an initialization, an update or a
/// finalization that the context permits never returns it to an earlier phase.
pub proof fn lemma_phase_monotonic(
    m: CtxModel,
    cipher: Option<Cipher>,
    key_len: Option<usize>,
    iv_len: Option<usize>,
    mode: Mode,
    input_len: usize,
    output_len: Option<usize>,
    final_len: usize,
)
    ensures
        m.permits((Call::Init { cipher, key_len, iv_len, mode })) ==> phase_rank(m.phase)
            <= phase_rank(m.after_init(cipher, key_len.is_some(), iv_len.is_some(), mode).phase),
        m.permits((Call::Update { input_len, output_len })) ==> m.after_update().phase == m.phase,
        m.permits((Call::Finalize { output_len: final_len })) ==> phase_rank(m.phase) < phase_rank(
            m.after_finalize().phase,
        ),
{
}

} // verus!
